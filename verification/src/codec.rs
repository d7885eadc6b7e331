//! The binary marshaller: how values are laid out in the buffers that cross
//! the boundary between host and guest.
//!
//! Unsigned integers are fixed-width and little-endian. A byte sequence is
//! its length in compact form followed by its bytes. A value of an enum is
//! one byte, the index of its variant, followed by what the variant holds.

use vstd::prelude::*;
use vstd::slice::{slice_subrange, slice_to_vec};
use parity_scale_codec::Encode;

verus! {

/// Why a buffer is not the encoding of any value.
#[derive(Debug, Copy, Clone, PartialEq, Eq, Structural)]
pub enum DecodeError {
    /// The buffer ends before the value does.
    Truncated,
    /// A compact length is written in more bytes than it needs, or does not
    /// fit in 32 bits.
    NonCanonical,
    /// Bytes are left over behind the value.
    TrailingBytes,
    /// The first byte names no variant of the enum.
    UnknownVariant,
    /// The buffer has more than `MAX_LENGTH` bytes.
    TooLarge,
}

/// The most bytes that a byte sequence may have when it comes into the
/// boundary from outside: a longer one is turned away before anything in it
/// is looked at.
pub const MAX_LENGTH: usize = 50;

/// A byte sequence that has been held against the bound: it has at most
/// `MAX_LENGTH` bytes.
pub struct CallBuffer {
    bytes: Vec<u8>,
}

impl View for CallBuffer {
    type V = Seq<u8>;

    closed spec fn view(&self) -> Seq<u8> {
        self.bytes@
    }
}

impl CallBuffer {
    #[verifier::type_invariant]
    spec fn bounded(self) -> bool {
        self.bytes@.len() <= MAX_LENGTH
    }

    /// Holds `bytes` against the bound: `None` if they are too many.
    pub fn new(bytes: Vec<u8>) -> (r: Option<CallBuffer>)
        ensures
            r is Some <==> bytes@.len() <= MAX_LENGTH,
            r is Some ==> r->Some_0@ == bytes@,
    {
        if bytes.len() <= MAX_LENGTH {
            Some(CallBuffer { bytes })
        } else {
            None
        }
    }

    /// The number of bytes.
    pub fn len(&self) -> (n: usize)
        ensures
            n == self@.len(),
            n <= MAX_LENGTH,
    {
        proof {
            use_type_invariant(self);
        }
        self.bytes.len()
    }

    /// The bytes.
    pub fn bytes(&self) -> (bytes: &Vec<u8>)
        ensures
            bytes@ == self@,
            bytes@.len() <= MAX_LENGTH,
    {
        proof {
            use_type_invariant(self);
        }
        &self.bytes
    }

    /// Gives the bytes back.
    pub fn into_bytes(self) -> (bytes: Vec<u8>)
        ensures
            bytes@ == self@,
            bytes@.len() <= MAX_LENGTH,
    {
        proof {
            use_type_invariant(&self);
        }
        self.bytes
    }
}

// ---------------------------------------------------------------------------
// Fixed-width integers
// ---------------------------------------------------------------------------

/// The four bytes of `x`, least significant first.
pub open spec fn u32_le(x: u32) -> Seq<u8> {
    seq![
        (x % 256) as u8,
        (x / 256 % 256) as u8,
        (x / 65536 % 256) as u8,
        (x / 16777216) as u8,
    ]
}

/// The number whose little-endian bytes are the first four of `s`.
pub open spec fn u32_of_le(s: Seq<u8>) -> u32
    recommends
        s.len() >= 4,
{
    (s[0] as int + 256 * (s[1] as int) + 65536 * (s[2] as int) + 16777216 * (s[3] as int)) as u32
}

/// Reading back the bytes of a number gives the number.
pub proof fn lemma_u32_le_inverse(x: u32)
    ensures
        u32_le(x).len() == 4,
        u32_of_le(u32_le(x)) == x,
{
}

/// Splits a number into its lowest byte and the rest.
proof fn lemma_split_low_byte(low: int, rest: int)
    requires
        0 <= low < 256,
    ensures
        (low + 256 * rest) % 256 == low,
        (low + 256 * rest) / 256 == rest,
{
}

/// Writing out the number read from four bytes gives the four bytes.
pub proof fn lemma_u32_of_le_inverse(s: Seq<u8>)
    requires
        s.len() == 4,
    ensures
        u32_le(u32_of_le(s)) == s,
{
    let b0 = s[0] as int;
    let b1 = s[1] as int;
    let b2 = s[2] as int;
    let b3 = s[3] as int;
    let x = u32_of_le(s);
    assert(x == b0 + 256 * (b1 + 256 * (b2 + 256 * b3)));
    lemma_split_low_byte(b0, b1 + 256 * (b2 + 256 * b3));
    lemma_split_low_byte(b1, b2 + 256 * b3);
    lemma_split_low_byte(b2, b3);
    assert(x / 256 == b1 + 256 * (b2 + 256 * b3));
    assert(x / 65536 == b2 + 256 * b3) by {
        assert(x / 65536 == (x / 256) / 256);
    }
    assert(x / 16777216 == b3) by {
        assert(x / 16777216 == (x / 65536) / 256);
    }
    assert(u32_le(x) =~= s);
}

/// What `decode_u32` makes of a buffer.
pub open spec fn spec_decode_u32(buf: Seq<u8>) -> Result<u32, DecodeError> {
    if buf.len() < 4 {
        Err(DecodeError::Truncated)
    } else if buf.len() > 4 {
        Err(DecodeError::TrailingBytes)
    } else {
        Ok(u32_of_le(buf))
    }
}

/// Encodes a `u32` as four little-endian bytes.
pub fn encode_u32(x: u32) -> (out: Vec<u8>)
    ensures
        out@ == u32_le(x),
{
    let mut out: Vec<u8> = Vec::with_capacity(4);
    out.push((x % 256) as u8);
    out.push((x / 256 % 256) as u8);
    out.push((x / 65536 % 256) as u8);
    out.push((x / 16777216) as u8);
    assert(out@ =~= u32_le(x));
    out
}

/// Reads the `u32` whose four bytes start at place `at` of `buf`.
pub fn read_u32(buf: &[u8], at: usize) -> (x: u32)
    requires
        at + 4 <= buf@.len(),
    ensures
        x == u32_of_le(buf@.subrange(at as int, at + 4)),
{
    let b0: u32 = buf[at] as u32;
    let b1: u32 = buf[at + 1] as u32;
    let b2: u32 = buf[at + 2] as u32;
    let b3: u32 = buf[at + 3] as u32;
    b0 + 256 * b1 + 65536 * b2 + 16777216 * b3
}

/// Decodes a buffer that holds one `u32` and nothing else.
pub fn decode_u32(buf: &[u8]) -> (r: Result<u32, DecodeError>)
    ensures
        r == spec_decode_u32(buf@),
{
    if buf.len() < 4 {
        Err(DecodeError::Truncated)
    } else if buf.len() > 4 {
        Err(DecodeError::TrailingBytes)
    } else {
        assert(buf@.subrange(0, 4) =~= buf@);
        Ok(read_u32(buf, 0))
    }
}

// ---------------------------------------------------------------------------
// Compact lengths
// ---------------------------------------------------------------------------

/// The compact form of a length `n` that fits in 32 bits. The two lowest
/// bits of the first byte say how many bytes follow: lengths below 2^6 take
/// one byte, below 2^14 two, below 2^30 four, and the others five.
pub open spec fn compact_len(n: nat) -> Seq<u8>
    recommends
        n <= u32::MAX,
{
    if n < 64 {
        seq![(4 * n) as u8]
    } else if n < 16384 {
        seq![((4 * n + 1) % 256) as u8, ((4 * n + 1) / 256) as u8]
    } else if n < 1073741824 {
        u32_le((4 * n + 2) as u32)
    } else {
        seq![3u8] + u32_le(n as u32)
    }
}

/// What `read_compact` makes of the start of a buffer: the length, and how
/// many bytes its compact form takes. A form that is longer than the length
/// needs is refused, so each length has one form only.
pub open spec fn spec_read_compact(buf: Seq<u8>) -> Result<(u32, nat), DecodeError> {
    if buf.len() == 0 {
        Err(DecodeError::Truncated)
    } else if buf[0] % 4 == 0 {
        Ok(((buf[0] / 4) as u32, 1))
    } else if buf[0] % 4 == 1 {
        if buf.len() < 2 {
            Err(DecodeError::Truncated)
        } else if (buf[0] as int + 256 * (buf[1] as int)) / 4 < 64 {
            Err(DecodeError::NonCanonical)
        } else {
            Ok((((buf[0] as int + 256 * (buf[1] as int)) / 4) as u32, 2))
        }
    } else if buf[0] % 4 == 2 {
        if buf.len() < 4 {
            Err(DecodeError::Truncated)
        } else if u32_of_le(buf) / 4 < 16384 {
            Err(DecodeError::NonCanonical)
        } else {
            Ok((u32_of_le(buf) / 4, 4))
        }
    } else if buf[0] != 3 {
        Err(DecodeError::NonCanonical)
    } else if buf.len() < 5 {
        Err(DecodeError::Truncated)
    } else if u32_of_le(buf.subrange(1, 5)) < 1073741824 {
        Err(DecodeError::NonCanonical)
    } else {
        Ok((u32_of_le(buf.subrange(1, 5)), 5))
    }
}

/// Reads the compact length at the start of `buf`.
pub fn read_compact(buf: &[u8]) -> (r: Result<(u32, usize), DecodeError>)
    ensures
        match r {
            Ok((n, used)) => spec_read_compact(buf@) == Ok::<(u32, nat), DecodeError>(
                (n, used as nat),
            ),
            Err(e) => spec_read_compact(buf@) == Err::<(u32, nat), DecodeError>(e),
        },
{
    if buf.len() == 0 {
        return Err(DecodeError::Truncated);
    }
    let first: u8 = buf[0];
    let mode: u8 = first % 4;
    if mode == 0 {
        Ok(((first / 4) as u32, 1))
    } else if mode == 1 {
        if buf.len() < 2 {
            return Err(DecodeError::Truncated);
        }
        let word: u32 = first as u32 + 256 * (buf[1] as u32);
        let n: u32 = word / 4;
        if n < 64 {
            Err(DecodeError::NonCanonical)
        } else {
            Ok((n, 2))
        }
    } else if mode == 2 {
        if buf.len() < 4 {
            return Err(DecodeError::Truncated);
        }
        let word: u32 = read_u32(buf, 0);
        assert(u32_of_le(buf@.subrange(0, 4)) == u32_of_le(buf@));
        let n: u32 = word / 4;
        if n < 16384 {
            Err(DecodeError::NonCanonical)
        } else {
            Ok((n, 4))
        }
    } else if first != 3 {
        Err(DecodeError::NonCanonical)
    } else if buf.len() < 5 {
        Err(DecodeError::Truncated)
    } else {
        let n: u32 = read_u32(buf, 1);
        if n < 1073741824 {
            Err(DecodeError::NonCanonical)
        } else {
            Ok((n, 5))
        }
    }
}

/// The two lowest bits of a number are those of its lowest byte.
proof fn lemma_low_bits(low: int, rest: int)
    requires
        0 <= low < 256,
    ensures
        (low + 256 * rest) % 4 == low % 4,
{
    assert(low + 256 * rest == low + 4 * (64 * rest));
}

/// The compact form of a length is read back as that length, whatever
/// follows it in the buffer.
pub proof fn lemma_read_compact_inverse(n: nat, rest: Seq<u8>)
    requires
        n <= u32::MAX,
    ensures
        1 <= compact_len(n).len() <= 5,
        spec_read_compact(compact_len(n) + rest) == Ok::<(u32, nat), DecodeError>(
            (n as u32, compact_len(n).len()),
        ),
{
    let form = compact_len(n);
    let buf = form + rest;
    if n < 64 {
        assert(buf[0] == form[0]);
    } else if n < 16384 {
        let word = (4 * n + 1) as int;
        assert(buf[0] == form[0] && buf[1] == form[1]);
        lemma_low_bits(word % 256, word / 256);
        assert(buf[0] as int + 256 * (buf[1] as int) == word);
    } else if n < 1073741824 {
        let word = (4 * n + 2) as u32;
        lemma_u32_le_inverse(word);
        assert(buf[0] == form[0] && buf[1] == form[1] && buf[2] == form[2] && buf[3] == form[3]);
        assert(u32_of_le(buf) == u32_of_le(form));
        lemma_low_bits(word as int % 256, word as int / 256);
    } else {
        lemma_u32_le_inverse(n as u32);
        assert(buf[0] == 3u8);
        assert(buf.subrange(1, 5) =~= u32_le(n as u32));
    }
}

/// A buffer from which a length is read starts with the compact form of
/// that length: no other bytes are read as it.
pub proof fn lemma_read_compact_canonical(buf: Seq<u8>)
    requires
        spec_read_compact(buf) is Ok,
    ensures
        ({
            let (n, used) = spec_read_compact(buf)->Ok_0;
            &&& used <= buf.len()
            &&& buf.subrange(0, used as int) == compact_len(n as nat)
        }),
{
    let (n, used) = spec_read_compact(buf)->Ok_0;
    let first = buf[0] as int;
    if first % 4 == 0 {
        assert(buf.subrange(0, 1) =~= compact_len(n as nat));
    } else if first % 4 == 1 {
        let word = first + 256 * (buf[1] as int);
        lemma_low_bits(first, buf[1] as int);
        lemma_split_low_byte(first, buf[1] as int);
        assert(word == 4 * n + 1);
        assert(buf.subrange(0, 2) =~= compact_len(n as nat));
    } else if first % 4 == 2 {
        let head = buf.subrange(0, 4);
        let word = u32_of_le(buf);
        assert(u32_of_le(head) == word);
        lemma_u32_of_le_inverse(head);
        lemma_low_bits(
            first,
            buf[1] as int + 256 * (buf[2] as int) + 65536 * (buf[3] as int),
        );
        assert(word == 4 * n + 2);
    } else {
        let body = buf.subrange(1, 5);
        lemma_u32_of_le_inverse(body);
        assert(buf.subrange(0, 5) =~= seq![3u8] + u32_le(n));
    }
}

// ---------------------------------------------------------------------------
// Call payloads
// ---------------------------------------------------------------------------

/// The encoding of a byte sequence: its length in compact form, then its
/// bytes.
pub open spec fn encoded_bytes(bytes: Seq<u8>) -> Seq<u8>
    recommends
        bytes.len() <= u32::MAX,
{
    compact_len(bytes.len()) + bytes
}

/// The payload of a call into the guest: the encoding of the selector, then
/// the argument as four little-endian bytes.
pub open spec fn encoded_call(selector: Seq<u8>, arg: u32) -> Seq<u8>
    recommends
        selector.len() <= u32::MAX,
{
    encoded_bytes(selector) + u32_le(arg)
}

/// What `decode` makes of a buffer: the selector and the argument of the
/// call that the buffer is the payload of, or the first thing that is wrong
/// with it.
pub open spec fn decoded_call(buf: Seq<u8>) -> Result<(Seq<u8>, u32), DecodeError> {
    match spec_read_compact(buf) {
        Err(e) => Err(e),
        Ok((n, used)) => {
            if buf.len() < used + n + 4 {
                Err(DecodeError::Truncated)
            } else if buf.len() > used + n + 4 {
                Err(DecodeError::TrailingBytes)
            } else {
                Ok(
                    (
                        buf.subrange(used as int, used + n),
                        u32_of_le(buf.subrange(used + n, used + n + 4)),
                    ),
                )
            }
        },
    }
}

/// `parity_scale_codec::Encode::encode` on the pair of a byte vector and a
/// `u32`. The codec writes a pair as its first part followed by its second,
/// a vector of bytes as its length in compact form followed by the bytes,
/// and a `u32` as four little-endian bytes. It panics on a vector of more
/// than `u32::MAX` items, which `requires` leaves out.
#[verifier::external_body]
fn scale_encode_call(selector: &Vec<u8>, arg: u32) -> (out: Vec<u8>)
    requires
        selector@.len() <= u32::MAX,
    ensures
        out@ == encoded_call(selector@, arg),
{
    (selector, arg).encode()
}

/// `parity_scale_codec::Encode::encode` on an array of one `u32`. The codec
/// writes an array as its items one after the other, with no length in
/// front, and a `u32` as four little-endian bytes.
#[verifier::external_body]
fn scale_encode_word(word: u32) -> (out: Vec<u8>)
    ensures
        out@ == u32_le(word),
{
    [word].encode()
}

/// Builds the payload of a call into the guest from the selector of the
/// method and its argument.
pub fn encode(selector: &Vec<u8>, arg: u32) -> (out: Vec<u8>)
    requires
        selector@.len() <= u32::MAX,
    ensures
        out@ == encoded_call(selector@, arg),
{
    scale_encode_call(selector, arg)
}

/// Builds the payload of a call that names the guest's method by one 32-bit
/// word and passes no argument: the four bytes of the word.
pub fn encode_word(word: u32) -> (out: Vec<u8>)
    ensures
        out@ == u32_le(word),
{
    scale_encode_word(word)
}

/// Takes a payload apart into the selector and the argument. A buffer that
/// ends early, holds more than the payload, or writes the selector's length
/// in another form than `encode` does, is refused.
pub fn decode(buf: &[u8]) -> (r: Result<(Vec<u8>, u32), DecodeError>)
    ensures
        match r {
            Ok((selector, arg)) => decoded_call(buf@) == Ok::<(Seq<u8>, u32), DecodeError>(
                (selector@, arg),
            ),
            Err(e) => decoded_call(buf@) == Err::<(Seq<u8>, u32), DecodeError>(e),
        },
{
    match read_compact(buf) {
        Err(e) => Err(e),
        Ok((n, used)) => {
            let have: u64 = buf.len() as u64;
            let need: u64 = used as u64 + n as u64 + 4;
            if have < need {
                Err(DecodeError::Truncated)
            } else if have > need {
                Err(DecodeError::TrailingBytes)
            } else {
                let end: usize = used + n as usize;
                let selector: Vec<u8> = slice_to_vec(slice_subrange(buf, used, end));
                let arg: u32 = read_u32(buf, end);
                Ok((selector, arg))
            }
        },
    }
}

/// Round trip: the payload built from a selector and an argument is taken
/// apart into that selector and that argument.
pub proof fn lemma_decode_encode(selector: Seq<u8>, arg: u32)
    requires
        selector.len() <= u32::MAX,
    ensures
        decoded_call(encoded_call(selector, arg)) == Ok::<(Seq<u8>, u32), DecodeError>(
            (selector, arg),
        ),
{
    let n = selector.len();
    let form = compact_len(n);
    let buf = encoded_call(selector, arg);
    lemma_read_compact_inverse(n, selector + u32_le(arg));
    assert(buf =~= form + (selector + u32_le(arg)));
    let used = form.len() as int;
    lemma_u32_le_inverse(arg);
    assert(buf.subrange(used, used + n) =~= selector);
    assert(buf.subrange(used + n, used + n + 4) =~= u32_le(arg));
}

/// Each call has one payload: a buffer that is taken apart into a selector
/// and an argument is the payload built from them.
pub proof fn lemma_encode_decode(buf: Seq<u8>)
    requires
        decoded_call(buf) is Ok,
    ensures
        ({
            let (selector, arg) = decoded_call(buf)->Ok_0;
            &&& selector.len() <= u32::MAX
            &&& encoded_call(selector, arg) == buf
        }),
{
    let (n, used) = spec_read_compact(buf)->Ok_0;
    let (selector, arg) = decoded_call(buf)->Ok_0;
    lemma_read_compact_canonical(buf);
    lemma_u32_of_le_inverse(buf.subrange(used + n, used + n + 4));
    assert(encoded_call(selector, arg) =~= buf);
}

} // verus!
