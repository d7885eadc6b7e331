//! The status codes that the host hands back to the guest, and their meaning.

use vstd::prelude::*;
use crate::codec::DecodeError;
use crate::violation::ProtocolViolation;

verus! {

/// Why a call from the guest into the host runtime failed.
#[derive(Debug, Copy, Clone, PartialEq, Eq, Structural)]
pub enum RuntimeCallErr {
    FailToCallRuntime,
}

/// The status code of a call that succeeded.
pub const STATUS_SUCCESS: u32 = 0;

/// The status code of a call that the runtime could not carry out.
pub const STATUS_FAIL_TO_CALL_RUNTIME: u32 = 1;

/// Whether `code` is one of the status codes that host and guest agree on.
pub open spec fn is_known_status(code: u32) -> bool {
    code == STATUS_SUCCESS || code == STATUS_FAIL_TO_CALL_RUNTIME
}

/// What a known status code means to the guest.
pub open spec fn status_meaning(code: u32) -> Result<(), RuntimeCallErr> {
    if code == STATUS_SUCCESS {
        Ok(())
    } else {
        Err(RuntimeCallErr::FailToCallRuntime)
    }
}

impl RuntimeCallErr {
    /// The status code under which the host reports this error.
    pub open spec fn spec_status_code(self) -> u32 {
        STATUS_FAIL_TO_CALL_RUNTIME
    }

    /// The status code under which the host reports this error.
    pub fn status_code(&self) -> (code: u32)
        ensures
            code == self.spec_status_code(),
            code != STATUS_SUCCESS,
            is_known_status(code),
            status_meaning(code) == Err::<(), RuntimeCallErr>(*self),
    {
        match self {
            RuntimeCallErr::FailToCallRuntime => STATUS_FAIL_TO_CALL_RUNTIME,
        }
    }

    /// Reads a status code that host and guest agree on: `0` is success, `1`
    /// is `FailToCallRuntime`. Any other code is left out: it shows that the
    /// two sides were built from different tables.
    pub fn from_status_code(status_code: u32) -> (r: Result<(), RuntimeCallErr>)
        requires
            is_known_status(status_code),
        ensures
            r == status_meaning(status_code),
    {
        if status_code == STATUS_SUCCESS {
            Ok(())
        } else {
            Err(RuntimeCallErr::FailToCallRuntime)
        }
    }
}

/// What `translate` makes of a status code.
pub open spec fn spec_translate(code: u32) -> Result<Result<(), RuntimeCallErr>, ProtocolViolation> {
    if is_known_status(code) {
        Ok(status_meaning(code))
    } else {
        Err(ProtocolViolation::UnknownStatus(code))
    }
}

/// Reads any status code: a known one gives its meaning, success or the
/// error it stands for; an unknown one is a protocol violation, which is no
/// error of the call but a fault in how the two sides were built.
pub fn translate(code: u32) -> (r: Result<Result<(), RuntimeCallErr>, ProtocolViolation>)
    ensures
        r == spec_translate(code),
        r is Ok <==> is_known_status(code),
{
    if code == STATUS_SUCCESS || code == STATUS_FAIL_TO_CALL_RUNTIME {
        Ok(RuntimeCallErr::from_status_code(code))
    } else {
        Err(ProtocolViolation::UnknownStatus(code))
    }
}

/// Each error has one status code, and that code is read back as the error.
pub proof fn lemma_status_code_read_back(error: RuntimeCallErr)
    ensures
        is_known_status(error.spec_status_code()),
        error.spec_status_code() != STATUS_SUCCESS,
        spec_translate(error.spec_status_code()) == Ok::<
            Result<(), RuntimeCallErr>,
            ProtocolViolation,
        >(Err(error)),
{
}

// ---------------------------------------------------------------------------
// The error on the wire
// ---------------------------------------------------------------------------

impl RuntimeCallErr {
    /// The encoding of the error: one byte, the index of its variant.
    pub open spec fn encoded(self) -> Seq<u8> {
        seq![0u8]
    }

    /// What `decode` makes of a buffer.
    pub open spec fn decoded(buf: Seq<u8>) -> Result<RuntimeCallErr, DecodeError> {
        if buf.len() == 0 {
            Err(DecodeError::Truncated)
        } else if buf[0] != 0 {
            Err(DecodeError::UnknownVariant)
        } else if buf.len() > 1 {
            Err(DecodeError::TrailingBytes)
        } else {
            Ok(RuntimeCallErr::FailToCallRuntime)
        }
    }

    /// Encodes the error.
    pub fn encode(&self) -> (out: Vec<u8>)
        ensures
            out@ == self.encoded(),
            RuntimeCallErr::decoded(out@) == Ok::<RuntimeCallErr, DecodeError>(*self),
    {
        let mut out: Vec<u8> = Vec::with_capacity(1);
        match self {
            RuntimeCallErr::FailToCallRuntime => out.push(0),
        }
        assert(out@ =~= self.encoded());
        out
    }

    /// Decodes a buffer that holds one error and nothing else.
    pub fn decode(buf: &[u8]) -> (r: Result<RuntimeCallErr, DecodeError>)
        ensures
            r == RuntimeCallErr::decoded(buf@),
            r is Ok ==> buf@ == r->Ok_0.encoded(),
    {
        if buf.len() == 0 {
            Err(DecodeError::Truncated)
        } else if buf[0] != 0 {
            Err(DecodeError::UnknownVariant)
        } else if buf.len() > 1 {
            Err(DecodeError::TrailingBytes)
        } else {
            assert(buf@ =~= seq![0u8]);
            Ok(RuntimeCallErr::FailToCallRuntime)
        }
    }
}

} // verus!
