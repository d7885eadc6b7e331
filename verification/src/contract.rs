//! The guest: a contract that keeps one number, and that calls the host
//! through two extension functions.
//!
//! The contract does not reach the host from here. A method that calls the
//! host hands back an `ExtensionCall`, which says which function to call
//! and with what input; the caller makes the call and hands the host's
//! status code and output to `ExampleExtension::extension_result`.

use vstd::prelude::*;
use crate::codec::{decode_u32, encode_u32, spec_decode_u32, u32_le};
use crate::identity::AccountId;
use crate::status::{is_known_status, status_meaning, translate, RuntimeCallErr, STATUS_SUCCESS};
use crate::violation::ProtocolViolation;

verus! {

/// The function id under which the host stores a number for the guest.
pub const DO_STORE_IN_MAP: u32 = 1;

/// The function id under which the host makes a transfer for the guest.
pub const DO_SEND_TO_TRANSFER: u32 = 2;

/// The notification that the stored number changed.
#[derive(Debug, Copy, Clone, PartialEq, Eq, Structural)]
pub struct UpdatedNum {
    /// The number that is stored now.
    pub result: u32,
}

/// A call of an extension function of the host that waits to be made.
#[derive(Debug, Clone, PartialEq, Eq)]
pub struct ExtensionCall {
    /// The id of the function.
    pub func_id: u32,
    /// The encoded input.
    pub input: Vec<u8>,
}

/// The contract's storage.
#[derive(Debug, Copy, Clone, PartialEq, Eq)]
pub struct ExampleExtension {
    stored_number: u32,
}

impl View for ExampleExtension {
    type V = u32;

    /// The number that the contract keeps.
    closed spec fn view(&self) -> u32 {
        self.stored_number
    }
}

/// What the guest makes of the host's answer to an extension call: the
/// status code is read first, and only where it says success is the output
/// read, as the `u32` that the function hands back.
pub open spec fn spec_extension_output(status_code: u32, output: Seq<u8>) -> Result<
    Result<u32, RuntimeCallErr>,
    ProtocolViolation,
> {
    if !is_known_status(status_code) {
        Err(ProtocolViolation::UnknownStatus(status_code))
    } else if status_code != STATUS_SUCCESS {
        Ok(Err(status_meaning(status_code)->Err_0))
    } else {
        match spec_decode_u32(output) {
            Err(e) => Err(ProtocolViolation::MalformedBuffer(e)),
            Ok(value) => Ok(Ok(value)),
        }
    }
}

/// What a method that made an extension call answers: what the extension
/// function answered, without the number that it handed back.
pub open spec fn spec_extension_result(status_code: u32, output: Seq<u8>) -> Result<
    Result<(), RuntimeCallErr>,
    ProtocolViolation,
> {
    match spec_extension_output(status_code, output) {
        Err(violation) => Err(violation),
        Ok(Err(error)) => Ok(Err(error)),
        Ok(Ok(_)) => Ok(Ok(())),
    }
}

impl ExampleExtension {
    /// The contract as it is made: the number is 0.
    pub fn default() -> (contract: ExampleExtension)
        ensures
            contract@ == 0,
    {
        ExampleExtension { stored_number: 0 }
    }

    /// The contract that keeps `number`.
    pub fn new(number: u32) -> (contract: ExampleExtension)
        ensures
            contract@ == number,
    {
        ExampleExtension { stored_number: number }
    }

    /// The number that the contract keeps.
    pub fn get(&self) -> (number: u32)
        ensures
            number == self@,
    {
        self.stored_number
    }

    /// Sets the number to `value`, and hands back the notification to send
    /// out.
    pub fn set_value(&mut self, value: u32) -> (r: Result<UpdatedNum, RuntimeCallErr>)
        ensures
            final(self)@ == value,
            r == Ok::<UpdatedNum, RuntimeCallErr>(UpdatedNum { result: value }),
    {
        self.stored_number = value;
        Ok(UpdatedNum { result: value })
    }

    /// Adds `value` to the number, and hands back the notification to send
    /// out. The sum must fit in 32 bits.
    pub fn add_to_value(&mut self, value: u32) -> (r: Result<UpdatedNum, RuntimeCallErr>)
        requires
            old(self)@ + value <= u32::MAX,
        ensures
            final(self)@ == old(self)@ + value,
            r == Ok::<UpdatedNum, RuntimeCallErr>(UpdatedNum { result: final(self)@ }),
    {
        self.stored_number = self.stored_number + value;
        Ok(UpdatedNum { result: self.stored_number })
    }

    /// Asks the host to store `value`: the call to make is that of
    /// `DO_STORE_IN_MAP`, with the four bytes of `value` as input. The
    /// contract itself does not change.
    pub fn store_in_map(&mut self, value: u32) -> (call: ExtensionCall)
        ensures
            *final(self) == *old(self),
            call.func_id == DO_STORE_IN_MAP,
            call.input@ == u32_le(value),
    {
        ExtensionCall { func_id: DO_STORE_IN_MAP, input: encode_u32(value) }
    }

    /// Asks the host to transfer `amount` to `recipient`: the call to make
    /// is that of `DO_SEND_TO_TRANSFER`, with the four bytes of `amount`
    /// followed by the 32 bytes of `recipient` as input. The contract
    /// itself does not change.
    pub fn send_to_transfer(&mut self, amount: u32, recipient: AccountId) -> (call: ExtensionCall)
        ensures
            *final(self) == *old(self),
            call.func_id == DO_SEND_TO_TRANSFER,
            call.input@ == u32_le(amount) + recipient@,
    {
        let mut input: Vec<u8> = encode_u32(amount);
        let mut i: usize = 0;
        while i < 32
            invariant
                i <= 32,
                input@ == u32_le(amount) + recipient@.subrange(0, i as int),
            decreases 32 - i,
        {
            input.push(recipient.bytes[i]);
            assert(recipient@.subrange(0, i as int).push(recipient@[i as int])
                =~= recipient@.subrange(0, i + 1));
            i = i + 1;
        }
        assert(recipient@.subrange(0, 32) =~= recipient@);
        ExtensionCall { func_id: DO_SEND_TO_TRANSFER, input }
    }

    /// Reads the host's answer to an extension call: its status code and,
    /// where that says success, the `u32` in its output. A status code that
    /// stands in no table, and an output that is not one `u32`, are
    /// protocol violations.
    pub fn extension_output(status_code: u32, output: &[u8]) -> (r: Result<
        Result<u32, RuntimeCallErr>,
        ProtocolViolation,
    >)
        ensures
            r == spec_extension_output(status_code, output@),
    {
        match translate(status_code) {
            Err(violation) => Err(violation),
            Ok(Err(error)) => Ok(Err(error)),
            Ok(Ok(())) => match decode_u32(output) {
                Err(e) => Err(ProtocolViolation::MalformedBuffer(e)),
                Ok(value) => Ok(Ok(value)),
            },
        }
    }

    /// What `store_in_map` and `send_to_transfer` answer once the host has
    /// answered their call: success, the error that the status code stands
    /// for, or a protocol violation.
    pub fn extension_result(status_code: u32, output: &[u8]) -> (r: Result<
        Result<(), RuntimeCallErr>,
        ProtocolViolation,
    >)
        ensures
            r == spec_extension_result(status_code, output@),
    {
        match ExampleExtension::extension_output(status_code, output) {
            Err(violation) => Err(violation),
            Ok(Err(error)) => Ok(Err(error)),
            Ok(Ok(_)) => Ok(Ok(())),
        }
    }
}

} // verus!
