use call_bridge::codec::DecodeError;
use call_bridge::contract::{
    ExampleExtension, ExtensionCall, UpdatedNum, DO_SEND_TO_TRANSFER, DO_STORE_IN_MAP,
};
use call_bridge::identity::AccountId;
use call_bridge::status::RuntimeCallErr;
use call_bridge::violation::ProtocolViolation;
use parity_scale_codec::Encode;

#[test]
fn new_contract_keeps_zero() {
    let contract = ExampleExtension::default();
    assert_eq!(contract.get(), 0);
    assert_eq!(ExampleExtension::new(5).get(), 5);
}

#[test]
fn set_value_sets_and_tells() {
    let mut contract = ExampleExtension::default();
    assert_eq!(contract.set_value(32), Ok(UpdatedNum { result: 32 }));
    assert_eq!(contract.get(), 32);
    assert_eq!(contract.set_value(32), Ok(UpdatedNum { result: 32 }));
    assert_eq!(contract.set_value(0), Ok(UpdatedNum { result: 0 }));
    assert_eq!(contract.get(), 0);
}

#[test]
fn add_to_value_adds_and_tells() {
    let mut contract = ExampleExtension::default();
    assert_eq!(contract.add_to_value(5), Ok(UpdatedNum { result: 5 }));
    assert_eq!(contract.add_to_value(7), Ok(UpdatedNum { result: 12 }));
    assert_eq!(contract.add_to_value(0), Ok(UpdatedNum { result: 12 }));
    assert_eq!(contract.add_to_value(u32::MAX - 12), Ok(UpdatedNum { result: u32::MAX }));
    assert_eq!(contract.get(), u32::MAX);
}

#[test]
fn store_in_map_asks_for_function_one() {
    assert_eq!(DO_STORE_IN_MAP, 1);
    let mut contract = ExampleExtension::new(3);
    let call = contract.store_in_map(0x0102_0304);
    assert_eq!(call, ExtensionCall { func_id: 1, input: vec![4, 3, 2, 1] });
    assert_eq!(call.input, 0x0102_0304u32.encode());
    assert_eq!(contract.get(), 3);
}

#[test]
fn send_to_transfer_asks_for_function_two() {
    assert_eq!(DO_SEND_TO_TRANSFER, 2);
    let mut recipient = [0u8; 32];
    for (i, byte) in recipient.iter_mut().enumerate() {
        *byte = 100 + i as u8;
    }
    let mut contract = ExampleExtension::new(3);
    let call = contract.send_to_transfer(7, AccountId::new(recipient));
    let mut input = vec![7, 0, 0, 0];
    input.extend_from_slice(&recipient);
    assert_eq!(call, ExtensionCall { func_id: 2, input });
    assert_eq!(call.input, (7u32, recipient).encode());
    assert_eq!(contract.get(), 3);
}

#[test]
fn answer_of_the_host_is_read_status_first() {
    assert_eq!(ExampleExtension::extension_output(0, &[9, 0, 0, 0]), Ok(Ok(9)));
    assert_eq!(ExampleExtension::extension_result(0, &[9, 0, 0, 0]), Ok(Ok(())));
    // with a failure status the output is not looked at
    assert_eq!(
        ExampleExtension::extension_output(1, &[]),
        Ok(Err(RuntimeCallErr::FailToCallRuntime))
    );
    assert_eq!(
        ExampleExtension::extension_result(1, &[1, 2, 3, 4, 5, 6]),
        Ok(Err(RuntimeCallErr::FailToCallRuntime))
    );
}

#[test]
fn unknown_status_and_malformed_output_are_protocol_violations() {
    assert_eq!(
        ExampleExtension::extension_result(2, &[9, 0, 0, 0]),
        Err(ProtocolViolation::UnknownStatus(2))
    );
    assert_eq!(
        ExampleExtension::extension_result(0, &[9, 0, 0]),
        Err(ProtocolViolation::MalformedBuffer(DecodeError::Truncated))
    );
    assert_eq!(
        ExampleExtension::extension_output(0, &[9, 0, 0, 0, 0]),
        Err(ProtocolViolation::MalformedBuffer(DecodeError::TrailingBytes))
    );
    assert_eq!(
        ExampleExtension::extension_output(0, &[]),
        Err(ProtocolViolation::MalformedBuffer(DecodeError::Truncated))
    );
}
