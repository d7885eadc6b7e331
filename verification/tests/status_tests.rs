use call_bridge::codec::DecodeError;
use call_bridge::status::{
    translate, RuntimeCallErr, STATUS_FAIL_TO_CALL_RUNTIME, STATUS_SUCCESS,
};
use call_bridge::violation::ProtocolViolation;

#[test]
fn status_zero_is_success() {
    assert_eq!(STATUS_SUCCESS, 0);
    assert_eq!(RuntimeCallErr::from_status_code(0), Ok(()));
    assert_eq!(translate(0), Ok(Ok(())));
}

#[test]
fn status_one_is_fail_to_call_runtime() {
    assert_eq!(STATUS_FAIL_TO_CALL_RUNTIME, 1);
    assert_eq!(RuntimeCallErr::from_status_code(1), Err(RuntimeCallErr::FailToCallRuntime));
    assert_eq!(translate(1), Ok(Err(RuntimeCallErr::FailToCallRuntime)));
}

#[test]
fn unknown_status_is_a_protocol_violation() {
    assert_eq!(translate(2), Err(ProtocolViolation::UnknownStatus(2)));
    assert_eq!(translate(1101), Err(ProtocolViolation::UnknownStatus(1101)));
    assert_eq!(translate(u32::MAX), Err(ProtocolViolation::UnknownStatus(u32::MAX)));
}

#[test]
fn status_code_of_the_error_is_read_back_as_the_error() {
    let code = RuntimeCallErr::FailToCallRuntime.status_code();
    assert_eq!(code, 1);
    assert_eq!(translate(code), Ok(Err(RuntimeCallErr::FailToCallRuntime)));
}

#[test]
fn error_is_one_byte_on_the_wire() {
    assert_eq!(RuntimeCallErr::FailToCallRuntime.encode(), vec![0]);
    assert_eq!(RuntimeCallErr::decode(&[0]), Ok(RuntimeCallErr::FailToCallRuntime));
}

#[test]
fn error_bytes_that_are_refused() {
    assert_eq!(RuntimeCallErr::decode(&[]), Err(DecodeError::Truncated));
    assert_eq!(RuntimeCallErr::decode(&[1]), Err(DecodeError::UnknownVariant));
    assert_eq!(RuntimeCallErr::decode(&[255, 0]), Err(DecodeError::UnknownVariant));
    assert_eq!(RuntimeCallErr::decode(&[0, 0]), Err(DecodeError::TrailingBytes));
}
