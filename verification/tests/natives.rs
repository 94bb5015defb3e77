use std::collections::VecDeque;

use native_bridge::natives::{
    invoke, native_address_to_bytes, native_bytearray_concat, native_u64_to_bytes,
    NativeFunction,
};
use native_bridge::status::{NativeReturnStatus, StatusCode};
use native_bridge::value::{AccountAddress, Value};

fn bytes(b: &[u8]) -> Value {
    Value::ByteArray(b.to_vec())
}

fn queue(values: Vec<Value>) -> VecDeque<Value> {
    values.into_iter().collect()
}

fn expect_success(r: NativeReturnStatus) -> (u64, Vec<Value>) {
    match r {
        NativeReturnStatus::Success { cost, return_values } => (cost, return_values),
        other => panic!("expected success, got {:?}", other),
    }
}

fn expect_invariant_message(r: NativeReturnStatus) -> String {
    match r {
        NativeReturnStatus::InvariantError(status) => {
            assert_eq!(status.major_status, StatusCode::Unreachable);
            status.message.expect("invariant violations carry a message")
        }
        other => panic!("expected an invariant violation, got {:?}", other),
    }
}

#[test]
fn concat_returns_first_bytes_then_second() {
    let r = native_bytearray_concat(queue(vec![bytes(&[1, 2]), bytes(&[3, 4])]));
    let (cost, values) = expect_success(r);
    assert_eq!(cost, 4);
    assert_eq!(values, vec![bytes(&[1, 2, 3, 4])]);
}

#[test]
fn concat_cost_is_sum_of_lengths() {
    let r = native_bytearray_concat(queue(vec![bytes(&[9, 8, 7]), bytes(&[6])]));
    let (cost, values) = expect_success(r);
    assert_eq!(cost, 4);
    assert_eq!(values, vec![bytes(&[9, 8, 7, 6])]);
}

#[test]
fn concat_of_empty_sequences_is_empty_and_free() {
    let r = native_bytearray_concat(queue(vec![bytes(&[]), bytes(&[])]));
    let (cost, values) = expect_success(r);
    assert_eq!(cost, 0);
    assert_eq!(values, vec![bytes(&[])]);
}

#[test]
fn concat_with_one_argument_is_an_invariant_violation() {
    let msg = expect_invariant_message(native_bytearray_concat(queue(vec![bytes(&[1])])));
    assert!(msg.contains("expected 2 found 1"), "unexpected message: {}", msg);
    assert_eq!(
        msg,
        "wrong number of arguments for bytearray_concat expected 2 found 1"
    );
}

#[test]
fn concat_with_no_arguments_is_an_invariant_violation() {
    let msg = expect_invariant_message(native_bytearray_concat(queue(vec![])));
    assert_eq!(
        msg,
        "wrong number of arguments for bytearray_concat expected 2 found 0"
    );
}

#[test]
fn concat_arity_message_renders_multi_digit_counts() {
    let args: Vec<Value> = (0..12).map(|_| bytes(&[0])).collect();
    let msg = expect_invariant_message(native_bytearray_concat(queue(args)));
    assert_eq!(
        msg,
        "wrong number of arguments for bytearray_concat expected 2 found 12"
    );
}

#[test]
fn concat_rejects_an_address_where_bytes_are_expected() {
    let addr = Value::Address(AccountAddress::new([7; 32]));
    let msg = expect_invariant_message(native_bytearray_concat(queue(vec![addr, bytes(&[1])])));
    assert_eq!(msg, "invalid argument expected byte_array found address");
}

#[test]
fn concat_reports_the_first_mismatch_in_pop_order() {
    // The second declared argument is popped first, so its tag is reported.
    let r = native_bytearray_concat(queue(vec![bytes(&[1]), Value::U64(3)]));
    let msg = expect_invariant_message(r);
    assert_eq!(msg, "invalid argument expected byte_array found u64");
}

#[test]
fn address_to_bytes_returns_canonical_encoding() {
    let mut raw = [0u8; 32];
    for (i, b) in raw.iter_mut().enumerate() {
        *b = i as u8;
    }
    let addr = AccountAddress::new(raw);
    let r = native_address_to_bytes(queue(vec![Value::Address(addr.clone())]));
    let (cost, values) = expect_success(r);
    assert_eq!(cost, 32);
    assert_eq!(values, vec![bytes(&raw)]);
    assert_eq!(addr.to_vec(), raw.to_vec());
}

#[test]
fn address_to_bytes_checks_arity() {
    let a = Value::Address(AccountAddress::new([1; 32]));
    let b = Value::Address(AccountAddress::new([2; 32]));
    let msg = expect_invariant_message(native_address_to_bytes(queue(vec![a, b])));
    assert_eq!(
        msg,
        "wrong number of arguments for address_to_bytes expected 1 found 2"
    );
}

#[test]
fn address_to_bytes_rejects_a_byte_sequence() {
    let msg = expect_invariant_message(native_address_to_bytes(queue(vec![bytes(&[1, 2])])));
    assert_eq!(msg, "invalid argument expected address found byte_array");
}

#[test]
fn u64_to_bytes_is_little_endian() {
    let r = native_u64_to_bytes(queue(vec![Value::U64(0x0102030405060708)]));
    let (cost, values) = expect_success(r);
    assert_eq!(cost, 8);
    assert_eq!(values, vec![bytes(&[8, 7, 6, 5, 4, 3, 2, 1])]);
}

#[test]
fn u64_to_bytes_of_zero_is_eight_zero_bytes() {
    let r = native_u64_to_bytes(queue(vec![Value::U64(0)]));
    let (cost, values) = expect_success(r);
    assert_eq!(cost, 8);
    assert_eq!(values, vec![bytes(&[0; 8])]);
}

#[test]
fn u64_to_bytes_of_max_is_eight_full_bytes() {
    let r = native_u64_to_bytes(queue(vec![Value::U64(u64::MAX)]));
    let (cost, values) = expect_success(r);
    assert_eq!(cost, 8);
    assert_eq!(values, vec![bytes(&[0xff; 8])]);
}

#[test]
fn u64_to_bytes_checks_arity() {
    let msg = expect_invariant_message(native_u64_to_bytes(queue(vec![])));
    assert_eq!(
        msg,
        "wrong number of arguments for u64_to_bytes expected 1 found 0"
    );
}

#[test]
fn u64_to_bytes_rejects_an_address() {
    let addr = Value::Address(AccountAddress::new([0; 32]));
    let msg = expect_invariant_message(native_u64_to_bytes(queue(vec![addr])));
    assert_eq!(msg, "invalid argument expected u64 found address");
}

#[test]
fn natives_are_deterministic_on_equal_arguments() {
    let concat_args = || queue(vec![bytes(&[1, 2]), bytes(&[3, 4])]);
    assert_eq!(
        native_bytearray_concat(concat_args()),
        native_bytearray_concat(concat_args())
    );

    let addr_args = || queue(vec![Value::Address(AccountAddress::new([5; 32]))]);
    assert_eq!(
        native_address_to_bytes(addr_args()),
        native_address_to_bytes(addr_args())
    );

    let int_args = || queue(vec![Value::U64(0xdead_beef_0bad_cafe)]);
    assert_eq!(
        native_u64_to_bytes(int_args()),
        native_u64_to_bytes(int_args())
    );
}

#[test]
fn invoke_dispatches_by_function_identifier() {
    let r = invoke(
        NativeFunction::BytearrayConcat,
        queue(vec![bytes(&[1, 2]), bytes(&[3, 4])]),
    );
    let (cost, values) = expect_success(r);
    assert_eq!(cost, 4);
    assert_eq!(values, vec![bytes(&[1, 2, 3, 4])]);

    let r = invoke(
        NativeFunction::AddressToBytes,
        queue(vec![Value::Address(AccountAddress::new([9; 32]))]),
    );
    let (cost, values) = expect_success(r);
    assert_eq!(cost, 32);
    assert_eq!(values, vec![bytes(&[9; 32])]);

    let r = invoke(NativeFunction::U64ToBytes, queue(vec![Value::U64(256)]));
    let (cost, values) = expect_success(r);
    assert_eq!(cost, 8);
    assert_eq!(values, vec![bytes(&[0, 1, 0, 0, 0, 0, 0, 0])]);
}
