use std::collections::VecDeque;

use native_bridge::extractor::{pop_address, pop_byte_array, pop_u64};
use native_bridge::status::StatusCode;
use native_bridge::value::{AccountAddress, Value};

#[test]
fn pop_takes_the_most_recently_pushed_value() {
    let mut q: VecDeque<Value> = VecDeque::new();
    q.push_back(Value::ByteArray(vec![1]));
    q.push_back(Value::ByteArray(vec![2, 3]));
    let popped = pop_byte_array(&mut q).expect("tail element is a byte sequence");
    assert_eq!(popped, vec![2, 3]);
    assert_eq!(q, VecDeque::from(vec![Value::ByteArray(vec![1])]));
}

#[test]
fn pop_from_an_empty_queue_is_an_invariant_violation() {
    let mut q: VecDeque<Value> = VecDeque::new();
    let status = pop_byte_array(&mut q).expect_err("nothing to pop");
    assert_eq!(status.major_status, StatusCode::Unreachable);
    assert_eq!(
        status.message.as_deref(),
        Some("invalid argument expected byte_array found empty argument queue")
    );
    assert!(q.is_empty());
}

#[test]
fn pop_with_a_mismatched_tag_is_an_invariant_violation() {
    let mut q: VecDeque<Value> = VecDeque::new();
    q.push_back(Value::U64(9));
    let status = pop_address(&mut q).expect_err("a u64 is not an address");
    assert_eq!(status.major_status, StatusCode::Unreachable);
    assert_eq!(
        status.message.as_deref(),
        Some("invalid argument expected address found u64")
    );
}

#[test]
fn pop_address_returns_the_address() {
    let mut q: VecDeque<Value> = VecDeque::new();
    q.push_back(Value::Address(AccountAddress::new([3; 32])));
    let a = pop_address(&mut q).expect("tail element is an address");
    assert_eq!(a.to_vec(), vec![3; 32]);
}

#[test]
fn pop_u64_returns_the_integer() {
    let mut q: VecDeque<Value> = VecDeque::new();
    q.push_back(Value::U64(42));
    assert_eq!(pop_u64(&mut q).expect("tail element is a u64"), 42);
    let status = pop_u64(&mut q).expect_err("queue is now empty");
    assert_eq!(
        status.message.as_deref(),
        Some("invalid argument expected u64 found empty argument queue")
    );
}
