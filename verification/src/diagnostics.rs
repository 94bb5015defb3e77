//! Diagnostic messages for the fault paths of the native-call layer.
//!
//! The exact shape of the arity message — `wrong number of arguments for
//! <name> expected <N> found <M>` — is part of the observable contract: it is
//! surfaced to developers and tests. The messages are built by verified code,
//! including the decimal rendering of the counts.

use vstd::prelude::*;
use vstd::string::StringExecFns;
use crate::status::{StatusCode, StatusModel, VMStatus};
use crate::value::ValueTag;

verus! {

/// The decimal digit character for `d`, for `d < 10`.
pub open spec fn digit_char(d: nat) -> char {
    if d == 0 {
        '0'
    } else if d == 1 {
        '1'
    } else if d == 2 {
        '2'
    } else if d == 3 {
        '3'
    } else if d == 4 {
        '4'
    } else if d == 5 {
        '5'
    } else if d == 6 {
        '6'
    } else if d == 7 {
        '7'
    } else if d == 8 {
        '8'
    } else {
        '9'
    }
}

/// The decimal representation of `n`: most significant digit first, no
/// leading zeros (`0` is rendered as the single digit `0`).
pub open spec fn decimal_of(n: nat) -> Seq<char>
    decreases n,
{
    if n < 10 {
        seq![digit_char(n)]
    } else {
        decimal_of(n / 10).push(digit_char(n % 10))
    }
}

/// The printable name of a value tag.
pub open spec fn tag_name(t: ValueTag) -> Seq<char> {
    match t {
        ValueTag::ByteArray => "byte_array"@,
        ValueTag::Address => "address"@,
        ValueTag::U64 => "u64"@,
    }
}

/// The message reported when a native receives the wrong number of
/// arguments.
pub open spec fn arity_msg(name: Seq<char>, expected: nat, found: nat) -> Seq<char> {
    "wrong number of arguments for "@ + name + " expected "@ + decimal_of(expected) + " found "@
        + decimal_of(found)
}

/// The message reported when a popped argument carries the wrong tag.
pub open spec fn mismatch_msg(expected: ValueTag, found: ValueTag) -> Seq<char> {
    "invalid argument expected "@ + tag_name(expected) + " found "@ + tag_name(found)
}

/// The message reported when an argument is popped from an empty queue.
pub open spec fn underflow_msg(expected: ValueTag) -> Seq<char> {
    "invalid argument expected "@ + tag_name(expected) + " found empty argument queue"@
}

/// An invariant-violation fault carrying `msg`: the fault class that marks
/// interpreter or bytecode-verifier corruption.
pub open spec fn unreachable_fault(msg: Seq<char>) -> StatusModel {
    StatusModel { code: StatusCode::Unreachable, message: Some(msg) }
}

/// The single decimal digit `d` as a string slice.
fn digit_str(d: u64) -> (r: &'static str)
    requires
        d < 10,
    ensures
        r@ == seq![digit_char(d as nat)],
{
    let r: &'static str = if d == 0 {
        "0"
    } else if d == 1 {
        "1"
    } else if d == 2 {
        "2"
    } else if d == 3 {
        "3"
    } else if d == 4 {
        "4"
    } else if d == 5 {
        "5"
    } else if d == 6 {
        "6"
    } else if d == 7 {
        "7"
    } else if d == 8 {
        "8"
    } else {
        "9"
    };
    proof {
        reveal_strlit("0");
        reveal_strlit("1");
        reveal_strlit("2");
        reveal_strlit("3");
        reveal_strlit("4");
        reveal_strlit("5");
        reveal_strlit("6");
        reveal_strlit("7");
        reveal_strlit("8");
        reveal_strlit("9");
        assert(r@ =~= seq![digit_char(d as nat)]);
    }
    r
}

/// Appends the decimal representation of `n` to `s`.
fn push_decimal(s: &mut String, n: u64)
    ensures
        final(s)@ == old(s)@ + decimal_of(n as nat),
    decreases n,
{
    if n >= 10 {
        push_decimal(s, n / 10);
        s.append(digit_str(n % 10));
        proof {
            assert(final(s)@ =~= old(s)@ + decimal_of(n as nat));
        }
    } else {
        s.append(digit_str(n));
    }
}

/// The printable name of a value tag.
fn tag_str(t: ValueTag) -> (r: &'static str)
    ensures
        r@ == tag_name(t),
{
    match t {
        ValueTag::ByteArray => "byte_array",
        ValueTag::Address => "address",
        ValueTag::U64 => "u64",
    }
}

/// The invariant-violation fault reported when the native named `name`
/// declares `expected` arguments but the queue holds `found`.
pub fn arity_violation(name: &str, expected: u64, found: usize) -> (s: VMStatus)
    ensures
        s.deep_view() == unreachable_fault(arity_msg(name@, expected as nat, found as nat)),
{
    let mut m = String::from_str("wrong number of arguments for ");
    m.append(name);
    m.append(" expected ");
    push_decimal(&mut m, expected);
    m.append(" found ");
    push_decimal(&mut m, found as u64);
    VMStatus::new(StatusCode::Unreachable).with_message(m)
}

/// The invariant-violation fault reported when a popped argument carries the
/// tag `found` where `expected` was declared.
pub fn tag_mismatch(expected: ValueTag, found: ValueTag) -> (s: VMStatus)
    ensures
        s.deep_view() == unreachable_fault(mismatch_msg(expected, found)),
{
    let mut m = String::from_str("invalid argument expected ");
    m.append(tag_str(expected));
    m.append(" found ");
    m.append(tag_str(found));
    VMStatus::new(StatusCode::Unreachable).with_message(m)
}

/// The invariant-violation fault reported when an argument of tag `expected`
/// is popped from an empty queue.
pub fn queue_underflow(expected: ValueTag) -> (s: VMStatus)
    ensures
        s.deep_view() == unreachable_fault(underflow_msg(expected)),
{
    let mut m = String::from_str("invalid argument expected ");
    m.append(tag_str(expected));
    m.append(" found empty argument queue");
    VMStatus::new(StatusCode::Unreachable).with_message(m)
}

} // verus!
