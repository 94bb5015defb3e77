//! The typed argument extractor: pops one value from the tail of the
//! argument queue and asserts that it carries the expected tag.
//!
//! Native-call arguments arrive on a stack, so the **last** declared
//! parameter is the **first** popped: implementations must pop in strictly
//! reverse declaration order. A tag mismatch or an empty-queue underflow is a
//! fail-fast defensive check against a bytecode verifier that should already
//! have guaranteed type safety: it aborts the whole native call with an
//! invariant-violation fault, and is never coerced or defaulted.

use std::collections::VecDeque;
use vstd::prelude::*;
use crate::diagnostics::{mismatch_msg, queue_underflow, tag_mismatch, underflow_msg, unreachable_fault};
use crate::status::VMStatus;
use crate::value::{tag_of, AccountAddress, Value, ValueModel, ValueTag};

verus! {

/// Pops the most recently pushed value and asserts that it is a byte
/// sequence. On an empty queue, or when the popped value carries another
/// tag, the call must be aborted with the returned invariant-violation
/// fault — never with a panic and never with a silent default value.
pub fn pop_byte_array(arguments: &mut VecDeque<Value>) -> (r: Result<Vec<u8>, VMStatus>)
    ensures
        old(arguments)@.len() == 0 ==> {
            &&& final(arguments)@ == old(arguments)@
            &&& r matches Err(s) && s.deep_view() == unreachable_fault(
                underflow_msg(ValueTag::ByteArray),
            )
        },
        old(arguments)@.len() > 0 ==> final(arguments)@ == old(arguments)@.drop_last(),
        old(arguments)@.len() > 0 ==> (old(arguments)@.last()@ matches ValueModel::ByteArray(b)
            ==> (r matches Ok(v) && v@ == b)),
        old(arguments)@.len() > 0 ==> (!(old(arguments)@.last()@ is ByteArray) ==> (
        r matches Err(s) && s.deep_view() == unreachable_fault(
            mismatch_msg(ValueTag::ByteArray, tag_of(old(arguments)@.last()@)),
        ))),
{
    match arguments.pop_back() {
        None => Err(queue_underflow(ValueTag::ByteArray)),
        Some(Value::ByteArray(b)) => Ok(b),
        Some(v) => Err(tag_mismatch(ValueTag::ByteArray, v.tag())),
    }
}

/// Pops the most recently pushed value and asserts that it is an account
/// address. The fault contract is the same as for `pop_byte_array`.
pub fn pop_address(arguments: &mut VecDeque<Value>) -> (r: Result<AccountAddress, VMStatus>)
    ensures
        old(arguments)@.len() == 0 ==> {
            &&& final(arguments)@ == old(arguments)@
            &&& r matches Err(s) && s.deep_view() == unreachable_fault(
                underflow_msg(ValueTag::Address),
            )
        },
        old(arguments)@.len() > 0 ==> final(arguments)@ == old(arguments)@.drop_last(),
        old(arguments)@.len() > 0 ==> (old(arguments)@.last()@ matches ValueModel::Address(b)
            ==> (r matches Ok(a) && a@ == b)),
        old(arguments)@.len() > 0 ==> (!(old(arguments)@.last()@ is Address) ==> (
        r matches Err(s) && s.deep_view() == unreachable_fault(
            mismatch_msg(ValueTag::Address, tag_of(old(arguments)@.last()@)),
        ))),
{
    match arguments.pop_back() {
        None => Err(queue_underflow(ValueTag::Address)),
        Some(Value::Address(a)) => Ok(a),
        Some(v) => Err(tag_mismatch(ValueTag::Address, v.tag())),
    }
}

/// Pops the most recently pushed value and asserts that it is a 64-bit
/// unsigned integer. The fault contract is the same as for `pop_byte_array`.
pub fn pop_u64(arguments: &mut VecDeque<Value>) -> (r: Result<u64, VMStatus>)
    ensures
        old(arguments)@.len() == 0 ==> {
            &&& final(arguments)@ == old(arguments)@
            &&& r matches Err(s) && s.deep_view() == unreachable_fault(
                underflow_msg(ValueTag::U64),
            )
        },
        old(arguments)@.len() > 0 ==> final(arguments)@ == old(arguments)@.drop_last(),
        old(arguments)@.len() > 0 ==> (old(arguments)@.last()@ matches ValueModel::U64(n) ==> (
        r matches Ok(m) && m == n)),
        old(arguments)@.len() > 0 ==> (!(old(arguments)@.last()@ is U64) ==> (
        r matches Err(s) && s.deep_view() == unreachable_fault(
            mismatch_msg(ValueTag::U64, tag_of(old(arguments)@.last()@)),
        ))),
{
    match arguments.pop_back() {
        None => Err(queue_underflow(ValueTag::U64)),
        Some(Value::U64(n)) => Ok(n),
        Some(v) => Err(tag_mismatch(ValueTag::U64, v.tag())),
    }
}

} // verus!
