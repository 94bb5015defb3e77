//! The native function implementations: byte-sequence concatenation,
//! address-to-bytes, and integer-to-bytes.
//!
//! Each native is a pure function from its argument queue to a
//! `NativeReturnStatus`, with the same shape: arity guard, extraction in
//! reverse declaration order, computation, cost. The gas cost charged here —
//! the length of the produced byte sequence — is a provisional placeholder
//! policy; what the contracts insist on is that the cost is deterministic
//! and a pure function of the arguments, as required for deterministic
//! replay.

use std::collections::VecDeque;
use vstd::prelude::*;
use crate::diagnostics::{arity_msg, arity_violation, mismatch_msg, unreachable_fault};
use crate::extractor::{pop_address, pop_byte_array, pop_u64};
use crate::status::{NativeOutcome, NativeReturnStatus};
use crate::value::{
    address_of, bytes_of, int_of, tag_of, AccountAddress, Value, ValueModel, ValueTag,
    ADDRESS_LENGTH,
};

verus! {

/// The little-endian 8-byte encoding of `n`: byte `i` holds bits `8*i` up to
/// `8*i + 7` of `n`, least significant byte first.
pub open spec fn u64_le_bytes(n: u64) -> Seq<u8> {
    seq![
        (n % 256) as u8,
        ((n / 256) % 256) as u8,
        ((n / 65536) % 256) as u8,
        ((n / 16777216) % 256) as u8,
        ((n / 4294967296) % 256) as u8,
        ((n / 1099511627776) % 256) as u8,
        ((n / 281474976710656) % 256) as u8,
        ((n / 72057594037927936) % 256) as u8,
    ]
}

/// The outcome owed by `native_bytearray_concat` on a given argument queue:
/// an arity fault unless exactly two arguments are present, a tag fault on
/// the first non-byte-sequence argument in pop order (last declared first),
/// and otherwise the first argument's bytes followed by the second's, at a
/// cost equal to the produced length.
pub open spec fn concat_spec(args: Seq<ValueModel>) -> NativeOutcome {
    if args.len() != 2 {
        NativeOutcome::InvariantError(
            unreachable_fault(arity_msg("bytearray_concat"@, 2, args.len())),
        )
    } else if !(args[1] is ByteArray) {
        NativeOutcome::InvariantError(
            unreachable_fault(mismatch_msg(ValueTag::ByteArray, tag_of(args[1]))),
        )
    } else if !(args[0] is ByteArray) {
        NativeOutcome::InvariantError(
            unreachable_fault(mismatch_msg(ValueTag::ByteArray, tag_of(args[0]))),
        )
    } else {
        NativeOutcome::Success {
            cost: (bytes_of(args[0]).len() + bytes_of(args[1]).len()) as u64,
            return_values: seq![ValueModel::ByteArray(bytes_of(args[0]) + bytes_of(args[1]))],
        }
    }
}

/// The outcome owed by `native_address_to_bytes` on a given argument queue:
/// an arity fault unless exactly one argument is present, a tag fault unless
/// it is an address, and otherwise the address's canonical bytes at a cost
/// equal to their length.
pub open spec fn address_to_bytes_spec(args: Seq<ValueModel>) -> NativeOutcome {
    if args.len() != 1 {
        NativeOutcome::InvariantError(
            unreachable_fault(arity_msg("address_to_bytes"@, 1, args.len())),
        )
    } else if !(args[0] is Address) {
        NativeOutcome::InvariantError(
            unreachable_fault(mismatch_msg(ValueTag::Address, tag_of(args[0]))),
        )
    } else {
        NativeOutcome::Success {
            cost: address_of(args[0]).len() as u64,
            return_values: seq![ValueModel::ByteArray(address_of(args[0]))],
        }
    }
}

/// The outcome owed by `native_u64_to_bytes` on a given argument queue: an
/// arity fault unless exactly one argument is present, a tag fault unless it
/// is a 64-bit unsigned integer, and otherwise its little-endian 8-byte
/// encoding at cost 8.
pub open spec fn u64_to_bytes_spec(args: Seq<ValueModel>) -> NativeOutcome {
    if args.len() != 1 {
        NativeOutcome::InvariantError(
            unreachable_fault(arity_msg("u64_to_bytes"@, 1, args.len())),
        )
    } else if !(args[0] is U64) {
        NativeOutcome::InvariantError(
            unreachable_fault(mismatch_msg(ValueTag::U64, tag_of(args[0]))),
        )
    } else {
        NativeOutcome::Success {
            cost: 8,
            return_values: seq![ValueModel::ByteArray(u64_le_bytes(int_of(args[0])))],
        }
    }
}

/// Concatenates two byte sequences. Arguments are popped in reverse
/// declaration order — the second byte sequence first — yet the result keeps
/// declaration order: the first argument's bytes precede the second's.
pub fn native_bytearray_concat(arguments: VecDeque<Value>) -> (r: NativeReturnStatus)
    ensures
        r.deep_view() == concat_spec(arguments.deep_view()),
{
    let ghost orig: Seq<ValueModel> = arguments.deep_view();
    let mut arguments = arguments;
    if arguments.len() != 2 {
        let found: usize = arguments.len();
        return NativeReturnStatus::InvariantError(arity_violation("bytearray_concat", 2, found));
    }
    proof {
        assert(arguments@.last()@ == orig[1]);
        assert(arguments@[0]@ == orig[0]);
    }
    let arg2 = match pop_byte_array(&mut arguments) {
        Ok(b) => b,
        Err(status) => {
            return NativeReturnStatus::InvariantError(status);
        },
    };
    proof {
        assert(arguments@.last()@ == orig[0]);
    }
    let arg1 = match pop_byte_array(&mut arguments) {
        Ok(b) => b,
        Err(status) => {
            return NativeReturnStatus::InvariantError(status);
        },
    };
    let ghost first = arg1@;
    let ghost second = arg2@;
    let mut return_val = arg1;
    let mut tail = arg2;
    return_val.append(&mut tail);
    let cost: u64 = return_val.len() as u64;
    let return_values = vec![Value::ByteArray(return_val)];
    let r = NativeReturnStatus::Success { cost, return_values };
    proof {
        assert(return_values@.len() == 1);
        assert(return_values@[0]@ == ValueModel::ByteArray(first + second));
        assert(r.deep_view() =~~= concat_spec(orig));
    }
    r
}

/// Serializes an account address to its canonical byte representation.
pub fn native_address_to_bytes(arguments: VecDeque<Value>) -> (r: NativeReturnStatus)
    ensures
        r.deep_view() == address_to_bytes_spec(arguments.deep_view()),
{
    let ghost orig: Seq<ValueModel> = arguments.deep_view();
    let mut arguments = arguments;
    if arguments.len() != 1 {
        let found: usize = arguments.len();
        return NativeReturnStatus::InvariantError(arity_violation("address_to_bytes", 1, found));
    }
    proof {
        assert(arguments@.last()@ == orig[0]);
    }
    let arg = match pop_address(&mut arguments) {
        Ok(a) => a,
        Err(status) => {
            return NativeReturnStatus::InvariantError(status);
        },
    };
    let return_val = arg.to_vec();
    let ghost out = return_val@;
    let cost: u64 = return_val.len() as u64;
    let return_values = vec![Value::ByteArray(return_val)];
    let r = NativeReturnStatus::Success { cost, return_values };
    proof {
        assert(return_values@[0]@ == ValueModel::ByteArray(out));
        assert(r.deep_view() =~~= address_to_bytes_spec(orig));
    }
    r
}

/// Serializes a 64-bit unsigned integer to its little-endian 8-byte
/// encoding.
pub fn native_u64_to_bytes(arguments: VecDeque<Value>) -> (r: NativeReturnStatus)
    ensures
        r.deep_view() == u64_to_bytes_spec(arguments.deep_view()),
{
    let ghost orig: Seq<ValueModel> = arguments.deep_view();
    let mut arguments = arguments;
    if arguments.len() != 1 {
        let found: usize = arguments.len();
        return NativeReturnStatus::InvariantError(arity_violation("u64_to_bytes", 1, found));
    }
    proof {
        assert(arguments@.last()@ == orig[0]);
    }
    let arg = match pop_u64(&mut arguments) {
        Ok(n) => n,
        Err(status) => {
            return NativeReturnStatus::InvariantError(status);
        },
    };
    let return_val = u64_to_le_bytes(arg);
    let ghost out = return_val@;
    let cost: u64 = return_val.len() as u64;
    let return_values = vec![Value::ByteArray(return_val)];
    let r = NativeReturnStatus::Success { cost, return_values };
    proof {
        assert(return_values@[0]@ == ValueModel::ByteArray(out));
        assert(r.deep_view() =~~= u64_to_bytes_spec(orig));
    }
    r
}

/// The little-endian 8-byte encoding of `n`.
fn u64_to_le_bytes(n: u64) -> (r: Vec<u8>)
    ensures
        r@ == u64_le_bytes(n),
{
    let mut r: Vec<u8> = Vec::new();
    r.push((n % 256) as u8);
    r.push(((n / 256) % 256) as u8);
    r.push(((n / 65536) % 256) as u8);
    r.push(((n / 16777216) % 256) as u8);
    r.push(((n / 4294967296) % 256) as u8);
    r.push(((n / 1099511627776) % 256) as u8);
    r.push(((n / 281474976710656) % 256) as u8);
    r.push(((n / 72057594037927936) % 256) as u8);
    proof {
        assert(r@ =~= u64_le_bytes(n));
    }
    r
}

/// Identifies one of the native functions this bridge defines.
#[derive(Clone, Copy, Debug, PartialEq, Eq)]
pub enum NativeFunction {
    /// Byte-sequence concatenation.
    BytearrayConcat,
    /// Address serialization.
    AddressToBytes,
    /// Integer serialization.
    U64ToBytes,
}

/// The outcome owed by `invoke` for each function identifier.
pub open spec fn invoke_spec(function: NativeFunction, args: Seq<ValueModel>) -> NativeOutcome {
    match function {
        NativeFunction::BytearrayConcat => concat_spec(args),
        NativeFunction::AddressToBytes => address_to_bytes_spec(args),
        NativeFunction::U64ToBytes => u64_to_bytes_spec(args),
    }
}

/// The boundary with the interpreter: runs the identified native function on
/// the argument queue once the interpreter has decided to call it. On
/// success the interpreter pushes the return values in declaration order and
/// deducts the cost from the active gas budget; an invariant violation is
/// fatal to the current execution context.
pub fn invoke(function: NativeFunction, arguments: VecDeque<Value>) -> (r: NativeReturnStatus)
    ensures
        r.deep_view() == invoke_spec(function, arguments.deep_view()),
{
    match function {
        NativeFunction::BytearrayConcat => native_bytearray_concat(arguments),
        NativeFunction::AddressToBytes => native_address_to_bytes(arguments),
        NativeFunction::U64ToBytes => native_u64_to_bytes(arguments),
    }
}

/// For every argument queue whose length is not two, byte-sequence
/// concatenation reports an invariant violation whose message carries the
/// found length.
pub proof fn lemma_concat_arity_violation(args: Seq<ValueModel>)
    requires
        args.len() != 2,
    ensures
        concat_spec(args) matches NativeOutcome::InvariantError(s) && s
            == unreachable_fault(arity_msg("bytearray_concat"@, 2, args.len())),
{
}

/// For all byte sequences `a` and `b`, concatenation succeeds with `a`'s
/// bytes immediately followed by `b`'s, at a cost equal to the sum of their
/// lengths.
pub proof fn lemma_concat_bytes(a: Seq<u8>, b: Seq<u8>)
    ensures
        concat_spec(seq![ValueModel::ByteArray(a), ValueModel::ByteArray(b)])
            == (NativeOutcome::Success {
            cost: (a.len() + b.len()) as u64,
            return_values: seq![ValueModel::ByteArray(a + b)],
        }),
{
    let args = seq![ValueModel::ByteArray(a), ValueModel::ByteArray(b)];
    assert(args[0] == ValueModel::ByteArray(a));
    assert(args[1] == ValueModel::ByteArray(b));
}

/// For every address, conversion succeeds with the address's canonical byte
/// encoding, at a cost equal to that encoding's length.
pub proof fn lemma_address_to_bytes(addr: Seq<u8>)
    ensures
        address_to_bytes_spec(seq![ValueModel::Address(addr)]) == (NativeOutcome::Success {
            cost: addr.len() as u64,
            return_values: seq![ValueModel::ByteArray(addr)],
        }),
{
    let args = seq![ValueModel::Address(addr)];
    assert(args[0] == ValueModel::Address(addr));
}

/// For every address value, conversion succeeds at a cost of exactly
/// `ADDRESS_LENGTH`, the width of every canonical address encoding.
pub proof fn lemma_address_cost_is_width(a: &AccountAddress)
    ensures
        address_to_bytes_spec(seq![ValueModel::Address(a@)]) matches NativeOutcome::Success {
            cost,
            ..
        } && cost == ADDRESS_LENGTH,
{
    a.lemma_canonical_width();
    lemma_address_to_bytes(a@);
}

/// For every 64-bit unsigned integer, conversion succeeds with its
/// little-endian 8-byte encoding, at cost 8.
pub proof fn lemma_u64_to_bytes(n: u64)
    ensures
        u64_to_bytes_spec(seq![ValueModel::U64(n)]) == (NativeOutcome::Success {
            cost: 8,
            return_values: seq![ValueModel::ByteArray(u64_le_bytes(n))],
        }),
        u64_le_bytes(n).len() == 8,
{
    let args = seq![ValueModel::U64(n)];
    assert(args[0] == ValueModel::U64(n));
}

/// Determinism: the outcome owed by each native is a pure function of its
/// argument queue, so structurally equal queues are owed identical outcomes
/// — return values and cost included — as deterministic replay requires.
/// Together with each native's contract, two calls of the same native on
/// structurally equal queues return equal results.
pub proof fn lemma_natives_deterministic(a: Seq<ValueModel>, b: Seq<ValueModel>)
    requires
        a == b,
    ensures
        concat_spec(a) == concat_spec(b),
        address_to_bytes_spec(a) == address_to_bytes_spec(b),
        u64_to_bytes_spec(a) == u64_to_bytes_spec(b),
{
}

} // verus!
