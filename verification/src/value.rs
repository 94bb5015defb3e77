//! Tagged runtime values: the unit exchanged on the interpreter's operand
//! stack and handed to native functions through the argument queue.

use vstd::prelude::*;

verus! {

/// Number of bytes in the canonical representation of an account address.
pub const ADDRESS_LENGTH: usize = 32;

/// A fixed-width account address. Its canonical byte representation is the
/// sequence of its bytes, in order.
#[derive(Clone, Debug, PartialEq, Eq)]
pub struct AccountAddress {
    bytes: [u8; ADDRESS_LENGTH],
}

impl View for AccountAddress {
    type V = Seq<u8>;

    closed spec fn view(&self) -> Seq<u8> {
        self.bytes@
    }
}

impl AccountAddress {
    /// Wraps raw bytes as an address.
    pub fn new(bytes: [u8; ADDRESS_LENGTH]) -> (a: AccountAddress)
        ensures
            a@ == bytes@,
    {
        AccountAddress { bytes }
    }

    /// Every address's canonical representation is exactly `ADDRESS_LENGTH`
    /// bytes wide.
    pub proof fn lemma_canonical_width(&self)
        ensures
            self@.len() == ADDRESS_LENGTH,
    {
    }

    /// The canonical byte representation of the address.
    pub fn to_vec(&self) -> (r: Vec<u8>)
        ensures
            r@ == self@,
    {
        let mut r: Vec<u8> = Vec::new();
        let mut i: usize = 0;
        while i < ADDRESS_LENGTH
            invariant
                i <= ADDRESS_LENGTH,
                r@ == self.bytes@.take(i as int),
            decreases ADDRESS_LENGTH - i,
        {
            r.push(self.bytes[i]);
            proof {
                assert(self.bytes@.take(i + 1) =~= self.bytes@.take(i as int).push(
                    self.bytes@[i as int],
                ));
            }
            i = i + 1;
        }
        proof {
            assert(self.bytes@.take(ADDRESS_LENGTH as int) =~= self.bytes@);
        }
        r
    }
}

/// The runtime type tag carried by a `Value`.
#[derive(Clone, Copy, Debug, PartialEq, Eq)]
pub enum ValueTag {
    /// An immutable byte sequence.
    ByteArray,
    /// An account address.
    Address,
    /// A 64-bit unsigned integer.
    U64,
}

/// A tagged runtime value. The tag is always consistent with the payload by
/// construction: each variant carries exactly the payload its tag announces.
#[derive(Clone, Debug, PartialEq, Eq)]
pub enum Value {
    /// An immutable byte sequence.
    ByteArray(Vec<u8>),
    /// An account address.
    Address(AccountAddress),
    /// A 64-bit unsigned integer.
    U64(u64),
}

/// The mathematical model of a `Value`: the same tagged union over
/// mathematical sequences instead of heap-allocated vectors.
#[verifier::ext_equal]
pub enum ValueModel {
    /// An immutable byte sequence.
    ByteArray(Seq<u8>),
    /// An account address, as its canonical bytes.
    Address(Seq<u8>),
    /// A 64-bit unsigned integer.
    U64(u64),
}

impl View for Value {
    type V = ValueModel;

    open spec fn view(&self) -> ValueModel {
        match self {
            Value::ByteArray(b) => ValueModel::ByteArray(b@),
            Value::Address(a) => ValueModel::Address(a@),
            Value::U64(n) => ValueModel::U64(*n),
        }
    }
}

impl DeepView for Value {
    type V = ValueModel;

    open spec fn deep_view(&self) -> ValueModel {
        self.view()
    }
}

/// The tag of a value model.
pub open spec fn tag_of(v: ValueModel) -> ValueTag {
    match v {
        ValueModel::ByteArray(_) => ValueTag::ByteArray,
        ValueModel::Address(_) => ValueTag::Address,
        ValueModel::U64(_) => ValueTag::U64,
    }
}

/// The byte payload of a byte-sequence model.
pub open spec fn bytes_of(v: ValueModel) -> Seq<u8>
    recommends
        v is ByteArray,
{
    match v {
        ValueModel::ByteArray(b) => b,
        _ => arbitrary(),
    }
}

/// The canonical bytes of an address model.
pub open spec fn address_of(v: ValueModel) -> Seq<u8>
    recommends
        v is Address,
{
    match v {
        ValueModel::Address(a) => a,
        _ => arbitrary(),
    }
}

/// The integer payload of a 64-bit integer model.
pub open spec fn int_of(v: ValueModel) -> u64
    recommends
        v is U64,
{
    match v {
        ValueModel::U64(n) => n,
        _ => arbitrary(),
    }
}

impl Value {
    /// The runtime tag of this value.
    pub fn tag(&self) -> (t: ValueTag)
        ensures
            t == tag_of(self@),
    {
        match self {
            Value::ByteArray(_) => ValueTag::ByteArray,
            Value::Address(_) => ValueTag::Address,
            Value::U64(_) => ValueTag::U64,
        }
    }
}

} // verus!
