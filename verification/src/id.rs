//! The 128-bit identifiers that name users and pending tunnels.

use crate::endian::{
    be_bytes, be_value, lemma_be_bytes_of_value, lemma_be_value_bound, lemma_be_value_of_bytes,
    lemma_pow256_monotonic, lemma_pow256_values,
};
use vstd::prelude::*;

verus! {

/// A 128-bit identifier. On the wire it is sixteen bytes, most significant
/// byte first.
#[derive(Clone, Copy, Debug, PartialEq, Eq, Hash, Structural)]
pub struct Id {
    value: u128,
}

impl View for Id {
    type V = u128;

    closed spec fn view(&self) -> u128 {
        self.value
    }
}

impl Id {
    /// The identifier with the given number.
    pub fn from_u128(value: u128) -> (id: Id)
        ensures
            id@ == value,
    {
        Id { value }
    }

    /// The identifier as a number.
    pub fn as_u128(&self) -> (value: u128)
        ensures
            value == self@,
    {
        self.value
    }

    /// The identifier that sixteen bytes of the wire spell.
    pub fn from_bytes(bytes: [u8; 16]) -> (id: Id)
        ensures
            id@ == be_value(bytes@),
    {
        be_id(bytes.as_slice())
    }

    /// The identifier that `bytes` spell, if there are sixteen of them.
    pub fn from_slice(bytes: &[u8]) -> (id: Option<Id>)
        ensures
            id is Some <==> bytes@.len() == 16,
            id matches Some(id) ==> id@ == be_value(bytes@),
    {
        if bytes.len() == 16 {
            Some(be_id(bytes))
        } else {
            None
        }
    }

    /// The sixteen bytes that carry the identifier on the wire.
    pub fn to_bytes(&self) -> (bytes: [u8; 16])
        ensures
            bytes@ == be_bytes(self@ as nat, 16),
    {
        let mut bytes = [0u8; 16];
        let mut rest: u128 = self.value;
        let mut i: usize = 16;
        while i > 0
            invariant
                i <= 16,
                be_bytes(self.value as nat, 16) == be_bytes(rest as nat, i as nat)
                    + bytes@.subrange(i as int, 16),
            decreases i,
        {
            i -= 1;
            bytes[i] = (rest % 256) as u8;
            rest = rest / 256;
        }
        bytes
    }
}

/// The identifier that sixteen bytes spell.
pub(crate) fn be_id(bytes: &[u8]) -> (id: Id)
    requires
        bytes@.len() == 16,
    ensures
        id@ == be_value(bytes@),
{
    Id { value: be_u128(bytes) }
}

/// The number that sixteen bytes spell, most significant byte first.
fn be_u128(bytes: &[u8]) -> (value: u128)
    requires
        bytes@.len() == 16,
    ensures
        value == be_value(bytes@),
{
    let mut value: u128 = 0;
    let mut i: usize = 0;
    while i < 16
        invariant
            i <= 16,
            bytes@.len() == 16,
            value == be_value(bytes@.subrange(0, i as int)),
        decreases 16 - i,
    {
        proof {
            let before = bytes@.subrange(0, i as int);
            let after = bytes@.subrange(0, i + 1);
            assert(after.drop_last() =~= before);
            lemma_be_value_bound(after);
            lemma_pow256_monotonic((i + 1) as nat, 16);
            lemma_pow256_values();
        }
        value = value * 256 + bytes[i] as u128;
        i += 1;
    }
    assert(bytes@.subrange(0, 16) =~= bytes@);
    value
}

/// Identifiers with the same number are the same identifier.
pub proof fn lemma_id_determined_by_number(a: Id, b: Id)
    ensures
        a@ == b@ <==> a == b,
{
}

/// Sixteen bytes and the identifier they spell determine each other.
pub proof fn lemma_id_bytes_roundtrip(bytes: Seq<u8>, value: u128)
    requires
        bytes.len() == 16,
    ensures
        be_bytes(be_value(bytes), 16) == bytes,
        be_value(bytes) <= u128::MAX,
        be_value(be_bytes(value as nat, 16)) == value,
{
    lemma_pow256_values();
    lemma_be_bytes_of_value(bytes);
    lemma_be_value_bound(bytes);
    lemma_be_value_of_bytes(value as nat, 16);
}

} // verus!
