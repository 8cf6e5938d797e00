//! Thirty-two byte values: document hashes, the identities of actors and the
//! addresses of storage slots.
use vstd::prelude::*;

verus! {

/// The all-zero hash is reserved: it stands for "no document".
pub open spec fn is_zero_hash(hash: [u8; 32]) -> bool {
    forall|i: int| 0 <= i < 32 ==> hash[i] == 0u8
}

/// Tells whether two 32-byte values hold the same bytes.
pub fn bytes_equal(a: &[u8; 32], b: &[u8; 32]) -> (same: bool)
    ensures
        same == (*a == *b),
{
    let mut i: usize = 0;
    while i < 32
        invariant
            i <= 32,
            forall|j: int| 0 <= j < i ==> a[j] == b[j],
        decreases 32 - i,
    {
        if a[i] != b[i] {
            return false;
        }
        i += 1;
    }
    assert(*a =~= *b);
    true
}

/// Tells whether a hash is the reserved all-zero value.
pub fn hash_is_zero(hash: &[u8; 32]) -> (zero: bool)
    ensures
        zero == is_zero_hash(*hash),
{
    let mut i: usize = 0;
    while i < 32
        invariant
            i <= 32,
            forall|j: int| 0 <= j < i ==> hash[j] == 0u8,
        decreases 32 - i,
    {
        if hash[i] != 0 {
            return false;
        }
        i += 1;
    }
    true
}

/// A 32-byte address. An actor is identified by one, and every record is stored under one.
#[derive(Clone, Copy, Debug, PartialEq, Eq)]
pub struct Address {
    pub bytes: [u8; 32],
}

impl View for Address {
    type V = Seq<u8>;

    open spec fn view(&self) -> Seq<u8> {
        self.bytes@
    }
}

impl Address {
    /// The address made of the given bytes.
    pub fn new(bytes: [u8; 32]) -> (address: Address)
        ensures
            address.bytes == bytes,
    {
        Address { bytes }
    }

    /// The bytes of the address.
    pub fn to_bytes(&self) -> (bytes: [u8; 32])
        ensures
            bytes == self.bytes,
    {
        self.bytes
    }

    /// Tells whether two addresses are the same.
    pub fn same_as(&self, other: &Address) -> (same: bool)
        ensures
            same == (*self == *other),
            same == (self@ == other@),
    {
        let same = bytes_equal(&self.bytes, &other.bytes);
        proof {
            if self@ == other@ {
                assert(self.bytes =~= other.bytes);
            }
        }
        same
    }
}

} // verus!
