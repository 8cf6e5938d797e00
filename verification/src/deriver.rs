//! Deterministic storage addresses, derived from a namespace tag and byte strings.
use vstd::prelude::*;
use anchor_lang::prelude::Pubkey;
use crate::address::Address;

verus! {

/// The address that `Pubkey::try_find_program_address` finds for the given seeds
/// under the given program, or `None` where it finds none.
pub uninterp spec fn program_address(seeds: Seq<Seq<u8>>, program_id: Seq<u8>) -> Option<Seq<u8>>;

/// The byte strings that a list of seeds holds.
pub open spec fn seed_bytes(seeds: Seq<&[u8]>) -> Seq<Seq<u8>> {
    Seq::new(seeds.len(), |i: int| seeds[i]@)
}

/// A derivation takes fewer seeds than this: one more, the bump seed, is added to them.
pub const MAX_SEEDS: usize = 16;

/// The greatest length of a seed.
pub const MAX_SEED_LEN: usize = 32;

/// The seeds are few enough and short enough for a derivation.
pub open spec fn seeds_fit(seeds: Seq<Seq<u8>>) -> bool {
    seeds.len() < MAX_SEEDS && forall|i: int| 0 <= i < seeds.len() ==> (#[trigger] seeds[i]).len() <= MAX_SEED_LEN
}

/// Calls `Pubkey::try_find_program_address` and keeps the address it found, without the
/// bump seed. The result is a function of the seeds and the program alone. It is `None`
/// where the seeds are too many or one of them is too long, and where no bump seed
/// gives an address off the curve.
#[verifier::external_body]
fn try_find_program_address(seeds: &[&[u8]], program_id: &[u8; 32]) -> (found: Option<[u8; 32]>)
    ensures
        program_address(seed_bytes(seeds@), program_id@) == match found {
            Some(bytes) => Some(bytes@),
            None => None,
        },
        !seeds_fit(seed_bytes(seeds@)) ==> found is None,
{
    Pubkey::try_find_program_address(seeds, &Pubkey::new_from_array(*program_id))
        .map(|(address, _)| address.to_bytes())
}

/// The seeds of a derivation: the namespace tag first, then the parts in order.
pub open spec fn derivation_seeds(namespace: Seq<u8>, parts: Seq<Seq<u8>>) -> Seq<Seq<u8>> {
    seq![namespace] + parts
}

/// The address derived under `program_id` from a namespace tag and parts, if there is one.
pub open spec fn derived_address(program_id: Seq<u8>, namespace: Seq<u8>, parts: Seq<Seq<u8>>) -> Option<Seq<u8>> {
    program_address(derivation_seeds(namespace, parts), program_id)
}

/// Derives the address that belongs to a namespace tag and an ordered list of parts.
/// Equal inputs give equal addresses. There is no address where the tag and the parts
/// are too many or too long to be seeds, and where the derivation space is exhausted.
pub fn derive_address(program_id: &Address, namespace: &[u8], parts: &[&[u8]]) -> (address: Option<Address>)
    ensures
        derived_address(program_id@, namespace@, seed_bytes(parts@)) == match address {
            Some(a) => Some(a@),
            None => None,
        },
        !seeds_fit(derivation_seeds(namespace@, seed_bytes(parts@))) ==> address is None,
{
    let mut seeds: Vec<&[u8]> = Vec::new();
    seeds.push(namespace);
    let mut i: usize = 0;
    while i < parts.len()
        invariant
            i <= parts.len(),
            seeds.len() == i + 1,
            seeds[0]@ == namespace@,
            forall|j: int| 0 <= j < i ==> seeds[j + 1]@ == parts[j]@,
        decreases parts.len() - i,
    {
        seeds.push(parts[i]);
        i += 1;
    }
    assert(seed_bytes(seeds@) =~= derivation_seeds(namespace@, seed_bytes(parts@)));
    match try_find_program_address(seeds.as_slice(), &program_id.bytes) {
        Some(bytes) => Some(Address { bytes }),
        None => None,
    }
}

/// The namespace tag of document records: the ASCII letters of "doc".
pub const DOC_NAMESPACE: [u8; 3] = [0x64, 0x6f, 0x63];

/// The namespace tag of approval records: the ASCII letters of "approval".
pub const APPROVAL_NAMESPACE: [u8; 8] = [0x61, 0x70, 0x70, 0x72, 0x6f, 0x76, 0x61, 0x6c];

/// The address of the slot that holds the document record of `doc_hash`.
pub open spec fn doc_address_of(program_id: Seq<u8>, doc_hash: Seq<u8>) -> Option<Seq<u8>> {
    derived_address(program_id, DOC_NAMESPACE@, seq![doc_hash])
}

/// The address of the slot that holds the approval of `doc_hash` by `user`.
pub open spec fn approval_address_of(program_id: Seq<u8>, doc_hash: Seq<u8>, user: Seq<u8>) -> Option<Seq<u8>> {
    derived_address(program_id, APPROVAL_NAMESPACE@, seq![doc_hash, user])
}

/// Derives the address under which the document record of `doc_hash` is stored.
pub fn doc_address(program_id: &Address, doc_hash: &[u8; 32]) -> (address: Option<Address>)
    ensures
        doc_address_of(program_id@, doc_hash@) == match address {
            Some(a) => Some(a@),
            None => None,
        },
{
    let namespace = DOC_NAMESPACE;
    let parts: [&[u8]; 1] = [doc_hash.as_slice()];
    assert(seed_bytes(parts@) =~= seq![doc_hash@]);
    derive_address(program_id, namespace.as_slice(), parts.as_slice())
}

/// Derives the address under which the approval of `doc_hash` by `user` is stored.
pub fn approval_address(program_id: &Address, doc_hash: &[u8; 32], user: &Address) -> (address: Option<Address>)
    ensures
        approval_address_of(program_id@, doc_hash@, user@) == match address {
            Some(a) => Some(a@),
            None => None,
        },
{
    let namespace = APPROVAL_NAMESPACE;
    let parts: [&[u8]; 2] = [doc_hash.as_slice(), user.bytes.as_slice()];
    assert(seed_bytes(parts@) =~= seq![doc_hash@, user@]);
    derive_address(program_id, namespace.as_slice(), parts.as_slice())
}

} // verus!
