//! A create-once record store: a slot, once filled, is never overwritten or emptied.
use vstd::prelude::*;
use crate::address::Address;
use crate::error::StoreError;
use crate::record::{Record, Slot};

verus! {

/// One filled slot with its address.
struct Entry {
    address: Address,
    slot: Slot,
}

/// Entry `i` is the one stored under `key`.
spec fn stored_at(entries: Seq<Entry>, key: Seq<u8>, i: int) -> bool {
    0 <= i < entries.len() && entries[i].address@ == key
}

/// No address occurs in two entries.
spec fn distinct(entries: Seq<Entry>) -> bool {
    forall|i: int, j: int|
        0 <= i < j < entries.len() ==> (#[trigger] entries[i]).address@ != (#[trigger] entries[j]).address@
}

/// The map from addresses to slots that a list of entries stands for.
spec fn contents(entries: Seq<Entry>) -> Map<Seq<u8>, Slot> {
    Map::new(
        |key: Seq<u8>| exists|i: int| stored_at(entries, key, i),
        |key: Seq<u8>| entries[choose|i: int| stored_at(entries, key, i)].slot,
    )
}

/// Where the addresses are distinct, entry `i` is what the map holds under its address.
proof fn lemma_entry_in_contents(entries: Seq<Entry>, i: int)
    requires
        distinct(entries),
        0 <= i < entries.len(),
    ensures
        contents(entries).contains_key(entries[i].address@),
        contents(entries)[entries[i].address@] == entries[i].slot,
{
    assert(stored_at(entries, entries[i].address@, i));
}

/// A key-value store over addresses. `create` fills a vacant slot and fails on a filled
/// one; nothing updates or deletes a slot.
pub struct RecordStore {
    entries: Vec<Entry>,
}

impl View for RecordStore {
    type V = Map<Seq<u8>, Slot>;

    closed spec fn view(&self) -> Map<Seq<u8>, Slot> {
        contents(self.entries@)
    }
}

impl RecordStore {
    /// The store is well formed: no address is entered twice.
    pub closed spec fn wf(&self) -> bool {
        distinct(self.entries@)
    }

    /// A store with no record in it.
    pub fn new() -> (store: RecordStore)
        ensures
            store.wf(),
            store@ == Map::<Seq<u8>, Slot>::empty(),
    {
        let store = RecordStore { entries: Vec::new() };
        store
    }

    /// The index of the entry stored under `address`, if there is one.
    fn position(&self, address: &Address) -> (found: Option<usize>)
        ensures
            match found {
                Some(i) => stored_at(self.entries@, address@, i as int),
                None => forall|i: int| !stored_at(self.entries@, address@, i),
            },
    {
        let mut i: usize = 0;
        while i < self.entries.len()
            invariant
                i <= self.entries.len(),
                forall|j: int| 0 <= j < i ==> !stored_at(self.entries@, address@, j),
            decreases self.entries.len() - i,
        {
            if self.entries[i].address.same_as(address) {
                return Some(i);
            }
            i += 1;
        }
        None
    }

    /// Tells whether a record is stored at `address`.
    pub fn contains(&self, address: &Address) -> (filled: bool)
        ensures
            filled == self@.contains_key(address@),
    {
        self.position(address).is_some()
    }

    /// Stores `record` at `address`, paid for by `payer`, if the slot is vacant. A filled
    /// slot is left as it is, and the call fails.
    pub fn create(&mut self, address: Address, record: Record, payer: Address) -> (result: Result<(), StoreError>)
        requires
            old(self).wf(),
        ensures
            final(self).wf(),
            old(self)@.contains_key(address@) ==> result == Err::<(), StoreError>(StoreError::AddressAlreadyInUse)
                && final(self)@ == old(self)@,
            !old(self)@.contains_key(address@) ==> result == Ok::<(), StoreError>(())
                && final(self)@ == old(self)@.insert(address@, Slot { payer, record }),
    {
        match self.position(&address) {
            Some(_) => Err(StoreError::AddressAlreadyInUse),
            None => {
                let ghost before = self.entries@;
                let slot = Slot { payer, record };
                self.entries.push(Entry { address, slot });
                proof {
                    let after = self.entries@;
                    assert(distinct(after)) by {
                        assert forall|i: int, j: int| 0 <= i < j < after.len() implies (#[trigger] after[i]).address@
                            != (#[trigger] after[j]).address@ by {
                            if j == before.len() {
                                assert(!stored_at(before, address@, i));
                            }
                        }
                    }
                    assert(contents(after) =~= contents(before).insert(address@, slot)) by {
                        assert forall|key: Seq<u8>| contents(after).contains_key(key) <==> #[trigger] contents(
                            before,
                        ).insert(address@, slot).contains_key(key) by {
                            if contents(after).contains_key(key) {
                                let i = choose|i: int| stored_at(after, key, i);
                                if i < before.len() {
                                    assert(stored_at(before, key, i));
                                }
                            }
                            if key == address@ {
                                assert(stored_at(after, key, before.len() as int));
                            } else if contents(before).contains_key(key) {
                                let i = choose|i: int| stored_at(before, key, i);
                                assert(stored_at(after, key, i));
                            }
                        }
                        assert forall|key: Seq<u8>| #[trigger] contents(after).contains_key(key) implies contents(
                            after,
                        )[key] == contents(before).insert(address@, slot)[key] by {
                            let i = choose|i: int| stored_at(after, key, i);
                            lemma_entry_in_contents(after, i);
                            if i < before.len() {
                                lemma_entry_in_contents(before, i);
                            }
                        }
                    }
                }
                Ok(())
            },
        }
    }

    /// The record stored at `address`.
    pub fn get(&self, address: &Address) -> (result: Result<Record, StoreError>)
        requires
            self.wf(),
        ensures
            match result {
                Ok(record) => self@.contains_key(address@) && self@[address@].record == record,
                Err(e) => e == StoreError::NotFound && !self@.contains_key(address@),
            },
    {
        match self.position(address) {
            Some(i) => {
                proof {
                    lemma_entry_in_contents(self.entries@, i as int);
                }
                Ok(self.entries[i].slot.record)
            },
            None => Err(StoreError::NotFound),
        }
    }

    /// The actor who paid for the slot at `address`.
    pub fn payer(&self, address: &Address) -> (result: Result<Address, StoreError>)
        requires
            self.wf(),
        ensures
            match result {
                Ok(payer) => self@.contains_key(address@) && self@[address@].payer == payer,
                Err(e) => e == StoreError::NotFound && !self@.contains_key(address@),
            },
    {
        match self.position(address) {
            Some(i) => {
                proof {
                    lemma_entry_in_contents(self.entries@, i as int);
                }
                Ok(self.entries[i].slot.payer)
            },
            None => Err(StoreError::NotFound),
        }
    }
}

} // verus!
