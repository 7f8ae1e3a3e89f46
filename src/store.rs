use vstd::prelude::*;

use crate::derivation::{address_for_bump, address_with_bump};
use crate::error::RegistryError;
use crate::key::PublicKey;
use crate::listing::{check_field_lengths, ApiListing, ListingModel};

verus! {

/// Every record in `records` fits its bounds and lives at the address derived
/// from its own owner, endpoint and tag.
pub open spec fn records_valid(program_id: Seq<u8>, records: Map<Seq<u8>, ListingModel>) -> bool {
    forall|a: Seq<u8>| #[trigger]
        records.contains_key(a) ==> {
            &&& records[a].fits()
            &&& address_with_bump(
                program_id,
                records[a].provider,
                records[a].endpoint_url,
                records[a].bump,
            ) == Some(a)
        }
}

/// Whether a record read from storage at `address` is admitted into `records`.
pub open spec fn load_result(
    records: Map<Seq<u8>, ListingModel>,
    program_id: Seq<u8>,
    address: Seq<u8>,
    listing: ListingModel,
) -> Result<(), RegistryError> {
    if !listing.fits() {
        Err(RegistryError::FieldTooLong)
    } else if address_with_bump(program_id, listing.provider, listing.endpoint_url, listing.bump)
        != Some(address) {
        Err(RegistryError::AddressMismatch)
    } else if records.contains_key(address) {
        Err(RegistryError::AlreadyExists)
    } else {
        Ok(())
    }
}

/// The records of one program, each at its address. The store is a pure
/// content-addressed mapping: a record is found by its address only.
pub struct ListingStore {
    program_id: PublicKey,
    records: Vec<(PublicKey, ApiListing)>,
}

impl View for ListingStore {
    type V = Map<Seq<u8>, ListingModel>;

    closed spec fn view(&self) -> Map<Seq<u8>, ListingModel> {
        Map::new(
            |a: Seq<u8>| self.holds(a),
            |a: Seq<u8>| self.records@[self.index_of(a)].1@,
        )
    }
}

impl ListingStore {
    /// The program whose records the store holds.
    pub closed spec fn program(&self) -> Seq<u8> {
        self.program_id@
    }

    closed spec fn holds(&self, a: Seq<u8>) -> bool {
        exists|i: int| 0 <= i < self.records@.len() && (#[trigger] self.records@[i]).0@ == a
    }

    closed spec fn index_of(&self, a: Seq<u8>) -> int {
        choose|i: int| 0 <= i < self.records@.len() && (#[trigger] self.records@[i]).0@ == a
    }

    /// No two slots share an address.
    pub closed spec fn addresses_unique(&self) -> bool {
        forall|i: int, j: int|
            0 <= i < self.records@.len() && 0 <= j < self.records@.len() && i != j
                ==> (#[trigger] self.records@[i]).0@ != (#[trigger] self.records@[j]).0@
    }

    /// The store is well formed.
    pub open spec fn wf(&self) -> bool {
        &&& self.addresses_unique()
        &&& records_valid(self.program(), self@)
    }

    proof fn lemma_index_of(&self, i: int)
        requires
            self.addresses_unique(),
            0 <= i < self.records@.len(),
        ensures
            self.holds(self.records@[i].0@),
            self.index_of(self.records@[i].0@) == i,
            self@.contains_key(self.records@[i].0@),
            self@[self.records@[i].0@] == self.records@[i].1@,
    {
        let a = self.records@[i].0@;
        assert(self.holds(a));
        let j = self.index_of(a);
        assert(0 <= j < self.records@.len() && self.records@[j].0@ == a);
    }

    /// An empty store for the program `program_id`.
    pub fn new(program_id: PublicKey) -> (r: ListingStore)
        ensures
            r.wf(),
            r.program() == program_id@,
            r@ == Map::<Seq<u8>, ListingModel>::empty(),
    {
        let r = ListingStore { program_id, records: Vec::new() };
        assert(r@ =~= Map::<Seq<u8>, ListingModel>::empty());
        r
    }

    /// The program whose records the store holds.
    pub fn program_id(&self) -> (r: PublicKey)
        ensures
            r@ == self.program(),
    {
        self.program_id
    }

    /// The slot that holds the record at `address`.
    fn find(&self, address: &PublicKey) -> (r: Option<usize>)
        requires
            self.addresses_unique(),
        ensures
            match r {
                Some(i) => {
                    &&& i < self.records@.len()
                    &&& self.records@[i as int].0@ == address@
                    &&& self@.contains_key(address@)
                    &&& self@[address@] == self.records@[i as int].1@
                },
                None => !self@.contains_key(address@),
            },
    {
        let mut i: usize = 0;
        while i < self.records.len()
            invariant
                0 <= i <= self.records@.len(),
                self.addresses_unique(),
                forall|j: int| 0 <= j < i ==> (#[trigger] self.records@[j]).0@ != address@,
            decreases self.records@.len() - i,
        {
            if self.records[i].0 == *address {
                proof {
                    self.lemma_index_of(i as int);
                }
                return Some(i);
            }
            i += 1;
        }
        None
    }

    /// Whether a record lives at `address`.
    pub fn contains(&self, address: &PublicKey) -> (r: bool)
        requires
            self.wf(),
        ensures
            r == self@.contains_key(address@),
    {
        self.find(address).is_some()
    }

    /// The record at `address`, if any.
    pub fn get(&self, address: &PublicKey) -> (r: Option<&ApiListing>)
        requires
            self.wf(),
        ensures
            match r {
                Some(l) => self@.contains_key(address@) && l@ == self@[address@],
                None => !self@.contains_key(address@),
            },
    {
        match self.find(address) {
            Some(i) => Some(&self.records[i].1),
            None => None,
        }
    }
    proof fn lemma_view_replace(&self, next: &Self, i: int)
        requires
            self.addresses_unique(),
            0 <= i < self.records@.len(),
            next.records@ == self.records@.update(i, next.records@[i]),
            next.records@[i].0@ == self.records@[i].0@,
        ensures
            next.addresses_unique(),
            next@ == self@.insert(self.records@[i].0@, next.records@[i].1@),
    {
        let key = self.records@[i].0@;
        assert forall|x: int, y: int|
            0 <= x < next.records@.len() && 0 <= y < next.records@.len() && x != y
                implies (#[trigger] next.records@[x]).0@ != (#[trigger] next.records@[y]).0@ by {
            assert(next.records@[x].0@ == self.records@[x].0@);
            assert(next.records@[y].0@ == self.records@[y].0@);
        }
        next.lemma_index_of(i);
        assert forall|a: Seq<u8>| #[trigger] next.holds(a) == (self.holds(a) || a == key) by {
            if next.holds(a) {
                let j = next.index_of(a);
                assert(self.records@[j].0@ == a);
            }
            if self.holds(a) {
                let j = self.index_of(a);
                assert(next.records@[j].0@ == a);
            }
        }
        assert forall|a: Seq<u8>| next.holds(a) && a != key implies
            next.records@[next.index_of(a)].1@ == self.records@[self.index_of(a)].1@ by {
            let j = next.index_of(a);
            assert(j != i);
            assert(self.records@[j] == next.records@[j]);
            self.lemma_index_of(j);
        }
        assert(next@ =~= self@.insert(key, next.records@[i].1@));
    }

    proof fn lemma_view_push(&self, next: &Self)
        requires
            self.addresses_unique(),
            next.records@.len() == self.records@.len() + 1,
            next.records@.subrange(0, self.records@.len() as int) == self.records@,
            !self@.contains_key(next.records@.last().0@),
        ensures
            next.addresses_unique(),
            next@ == self@.insert(next.records@.last().0@, next.records@.last().1@),
    {
        let n = self.records@.len() as int;
        let key = next.records@[n].0@;
        assert forall|x: int| 0 <= x < n implies #[trigger] next.records@[x] == self.records@[x]
        by {
            assert(next.records@.subrange(0, n)[x] == next.records@[x]);
        }
        assert forall|x: int| 0 <= x < n implies (#[trigger] self.records@[x]).0@ != key by {
            self.lemma_index_of(x);
        }
        assert forall|x: int, y: int|
            0 <= x < next.records@.len() && 0 <= y < next.records@.len() && x != y
                implies (#[trigger] next.records@[x]).0@ != (#[trigger] next.records@[y]).0@ by {
            if x < n {
                assert(next.records@[x] == self.records@[x]);
            }
            if y < n {
                assert(next.records@[y] == self.records@[y]);
            }
        }
        next.lemma_index_of(n);
        assert forall|a: Seq<u8>| #[trigger] next.holds(a) == (self.holds(a) || a == key) by {
            if next.holds(a) {
                let j = next.index_of(a);
                if j < n {
                    assert(self.records@[j] == next.records@[j]);
                }
            }
            if self.holds(a) {
                let j = self.index_of(a);
                assert(next.records@[j] == self.records@[j]);
            }
        }
        assert forall|a: Seq<u8>| next.holds(a) && a != key implies
            next.records@[next.index_of(a)].1@ == self.records@[self.index_of(a)].1@ by {
            let j = next.index_of(a);
            assert(j != n);
            assert(self.records@[j] == next.records@[j]);
            self.lemma_index_of(j);
        }
        assert(next@ =~= self@.insert(key, next.records@[n].1@));
    }

    /// Places `listing` at the free address `address`.
    pub(crate) fn insert_new(&mut self, address: PublicKey, listing: ApiListing)
        requires
            old(self).wf(),
            !old(self)@.contains_key(address@),
            listing@.fits(),
            address_with_bump(
                old(self).program(),
                listing@.provider,
                listing@.endpoint_url,
                listing@.bump,
            ) == Some(address@),
        ensures
            final(self).wf(),
            final(self).program() == old(self).program(),
            final(self)@ == old(self)@.insert(address@, listing@),
    {
        let ghost before = *self;
        self.records.push((address, listing));
        proof {
            assert(self.records@.subrange(0, before.records@.len() as int) =~= before.records@);
            before.lemma_view_push(self);
        }
    }

    /// Replaces the mutable content of the record at `address`.
    pub(crate) fn replace_content(
        &mut self,
        address: &PublicKey,
        description: String,
        price_usd_cents: u32,
        token_mint: PublicKey,
        category: u8,
        logo_url: String,
    )
        requires
            old(self).wf(),
            old(self)@.contains_key(address@),
            old(self)@[address@].with_content(
                description@,
                price_usd_cents,
                token_mint@,
                category,
                logo_url@,
            ).fits(),
        ensures
            final(self).wf(),
            final(self).program() == old(self).program(),
            final(self)@ == old(self)@.insert(
                address@,
                old(self)@[address@].with_content(
                    description@,
                    price_usd_cents,
                    token_mint@,
                    category,
                    logo_url@,
                ),
            ),
    {
        let ghost before = *self;
        let i = self.find(address).unwrap();
        let mut entry = self.records.remove(i);
        entry.1.description = description;
        entry.1.price_usd_cents = price_usd_cents;
        entry.1.token_mint = token_mint;
        entry.1.category = category;
        entry.1.logo_url = logo_url;
        self.records.insert(i, entry);
        proof {
            assert(self.records@ =~= before.records@.update(i as int, self.records@[i as int]));
            before.lemma_view_replace(self, i as int);
        }
    }

    /// Sets the flag of the record at `address`.
    pub(crate) fn replace_active(&mut self, address: &PublicKey, active: bool)
        requires
            old(self).wf(),
            old(self)@.contains_key(address@),
        ensures
            final(self).wf(),
            final(self).program() == old(self).program(),
            final(self)@ == old(self)@.insert(address@, old(self)@[address@].with_active(active)),
    {
        let ghost before = *self;
        let i = self.find(address).unwrap();
        let mut entry = self.records.remove(i);
        entry.1.active = active;
        self.records.insert(i, entry);
        proof {
            assert(self.records@ =~= before.records@.update(i as int, self.records@[i as int]));
            before.lemma_view_replace(self, i as int);
        }
    }
    /// Admits a record read from storage at `address`: it must fit its bounds,
    /// live at the address derived from its own owner, endpoint and tag, and
    /// find the address free in this store.
    pub fn load(&mut self, address: PublicKey, listing: ApiListing) -> (r: Result<
        (),
        RegistryError,
    >)
        requires
            old(self).wf(),
        ensures
            final(self).wf(),
            final(self).program() == old(self).program(),
            r == load_result(old(self)@, old(self).program(), address@, listing@),
            r is Ok ==> final(self)@ == old(self)@.insert(address@, listing@),
            r is Err ==> final(self)@ == old(self)@,
    {
        if !check_field_lengths(
            listing.endpoint_url.as_str(),
            listing.description.as_str(),
            listing.logo_url.as_str(),
        ) {
            return Err(RegistryError::FieldTooLong);
        }
        match address_for_bump(
            &self.program_id,
            &listing.provider,
            listing.endpoint_url.as_str(),
            listing.bump,
        ) {
            Some(home) => {
                if home != address {
                    return Err(RegistryError::AddressMismatch);
                }
            },
            None => {
                return Err(RegistryError::AddressMismatch);
            },
        }
        if self.contains(&address) {
            return Err(RegistryError::AlreadyExists);
        }
        self.insert_new(address, listing);
        Ok(())
    }
}

} // verus!
