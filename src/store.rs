use vstd::prelude::*;
use std::collections::HashMap;
use crate::id_generator::IdGenerator;
use crate::pagination::{Pagination, paginate, window_end, window_start};
use crate::venue::{IdentifiableVenue, UpdateVenue, Venue, apply_patch};

verus! {

broadcast use vstd::std_specs::hash::group_hash_axioms;

/// `order` lists every key of `m` exactly once.
pub open spec fn enumerates<V>(order: Seq<usize>, m: Map<usize, V>) -> bool {
    &&& order.no_duplicates()
    &&& order.to_set() == m.dom()
}

/// The values of `m` in the order of `order`.
pub open spec fn values_in<V>(order: Seq<usize>, m: Map<usize, V>) -> Seq<V> {
    order.map_values(|k: usize| m[k])
}

/// `n` is the identifier that follows a set of issued keys: above all of them,
/// and either `0` or one past the largest.
pub open spec fn follows_keys(dom: Set<usize>, n: nat) -> bool {
    &&& forall|k: usize| #[trigger] dom.contains(k) ==> k < n
    &&& (n == 0 || exists|k: usize| #[trigger] dom.contains(k) && k + 1 == n)
}

/// `after` is `before` with `venue` stored as `r` under the identifier that
/// was next, and the counter moved one on.
pub open spec fn created(before: VenueStore, after: VenueStore, venue: Venue, r: IdentifiableVenue) -> bool {
    &&& after.wf()
    &&& r.id == before.next_id()
    &&& r.item == venue
    &&& !before@.contains_key(r.id)
    &&& after@ == before@.insert(r.id, r)
    &&& after.next_id() == before.next_id() + 1
}

/// `after` is `before` with the entry under `id` patched by `patch`, and `r`
/// the patched entry; with no such entry, `after` is `before` and `r` is `None`.
pub open spec fn updated(
    before: VenueStore,
    after: VenueStore,
    id: usize,
    patch: UpdateVenue,
    r: Option<IdentifiableVenue>,
) -> bool {
    &&& before.wf() ==> after.wf()
    &&& after.next_id() == before.next_id()
    &&& match r {
        Some(v) => {
            &&& before@.contains_key(id)
            &&& v == (IdentifiableVenue {
                id: before@[id].id,
                item: apply_patch(before@[id].item, patch),
            })
            &&& after@ == before@.insert(id, v)
        },
        None => !before@.contains_key(id) && after@ == before@,
    }
}

/// `after` is `before` without an entry under `id`, and `r` the entry that
/// was there, if any.
pub open spec fn removed(before: VenueStore, after: VenueStore, id: usize, r: Option<IdentifiableVenue>) -> bool {
    &&& before.wf() ==> after.wf()
    &&& after@ == before@.remove(id)
    &&& after.next_id() == before.next_id()
    &&& r == (if before@.contains_key(id) {
        Some(before@[id])
    } else {
        None::<IdentifiableVenue>
    })
}

/// Identifier-keyed venue store. Identifiers come from a counter that only
/// moves forward, so one is never given out twice, even after a removal.
pub struct VenueStore {
    store: HashMap<usize, IdentifiableVenue>,
    id_generator: IdGenerator,
}

impl View for VenueStore {
    type V = Map<usize, IdentifiableVenue>;

    closed spec fn view(&self) -> Map<usize, IdentifiableVenue> {
        self.store@
    }
}

impl Default for VenueStore {
    /// An empty store whose first identifier is `0`.
    fn default() -> (r: VenueStore)
        ensures
            r.wf(),
            r@ == Map::<usize, IdentifiableVenue>::empty(),
            r.next_id() == 0,
    {
        VenueStore { store: HashMap::new(), id_generator: IdGenerator::starting_at(0) }
    }
}

impl From<VenueStore> for HashMap<usize, IdentifiableVenue> {
    fn from(value: VenueStore) -> (r: HashMap<usize, IdentifiableVenue>) {
        value.store
    }
}

impl vstd::std_specs::convert::FromSpecImpl<VenueStore> for HashMap<usize, IdentifiableVenue> {
    open spec fn obeys_from_spec() -> bool {
        true
    }

    closed spec fn from_spec(v: VenueStore) -> HashMap<usize, IdentifiableVenue> {
        v.store
    }
}

/// Converting a store into its mapping keeps every entry.
pub broadcast proof fn lemma_from_store_keeps_entries(v: VenueStore)
    ensures
        #[trigger] <HashMap<usize, IdentifiableVenue> as vstd::std_specs::convert::FromSpec<
            VenueStore,
        >>::from_spec(v)@ == v@,
{
}

impl VenueStore {
    /// The identifier the next `add_venue` gives out.
    pub closed spec fn next_id(&self) -> nat {
        self.id_generator@
    }

    /// Every entry is stored under its own identifier, every identifier in
    /// use is below the next one to be given out, and that one fits a `usize`.
    pub open spec fn wf(&self) -> bool {
        &&& self.next_id() <= usize::MAX
        &&& forall|k: usize| #[trigger] self@.contains_key(k) ==> self@[k].id == k
        &&& forall|k: usize| #[trigger] self@.contains_key(k) ==> k < self.next_id()
    }

    /// Whether an identifier is left to give out: the counter has not reached
    /// the largest `usize`.
    pub fn has_free_id(&self) -> (r: bool)
        ensures
            r == (self.next_id() < usize::MAX),
    {
        self.id_generator.has_next()
    }

    /// A store over an existing mapping; the next identifier is one past the
    /// largest key, or `0` for an empty mapping.
    pub fn from_hashmap(store: HashMap<usize, IdentifiableVenue>) -> (r: VenueStore)
        requires
            forall|k: usize| #[trigger] store@.contains_key(k) ==> store@[k].id == k,
            !store@.contains_key(usize::MAX),
        ensures
            r.wf(),
            r@ == store@,
            follows_keys(store@.dom(), r.next_id()),
    {
        let mut next: usize = 0;
        let ghost mut seen: Set<usize> = Set::empty();
        for k in it: store.keys()
            invariant
                it.seq().unref().to_set() == store@.dom(),
                !store@.contains_key(usize::MAX),
                forall|j: usize|
                    #[trigger] seen.contains(j) <==> exists|i: int|
                        0 <= i < it.index() && *it.seq()[i] == j,
                forall|j: usize| #[trigger] seen.contains(j) ==> j < next,
                seen.subset_of(store@.dom()),
                next == 0 || seen.contains((next - 1) as usize),
                forall|j: usize|
                    #[trigger] store@.dom().contains(j) ==> seen.contains(j) || exists|i: int|
                        it.index() <= i < it.seq().len() && *it.seq()[i] == j,
        {
            assert(store@.dom().contains(*k)) by {
                assert(it.seq().unref()[it.index() as int] == *k);
                assert(it.seq().unref().contains(*k));
            }
            if *k >= next {
                next = *k + 1;
            }
            proof {
                seen = seen.insert(*k);
            }
        }
        proof {
            if next != 0 {
                assert(store@.dom().contains((next - 1) as usize));
            }
        }
        VenueStore { store, id_generator: IdGenerator::starting_at(next) }
    }

    /// The entry stored under `id`, if there is one.
    pub fn get_venue(&self, id: usize) -> (r: Option<&IdentifiableVenue>)
        ensures
            match r {
                Some(v) => self@.contains_key(id) && *v == self@[id],
                None => !self@.contains_key(id),
            },
    {
        self.store.get(&id)
    }

    /// Stores `venue` under the next identifier and returns a copy of the
    /// new entry.
    pub fn add_venue(&mut self, venue: Venue) -> (r: IdentifiableVenue)
        requires
            old(self).wf(),
            old(self).next_id() < usize::MAX,
        ensures
            created(*old(self), *final(self), venue, r),
    {
        let id = self.id_generator.next_id();
        let new_item = IdentifiableVenue::new(id, venue);
        self.store.insert(id, new_item.clone());
        proof {
            assert forall|k: usize| #[trigger] self@.contains_key(k) implies self@[k].id == k
                && k < self.next_id() by {
                if k != id {
                    assert(old(self)@.contains_key(k));
                }
            }
        }
        new_item
    }

    /// Removes the entry stored under `id` and returns it, if there is one.
    pub fn remove_venue(&mut self, id: usize) -> (r: Option<IdentifiableVenue>)
        ensures
            removed(*old(self), *final(self), id, r),
    {
        let r = self.store.remove(&id);
        proof {
            assert forall|k: usize| #[trigger] self@.contains_key(k) implies old(self)@.contains_key(k)
                && self@[k] == old(self)@[k] by {}
        }
        r
    }

    /// Applies `venue` to the entry stored under `id` and returns a copy of
    /// the updated entry; with no such entry nothing changes.
    pub fn update_venue(&mut self, id: &usize, venue: UpdateVenue) -> (r: Option<IdentifiableVenue>)
        ensures
            updated(*old(self), *final(self), *id, venue, r),
    {
        let mut item = match self.store.get(id) {
            Some(v) => v.clone(),
            None => {
                return None;
            },
        };
        venue.apply_to(&mut item.item);
        self.store.insert(*id, item.clone());
        proof {
            assert forall|k: usize| #[trigger] self@.contains_key(k) implies old(self)@.contains_key(k)
                && (k != *id ==> self@[k] == old(self)@[k]) && self@[k].id == old(self)@[k].id by {}
        }
        Some(item)
    }

    /// The keys of the store in the order the map walks them.
    fn keys_in_order(&self) -> (r: Vec<usize>)
        ensures
            enumerates(r@, self@),
    {
        let mut keys: Vec<usize> = Vec::new();
        for k in it: self.store.keys()
            invariant
                it.seq().unref().to_set() == self@.dom(),
                it.seq().unref().no_duplicates(),
                keys@ == it.seq().unref().take(it.index() as int),
                keys@.no_duplicates(),
                keys@.to_set().subset_of(self@.dom()),
                forall|j: usize|
                    #[trigger] self@.dom().contains(j) ==> keys@.contains(j) || exists|i: int|
                        it.index() <= i < it.seq().len() && *it.seq()[i] == j,
        {
            let ghost s = it.seq().unref();
            let ghost idx = it.index() as int;
            assert(s[idx] == *k);
            assert(!keys@.contains(*k)) by {
                if keys@.contains(*k) {
                    let i = choose|i: int| 0 <= i < keys@.len() && keys@[i] == *k;
                    assert(s[i] == s[idx]);
                }
            }
            assert(self@.dom().contains(*k)) by {
                assert(s.contains(*k));
            }
            let ghost before = keys@;
            keys.push(*k);
            assert(keys@ == s.take(idx + 1));
            assert forall|j: usize| #[trigger] self@.dom().contains(j) implies keys@.contains(j)
                || exists|i: int| idx + 1 <= i < s.len() && s[i] == j by {
                if before.contains(j) {
                    let b = choose|b: int| 0 <= b < before.len() && before[b] == j;
                    assert(keys@[b] == j);
                } else {
                    let i = choose|i: int| idx <= i < it.seq().len() && *it.seq()[i] == j;
                    if i == idx {
                        assert(keys@[idx] == j);
                    } else {
                        assert(s[i] == j);
                    }
                }
            }
        }
        proof {
            assert(keys@.to_set() =~= self@.dom());
        }
        keys
    }

    /// The venues in the window that `pagination` selects, taken in the
    /// order the map walks its entries; that order is not fixed, so the
    /// contract speaks of some order that lists every entry once.
    pub fn get_venues(&self, pagination: Pagination) -> (r: Vec<IdentifiableVenue>)
        ensures
            exists|order: Seq<usize>|
                enumerates(order, self@) && r@ == paginate(values_in(order, self@), pagination),
            r.len() == window_end(pagination, self@.len()) - window_start(pagination, self@.len()),
    {
        let keys = self.keys_in_order();
        let (start, end) = pagination.bounds(keys.len());
        let ghost all = values_in(keys@, self@);
        let mut out: Vec<IdentifiableVenue> = Vec::new();
        let mut i: usize = start;
        while i < end
            invariant
                start <= i <= end <= keys.len(),
                enumerates(keys@, self@),
                all == values_in(keys@, self@),
                out@ == all.subrange(start as int, i as int),
            decreases end - i,
        {
            assert(keys@.to_set().contains(keys@[i as int]));
            match self.store.get(&keys[i]) {
                Some(v) => {
                    out.push(v.clone());
                },
                None => {},
            }
            assert(out@ == all.subrange(start as int, i + 1));
            i = i + 1;
        }
        proof {
            assert(out@ == paginate(values_in(keys@, self@), pagination));
            keys@.unique_seq_to_set();
        }
        out
    }
}

} // verus!
