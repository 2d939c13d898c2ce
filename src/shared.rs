use vstd::prelude::*;
use vstd::rwlock::{RwLock, RwLockPredicate};
use crate::pagination::{Pagination, paginate};
use crate::store::{VenueStore, created, enumerates, removed, updated, values_in};
use crate::venue::{IdentifiableVenue, UpdateVenue, Venue};

verus! {

/// What every holder of the lock may rely on: the store is well formed.
pub struct WellFormedStore {}

impl RwLockPredicate<VenueStore> for WellFormedStore {
    open spec fn inv(self, v: VenueStore) -> bool {
        v.wf()
    }
}

/// Some create on some well-formed store took `venue` and returned `v`.
pub open spec fn created_from_some_state(venue: Venue, v: IdentifiableVenue) -> bool {
    exists|before: VenueStore, after: VenueStore| before.wf() && #[trigger] created(before, after, venue, v)
}

/// A venue store shared between request handlers: reads take the lock
/// shared, writes take it exclusively, and each operation holds it only for
/// the one call into the store.
pub struct SharedVenueStore {
    lock: RwLock<VenueStore, WellFormedStore>,
}

impl SharedVenueStore {
    pub fn new(store: VenueStore) -> (r: SharedVenueStore)
        requires
            store.wf(),
    {
        SharedVenueStore { lock: RwLock::new(store, Ghost(WellFormedStore {})) }
    }

    /// Stores `venue` under a fresh identifier; `None` once the identifiers
    /// are used up.
    pub fn create(&self, venue: Venue) -> (r: Option<IdentifiableVenue>)
        ensures
            r matches Some(v) ==> created_from_some_state(venue, v),
            r is None ==> exists|s: VenueStore| s.wf() && #[trigger] s.next_id() == usize::MAX,
    {
        let (mut store, handle) = self.lock.acquire_write();
        if store.has_free_id() {
            let ghost before = store;
            let v = store.add_venue(venue);
            assert(before.wf() && created(before, store, venue, v));
            assert(created_from_some_state(venue, v));
            handle.release_write(store);
            Some(v)
        } else {
            assert(store.wf() && store.next_id() == usize::MAX);
            handle.release_write(store);
            None
        }
    }

    /// A copy of the entry under `id`, as the store held it at some moment.
    pub fn get(&self, id: usize) -> (r: Option<IdentifiableVenue>)
        ensures
            exists|s: VenueStore|
                s.wf() && #[trigger] s@.contains_key(id) == r is Some && (r matches Some(v) ==> v
                    == s@[id]),
    {
        let handle = self.lock.acquire_read();
        let store = handle.borrow();
        let r = match store.get_venue(id) {
            Some(v) => Some(v.clone()),
            None => None,
        };
        assert(store@.contains_key(id) == r is Some);
        handle.release_read();
        r
    }

    /// The window of the listing that `pagination` selects, as the store held
    /// it at some moment.
    pub fn list(&self, pagination: Pagination) -> (r: Vec<IdentifiableVenue>)
        ensures
            exists|s: VenueStore, order: Seq<usize>|
                s.wf() && #[trigger] enumerates(order, s@) && r@ == paginate(
                    values_in(order, s@),
                    pagination,
                ),
    {
        let handle = self.lock.acquire_read();
        let store = handle.borrow();
        let r = store.get_venues(pagination);
        handle.release_read();
        r
    }

    /// Patches the entry under `id` and returns a copy of it.
    pub fn update(&self, id: usize, patch: UpdateVenue) -> (r: Option<IdentifiableVenue>)
        ensures
            exists|before: VenueStore, after: VenueStore|
                before.wf() && #[trigger] updated(before, after, id, patch, r),
    {
        let (mut store, handle) = self.lock.acquire_write();
        let ghost before = store;
        let r = store.update_venue(&id, patch);
        assert(updated(before, store, id, patch, r));
        handle.release_write(store);
        r
    }

    /// Removes the entry under `id` and returns it.
    pub fn delete(&self, id: usize) -> (r: Option<IdentifiableVenue>)
        ensures
            exists|before: VenueStore, after: VenueStore|
                before.wf() && #[trigger] removed(before, after, id, r),
    {
        let (mut store, handle) = self.lock.acquire_write();
        let ghost before = store;
        let r = store.remove_venue(id);
        assert(removed(before, store, id, r));
        handle.release_write(store);
        r
    }

    /// The store itself, once no one else shares it.
    pub fn into_inner(self) -> (r: VenueStore)
        ensures
            r.wf(),
    {
        self.lock.into_inner()
    }
}

} // verus!
