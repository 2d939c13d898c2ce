use vstd::prelude::*;
use crate::store::{VenueStore, created, removed, updated};
use crate::venue::{IdentifiableVenue, UpdateVenue, Venue, apply_patch, is_empty_patch};

verus! {

/// After `k` creates, the counter stands `k` past where it started.
proof fn lemma_counter_after_creates(
    stores: Seq<VenueStore>,
    venues: Seq<Venue>,
    results: Seq<IdentifiableVenue>,
    k: int,
)
    requires
        stores.len() == results.len() + 1,
        venues.len() == results.len(),
        0 <= k <= results.len(),
        forall|i: int|
            0 <= i < results.len() ==> created(stores[i], stores[i + 1], venues[i], #[trigger] results[i]),
    ensures
        stores[k].next_id() == stores[0].next_id() + k,
    decreases k,
{
    if k > 0 {
        lemma_counter_after_creates(stores, venues, results, k - 1);
        let prev = results[k - 1];
        assert(stores[k - 1 + 1] == stores[k]);
    }
}

/// Each create in a run gives out the identifier that follows the one before,
/// so no two creates of a run give out the same identifier.
pub proof fn lemma_created_ids_distinct(
    stores: Seq<VenueStore>,
    venues: Seq<Venue>,
    results: Seq<IdentifiableVenue>,
)
    requires
        stores.len() == results.len() + 1,
        venues.len() == results.len(),
        stores[0].wf(),
        forall|i: int|
            0 <= i < results.len() ==> created(stores[i], stores[i + 1], venues[i], #[trigger] results[i]),
    ensures
        forall|i: int| 0 <= i < results.len() ==> #[trigger] results[i].id == stores[0].next_id() + i,
        forall|i: int, j: int|
            0 <= i < j < results.len() ==> #[trigger] results[i].id != #[trigger] results[j].id,
{
    assert forall|i: int| 0 <= i < results.len() implies #[trigger] results[i].id == stores[0].next_id() + i by {
        lemma_counter_after_creates(stores, venues, results, i);
        assert(created(stores[i], stores[i + 1], venues[i], results[i]));
    }
}

/// Starting from an empty store whose counter is at `0`, `n` creates leave
/// exactly `n` entries, under the identifiers `0` to `n - 1`, each stored
/// under its own identifier.
pub proof fn lemma_creates_fill_identifiers(
    stores: Seq<VenueStore>,
    venues: Seq<Venue>,
    results: Seq<IdentifiableVenue>,
)
    requires
        stores.len() == results.len() + 1,
        venues.len() == results.len(),
        stores[0]@ == Map::<usize, IdentifiableVenue>::empty(),
        stores[0].next_id() == 0,
        forall|i: int|
            0 <= i < results.len() ==> created(stores[i], stores[i + 1], venues[i], #[trigger] results[i]),
    ensures
        stores.last()@.dom() == Set::new(|k: usize| k < results.len()),
        stores.last()@.len() == results.len(),
        forall|k: usize| k < results.len() ==> #[trigger] stores.last()@[k].id == k,
{
    lemma_creates_fill_prefix(stores, venues, results, results.len() as int);
    assert forall|k: usize| k < results.len() implies #[trigger] stores.last()@[k].id == k by {
        let n = results.len() as int;
        let last = results[n - 1];
        assert(stores[n - 1 + 1] == stores.last());
        assert(stores.last()@.contains_key(k));
    }
}

/// The first `k` creates of a run from an empty store fill the identifiers
/// below `k`.
proof fn lemma_creates_fill_prefix(
    stores: Seq<VenueStore>,
    venues: Seq<Venue>,
    results: Seq<IdentifiableVenue>,
    k: int,
)
    requires
        stores.len() == results.len() + 1,
        venues.len() == results.len(),
        stores[0]@ == Map::<usize, IdentifiableVenue>::empty(),
        stores[0].next_id() == 0,
        0 <= k <= results.len(),
        forall|i: int|
            0 <= i < results.len() ==> created(stores[i], stores[i + 1], venues[i], #[trigger] results[i]),
    ensures
        stores[k]@.dom() == Set::new(|j: usize| j < k),
        stores[k]@.dom().finite(),
        stores[k]@.len() == k,
    decreases k,
{
    if k == 0 {
        assert(stores[0]@.dom() =~= Set::new(|j: usize| j < 0));
    } else {
        lemma_creates_fill_prefix(stores, venues, results, k - 1);
        lemma_counter_after_creates(stores, venues, results, k - 1);
        let prev = results[k - 1];
        assert(stores[k - 1 + 1] == stores[k]);
        assert(stores[k]@.dom() =~= stores[k - 1]@.dom().insert((k - 1) as usize));
        assert(stores[k]@.dom() =~= Set::new(|j: usize| j < k));
    }
}

/// The entry a create returns is then stored under its identifier, holding
/// the venue that was given.
pub proof fn lemma_get_after_create(before: VenueStore, after: VenueStore, venue: Venue, r: IdentifiableVenue)
    requires
        created(before, after, venue, r),
    ensures
        after@.contains_key(r.id),
        after@[r.id] == (IdentifiableVenue { id: r.id, item: venue }),
{
}

/// A patch that sets no field leaves the store as it was, and hands back the
/// entry unchanged.
pub proof fn lemma_empty_patch_changes_nothing(
    before: VenueStore,
    after: VenueStore,
    id: usize,
    patch: UpdateVenue,
    r: Option<IdentifiableVenue>,
)
    requires
        before.wf(),
        is_empty_patch(patch),
        updated(before, after, id, patch, r),
    ensures
        after@ == before@,
        r matches Some(v) ==> v == before@[id],
{
    if r is Some {
        assert(after@ =~= before@);
    }
}

/// A patch that sets only the title changes the title of that entry and
/// nothing else, in that entry or in any other.
pub proof fn lemma_title_patch_changes_only_title(
    before: VenueStore,
    after: VenueStore,
    id: usize,
    patch: UpdateVenue,
    r: Option<IdentifiableVenue>,
)
    requires
        before.wf(),
        before@.contains_key(id),
        patch.title is Some,
        patch.description is None,
        patch.address is None,
        patch.published is None,
        updated(before, after, id, patch, r),
    ensures
        after@.dom() == before@.dom(),
        after@[id] == (IdentifiableVenue {
            id,
            item: Venue {
                title: patch.title.unwrap(),
                description: before@[id].item.description,
                address: before@[id].item.address,
                published: before@[id].item.published,
            },
        }),
        forall|k: usize| k != id && #[trigger] before@.contains_key(k) ==> after@[k] == before@[k],
{
    assert(after@.dom() =~= before@.dom());
    assert(apply_patch(before@[id].item, patch).title == patch.title.unwrap());
}

/// After a removal nothing is stored under that identifier; removing an
/// identifier with no entry returns nothing and changes nothing.
pub proof fn lemma_remove_then_absent(
    before: VenueStore,
    after: VenueStore,
    id: usize,
    r: Option<IdentifiableVenue>,
)
    requires
        removed(before, after, id, r),
    ensures
        !after@.contains_key(id),
        !before@.contains_key(id) ==> r is None && after@ == before@,
{
    if !before@.contains_key(id) {
        assert(after@ =~= before@);
    }
}

} // verus!
