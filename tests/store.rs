use std::collections::HashMap;

use booking::pagination::Pagination;
use booking::shared::SharedVenueStore;
use booking::store::VenueStore;
use booking::venue::{IdentifiableVenue, UpdateVenue, Venue};

fn venue(n: usize) -> Venue {
    Venue {
        title: format!("Venue {}", n),
        description: format!("Description {}", n),
        address: format!("{} Main Street", n),
        published: n % 2 == 0,
    }
}

fn no_change() -> UpdateVenue {
    UpdateVenue { title: None, description: None, address: None, published: None }
}

fn store_with(n: usize) -> VenueStore {
    let mut store = VenueStore::default();
    for i in 0..n {
        store.add_venue(venue(i));
    }
    store
}

#[test]
fn pagination_new_keeps_fields() {
    let p = Pagination::new(Some(3), None);
    assert_eq!(p.offset, Some(3));
    assert_eq!(p.limit, None);
}

#[test]
fn pagination_bounds_clip_to_length() {
    assert_eq!(Pagination::new(Some(1), Some(2)).bounds(4), (1, 3));
    assert_eq!(Pagination::new(Some(3), Some(5)).bounds(4), (3, 4));
    assert_eq!(Pagination::new(None, None).bounds(4), (0, 4));
    assert_eq!(Pagination::new(None, Some(0)).bounds(4), (0, 0));
    assert_eq!(Pagination::new(Some(9), None).bounds(4), (4, 4));
    assert_eq!(Pagination::new(Some(2), Some(usize::MAX)).bounds(4), (2, 4));
    assert_eq!(Pagination::default().bounds(0), (0, 0));
}

#[test]
fn create_ids_are_distinct_and_increasing() {
    let mut store = VenueStore::default();
    let ids: Vec<usize> = (0..10).map(|i| store.add_venue(venue(i)).id).collect();
    assert_eq!(ids, (0..10).collect::<Vec<usize>>());
}

#[test]
fn ids_are_not_reused_after_delete() {
    let mut store = store_with(3);
    assert!(store.remove_venue(2).is_some());
    let created = store.add_venue(venue(9));
    assert_eq!(created.id, 3);
}

#[test]
fn get_after_create_returns_created() {
    let mut store = VenueStore::default();
    let created = store.add_venue(venue(5));
    assert_eq!(created, IdentifiableVenue::new(0, venue(5)));
    assert_eq!(store.get_venue(created.id), Some(&created));
    assert_eq!(store.get_venue(1), None);
}

#[test]
fn empty_patch_leaves_entry_unchanged() {
    let mut store = store_with(2);
    let before = store.get_venue(1).cloned();
    let updated = store.update_venue(&1, no_change());
    assert_eq!(updated, before);
    assert_eq!(store.get_venue(1).cloned(), before);
}

#[test]
fn title_patch_changes_only_title() {
    let mut store = store_with(2);
    let patch = UpdateVenue { title: Some("Renamed".to_string()), ..no_change() };
    let updated = store.update_venue(&1, patch).unwrap();
    let old = venue(1);
    assert_eq!(updated.id, 1);
    assert_eq!(updated.item.title, "Renamed");
    assert_eq!(updated.item.description, old.description);
    assert_eq!(updated.item.address, old.address);
    assert_eq!(updated.item.published, old.published);
    assert_eq!(store.get_venue(1), Some(&updated));
    assert_eq!(store.get_venue(0), Some(&IdentifiableVenue::new(0, venue(0))));
}

#[test]
fn full_patch_replaces_every_field() {
    let mut store = store_with(1);
    let patch = UpdateVenue {
        title: Some("T".to_string()),
        description: Some("D".to_string()),
        address: Some("A".to_string()),
        published: Some(true),
    };
    let updated = store.update_venue(&0, patch).unwrap();
    let expected = Venue {
        title: "T".to_string(),
        description: "D".to_string(),
        address: "A".to_string(),
        published: true,
    };
    assert_eq!(updated, IdentifiableVenue::new(0, expected));
}

#[test]
fn update_of_unknown_id_returns_nothing() {
    let mut store = store_with(1);
    assert_eq!(store.update_venue(&7, no_change()), None);
    assert_eq!(store.get_venues(Pagination::default()).len(), 1);
}

#[test]
fn apply_to_patches_in_place() {
    let mut v = venue(1);
    UpdateVenue { published: Some(true), ..no_change() }.apply_to(&mut v);
    assert!(v.published);
    assert_eq!(v.title, venue(1).title);
}

#[test]
fn delete_then_get_returns_nothing() {
    let mut store = store_with(3);
    let removed = store.remove_venue(1);
    assert_eq!(removed, Some(IdentifiableVenue::new(1, venue(1))));
    assert_eq!(store.get_venue(1), None);
    assert_eq!(store.remove_venue(1), None);
    assert_eq!(store.remove_venue(42), None);
    assert_eq!(store.get_venues(Pagination::default()).len(), 2);
}

#[test]
fn list_with_offset_one_limit_two() {
    let store = store_with(4);
    let all = store.get_venues(Pagination::default());
    assert_eq!(all.len(), 4);
    let page = store.get_venues(Pagination::new(Some(1), Some(2)));
    assert_eq!(page.len(), 2);
    assert_eq!(page[0], all[1]);
    assert_eq!(page[1], all[2]);
}

#[test]
fn list_lists_every_entry_once() {
    let store = store_with(6);
    let mut ids: Vec<usize> = store.get_venues(Pagination::default()).iter().map(|v| v.id).collect();
    ids.sort();
    assert_eq!(ids, vec![0, 1, 2, 3, 4, 5]);
}

#[test]
fn list_offset_past_end_is_empty() {
    let store = store_with(3);
    assert!(store.get_venues(Pagination::new(Some(3), None)).is_empty());
    assert!(store.get_venues(Pagination::new(Some(100), Some(5))).is_empty());
    assert!(store.get_venues(Pagination::new(None, Some(0))).is_empty());
}

#[test]
fn load_with_max_id_seven_then_create_gives_eight() {
    let mut map: HashMap<usize, IdentifiableVenue> = HashMap::new();
    for id in [2usize, 7, 4] {
        map.insert(id, IdentifiableVenue::new(id, venue(id)));
    }
    let mut store = VenueStore::from_hashmap(map);
    let created = store.add_venue(venue(0));
    assert_eq!(created.id, 8);
    assert_eq!(store.get_venue(7), Some(&IdentifiableVenue::new(7, venue(7))));
}

#[test]
fn load_empty_mapping_starts_at_zero() {
    let mut store = VenueStore::from_hashmap(HashMap::new());
    assert_eq!(store.add_venue(venue(0)).id, 0);
}

#[test]
fn store_converts_back_to_mapping() {
    let store = store_with(3);
    let map: HashMap<usize, IdentifiableVenue> = HashMap::from(store);
    assert_eq!(map.len(), 3);
    assert_eq!(map.get(&2), Some(&IdentifiableVenue::new(2, venue(2))));
}

#[test]
fn fresh_store_has_free_ids() {
    assert!(VenueStore::default().has_free_id());
}

#[test]
fn interleaved_writers_create_every_id_once() {
    let shared = SharedVenueStore::new(VenueStore::default());
    let writers: usize = 4;
    let per_writer: usize = 25;
    let mut ids: Vec<usize> = Vec::new();
    for round in 0..per_writer {
        for writer in 0..writers {
            let created = shared.create(venue(writer * per_writer + round)).unwrap();
            ids.push(created.id);
        }
    }
    ids.sort();
    assert_eq!(ids, (0..writers * per_writer).collect::<Vec<usize>>());
    let store = shared.into_inner();
    assert_eq!(store.get_venues(Pagination::default()).len(), writers * per_writer);
}

#[test]
fn shared_store_operations() {
    let shared = SharedVenueStore::new(store_with(4));
    assert_eq!(shared.get(2), Some(IdentifiableVenue::new(2, venue(2))));
    assert_eq!(shared.get(9), None);
    assert_eq!(shared.list(Pagination::new(Some(1), Some(2))).len(), 2);
    let updated = shared.update(2, UpdateVenue { address: Some("Elsewhere".to_string()), ..no_change() });
    assert_eq!(updated.unwrap().item.address, "Elsewhere");
    assert_eq!(shared.update(9, no_change()), None);
    assert_eq!(shared.delete(2).map(|v| v.id), Some(2));
    assert_eq!(shared.delete(2), None);
    assert_eq!(shared.get(2), None);
    assert_eq!(shared.create(venue(7)).map(|v| v.id), Some(4));
}
