use vstd::prelude::*;

verus! {

/// A venue as a client describes it, before the store gives it an identifier.
#[derive(Debug, PartialEq, Eq)]
pub struct Venue {
    pub title: String,
    pub description: String,
    pub address: String,
    pub published: bool,
}

impl Clone for Venue {
    fn clone(&self) -> (r: Self)
        ensures
            r == *self,
    {
        Venue {
            title: self.title.clone(),
            description: self.description.clone(),
            address: self.address.clone(),
            published: self.published,
        }
    }
}

/// A partial update of a venue: a field that is `None` is left as it is.
#[derive(Debug, PartialEq, Eq)]
pub struct UpdateVenue {
    pub title: Option<String>,
    pub description: Option<String>,
    pub address: Option<String>,
    pub published: Option<bool>,
}

/// A venue together with the identifier the store gave it.
#[derive(Debug, PartialEq, Eq)]
pub struct IdentifiableVenue {
    pub id: usize,
    pub item: Venue,
}

impl Clone for IdentifiableVenue {
    fn clone(&self) -> (r: Self)
        ensures
            r == *self,
    {
        IdentifiableVenue { id: self.id, item: self.item.clone() }
    }
}

/// The field `f` after a patch that carries `p` for it.
pub open spec fn patched<T>(f: T, p: Option<T>) -> T {
    match p {
        Some(v) => v,
        None => f,
    }
}

/// The venue `v` with the fields that `p` sets replaced and the others kept.
pub open spec fn apply_patch(v: Venue, p: UpdateVenue) -> Venue {
    Venue {
        title: patched(v.title, p.title),
        description: patched(v.description, p.description),
        address: patched(v.address, p.address),
        published: patched(v.published, p.published),
    }
}

/// A patch that sets no field.
pub open spec fn is_empty_patch(p: UpdateVenue) -> bool {
    &&& p.title is None
    &&& p.description is None
    &&& p.address is None
    &&& p.published is None
}

impl UpdateVenue {
    /// Applies this patch to `v` in place.
    pub fn apply_to(self, v: &mut Venue)
        ensures
            *final(v) == apply_patch(*old(v), self),
    {
        if let Some(title) = self.title {
            v.title = title;
        }
        if let Some(description) = self.description {
            v.description = description;
        }
        if let Some(address) = self.address {
            v.address = address;
        }
        if let Some(published) = self.published {
            v.published = published;
        }
    }
}

impl IdentifiableVenue {
    pub fn new(id: usize, item: Venue) -> (r: IdentifiableVenue)
        ensures
            r.id == id,
            r.item == item,
    {
        IdentifiableVenue { id, item }
    }
}

} // verus!
