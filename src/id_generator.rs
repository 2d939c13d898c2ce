use vstd::prelude::*;

verus! {

/// Hands out identifiers in increasing order, each one once. It is only
/// advanced through `&mut`, so concurrent callers reach it one at a time.
pub struct IdGenerator {
    next: usize,
}

impl View for IdGenerator {
    /// The identifier `next_id` hands out next.
    type V = nat;

    closed spec fn view(&self) -> nat {
        self.next as nat
    }
}

impl IdGenerator {
    /// A generator whose first identifier is `first`.
    pub fn starting_at(first: usize) -> (r: IdGenerator)
        ensures
            r@ == first,
    {
        IdGenerator { next: first }
    }

    /// Whether another identifier can be handed out.
    pub fn has_next(&self) -> (r: bool)
        ensures
            r == (self@ < usize::MAX),
    {
        self.next < usize::MAX
    }

    /// Returns the current identifier and moves past it.
    pub fn next_id(&mut self) -> (r: usize)
        requires
            old(self)@ < usize::MAX,
        ensures
            r == old(self)@,
            final(self)@ == old(self)@ + 1,
    {
        let id = self.next;
        self.next = self.next + 1;
        id
    }
}

} // verus!
