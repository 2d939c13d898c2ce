use vstd::prelude::*;

verus! {

/// Offset / limit window over a listing; `None` means "from the start" and
/// "no upper bound" respectively.
#[derive(Debug, Clone, Copy, Default, PartialEq, Eq)]
pub struct Pagination {
    pub offset: Option<usize>,
    pub limit: Option<usize>,
}

/// First index of the window over a listing of `len` items.
pub open spec fn window_start(p: Pagination, len: nat) -> nat {
    match p.offset {
        Some(o) => if (o as nat) < len { o as nat } else { len },
        None => 0,
    }
}

/// One past the last index of the window over a listing of `len` items.
pub open spec fn window_end(p: Pagination, len: nat) -> nat {
    let start = window_start(p, len);
    match p.limit {
        Some(l) => if start + l < len { (start + l) as nat } else { len },
        None => len,
    }
}

/// The items of `s` that the window `p` selects.
pub open spec fn paginate<T>(s: Seq<T>, p: Pagination) -> Seq<T> {
    s.subrange(window_start(p, s.len()) as int, window_end(p, s.len()) as int)
}

impl Pagination {
    pub fn new(offset: Option<usize>, limit: Option<usize>) -> (r: Pagination)
        ensures
            r.offset == offset,
            r.limit == limit,
    {
        Pagination { offset, limit }
    }

    /// The bounds `[start, end)` of the window over a listing of `len` items:
    /// an offset past the end gives an empty window, a missing limit no bound.
    pub fn bounds(&self, len: usize) -> (r: (usize, usize))
        ensures
            r.0 == window_start(*self, len as nat),
            r.1 == window_end(*self, len as nat),
            r.0 <= r.1 <= len,
    {
        let start: usize = match self.offset {
            Some(o) => if o < len { o } else { len },
            None => 0,
        };
        let end: usize = match self.limit {
            Some(l) => if l < len - start { start + l } else { len },
            None => len,
        };
        (start, end)
    }
}

} // verus!
