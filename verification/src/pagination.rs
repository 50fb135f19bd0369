//! The pagination window and the page shape handed back by a search.

use vstd::prelude::*;

verus! {

/// A pagination window: drop the first `skip` results, hand back at most
/// `limit` of the rest. A window past the end of the results is tolerated
/// and yields an empty page, not an error.
#[derive(Clone, Copy, PartialEq, Eq, Structural, Debug)]
pub struct PaginationOption {
    pub limit: usize,
    pub skip: usize,
}

impl Default for PaginationOption {
    fn default() -> (r: Self)
        ensures
            r.limit == 0,
            r.skip == 0,
    {
        PaginationOption { limit: 0, skip: 0 }
    }
}

/// Whether a caller-supplied cursor can be resolved to a skip count: a
/// nonempty string of decimal digits whose value fits the machine.
pub open spec fn cursor_valid(cursor: Option<String>) -> bool {
    match cursor {
        None => true,
        Some(c) => c@.len() > 0 && (forall|i: int|
            0 <= i < c@.len() ==> crate::text::is_dec_digit(#[trigger] c@[i])) && crate::text::dec_value(
            c@,
        ) <= usize::MAX,
    }
}

/// The skip count a cursor resolves to; an absent cursor starts at the
/// beginning.
pub open spec fn resolved_skip(cursor: Option<String>) -> nat {
    match cursor {
        None => 0,
        Some(c) => crate::text::dec_value(c@),
    }
}

/// The page size a limit argument resolves to; an absent limit defaults to
/// one hundred.
pub open spec fn resolved_limit(limit: Option<usize>) -> nat {
    match limit {
        None => 100,
        Some(l) => l as nat,
    }
}

/// One result of a paginated search, tagged with its absolute position so
/// that a caller can resume after it.
#[derive(PartialEq, Eq, Debug)]
pub struct Edge<T> {
    pub cursor: usize,
    pub node: T,
}

/// A page of search results with its pagination metadata.
#[derive(PartialEq, Eq, Debug)]
pub struct Page<T> {
    pub has_previous_page: bool,
    pub has_next_page: bool,
    pub edges: Vec<Edge<T>>,
}

} // verus!
