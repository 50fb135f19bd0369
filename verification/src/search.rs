//! The search side of an entity: a sparse filter document that turns into
//! parameterized predicates against the projection store.

use vstd::prelude::*;

verus! {

/// A sparse filter document over the searchable fields of an entity with
/// store representation `S`. Each present field contributes one
/// case-sensitive containment predicate; absent fields constrain nothing.
///
/// The same document drives both faces of the search: `matches` decides
/// containment against one projected document, and `array_splits`, `paths`
/// and `bind_values` emit the pieces of the equivalent parameterized query
/// (a `'$'` in a path marks where its placeholder index goes; values are
/// always bound, never interpolated).
pub trait Search<S> {
    /// The entity type discriminator the filter applies to.
    spec fn ty_spec() -> Seq<char>;

    /// Whether a projected document satisfies every present filter field.
    spec fn matches_spec(&self, doc: &S) -> bool;

    /// The join/unnest expansions needed for array-typed searchable fields.
    spec fn array_splits_spec(&self) -> Seq<Seq<char>>;

    /// The predicate path of each present filter field, in field order.
    spec fn paths_spec(&self) -> Seq<Seq<char>>;

    /// The containment pattern bound for each present filter field, in the
    /// same order as `paths`.
    spec fn bind_values_spec(&self) -> Seq<Seq<char>>;

    /// The entity type discriminator the filter applies to.
    fn ty() -> (r: String)
        ensures
            r@ == Self::ty_spec(),
    ;

    /// Whether a projected document satisfies every present filter field.
    fn matches(&self, doc: &S) -> (r: bool)
        ensures
            r == self.matches_spec(doc),
    ;

    /// The join/unnest expansions needed for array-typed searchable fields.
    fn array_splits(&self) -> (r: Vec<String>)
        ensures
            r@.map_values(|s: String| s@) == self.array_splits_spec(),
    ;

    /// The predicate path of each present filter field.
    fn paths(&self) -> (r: Vec<String>)
        ensures
            r@.map_values(|s: String| s@) == self.paths_spec(),
    ;

    /// The containment pattern bound for each present filter field.
    fn bind_values(&self) -> (r: Vec<String>)
        ensures
            r@.map_values(|s: String| s@) == self.bind_values_spec(),
    ;
}

/// The pattern bound for a containment predicate: the value wrapped in
/// `'%'` wildcards.
pub open spec fn like_pattern(v: Seq<char>) -> Seq<char> {
    "%"@ + v + "%"@
}

/// Wrap a value in `'%'` wildcards, as bound for a `LIKE` predicate.
pub fn like_pattern_str(v: &str) -> (r: String)
    ensures
        r@ == like_pattern(v@),
{
    let mut r = String::from_str("%");
    r.append(v);
    r.append("%");
    r
}

} // verus!
