//! The delta envelope and the concurrency check.
//!
//! A `Delta` is the atomic unit of change for one field: a precondition
//! token plus a new value. The check honors the envelope only when its token
//! matches the content hash of the field's current value; a mismatch drops
//! the change silently and the field keeps its previous value.

use vstd::prelude::*;

use crate::hash::{token_of, seq_tokens, ContentHash};
use crate::text::dec_digits;

verus! {

/// A precondition-guarded proposed change to one field: set the field to
/// `end`, but only if the field's current content hash equals `start`; if
/// `start` is absent, apply unconditionally. Immutable once appended to the
/// log.
#[derive(PartialEq, Eq, Debug)]
pub struct Delta<T> {
    pub start: Option<String>,
    pub end: Option<T>,
}

impl<T> Default for Delta<T> {
    fn default() -> (r: Self)
        ensures
            r.start is None,
            r.end is None,
    {
        Delta { start: None, end: None }
    }
}

impl<T> Delta<T> {
    /// Wrap an initial field value in an unconditional envelope; an absent
    /// value yields no envelope at all.
    pub fn init(init_value: Option<T>) -> (r: Option<Delta<T>>)
        ensures
            r == (match init_value {
                Option::Some(v) => Option::Some(Delta { start: None, end: Option::Some(v) }),
                Option::None => Option::<Delta<T>>::None,
            }),
    {
        match init_value {
            Some(inner) => Some(Delta { start: None, end: Some(inner) }),
            None => None,
        }
    }
}

/// What the concurrency check returns, given the token of the field's
/// current value (`None` when the field has no current value):
/// - no `start` token on the envelope: adopt `end` unconditionally;
/// - a `start` token and a current value: adopt `end` exactly when the
///   token equals the current value's content-hash token;
/// - a `start` token but no current value: drop the change.
pub open spec fn check_delta_spec<T>(curr_token: Option<Seq<char>>, del: Delta<T>) -> Option<T> {
    match curr_token {
        Some(tok) => match del.start {
            Some(s) => if s@ == tok {
                del.end
            } else {
                None
            },
            None => del.end,
        },
        None => match del.start {
            Some(_) => None,
            None => del.end,
        },
    }
}

/// The content-hash token of an optionally present current value.
pub open spec fn ref_token<S: ContentHash>(curr: Option<&S>) -> Option<Seq<char>> {
    match curr {
        Some(c) => Some(token_of(*c)),
        None => None,
    }
}

/// Decide whether an envelope's precondition matches the current value and,
/// if so, hand out the new value; a stale token yields `None` and no error.
pub fn check_delta<T, S: ContentHash>(curr: Option<&S>, del: Delta<T>) -> (r: Option<T>)
    ensures
        r == check_delta_spec(ref_token(curr), del),
{
    let Delta { start, end } = del;
    match curr {
        Some(c) => {
            let tok = crate::hash::hash_token(c);
            match start {
                Some(start) => if tok == start {
                    end
                } else {
                    None
                },
                None => end,
            }
        },
        None => match start {
            Some(_) => None,
            None => end,
        },
    }
}

/// The envelope to apply for a field slot of a store representation: a
/// missing slot is an empty envelope, which changes nothing.
pub open spec fn delta_or_empty<T>(del: Option<Delta<T>>) -> Delta<T> {
    match del {
        Some(d) => d,
        None => Delta { start: None, end: None },
    }
}

/// The new content of an optional scalar field after one envelope: the
/// envelope's value when the check adopts it, the previous content
/// otherwise.
pub open spec fn apply_scalar<T: ContentHash>(curr: Option<T>, del: Option<Delta<T>>) -> Option<
    T,
> {
    match check_delta_spec(scalar_token(curr), delta_or_empty(del)) {
        Some(v) => Some(v),
        None => curr,
    }
}

/// The content-hash token of an optional scalar field's current content.
pub open spec fn scalar_token<T: ContentHash>(curr: Option<T>) -> Option<Seq<char>> {
    match curr {
        Some(c) => Some(token_of(c)),
        None => None,
    }
}

/// The content-hash token of an array field's current content. An array
/// field always has a current value (possibly the empty array), so its
/// token always exists.
pub open spec fn seq_token<T: ContentHash>(s: Seq<T>) -> Seq<char> {
    dec_digits(crate::hash::fold_tokens(seq![s.len() as u64] + seq_tokens(s)) as nat)
}

/// The new content of an array field after one envelope, at the view level.
pub open spec fn apply_array<T: ContentHash>(curr: Seq<T>, del: Option<Delta<Seq<T>>>) -> Seq<
    T,
> {
    match check_delta_spec(Some(seq_token(curr)), delta_or_empty(del)) {
        Some(v) => v,
        None => curr,
    }
}

/// Law: a creation-time scalar envelope applied over the empty field
/// installs the wrapped value, or leaves the field absent when none was
/// wrapped.
pub proof fn lemma_apply_scalar_initial<T: ContentHash>(v: Option<T>)
    ensures
        apply_scalar(None, init_scalar(v)) == v,
{
}

/// Law: a creation-time array envelope applied over the empty field
/// installs the wrapped content.
pub proof fn lemma_apply_array_initial<T: ContentHash>(v: Seq<T>)
    ensures
        apply_array(Seq::empty(), init_array(v)) == v,
{
}

/// Law: an envelope without a precondition token always installs its value,
/// regardless of the prior value of the field.
pub proof fn lemma_unconditional_delta_applies<T: ContentHash>(curr: Option<T>, v: T)
    ensures
        apply_scalar(curr, Some(Delta { start: None, end: Some(v) })) == Some(v),
{
}

/// Law: an envelope without a precondition token always installs its value
/// in an array field, regardless of the prior content.
pub proof fn lemma_unconditional_array_applies<T: ContentHash>(curr: Seq<T>, v: Seq<T>)
    ensures
        apply_array(curr, Some(Delta { start: None, end: Some(v) })) == v,
{
}

/// Law: an envelope whose token equals the content-hash token of the prior
/// value installs its value.
pub proof fn lemma_matching_token_applies<T: ContentHash>(p: T, v: T, s: String)
    requires
        s@ == token_of(p),
    ensures
        apply_scalar(Some(p), Some(Delta { start: Some(s), end: Some(v) })) == Some(v),
{
}

/// Law: an envelope with a stale token leaves the field at its prior value,
/// and no error is raised anywhere on that path.
pub proof fn lemma_stale_token_drops<T: ContentHash>(p: T, v: T, s: String)
    requires
        s@ != token_of(p),
    ensures
        apply_scalar(Some(p), Some(Delta { start: Some(s), end: Some(v) })) == Some(p),
{
}

/// The view of an array field's envelope slot: the vector under the
/// envelope lifted to its sequence view.
pub open spec fn vec_delta_view<T>(d: Option<Delta<Vec<T>>>) -> Option<Delta<Seq<T>>> {
    match d {
        Some(dd) => Some(
            Delta {
                start: dd.start,
                end: (match dd.end {
                    Some(v) => Some(v@),
                    None => None,
                }),
            },
        ),
        None => None,
    }
}

/// Wrap an optional scalar field value for the store representation, as
/// `Delta::init` does.
pub open spec fn init_scalar<T>(v: Option<T>) -> Option<Delta<T>> {
    match v {
        Some(x) => Some(Delta { start: None, end: Some(x) }),
        None => None,
    }
}

/// Wrap an array field's content for the store representation.
pub open spec fn init_array<T>(v: Seq<T>) -> Option<Delta<Seq<T>>> {
    Some(Delta { start: None, end: Some(v) })
}

/// The scalar value a store representation's slot carries, if any.
pub open spec fn end_scalar<T>(d: Option<Delta<T>>) -> Option<T> {
    match d {
        Some(dd) => dd.end,
        None => None,
    }
}

/// The array content a store representation's slot carries; a missing slot
/// or value means the empty array.
pub open spec fn end_array<T>(d: Option<Delta<Seq<T>>>) -> Seq<T> {
    match d {
        Some(dd) => match dd.end {
            Some(v) => v,
            None => Seq::empty(),
        },
        None => Seq::empty(),
    }
}

/// Duplicate an optional value.
pub fn dup_opt<T: crate::atoms::DupValue>(o: &Option<T>) -> (r: Option<T>)
    ensures
        r == *o,
{
    match o {
        Some(v) => Some(v.dup()),
        None => None,
    }
}

/// Duplicate a vector of values.
pub fn dup_vec<T: crate::atoms::DupValue>(v: &Vec<T>) -> (r: Vec<T>)
    ensures
        r@ == v@,
{
    let mut r: Vec<T> = Vec::new();
    let mut i: usize = 0;
    while i < v.len()
        invariant
            i <= v@.len(),
            r@ == v@.take(i as int),
        decreases v@.len() - i,
    {
        r.push(v[i].dup());
        proof {
            assert(r@ =~= v@.take(i as int + 1));
        }
        i += 1;
    }
    proof {
        assert(v@.take(v@.len() as int) =~= v@);
    }
    r
}

/// Duplicate a scalar envelope slot.
pub fn dup_opt_delta<T: crate::atoms::DupValue>(d: &Option<Delta<T>>) -> (r: Option<Delta<T>>)
    ensures
        r == *d,
{
    match d {
        Some(dd) => Some(Delta { start: dup_opt(&dd.start), end: dup_opt(&dd.end) }),
        None => None,
    }
}

/// Duplicate an array envelope slot; equality holds at the view level.
pub fn dup_opt_delta_vec<T: crate::atoms::DupValue>(d: &Option<Delta<Vec<T>>>) -> (r: Option<
    Delta<Vec<T>>,
>)
    ensures
        vec_delta_view(r) == vec_delta_view(*d),
{
    match d {
        Some(dd) => {
            let r = Some(
                Delta {
                    start: dup_opt(&dd.start),
                    end: (match &dd.end {
                        Some(v) => Some(dup_vec(v)),
                        None => None,
                    }),
                },
            );
            proof {
                assert(vec_delta_view(r) == vec_delta_view(*d));
            }
            r
        },
        None => None,
    }
}

/// A store representation can be folded over an aggregate: `ty` names the
/// entity type, and `apply` rolls one representation's envelopes into the
/// aggregate, field by field.
pub trait Del<S>: From<S> + Into<S> + Sized {
    /// The entity type discriminator.
    spec fn ty_spec() -> Seq<char>;

    /// The entity type discriminator, as stored in the `ty` column.
    fn ty() -> (r: String)
        ensures
            r@ == Self::ty_spec(),
    ;

    /// Fold one store representation into the aggregate.
    fn apply(&mut self, del: S);
}

/// A persistable store representation: the entity type discriminator and
/// the external id carried by the representation's primary identifier.
pub trait Store {
    /// The entity type discriminator.
    spec fn ty_spec() -> Seq<char>;

    /// The external id the representation carries.
    spec fn identifier_spec(&self) -> Seq<char>;

    /// The entity type discriminator, as stored in the `ty` column.
    fn ty() -> (r: String)
        ensures
            r@ == Self::ty_spec(),
    ;

    /// The rendering of the primary identifier carried by the
    /// representation, or the empty string when none is present.
    fn identifier(&self) -> (r: String)
        ensures
            r@ == self.identifier_spec(),
    ;
}

/// An ordered collection of store representations can be rolled up into the
/// current aggregate by a left-to-right fold over the empty aggregate.
pub trait Rollup<T> {
    /// Replay the ordered envelopes into the current aggregate.
    fn rollup(self) -> T;
}

} // verus!
