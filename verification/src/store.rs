//! The event log and projection store, and the driver over them.
//!
//! Two relations per deployment: an append-only `Log` of serialized store
//! representations, ordered by insertion for fold purposes, and a mutable
//! `Projection` of one current-state row per entity id, replaced wholesale
//! on every successful mutation. `StoreState` is the store's state held in
//! memory; a deployment that keeps the two relations in an outside database
//! runs the same contracts through the query text this module builds.

use vstd::prelude::*;

use crate::atoms::is_uuid_text;
use crate::auth::Identity;
use crate::errors::Error;
use crate::pagination::PaginationOption;
use crate::search::Search;
use crate::text::{dec_digits, replace_dollar, replace_dollar_str, str_eq, u64_to_dec};

verus! {

/// Where the store lives: the connection string of the backing database.
pub struct DatabaseConfig {
    pub url: String,
}

impl DatabaseConfig {
    /// A configuration for the given connection string.
    pub fn new(url: String) -> (r: Self)
        ensures
            r.url == url,
    {
        DatabaseConfig { url }
    }
}

/// One appended envelope bundle: entity id, serialized store
/// representation, author, and its position in insertion order.
pub struct LogRow<S> {
    pub id: String,
    pub body: S,
    pub author: String,
    pub created_at: u64,
}

/// One materialized current-state row, replaced wholesale on every
/// successful mutation of its entity.
pub struct ProjRow<S> {
    pub id: String,
    pub body: S,
    pub last_updated: u64,
}

/// The state of the two relations for one entity type, held in memory. The
/// clock orders rows: log rows carry nondecreasing `created_at`, and
/// projection rows stay sorted by `last_updated` ascending with one row per
/// id.
pub struct StoreState<S> {
    pub log: Vec<LogRow<S>>,
    pub projection: Vec<ProjRow<S>>,
    pub clock: u64,
}

impl<S> StoreState<S> {
    /// The store's invariant: log order follows the clock, projection rows
    /// are unique per id and sorted by `last_updated` ascending, and the
    /// clock bounds every stamp.
    pub open spec fn wf(&self) -> bool {
        &&& (forall|i: int, j: int|
            #![trigger self.projection@[i], self.projection@[j]]
            0 <= i < j < self.projection@.len() ==> self.projection@[i].id@
                != self.projection@[j].id@ && self.projection@[i].last_updated
                < self.projection@[j].last_updated)
        &&& (forall|i: int|
            0 <= i < self.projection@.len() ==> (#[trigger] self.projection@[i]).last_updated
                < self.clock)
        &&& (forall|i: int, j: int|
            #![trigger self.log@[i], self.log@[j]]
            0 <= i <= j < self.log@.len() ==> self.log@[i].created_at <= self.log@[j].created_at)
        &&& (forall|i: int|
            0 <= i < self.log@.len() ==> (#[trigger] self.log@[i]).created_at < self.clock)
    }

    /// A fresh, empty store.
    pub fn new() -> (r: Self)
        ensures
            r.wf(),
            r.log@.len() == 0,
            r.projection@.len() == 0,
            r.clock == 0,
    {
        StoreState { log: Vec::new(), projection: Vec::new(), clock: 0 }
    }
}

/// Whether some projection row carries the id.
pub open spec fn has_proj_id<S>(rows: Seq<ProjRow<S>>, id: Seq<char>) -> bool {
    exists|i: int| 0 <= i < rows.len() && (#[trigger] rows[i]).id@ == id
}

/// The index of the projection row carrying the id; meaningful only when
/// one exists, and unique under the store invariant.
pub open spec fn proj_index_of<S>(rows: Seq<ProjRow<S>>, id: Seq<char>) -> int {
    choose|i: int| 0 <= i < rows.len() && (#[trigger] rows[i]).id@ == id
}

/// The log bodies appended for one id, oldest first.
pub open spec fn log_bodies_for<S>(log: Seq<LogRow<S>>, id: Seq<char>) -> Seq<S>
    decreases log.len(),
{
    if log.len() == 0 {
        Seq::empty()
    } else {
        log_bodies_for(log.drop_last(), id) + (if log.last().id@ == id {
            seq![log.last().body]
        } else {
            Seq::empty()
        })
    }
}

/// The projected bodies that satisfy a filter document, in row order
/// (which, under the store invariant, is `last_updated` ascending).
pub open spec fn matching_bodies<S, T: Search<S>>(rows: Seq<ProjRow<S>>, doc: T) -> Seq<S>
    decreases rows.len(),
{
    if rows.len() == 0 {
        Seq::empty()
    } else {
        matching_bodies(rows.drop_last(), doc) + (if doc.matches_spec(&rows.last().body) {
            seq![rows.last().body]
        } else {
            Seq::empty()
        })
    }
}

/// Law: a filter document none of whose fields constrains a row keeps
/// every projected body, in row order — a search with no filter set is
/// unfiltered.
pub proof fn lemma_unfiltered_search_keeps_every_row<S, T: Search<S>>(
    rows: Seq<ProjRow<S>>,
    doc: T,
)
    requires
        forall|i: int| 0 <= i < rows.len() ==> doc.matches_spec(&(#[trigger] rows[i]).body),
    ensures
        matching_bodies(rows, doc) == rows.map_values(|row: ProjRow<S>| row.body),
    decreases rows.len(),
{
    if rows.len() == 0 {
        assert(matching_bodies(rows, doc) =~= rows.map_values(|row: ProjRow<S>| row.body));
    } else {
        assert(forall|i: int|
            0 <= i < rows.drop_last().len() ==> doc.matches_spec(
                &(#[trigger] rows.drop_last()[i]).body,
            ));
        lemma_unfiltered_search_keeps_every_row(rows.drop_last(), doc);
        assert(rows.last() == rows[rows.len() - 1]);
        assert(matching_bodies(rows, doc) =~= rows.map_values(|row: ProjRow<S>| row.body));
    }
}

/// Law: a pagination window that starts at or past the result count yields
/// the empty page, never an error.
pub proof fn lemma_window_past_the_end_is_empty<S>(all: Seq<S>, p: PaginationOption)
    requires
        all.len() <= p.skip,
    ensures
        page_of(all, p).len() == 0,
{
}

/// Law: a filter never yields more results than there are rows.
pub proof fn lemma_matching_len<S, T: Search<S>>(rows: Seq<ProjRow<S>>, doc: T)
    ensures
        matching_bodies(rows, doc).len() <= rows.len(),
    decreases rows.len(),
{
    if rows.len() > 0 {
        lemma_matching_len(rows.drop_last(), doc);
    }
}

/// The pagination window applied to a result sequence: drop `skip`, keep at
/// most `limit`; a window past the end yields the empty sequence.
pub open spec fn page_of<S>(all: Seq<S>, p: PaginationOption) -> Seq<S> {
    if all.len() <= p.skip {
        Seq::empty()
    } else if all.len() - p.skip <= p.limit {
        all.skip(p.skip as int)
    } else {
        all.subrange(p.skip as int, p.skip + p.limit)
    }
}

/// Law: appending one more result past the window leaves the page as it
/// is; appending one inside the window extends the page by it.
pub proof fn lemma_page_push<S>(all: Seq<S>, x: S, p: PaginationOption)
    ensures
        page_of(all.push(x), p) == (if p.skip <= all.len() && all.len() - p.skip < p.limit {
            page_of(all, p).push(x)
        } else {
            page_of(all, p)
        }),
{
    let with = page_of(all.push(x), p);
    let without = page_of(all, p);
    if p.skip <= all.len() && all.len() - p.skip < p.limit {
        assert(with =~= without.push(x));
    } else {
        assert(with =~= without);
    }
}

/// Whether a string is a well-formed entity id (the hyphenated UUID text
/// form).
pub fn validate_id(id: &str) -> (r: bool)
    ensures
        r == is_uuid_text(id@),
{
    let n = id.unicode_len();
    if n != 36 {
        return false;
    }
    let mut i: usize = 0;
    while i < 36
        invariant
            id@.len() == 36,
            i <= 36,
            forall|k: int|
                0 <= k < i ==> (if k == 8 || k == 13 || k == 18 || k == 23 {
                    #[trigger] id@[k] == '-'
                } else {
                    crate::atoms::is_lower_hex(id@[k])
                }),
        decreases 36 - i,
    {
        let c = id.get_char(i);
        let u = c as u32;
        if i == 8 || i == 13 || i == 18 || i == 23 {
            if c != '-' {
                return false;
            }
        } else {
            if !((48 <= u && u <= 57) || (97 <= u && u <= 102)) {
                return false;
            }
        }
        i += 1;
    }
    true
}

fn invalid_id_error(id: &str) -> (r: Error)
    ensures
        r matches Error::Validation(_),
{
    let mut msg = String::from_str("not a well-formed id: ");
    msg.append(id);
    Error::Validation(msg)
}

fn find_proj_index<S>(rows: &Vec<ProjRow<S>>, id: &str) -> (r: Option<usize>)
    ensures
        (match r {
            Some(idx) => idx < rows@.len() && rows@[idx as int].id@ == id@,
            None => !has_proj_id(rows@, id@),
        }),
{
    let mut i: usize = 0;
    while i < rows.len()
        invariant
            i <= rows@.len(),
            forall|k: int| 0 <= k < i ==> (#[trigger] rows@[k]).id@ != id@,
        decreases rows@.len() - i,
    {
        if str_eq(rows[i].id.as_str(), id) {
            return Some(i);
        }
        i += 1;
    }
    None
}

/// The driver: every operation the engine performs against the store.
pub struct Driver;

impl Driver {
    /// Append one envelope bundle to the log. The log is append-only: no
    /// row is ever updated or deleted, and the projection is untouched.
    pub fn delta<S>(store: &mut StoreState<S>, id: &str, doc: S, author: &Identity) -> (r: Result<
        (),
        Error,
    >)
        requires
            old(store).wf(),
            old(store).clock < u64::MAX,
        ensures
            final(store).wf(),
            r is Ok <==> is_uuid_text(id@),
            r is Err ==> (r->Err_0 matches Error::Validation(_)) && *final(store) == *old(store),
            r is Ok ==> final(store).log@.len() == old(store).log@.len() + 1
                && final(store).log@.drop_last() == old(store).log@
                && final(store).log@.last().id@ == id@
                && final(store).log@.last().body == doc
                && final(store).log@.last().author@ == author.user_id@
                && final(store).projection@ == old(store).projection@
                && final(store).clock == old(store).clock + 1,
    {
        if !validate_id(id) {
            return Err(invalid_id_error(id));
        }
        let row = LogRow {
            id: String::from_str(id),
            body: doc,
            author: author.user_id.clone(),
            created_at: store.clock,
        };
        store.log.push(row);
        store.clock = store.clock + 1;
        proof {
            assert(final(store).log@.drop_last() =~= old(store).log@);
        }
        Ok(())
    }

    /// Insert or replace the projection row of one id: the old row (if any)
    /// leaves, and the new body arrives at the end of the `last_updated`
    /// order. The log is untouched.
    pub fn project<S>(store: &mut StoreState<S>, id: &str, doc: S) -> (r: Result<(), Error>)
        requires
            old(store).wf(),
            old(store).clock < u64::MAX,
        ensures
            final(store).wf(),
            r is Ok <==> is_uuid_text(id@),
            r is Err ==> (r->Err_0 matches Error::Validation(_)) && *final(store) == *old(store),
            r is Ok ==> final(store).log@ == old(store).log@
                && final(store).clock == old(store).clock + 1
                && final(store).projection@.len() >= 1
                && final(store).projection@.last().id@ == id@
                && final(store).projection@.last().body == doc
                && final(store).projection@.drop_last() == (if has_proj_id(
                old(store).projection@,
                id@,
            ) {
                old(store).projection@.remove(proj_index_of(old(store).projection@, id@))
            } else {
                old(store).projection@
            }),
    {
        if !validate_id(id) {
            return Err(invalid_id_error(id));
        }
        let found = find_proj_index(&store.projection, id);
        let ghost rows0 = store.projection@;
        match found {
            Some(idx) => {
                store.projection.remove(idx);
                proof {
                    rows0.remove_ensures(idx as int);
                    let c = proj_index_of(rows0, id@);
                    assert(rows0[idx as int].id@ == id@);
                    assert(0 <= c < rows0.len() && rows0[c].id@ == id@);
                    if c != idx as int {
                        if c < idx as int {
                            assert(rows0[c].id@ != rows0[idx as int].id@);
                        } else {
                            assert(rows0[idx as int].id@ != rows0[c].id@);
                        }
                    }
                    assert(c == idx as int);
                }
            },
            None => (),
        }
        let row = ProjRow { id: String::from_str(id), body: doc, last_updated: store.clock };
        store.projection.push(row);
        store.clock = store.clock + 1;
        proof {
            assert(final(store).projection@.drop_last() =~= store.projection@.drop_last());
            if has_proj_id(rows0, id@) {
                let idx = proj_index_of(rows0, id@);
                rows0.remove_ensures(idx);
                assert(forall|k: int|
                    0 <= k < rows0.remove(idx).len() ==> #[trigger] rows0.remove(idx)[k]
                        == (if k < idx {
                        rows0[k]
                    } else {
                        rows0[k + 1]
                    }));
            }
        }
        Ok(())
    }

    /// Load the ordered log bodies of one id, oldest first; an id with no
    /// history yields the empty sequence, which callers treat as not
    /// found.
    pub fn query<'a, S>(store: &'a StoreState<S>, id: &str) -> (r: Result<Vec<&'a S>, Error>)
        ensures
            r is Ok <==> is_uuid_text(id@),
            r is Err ==> (r->Err_0 matches Error::Validation(_)),
            r is Ok ==> r->Ok_0@.map_values(|x: &S| *x) == log_bodies_for(store.log@, id@),
    {
        if !validate_id(id) {
            return Err(invalid_id_error(id));
        }
        let mut res: Vec<&S> = Vec::new();
        let mut i: usize = 0;
        proof {
            assert(store.log@.take(0) =~= Seq::<LogRow<S>>::empty());
            assert(res@.map_values(|x: &S| *x) =~= log_bodies_for(store.log@.take(0), id@));
        }
        while i < store.log.len()
            invariant
                i <= store.log@.len(),
                res@.map_values(|x: &S| *x) == log_bodies_for(store.log@.take(i as int), id@),
            decreases store.log@.len() - i,
        {
            let row = &store.log[i];
            if str_eq(row.id.as_str(), id) {
                res.push(&row.body);
            }
            proof {
                assert(store.log@.take(i as int + 1).drop_last() =~= store.log@.take(i as int));
                assert(store.log@.take(i as int + 1).last() == store.log@[i as int]);
                assert(res@.map_values(|x: &S| *x) =~= log_bodies_for(
                    store.log@.take(i as int + 1),
                    id@,
                ));
            }
            i += 1;
        }
        proof {
            assert(store.log@.take(store.log@.len() as int) =~= store.log@);
        }
        Ok(res)
    }

    /// Load the current projected body of one id; absent means not found.
    pub fn query_proj<'a, S>(store: &'a StoreState<S>, id: &str) -> (r: Result<&'a S, Error>)
        requires
            store.wf(),
        ensures
            !is_uuid_text(id@) ==> r is Err && (r->Err_0 matches Error::Validation(_)),
            is_uuid_text(id@) && has_proj_id(store.projection@, id@) ==> r is Ok && *r->Ok_0
                == store.projection@[proj_index_of(store.projection@, id@)].body,
            is_uuid_text(id@) && !has_proj_id(store.projection@, id@) ==> r == Result::<
                &'a S,
                Error,
            >::Err(Error::NotFound),
    {
        if !validate_id(id) {
            return Err(invalid_id_error(id));
        }
        match find_proj_index(&store.projection, id) {
            Some(idx) => {
                proof {
                    let c = proj_index_of(store.projection@, id@);
                    assert(0 <= c < store.projection@.len() && store.projection@[c].id@ == id@);
                }
                let row = &store.projection[idx];
                proof {
                    let c = proj_index_of(store.projection@, id@);
                    if c < idx as int {
                        assert(store.projection@[c].id@ != store.projection@[idx as int].id@);
                    } else if c > idx as int {
                        assert(store.projection@[idx as int].id@ != store.projection@[c].id@);
                    }
                }
                Ok(&row.body)
            },
            None => Err(Error::NotFound),
        }
    }

    /// Run a filter document over the projection: the page window of the
    /// matching bodies, in `last_updated` order.
    pub fn search<'a, S, T: Search<S>>(
        store: &'a StoreState<S>,
        doc: &T,
        pagination: PaginationOption,
    ) -> (r: Vec<&'a S>)
        requires
            store.wf(),
        ensures
            r@.map_values(|x: &S| *x) == page_of(
                matching_bodies(store.projection@, *doc),
                pagination,
            ),
    {
        let mut res: Vec<&S> = Vec::new();
        let mut matched: usize = 0;
        let mut i: usize = 0;
        proof {
            assert(store.projection@.take(0) =~= Seq::<ProjRow<S>>::empty());
            assert(res@.map_values(|x: &S| *x) =~= page_of(
                matching_bodies(store.projection@.take(0), *doc),
                pagination,
            ));
        }
        while i < store.projection.len()
            invariant
                i <= store.projection@.len(),
                matched <= i,
                matched == matching_bodies(store.projection@.take(i as int), *doc).len(),
                res@.map_values(|x: &S| *x) == page_of(
                    matching_bodies(store.projection@.take(i as int), *doc),
                    pagination,
                ),
            decreases store.projection@.len() - i,
        {
            let ghost pre = matching_bodies(store.projection@.take(i as int), *doc);
            let row = &store.projection[i];
            proof {
                assert(store.projection@.take(i as int + 1).drop_last() =~= store.projection@.take(
                    i as int,
                ));
                assert(store.projection@.take(i as int + 1).last() == store.projection@[i as int]);
            }
            if doc.matches(&row.body) {
                proof {
                    assert(matching_bodies(store.projection@.take(i as int + 1), *doc) =~= pre.push(
                        row.body,
                    ));
                    lemma_page_push(pre, row.body, pagination);
                }
                if matched >= pagination.skip && matched - pagination.skip < pagination.limit {
                    res.push(&row.body);
                    proof {
                        assert(res@.map_values(|x: &S| *x) =~= page_of(pre, pagination).push(
                            row.body,
                        ));
                    }
                }
                matched = matched + 1;
            } else {
                proof {
                    assert(matching_bodies(store.projection@.take(i as int + 1), *doc) =~= pre);
                }
            }
            i += 1;
        }
        proof {
            assert(store.projection@.take(store.projection@.len() as int) =~= store.projection@);
        }
        res
    }
}

/// The concatenation of a sequence of strings.
pub open spec fn concat_all(ss: Seq<Seq<char>>) -> Seq<char>
    decreases ss.len(),
{
    if ss.len() == 0 {
        Seq::empty()
    } else {
        ss.first() + concat_all(ss.drop_first())
    }
}

/// The predicate clause of a search query: every path prefixed by
/// ` AND `, with its `'$'` replaced by the placeholder `$k`, numbered
/// consecutively from `k`.
pub open spec fn paths_clause(paths: Seq<Seq<char>>, k: nat) -> Seq<char>
    decreases paths.len(),
{
    if paths.len() == 0 {
        Seq::empty()
    } else {
        " AND "@ + replace_dollar(paths.first(), "$"@ + dec_digits(k)) + paths_clause(
            paths.drop_first(),
            k + 1,
        )
    }
}

/// The text of the query a search runs against the projection relation:
/// the fixed selection, the array expansions, one parameterized containment
/// predicate per present filter field (placeholders numbered after the
/// fixed leading `$1`, which binds the entity type), ordering by
/// `last_updated`, and the pagination window.
pub open spec fn search_query_spec(
    splits: Seq<Seq<char>>,
    paths: Seq<Seq<char>>,
    limit: nat,
    skip: nat,
) -> Seq<char> {
    "SELECT body FROM projection p "@ + concat_all(splits) + "WHERE ty = $1"@ + paths_clause(
        paths,
        2,
    ) + " ORDER BY last_updated LIMIT "@ + dec_digits(limit) + " OFFSET "@ + dec_digits(skip)
}

/// Build the parameterized query text for a filter document and window.
/// The values bound after the entity type are the document's
/// `bind_values`, in path order; no value is ever interpolated into the
/// text.
pub fn search_query_text<S, T: Search<S>>(doc: &T, pagination: &PaginationOption) -> (q: String)
    requires
        doc.paths_spec().len() + 2 <= u64::MAX,
    ensures
        q@ == search_query_spec(
            doc.array_splits_spec(),
            doc.paths_spec(),
            pagination.limit as nat,
            pagination.skip as nat,
        ),
{
    let mut q = String::from_str("SELECT body FROM projection p ");
    let splits = doc.array_splits();
    let ghost splits_v = doc.array_splits_spec();
    let mut i: usize = 0;
    proof {
        assert(splits_v.skip(0) =~= splits_v);
        assert(q@ + concat_all(splits_v.skip(0)) =~= "SELECT body FROM projection p "@
            + concat_all(splits_v));
    }
    while i < splits.len()
        invariant
            splits@.map_values(|s: String| s@) == splits_v,
            i <= splits_v.len(),
            q@ + concat_all(splits_v.skip(i as int)) == "SELECT body FROM projection p "@
                + concat_all(splits_v),
        decreases splits_v.len() - i,
    {
        q.append(splits[i].as_str());
        proof {
            assert(splits_v.skip(i as int).first() == splits_v[i as int]);
            assert(splits_v.skip(i as int).drop_first() =~= splits_v.skip(i as int + 1));
            assert(q@ + concat_all(splits_v.skip(i as int + 1)) =~= "SELECT body FROM projection p "@
                + concat_all(splits_v));
        }
        i += 1;
    }
    proof {
        assert(splits_v.skip(splits_v.len() as int) =~= Seq::<Seq<char>>::empty());
        assert(q@ =~= "SELECT body FROM projection p "@ + concat_all(splits_v));
    }
    q.append("WHERE ty = $1");
    let ghost head = "SELECT body FROM projection p "@ + concat_all(splits_v) + "WHERE ty = $1"@;
    proof {
        assert(q@ =~= head);
    }
    let paths = doc.paths();
    let ghost paths_v = doc.paths_spec();
    let mut j: usize = 0;
    proof {
        assert(paths_v.skip(0) =~= paths_v);
        assert(q@ + paths_clause(paths_v.skip(0), 2) =~= head + paths_clause(paths_v, 2));
    }
    while j < paths.len()
        invariant
            paths@.map_values(|s: String| s@) == paths_v,
            j <= paths_v.len(),
            paths_v.len() + 2 <= u64::MAX,
            q@ + paths_clause(paths_v.skip(j as int), (j + 2) as nat) == head + paths_clause(
                paths_v,
                2,
            ),
        decreases paths_v.len() - j,
    {
        q.append(" AND ");
        let mut ph = String::from_str("$");
        let num = u64_to_dec((j as u64) + 2);
        ph.append(num.as_str());
        let rp = replace_dollar_str(paths[j].as_str(), ph.as_str());
        q.append(rp.as_str());
        proof {
            assert(ph@ =~= "$"@ + dec_digits((j + 2) as nat));
            assert(paths_v.skip(j as int).first() == paths_v[j as int]);
            assert(paths_v.skip(j as int).drop_first() =~= paths_v.skip(j as int + 1));
            assert(q@ + paths_clause(paths_v.skip(j as int + 1), (j + 3) as nat) =~= head
                + paths_clause(paths_v, 2));
        }
        j += 1;
    }
    proof {
        assert(paths_v.skip(paths_v.len() as int) =~= Seq::<Seq<char>>::empty());
        assert(q@ =~= head + paths_clause(paths_v, 2));
    }
    q.append(" ORDER BY last_updated LIMIT ");
    let lim = u64_to_dec(pagination.limit as u64);
    q.append(lim.as_str());
    q.append(" OFFSET ");
    let skp = u64_to_dec(pagination.skip as u64);
    q.append(skp.as_str());
    proof {
        assert(q@ =~= search_query_spec(
            splits_v,
            paths_v,
            pagination.limit as nat,
            pagination.skip as nat,
        ));
    }
    q
}

} // verus!
