//! The transaction entity: its aggregate, store representation, fold
//! rules, search document, and query/mutation surface.

use vstd::prelude::*;

use crate::atoms::{
    exactly_one_primary, first_primary, is_uuid_text, reference_of_input, references_of_inputs,
    supplied_identifier_of_input, supplied_identifiers_of_inputs, Identifier, IdentifierInput,
    IdentifierSystem, IdentifierTier, Reference, ReferenceInput,
};
use crate::auth::{Action, AuthAttribute, Identity, Role};
use crate::delta::{
    apply_array, apply_scalar, check_delta, dup_opt, dup_opt_delta, dup_opt_delta_vec, dup_vec,
    end_array, end_scalar, init_array, init_scalar, vec_delta_view, Del, Delta, Rollup, Store,
};
use crate::errors::Error;
use crate::hash::{opt_token_or_seed, opt_with_hash, token_of, vec_with_hash, WithHash};
use crate::pagination::{Edge, Page, PaginationOption};
use crate::search::{like_pattern, like_pattern_str, Search};
use crate::store::{has_proj_id, log_bodies_for, proj_index_of, Driver, StoreState};
use crate::text::{contains_seq, dec_digits, str_contains, u64_to_dec};

verus! {

/// The transaction aggregate: the folded current state of one transaction.
#[derive(PartialEq, Eq, Debug)]
pub struct Transaction {
    pub identifier: Vec<Identifier>,
    pub amount: Option<u32>,
    pub payment_method: Vec<Reference>,
    pub completed: Option<bool>,
}

/// The mathematical view of a transaction aggregate.
#[verifier::ext_equal]
pub struct TransactionView {
    pub identifier: Seq<Identifier>,
    pub amount: Option<u32>,
    pub payment_method: Seq<Reference>,
    pub completed: Option<bool>,
}

impl View for Transaction {
    type V = TransactionView;

    open spec fn view(&self) -> TransactionView {
        TransactionView {
            identifier: self.identifier@,
            amount: self.amount,
            payment_method: self.payment_method@,
            completed: self.completed,
        }
    }
}

/// The view of the empty aggregate the fold starts from.
pub open spec fn empty_transaction_view() -> TransactionView {
    TransactionView {
        identifier: Seq::empty(),
        amount: None,
        payment_method: Seq::empty(),
        completed: None,
    }
}

impl Default for Transaction {
    fn default() -> (r: Self)
        ensures
            r@ == empty_transaction_view(),
    {
        let r = Transaction {
            identifier: Vec::new(),
            amount: None,
            payment_method: Vec::new(),
            completed: None,
        };
        proof {
            assert(r@ =~= empty_transaction_view());
        }
        r
    }
}

impl Clone for Transaction {
    fn clone(&self) -> (r: Self)
        ensures
            r@ == self@,
    {
        let r = Transaction {
            identifier: dup_vec(&self.identifier),
            amount: self.amount,
            payment_method: dup_vec(&self.payment_method),
            completed: self.completed,
        };
        proof {
            assert(r@ =~= self@);
        }
        r
    }
}

/// The transaction's store representation.
#[derive(Debug)]
pub struct TransactionStore {
    pub identifier: Option<Delta<Vec<Identifier>>>,
    pub amount: Option<Delta<u32>>,
    pub payment_method: Option<Delta<Vec<Reference>>>,
    pub completed: Option<Delta<bool>>,
}

/// The mathematical view of a transaction store representation.
#[verifier::ext_equal]
pub struct TransactionStoreView {
    pub identifier: Option<Delta<Seq<Identifier>>>,
    pub amount: Option<Delta<u32>>,
    pub payment_method: Option<Delta<Seq<Reference>>>,
    pub completed: Option<Delta<bool>>,
}

impl View for TransactionStore {
    type V = TransactionStoreView;

    open spec fn view(&self) -> TransactionStoreView {
        TransactionStoreView {
            identifier: vec_delta_view(self.identifier),
            amount: self.amount,
            payment_method: vec_delta_view(self.payment_method),
            completed: self.completed,
        }
    }
}

impl Clone for TransactionStore {
    fn clone(&self) -> (r: Self)
        ensures
            r@ == self@,
    {
        let r = TransactionStore {
            identifier: dup_opt_delta_vec(&self.identifier),
            amount: dup_opt_delta(&self.amount),
            payment_method: dup_opt_delta_vec(&self.payment_method),
            completed: dup_opt_delta(&self.completed),
        };
        proof {
            assert(r@ =~= self@);
        }
        r
    }
}

/// The store representation an aggregate serializes to.
pub open spec fn to_store_view(a: TransactionView) -> TransactionStoreView {
    TransactionStoreView {
        identifier: init_array(a.identifier),
        amount: init_scalar(a.amount),
        payment_method: init_array(a.payment_method),
        completed: init_scalar(a.completed),
    }
}

/// The aggregate a store representation folds back to on its own.
pub open spec fn from_store_view(s: TransactionStoreView) -> TransactionView {
    TransactionView {
        identifier: end_array(s.identifier),
        amount: end_scalar(s.amount),
        payment_method: end_array(s.payment_method),
        completed: end_scalar(s.completed),
    }
}

impl Transaction {
    /// Serialize the aggregate into its store representation.
    pub fn to_store(self) -> (r: TransactionStore)
        ensures
            r@ == to_store_view(self@),
    {
        let Transaction { identifier, amount, payment_method, completed } = self;
        let r = TransactionStore {
            identifier: Delta::init(Some(identifier)),
            amount: Delta::init(amount),
            payment_method: Delta::init(Some(payment_method)),
            completed: Delta::init(completed),
        };
        proof {
            assert(r@ =~= to_store_view(self@));
        }
        r
    }

    /// Deserialize a store representation back into the aggregate.
    pub fn from_store(store: TransactionStore) -> (r: Transaction)
        ensures
            r@ == from_store_view(store@),
    {
        let TransactionStore { identifier, amount, payment_method, completed } = store;
        let r = Transaction {
            identifier: (match identifier {
                Some(d) => match d.end {
                    Some(v) => v,
                    None => Vec::new(),
                },
                None => Vec::new(),
            }),
            amount: (match amount {
                Some(d) => d.end,
                None => None,
            }),
            payment_method: (match payment_method {
                Some(d) => match d.end {
                    Some(v) => v,
                    None => Vec::new(),
                },
                None => Vec::new(),
            }),
            completed: (match completed {
                Some(d) => d.end,
                None => None,
            }),
        };
        proof {
            assert(r@ =~= from_store_view(store@));
        }
        r
    }
}

impl From<Transaction> for TransactionStore {
    fn from(org: Transaction) -> (r: Self) {
        org.to_store()
    }
}

/// What `from` returns is pinned down by [`Transaction::to_store`] instead: the
/// exact statement lives at the view level, which `from_spec` cannot carry.
impl vstd::std_specs::convert::FromSpecImpl<Transaction> for TransactionStore {
    open spec fn obeys_from_spec() -> bool {
        false
    }

    open spec fn from_spec(org: Transaction) -> Self {
        arbitrary()
    }
}

impl From<TransactionStore> for Transaction {
    fn from(store: TransactionStore) -> (r: Self) {
        Transaction::from_store(store)
    }
}

/// What `from` returns is pinned down by [`Transaction::from_store`] instead: the
/// exact statement lives at the view level, which `from_spec` cannot carry.
impl vstd::std_specs::convert::FromSpecImpl<TransactionStore> for Transaction {
    open spec fn obeys_from_spec() -> bool {
        false
    }

    open spec fn from_spec(store: TransactionStore) -> Self {
        arbitrary()
    }
}

/// The external id a store representation carries.
pub open spec fn store_identifier_view(s: TransactionStoreView) -> Seq<char> {
    match s.identifier {
        Some(d) => match d.end {
            Some(ids) => match first_primary(ids) {
                Some(p) => p.rendered_spec(),
                None => Seq::empty(),
            },
            None => Seq::empty(),
        },
        None => Seq::empty(),
    }
}

impl Store for TransactionStore {
    open spec fn ty_spec() -> Seq<char> {
        "Transaction"@
    }

    open spec fn identifier_spec(&self) -> Seq<char> {
        store_identifier_view(self@)
    }

    fn ty() -> (r: String) {
        String::from_str("Transaction")
    }

    fn identifier(&self) -> (r: String) {
        match &self.identifier {
            Some(d) => match &d.end {
                Some(ids) => match crate::atoms::find_primary(ids) {
                    Some(p) => p.to_string(),
                    None => String::new(),
                },
                None => String::new(),
            },
            None => String::new(),
        }
    }
}

/// One store representation folded over the aggregate: every field —
/// the identifier collection included — decided by the concurrency check.
#[verifier::opaque]
pub open spec fn apply_view(a: TransactionView, d: TransactionStoreView) -> TransactionView {
    TransactionView {
        identifier: apply_array(a.identifier, d.identifier),
        amount: apply_scalar(a.amount, d.amount),
        payment_method: apply_array(a.payment_method, d.payment_method),
        completed: apply_scalar(a.completed, d.completed),
    }
}

impl Del<TransactionStore> for Transaction {
    open spec fn ty_spec() -> Seq<char> {
        "Transaction"@
    }

    fn ty() -> (r: String) {
        String::from_str("Transaction")
    }

    fn apply(&mut self, del: TransactionStore)
        ensures
            final(self)@ == apply_view(old(self)@, del@),
    {
        let TransactionStore { identifier, amount, payment_method, completed } = del;
        match identifier {
            Some(d) => if let Some(new) = check_delta(Some(&self.identifier), d) {
                self.identifier = new;
            },
            None => (),
        }
        match amount {
            Some(d) => if let Some(new) = check_delta(self.amount.as_ref(), d) {
                self.amount = Some(new);
            },
            None => (),
        }
        match payment_method {
            Some(d) => if let Some(new) = check_delta(Some(&self.payment_method), d) {
                self.payment_method = new;
            },
            None => (),
        }
        match completed {
            Some(d) => if let Some(new) = check_delta(self.completed.as_ref(), d) {
                self.completed = Some(new);
            },
            None => (),
        }
        proof {
            reveal(apply_view);
            assert((*self)@ =~= apply_view(old(self)@, del@));
        }
    }
}

/// The views of a sequence of store representations.
pub open spec fn store_views(s: Seq<TransactionStore>) -> Seq<TransactionStoreView> {
    s.map_values(|x: TransactionStore| x@)
}

/// The aggregate an ordered envelope sequence folds to.
pub open spec fn rollup_view(dels: Seq<TransactionStoreView>) -> TransactionView
    decreases dels.len(),
{
    if dels.len() == 0 {
        empty_transaction_view()
    } else {
        apply_view(rollup_view(dels.drop_last()), dels.last())
    }
}

/// Law: the fold is deterministic. Replaying one and the same ordered
/// envelope sequence always yields one and the same aggregate.
pub proof fn lemma_rollup_deterministic(a: Seq<TransactionStoreView>, b: Seq<TransactionStoreView>)
    requires
        a == b,
    ensures
        rollup_view(a) == rollup_view(b),
{
}

/// Law: the fold of one more envelope bundle is one application over the
/// fold of the bundles before it.
pub proof fn lemma_rollup_step(dels: Seq<TransactionStoreView>, k: int)
    requires
        0 <= k < dels.len(),
    ensures
        rollup_view(dels.take(k + 1)) == apply_view(rollup_view(dels.take(k)), dels[k]),
{
    assert(dels.take(k + 1).drop_last() =~= dels.take(k));
    assert(dels.take(k + 1).last() == dels[k]);
}

/// Law: the fold of a creation's single envelope bundle is the created
/// aggregate itself — identifier collection included.
pub proof fn lemma_create_rollup(a: TransactionView)
    ensures
        rollup_view(seq![to_store_view(a)]) == a,
{
    let d = to_store_view(a);
    assert(seq![d].len() == 1);
    assert(seq![d].drop_last() =~= Seq::<TransactionStoreView>::empty());
    assert(seq![d].last() == d);
    assert(rollup_view(Seq::<TransactionStoreView>::empty()) == empty_transaction_view());
    assert(rollup_view(seq![d]) == apply_view(empty_transaction_view(), d));
    assert(apply_view(empty_transaction_view(), d) =~= a) by {
        reveal(apply_view);
        crate::delta::lemma_apply_array_initial(a.identifier);
        crate::delta::lemma_apply_scalar_initial(a.amount);
        crate::delta::lemma_apply_array_initial(a.payment_method);
        crate::delta::lemma_apply_scalar_initial(a.completed);
    }
}

impl Rollup<Transaction> for Vec<TransactionStore> {
    fn rollup(self) -> (r: Transaction)
        ensures
            r@ == rollup_view(store_views(self@)),
    {
        let mut dels = self;
        let ghost orig = dels@;
        let ghost views = store_views(orig);
        let mut res = Transaction::default();
        let mut k: usize = 0;
        let n = dels.len();
        proof {
            assert(orig.len() == n);
            assert(views.take(0) =~= Seq::<TransactionStoreView>::empty());
            assert(orig.skip(0) =~= orig);
        }
        while dels.len() > 0
            invariant
                views == store_views(orig),
                orig.len() <= usize::MAX,
                k + dels@.len() == orig.len(),
                dels@ == orig.skip(k as int),
                res@ == rollup_view(views.take(k as int)),
            decreases dels@.len(),
        {
            let d = dels.remove(0);
            proof {
                assert(orig.skip(k as int)[0] == orig[k as int]);
                assert(orig.skip(k as int).remove(0) =~= orig.skip(k as int + 1));
            }
            res.apply(d);
            proof {
                lemma_rollup_step(views, k as int);
                assert(views[k as int] == orig[k as int]@);
            }
            k += 1;
        }
        proof {
            assert(views.take(orig.len() as int) =~= views);
        }
        res
    }
}

/// Law: serializing an aggregate to its store representation and folding
/// it back preserves every field value exactly.
pub proof fn lemma_store_round_trip(a: TransactionView)
    ensures
        from_store_view(to_store_view(a)) == a,
{
    assert(from_store_view(to_store_view(a)) =~= a);
}

/// Law: the external id of an aggregate's store representation is the
/// rendering of its first primary-tier identifier.
pub proof fn lemma_primary_identifier_selected(a: TransactionView, i: int)
    requires
        0 <= i < a.identifier.len(),
        a.identifier[i].is_primary_spec(),
        forall|j: int| 0 <= j < i ==> !(#[trigger] a.identifier[j]).is_primary_spec(),
    ensures
        store_identifier_view(to_store_view(a)) == a.identifier[i].rendered_spec(),
{
    crate::atoms::lemma_first_primary_at(a.identifier, i);
}

/// The sparse filter document over the transaction's searchable fields. An
/// amount filter matches when its decimal rendering occurs in the decimal
/// rendering of the stored amount.
#[derive(Debug)]
pub struct TransactionSearch {
    pub amount: Option<u32>,
}

impl Search<TransactionStore> for TransactionSearch {
    open spec fn ty_spec() -> Seq<char> {
        "Transaction"@
    }

    open spec fn matches_spec(&self, doc: &TransactionStore) -> bool {
        match self.amount {
            Some(f) => match doc.amount {
                Some(d) => match d.end {
                    Some(v) => contains_seq(dec_digits(v as nat), dec_digits(f as nat)),
                    None => false,
                },
                None => false,
            },
            None => true,
        }
    }

    open spec fn array_splits_spec(&self) -> Seq<Seq<char>> {
        Seq::empty()
    }

    open spec fn paths_spec(&self) -> Seq<Seq<char>> {
        if self.amount is Some {
            seq!["body -> 'amount' ->> 'end' LIKE $"@]
        } else {
            Seq::empty()
        }
    }

    open spec fn bind_values_spec(&self) -> Seq<Seq<char>> {
        match self.amount {
            Some(f) => seq![like_pattern(dec_digits(f as nat))],
            None => Seq::empty(),
        }
    }

    fn ty() -> (r: String) {
        String::from_str("Transaction")
    }

    fn matches(&self, doc: &TransactionStore) -> (r: bool) {
        match &self.amount {
            Some(f) => match &doc.amount {
                Some(d) => match &d.end {
                    Some(v) => {
                        let hay = u64_to_dec(*v as u64);
                        let needle = u64_to_dec(*f as u64);
                        str_contains(hay.as_str(), needle.as_str())
                    },
                    None => false,
                },
                None => false,
            },
            None => true,
        }
    }

    fn array_splits(&self) -> (r: Vec<String>) {
        let r: Vec<String> = Vec::new();
        proof {
            assert(r@.map_values(|s: String| s@) =~= self.array_splits_spec());
        }
        r
    }

    fn paths(&self) -> (r: Vec<String>) {
        let mut r: Vec<String> = Vec::new();
        if self.amount.is_some() {
            r.push(String::from_str("body -> 'amount' ->> 'end' LIKE $"));
        }
        proof {
            assert(r@.map_values(|s: String| s@) =~= self.paths_spec());
        }
        r
    }

    fn bind_values(&self) -> (r: Vec<String>) {
        let mut r: Vec<String> = Vec::new();
        match &self.amount {
            Some(f) => {
                let rendered = u64_to_dec(*f as u64);
                r.push(like_pattern_str(rendered.as_str()));
            },
            None => (),
        }
        proof {
            assert(r@.map_values(|s: String| s@) =~= self.bind_values_spec());
        }
        r
    }
}

/// The roles a transaction mutation is permissive toward.
pub open spec fn transaction_mutate_roles() -> Seq<Role> {
    seq![Role::Admin, Role::Service]
}

/// The roles a transaction query is permissive toward.
pub open spec fn transaction_query_roles() -> Seq<Role> {
    seq![Role::Admin, Role::Service, Role::User]
}

fn transaction_mutate_roles_vec() -> (r: Vec<Role>)
    ensures
        r@ == transaction_mutate_roles(),
{
    let mut v: Vec<Role> = Vec::new();
    v.push(Role::Admin);
    v.push(Role::Service);
    proof {
        assert(v@ =~= transaction_mutate_roles());
    }
    v
}

fn transaction_query_roles_vec() -> (r: Vec<Role>)
    ensures
        r@ == transaction_query_roles(),
{
    let mut v: Vec<Role> = Vec::new();
    v.push(Role::Admin);
    v.push(Role::Service);
    v.push(Role::User);
    proof {
        assert(v@ =~= transaction_query_roles());
    }
    v
}

/// The transaction's registry entry for the authorization gate.
pub fn transaction_auth() -> (r: AuthAttribute)
    ensures
        r.mutate@ == transaction_mutate_roles(),
        r.query@ == transaction_query_roles(),
{
    AuthAttribute { mutate: transaction_mutate_roles_vec(), query: transaction_query_roles_vec() }
}

/// The aggregate a create call builds before persisting it: the converted
/// caller-supplied identifiers — any supplied primary tier demoted, since
/// the store mints the one primary itself — with the freshly minted
/// primary at the end, and every other field taken from the inputs.
pub open spec fn new_transaction_view(
    identifier: Option<Vec<IdentifierInput>>,
    minted: Identifier,
    amount: Option<u32>,
    payment_method: Option<Vec<ReferenceInput>>,
    completed: Option<bool>,
) -> TransactionView {
    TransactionView {
        identifier: (match identifier {
            Some(v) => v@.map_values(|x: IdentifierInput| supplied_identifier_of_input(x)),
            None => Seq::empty(),
        }).push(minted),
        amount,
        payment_method: (match payment_method {
            Some(v) => v@.map_values(|x: ReferenceInput| reference_of_input(x)),
            None => Seq::empty(),
        }),
        completed,
    }
}

/// The transaction's read surface.
#[derive(Default)]
pub struct TransactionQuery;

/// The transaction's read surface, as merged into the store's query root.
#[derive(Default)]
pub struct TxnQuery(pub TransactionQuery);

/// The transaction's write surface.
#[derive(Default)]
pub struct TransactionMutate;

/// The transaction's write surface, as merged into the store's mutation
/// root.
#[derive(Default)]
pub struct TxnMutate(pub TransactionMutate);

impl TransactionQuery {
    /// Load the ordered envelope history of one id and fold it into the
    /// current aggregate, after consulting the authorization gate. An id
    /// with no history is not found.
    pub fn find_transaction(
        &self,
        store: &StoreState<TransactionStore>,
        id: &str,
        identity: &Identity,
    ) -> (r: Result<Transaction, Error>)
        ensures
            !crate::auth::authorized_spec(
                identity.roles@,
                Action::Query,
                transaction_query_roles(),
                identity.user_id@,
            ) ==> r is Err && (r->Err_0 matches Error::Authorization(_)),
            crate::auth::authorized_spec(
                identity.roles@,
                Action::Query,
                transaction_query_roles(),
                identity.user_id@,
            ) ==> (match r {
                Ok(a) => is_uuid_text(id@) && log_bodies_for(store.log@, id@).len() > 0 && a@
                    == rollup_view(store_views(log_bodies_for(store.log@, id@))),
                Err(e) => (!is_uuid_text(id@) && (e matches Error::Validation(_))) || (is_uuid_text(
                    id@,
                ) && log_bodies_for(store.log@, id@).len() == 0 && e == Error::NotFound),
            }),
    {
        match identity.is_authorized(Action::Query, transaction_query_roles_vec()) {
            Ok(()) => (),
            Err(e) => {
                return Err(e);
            },
        }
        let refs = match Driver::query(store, id) {
            Ok(v) => v,
            Err(e) => {
                return Err(e);
            },
        };
        let ghost bodies = log_bodies_for(store.log@, id@);
        if refs.len() == 0 {
            proof {
                assert(refs@.map_values(|x: &TransactionStore| *x).len() == 0);
            }
            return Err(Error::NotFound);
        }
        let mut dels: Vec<TransactionStore> = Vec::new();
        let mut i: usize = 0;
        proof {
            assert(refs@.map_values(|x: &TransactionStore| *x) == bodies);
            assert(store_views(dels@) =~= store_views(bodies).take(0));
        }
        while i < refs.len()
            invariant
                refs@.map_values(|x: &TransactionStore| *x) == bodies,
                i <= refs@.len(),
                store_views(dels@) == store_views(bodies).take(i as int),
            decreases refs@.len() - i,
        {
            let d = refs[i].clone();
            proof {
                assert(refs@.map_values(|x: &TransactionStore| *x)[i as int] == *refs@[i as int]);
                assert(d@ == bodies[i as int]@);
                assert(store_views(bodies)[i as int] == bodies[i as int]@);
            }
            let ghost pre = dels@;
            dels.push(d);
            proof {
                assert(store_views(pre).len() == i as int);
                assert(pre.len() == i as int);
                assert(dels@ == pre.push(d));
                assert forall|j: int|
                    0 <= j < i as int + 1 implies store_views(dels@)[j] == store_views(
                    bodies,
                ).take(i as int + 1)[j] by {
                    if j < i as int {
                        assert(store_views(pre)[j] == store_views(bodies).take(i as int)[j]);
                        assert(dels@[j] == pre[j]);
                    } else {
                        assert(dels@[j] == d);
                    }
                }
                assert(store_views(dels@) =~= store_views(bodies).take(i as int + 1));
            }
            i += 1;
        }
        proof {
            assert(store_views(bodies).take(store_views(bodies).len() as int) =~= store_views(
                bodies,
            ));
            assert(store_views(dels@) == store_views(bodies));
        }
        let acc = dels.rollup();
        Ok(acc)
    }

    /// Search the projected transactions whose stored amount's decimal
    /// rendering contains the filter's, paginated by cursor and limit,
    /// ordered by `last_updated` ascending.
    pub fn search_transaction(
        &self,
        store: &StoreState<TransactionStore>,
        amount: Option<u32>,
        cursor: Option<String>,
        limit: Option<usize>,
        identity: &Identity,
    ) -> (r: Result<Page<Transaction>, Error>)
        requires
            store.wf(),
        ensures
            !crate::auth::authorized_spec(
                identity.roles@,
                Action::All,
                transaction_query_roles(),
                identity.user_id@,
            ) ==> r is Err && (r->Err_0 matches Error::Authorization(_)),
            crate::auth::authorized_spec(
                identity.roles@,
                Action::All,
                transaction_query_roles(),
                identity.user_id@,
            ) ==> {
                &&& (r is Ok <==> crate::pagination::cursor_valid(cursor))
                &&& r is Err ==> (r->Err_0 matches Error::Validation(_))
                &&& r is Ok ==> {
                    let pg = (PaginationOption {
                        skip: crate::pagination::resolved_skip(cursor) as usize,
                        limit: crate::pagination::resolved_limit(limit) as usize,
                    });
                    let page = crate::store::page_of(
                        crate::store::matching_bodies(
                            store.projection@,
                            (TransactionSearch { amount }),
                        ),
                        pg,
                    );
                    &&& r->Ok_0.has_previous_page == (crate::pagination::resolved_skip(cursor)
                        > 0)
                    &&& r->Ok_0.has_next_page
                    &&& r->Ok_0.edges@.len() == page.len()
                    &&& (forall|k: int|
                        0 <= k < page.len() ==> (#[trigger] r->Ok_0.edges@[k]).cursor
                            == crate::pagination::resolved_skip(cursor) + k
                            && r->Ok_0.edges@[k].node@ == from_store_view(page[k]@))
                }
            },
    {
        match identity.is_authorized(Action::All, transaction_query_roles_vec()) {
            Ok(()) => (),
            Err(e) => {
                return Err(e);
            },
        }
        let skip: usize = match &cursor {
            Some(c) => match crate::text::parse_dec(c.as_str()) {
                Some(v) => v,
                None => {
                    return Err(
                        Error::Validation(String::from_str("cursor must be a decimal number")),
                    );
                },
            },
            None => 0,
        };
        let lim: usize = match limit {
            Some(l) => l,
            None => 100,
        };
        let pagination = PaginationOption { skip, limit: lim };
        let doc = TransactionSearch { amount };
        let found = Driver::search(store, &doc, pagination);
        let ghost all = crate::store::matching_bodies(store.projection@, doc);
        let ghost page = crate::store::page_of(all, pagination);
        proof {
            crate::store::lemma_matching_len(store.projection@, doc);
            assert(found@.map_values(|x: &TransactionStore| *x) == page);
        }
        let n_rows = store.projection.len();
        let mut edges: Vec<Edge<Transaction>> = Vec::new();
        let mut i: usize = 0;
        while i < found.len()
            invariant
                found@.map_values(|x: &TransactionStore| *x) == page,
                page == crate::store::page_of(all, pagination),
                all.len() <= store.projection@.len(),
                store.projection@.len() == n_rows,
                page.len() > 0 ==> all.len() > pagination.skip,
                skip == pagination.skip,
                i <= found@.len(),
                edges@.len() == i,
                forall|k: int|
                    0 <= k < i ==> (#[trigger] edges@[k]).cursor == pagination.skip + k
                        && edges@[k].node@ == from_store_view(page[k]@),
            decreases found@.len() - i,
        {
            proof {
                assert(page.len() <= all.len() - pagination.skip);
                assert(pagination.skip + i < all.len());
            }
            let d = found[i].clone();
            proof {
                assert(found@.map_values(|x: &TransactionStore| *x)[i as int] == *found@[i as int]);
                assert(d@ == page[i as int]@);
            }
            let node = Transaction::from_store(d);
            edges.push(Edge { cursor: skip + i, node });
            i += 1;
        }
        Ok(Page { has_previous_page: skip > 0, has_next_page: true, edges })
    }
}

impl TransactionMutate {
    /// Create a new transaction: convert the caller-supplied parts, mint a
    /// fresh primary identifier, and persist the new aggregate — one log
    /// append and one projection upsert, together.
    pub fn new_transaction(
        &self,
        store: &mut StoreState<TransactionStore>,
        identity: &Identity,
        identifier: Option<Vec<IdentifierInput>>,
        amount: Option<u32>,
        payment_method: Option<Vec<ReferenceInput>>,
        completed: Option<bool>,
    ) -> (r: Result<Identifier, Error>)
        requires
            old(store).wf(),
            old(store).clock < u64::MAX - 1,
        ensures
            final(store).wf(),
            !crate::auth::authorized_spec(
                identity.roles@,
                Action::Create,
                transaction_mutate_roles(),
                identity.user_id@,
            ) ==> r is Err && (r->Err_0 matches Error::Authorization(_)) && *final(store) == *old(
                store,
            ),
            crate::auth::authorized_spec(
                identity.roles@,
                Action::Create,
                transaction_mutate_roles(),
                identity.user_id@,
            ) ==> r is Ok && {
                let minted = r->Ok_0;
                let view = new_transaction_view(
                    identifier,
                    minted,
                    amount,
                    payment_method,
                    completed,
                );
                let doc = to_store_view(view);
                &&& minted.system == IdentifierSystem::Yoda
                &&& minted.tier == IdentifierTier::Primary
                &&& is_uuid_text(minted.value@)
                &&& exactly_one_primary(view.identifier)
                &&& final(store).clock == old(store).clock + 2
                &&& final(store).log@.len() == old(store).log@.len() + 1
                &&& final(store).log@.drop_last() == old(store).log@
                &&& final(store).log@.last().id@ == minted.value@
                &&& final(store).log@.last().body@ == doc
                &&& final(store).log@.last().author@ == identity.user_id@
                &&& final(store).projection@.len() >= 1
                &&& final(store).projection@.last().id@ == minted.value@
                &&& final(store).projection@.last().body@ == doc
                &&& final(store).projection@.drop_last() == (if has_proj_id(
                    old(store).projection@,
                    minted.value@,
                ) {
                    old(store).projection@.remove(
                        proj_index_of(old(store).projection@, minted.value@),
                    )
                } else {
                    old(store).projection@
                })
            },
    {
        match identity.is_authorized(Action::Create, transaction_mutate_roles_vec()) {
            Ok(()) => (),
            Err(e) => {
                return Err(e);
            },
        }
        let ghost ins = (match &identifier {
            Some(v) => v@,
            None => Seq::<IdentifierInput>::empty(),
        });
        let mut ids: Vec<Identifier> = match identifier {
            Some(v) => supplied_identifiers_of_inputs(v),
            None => Vec::new(),
        };
        let minted = Identifier::new(IdentifierSystem::Yoda, IdentifierTier::Primary);
        ids.push(minted.clone());
        let doc = Transaction {
            identifier: ids,
            amount,
            payment_method: (match payment_method {
                Some(v) => references_of_inputs(v),
                None => Vec::new(),
            }),
            completed,
        };
        proof {
            assert(doc@ =~= new_transaction_view(
                identifier,
                minted,
                amount,
                payment_method,
                completed,
            ));
            crate::atoms::lemma_supplied_then_minted_primary(ins, minted);
            assert(Seq::<IdentifierInput>::empty().map_values(
                |x: IdentifierInput| supplied_identifier_of_input(x),
            ) =~= Seq::<Identifier>::empty());
        }
        let doc2 = doc.clone();
        match Driver::delta(store, minted.value.as_str(), doc2.to_store(), identity) {
            Ok(()) => (),
            Err(_) => {
                // Dead branch: the id is known to be well-formed here, so
                // the driver cannot refuse it.
                proof {
                    assert(false);
                }
                return Err(Error::NotFound);
            },
        }
        match Driver::project(store, minted.value.as_str(), doc.to_store()) {
            Ok(()) => (),
            Err(_) => {
                // Dead branch: the id is known to be well-formed here, so
                // the driver cannot refuse it.
                proof {
                    assert(false);
                }
                return Err(Error::NotFound);
            },
        }
        Ok(minted)
    }

    /// Apply caller-supplied field envelopes to one transaction: load its
    /// current projection, append the envelope bundle to the log, fold it
    /// over the aggregate — each field honored or silently dropped by the
    /// concurrency check — and replace the projection, all together. The
    /// folded aggregate is handed back; a dropped field is not reported.
    /// The identifier collection is not among the updatable fields: the
    /// store mints it at creation and keeps it.
    pub fn update_transaction(
        &self,
        store: &mut StoreState<TransactionStore>,
        id: &str,
        identity: &Identity,
        amount: Option<Delta<u32>>,
        payment_method: Option<Delta<Vec<Reference>>>,
        completed: Option<Delta<bool>>,
    ) -> (r: Result<Transaction, Error>)
        requires
            old(store).wf(),
            old(store).clock < u64::MAX - 1,
        ensures
            final(store).wf(),
            !crate::auth::authorized_spec(
                identity.roles@,
                Action::Mutate(id),
                transaction_mutate_roles(),
                identity.user_id@,
            ) ==> r is Err && (r->Err_0 matches Error::Authorization(_)) && *final(store) == *old(
                store,
            ),
            crate::auth::authorized_spec(
                identity.roles@,
                Action::Mutate(id),
                transaction_mutate_roles(),
                identity.user_id@,
            ) ==> {
                &&& !is_uuid_text(id@) ==> r is Err && (r->Err_0 matches Error::Validation(_))
                    && *final(store) == *old(store)
                &&& is_uuid_text(id@) && !has_proj_id(old(store).projection@, id@) ==> r
                    == Result::<Transaction, Error>::Err(Error::NotFound) && *final(store) == *old(
                    store,
                )
                &&& is_uuid_text(id@) && has_proj_id(old(store).projection@, id@) ==> r is Ok && {
                    let dv = (TransactionStoreView {
                        identifier: None,
                        amount,
                        payment_method: vec_delta_view(payment_method),
                        completed,
                    });
                    let cur = old(store).projection@[proj_index_of(
                        old(store).projection@,
                        id@,
                    )].body@;
                    let updated = apply_view(from_store_view(cur), dv);
                    &&& r->Ok_0@ == updated
                    &&& final(store).log@.len() == old(store).log@.len() + 1
                    &&& final(store).log@.drop_last() == old(store).log@
                    &&& final(store).log@.last().id@ == id@
                    &&& final(store).log@.last().body@ == dv
                    &&& final(store).log@.last().author@ == identity.user_id@
                    &&& final(store).projection@.len() >= 1
                    &&& final(store).projection@.last().id@ == id@
                    &&& final(store).projection@.last().body@ == to_store_view(updated)
                    &&& final(store).projection@.drop_last() == old(store).projection@.remove(
                        proj_index_of(old(store).projection@, id@),
                    )
                    &&& final(store).clock == old(store).clock + 2
                }
            },
    {
        match identity.is_authorized(Action::Mutate(id), transaction_mutate_roles_vec()) {
            Ok(()) => (),
            Err(e) => {
                return Err(e);
            },
        }
        let current_body = match Driver::query_proj(store, id) {
            Ok(b) => b.clone(),
            Err(e) => {
                return Err(e);
            },
        };
        let mut current = Transaction::from_store(current_body);
        let delta_doc = TransactionStore {
            identifier: None,
            amount,
            payment_method,
            completed,
        };
        let delta_copy = delta_doc.clone();
        match Driver::delta(store, id, delta_doc, identity) {
            Ok(()) => (),
            Err(_) => {
                // Dead branch: the id is known to be well-formed here, so
                // the driver cannot refuse it.
                proof {
                    assert(false);
                }
                return Err(Error::NotFound);
            },
        }
        current.apply(delta_copy);
        match Driver::project(store, id, current.clone().to_store()) {
            Ok(()) => (),
            Err(_) => {
                // Dead branch: the id is known to be well-formed here, so
                // the driver cannot refuse it.
                proof {
                    assert(false);
                }
                return Err(Error::NotFound);
            },
        }
        Ok(current)
    }
}

impl Transaction {
    /// The `identifier` content with its precondition token, as a reader needs
    /// it to assert this state in a later conditional mutation.
    pub fn identifier_with_hash(&self) -> (r: WithHash<Vec<Identifier>>)
        ensures
            r.value@ == self.identifier@,
            r.hash@ == token_of(self.identifier),
    {
        vec_with_hash(&self.identifier)
    }

    /// The `amount` value with its precondition token, as a reader needs
    /// it to assert this state in a later conditional mutation.
    pub fn amount_with_hash(&self) -> (r: WithHash<Option<u32>>)
        ensures
            r.value == self.amount,
            r.hash@ == opt_token_or_seed(self.amount),
    {
        opt_with_hash(&self.amount)
    }

    /// The `payment_method` content with its precondition token, as a reader needs
    /// it to assert this state in a later conditional mutation.
    pub fn payment_method_with_hash(&self) -> (r: WithHash<Vec<Reference>>)
        ensures
            r.value@ == self.payment_method@,
            r.hash@ == token_of(self.payment_method),
    {
        vec_with_hash(&self.payment_method)
    }

    /// The `completed` value with its precondition token, as a reader needs
    /// it to assert this state in a later conditional mutation.
    pub fn completed_with_hash(&self) -> (r: WithHash<Option<bool>>)
        ensures
            r.value == self.completed,
            r.hash@ == opt_token_or_seed(self.completed),
    {
        opt_with_hash(&self.completed)
    }

}

} // verus!
