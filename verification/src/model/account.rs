//! The account entity: its aggregate, store representation, fold rules,
//! search document, and query/mutation surface.

use vstd::prelude::*;

use crate::atoms::{
    exactly_one_primary, first_primary, is_uuid_text, reference_of_input, references_of_inputs,
    supplied_identifier_of_input, supplied_identifiers_of_inputs, DupValue, Identifier,
    IdentifierInput, IdentifierSystem, IdentifierTier, Reference, ReferenceInput, Tag,
};
use crate::auth::{Action, AuthAttribute, Identity, Role};
use crate::delta::{
    apply_array, apply_scalar, check_delta, dup_opt, dup_opt_delta, dup_opt_delta_vec, dup_vec,
    end_array, end_scalar, init_array, init_scalar, vec_delta_view, Del, Delta, Rollup, Store,
};
use crate::errors::Error;
use crate::hash::{opt_token_or_seed, opt_with_hash, token_of, vec_with_hash, ContentHash, WithHash};
use crate::pagination::{Edge, Page, PaginationOption};
use crate::search::{like_pattern, like_pattern_str, Search};
use crate::store::{has_proj_id, log_bodies_for, proj_index_of, Driver, StoreState};
use crate::text::{contains_seq, str_contains};

verus! {

/// A postal address attached to an account.
#[derive(PartialEq, Eq, Debug)]
pub struct Address {
    pub number: Option<u32>,
    pub street: Option<String>,
    pub city: Option<String>,
    pub state: Option<String>,
    pub country: Option<String>,
    pub postal_code: Option<String>,
}

impl Clone for Address {
    fn clone(&self) -> (r: Self)
        ensures
            r == *self,
    {
        Address {
            number: self.number,
            street: dup_opt(&self.street),
            city: dup_opt(&self.city),
            state: dup_opt(&self.state),
            country: dup_opt(&self.country),
            postal_code: dup_opt(&self.postal_code),
        }
    }
}

impl DupValue for Address {
    fn dup(&self) -> (r: Self) {
        self.clone()
    }
}

impl ContentHash for Address {
    open spec fn tokens(&self) -> Seq<u64> {
        self.number.tokens() + self.street.tokens() + self.city.tokens() + self.state.tokens()
            + self.country.tokens() + self.postal_code.tokens()
    }

    fn append_tokens(&self, out: &mut Vec<u64>) {
        self.number.append_tokens(out);
        self.street.append_tokens(out);
        self.city.append_tokens(out);
        self.state.append_tokens(out);
        self.country.append_tokens(out);
        self.postal_code.append_tokens(out);
        proof {
            assert(out@ =~= old(out)@ + self.tokens());
        }
    }
}

/// The raw parts of an address, as supplied by a caller.
#[derive(Debug)]
pub struct AddressInput {
    pub number: Option<u32>,
    pub street: Option<String>,
    pub city: Option<String>,
    pub state: Option<String>,
    pub country: Option<String>,
    pub postal_code: Option<String>,
}

/// The address a caller-supplied input denotes: every part taken as given.
pub open spec fn address_of_input(input: AddressInput) -> Address {
    Address {
        number: input.number,
        street: input.street,
        city: input.city,
        state: input.state,
        country: input.country,
        postal_code: input.postal_code,
    }
}

impl From<AddressInput> for Address {
    fn from(input: AddressInput) -> (r: Self) {
        Address {
            number: input.number,
            street: input.street,
            city: input.city,
            state: input.state,
            country: input.country,
            postal_code: input.postal_code,
        }
    }
}

impl vstd::std_specs::convert::FromSpecImpl<AddressInput> for Address {
    open spec fn obeys_from_spec() -> bool {
        true
    }

    open spec fn from_spec(input: AddressInput) -> Self {
        address_of_input(input)
    }
}

/// The account aggregate: the folded current state of one account.
#[derive(PartialEq, Eq, Debug)]
pub struct Account {
    pub identifier: Vec<Identifier>,
    pub email: Option<String>,
    pub password: Option<String>,
    pub first_name: Option<String>,
    pub last_name: Option<String>,
    pub interests: Vec<Tag>,
    pub transactions: Vec<Reference>,
    pub payment_method: Vec<Reference>,
    pub address: Vec<Address>,
}

/// The mathematical view of an account aggregate.
#[verifier::ext_equal]
pub struct AccountView {
    pub identifier: Seq<Identifier>,
    pub email: Option<String>,
    pub password: Option<String>,
    pub first_name: Option<String>,
    pub last_name: Option<String>,
    pub interests: Seq<Tag>,
    pub transactions: Seq<Reference>,
    pub payment_method: Seq<Reference>,
    pub address: Seq<Address>,
}

impl View for Account {
    type V = AccountView;

    open spec fn view(&self) -> AccountView {
        AccountView {
            identifier: self.identifier@,
            email: self.email,
            password: self.password,
            first_name: self.first_name,
            last_name: self.last_name,
            interests: self.interests@,
            transactions: self.transactions@,
            payment_method: self.payment_method@,
            address: self.address@,
        }
    }
}

/// The view of the empty aggregate the fold starts from.
pub open spec fn empty_account_view() -> AccountView {
    AccountView {
        identifier: Seq::empty(),
        email: None,
        password: None,
        first_name: None,
        last_name: None,
        interests: Seq::empty(),
        transactions: Seq::empty(),
        payment_method: Seq::empty(),
        address: Seq::empty(),
    }
}

impl Default for Account {
    fn default() -> (r: Self)
        ensures
            r@ == empty_account_view(),
    {
        let r = Account {
            identifier: Vec::new(),
            email: None,
            password: None,
            first_name: None,
            last_name: None,
            interests: Vec::new(),
            transactions: Vec::new(),
            payment_method: Vec::new(),
            address: Vec::new(),
        };
        proof {
            assert(r@ =~= empty_account_view());
        }
        r
    }
}

impl Clone for Account {
    fn clone(&self) -> (r: Self)
        ensures
            r@ == self@,
    {
        let r = Account {
            identifier: dup_vec(&self.identifier),
            email: dup_opt(&self.email),
            password: dup_opt(&self.password),
            first_name: dup_opt(&self.first_name),
            last_name: dup_opt(&self.last_name),
            interests: dup_vec(&self.interests),
            transactions: dup_vec(&self.transactions),
            payment_method: dup_vec(&self.payment_method),
            address: dup_vec(&self.address),
        };
        proof {
            assert(r@ =~= self@);
        }
        r
    }
}

/// The account's store representation: the per-field envelope bundle that
/// is appended to the log and held in the projection.
#[derive(Debug)]
pub struct AccountStore {
    pub identifier: Option<Delta<Vec<Identifier>>>,
    pub email: Option<Delta<String>>,
    pub password: Option<Delta<String>>,
    pub first_name: Option<Delta<String>>,
    pub last_name: Option<Delta<String>>,
    pub interests: Option<Delta<Vec<Tag>>>,
    pub transactions: Option<Delta<Vec<Reference>>>,
    pub payment_method: Option<Delta<Vec<Reference>>>,
    pub address: Option<Delta<Vec<Address>>>,
}

/// The mathematical view of an account store representation.
#[verifier::ext_equal]
pub struct AccountStoreView {
    pub identifier: Option<Delta<Seq<Identifier>>>,
    pub email: Option<Delta<String>>,
    pub password: Option<Delta<String>>,
    pub first_name: Option<Delta<String>>,
    pub last_name: Option<Delta<String>>,
    pub interests: Option<Delta<Seq<Tag>>>,
    pub transactions: Option<Delta<Seq<Reference>>>,
    pub payment_method: Option<Delta<Seq<Reference>>>,
    pub address: Option<Delta<Seq<Address>>>,
}

impl View for AccountStore {
    type V = AccountStoreView;

    open spec fn view(&self) -> AccountStoreView {
        AccountStoreView {
            identifier: vec_delta_view(self.identifier),
            email: self.email,
            password: self.password,
            first_name: self.first_name,
            last_name: self.last_name,
            interests: vec_delta_view(self.interests),
            transactions: vec_delta_view(self.transactions),
            payment_method: vec_delta_view(self.payment_method),
            address: vec_delta_view(self.address),
        }
    }
}

impl Clone for AccountStore {
    fn clone(&self) -> (r: Self)
        ensures
            r@ == self@,
    {
        let r = AccountStore {
            identifier: dup_opt_delta_vec(&self.identifier),
            email: dup_opt_delta(&self.email),
            password: dup_opt_delta(&self.password),
            first_name: dup_opt_delta(&self.first_name),
            last_name: dup_opt_delta(&self.last_name),
            interests: dup_opt_delta_vec(&self.interests),
            transactions: dup_opt_delta_vec(&self.transactions),
            payment_method: dup_opt_delta_vec(&self.payment_method),
            address: dup_opt_delta_vec(&self.address),
        };
        proof {
            assert(r@ =~= self@);
        }
        r
    }
}

/// The store representation an aggregate serializes to: every field
/// wrapped in an unconditional envelope.
pub open spec fn to_store_view(a: AccountView) -> AccountStoreView {
    AccountStoreView {
        identifier: init_array(a.identifier),
        email: init_scalar(a.email),
        password: init_scalar(a.password),
        first_name: init_scalar(a.first_name),
        last_name: init_scalar(a.last_name),
        interests: init_array(a.interests),
        transactions: init_array(a.transactions),
        payment_method: init_array(a.payment_method),
        address: init_array(a.address),
    }
}

/// The aggregate a store representation folds back to on its own: each
/// envelope's value, or the field's empty default.
pub open spec fn from_store_view(s: AccountStoreView) -> AccountView {
    AccountView {
        identifier: end_array(s.identifier),
        email: end_scalar(s.email),
        password: end_scalar(s.password),
        first_name: end_scalar(s.first_name),
        last_name: end_scalar(s.last_name),
        interests: end_array(s.interests),
        transactions: end_array(s.transactions),
        payment_method: end_array(s.payment_method),
        address: end_array(s.address),
    }
}

impl Account {
    /// Serialize the aggregate into its store representation.
    pub fn to_store(self) -> (r: AccountStore)
        ensures
            r@ == to_store_view(self@),
    {
        let Account {
            identifier,
            email,
            password,
            first_name,
            last_name,
            interests,
            transactions,
            payment_method,
            address,
        } = self;
        let r = AccountStore {
            identifier: Delta::init(Some(identifier)),
            email: Delta::init(email),
            password: Delta::init(password),
            first_name: Delta::init(first_name),
            last_name: Delta::init(last_name),
            interests: Delta::init(Some(interests)),
            transactions: Delta::init(Some(transactions)),
            payment_method: Delta::init(Some(payment_method)),
            address: Delta::init(Some(address)),
        };
        proof {
            assert(r@ =~= to_store_view(self@));
        }
        r
    }

    /// Deserialize a store representation back into the aggregate.
    pub fn from_store(store: AccountStore) -> (r: Account)
        ensures
            r@ == from_store_view(store@),
    {
        let AccountStore {
            identifier,
            email,
            password,
            first_name,
            last_name,
            interests,
            transactions,
            payment_method,
            address,
        } = store;
        let r = Account {
            identifier: (match identifier {
                Some(d) => match d.end {
                    Some(v) => v,
                    None => Vec::new(),
                },
                None => Vec::new(),
            }),
            email: (match email {
                Some(d) => d.end,
                None => None,
            }),
            password: (match password {
                Some(d) => d.end,
                None => None,
            }),
            first_name: (match first_name {
                Some(d) => d.end,
                None => None,
            }),
            last_name: (match last_name {
                Some(d) => d.end,
                None => None,
            }),
            interests: (match interests {
                Some(d) => match d.end {
                    Some(v) => v,
                    None => Vec::new(),
                },
                None => Vec::new(),
            }),
            transactions: (match transactions {
                Some(d) => match d.end {
                    Some(v) => v,
                    None => Vec::new(),
                },
                None => Vec::new(),
            }),
            payment_method: (match payment_method {
                Some(d) => match d.end {
                    Some(v) => v,
                    None => Vec::new(),
                },
                None => Vec::new(),
            }),
            address: (match address {
                Some(d) => match d.end {
                    Some(v) => v,
                    None => Vec::new(),
                },
                None => Vec::new(),
            }),
        };
        proof {
            assert(r@ =~= from_store_view(store@));
        }
        r
    }
}

impl From<Account> for AccountStore {
    fn from(org: Account) -> (r: Self) {
        org.to_store()
    }
}

/// What `from` returns is pinned down by [`Account::to_store`] instead: the
/// exact statement lives at the view level, which `from_spec` cannot carry.
impl vstd::std_specs::convert::FromSpecImpl<Account> for AccountStore {
    open spec fn obeys_from_spec() -> bool {
        false
    }

    open spec fn from_spec(org: Account) -> Self {
        arbitrary()
    }
}

impl From<AccountStore> for Account {
    fn from(store: AccountStore) -> (r: Self) {
        Account::from_store(store)
    }
}

/// What `from` returns is pinned down by [`Account::from_store`] instead: the
/// exact statement lives at the view level, which `from_spec` cannot carry.
impl vstd::std_specs::convert::FromSpecImpl<AccountStore> for Account {
    open spec fn obeys_from_spec() -> bool {
        false
    }

    open spec fn from_spec(store: AccountStore) -> Self {
        arbitrary()
    }
}

/// The external id a store representation carries: the rendering of the
/// first primary identifier under its identifier envelope, or the empty
/// string.
pub open spec fn store_identifier_view(s: AccountStoreView) -> Seq<char> {
    match s.identifier {
        Some(d) => match d.end {
            Some(ids) => match first_primary(ids) {
                Some(p) => p.rendered_spec(),
                None => Seq::empty(),
            },
            None => Seq::empty(),
        },
        None => Seq::empty(),
    }
}

impl Store for AccountStore {
    open spec fn ty_spec() -> Seq<char> {
        "Account"@
    }

    open spec fn identifier_spec(&self) -> Seq<char> {
        store_identifier_view(self@)
    }

    fn ty() -> (r: String) {
        String::from_str("Account")
    }

    fn identifier(&self) -> (r: String) {
        match &self.identifier {
            Some(d) => match &d.end {
                Some(ids) => match crate::atoms::find_primary(ids) {
                    Some(p) => p.to_string(),
                    None => String::new(),
                },
                None => String::new(),
            },
            None => String::new(),
        }
    }
}

/// One store representation folded over the aggregate: every field —
/// the identifier collection included — decided by the concurrency check.
#[verifier::opaque]
pub open spec fn apply_view(a: AccountView, d: AccountStoreView) -> AccountView {
    AccountView {
        identifier: apply_array(a.identifier, d.identifier),
        email: apply_scalar(a.email, d.email),
        password: apply_scalar(a.password, d.password),
        first_name: apply_scalar(a.first_name, d.first_name),
        last_name: apply_scalar(a.last_name, d.last_name),
        interests: apply_array(a.interests, d.interests),
        transactions: apply_array(a.transactions, d.transactions),
        payment_method: apply_array(a.payment_method, d.payment_method),
        address: apply_array(a.address, d.address),
    }
}

impl Del<AccountStore> for Account {
    open spec fn ty_spec() -> Seq<char> {
        "Account"@
    }

    fn ty() -> (r: String) {
        String::from_str("Account")
    }

    fn apply(&mut self, del: AccountStore)
        ensures
            final(self)@ == apply_view(old(self)@, del@),
    {
        let AccountStore {
            identifier,
            email,
            password,
            first_name,
            last_name,
            interests,
            transactions,
            payment_method,
            address,
        } = del;
        match identifier {
            Some(d) => if let Some(new) = check_delta(Some(&self.identifier), d) {
                self.identifier = new;
            },
            None => (),
        }
        match email {
            Some(d) => if let Some(new) = check_delta(self.email.as_ref(), d) {
                self.email = Some(new);
            },
            None => (),
        }
        match password {
            Some(d) => if let Some(new) = check_delta(self.password.as_ref(), d) {
                self.password = Some(new);
            },
            None => (),
        }
        match first_name {
            Some(d) => if let Some(new) = check_delta(self.first_name.as_ref(), d) {
                self.first_name = Some(new);
            },
            None => (),
        }
        match last_name {
            Some(d) => if let Some(new) = check_delta(self.last_name.as_ref(), d) {
                self.last_name = Some(new);
            },
            None => (),
        }
        match interests {
            Some(d) => if let Some(new) = check_delta(Some(&self.interests), d) {
                self.interests = new;
            },
            None => (),
        }
        match transactions {
            Some(d) => if let Some(new) = check_delta(Some(&self.transactions), d) {
                self.transactions = new;
            },
            None => (),
        }
        match payment_method {
            Some(d) => if let Some(new) = check_delta(Some(&self.payment_method), d) {
                self.payment_method = new;
            },
            None => (),
        }
        match address {
            Some(d) => if let Some(new) = check_delta(Some(&self.address), d) {
                self.address = new;
            },
            None => (),
        }
        proof {
            reveal(apply_view);
            assert((*self)@ =~= apply_view(old(self)@, del@));
        }
    }
}

/// The views of a sequence of store representations.
pub open spec fn store_views(s: Seq<AccountStore>) -> Seq<AccountStoreView> {
    s.map_values(|x: AccountStore| x@)
}

/// The aggregate an ordered envelope sequence folds to: a left-to-right
/// replay over the empty aggregate.
pub open spec fn rollup_view(dels: Seq<AccountStoreView>) -> AccountView
    decreases dels.len(),
{
    if dels.len() == 0 {
        empty_account_view()
    } else {
        apply_view(rollup_view(dels.drop_last()), dels.last())
    }
}

/// Law: the fold is deterministic. Replaying one and the same ordered
/// envelope sequence always yields one and the same aggregate; two replays
/// can differ only if the sequences themselves differ.
pub proof fn lemma_rollup_deterministic(a: Seq<AccountStoreView>, b: Seq<AccountStoreView>)
    requires
        a == b,
    ensures
        rollup_view(a) == rollup_view(b),
{
}

/// Law: the fold of one more envelope bundle is one application over the
/// fold of the bundles before it.
pub proof fn lemma_rollup_step(dels: Seq<AccountStoreView>, k: int)
    requires
        0 <= k < dels.len(),
    ensures
        rollup_view(dels.take(k + 1)) == apply_view(rollup_view(dels.take(k)), dels[k]),
{
    assert(dels.take(k + 1).drop_last() =~= dels.take(k));
    assert(dels.take(k + 1).last() == dels[k]);
}

/// Law: the fold of a creation's single envelope bundle is the created
/// aggregate itself — identifier collection included.
pub proof fn lemma_create_rollup(a: AccountView)
    ensures
        rollup_view(seq![to_store_view(a)]) == a,
{
    let d = to_store_view(a);
    assert(seq![d].len() == 1);
    assert(seq![d].drop_last() =~= Seq::<AccountStoreView>::empty());
    assert(seq![d].last() == d);
    assert(rollup_view(Seq::<AccountStoreView>::empty()) == empty_account_view());
    assert(rollup_view(seq![d]) == apply_view(empty_account_view(), d));
    assert(apply_view(empty_account_view(), d) =~= a) by {
        reveal(apply_view);
        crate::delta::lemma_apply_array_initial(a.identifier);
        crate::delta::lemma_apply_scalar_initial(a.email);
        crate::delta::lemma_apply_scalar_initial(a.password);
        crate::delta::lemma_apply_scalar_initial(a.first_name);
        crate::delta::lemma_apply_scalar_initial(a.last_name);
        crate::delta::lemma_apply_array_initial(a.interests);
        crate::delta::lemma_apply_array_initial(a.transactions);
        crate::delta::lemma_apply_array_initial(a.payment_method);
        crate::delta::lemma_apply_array_initial(a.address);
    }
}

impl Rollup<Account> for Vec<AccountStore> {
    fn rollup(self) -> (r: Account)
        ensures
            r@ == rollup_view(store_views(self@)),
    {
        let mut dels = self;
        let ghost orig = dels@;
        let ghost views = store_views(orig);
        let mut res = Account::default();
        let mut k: usize = 0;
        let n = dels.len();
        proof {
            assert(orig.len() == n);
            assert(views.take(0) =~= Seq::<AccountStoreView>::empty());
            assert(orig.skip(0) =~= orig);
        }
        while dels.len() > 0
            invariant
                views == store_views(orig),
                orig.len() <= usize::MAX,
                k + dels@.len() == orig.len(),
                dels@ == orig.skip(k as int),
                res@ == rollup_view(views.take(k as int)),
            decreases dels@.len(),
        {
            let d = dels.remove(0);
            proof {
                assert(orig.skip(k as int)[0] == orig[k as int]);
                assert(orig.skip(k as int).remove(0) =~= orig.skip(k as int + 1));
            }
            res.apply(d);
            proof {
                lemma_rollup_step(views, k as int);
                assert(views[k as int] == orig[k as int]@);
            }
            k += 1;
        }
        proof {
            assert(views.take(orig.len() as int) =~= views);
        }
        res
    }
}

/// Law: serializing an aggregate to its store representation and folding
/// it back preserves every non-identifier field value exactly, and the
/// identifier collection — its primary identifier included — survives
/// exactly as well.
pub proof fn lemma_store_round_trip(a: AccountView)
    ensures
        from_store_view(to_store_view(a)) == a,
{
    assert(from_store_view(to_store_view(a)) =~= a);
}

/// Law: the external id of an aggregate's store representation is the
/// rendering of its first primary-tier identifier — uniquely selected even
/// when several identifiers, or several primary ones, are present.
pub proof fn lemma_primary_identifier_selected(a: AccountView, i: int)
    requires
        0 <= i < a.identifier.len(),
        a.identifier[i].is_primary_spec(),
        forall|j: int| 0 <= j < i ==> !(#[trigger] a.identifier[j]).is_primary_spec(),
    ensures
        store_identifier_view(to_store_view(a)) == a.identifier[i].rendered_spec(),
{
    crate::atoms::lemma_first_primary_at(a.identifier, i);
}

/// The sparse filter document over the account's searchable fields.
#[derive(Debug)]
pub struct AccountSearch {
    pub email: Option<String>,
}

impl Search<AccountStore> for AccountSearch {
    open spec fn ty_spec() -> Seq<char> {
        "Account"@
    }

    open spec fn matches_spec(&self, doc: &AccountStore) -> bool {
        match self.email {
            Some(f) => match doc.email {
                Some(d) => match d.end {
                    Some(v) => contains_seq(v@, f@),
                    None => false,
                },
                None => false,
            },
            None => true,
        }
    }

    open spec fn array_splits_spec(&self) -> Seq<Seq<char>> {
        Seq::empty()
    }

    open spec fn paths_spec(&self) -> Seq<Seq<char>> {
        if self.email is Some {
            seq!["body -> 'email' ->> 'end' LIKE $"@]
        } else {
            Seq::empty()
        }
    }

    open spec fn bind_values_spec(&self) -> Seq<Seq<char>> {
        match self.email {
            Some(f) => seq![like_pattern(f@)],
            None => Seq::empty(),
        }
    }

    fn ty() -> (r: String) {
        String::from_str("Account")
    }

    fn matches(&self, doc: &AccountStore) -> (r: bool) {
        match &self.email {
            Some(f) => match &doc.email {
                Some(d) => match &d.end {
                    Some(v) => str_contains(v.as_str(), f.as_str()),
                    None => false,
                },
                None => false,
            },
            None => true,
        }
    }

    fn array_splits(&self) -> (r: Vec<String>) {
        let r: Vec<String> = Vec::new();
        proof {
            assert(r@.map_values(|s: String| s@) =~= self.array_splits_spec());
        }
        r
    }

    fn paths(&self) -> (r: Vec<String>) {
        let mut r: Vec<String> = Vec::new();
        if self.email.is_some() {
            r.push(String::from_str("body -> 'email' ->> 'end' LIKE $"));
        }
        proof {
            assert(r@.map_values(|s: String| s@) =~= self.paths_spec());
        }
        r
    }

    fn bind_values(&self) -> (r: Vec<String>) {
        let mut r: Vec<String> = Vec::new();
        match &self.email {
            Some(f) => r.push(like_pattern_str(f.as_str())),
            None => (),
        }
        proof {
            assert(r@.map_values(|s: String| s@) =~= self.bind_values_spec());
        }
        r
    }
}

/// The roles an account mutation is permissive toward.
pub open spec fn account_mutate_roles() -> Seq<Role> {
    seq![Role::Admin, Role::Service, Role::Own]
}

/// The roles an account query is permissive toward.
pub open spec fn account_query_roles() -> Seq<Role> {
    seq![Role::Admin, Role::Service, Role::User]
}

fn account_mutate_roles_vec() -> (r: Vec<Role>)
    ensures
        r@ == account_mutate_roles(),
{
    let mut v: Vec<Role> = Vec::new();
    v.push(Role::Admin);
    v.push(Role::Service);
    v.push(Role::Own);
    proof {
        assert(v@ =~= account_mutate_roles());
    }
    v
}

fn account_query_roles_vec() -> (r: Vec<Role>)
    ensures
        r@ == account_query_roles(),
{
    let mut v: Vec<Role> = Vec::new();
    v.push(Role::Admin);
    v.push(Role::Service);
    v.push(Role::User);
    proof {
        assert(v@ =~= account_query_roles());
    }
    v
}

/// The account's registry entry for the authorization gate.
pub fn account_auth() -> (r: AuthAttribute)
    ensures
        r.mutate@ == account_mutate_roles(),
        r.query@ == account_query_roles(),
{
    AuthAttribute { mutate: account_mutate_roles_vec(), query: account_query_roles_vec() }
}

fn addresses_of_inputs(v: Vec<AddressInput>) -> (r: Vec<Address>)
    ensures
        r@ == v@.map_values(|x: AddressInput| address_of_input(x)),
{
    let mut inputs = v;
    let ghost orig = inputs@;
    let mut r: Vec<Address> = Vec::new();
    let mut k: usize = 0;
    let n = inputs.len();
    proof {
        assert(orig.len() == n);
        assert(orig.skip(0) =~= orig);
        assert(r@ =~= orig.take(0).map_values(|x: AddressInput| address_of_input(x)));
    }
    while inputs.len() > 0
        invariant
            orig.len() <= usize::MAX,
            k + inputs@.len() == orig.len(),
            inputs@ == orig.skip(k as int),
            r@ == orig.take(k as int).map_values(|x: AddressInput| address_of_input(x)),
        decreases inputs@.len(),
    {
        let x = inputs.remove(0);
        proof {
            assert(orig.skip(k as int)[0] == orig[k as int]);
            assert(orig.skip(k as int).remove(0) =~= orig.skip(k as int + 1));
        }
        r.push(Address::from(x));
        proof {
            assert(r@ =~= orig.take(k as int + 1).map_values(
                |x: AddressInput| address_of_input(x),
            ));
        }
        k += 1;
    }
    proof {
        assert(orig.take(orig.len() as int) =~= orig);
    }
    r
}

/// The aggregate a create call builds before persisting it: the converted
/// caller-supplied identifiers — any supplied primary tier demoted, since
/// the store mints the one primary itself — with the freshly minted
/// primary at the end, and every other field taken from the inputs.
pub open spec fn new_account_view(
    identifier: Option<Vec<IdentifierInput>>,
    minted: Identifier,
    email: Option<String>,
    password: Option<String>,
    first_name: Option<String>,
    last_name: Option<String>,
    interests: Seq<Tag>,
    transactions: Option<Vec<ReferenceInput>>,
    payment_method: Option<Vec<ReferenceInput>>,
    address: Option<Vec<AddressInput>>,
) -> AccountView {
    AccountView {
        identifier: (match identifier {
            Some(v) => v@.map_values(|x: IdentifierInput| supplied_identifier_of_input(x)),
            None => Seq::empty(),
        }).push(minted),
        email,
        password,
        first_name,
        last_name,
        interests,
        transactions: (match transactions {
            Some(v) => v@.map_values(|x: ReferenceInput| reference_of_input(x)),
            None => Seq::empty(),
        }),
        payment_method: (match payment_method {
            Some(v) => v@.map_values(|x: ReferenceInput| reference_of_input(x)),
            None => Seq::empty(),
        }),
        address: (match address {
            Some(v) => v@.map_values(|x: AddressInput| address_of_input(x)),
            None => Seq::empty(),
        }),
    }
}

/// The account's read surface.
#[derive(Default)]
pub struct AccountQuery;

/// The account's read surface, as merged into the store's query root.
#[derive(Default)]
pub struct AcctQuery(pub AccountQuery);

/// The account's write surface.
#[derive(Default)]
pub struct AccountMutate;

/// The account's write surface, as merged into the store's mutation root.
#[derive(Default)]
pub struct AcctMutate(pub AccountMutate);

impl AccountQuery {
    /// Load the ordered envelope history of one id and fold it into the
    /// current aggregate, after consulting the authorization gate. An id
    /// with no history is not found.
    pub fn find_account(
        &self,
        store: &StoreState<AccountStore>,
        id: &str,
        identity: &Identity,
    ) -> (r: Result<Account, Error>)
        ensures
            !crate::auth::authorized_spec(
                identity.roles@,
                Action::Query,
                account_query_roles(),
                identity.user_id@,
            ) ==> r is Err && (r->Err_0 matches Error::Authorization(_)),
            crate::auth::authorized_spec(
                identity.roles@,
                Action::Query,
                account_query_roles(),
                identity.user_id@,
            ) ==> (match r {
                Ok(a) => is_uuid_text(id@) && log_bodies_for(store.log@, id@).len() > 0 && a@
                    == rollup_view(store_views(log_bodies_for(store.log@, id@))),
                Err(e) => (!is_uuid_text(id@) && (e matches Error::Validation(_))) || (is_uuid_text(
                    id@,
                ) && log_bodies_for(store.log@, id@).len() == 0 && e == Error::NotFound),
            }),
    {
        match identity.is_authorized(Action::Query, account_query_roles_vec()) {
            Ok(()) => (),
            Err(e) => {
                return Err(e);
            },
        }
        let refs = match Driver::query(store, id) {
            Ok(v) => v,
            Err(e) => {
                return Err(e);
            },
        };
        let ghost bodies = log_bodies_for(store.log@, id@);
        if refs.len() == 0 {
            proof {
                assert(refs@.map_values(|x: &AccountStore| *x).len() == 0);
            }
            return Err(Error::NotFound);
        }
        let mut dels: Vec<AccountStore> = Vec::new();
        let mut i: usize = 0;
        proof {
            assert(refs@.map_values(|x: &AccountStore| *x) == bodies);
            assert(store_views(dels@) =~= store_views(bodies).take(0));
        }
        while i < refs.len()
            invariant
                refs@.map_values(|x: &AccountStore| *x) == bodies,
                i <= refs@.len(),
                store_views(dels@) == store_views(bodies).take(i as int),
            decreases refs@.len() - i,
        {
            let d = refs[i].clone();
            proof {
                assert(refs@.map_values(|x: &AccountStore| *x)[i as int] == *refs@[i as int]);
                assert(d@ == bodies[i as int]@);
                assert(store_views(bodies)[i as int] == bodies[i as int]@);
            }
            let ghost pre = dels@;
            dels.push(d);
            proof {
                assert(store_views(pre).len() == i as int);
                assert(pre.len() == i as int);
                assert(dels@ == pre.push(d));
                assert forall|j: int|
                    0 <= j < i as int + 1 implies store_views(dels@)[j] == store_views(
                    bodies,
                ).take(i as int + 1)[j] by {
                    if j < i as int {
                        assert(store_views(pre)[j] == store_views(bodies).take(i as int)[j]);
                        assert(dels@[j] == pre[j]);
                    } else {
                        assert(dels@[j] == d);
                    }
                }
                assert(store_views(dels@) =~= store_views(bodies).take(i as int + 1));
            }
            i += 1;
        }
        proof {
            assert(store_views(bodies).take(store_views(bodies).len() as int) =~= store_views(
                bodies,
            ));
            assert(store_views(dels@) == store_views(bodies));
        }
        let acc = dels.rollup();
        Ok(acc)
    }

    /// Search the projected accounts whose stored email contains the given
    /// text, paginated by cursor and limit, ordered by `last_updated`
    /// ascending. A window past the result count yields an empty page.
    pub fn search_account(
        &self,
        store: &StoreState<AccountStore>,
        email: Option<String>,
        cursor: Option<String>,
        limit: Option<usize>,
        identity: &Identity,
    ) -> (r: Result<Page<Account>, Error>)
        requires
            store.wf(),
        ensures
            !crate::auth::authorized_spec(
                identity.roles@,
                Action::All,
                account_query_roles(),
                identity.user_id@,
            ) ==> r is Err && (r->Err_0 matches Error::Authorization(_)),
            crate::auth::authorized_spec(
                identity.roles@,
                Action::All,
                account_query_roles(),
                identity.user_id@,
            ) ==> {
                &&& (r is Ok <==> crate::pagination::cursor_valid(cursor))
                &&& r is Err ==> (r->Err_0 matches Error::Validation(_))
                &&& r is Ok ==> {
                    let pg = (PaginationOption {
                        skip: crate::pagination::resolved_skip(cursor) as usize,
                        limit: crate::pagination::resolved_limit(limit) as usize,
                    });
                    let page = crate::store::page_of(
                        crate::store::matching_bodies(
                            store.projection@,
                            (AccountSearch { email }),
                        ),
                        pg,
                    );
                    &&& r->Ok_0.has_previous_page == (crate::pagination::resolved_skip(cursor)
                        > 0)
                    &&& r->Ok_0.has_next_page
                    &&& r->Ok_0.edges@.len() == page.len()
                    &&& (forall|k: int|
                        0 <= k < page.len() ==> (#[trigger] r->Ok_0.edges@[k]).cursor
                            == crate::pagination::resolved_skip(cursor) + k
                            && r->Ok_0.edges@[k].node@ == from_store_view(page[k]@))
                }
            },
    {
        match identity.is_authorized(Action::All, account_query_roles_vec()) {
            Ok(()) => (),
            Err(e) => {
                return Err(e);
            },
        }
        let skip: usize = match &cursor {
            Some(c) => match crate::text::parse_dec(c.as_str()) {
                Some(v) => v,
                None => {
                    return Err(
                        Error::Validation(String::from_str("cursor must be a decimal number")),
                    );
                },
            },
            None => 0,
        };
        let lim: usize = match limit {
            Some(l) => l,
            None => 100,
        };
        let pagination = PaginationOption { skip, limit: lim };
        let doc = AccountSearch { email };
        let found = Driver::search(store, &doc, pagination);
        let ghost all = crate::store::matching_bodies(store.projection@, doc);
        let ghost page = crate::store::page_of(all, pagination);
        proof {
            crate::store::lemma_matching_len(store.projection@, doc);
            assert(found@.map_values(|x: &AccountStore| *x) == page);
        }
        let n_rows = store.projection.len();
        let mut edges: Vec<Edge<Account>> = Vec::new();
        let mut i: usize = 0;
        while i < found.len()
            invariant
                found@.map_values(|x: &AccountStore| *x) == page,
                page == crate::store::page_of(all, pagination),
                all.len() <= store.projection@.len(),
                store.projection@.len() == n_rows,
                page.len() > 0 ==> all.len() > pagination.skip,
                skip == pagination.skip,
                i <= found@.len(),
                edges@.len() == i,
                forall|k: int|
                    0 <= k < i ==> (#[trigger] edges@[k]).cursor == pagination.skip + k
                        && edges@[k].node@ == from_store_view(page[k]@),
            decreases found@.len() - i,
        {
            proof {
                assert(page.len() <= all.len() - pagination.skip);
                assert(pagination.skip + i < all.len());
            }
            let d = found[i].clone();
            proof {
                assert(found@.map_values(|x: &AccountStore| *x)[i as int] == *found@[i as int]);
                assert(d@ == page[i as int]@);
            }
            let node = Account::from_store(d);
            edges.push(Edge { cursor: skip + i, node });
            i += 1;
        }
        Ok(Page { has_previous_page: skip > 0, has_next_page: true, edges })
    }
}

impl AccountMutate {
    /// Create a new account: convert the caller-supplied parts, mint a
    /// fresh primary identifier under the store's own system, and persist
    /// the new aggregate — one log append and one projection upsert,
    /// together. The minted identifier is handed back as the external id.
    pub fn new_account(
        &self,
        store: &mut StoreState<AccountStore>,
        identity: &Identity,
        identifier: Option<Vec<IdentifierInput>>,
        email: Option<String>,
        password: Option<String>,
        first_name: Option<String>,
        last_name: Option<String>,
        interests: Vec<Tag>,
        transactions: Option<Vec<ReferenceInput>>,
        payment_method: Option<Vec<ReferenceInput>>,
        address: Option<Vec<AddressInput>>,
    ) -> (r: Result<Identifier, Error>)
        requires
            old(store).wf(),
            old(store).clock < u64::MAX - 1,
        ensures
            final(store).wf(),
            !crate::auth::authorized_spec(
                identity.roles@,
                Action::Create,
                account_mutate_roles(),
                identity.user_id@,
            ) ==> r is Err && (r->Err_0 matches Error::Authorization(_)) && *final(store) == *old(
                store,
            ),
            crate::auth::authorized_spec(
                identity.roles@,
                Action::Create,
                account_mutate_roles(),
                identity.user_id@,
            ) ==> r is Ok && {
                let minted = r->Ok_0;
                let view = new_account_view(
                    identifier,
                    minted,
                    email,
                    password,
                    first_name,
                    last_name,
                    interests@,
                    transactions,
                    payment_method,
                    address,
                );
                let doc = to_store_view(view);
                &&& minted.system == IdentifierSystem::Yoda
                &&& minted.tier == IdentifierTier::Primary
                &&& is_uuid_text(minted.value@)
                &&& exactly_one_primary(view.identifier)
                &&& final(store).clock == old(store).clock + 2
                &&& final(store).log@.len() == old(store).log@.len() + 1
                &&& final(store).log@.drop_last() == old(store).log@
                &&& final(store).log@.last().id@ == minted.value@
                &&& final(store).log@.last().body@ == doc
                &&& final(store).log@.last().author@ == identity.user_id@
                &&& final(store).projection@.len() >= 1
                &&& final(store).projection@.last().id@ == minted.value@
                &&& final(store).projection@.last().body@ == doc
                &&& final(store).projection@.drop_last() == (if has_proj_id(
                    old(store).projection@,
                    minted.value@,
                ) {
                    old(store).projection@.remove(
                        proj_index_of(old(store).projection@, minted.value@),
                    )
                } else {
                    old(store).projection@
                })
            },
    {
        match identity.is_authorized(Action::Create, account_mutate_roles_vec()) {
            Ok(()) => (),
            Err(e) => {
                return Err(e);
            },
        }
        let ghost ins = (match &identifier {
            Some(v) => v@,
            None => Seq::<IdentifierInput>::empty(),
        });
        let mut ids: Vec<Identifier> = match identifier {
            Some(v) => supplied_identifiers_of_inputs(v),
            None => Vec::new(),
        };
        let minted = Identifier::new(IdentifierSystem::Yoda, IdentifierTier::Primary);
        ids.push(minted.clone());
        let doc = Account {
            identifier: ids,
            email,
            password,
            first_name,
            last_name,
            interests,
            transactions: (match transactions {
                Some(v) => references_of_inputs(v),
                None => Vec::new(),
            }),
            payment_method: (match payment_method {
                Some(v) => references_of_inputs(v),
                None => Vec::new(),
            }),
            address: (match address {
                Some(v) => addresses_of_inputs(v),
                None => Vec::new(),
            }),
        };
        proof {
            assert(doc@ =~= new_account_view(
                identifier,
                minted,
                email,
                password,
                first_name,
                last_name,
                interests@,
                transactions,
                payment_method,
                address,
            ));
            crate::atoms::lemma_supplied_then_minted_primary(ins, minted);
            assert(Seq::<IdentifierInput>::empty().map_values(
                |x: IdentifierInput| supplied_identifier_of_input(x),
            ) =~= Seq::<Identifier>::empty());
        }
        let doc2 = doc.clone();
        match Driver::delta(store, minted.value.as_str(), doc2.to_store(), identity) {
            Ok(()) => (),
            Err(_) => {
                // Dead branch: the id is known to be well-formed here, so
                // the driver cannot refuse it.
                proof {
                    assert(false);
                }
                return Err(Error::NotFound);
            },
        }
        match Driver::project(store, minted.value.as_str(), doc.to_store()) {
            Ok(()) => (),
            Err(_) => {
                // Dead branch: the id is known to be well-formed here, so
                // the driver cannot refuse it.
                proof {
                    assert(false);
                }
                return Err(Error::NotFound);
            },
        }
        Ok(minted)
    }

    /// Apply caller-supplied field envelopes to one account: load its
    /// current projection, append the envelope bundle to the log, fold it
    /// over the aggregate — each field honored or silently dropped by the
    /// concurrency check — and replace the projection, all together. The
    /// folded aggregate is handed back; a dropped field is not reported.
    /// The identifier collection is not among the updatable fields: the
    /// store mints it at creation and keeps it.
    pub fn update_account(
        &self,
        store: &mut StoreState<AccountStore>,
        id: &str,
        identity: &Identity,
        email: Option<Delta<String>>,
        password: Option<Delta<String>>,
        first_name: Option<Delta<String>>,
        last_name: Option<Delta<String>>,
        interests: Option<Delta<Vec<Tag>>>,
        transactions: Option<Delta<Vec<Reference>>>,
        payment_method: Option<Delta<Vec<Reference>>>,
        address: Option<Delta<Vec<Address>>>,
    ) -> (r: Result<Account, Error>)
        requires
            old(store).wf(),
            old(store).clock < u64::MAX - 1,
        ensures
            final(store).wf(),
            !crate::auth::authorized_spec(
                identity.roles@,
                Action::Mutate(id),
                account_mutate_roles(),
                identity.user_id@,
            ) ==> r is Err && (r->Err_0 matches Error::Authorization(_)) && *final(store) == *old(
                store,
            ),
            crate::auth::authorized_spec(
                identity.roles@,
                Action::Mutate(id),
                account_mutate_roles(),
                identity.user_id@,
            ) ==> {
                &&& !is_uuid_text(id@) ==> r is Err && (r->Err_0 matches Error::Validation(_))
                    && *final(store) == *old(store)
                &&& is_uuid_text(id@) && !has_proj_id(old(store).projection@, id@) ==> r
                    == Result::<Account, Error>::Err(Error::NotFound) && *final(store) == *old(
                    store,
                )
                &&& is_uuid_text(id@) && has_proj_id(old(store).projection@, id@) ==> r is Ok && {
                    let dv = (AccountStoreView {
                        identifier: None,
                        email,
                        password,
                        first_name,
                        last_name,
                        interests: vec_delta_view(interests),
                        transactions: vec_delta_view(transactions),
                        payment_method: vec_delta_view(payment_method),
                        address: vec_delta_view(address),
                    });
                    let cur = old(store).projection@[proj_index_of(
                        old(store).projection@,
                        id@,
                    )].body@;
                    let updated = apply_view(from_store_view(cur), dv);
                    &&& r->Ok_0@ == updated
                    &&& final(store).log@.len() == old(store).log@.len() + 1
                    &&& final(store).log@.drop_last() == old(store).log@
                    &&& final(store).log@.last().id@ == id@
                    &&& final(store).log@.last().body@ == dv
                    &&& final(store).log@.last().author@ == identity.user_id@
                    &&& final(store).projection@.len() >= 1
                    &&& final(store).projection@.last().id@ == id@
                    &&& final(store).projection@.last().body@ == to_store_view(updated)
                    &&& final(store).projection@.drop_last() == old(store).projection@.remove(
                        proj_index_of(old(store).projection@, id@),
                    )
                    &&& final(store).clock == old(store).clock + 2
                }
            },
    {
        match identity.is_authorized(Action::Mutate(id), account_mutate_roles_vec()) {
            Ok(()) => (),
            Err(e) => {
                return Err(e);
            },
        }
        let current_body = match Driver::query_proj(store, id) {
            Ok(b) => b.clone(),
            Err(e) => {
                return Err(e);
            },
        };
        let mut current = Account::from_store(current_body);
        let delta_doc = AccountStore {
            identifier: None,
            email,
            password,
            first_name,
            last_name,
            interests,
            transactions,
            payment_method,
            address,
        };
        let delta_copy = delta_doc.clone();
        match Driver::delta(store, id, delta_doc, identity) {
            Ok(()) => (),
            Err(_) => {
                // Dead branch: the id is known to be well-formed here, so
                // the driver cannot refuse it.
                proof {
                    assert(false);
                }
                return Err(Error::NotFound);
            },
        }
        current.apply(delta_copy);
        match Driver::project(store, id, current.clone().to_store()) {
            Ok(()) => (),
            Err(_) => {
                // Dead branch: the id is known to be well-formed here, so
                // the driver cannot refuse it.
                proof {
                    assert(false);
                }
                return Err(Error::NotFound);
            },
        }
        Ok(current)
    }
}

impl Account {
    /// The `identifier` content with its precondition token, as a reader needs
    /// it to assert this state in a later conditional mutation.
    pub fn identifier_with_hash(&self) -> (r: WithHash<Vec<Identifier>>)
        ensures
            r.value@ == self.identifier@,
            r.hash@ == token_of(self.identifier),
    {
        vec_with_hash(&self.identifier)
    }

    /// The `email` value with its precondition token, as a reader needs
    /// it to assert this state in a later conditional mutation.
    pub fn email_with_hash(&self) -> (r: WithHash<Option<String>>)
        ensures
            r.value == self.email,
            r.hash@ == opt_token_or_seed(self.email),
    {
        opt_with_hash(&self.email)
    }

    /// The `password` value with its precondition token, as a reader needs
    /// it to assert this state in a later conditional mutation.
    pub fn password_with_hash(&self) -> (r: WithHash<Option<String>>)
        ensures
            r.value == self.password,
            r.hash@ == opt_token_or_seed(self.password),
    {
        opt_with_hash(&self.password)
    }

    /// The `first_name` value with its precondition token, as a reader needs
    /// it to assert this state in a later conditional mutation.
    pub fn first_name_with_hash(&self) -> (r: WithHash<Option<String>>)
        ensures
            r.value == self.first_name,
            r.hash@ == opt_token_or_seed(self.first_name),
    {
        opt_with_hash(&self.first_name)
    }

    /// The `last_name` value with its precondition token, as a reader needs
    /// it to assert this state in a later conditional mutation.
    pub fn last_name_with_hash(&self) -> (r: WithHash<Option<String>>)
        ensures
            r.value == self.last_name,
            r.hash@ == opt_token_or_seed(self.last_name),
    {
        opt_with_hash(&self.last_name)
    }

    /// The `interests` content with its precondition token, as a reader needs
    /// it to assert this state in a later conditional mutation.
    pub fn interests_with_hash(&self) -> (r: WithHash<Vec<Tag>>)
        ensures
            r.value@ == self.interests@,
            r.hash@ == token_of(self.interests),
    {
        vec_with_hash(&self.interests)
    }

    /// The `transactions` content with its precondition token, as a reader needs
    /// it to assert this state in a later conditional mutation.
    pub fn transactions_with_hash(&self) -> (r: WithHash<Vec<Reference>>)
        ensures
            r.value@ == self.transactions@,
            r.hash@ == token_of(self.transactions),
    {
        vec_with_hash(&self.transactions)
    }

    /// The `payment_method` content with its precondition token, as a reader needs
    /// it to assert this state in a later conditional mutation.
    pub fn payment_method_with_hash(&self) -> (r: WithHash<Vec<Reference>>)
        ensures
            r.value@ == self.payment_method@,
            r.hash@ == token_of(self.payment_method),
    {
        vec_with_hash(&self.payment_method)
    }

    /// The `address` content with its precondition token, as a reader needs
    /// it to assert this state in a later conditional mutation.
    pub fn address_with_hash(&self) -> (r: WithHash<Vec<Address>>)
        ensures
            r.value@ == self.address@,
            r.hash@ == token_of(self.address),
    {
        vec_with_hash(&self.address)
    }

}

} // verus!
