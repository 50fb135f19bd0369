//! The organization entity: its aggregate, store representation, fold
//! rules, search document, and query/mutation surface.

use vstd::prelude::*;

use crate::atoms::{
    exactly_one_primary, first_primary, is_uuid_text, reference_of_input, references_of_inputs,
    supplied_identifier_of_input, supplied_identifiers_of_inputs, Identifier, IdentifierInput,
    IdentifierSystem, IdentifierTier, Reference, ReferenceInput, Tag, Timestamp,
};
use crate::auth::{Action, AuthAttribute, Identity, Role};
use crate::delta::{
    apply_array, apply_scalar, check_delta, dup_opt, dup_opt_delta, dup_opt_delta_vec, dup_vec,
    end_array, end_scalar, init_array, init_scalar, vec_delta_view, Del, Delta, Rollup, Store,
};
use crate::errors::Error;
use crate::hash::{opt_token_or_seed, opt_with_hash, token_of, vec_with_hash, ContentHash, WithHash};
use crate::pagination::{Edge, Page, PaginationOption};
use crate::search::{like_pattern, like_pattern_str, Search};
use crate::store::{has_proj_id, log_bodies_for, proj_index_of, Driver, StoreState};
use crate::text::{contains_seq, str_contains};

verus! {

/// The organization aggregate: the folded current state of one
/// organization.
#[derive(PartialEq, Eq, Debug)]
pub struct Organization {
    pub identifier: Vec<Identifier>,
    pub name: Option<String>,
    pub mission: Option<String>,
    pub description: Option<String>,
    pub established: Option<Timestamp>,
    pub tag: Vec<Tag>,
    pub ceo: Option<String>,
    pub managing_entity: Vec<Reference>,
}

/// The mathematical view of an organization aggregate.
#[verifier::ext_equal]
pub struct OrganizationView {
    pub identifier: Seq<Identifier>,
    pub name: Option<String>,
    pub mission: Option<String>,
    pub description: Option<String>,
    pub established: Option<Timestamp>,
    pub tag: Seq<Tag>,
    pub ceo: Option<String>,
    pub managing_entity: Seq<Reference>,
}

impl View for Organization {
    type V = OrganizationView;

    open spec fn view(&self) -> OrganizationView {
        OrganizationView {
            identifier: self.identifier@,
            name: self.name,
            mission: self.mission,
            description: self.description,
            established: self.established,
            tag: self.tag@,
            ceo: self.ceo,
            managing_entity: self.managing_entity@,
        }
    }
}

/// The view of the empty aggregate the fold starts from.
pub open spec fn empty_organization_view() -> OrganizationView {
    OrganizationView {
        identifier: Seq::empty(),
        name: None,
        mission: None,
        description: None,
        established: None,
        tag: Seq::empty(),
        ceo: None,
        managing_entity: Seq::empty(),
    }
}

impl Default for Organization {
    fn default() -> (r: Self)
        ensures
            r@ == empty_organization_view(),
    {
        let r = Organization {
            identifier: Vec::new(),
            name: None,
            mission: None,
            description: None,
            established: None,
            tag: Vec::new(),
            ceo: None,
            managing_entity: Vec::new(),
        };
        proof {
            assert(r@ =~= empty_organization_view());
        }
        r
    }
}

impl Clone for Organization {
    fn clone(&self) -> (r: Self)
        ensures
            r@ == self@,
    {
        let r = Organization {
            identifier: dup_vec(&self.identifier),
            name: dup_opt(&self.name),
            mission: dup_opt(&self.mission),
            description: dup_opt(&self.description),
            established: self.established,
            tag: dup_vec(&self.tag),
            ceo: dup_opt(&self.ceo),
            managing_entity: dup_vec(&self.managing_entity),
        };
        proof {
            assert(r@ =~= self@);
        }
        r
    }
}

/// The organization's store representation.
#[derive(Debug)]
pub struct OrganizationStore {
    pub identifier: Option<Delta<Vec<Identifier>>>,
    pub name: Option<Delta<String>>,
    pub mission: Option<Delta<String>>,
    pub description: Option<Delta<String>>,
    pub established: Option<Delta<Timestamp>>,
    pub tag: Option<Delta<Vec<Tag>>>,
    pub ceo: Option<Delta<String>>,
    pub managing_entity: Option<Delta<Vec<Reference>>>,
}

/// The mathematical view of an organization store representation.
#[verifier::ext_equal]
pub struct OrganizationStoreView {
    pub identifier: Option<Delta<Seq<Identifier>>>,
    pub name: Option<Delta<String>>,
    pub mission: Option<Delta<String>>,
    pub description: Option<Delta<String>>,
    pub established: Option<Delta<Timestamp>>,
    pub tag: Option<Delta<Seq<Tag>>>,
    pub ceo: Option<Delta<String>>,
    pub managing_entity: Option<Delta<Seq<Reference>>>,
}

impl View for OrganizationStore {
    type V = OrganizationStoreView;

    open spec fn view(&self) -> OrganizationStoreView {
        OrganizationStoreView {
            identifier: vec_delta_view(self.identifier),
            name: self.name,
            mission: self.mission,
            description: self.description,
            established: self.established,
            tag: vec_delta_view(self.tag),
            ceo: self.ceo,
            managing_entity: vec_delta_view(self.managing_entity),
        }
    }
}

impl Clone for OrganizationStore {
    fn clone(&self) -> (r: Self)
        ensures
            r@ == self@,
    {
        let r = OrganizationStore {
            identifier: dup_opt_delta_vec(&self.identifier),
            name: dup_opt_delta(&self.name),
            mission: dup_opt_delta(&self.mission),
            description: dup_opt_delta(&self.description),
            established: dup_opt_delta(&self.established),
            tag: dup_opt_delta_vec(&self.tag),
            ceo: dup_opt_delta(&self.ceo),
            managing_entity: dup_opt_delta_vec(&self.managing_entity),
        };
        proof {
            assert(r@ =~= self@);
        }
        r
    }
}

/// The store representation an aggregate serializes to.
pub open spec fn to_store_view(a: OrganizationView) -> OrganizationStoreView {
    OrganizationStoreView {
        identifier: init_array(a.identifier),
        name: init_scalar(a.name),
        mission: init_scalar(a.mission),
        description: init_scalar(a.description),
        established: init_scalar(a.established),
        tag: init_array(a.tag),
        ceo: init_scalar(a.ceo),
        managing_entity: init_array(a.managing_entity),
    }
}

/// The aggregate a store representation folds back to on its own.
pub open spec fn from_store_view(s: OrganizationStoreView) -> OrganizationView {
    OrganizationView {
        identifier: end_array(s.identifier),
        name: end_scalar(s.name),
        mission: end_scalar(s.mission),
        description: end_scalar(s.description),
        established: end_scalar(s.established),
        tag: end_array(s.tag),
        ceo: end_scalar(s.ceo),
        managing_entity: end_array(s.managing_entity),
    }
}

impl Organization {
    /// Serialize the aggregate into its store representation.
    pub fn to_store(self) -> (r: OrganizationStore)
        ensures
            r@ == to_store_view(self@),
    {
        let Organization {
            identifier,
            name,
            mission,
            description,
            established,
            tag,
            ceo,
            managing_entity,
        } = self;
        let r = OrganizationStore {
            identifier: Delta::init(Some(identifier)),
            name: Delta::init(name),
            mission: Delta::init(mission),
            description: Delta::init(description),
            established: Delta::init(established),
            tag: Delta::init(Some(tag)),
            ceo: Delta::init(ceo),
            managing_entity: Delta::init(Some(managing_entity)),
        };
        proof {
            assert(r@ =~= to_store_view(self@));
        }
        r
    }

    /// Deserialize a store representation back into the aggregate.
    pub fn from_store(store: OrganizationStore) -> (r: Organization)
        ensures
            r@ == from_store_view(store@),
    {
        let OrganizationStore {
            identifier,
            name,
            mission,
            description,
            established,
            tag,
            ceo,
            managing_entity,
        } = store;
        let r = Organization {
            identifier: (match identifier {
                Some(d) => match d.end {
                    Some(v) => v,
                    None => Vec::new(),
                },
                None => Vec::new(),
            }),
            name: (match name {
                Some(d) => d.end,
                None => None,
            }),
            mission: (match mission {
                Some(d) => d.end,
                None => None,
            }),
            description: (match description {
                Some(d) => d.end,
                None => None,
            }),
            established: (match established {
                Some(d) => d.end,
                None => None,
            }),
            tag: (match tag {
                Some(d) => match d.end {
                    Some(v) => v,
                    None => Vec::new(),
                },
                None => Vec::new(),
            }),
            ceo: (match ceo {
                Some(d) => d.end,
                None => None,
            }),
            managing_entity: (match managing_entity {
                Some(d) => match d.end {
                    Some(v) => v,
                    None => Vec::new(),
                },
                None => Vec::new(),
            }),
        };
        proof {
            assert(r@ =~= from_store_view(store@));
        }
        r
    }
}

impl From<Organization> for OrganizationStore {
    fn from(org: Organization) -> (r: Self) {
        org.to_store()
    }
}

/// What `from` returns is pinned down by [`Organization::to_store`] instead: the
/// exact statement lives at the view level, which `from_spec` cannot carry.
impl vstd::std_specs::convert::FromSpecImpl<Organization> for OrganizationStore {
    open spec fn obeys_from_spec() -> bool {
        false
    }

    open spec fn from_spec(org: Organization) -> Self {
        arbitrary()
    }
}

impl From<OrganizationStore> for Organization {
    fn from(store: OrganizationStore) -> (r: Self) {
        Organization::from_store(store)
    }
}

/// What `from` returns is pinned down by [`Organization::from_store`] instead: the
/// exact statement lives at the view level, which `from_spec` cannot carry.
impl vstd::std_specs::convert::FromSpecImpl<OrganizationStore> for Organization {
    open spec fn obeys_from_spec() -> bool {
        false
    }

    open spec fn from_spec(store: OrganizationStore) -> Self {
        arbitrary()
    }
}

/// The external id a store representation carries.
pub open spec fn store_identifier_view(s: OrganizationStoreView) -> Seq<char> {
    match s.identifier {
        Some(d) => match d.end {
            Some(ids) => match first_primary(ids) {
                Some(p) => p.rendered_spec(),
                None => Seq::empty(),
            },
            None => Seq::empty(),
        },
        None => Seq::empty(),
    }
}

impl Store for OrganizationStore {
    open spec fn ty_spec() -> Seq<char> {
        "Organization"@
    }

    open spec fn identifier_spec(&self) -> Seq<char> {
        store_identifier_view(self@)
    }

    fn ty() -> (r: String) {
        String::from_str("Organization")
    }

    fn identifier(&self) -> (r: String) {
        match &self.identifier {
            Some(d) => match &d.end {
                Some(ids) => match crate::atoms::find_primary(ids) {
                    Some(p) => p.to_string(),
                    None => String::new(),
                },
                None => String::new(),
            },
            None => String::new(),
        }
    }
}

/// One store representation folded over the aggregate: every field —
/// the identifier collection included — decided by the concurrency check.
#[verifier::opaque]
pub open spec fn apply_view(a: OrganizationView, d: OrganizationStoreView) -> OrganizationView {
    OrganizationView {
        identifier: apply_array(a.identifier, d.identifier),
        name: apply_scalar(a.name, d.name),
        mission: apply_scalar(a.mission, d.mission),
        description: apply_scalar(a.description, d.description),
        established: apply_scalar(a.established, d.established),
        tag: apply_array(a.tag, d.tag),
        ceo: apply_scalar(a.ceo, d.ceo),
        managing_entity: apply_array(a.managing_entity, d.managing_entity),
    }
}

impl Del<OrganizationStore> for Organization {
    open spec fn ty_spec() -> Seq<char> {
        "Organization"@
    }

    fn ty() -> (r: String) {
        String::from_str("Organization")
    }

    fn apply(&mut self, del: OrganizationStore)
        ensures
            final(self)@ == apply_view(old(self)@, del@),
    {
        let OrganizationStore {
            identifier,
            name,
            mission,
            description,
            established,
            tag,
            ceo,
            managing_entity,
        } = del;
        match identifier {
            Some(d) => if let Some(new) = check_delta(Some(&self.identifier), d) {
                self.identifier = new;
            },
            None => (),
        }
        match name {
            Some(d) => if let Some(new) = check_delta(self.name.as_ref(), d) {
                self.name = Some(new);
            },
            None => (),
        }
        match mission {
            Some(d) => if let Some(new) = check_delta(self.mission.as_ref(), d) {
                self.mission = Some(new);
            },
            None => (),
        }
        match description {
            Some(d) => if let Some(new) = check_delta(self.description.as_ref(), d) {
                self.description = Some(new);
            },
            None => (),
        }
        match established {
            Some(d) => if let Some(new) = check_delta(self.established.as_ref(), d) {
                self.established = Some(new);
            },
            None => (),
        }
        match tag {
            Some(d) => if let Some(new) = check_delta(Some(&self.tag), d) {
                self.tag = new;
            },
            None => (),
        }
        match ceo {
            Some(d) => if let Some(new) = check_delta(self.ceo.as_ref(), d) {
                self.ceo = Some(new);
            },
            None => (),
        }
        match managing_entity {
            Some(d) => if let Some(new) = check_delta(Some(&self.managing_entity), d) {
                self.managing_entity = new;
            },
            None => (),
        }
        proof {
            reveal(apply_view);
            assert((*self)@ =~= apply_view(old(self)@, del@));
        }
    }
}

/// The views of a sequence of store representations.
pub open spec fn store_views(s: Seq<OrganizationStore>) -> Seq<OrganizationStoreView> {
    s.map_values(|x: OrganizationStore| x@)
}

/// The aggregate an ordered envelope sequence folds to.
pub open spec fn rollup_view(dels: Seq<OrganizationStoreView>) -> OrganizationView
    decreases dels.len(),
{
    if dels.len() == 0 {
        empty_organization_view()
    } else {
        apply_view(rollup_view(dels.drop_last()), dels.last())
    }
}

/// Law: the fold is deterministic. Replaying one and the same ordered
/// envelope sequence always yields one and the same aggregate.
pub proof fn lemma_rollup_deterministic(a: Seq<OrganizationStoreView>, b: Seq<
    OrganizationStoreView,
>)
    requires
        a == b,
    ensures
        rollup_view(a) == rollup_view(b),
{
}

/// Law: the fold of one more envelope bundle is one application over the
/// fold of the bundles before it.
pub proof fn lemma_rollup_step(dels: Seq<OrganizationStoreView>, k: int)
    requires
        0 <= k < dels.len(),
    ensures
        rollup_view(dels.take(k + 1)) == apply_view(rollup_view(dels.take(k)), dels[k]),
{
    assert(dels.take(k + 1).drop_last() =~= dels.take(k));
    assert(dels.take(k + 1).last() == dels[k]);
}

/// Law: the fold of a creation's single envelope bundle is the created
/// aggregate itself — identifier collection included.
pub proof fn lemma_create_rollup(a: OrganizationView)
    ensures
        rollup_view(seq![to_store_view(a)]) == a,
{
    let d = to_store_view(a);
    assert(seq![d].len() == 1);
    assert(seq![d].drop_last() =~= Seq::<OrganizationStoreView>::empty());
    assert(seq![d].last() == d);
    assert(rollup_view(Seq::<OrganizationStoreView>::empty()) == empty_organization_view());
    assert(rollup_view(seq![d]) == apply_view(empty_organization_view(), d));
    assert(apply_view(empty_organization_view(), d) =~= a) by {
        reveal(apply_view);
        crate::delta::lemma_apply_array_initial(a.identifier);
        crate::delta::lemma_apply_scalar_initial(a.name);
        crate::delta::lemma_apply_scalar_initial(a.mission);
        crate::delta::lemma_apply_scalar_initial(a.description);
        crate::delta::lemma_apply_scalar_initial(a.established);
        crate::delta::lemma_apply_array_initial(a.tag);
        crate::delta::lemma_apply_scalar_initial(a.ceo);
        crate::delta::lemma_apply_array_initial(a.managing_entity);
    }
}

impl Rollup<Organization> for Vec<OrganizationStore> {
    fn rollup(self) -> (r: Organization)
        ensures
            r@ == rollup_view(store_views(self@)),
    {
        let mut dels = self;
        let ghost orig = dels@;
        let ghost views = store_views(orig);
        let mut res = Organization::default();
        let mut k: usize = 0;
        let n = dels.len();
        proof {
            assert(orig.len() == n);
            assert(views.take(0) =~= Seq::<OrganizationStoreView>::empty());
            assert(orig.skip(0) =~= orig);
        }
        while dels.len() > 0
            invariant
                views == store_views(orig),
                orig.len() <= usize::MAX,
                k + dels@.len() == orig.len(),
                dels@ == orig.skip(k as int),
                res@ == rollup_view(views.take(k as int)),
            decreases dels@.len(),
        {
            let d = dels.remove(0);
            proof {
                assert(orig.skip(k as int)[0] == orig[k as int]);
                assert(orig.skip(k as int).remove(0) =~= orig.skip(k as int + 1));
            }
            res.apply(d);
            proof {
                lemma_rollup_step(views, k as int);
                assert(views[k as int] == orig[k as int]@);
            }
            k += 1;
        }
        proof {
            assert(views.take(orig.len() as int) =~= views);
        }
        res
    }
}

/// Law: serializing an aggregate to its store representation and folding
/// it back preserves every field value exactly.
pub proof fn lemma_store_round_trip(a: OrganizationView)
    ensures
        from_store_view(to_store_view(a)) == a,
{
    assert(from_store_view(to_store_view(a)) =~= a);
}

/// Law: the external id of an aggregate's store representation is the
/// rendering of its first primary-tier identifier.
pub proof fn lemma_primary_identifier_selected(a: OrganizationView, i: int)
    requires
        0 <= i < a.identifier.len(),
        a.identifier[i].is_primary_spec(),
        forall|j: int| 0 <= j < i ==> !(#[trigger] a.identifier[j]).is_primary_spec(),
    ensures
        store_identifier_view(to_store_view(a)) == a.identifier[i].rendered_spec(),
{
    crate::atoms::lemma_first_primary_at(a.identifier, i);
}

/// The sparse filter document over the organization's searchable fields.
#[derive(Debug)]
pub struct OrganizationSearch {
    pub name: Option<String>,
}

impl Search<OrganizationStore> for OrganizationSearch {
    open spec fn ty_spec() -> Seq<char> {
        "Organization"@
    }

    open spec fn matches_spec(&self, doc: &OrganizationStore) -> bool {
        match self.name {
            Some(f) => match doc.name {
                Some(d) => match d.end {
                    Some(v) => contains_seq(v@, f@),
                    None => false,
                },
                None => false,
            },
            None => true,
        }
    }

    open spec fn array_splits_spec(&self) -> Seq<Seq<char>> {
        Seq::empty()
    }

    open spec fn paths_spec(&self) -> Seq<Seq<char>> {
        if self.name is Some {
            seq!["body -> 'name' ->> 'end' LIKE $"@]
        } else {
            Seq::empty()
        }
    }

    open spec fn bind_values_spec(&self) -> Seq<Seq<char>> {
        match self.name {
            Some(f) => seq![like_pattern(f@)],
            None => Seq::empty(),
        }
    }

    fn ty() -> (r: String) {
        String::from_str("Organization")
    }

    fn matches(&self, doc: &OrganizationStore) -> (r: bool) {
        match &self.name {
            Some(f) => match &doc.name {
                Some(d) => match &d.end {
                    Some(v) => str_contains(v.as_str(), f.as_str()),
                    None => false,
                },
                None => false,
            },
            None => true,
        }
    }

    fn array_splits(&self) -> (r: Vec<String>) {
        let r: Vec<String> = Vec::new();
        proof {
            assert(r@.map_values(|s: String| s@) =~= self.array_splits_spec());
        }
        r
    }

    fn paths(&self) -> (r: Vec<String>) {
        let mut r: Vec<String> = Vec::new();
        if self.name.is_some() {
            r.push(String::from_str("body -> 'name' ->> 'end' LIKE $"));
        }
        proof {
            assert(r@.map_values(|s: String| s@) =~= self.paths_spec());
        }
        r
    }

    fn bind_values(&self) -> (r: Vec<String>) {
        let mut r: Vec<String> = Vec::new();
        match &self.name {
            Some(f) => r.push(like_pattern_str(f.as_str())),
            None => (),
        }
        proof {
            assert(r@.map_values(|s: String| s@) =~= self.bind_values_spec());
        }
        r
    }
}

/// The roles an organization mutation is permissive toward.
pub open spec fn organization_mutate_roles() -> Seq<Role> {
    seq![Role::Admin, Role::Own]
}

/// The roles an organization query is permissive toward.
pub open spec fn organization_query_roles() -> Seq<Role> {
    seq![Role::Admin, Role::Organization, Role::User, Role::Service]
}

fn organization_mutate_roles_vec() -> (r: Vec<Role>)
    ensures
        r@ == organization_mutate_roles(),
{
    let mut v: Vec<Role> = Vec::new();
    v.push(Role::Admin);
    v.push(Role::Own);
    proof {
        assert(v@ =~= organization_mutate_roles());
    }
    v
}

fn organization_query_roles_vec() -> (r: Vec<Role>)
    ensures
        r@ == organization_query_roles(),
{
    let mut v: Vec<Role> = Vec::new();
    v.push(Role::Admin);
    v.push(Role::Organization);
    v.push(Role::User);
    v.push(Role::Service);
    proof {
        assert(v@ =~= organization_query_roles());
    }
    v
}

/// The organization's registry entry for the authorization gate.
pub fn organization_auth() -> (r: AuthAttribute)
    ensures
        r.mutate@ == organization_mutate_roles(),
        r.query@ == organization_query_roles(),
{
    AuthAttribute {
        mutate: organization_mutate_roles_vec(),
        query: organization_query_roles_vec(),
    }
}

/// The aggregate a create call builds before persisting it: the converted
/// caller-supplied identifiers — any supplied primary tier demoted, since
/// the store mints the one primary itself — with the freshly minted
/// primary at the end, and every other field taken from the inputs.
pub open spec fn new_organization_view(
    identifier: Option<Vec<IdentifierInput>>,
    minted: Identifier,
    name: Option<String>,
    mission: Option<String>,
    description: Option<String>,
    established: Option<Timestamp>,
    tag: Seq<Tag>,
    ceo: Option<String>,
    managing_entity: Option<Vec<ReferenceInput>>,
) -> OrganizationView {
    OrganizationView {
        identifier: (match identifier {
            Some(v) => v@.map_values(|x: IdentifierInput| supplied_identifier_of_input(x)),
            None => Seq::empty(),
        }).push(minted),
        name,
        mission,
        description,
        established,
        tag,
        ceo,
        managing_entity: (match managing_entity {
            Some(v) => v@.map_values(|x: ReferenceInput| reference_of_input(x)),
            None => Seq::empty(),
        }),
    }
}

/// The organization's read surface.
#[derive(Default)]
pub struct OrganizationQuery;

/// The organization's read surface, as merged into the store's query root.
#[derive(Default)]
pub struct OrgQuery(pub OrganizationQuery);

/// The organization's write surface.
#[derive(Default)]
pub struct OrganizationMutate;

/// The organization's write surface, as merged into the store's mutation
/// root.
#[derive(Default)]
pub struct OrgMutate(pub OrganizationMutate);

impl OrganizationQuery {
    /// Load the ordered envelope history of one id and fold it into the
    /// current aggregate, after consulting the authorization gate. An id
    /// with no history is not found.
    pub fn find_organization(
        &self,
        store: &StoreState<OrganizationStore>,
        id: &str,
        identity: &Identity,
    ) -> (r: Result<Organization, Error>)
        ensures
            !crate::auth::authorized_spec(
                identity.roles@,
                Action::Query,
                organization_query_roles(),
                identity.user_id@,
            ) ==> r is Err && (r->Err_0 matches Error::Authorization(_)),
            crate::auth::authorized_spec(
                identity.roles@,
                Action::Query,
                organization_query_roles(),
                identity.user_id@,
            ) ==> (match r {
                Ok(a) => is_uuid_text(id@) && log_bodies_for(store.log@, id@).len() > 0 && a@
                    == rollup_view(store_views(log_bodies_for(store.log@, id@))),
                Err(e) => (!is_uuid_text(id@) && (e matches Error::Validation(_))) || (is_uuid_text(
                    id@,
                ) && log_bodies_for(store.log@, id@).len() == 0 && e == Error::NotFound),
            }),
    {
        match identity.is_authorized(Action::Query, organization_query_roles_vec()) {
            Ok(()) => (),
            Err(e) => {
                return Err(e);
            },
        }
        let refs = match Driver::query(store, id) {
            Ok(v) => v,
            Err(e) => {
                return Err(e);
            },
        };
        let ghost bodies = log_bodies_for(store.log@, id@);
        if refs.len() == 0 {
            proof {
                assert(refs@.map_values(|x: &OrganizationStore| *x).len() == 0);
            }
            return Err(Error::NotFound);
        }
        let mut dels: Vec<OrganizationStore> = Vec::new();
        let mut i: usize = 0;
        proof {
            assert(refs@.map_values(|x: &OrganizationStore| *x) == bodies);
            assert(store_views(dels@) =~= store_views(bodies).take(0));
        }
        while i < refs.len()
            invariant
                refs@.map_values(|x: &OrganizationStore| *x) == bodies,
                i <= refs@.len(),
                store_views(dels@) == store_views(bodies).take(i as int),
            decreases refs@.len() - i,
        {
            let d = refs[i].clone();
            proof {
                assert(refs@.map_values(|x: &OrganizationStore| *x)[i as int] == *refs@[i as int]);
                assert(d@ == bodies[i as int]@);
                assert(store_views(bodies)[i as int] == bodies[i as int]@);
            }
            let ghost pre = dels@;
            dels.push(d);
            proof {
                assert(store_views(pre).len() == i as int);
                assert(pre.len() == i as int);
                assert(dels@ == pre.push(d));
                assert forall|j: int|
                    0 <= j < i as int + 1 implies store_views(dels@)[j] == store_views(
                    bodies,
                ).take(i as int + 1)[j] by {
                    if j < i as int {
                        assert(store_views(pre)[j] == store_views(bodies).take(i as int)[j]);
                        assert(dels@[j] == pre[j]);
                    } else {
                        assert(dels@[j] == d);
                    }
                }
                assert(store_views(dels@) =~= store_views(bodies).take(i as int + 1));
            }
            i += 1;
        }
        proof {
            assert(store_views(bodies).take(store_views(bodies).len() as int) =~= store_views(
                bodies,
            ));
            assert(store_views(dels@) == store_views(bodies));
        }
        let acc = dels.rollup();
        Ok(acc)
    }

    /// Search the projected organizations whose stored name contains the
    /// given text, paginated by cursor and limit, ordered by
    /// `last_updated` ascending. A window past the result count yields an
    /// empty page.
    pub fn search_organization(
        &self,
        store: &StoreState<OrganizationStore>,
        name: Option<String>,
        cursor: Option<String>,
        limit: Option<usize>,
        identity: &Identity,
    ) -> (r: Result<Page<Organization>, Error>)
        requires
            store.wf(),
        ensures
            !crate::auth::authorized_spec(
                identity.roles@,
                Action::All,
                organization_query_roles(),
                identity.user_id@,
            ) ==> r is Err && (r->Err_0 matches Error::Authorization(_)),
            crate::auth::authorized_spec(
                identity.roles@,
                Action::All,
                organization_query_roles(),
                identity.user_id@,
            ) ==> {
                &&& (r is Ok <==> crate::pagination::cursor_valid(cursor))
                &&& r is Err ==> (r->Err_0 matches Error::Validation(_))
                &&& r is Ok ==> {
                    let pg = (PaginationOption {
                        skip: crate::pagination::resolved_skip(cursor) as usize,
                        limit: crate::pagination::resolved_limit(limit) as usize,
                    });
                    let page = crate::store::page_of(
                        crate::store::matching_bodies(
                            store.projection@,
                            (OrganizationSearch { name }),
                        ),
                        pg,
                    );
                    &&& r->Ok_0.has_previous_page == (crate::pagination::resolved_skip(cursor)
                        > 0)
                    &&& r->Ok_0.has_next_page
                    &&& r->Ok_0.edges@.len() == page.len()
                    &&& (forall|k: int|
                        0 <= k < page.len() ==> (#[trigger] r->Ok_0.edges@[k]).cursor
                            == crate::pagination::resolved_skip(cursor) + k
                            && r->Ok_0.edges@[k].node@ == from_store_view(page[k]@))
                }
            },
    {
        match identity.is_authorized(Action::All, organization_query_roles_vec()) {
            Ok(()) => (),
            Err(e) => {
                return Err(e);
            },
        }
        let skip: usize = match &cursor {
            Some(c) => match crate::text::parse_dec(c.as_str()) {
                Some(v) => v,
                None => {
                    return Err(
                        Error::Validation(String::from_str("cursor must be a decimal number")),
                    );
                },
            },
            None => 0,
        };
        let lim: usize = match limit {
            Some(l) => l,
            None => 100,
        };
        let pagination = PaginationOption { skip, limit: lim };
        let doc = OrganizationSearch { name };
        let found = Driver::search(store, &doc, pagination);
        let ghost all = crate::store::matching_bodies(store.projection@, doc);
        let ghost page = crate::store::page_of(all, pagination);
        proof {
            crate::store::lemma_matching_len(store.projection@, doc);
            assert(found@.map_values(|x: &OrganizationStore| *x) == page);
        }
        let n_rows = store.projection.len();
        let mut edges: Vec<Edge<Organization>> = Vec::new();
        let mut i: usize = 0;
        while i < found.len()
            invariant
                found@.map_values(|x: &OrganizationStore| *x) == page,
                page == crate::store::page_of(all, pagination),
                all.len() <= store.projection@.len(),
                store.projection@.len() == n_rows,
                page.len() > 0 ==> all.len() > pagination.skip,
                skip == pagination.skip,
                i <= found@.len(),
                edges@.len() == i,
                forall|k: int|
                    0 <= k < i ==> (#[trigger] edges@[k]).cursor == pagination.skip + k
                        && edges@[k].node@ == from_store_view(page[k]@),
            decreases found@.len() - i,
        {
            proof {
                assert(page.len() <= all.len() - pagination.skip);
                assert(pagination.skip + i < all.len());
            }
            let d = found[i].clone();
            proof {
                assert(found@.map_values(|x: &OrganizationStore| *x)[i as int] == *found@[i as int]);
                assert(d@ == page[i as int]@);
            }
            let node = Organization::from_store(d);
            edges.push(Edge { cursor: skip + i, node });
            i += 1;
        }
        Ok(Page { has_previous_page: skip > 0, has_next_page: true, edges })
    }
}

impl OrganizationMutate {
    /// Create a new organization: convert the caller-supplied parts, mint
    /// a fresh primary identifier, and persist the new aggregate — one log
    /// append and one projection upsert, together.
    pub fn new_organization(
        &self,
        store: &mut StoreState<OrganizationStore>,
        identity: &Identity,
        identifier: Option<Vec<IdentifierInput>>,
        name: Option<String>,
        mission: Option<String>,
        description: Option<String>,
        established: Option<Timestamp>,
        tag: Vec<Tag>,
        ceo: Option<String>,
        managing_entity: Option<Vec<ReferenceInput>>,
    ) -> (r: Result<Identifier, Error>)
        requires
            old(store).wf(),
            old(store).clock < u64::MAX - 1,
        ensures
            final(store).wf(),
            !crate::auth::authorized_spec(
                identity.roles@,
                Action::Create,
                organization_mutate_roles(),
                identity.user_id@,
            ) ==> r is Err && (r->Err_0 matches Error::Authorization(_)) && *final(store) == *old(
                store,
            ),
            crate::auth::authorized_spec(
                identity.roles@,
                Action::Create,
                organization_mutate_roles(),
                identity.user_id@,
            ) ==> r is Ok && {
                let minted = r->Ok_0;
                let view = new_organization_view(
                    identifier,
                    minted,
                    name,
                    mission,
                    description,
                    established,
                    tag@,
                    ceo,
                    managing_entity,
                );
                let doc = to_store_view(view);
                &&& minted.system == IdentifierSystem::Yoda
                &&& minted.tier == IdentifierTier::Primary
                &&& is_uuid_text(minted.value@)
                &&& exactly_one_primary(view.identifier)
                &&& final(store).clock == old(store).clock + 2
                &&& final(store).log@.len() == old(store).log@.len() + 1
                &&& final(store).log@.drop_last() == old(store).log@
                &&& final(store).log@.last().id@ == minted.value@
                &&& final(store).log@.last().body@ == doc
                &&& final(store).log@.last().author@ == identity.user_id@
                &&& final(store).projection@.len() >= 1
                &&& final(store).projection@.last().id@ == minted.value@
                &&& final(store).projection@.last().body@ == doc
                &&& final(store).projection@.drop_last() == (if has_proj_id(
                    old(store).projection@,
                    minted.value@,
                ) {
                    old(store).projection@.remove(
                        proj_index_of(old(store).projection@, minted.value@),
                    )
                } else {
                    old(store).projection@
                })
            },
    {
        match identity.is_authorized(Action::Create, organization_mutate_roles_vec()) {
            Ok(()) => (),
            Err(e) => {
                return Err(e);
            },
        }
        let ghost ins = (match &identifier {
            Some(v) => v@,
            None => Seq::<IdentifierInput>::empty(),
        });
        let mut ids: Vec<Identifier> = match identifier {
            Some(v) => supplied_identifiers_of_inputs(v),
            None => Vec::new(),
        };
        let minted = Identifier::new(IdentifierSystem::Yoda, IdentifierTier::Primary);
        ids.push(minted.clone());
        let doc = Organization {
            identifier: ids,
            name,
            mission,
            description,
            established,
            tag,
            ceo,
            managing_entity: (match managing_entity {
                Some(v) => references_of_inputs(v),
                None => Vec::new(),
            }),
        };
        proof {
            assert(doc@ =~= new_organization_view(
                identifier,
                minted,
                name,
                mission,
                description,
                established,
                tag@,
                ceo,
                managing_entity,
            ));
            crate::atoms::lemma_supplied_then_minted_primary(ins, minted);
            assert(Seq::<IdentifierInput>::empty().map_values(
                |x: IdentifierInput| supplied_identifier_of_input(x),
            ) =~= Seq::<Identifier>::empty());
        }
        let doc2 = doc.clone();
        match Driver::delta(store, minted.value.as_str(), doc2.to_store(), identity) {
            Ok(()) => (),
            Err(_) => {
                // Dead branch: the id is known to be well-formed here, so
                // the driver cannot refuse it.
                proof {
                    assert(false);
                }
                return Err(Error::NotFound);
            },
        }
        match Driver::project(store, minted.value.as_str(), doc.to_store()) {
            Ok(()) => (),
            Err(_) => {
                // Dead branch: the id is known to be well-formed here, so
                // the driver cannot refuse it.
                proof {
                    assert(false);
                }
                return Err(Error::NotFound);
            },
        }
        Ok(minted)
    }

    /// Apply caller-supplied field envelopes to one organization: load its
    /// current projection, append the envelope bundle to the log, fold it
    /// over the aggregate — each field honored or silently dropped by the
    /// concurrency check — and replace the projection, all together. The
    /// folded aggregate is handed back; a dropped field is not reported.
    /// The identifier collection is not among the updatable fields: the
    /// store mints it at creation and keeps it.
    pub fn update_organization(
        &self,
        store: &mut StoreState<OrganizationStore>,
        id: &str,
        identity: &Identity,
        name: Option<Delta<String>>,
        mission: Option<Delta<String>>,
        description: Option<Delta<String>>,
        established: Option<Delta<Timestamp>>,
        tag: Option<Delta<Vec<Tag>>>,
        ceo: Option<Delta<String>>,
        managing_entity: Option<Delta<Vec<Reference>>>,
    ) -> (r: Result<Organization, Error>)
        requires
            old(store).wf(),
            old(store).clock < u64::MAX - 1,
        ensures
            final(store).wf(),
            !crate::auth::authorized_spec(
                identity.roles@,
                Action::Mutate(id),
                organization_mutate_roles(),
                identity.user_id@,
            ) ==> r is Err && (r->Err_0 matches Error::Authorization(_)) && *final(store) == *old(
                store,
            ),
            crate::auth::authorized_spec(
                identity.roles@,
                Action::Mutate(id),
                organization_mutate_roles(),
                identity.user_id@,
            ) ==> {
                &&& !is_uuid_text(id@) ==> r is Err && (r->Err_0 matches Error::Validation(_))
                    && *final(store) == *old(store)
                &&& is_uuid_text(id@) && !has_proj_id(old(store).projection@, id@) ==> r
                    == Result::<Organization, Error>::Err(Error::NotFound) && *final(store)
                    == *old(store)
                &&& is_uuid_text(id@) && has_proj_id(old(store).projection@, id@) ==> r is Ok && {
                    let dv = (OrganizationStoreView {
                        identifier: None,
                        name,
                        mission,
                        description,
                        established,
                        tag: vec_delta_view(tag),
                        ceo,
                        managing_entity: vec_delta_view(managing_entity),
                    });
                    let cur = old(store).projection@[proj_index_of(
                        old(store).projection@,
                        id@,
                    )].body@;
                    let updated = apply_view(from_store_view(cur), dv);
                    &&& r->Ok_0@ == updated
                    &&& final(store).log@.len() == old(store).log@.len() + 1
                    &&& final(store).log@.drop_last() == old(store).log@
                    &&& final(store).log@.last().id@ == id@
                    &&& final(store).log@.last().body@ == dv
                    &&& final(store).log@.last().author@ == identity.user_id@
                    &&& final(store).projection@.len() >= 1
                    &&& final(store).projection@.last().id@ == id@
                    &&& final(store).projection@.last().body@ == to_store_view(updated)
                    &&& final(store).projection@.drop_last() == old(store).projection@.remove(
                        proj_index_of(old(store).projection@, id@),
                    )
                    &&& final(store).clock == old(store).clock + 2
                }
            },
    {
        match identity.is_authorized(Action::Mutate(id), organization_mutate_roles_vec()) {
            Ok(()) => (),
            Err(e) => {
                return Err(e);
            },
        }
        let current_body = match Driver::query_proj(store, id) {
            Ok(b) => b.clone(),
            Err(e) => {
                return Err(e);
            },
        };
        let mut current = Organization::from_store(current_body);
        let delta_doc = OrganizationStore {
            identifier: None,
            name,
            mission,
            description,
            established,
            tag,
            ceo,
            managing_entity,
        };
        let delta_copy = delta_doc.clone();
        match Driver::delta(store, id, delta_doc, identity) {
            Ok(()) => (),
            Err(_) => {
                // Dead branch: the id is known to be well-formed here, so
                // the driver cannot refuse it.
                proof {
                    assert(false);
                }
                return Err(Error::NotFound);
            },
        }
        current.apply(delta_copy);
        match Driver::project(store, id, current.clone().to_store()) {
            Ok(()) => (),
            Err(_) => {
                // Dead branch: the id is known to be well-formed here, so
                // the driver cannot refuse it.
                proof {
                    assert(false);
                }
                return Err(Error::NotFound);
            },
        }
        Ok(current)
    }
}

impl Organization {
    /// The `identifier` content with its precondition token, as a reader needs
    /// it to assert this state in a later conditional mutation.
    pub fn identifier_with_hash(&self) -> (r: WithHash<Vec<Identifier>>)
        ensures
            r.value@ == self.identifier@,
            r.hash@ == token_of(self.identifier),
    {
        vec_with_hash(&self.identifier)
    }

    /// The `name` value with its precondition token, as a reader needs
    /// it to assert this state in a later conditional mutation.
    pub fn name_with_hash(&self) -> (r: WithHash<Option<String>>)
        ensures
            r.value == self.name,
            r.hash@ == opt_token_or_seed(self.name),
    {
        opt_with_hash(&self.name)
    }

    /// The `mission` value with its precondition token, as a reader needs
    /// it to assert this state in a later conditional mutation.
    pub fn mission_with_hash(&self) -> (r: WithHash<Option<String>>)
        ensures
            r.value == self.mission,
            r.hash@ == opt_token_or_seed(self.mission),
    {
        opt_with_hash(&self.mission)
    }

    /// The `description` value with its precondition token, as a reader needs
    /// it to assert this state in a later conditional mutation.
    pub fn description_with_hash(&self) -> (r: WithHash<Option<String>>)
        ensures
            r.value == self.description,
            r.hash@ == opt_token_or_seed(self.description),
    {
        opt_with_hash(&self.description)
    }

    /// The `established` value with its precondition token, as a reader needs
    /// it to assert this state in a later conditional mutation.
    pub fn established_with_hash(&self) -> (r: WithHash<Option<Timestamp>>)
        ensures
            r.value == self.established,
            r.hash@ == opt_token_or_seed(self.established),
    {
        opt_with_hash(&self.established)
    }

    /// The `tag` content with its precondition token, as a reader needs
    /// it to assert this state in a later conditional mutation.
    pub fn tag_with_hash(&self) -> (r: WithHash<Vec<Tag>>)
        ensures
            r.value@ == self.tag@,
            r.hash@ == token_of(self.tag),
    {
        vec_with_hash(&self.tag)
    }

    /// The `ceo` value with its precondition token, as a reader needs
    /// it to assert this state in a later conditional mutation.
    pub fn ceo_with_hash(&self) -> (r: WithHash<Option<String>>)
        ensures
            r.value == self.ceo,
            r.hash@ == opt_token_or_seed(self.ceo),
    {
        opt_with_hash(&self.ceo)
    }

    /// The `managing_entity` content with its precondition token, as a reader needs
    /// it to assert this state in a later conditional mutation.
    pub fn managing_entity_with_hash(&self) -> (r: WithHash<Vec<Reference>>)
        ensures
            r.value@ == self.managing_entity@,
            r.hash@ == token_of(self.managing_entity),
    {
        vec_with_hash(&self.managing_entity)
    }

}

} // verus!
