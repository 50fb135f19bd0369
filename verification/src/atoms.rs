//! The shared atoms of every entity: identifiers, references, tags, and the
//! timestamp stand-in.

use vstd::prelude::*;

use crate::hash::ContentHash;

verus! {

/// How strongly an identifier binds to its entity: exactly one identifier
/// of an entity has the `Primary` tier and serves as its external id.
#[derive(Clone, Copy, PartialEq, Eq, Structural, Debug)]
pub enum IdentifierTier {
    Primary,
    Secondary,
    Other,
}

/// The naming authority an identifier value comes from.
#[derive(Clone, Copy, PartialEq, Eq, Structural, Debug)]
pub enum IdentifierSystem {
    Yoda,
    Other,
    Stripe,
}

/// One name of an entity: a value issued by a system, at some tier.
#[derive(PartialEq, Eq, Debug)]
pub struct Identifier {
    pub value: String,
    pub system: IdentifierSystem,
    pub tier: IdentifierTier,
}

impl Clone for Identifier {
    fn clone(&self) -> (r: Self)
        ensures
            r == *self,
    {
        Identifier { value: self.value.clone(), system: self.system, tier: self.tier }
    }
}

/// The name of an identifier system, as rendered into an external id.
pub open spec fn system_name(s: IdentifierSystem) -> Seq<char> {
    match s {
        IdentifierSystem::Yoda => "Yoda"@,
        IdentifierSystem::Other => "Other"@,
        IdentifierSystem::Stripe => "Stripe"@,
    }
}

fn system_str(s: IdentifierSystem) -> (r: &'static str)
    ensures
        r@ == system_name(s),
{
    match s {
        IdentifierSystem::Yoda => "Yoda",
        IdentifierSystem::Other => "Other",
        IdentifierSystem::Stripe => "Stripe",
    }
}

/// A lowercase hexadecimal digit.
pub open spec fn is_lower_hex(c: char) -> bool {
    ('0' <= c && c <= '9') || ('a' <= c && c <= 'f')
}

/// The hyphenated textual form of a UUID: 36 characters, hyphens at offsets
/// 8, 13, 18 and 23, lowercase hexadecimal digits elsewhere.
pub open spec fn is_uuid_text(s: Seq<char>) -> bool {
    &&& s.len() == 36
    &&& forall|i: int|
        0 <= i < 36 ==> (if i == 8 || i == 13 || i == 18 || i == 23 {
            #[trigger] s[i] == '-'
        } else {
            is_lower_hex(s[i])
        })
}

/// Relies on `uuid::Uuid::new_v4` and the `Display` rendering of `uuid::Uuid`:
/// a fresh random UUID, rendered in the hyphenated lowercase form. The value
/// is random, so nothing beyond its shape is stated. `new_v4` aborts the
/// process if the operating system's randomness source fails — an
/// environmental condition, not one any input could rule out.
#[verifier::external_body]
fn fresh_uuid_string() -> (r: String)
    ensures
        is_uuid_text(r@),
{
    uuid::Uuid::new_v4().to_string()
}

impl Identifier {
    /// Whether this identifier is the entity's primary one.
    pub open spec fn is_primary_spec(&self) -> bool {
        self.tier is Primary
    }

    /// Whether this identifier is the entity's primary one.
    pub fn is_primary(&self) -> (r: bool)
        ensures
            r == self.is_primary_spec(),
    {
        matches!(self.tier, IdentifierTier::Primary)
    }

    /// Mint a fresh identifier: a newly drawn UUID value under the given
    /// system and tier.
    pub fn new(system: IdentifierSystem, tier: IdentifierTier) -> (r: Self)
        ensures
            r.system == system,
            r.tier == tier,
            is_uuid_text(r.value@),
    {
        Identifier { system, tier, value: fresh_uuid_string() }
    }

    /// The rendering of an identifier as an external id: `system/value`.
    pub open spec fn rendered_spec(&self) -> Seq<char> {
        system_name(self.system) + "/"@ + self.value@
    }

    /// Render the identifier as `system/value`.
    pub fn to_string(&self) -> (r: String)
        ensures
            r@ == self.rendered_spec(),
    {
        let mut r = String::from_str(system_str(self.system));
        r.append("/");
        r.append(self.value.as_str());
        r
    }
}

/// The raw parts of an identifier, as supplied by a caller.
#[derive(Debug)]
pub struct IdentifierInput {
    pub value: String,
    pub system: IdentifierSystem,
    pub tier: IdentifierTier,
}

/// The identifier a caller-supplied input denotes: the value and tier are
/// taken as given, and every system other than `Yoda` collapses to `Other`.
pub open spec fn identifier_of_input(input: IdentifierInput) -> Identifier {
    Identifier {
        system: match input.system {
            IdentifierSystem::Yoda => IdentifierSystem::Yoda,
            _ => IdentifierSystem::Other,
        },
        value: input.value,
        tier: input.tier,
    }
}

impl From<IdentifierInput> for Identifier {
    fn from(input: IdentifierInput) -> (r: Self) {
        Identifier {
            system: match input.system {
                IdentifierSystem::Yoda => IdentifierSystem::Yoda,
                _ => IdentifierSystem::Other,
            },
            value: input.value,
            tier: input.tier,
        }
    }
}

impl vstd::std_specs::convert::FromSpecImpl<IdentifierInput> for Identifier {
    open spec fn obeys_from_spec() -> bool {
        true
    }

    open spec fn from_spec(input: IdentifierInput) -> Self {
        identifier_of_input(input)
    }
}

/// A value whose duplicate is provably equal to the original. String-leaf
/// values enjoy full equality under duplication, which the fold and store
/// contracts lean on when a value is kept and re-persisted.
pub trait DupValue: Sized {
    /// Duplicate the value.
    fn dup(&self) -> (r: Self)
        ensures
            r == *self,
    ;
}

impl DupValue for String {
    fn dup(&self) -> (r: Self) {
        self.clone()
    }
}

impl DupValue for u32 {
    fn dup(&self) -> (r: Self) {
        *self
    }
}

impl DupValue for bool {
    fn dup(&self) -> (r: Self) {
        *self
    }
}

impl DupValue for Timestamp {
    fn dup(&self) -> (r: Self) {
        *self
    }
}

impl DupValue for Tag {
    fn dup(&self) -> (r: Self) {
        *self
    }
}

impl DupValue for Identifier {
    fn dup(&self) -> (r: Self) {
        self.clone()
    }
}

impl DupValue for Reference {
    fn dup(&self) -> (r: Self) {
        self.clone()
    }
}

/// The first primary-tier identifier of a collection, if any: the one that
/// serves as the entity's external id.
pub open spec fn first_primary(ids: Seq<Identifier>) -> Option<Identifier>
    decreases ids.len(),
{
    if ids.len() == 0 {
        None
    } else if ids.first().is_primary_spec() {
        Some(ids.first())
    } else {
        first_primary(ids.drop_first())
    }
}

/// Law: when the identifiers before position `i` are all non-primary and
/// the one at `i` is primary, that one is selected, however many primary
/// identifiers follow it.
pub proof fn lemma_first_primary_at(ids: Seq<Identifier>, i: int)
    requires
        0 <= i < ids.len(),
        ids[i].is_primary_spec(),
        forall|j: int| 0 <= j < i ==> !(#[trigger] ids[j]).is_primary_spec(),
    ensures
        first_primary(ids) == Some(ids[i]),
    decreases i,
{
    if i == 0 {
    } else {
        assert(!ids.first().is_primary_spec());
        assert(ids.drop_first()[i - 1] == ids[i]);
        assert(forall|j: int|
            0 <= j < i - 1 ==> !(#[trigger] ids.drop_first()[j]).is_primary_spec());
        lemma_first_primary_at(ids.drop_first(), i - 1);
    }
}

/// Find the first primary-tier identifier of a collection.
pub fn find_primary(ids: &Vec<Identifier>) -> (r: Option<&Identifier>)
    ensures
        (match r {
            Some(p) => first_primary(ids@) == Some(*p),
            None => first_primary(ids@) is None,
        }),
{
    let mut i: usize = 0;
    proof {
        assert(ids@.skip(0) =~= ids@);
    }
    while i < ids.len()
        invariant
            i <= ids@.len(),
            first_primary(ids@) == first_primary(ids@.skip(i as int)),
        decreases ids@.len() - i,
    {
        if ids[i].is_primary() {
            proof {
                assert(ids@.skip(i as int).first() == ids@[i as int]);
            }
            return Some(&ids[i]);
        }
        proof {
            assert(ids@.skip(i as int).first() == ids@[i as int]);
            assert(ids@.skip(i as int).drop_first() =~= ids@.skip(i as int + 1));
        }
        i += 1;
    }
    proof {
        assert(ids@.skip(ids@.len() as int) =~= Seq::<Identifier>::empty());
    }
    None
}

/// A topical tag an account can declare interest in.
#[derive(Clone, Copy, PartialEq, Eq, Structural, Debug)]
pub enum Tag {
    Religious,
    Education,
    Politics,
}

/// The kind of entity a reference points at.
#[derive(Clone, Copy, PartialEq, Eq, Structural, Debug)]
pub enum ReferenceType {
    StripeTransaction,
    StripePaymentMethod,
    User,
    Organization,
}

/// A typed foreign pointer to another entity, by one of its identifiers.
#[derive(PartialEq, Eq, Debug)]
pub struct Reference {
    pub ty: ReferenceType,
    pub value: Identifier,
}

impl Clone for Reference {
    fn clone(&self) -> (r: Self)
        ensures
            r == *self,
    {
        Reference { ty: self.ty, value: self.value.clone() }
    }
}

/// The raw parts of a reference, as supplied by a caller.
#[derive(Debug)]
pub struct ReferenceInput {
    pub ty: ReferenceType,
    pub value: IdentifierInput,
}

/// The reference a caller-supplied input denotes.
pub open spec fn reference_of_input(input: ReferenceInput) -> Reference {
    Reference { ty: input.ty, value: identifier_of_input(input.value) }
}

impl From<ReferenceInput> for Reference {
    fn from(input: ReferenceInput) -> (r: Self) {
        Reference { ty: input.ty, value: Identifier::from(input.value) }
    }
}

impl vstd::std_specs::convert::FromSpecImpl<ReferenceInput> for Reference {
    open spec fn obeys_from_spec() -> bool {
        true
    }

    open spec fn from_spec(input: ReferenceInput) -> Self {
        reference_of_input(input)
    }
}

/// A point in time, as whole seconds since the epoch: the library's
/// stand-in for an outside date-time type.
#[derive(Clone, Copy, PartialEq, Eq, Structural, Debug)]
pub struct Timestamp {
    pub seconds: u64,
}

impl ContentHash for Timestamp {
    open spec fn tokens(&self) -> Seq<u64> {
        seq![self.seconds]
    }

    fn append_tokens(&self, out: &mut Vec<u64>) {
        out.push(self.seconds);
        proof {
            assert(out@ =~= old(out)@ + self.tokens());
        }
    }
}

/// The hash token of an identifier tier.
pub open spec fn tier_token(t: IdentifierTier) -> u64 {
    match t {
        IdentifierTier::Primary => 1,
        IdentifierTier::Secondary => 2,
        IdentifierTier::Other => 3,
    }
}

/// The hash token of an identifier system.
pub open spec fn system_token(s: IdentifierSystem) -> u64 {
    match s {
        IdentifierSystem::Yoda => 1,
        IdentifierSystem::Other => 2,
        IdentifierSystem::Stripe => 3,
    }
}

/// The hash token of a tag.
pub open spec fn tag_token(t: Tag) -> u64 {
    match t {
        Tag::Religious => 1,
        Tag::Education => 2,
        Tag::Politics => 3,
    }
}

/// The hash token of a reference type.
pub open spec fn reference_type_token(t: ReferenceType) -> u64 {
    match t {
        ReferenceType::StripeTransaction => 1,
        ReferenceType::StripePaymentMethod => 2,
        ReferenceType::User => 3,
        ReferenceType::Organization => 4,
    }
}

impl ContentHash for Tag {
    open spec fn tokens(&self) -> Seq<u64> {
        seq![tag_token(*self)]
    }

    fn append_tokens(&self, out: &mut Vec<u64>) {
        let t: u64 = match self {
            Tag::Religious => 1,
            Tag::Education => 2,
            Tag::Politics => 3,
        };
        out.push(t);
        proof {
            assert(out@ =~= old(out)@ + self.tokens());
        }
    }
}

impl ContentHash for Identifier {
    open spec fn tokens(&self) -> Seq<u64> {
        self.value.tokens() + seq![system_token(self.system), tier_token(self.tier)]
    }

    fn append_tokens(&self, out: &mut Vec<u64>) {
        self.value.append_tokens(out);
        let s: u64 = match self.system {
            IdentifierSystem::Yoda => 1,
            IdentifierSystem::Other => 2,
            IdentifierSystem::Stripe => 3,
        };
        out.push(s);
        let t: u64 = match self.tier {
            IdentifierTier::Primary => 1,
            IdentifierTier::Secondary => 2,
            IdentifierTier::Other => 3,
        };
        out.push(t);
        proof {
            assert(out@ =~= old(out)@ + self.tokens());
        }
    }
}

impl ContentHash for Reference {
    open spec fn tokens(&self) -> Seq<u64> {
        seq![reference_type_token(self.ty)] + self.value.tokens()
    }

    fn append_tokens(&self, out: &mut Vec<u64>) {
        let t: u64 = match self.ty {
            ReferenceType::StripeTransaction => 1,
            ReferenceType::StripePaymentMethod => 2,
            ReferenceType::User => 3,
            ReferenceType::Organization => 4,
        };
        out.push(t);
        self.value.append_tokens(out);
        proof {
            assert(out@ =~= old(out)@ + self.tokens());
        }
    }
}

/// The identifier a caller-supplied input denotes at creation time. The
/// store mints the one primary identifier itself, so a supplied input
/// never arrives primary: a `Primary` tier is demoted to `Secondary`, and
/// the value and system are converted as usual.
pub open spec fn supplied_identifier_of_input(input: IdentifierInput) -> Identifier {
    Identifier {
        tier: (match identifier_of_input(input).tier {
            IdentifierTier::Primary => IdentifierTier::Secondary,
            t => t,
        }),
        ..identifier_of_input(input)
    }
}

fn supplied_identifier(input: IdentifierInput) -> (r: Identifier)
    ensures
        r == supplied_identifier_of_input(input),
{
    let converted = Identifier::from(input);
    Identifier {
        tier: (match converted.tier {
            IdentifierTier::Primary => IdentifierTier::Secondary,
            t => t,
        }),
        ..converted
    }
}

/// Convert the identifiers supplied to a create call, primary tiers
/// demoted.
pub fn supplied_identifiers_of_inputs(v: Vec<IdentifierInput>) -> (r: Vec<Identifier>)
    ensures
        r@ == v@.map_values(|x: IdentifierInput| supplied_identifier_of_input(x)),
{
    let mut inputs = v;
    let ghost orig = inputs@;
    let mut r: Vec<Identifier> = Vec::new();
    let mut k: usize = 0;
    let n = inputs.len();
    proof {
        assert(orig.len() == n);
        assert(orig.skip(0) =~= orig);
        assert(r@ =~= orig.take(0).map_values(
            |x: IdentifierInput| supplied_identifier_of_input(x),
        ));
    }
    while inputs.len() > 0
        invariant
            orig.len() <= usize::MAX,
            k + inputs@.len() == orig.len(),
            inputs@ == orig.skip(k as int),
            r@ == orig.take(k as int).map_values(
                |x: IdentifierInput| supplied_identifier_of_input(x),
            ),
        decreases inputs@.len(),
    {
        let x = inputs.remove(0);
        proof {
            assert(orig.skip(k as int)[0] == orig[k as int]);
            assert(orig.skip(k as int).remove(0) =~= orig.skip(k as int + 1));
        }
        r.push(supplied_identifier(x));
        proof {
            assert(r@ =~= orig.take(k as int + 1).map_values(
                |x: IdentifierInput| supplied_identifier_of_input(x),
            ));
        }
        k += 1;
    }
    proof {
        assert(orig.take(orig.len() as int) =~= orig);
    }
    r
}

/// The entity invariant on a collection of identifiers: it is non-empty
/// and exactly one of its members carries the `Primary` tier.
pub open spec fn exactly_one_primary(ids: Seq<Identifier>) -> bool {
    &&& ids.len() > 0
    &&& (exists|i: int| 0 <= i < ids.len() && (#[trigger] ids[i]).is_primary_spec())
    &&& (forall|i: int, j: int|
        #![trigger ids[i].is_primary_spec(), ids[j].is_primary_spec()]
        0 <= i < ids.len() && 0 <= j < ids.len() && ids[i].is_primary_spec()
            && ids[j].is_primary_spec() ==> i == j)
}

/// Law: demoted caller-supplied identifiers followed by one minted primary
/// hold exactly one primary-tier identifier — the minted one.
pub proof fn lemma_supplied_then_minted_primary(inputs: Seq<IdentifierInput>, minted: Identifier)
    requires
        minted.is_primary_spec(),
    ensures
        exactly_one_primary(
            inputs.map_values(|x: IdentifierInput| supplied_identifier_of_input(x)).push(minted),
        ),
{
    let mapped = inputs.map_values(|x: IdentifierInput| supplied_identifier_of_input(x));
    let ids = mapped.push(minted);
    assert(ids[ids.len() - 1] == minted);
    assert(ids[ids.len() - 1].is_primary_spec());
    assert forall|i: int| 0 <= i < ids.len() - 1 implies !(#[trigger] ids[i]).is_primary_spec() by {
        assert(ids[i] == mapped[i]);
        assert(mapped[i] == supplied_identifier_of_input(inputs[i]));
    }
}

pub fn references_of_inputs(v: Vec<ReferenceInput>) -> (r: Vec<Reference>)
    ensures
        r@ == v@.map_values(|x: ReferenceInput| reference_of_input(x)),
{
    let mut inputs = v;
    let ghost orig = inputs@;
    let mut r: Vec<Reference> = Vec::new();
    let mut k: usize = 0;
    let n = inputs.len();
    proof {
        assert(orig.len() == n);
        assert(orig.skip(0) =~= orig);
        assert(r@ =~= orig.take(0).map_values(|x: ReferenceInput| reference_of_input(x)));
    }
    while inputs.len() > 0
        invariant
            orig.len() <= usize::MAX,
            k + inputs@.len() == orig.len(),
            inputs@ == orig.skip(k as int),
            r@ == orig.take(k as int).map_values(|x: ReferenceInput| reference_of_input(x)),
        decreases inputs@.len(),
    {
        let x = inputs.remove(0);
        proof {
            assert(orig.skip(k as int)[0] == orig[k as int]);
            assert(orig.skip(k as int).remove(0) =~= orig.skip(k as int + 1));
        }
        r.push(Reference::from(x));
        proof {
            assert(r@ =~= orig.take(k as int + 1).map_values(
                |x: ReferenceInput| reference_of_input(x),
            ));
        }
        k += 1;
    }
    proof {
        assert(orig.take(orig.len() as int) =~= orig);
    }
    r
}

} // verus!
