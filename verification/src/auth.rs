//! The role-based authorization gate.
//!
//! Stateless and evaluated per call, before any store access: an identity
//! holds a set of roles, the operation declares which roles it is
//! permissive toward, and access is granted if any held role grants it.

use vstd::prelude::*;

use crate::errors::Error;
use crate::text::str_eq;

verus! {

/// A role an identity can hold, or an operation can be permissive toward.
/// `Own` never itself grants access: it is a modifier consulted only when a
/// `User` identity asks to mutate.
#[derive(Clone, Copy, PartialEq, Eq, Structural, Debug)]
pub enum Role {
    User,
    Organization,
    Admin,
    Service,
    Own,
}

/// What an identity is asking to do. A mutation names the owner id of its
/// target, so that the `Own` modifier can compare it to the caller.
#[derive(Clone, Copy, PartialEq, Eq, Debug)]
pub enum Action<'a> {
    Query,
    Mutate(&'a str),
    Create,
    All,
}

/// An acting identity, as supplied by the identity provider: its user id
/// and the roles it holds.
#[derive(Debug)]
pub struct Identity {
    pub user_id: String,
    pub roles: Vec<Role>,
}

/// The role a lowercase role name denotes, if any.
pub open spec fn role_of_name(s: Seq<char>) -> Option<Role> {
    if s == "user"@ {
        Some(Role::User)
    } else if s == "organization"@ {
        Some(Role::Organization)
    } else if s == "admin"@ {
        Some(Role::Admin)
    } else if s == "service"@ {
        Some(Role::Service)
    } else if s == "self"@ {
        Some(Role::Own)
    } else {
        None
    }
}

impl Role {
    /// Parse a role name; an unknown name is reported back in the error.
    pub fn try_from(input: &String) -> (r: Result<Role, String>)
        ensures
            (match role_of_name(input@) {
                Some(role) => r == Result::<Role, String>::Ok(role),
                None => r is Err && r->Err_0@ == "No Role specified for that string: "@ + input@,
            }),
    {
        let s = input.as_str();
        if str_eq(s, "user") {
            Ok(Role::User)
        } else if str_eq(s, "organization") {
            Ok(Role::Organization)
        } else if str_eq(s, "admin") {
            Ok(Role::Admin)
        } else if str_eq(s, "service") {
            Ok(Role::Service)
        } else if str_eq(s, "self") {
            Ok(Role::Own)
        } else {
            let mut msg = String::from_str("No Role specified for that string: ");
            msg.append(input.as_str());
            Err(msg)
        }
    }
}

/// The roles parsed out of a list of names, unknown names skipped, order
/// kept.
pub open spec fn parsed_roles(names: Seq<String>) -> Seq<Role>
    decreases names.len(),
{
    if names.len() == 0 {
        Seq::empty()
    } else {
        parsed_roles(names.drop_last()) + (match role_of_name(names.last()@) {
            Some(r) => seq![r],
            None => Seq::empty(),
        })
    }
}

/// Whether one held role grants the action, under the operation's
/// permissive roles:
/// - `Admin`, `Service`, `Organization` grant exactly when that same role is
///   among the permissive roles;
/// - `User` always grants queries and creates; it grants a mutation unless
///   the permissive roles contain `Own`, in which case only when the target
///   owner id equals the identity's own user id;
/// - `Own` by itself never grants.
pub open spec fn role_grants(role: Role, action: Action<'_>, permissive: Seq<Role>, user_id: Seq<
    char,
>) -> bool {
    match role {
        Role::Admin => permissive.contains(Role::Admin),
        Role::Service => permissive.contains(Role::Service),
        Role::Organization => permissive.contains(Role::Organization),
        Role::User => match action {
            Action::Mutate(target) => if permissive.contains(Role::Own) {
                target@ == user_id
            } else {
                true
            },
            _ => true,
        },
        Role::Own => false,
    }
}

/// Whether any held role grants the action.
pub open spec fn authorized_spec(roles: Seq<Role>, action: Action<'_>, permissive: Seq<Role>, user_id: Seq<
    char,
>) -> bool {
    exists|k: int|
        0 <= k < roles.len() && #[trigger] role_grants(roles[k], action, permissive, user_id)
}

/// Whether a vector of roles holds a given role.
fn roles_contain(v: &Vec<Role>, r: Role) -> (b: bool)
    ensures
        b == v@.contains(r),
{
    let mut i: usize = 0;
    while i < v.len()
        invariant
            i <= v@.len(),
            forall|k: int| 0 <= k < i ==> v@[k] != r,
        decreases v@.len() - i,
    {
        if v[i] == r {
            return true;
        }
        i += 1;
    }
    false
}

impl Identity {
    /// Assemble an identity from already-decoded token claims: the subject
    /// and the role names under the token's metadata. Unknown names are
    /// skipped; an identity must end up holding at least one role.
    pub fn from_claims(sub: String, role_names: Vec<String>) -> (r: Result<Identity, Error>)
        ensures
            parsed_roles(role_names@).len() > 0 ==> r is Ok && r->Ok_0.user_id == sub
                && r->Ok_0.roles@ == parsed_roles(role_names@),
            parsed_roles(role_names@).len() == 0 ==> r is Err && (r->Err_0 matches Error::Authorization(m)
                && m@ == "Must provide at least one role"@),
    {
        let mut roles: Vec<Role> = Vec::new();
        let mut i: usize = 0;
        proof {
            assert(role_names@.take(0) =~= Seq::<String>::empty());
        }
        while i < role_names.len()
            invariant
                i <= role_names@.len(),
                roles@ == parsed_roles(role_names@.take(i as int)),
            decreases role_names@.len() - i,
        {
            match Role::try_from(&role_names[i]) {
                Ok(role) => roles.push(role),
                Err(_) => (),
            }
            proof {
                assert(role_names@.take(i as int + 1).drop_last() =~= role_names@.take(i as int));
                assert(role_names@.take(i as int + 1).last() == role_names@[i as int]);
                assert(roles@ =~= parsed_roles(role_names@.take(i as int + 1)));
            }
            i += 1;
        }
        proof {
            assert(role_names@.take(role_names@.len() as int) =~= role_names@);
        }
        if roles.len() == 0 {
            Err(Error::Authorization(String::from_str("Must provide at least one role")))
        } else {
            Ok(Identity { roles, user_id: sub })
        }
    }

    /// Decide whether this identity may perform the action. Denial is
    /// explicit, carries a user-facing reason, and happens before any store
    /// access.
    pub fn is_authorized(&self, action: Action<'_>, permissive_roles: Vec<Role>) -> (r: Result<
        (),
        Error,
    >)
        ensures
            r is Ok <==> authorized_spec(self.roles@, action, permissive_roles@, self.user_id@),
            r is Err ==> (r->Err_0 matches Error::Authorization(m) && m@
                == "Your identity is not authorized to perform that action"@),
    {
        let mut i: usize = 0;
        while i < self.roles.len()
            invariant
                i <= self.roles@.len(),
                forall|k: int|
                    0 <= k < i ==> !role_grants(
                        self.roles@[k],
                        action,
                        permissive_roles@,
                        self.user_id@,
                    ),
            decreases self.roles@.len() - i,
        {
            let role = self.roles[i];
            let grants: bool = match role {
                Role::Admin => roles_contain(&permissive_roles, Role::Admin),
                Role::Service => roles_contain(&permissive_roles, Role::Service),
                Role::Organization => roles_contain(&permissive_roles, Role::Organization),
                Role::User => match action {
                    Action::Mutate(target) => if roles_contain(&permissive_roles, Role::Own) {
                        str_eq(target, self.user_id.as_str())
                    } else {
                        true
                    },
                    _ => true,
                },
                Role::Own => false,
            };
            if grants {
                proof {
                    assert(role_grants(
                        self.roles@[i as int],
                        action,
                        permissive_roles@,
                        self.user_id@,
                    ));
                }
                return Ok(());
            }
            i += 1;
        }
        Err(
            Error::Authorization(
                String::from_str("Your identity is not authorized to perform that action"),
            ),
        )
    }
}

impl Clone for Identity {
    fn clone(&self) -> (r: Self)
        ensures
            r.user_id == self.user_id,
            r.roles@ == self.roles@,
    {
        let mut roles: Vec<Role> = Vec::new();
        let mut i: usize = 0;
        while i < self.roles.len()
            invariant
                i <= self.roles@.len(),
                roles@ == self.roles@.take(i as int),
            decreases self.roles@.len() - i,
        {
            roles.push(self.roles[i]);
            proof {
                assert(roles@ =~= self.roles@.take(i as int + 1));
            }
            i += 1;
        }
        proof {
            assert(self.roles@.take(self.roles@.len() as int) =~= self.roles@);
        }
        Identity { user_id: self.user_id.clone(), roles }
    }
}

/// The roles an entity declares permissive for its mutations and queries:
/// plain configuration data consulted by the authorization gate.
#[derive(Debug)]
pub struct AuthAttribute {
    pub mutate: Vec<Role>,
    pub query: Vec<Role>,
}

impl Default for AuthAttribute {
    /// An entity that declares nothing is permissive toward no role.
    fn default() -> (r: Self)
        ensures
            r.mutate@ == Seq::<Role>::empty(),
            r.query@ == Seq::<Role>::empty(),
    {
        AuthAttribute { mutate: Vec::new(), query: Vec::new() }
    }
}

/// Validates bearer credentials at the transport edge; the token decoding
/// belongs to the transport, which then supplies the `Identity`.
pub struct Validator;

/// Law: a `User` identity whose operation is permissive only toward `Own`
/// may mutate a target exactly when the target's owner id is its own user
/// id.
pub proof fn lemma_user_own_mutate(permissive: Seq<Role>, user_id: Seq<char>, target: &str)
    requires
        permissive == seq![Role::Own],
    ensures
        authorized_spec(seq![Role::User], Action::Mutate(target), permissive, user_id) <==> target@
            == user_id,
{
    let roles = seq![Role::User];
    assert(permissive.contains(Role::Own)) by {
        assert(permissive[0] == Role::Own);
    }
    if target@ == user_id {
        assert(role_grants(roles[0], Action::Mutate(target), permissive, user_id));
    }
    if authorized_spec(roles, Action::Mutate(target), permissive, user_id) {
        let k = choose|k: int|
            0 <= k < roles.len() && #[trigger] role_grants(
                roles[k],
                Action::Mutate(target),
                permissive,
                user_id,
            );
        assert(roles[k] == Role::User);
    }
}

/// Law: an `Admin` identity is granted a mutation exactly when `Admin` is
/// among the permissive roles, regardless of who owns the target.
pub proof fn lemma_admin_ignores_ownership(permissive: Seq<Role>, user_id: Seq<char>, target: &str)
    ensures
        authorized_spec(seq![Role::Admin], Action::Mutate(target), permissive, user_id)
            <==> permissive.contains(Role::Admin),
{
    let roles = seq![Role::Admin];
    if permissive.contains(Role::Admin) {
        assert(role_grants(roles[0], Action::Mutate(target), permissive, user_id));
    }
    if authorized_spec(roles, Action::Mutate(target), permissive, user_id) {
        let k = choose|k: int|
            0 <= k < roles.len() && #[trigger] role_grants(
                roles[k],
                Action::Mutate(target),
                permissive,
                user_id,
            );
        assert(roles[k] == Role::Admin);
    }
}

} // verus!
