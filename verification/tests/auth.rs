//! Tests of the authorization gate and role parsing.

use yoda::auth::{Action, Identity, Role};
use yoda::errors::Error;

fn s(t: &str) -> String {
    String::from(t)
}

fn identity(user_id: &str, roles: Vec<Role>) -> Identity {
    Identity { user_id: s(user_id), roles }
}

#[test]
fn user_with_own_modifier_may_mutate_only_itself() {
    let me = identity("user-1", vec![Role::User]);
    assert!(me.is_authorized(Action::Mutate("user-1"), vec![Role::Own]).is_ok());
    let denied = me.is_authorized(Action::Mutate("user-2"), vec![Role::Own]);
    match denied {
        Err(Error::Authorization(reason)) => {
            assert_eq!(reason, s("Your identity is not authorized to perform that action"));
        }
        other => panic!("expected an authorization denial, got {:?}", other),
    }
}

#[test]
fn user_without_own_modifier_may_mutate_anything() {
    let me = identity("user-1", vec![Role::User]);
    assert!(me.is_authorized(Action::Mutate("user-2"), vec![Role::Admin]).is_ok());
}

#[test]
fn user_always_queries_and_creates() {
    let me = identity("user-1", vec![Role::User]);
    assert!(me.is_authorized(Action::Query, vec![]).is_ok());
    assert!(me.is_authorized(Action::Create, vec![Role::Own]).is_ok());
}

#[test]
fn admin_granted_iff_admin_is_permissive_regardless_of_ownership() {
    let admin = identity("admin-1", vec![Role::Admin]);
    assert!(admin.is_authorized(Action::Mutate("someone-else"), vec![Role::Admin]).is_ok());
    assert!(admin.is_authorized(Action::Mutate("admin-1"), vec![Role::Own]).is_err());
    assert!(admin.is_authorized(Action::Query, vec![Role::Service]).is_err());
}

#[test]
fn own_alone_never_grants() {
    let odd = identity("x", vec![Role::Own]);
    assert!(odd.is_authorized(Action::Query, vec![Role::Own]).is_err());
}

#[test]
fn any_granting_role_suffices() {
    let both = identity("x", vec![Role::Own, Role::Service]);
    assert!(both.is_authorized(Action::Query, vec![Role::Service]).is_ok());
}

#[test]
fn role_names_parse_and_unknown_names_report() {
    assert_eq!(Role::try_from(&s("user")), Ok(Role::User));
    assert_eq!(Role::try_from(&s("organization")), Ok(Role::Organization));
    assert_eq!(Role::try_from(&s("admin")), Ok(Role::Admin));
    assert_eq!(Role::try_from(&s("service")), Ok(Role::Service));
    assert_eq!(Role::try_from(&s("self")), Ok(Role::Own));
    assert_eq!(
        Role::try_from(&s("root")),
        Err(s("No Role specified for that string: root"))
    );
}

#[test]
fn claims_with_roles_build_an_identity() {
    let who = Identity::from_claims(
        s("user-9"),
        vec![s("admin"), s("nonsense"), s("self")],
    )
    .expect("two known roles");
    assert_eq!(who.user_id, s("user-9"));
    assert_eq!(who.roles, vec![Role::Admin, Role::Own]);
}

#[test]
fn registry_entries_declare_the_permissive_roles() {
    let acct = yoda::model::account::account_auth();
    assert_eq!(acct.mutate, vec![Role::Admin, Role::Service, Role::Own]);
    assert_eq!(acct.query, vec![Role::Admin, Role::Service, Role::User]);

    let org = yoda::model::organization::organization_auth();
    assert_eq!(org.mutate, vec![Role::Admin, Role::Own]);
    assert_eq!(org.query, vec![Role::Admin, Role::Organization, Role::User, Role::Service]);

    let txn = yoda::model::transaction::transaction_auth();
    assert_eq!(txn.mutate, vec![Role::Admin, Role::Service]);
    assert_eq!(txn.query, vec![Role::Admin, Role::Service, Role::User]);

    let nothing = yoda::auth::AuthAttribute::default();
    assert!(nothing.mutate.is_empty());
    assert!(nothing.query.is_empty());
}

#[test]
fn claims_without_any_known_role_are_refused() {
    let refused = Identity::from_claims(s("user-9"), vec![s("nonsense")]);
    match refused {
        Err(Error::Authorization(reason)) => {
            assert_eq!(reason, s("Must provide at least one role"));
        }
        other => panic!("expected a refusal, got {:?}", other),
    }
}
