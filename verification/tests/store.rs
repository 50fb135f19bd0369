//! End-to-end scenarios against the in-memory store: create, conditional
//! update, find, and paginated search.

use yoda::auth::{Identity, Role};
use yoda::delta::Delta;
use yoda::errors::Error;
use yoda::model::account::{AccountMutate, AccountQuery, AccountStore};
use yoda::model::organization::{
    OrganizationMutate, OrganizationQuery, OrganizationSearch, OrganizationStore,
};
use yoda::model::transaction::{TransactionMutate, TransactionQuery, TransactionStore};
use yoda::pagination::PaginationOption;
use yoda::search::Search;
use yoda::store::{search_query_text, Driver, StoreState};

fn s(t: &str) -> String {
    String::from(t)
}

fn service() -> Identity {
    Identity { user_id: s("service-1"), roles: vec![Role::Service] }
}

fn admin() -> Identity {
    Identity { user_id: s("admin-1"), roles: vec![Role::Admin] }
}

fn create_account(store: &mut StoreState<AccountStore>, email: &str) -> String {
    let minted = AccountMutate
        .new_account(
            store,
            &service(),
            None,
            Some(s(email)),
            None,
            None,
            None,
            vec![],
            None,
            None,
            None,
        )
        .expect("create succeeds for an authorized identity");
    minted.value
}

#[test]
fn create_mints_primary_identifier_and_find_returns_fields() {
    let mut store: StoreState<AccountStore> = StoreState::new();
    let who = service();
    let minted = AccountMutate
        .new_account(
            &mut store,
            &who,
            None,
            Some(s("ada@example.com")),
            Some(s("pw")),
            Some(s("Ada")),
            None,
            vec![yoda::atoms::Tag::Education],
            None,
            None,
            None,
        )
        .expect("create succeeds");
    assert!(minted.is_primary());
    assert_eq!(store.log.len(), 1);
    assert_eq!(store.projection.len(), 1);
    assert_eq!(store.log[0].author, s("service-1"));

    let found = AccountQuery
        .find_account(&store, minted.value.as_str(), &who)
        .expect("freshly created account is found");
    assert_eq!(found.email, Some(s("ada@example.com")));
    assert_eq!(found.password, Some(s("pw")));
    assert_eq!(found.first_name, Some(s("Ada")));
    assert_eq!(found.last_name, None);
    assert_eq!(found.interests, vec![yoda::atoms::Tag::Education]);
    assert_eq!(found.identifier.len(), 1);
    assert_eq!(found.identifier[0], minted);
}

#[test]
fn supplied_primary_identifier_is_demoted_on_create() {
    let mut store: StoreState<AccountStore> = StoreState::new();
    let who = service();
    let minted = AccountMutate
        .new_account(
            &mut store,
            &who,
            Some(vec![yoda::atoms::IdentifierInput {
                value: s("ffffffff-0000-1111-2222-333333333333"),
                system: yoda::atoms::IdentifierSystem::Yoda,
                tier: yoda::atoms::IdentifierTier::Primary,
            }]),
            Some(s("two@example.com")),
            None,
            None,
            None,
            vec![],
            None,
            None,
            None,
        )
        .expect("create succeeds");
    let found = AccountQuery
        .find_account(&store, minted.value.as_str(), &who)
        .expect("found");
    assert_eq!(found.identifier.len(), 2);
    assert_eq!(found.identifier[0].tier, yoda::atoms::IdentifierTier::Secondary);
    assert_eq!(found.identifier[0].value, s("ffffffff-0000-1111-2222-333333333333"));
    assert_eq!(found.identifier[1], minted);
    let primaries = found.identifier.iter().filter(|i| i.is_primary()).count();
    assert_eq!(primaries, 1);
}

#[test]
fn update_with_fresh_token_changes_email() {
    let mut store: StoreState<AccountStore> = StoreState::new();
    let who = service();
    let id = create_account(&mut store, "old@example.com");

    let current = AccountQuery.find_account(&store, id.as_str(), &who).unwrap();
    let token = current.email_with_hash().hash;

    let updated = AccountMutate
        .update_account(
            &mut store,
            id.as_str(),
            &who,
            Some(Delta { start: Some(token), end: Some(s("a@b.com")) }),
            None,
            None,
            None,
            None,
            None,
            None,
            None,
        )
        .expect("update succeeds");
    assert_eq!(updated.email, Some(s("a@b.com")));

    let found = AccountQuery.find_account(&store, id.as_str(), &who).unwrap();
    assert_eq!(found.email, Some(s("a@b.com")));
    assert_eq!(store.log.len(), 2);
}

#[test]
fn update_with_stale_token_silently_keeps_previous_email() {
    let mut store: StoreState<AccountStore> = StoreState::new();
    let who = service();
    let id = create_account(&mut store, "keep@example.com");

    let outcome = AccountMutate.update_account(
        &mut store,
        id.as_str(),
        &who,
        Some(Delta { start: Some(s("0000000000")), end: Some(s("thief@example.com")) }),
        None,
        None,
        None,
        None,
        None,
        None,
        None,
    );
    let returned = outcome.expect("the call reports success even though the field was dropped");
    assert_eq!(returned.email, Some(s("keep@example.com")));

    let found = AccountQuery.find_account(&store, id.as_str(), &who).unwrap();
    assert_eq!(found.email, Some(s("keep@example.com")));
}

fn create_organization(store: &mut StoreState<OrganizationStore>, name: &str) -> String {
    let minted = OrganizationMutate
        .new_organization(
            store,
            &admin(),
            None,
            Some(s(name)),
            None,
            None,
            None,
            vec![],
            None,
            None,
        )
        .expect("create succeeds for an admin");
    minted.value
}

#[test]
fn search_without_filter_pages_in_last_updated_order() {
    let mut store: StoreState<OrganizationStore> = StoreState::new();
    let who = admin();
    create_organization(&mut store, "First");
    create_organization(&mut store, "Second");
    create_organization(&mut store, "Third");

    let page = OrganizationQuery
        .search_organization(&store, None, None, None, &who)
        .expect("unfiltered search succeeds");
    assert!(!page.has_previous_page);
    assert_eq!(page.edges.len(), 3);
    assert_eq!(page.edges[0].node.name, Some(s("First")));
    assert_eq!(page.edges[1].node.name, Some(s("Second")));
    assert_eq!(page.edges[2].node.name, Some(s("Third")));
    assert_eq!(page.edges[0].cursor, 0);
    assert_eq!(page.edges[2].cursor, 2);

    let second = OrganizationQuery
        .search_organization(&store, None, Some(s("1")), Some(1), &who)
        .expect("window in range");
    assert!(second.has_previous_page);
    assert_eq!(second.edges.len(), 1);
    assert_eq!(second.edges[0].node.name, Some(s("Second")));
    assert_eq!(second.edges[0].cursor, 1);

    let past_the_end = OrganizationQuery
        .search_organization(&store, None, Some(s("50")), Some(10), &who)
        .expect("a window past the count is not an error");
    assert_eq!(past_the_end.edges.len(), 0);
    assert!(past_the_end.has_previous_page);
}

#[test]
fn search_filters_by_name_containment() {
    let mut store: StoreState<OrganizationStore> = StoreState::new();
    let who = admin();
    create_organization(&mut store, "Acme Corp");
    create_organization(&mut store, "Beta LLC");
    create_organization(&mut store, "The Acme Labs");

    let page = OrganizationQuery
        .search_organization(&store, Some(s("Acme")), None, Some(10), &who)
        .expect("filtered search succeeds");
    assert_eq!(page.edges.len(), 2);
    assert_eq!(page.edges[0].node.name, Some(s("Acme Corp")));
    assert_eq!(page.edges[1].node.name, Some(s("The Acme Labs")));
}

#[test]
fn search_updates_move_rows_to_the_end_of_the_order() {
    let mut store: StoreState<OrganizationStore> = StoreState::new();
    let who = admin();
    let first = create_organization(&mut store, "First");
    create_organization(&mut store, "Second");

    OrganizationMutate
        .update_organization(
            &mut store,
            first.as_str(),
            &who,
            Some(Delta { start: None, end: Some(s("First, renamed")) }),
            None,
            None,
            None,
            None,
            None,
            None,
        )
        .expect("rename succeeds");

    let page = OrganizationQuery
        .search_organization(&store, None, None, None, &who)
        .expect("search succeeds");
    assert_eq!(page.edges.len(), 2);
    assert_eq!(page.edges[0].node.name, Some(s("Second")));
    assert_eq!(page.edges[1].node.name, Some(s("First, renamed")));
}

#[test]
fn cursor_with_leading_zeros_still_resolves() {
    let mut store: StoreState<OrganizationStore> = StoreState::new();
    let who = admin();
    create_organization(&mut store, "Only");
    let page = OrganizationQuery
        .search_organization(&store, None, Some(s("001")), None, &who)
        .expect("a numeric cursor is accepted");
    assert_eq!(page.edges.len(), 0);
    assert!(page.has_previous_page);
}

#[test]
fn organization_keeps_timestamp_and_tags_through_the_store() {
    let mut store: StoreState<OrganizationStore> = StoreState::new();
    let who = admin();
    let minted = OrganizationMutate
        .new_organization(
            &mut store,
            &who,
            None,
            Some(s("Acme")),
            Some(s("do things")),
            None,
            Some(yoda::atoms::Timestamp { seconds: 1_234_567_890 }),
            vec![yoda::atoms::Tag::Education, yoda::atoms::Tag::Politics],
            Some(s("Grace")),
            None,
        )
        .expect("create succeeds");
    let found = OrganizationQuery
        .find_organization(&store, minted.value.as_str(), &who)
        .expect("found");
    assert_eq!(found.established, Some(yoda::atoms::Timestamp { seconds: 1_234_567_890 }));
    assert_eq!(found.tag, vec![yoda::atoms::Tag::Education, yoda::atoms::Tag::Politics]);
    assert_eq!(found.ceo, Some(s("Grace")));
    assert_eq!(found.mission, Some(s("do things")));
}

#[test]
fn update_of_missing_projection_is_not_found() {
    let mut store: StoreState<AccountStore> = StoreState::new();
    let refused = AccountMutate.update_account(
        &mut store,
        "11111111-2222-3333-4444-555555555555",
        &service(),
        Some(Delta { start: None, end: Some(s("x@y.z")) }),
        None,
        None,
        None,
        None,
        None,
        None,
        None,
    );
    assert_eq!(refused, Err(Error::NotFound));
    assert_eq!(store.log.len(), 0);
}

#[test]
fn bad_cursor_is_a_validation_error() {
    let store: StoreState<OrganizationStore> = StoreState::new();
    let refused = OrganizationQuery.search_organization(
        &store,
        None,
        Some(s("not-a-number")),
        None,
        &admin(),
    );
    assert!(matches!(refused, Err(Error::Validation(_))));
}

#[test]
fn malformed_id_is_a_validation_error() {
    let store: StoreState<AccountStore> = StoreState::new();
    let refused = AccountQuery.find_account(&store, "not-a-uuid", &service());
    assert!(matches!(refused, Err(Error::Validation(_))));
}

#[test]
fn unknown_id_is_not_found() {
    let store: StoreState<AccountStore> = StoreState::new();
    let missing = AccountQuery.find_account(
        &store,
        "11111111-2222-3333-4444-555555555555",
        &service(),
    );
    assert_eq!(missing, Err(Error::NotFound));
}

#[test]
fn unauthorized_identity_is_denied_before_any_store_access() {
    let mut store: StoreState<AccountStore> = StoreState::new();
    let outsider = Identity { user_id: s("org-1"), roles: vec![Role::Organization] };
    let refused = AccountMutate.new_account(
        &mut store,
        &outsider,
        None,
        Some(s("x@y.z")),
        None,
        None,
        None,
        vec![],
        None,
        None,
        None,
    );
    assert!(matches!(refused, Err(Error::Authorization(_))));
    assert_eq!(store.log.len(), 0);
    assert_eq!(store.projection.len(), 0);
}

#[test]
fn append_only_log_retains_every_envelope() {
    let mut store: StoreState<AccountStore> = StoreState::new();
    let who = service();
    let id = create_account(&mut store, "v1@example.com");
    for version in ["v2@example.com", "v3@example.com"] {
        AccountMutate
            .update_account(
                &mut store,
                id.as_str(),
                &who,
                Some(Delta { start: None, end: Some(s(version)) }),
                None,
                None,
                None,
                None,
                None,
                None,
                None,
            )
            .expect("update succeeds");
    }
    assert_eq!(store.log.len(), 3);
    assert_eq!(store.projection.len(), 1);
    let found = AccountQuery.find_account(&store, id.as_str(), &who).unwrap();
    assert_eq!(found.email, Some(s("v3@example.com")));
}

#[test]
fn search_query_text_is_parameterized_and_numbered() {
    let doc = OrganizationSearch { name: Some(s("Acme")) };
    let q = search_query_text(&doc, &PaginationOption { limit: 10, skip: 0 });
    assert_eq!(
        q,
        s("SELECT body FROM projection p WHERE ty = $1 AND body -> 'name' ->> 'end' \
           LIKE $2 ORDER BY last_updated LIMIT 10 OFFSET 0")
    );
    assert_eq!(doc.bind_values(), vec![s("%Acme%")]);
    assert_eq!(doc.paths(), vec![s("body -> 'name' ->> 'end' LIKE $")]);
    assert!(doc.array_splits().is_empty());

    let unfiltered = OrganizationSearch { name: None };
    let q2 = search_query_text(&unfiltered, &PaginationOption { limit: 100, skip: 20 });
    assert_eq!(
        q2,
        s("SELECT body FROM projection p WHERE ty = $1 ORDER BY last_updated LIMIT 100 OFFSET 20")
    );
}

#[test]
fn driver_rejects_malformed_ids_without_touching_state() {
    let mut store: StoreState<AccountStore> = StoreState::new();
    let body: AccountStore = yoda::model::account::Account::default().into();
    let refused = Driver::delta(&mut store, "bogus", body, &service());
    assert!(matches!(refused, Err(Error::Validation(_))));
    assert_eq!(store.log.len(), 0);
}

#[test]
fn amount_search_matches_by_decimal_containment() {
    let mut store: StoreState<TransactionStore> = StoreState::new();
    let who = service();
    TransactionMutate
        .new_transaction(&mut store, &who, None, Some(1234), None, Some(false))
        .expect("create succeeds");
    TransactionMutate
        .new_transaction(&mut store, &who, None, Some(555), None, Some(true))
        .expect("create succeeds");

    let page = TransactionQuery
        .search_transaction(&store, Some(23), None, None, &who)
        .expect("search succeeds");
    assert_eq!(page.edges.len(), 1);
    assert_eq!(page.edges[0].node.amount, Some(1234));

    let none = TransactionQuery
        .search_transaction(&store, Some(9), None, None, &who)
        .expect("search succeeds");
    assert_eq!(none.edges.len(), 0);
}

#[test]
fn config_requires_a_connection_string() {
    let ok = yoda::Config::new(s("postgres://localhost/yoda")).expect("nonempty url accepted");
    assert_eq!(ok.db_config.url, s("postgres://localhost/yoda"));
    assert!(matches!(yoda::Config::new(s("")), Err(Error::Validation(_))));
}
