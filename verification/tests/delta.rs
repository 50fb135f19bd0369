//! Tests of the delta envelope, the concurrency check, the content hash,
//! and the fold.

use yoda::atoms::{Identifier, IdentifierInput, IdentifierSystem, IdentifierTier};
use yoda::delta::{check_delta, Delta, Rollup, Store};
use yoda::hash::hash_token;
use yoda::model::account::{Account, AccountStore};
use yoda::text::u64_to_dec;

fn s(t: &str) -> String {
    String::from(t)
}

fn sample_account() -> Account {
    let primary = Identifier::from(IdentifierInput {
        value: s("11111111-2222-3333-4444-555555555555"),
        system: IdentifierSystem::Yoda,
        tier: IdentifierTier::Primary,
    });
    let secondary = Identifier::from(IdentifierInput {
        value: s("aaaaaaaa-bbbb-cccc-dddd-eeeeeeeeeeee"),
        system: IdentifierSystem::Stripe,
        tier: IdentifierTier::Secondary,
    });
    Account {
        identifier: vec![secondary, primary],
        email: Some(s("old@example.com")),
        password: Some(s("secret")),
        first_name: Some(s("Ada")),
        last_name: None,
        interests: vec![yoda::atoms::Tag::Education],
        transactions: vec![],
        payment_method: vec![],
        address: vec![],
    }
}

#[test]
fn unconditional_delta_always_applies() {
    let delta = Delta { start: None, end: Some(s("new")) };
    let curr = s("anything at all");
    assert_eq!(check_delta(Some(&curr), delta), Some(s("new")));

    let delta = Delta { start: None, end: Some(s("new")) };
    assert_eq!(check_delta(None::<&String>, delta), Some(s("new")));
}

#[test]
fn matching_token_applies_and_stale_token_drops() {
    let curr = s("prior value");
    let token = hash_token(&curr);

    let fresh = Delta { start: Some(token), end: Some(s("next")) };
    assert_eq!(check_delta(Some(&curr), fresh), Some(s("next")));

    let stale = Delta { start: Some(s("140735179!wrong")), end: Some(s("next")) };
    assert_eq!(check_delta(Some(&curr), stale), None);
}

#[test]
fn start_without_current_value_drops() {
    let stale = Delta { start: Some(s("12345")), end: Some(s("next")) };
    assert_eq!(check_delta(None::<&String>, stale), None);
}

#[test]
fn delta_init_wraps_present_values_only() {
    let wrapped = Delta::init(Some(7u32)).expect("present value yields an envelope");
    assert_eq!(wrapped.start, None);
    assert_eq!(wrapped.end, Some(7));
    assert!(Delta::init(None::<u32>).is_none());
}

#[test]
fn content_hash_has_exact_known_values() {
    // One mixing step per token: fold the seed 0xcbf29ce484222325 with
    // xor-then-multiply by 0x100000001b3; a string contributes its length
    // and then one token per character.
    assert_eq!(hash_token(&s("")), s("12638153115695167455"));
    assert_eq!(hash_token(&s("a")), s("589763776587810007"));
    assert_eq!(hash_token(&7u32), s("12638149817160282822"));
}

#[test]
fn content_hash_is_deterministic_and_value_sensitive() {
    let a1 = hash_token(&s("same value"));
    let a2 = hash_token(&s("same value"));
    assert_eq!(a1, a2);
    let b = hash_token(&s("other value"));
    assert_ne!(a1, b);
}

#[test]
fn rollup_is_deterministic() {
    let dels1: Vec<AccountStore> = vec![sample_account().into(), sample_account().into()];
    let dels2: Vec<AccountStore> = vec![sample_account().into(), sample_account().into()];
    let folded1: Account = dels1.rollup();
    let folded2: Account = dels2.rollup();
    assert_eq!(folded1, folded2);
}

#[test]
fn store_round_trip_preserves_fields_and_identifiers() {
    let account = sample_account();
    let expected = sample_account();
    let stored: AccountStore = account.into();
    let back: Account = stored.into();
    assert_eq!(back, expected);
    assert_eq!(back.identifier.len(), 2);
}

#[test]
fn primary_identifier_uniquely_selected() {
    let stored: AccountStore = sample_account().into();
    assert_eq!(
        stored.identifier(),
        s("Yoda/11111111-2222-3333-4444-555555555555")
    );
    assert_eq!(AccountStore::ty(), s("Account"));
}

#[test]
fn decimal_rendering_is_exact() {
    assert_eq!(u64_to_dec(0), s("0"));
    assert_eq!(u64_to_dec(42), s("42"));
    assert_eq!(u64_to_dec(1234567890987654321), s("1234567890987654321"));
    assert_eq!(u64_to_dec(u64::MAX), s("18446744073709551615"));
}

#[test]
fn substring_containment_is_case_sensitive() {
    assert!(yoda::text::str_contains("hello world", "lo wo"));
    assert!(yoda::text::str_contains("hello", ""));
    assert!(!yoda::text::str_contains("hello", "Hello"));
    assert!(!yoda::text::str_contains("short", "much longer needle"));
}

#[test]
fn minted_identifier_is_a_fresh_uuid() {
    let a = Identifier::new(IdentifierSystem::Yoda, IdentifierTier::Primary);
    let b = Identifier::new(IdentifierSystem::Yoda, IdentifierTier::Primary);
    assert!(a.is_primary());
    assert_eq!(a.value.len(), 36);
    for (i, c) in a.value.chars().enumerate() {
        if i == 8 || i == 13 || i == 18 || i == 23 {
            assert_eq!(c, '-');
        } else {
            assert!(c.is_ascii_hexdigit() && !c.is_ascii_uppercase());
        }
    }
    assert_ne!(a.value, b.value);
}

#[test]
fn identifier_renders_as_system_slash_value() {
    let id = Identifier::from(IdentifierInput {
        value: s("abc"),
        system: IdentifierSystem::Yoda,
        tier: IdentifierTier::Other,
    });
    assert_eq!(id.to_string(), s("Yoda/abc"));
}

#[test]
fn unknown_identifier_system_collapses_to_other() {
    let id = Identifier::from(IdentifierInput {
        value: s("x"),
        system: IdentifierSystem::Stripe,
        tier: IdentifierTier::Secondary,
    });
    assert_eq!(id.system, IdentifierSystem::Other);
}
