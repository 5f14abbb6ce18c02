use rust_api::domain::entities::user::User;
use rust_api::domain::value_objects::email::Email;
use rust_api::domain::value_objects::id::Id;
use rust_api::domain::value_objects::timestamp::{Timestamp, CLOCK_LIMIT};
use rust_api::text::{chars_of, contains_char, contains_text, join, join3, starts_with, strip_prefix};
use uuid::Uuid;

#[test]
fn test_id() {
    let id = Id::try_from(Uuid::new_v4().as_u128());
    assert!(id.is_ok());
    let id = Id::try_from(Uuid::nil().as_u128());
    assert!(id.is_err());
}

#[test]
fn nil_id_is_refused_with_its_reason() {
    assert_eq!(Id::try_from(0u128), Err("Id is nil".to_string()));
    assert_eq!(
        Id::try_from("00000000-0000-0000-0000-000000000000".to_string()),
        Err("Id is nil".to_string())
    );
}

#[test]
fn id_prints_hyphenated_and_reads_back() {
    let bits = 0x550e8400_e29b_41d4_a716_446655440000u128;
    let id = Id::try_from(bits).unwrap();
    assert_eq!(id.bits(), bits);
    assert_eq!(u128::from(id), bits);
    assert_eq!(id.to_string(), "550e8400-e29b-41d4-a716-446655440000");
    assert_eq!(String::from(id), "550e8400-e29b-41d4-a716-446655440000");
    assert_eq!(Id::try_from(id.to_string()), Ok(id));
    assert_eq!(Id::try_from("550E8400E29B41D4A716446655440000".to_string()), Ok(id));
    assert_eq!(Uuid::from_u128(id.bits()).to_string(), id.to_string());
}

#[test]
fn text_that_is_no_uuid_is_no_id() {
    let refused = Id::try_from("not-a-uuid".to_string());
    assert_eq!(refused, Err(Uuid::parse_str("not-a-uuid").unwrap_err().to_string()));
    assert!(Id::try_from(String::new()).is_err());
}

#[test]
fn fresh_ids_are_not_nil_and_differ() {
    let a = Id::new();
    let b = Id::new();
    assert_ne!(a.bits(), 0);
    assert_ne!(b.bits(), 0);
    assert_ne!(a, b);
    assert_eq!(Uuid::from_u128(a.bits()).get_version_num(), 4);
}

#[test]
fn email_needs_content_and_an_at_sign() {
    assert_eq!(Email::new(String::new()), Err("Email cannot be empty".to_string()));
    assert_eq!(
        Email::new("not-an-email".to_string()),
        Err("Email must contain @".to_string())
    );
    let email = Email::new("a@b.com".to_string()).unwrap();
    assert_eq!(email.as_str(), "a@b.com");
    assert_eq!(email.clone(), email);
    assert_eq!(Email::new("@".to_string()).unwrap().as_str(), "@");
    assert_eq!(Email::new("é@ü".to_string()).unwrap().as_str(), "é@ü");
}

#[test]
fn clock_reads_a_plausible_instant() {
    let now = Timestamp::now();
    assert!(now.secs > 1_600_000_000);
    assert!(now.secs < CLOCK_LIMIT);
    let later = Timestamp::now();
    assert!(later.is_not_before(&now) || later.secs + 5 > now.secs);
}

#[test]
fn instants_are_ordered_by_seconds_then_nanoseconds() {
    let a = Timestamp { secs: 10, nanos: 5 };
    let b = Timestamp { secs: 10, nanos: 6 };
    let c = Timestamp { secs: 11, nanos: 0 };
    assert!(b.is_not_before(&a));
    assert!(!a.is_not_before(&b));
    assert!(c.is_not_before(&b));
    assert!(a.is_not_before(&a));
    assert_eq!(Timestamp::from_secs(7), Timestamp { secs: 7, nanos: 0 });
}

#[test]
fn new_user_starts_with_equal_times_and_a_fresh_id() {
    let email = Email::new("name@some.com".to_string()).unwrap();
    let user = User::new(email.clone(), "token".to_string());
    assert_eq!(user.email, email);
    assert_eq!(user.access_token, "token");
    assert_eq!(user.created_at, user.updated_at);
    assert_ne!(user.id.bits(), 0);
    assert_eq!(user.clone(), user);
}

#[test]
fn refreshed_user_keeps_identity_and_creation_time() {
    let email = Email::new("name@some.com".to_string()).unwrap();
    let id = Id::try_from(9u128).unwrap();
    let created = Timestamp { secs: 100, nanos: 1 };
    let user = User::created(id, email.clone(), "old".to_string(), created);
    assert_eq!(user.created_at, created);
    assert_eq!(user.updated_at, created);
    let later = Timestamp { secs: 200, nanos: 2 };
    let user = user.refreshed("new".to_string(), later);
    assert_eq!(user.id, id);
    assert_eq!(user.email, email);
    assert_eq!(user.access_token, "new");
    assert_eq!(user.created_at, created);
    assert_eq!(user.updated_at, later);
}

#[test]
fn text_search_finds_what_is_there() {
    assert!(contains_char("a@b", '@'));
    assert!(!contains_char("ab", '@'));
    assert!(!contains_char("", '@'));
    assert!(contains_text("xxUNAUTHENTICATEDyy", "UNAUTHENTICATED"));
    assert!(contains_text("UNAUTHENTICATED", "UNAUTHENTICATED"));
    assert!(!contains_text("UNAUTHENTICATE", "UNAUTHENTICATED"));
    assert!(!contains_text("unauthenticated", "UNAUTHENTICATED"));
    assert!(contains_text("anything", ""));
    assert!(contains_text("", ""));
    assert!(!contains_text("", "a"));
    assert!(contains_text("ααβ", "αβ"));
    assert!(starts_with("/api/protected/x", "/api/protected/"));
    assert!(!starts_with("/api/protected", "/api/protected/"));
    assert!(starts_with("abc", ""));
    assert_eq!(strip_prefix("Bearer abc", "Bearer "), "abc");
    assert_eq!(strip_prefix("bearer abc", "Bearer "), "bearer abc");
    assert_eq!(strip_prefix("Bearer ", "Bearer "), "");
    assert_eq!(strip_prefix("Bearer Bearer x", "Bearer "), "Bearer x");
    assert_eq!(strip_prefix("ü-é", "ü"), "-é");
    assert_eq!(chars_of("aé"), vec!['a', 'é']);
    assert_eq!(join("ab", "cd"), "abcd");
    assert_eq!(join3("a", "b", "c"), "abc");
}
