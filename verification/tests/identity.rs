use secret_scaler::identity::{derive_id, to_decimal};
use secret_scaler::SecretSourceProperty;
use std::hash::{DefaultHasher, Hash, Hasher};

fn text(s: &str) -> String {
    s.to_string()
}

fn source(key: &str, version: Option<&str>) -> SecretSourceProperty {
    SecretSourceProperty {
        policy: text("nats-kv"),
        key: text(key),
        field: None,
        version: version.map(text),
    }
}

fn outside_hash(source: &SecretSourceProperty) -> u64 {
    let outside = wadm_types::SecretSourceProperty {
        policy: source.policy.clone(),
        key: source.key.clone(),
        field: source.field.clone(),
        version: source.version.clone(),
    };
    let mut hasher = DefaultHasher::new();
    outside.hash(&mut hasher);
    hasher.finish()
}

#[test]
fn decimal_of_small_numbers() {
    assert_eq!(to_decimal(0), "0");
    assert_eq!(to_decimal(7), "7");
    assert_eq!(to_decimal(9), "9");
    assert_eq!(to_decimal(10), "10");
    assert_eq!(to_decimal(120), "120");
    assert_eq!(to_decimal(1234567890), "1234567890");
}

#[test]
fn decimal_of_the_largest_number() {
    assert_eq!(to_decimal(u64::MAX), "18446744073709551615");
    assert_eq!(to_decimal(u64::MAX), u64::MAX.to_string());
}

#[test]
fn decimal_agrees_with_std() {
    let mut n: u64 = 1;
    for _ in 0..64 {
        assert_eq!(to_decimal(n), n.to_string());
        assert_eq!(to_decimal(n - 1), (n - 1).to_string());
        n = n.wrapping_mul(3).wrapping_add(7);
    }
}

#[test]
fn identity_is_name_hyphen_hash() {
    let source = source("test", None);
    assert_eq!(derive_id("test", &source), format!("test-{}", outside_hash(&source)));
    let other = source_with_field();
    assert_eq!(derive_id("a-b", &other), format!("a-b-{}", outside_hash(&other)));
}

fn source_with_field() -> SecretSourceProperty {
    SecretSourceProperty {
        policy: text("vault"),
        key: text("kv/top"),
        field: Some(text("password")),
        version: Some(text("12")),
    }
}

#[test]
fn identity_is_the_same_every_time() {
    let first = derive_id("test", &source("test", None));
    let second = derive_id("test", &source("test", None));
    assert_eq!(first, second);
    assert!(first.starts_with("test-"));
    assert!(first["test-".len()..].chars().all(|c| c.is_ascii_digit()));
}

#[test]
fn identity_tells_sources_and_names_apart() {
    let base = derive_id("test", &source("test", None));
    assert_ne!(base, derive_id("test", &source("other", None)));
    assert_ne!(base, derive_id("test", &source("test", Some("1"))));
    assert_ne!(base, derive_id("other", &source("test", None)));
    assert_ne!(base, derive_id("test", &source_with_field()));
}
