use secret_scaler::merge::{
    build_config, encode_policy_properties, flatten_source, frame_policy_properties,
};
use secret_scaler::{merge_policy_properties, MergeError, Policy, SecretSourceProperty, StringMap};

fn text(s: &str) -> String {
    s.to_string()
}

fn properties(pairs: &[(&str, &str)]) -> StringMap {
    StringMap::from_pairs(pairs.iter().map(|(k, v)| (text(k), text(v))).collect())
}

fn policy(pairs: &[(&str, &str)]) -> Policy {
    Policy { name: text("nats-kv"), properties: properties(pairs), policy_type: text("secrets-backend") }
}

fn source(field: Option<&str>, version: Option<&str>) -> SecretSourceProperty {
    SecretSourceProperty {
        policy: text("nats-kv"),
        key: text("test"),
        field: field.map(text),
        version: version.map(text),
    }
}

#[test]
fn merge_holds_backend_source_and_properties() {
    let merged = merge_policy_properties(
        &policy(&[("backend", "X"), ("a", "1"), ("b", "2")]),
        &source(None, None),
    )
    .expect("a policy with a backend merges");
    assert_eq!(merged.len(), 4);
    assert_eq!(merged.get("backend"), Some(&text("X")));
    assert_eq!(merged.get("policy"), Some(&text("nats-kv")));
    assert_eq!(merged.get("key"), Some(&text("test")));
    assert_eq!(merged.get("field"), None);
    assert_eq!(merged.get("version"), None);
    assert_eq!(
        merged.get("policy_properties"),
        Some(&text("{\"type\":\"secrets-backend\",\"properties\":{\"a\":\"1\",\"b\":\"2\"}}"))
    );
}

#[test]
fn policy_properties_read_back_as_json() {
    let merged = merge_policy_properties(
        &policy(&[("b", "2"), ("backend", "X"), ("a", "1")]),
        &source(None, None),
    )
    .expect("a policy with a backend merges");
    let blob = merged.get("policy_properties").expect("the properties are stored");
    let value: serde_json::Value = serde_json::from_str(blob).expect("the properties are JSON");
    let object = value.as_object().expect("an object");
    assert_eq!(object.len(), 2);
    assert_eq!(object.get("type").and_then(|v| v.as_str()), Some("secrets-backend"));
    let inner = object.get("properties").and_then(|v| v.as_object()).expect("an object");
    assert_eq!(inner.len(), 2);
    assert_eq!(inner.get("a").and_then(|v| v.as_str()), Some("1"));
    assert_eq!(inner.get("b").and_then(|v| v.as_str()), Some("2"));
    assert!(inner.get("backend").is_none());
}

#[test]
fn merge_without_backend_fails() {
    assert_eq!(
        merge_policy_properties(&policy(&[("a", "1")]), &source(None, None)),
        Err(MergeError::MissingBackendProperty)
    );
    assert_eq!(
        merge_policy_properties(&policy(&[]), &source(Some("f"), Some("v"))),
        Err(MergeError::MissingBackendProperty)
    );
}

#[test]
fn merge_with_only_a_backend_has_empty_properties() {
    let merged = merge_policy_properties(&policy(&[("backend", "nats-kv")]), &source(None, None))
        .expect("a policy with a backend merges");
    assert_eq!(
        merged.get("policy_properties"),
        Some(&text("{\"type\":\"secrets-backend\",\"properties\":{}}"))
    );
    assert_eq!(merged.get("backend"), Some(&text("nats-kv")));
}

#[test]
fn merge_leaves_the_policy_as_it_was() {
    let policy = policy(&[("backend", "X"), ("a", "1")]);
    let before = policy.clone();
    let _ = merge_policy_properties(&policy, &source(None, None));
    assert_eq!(policy, before);
    assert_eq!(policy.properties.get("backend"), Some(&text("X")));
}

#[test]
fn merge_is_the_same_every_time() {
    let policy = policy(&[("backend", "X"), ("z", "26"), ("a", "1")]);
    let source = source(None, Some("3"));
    assert_eq!(merge_policy_properties(&policy, &source), merge_policy_properties(&policy, &source));
}

#[test]
fn properties_are_written_in_key_order() {
    let forwards = encode_policy_properties("t", &properties(&[("a", "1"), ("b", "2"), ("c", "3")]));
    let backwards = encode_policy_properties("t", &properties(&[("c", "3"), ("b", "2"), ("a", "1")]));
    assert_eq!(
        forwards,
        Some(text("{\"type\":\"t\",\"properties\":{\"a\":\"1\",\"b\":\"2\",\"c\":\"3\"}}"))
    );
    assert_eq!(forwards, backwards);
}

#[test]
fn strings_are_escaped_as_json() {
    let encoded = encode_policy_properties("say \"hi\"\n", &properties(&[("k\\", "v\t\"")]));
    assert_eq!(
        encoded,
        Some(text(
            "{\"type\":\"say \\\"hi\\\"\\n\",\"properties\":{\"k\\\\\":\"v\\t\\\"\"}}"
        ))
    );
    let value: serde_json::Value =
        serde_json::from_str(encoded.as_deref().expect("encoded")).expect("valid JSON");
    assert_eq!(value.get("type").and_then(|v| v.as_str()), Some("say \"hi\"\n"));
    assert_eq!(
        value.get("properties").and_then(|p| p.get("k\\")).and_then(|v| v.as_str()),
        Some("v\t\"")
    );
}

#[test]
fn frame_puts_the_parts_into_one_object() {
    assert_eq!(frame_policy_properties("\"t\"", "{}"), "{\"type\":\"t\",\"properties\":{}}");
    assert_eq!(frame_policy_properties("", ""), "{\"type\":,\"properties\":}");
    assert_eq!(frame_policy_properties("1", "2"), "{\"type\":1,\"properties\":2}");
}

#[test]
fn flatten_source_writes_each_field() {
    let bare = flatten_source(&source(None, None));
    assert_eq!(bare.len(), 2);
    assert_eq!(bare.get("policy"), Some(&text("nats-kv")));
    assert_eq!(bare.get("key"), Some(&text("test")));

    let full = flatten_source(&source(Some("password"), Some("7")));
    assert_eq!(full.len(), 4);
    assert_eq!(full.get("policy"), Some(&text("nats-kv")));
    assert_eq!(full.get("key"), Some(&text("test")));
    assert_eq!(full.get("field"), Some(&text("password")));
    assert_eq!(full.get("version"), Some(&text("7")));

    let versioned = flatten_source(&source(None, Some("7")));
    assert_eq!(versioned.len(), 3);
    assert_eq!(versioned.get("field"), None);
    assert_eq!(versioned.get("version"), Some(&text("7")));
}

#[test]
fn build_config_adds_backend_and_properties() {
    let config = build_config(&source(None, Some("2")), text("vault"), text("{}"));
    assert_eq!(config.len(), 5);
    assert_eq!(config.get("backend"), Some(&text("vault")));
    assert_eq!(config.get("policy_properties"), Some(&text("{}")));
    assert_eq!(config.get("version"), Some(&text("2")));
}

#[test]
fn merge_errors_describe_themselves() {
    assert_eq!(
        MergeError::MissingBackendProperty.message(),
        "policy did not have a backend property"
    );
    assert_eq!(MergeError::Serialization.message(), "policy properties could not be serialized");
}
