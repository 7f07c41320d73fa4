//! What the library takes on trust from the crates it calls.
//!
//! Nothing in this file is proved. Each function below hands plain values to
//! one outside function and hands its answer back; the contract says what
//! the library relies on. The answers themselves are named, not described:
//! hashing and JSON encoding are the outside crates' business.
use crate::string_map::{distinct_keys, pairs_map};
use crate::types::{option_view, SecretSourceProperty};
use std::collections::BTreeMap;
use std::hash::{DefaultHasher, Hash, Hasher};
use vstd::prelude::*;

verus! {

/// The properties of a trait of an application. A secret scaler takes such a
/// value and never looks inside.
#[verifier::external_type_specification]
#[verifier::external_body]
pub struct ExTraitProperty(wadm_types::TraitProperty);

/// The number that std's `DefaultHasher`, made by `DefaultHasher::new`, gives
/// after it was fed a `wadm_types::SecretSourceProperty` with these four
/// fields.
pub uninterp spec fn source_hash(
    policy: Seq<char>,
    key: Seq<char>,
    field: Option<Seq<char>>,
    version: Option<Seq<char>>,
) -> u64;

/// Hashes a source as `wadm_types::SecretSourceProperty` hashes itself, with
/// a hasher from `DefaultHasher::new`. Hashers made that way all start from
/// the same state, unlike those of a `RandomState`, and the hash of a value
/// reads nothing but its fields, so in one build of the library the number
/// depends on the four fields alone. Which number it is, is left to std.
#[verifier::external_body]
pub(crate) fn hash_source(source: &SecretSourceProperty) -> (digest: u64)
    ensures
        digest == source_hash(
            source.policy@,
            source.key@,
            option_view(source.field),
            option_view(source.version),
        ),
{
    let outside = wadm_types::SecretSourceProperty {
        policy: source.policy.clone(),
        key: source.key.clone(),
        field: source.field.clone(),
        version: source.version.clone(),
    };
    let mut hasher = DefaultHasher::new();
    outside.hash(&mut hasher);
    hasher.finish()
}

/// The JSON text that `serde_json::to_string` gives for a string, or `None`
/// where it reports an error.
pub uninterp spec fn json_string_text(value: Seq<char>) -> Option<Seq<char>>;

/// Encodes a string as JSON with `serde_json::to_string`. The text, and
/// whether there is one, depends on the string alone.
#[verifier::external_body]
pub(crate) fn encode_json_string(value: &str) -> (text: Option<String>)
    ensures
        option_view(text) == json_string_text(value@),
{
    serde_json::to_string(value).ok()
}

/// The JSON text that `serde_json::to_string` gives for a map from strings to
/// strings that is ordered by its keys, or `None` where it reports an error.
pub uninterp spec fn json_object_text(entries: Map<Seq<char>, Seq<char>>) -> Option<Seq<char>>;

/// Encodes pairs of strings as one JSON object with `serde_json::to_string`,
/// after collecting them into a `BTreeMap`, which orders them by key. No key
/// may occur twice, so the text depends on the map that the pairs stand for
/// and not on their order.
#[verifier::external_body]
pub(crate) fn encode_json_object(pairs: &Vec<(String, String)>) -> (text: Option<String>)
    requires
        distinct_keys(pairs@),
    ensures
        option_view(text) == json_object_text(pairs_map(pairs@)),
{
    let ordered: BTreeMap<&str, &str> =
        pairs.iter().map(|pair| (pair.0.as_str(), pair.1.as_str())).collect();
    serde_json::to_string(&ordered).ok()
}

} // verus!
