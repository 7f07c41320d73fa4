//! Merging a policy with the source of a secret into the configuration that
//! is stored for the secret.
//!
//! The configuration holds the fields of the source, the backend that the
//! policy names, and under `policy_properties` a JSON object with the
//! policy's type and its other properties.
use crate::outside::{encode_json_object, encode_json_string, json_object_text, json_string_text};
use crate::string_map::StringMap;
use crate::types::{option_view, Policy, PolicyView, SecretSourceProperty, SecretSourceView};
use vstd::prelude::*;
use vstd::string::StringExecFns;

verus! {

/// Why a policy and a source could not be merged.
#[derive(Clone, Copy, Debug, PartialEq, Eq, Structural)]
pub enum MergeError {
    /// The policy has no property `backend`.
    MissingBackendProperty,
    /// The policy's type or its properties could not be written as JSON.
    Serialization,
}

impl MergeError {
    /// The description of the error, over which contracts speak.
    pub open spec fn description(self) -> Seq<char> {
        match self {
            MergeError::MissingBackendProperty => "policy did not have a backend property"@,
            MergeError::Serialization => "policy properties could not be serialized"@,
        }
    }

    /// The description of the error.
    pub fn message(&self) -> (text: String)
        ensures
            text@ == self.description(),
    {
        match self {
            MergeError::MissingBackendProperty => "policy did not have a backend property"
                .to_owned(),
            MergeError::Serialization => "policy properties could not be serialized".to_owned(),
        }
    }
}

/// The fields of a source as a configuration: `policy` and `key` always,
/// `field` and `version` where the source has them.
pub open spec fn source_config(source: SecretSourceView) -> Map<Seq<char>, Seq<char>> {
    let required = Map::<Seq<char>, Seq<char>>::empty().insert("policy"@, source.policy).insert(
        "key"@,
        source.key,
    );
    let with_field = match source.field {
        Some(field) => required.insert("field"@, field),
        None => required,
    };
    match source.version {
        Some(version) => with_field.insert("version"@, version),
        None => with_field,
    }
}

/// The JSON object `{"type":T,"properties":P}` around an encoded type `T` and
/// encoded properties `P`.
pub open spec fn framed_properties(
    encoded_type: Seq<char>,
    encoded_properties: Seq<char>,
) -> Seq<char> {
    "{\"type\":"@ + encoded_type + ",\"properties\":"@ + encoded_properties + "}"@
}

/// The JSON object for a policy type and properties, where both can be
/// encoded.
pub open spec fn policy_properties_text(
    policy_type: Seq<char>,
    properties: Map<Seq<char>, Seq<char>>,
) -> Option<Seq<char>> {
    match (json_string_text(policy_type), json_object_text(properties)) {
        (Some(encoded_type), Some(encoded_properties)) => Some(
            framed_properties(encoded_type, encoded_properties),
        ),
        _ => None,
    }
}

/// The configuration for a source, a backend and the text stored under
/// `policy_properties`.
pub open spec fn config_with(
    source: SecretSourceView,
    backend: Seq<char>,
    policy_properties: Seq<char>,
) -> Map<Seq<char>, Seq<char>> {
    source_config(source).insert("backend"@, backend).insert(
        "policy_properties"@,
        policy_properties,
    )
}

/// What merging a policy with a source gives: the error for a policy without
/// a backend, else the configuration with the backend and with the policy's
/// type and its other properties as JSON, or the error for properties that
/// could not be encoded.
pub open spec fn merged_config(policy: PolicyView, source: SecretSourceView) -> Result<
    Map<Seq<char>, Seq<char>>,
    MergeError,
> {
    if !policy.properties.contains_key("backend"@) {
        Err(MergeError::MissingBackendProperty)
    } else {
        match policy_properties_text(policy.policy_type, policy.properties.remove("backend"@)) {
            Some(text) => Ok(config_with(source, policy.properties["backend"@], text)),
            None => Err(MergeError::Serialization),
        }
    }
}

/// The view of the outcome of a merge.
pub open spec fn merged_view(merged: Result<StringMap, MergeError>) -> Result<
    Map<Seq<char>, Seq<char>>,
    MergeError,
> {
    match merged {
        Ok(config) => Ok(config@),
        Err(error) => Err(error),
    }
}

/// Writes the fields of a source into a configuration.
pub fn flatten_source(source: &SecretSourceProperty) -> (config: StringMap)
    ensures
        config@ == source_config(source@),
{
    let mut config = StringMap::new();
    config.insert("policy".to_owned(), source.policy.clone());
    config.insert("key".to_owned(), source.key.clone());
    match &source.field {
        Some(field) => {
            config.insert("field".to_owned(), field.clone());
        },
        None => {},
    }
    match &source.version {
        Some(version) => {
            config.insert("version".to_owned(), version.clone());
        },
        None => {},
    }
    config
}

/// Puts an encoded type and encoded properties into one JSON object.
pub fn frame_policy_properties(encoded_type: &str, encoded_properties: &str) -> (text: String)
    ensures
        text@ == framed_properties(encoded_type@, encoded_properties@),
{
    let mut text = "{\"type\":".to_owned();
    text.append(encoded_type);
    text.append(",\"properties\":");
    text.append(encoded_properties);
    text.append("}");
    text
}

/// Writes a policy's type and properties as one JSON object. Returns `None`
/// where one of the two cannot be encoded.
pub fn encode_policy_properties(policy_type: &str, properties: &StringMap) -> (text: Option<
    String,
>)
    ensures
        option_view(text) == policy_properties_text(policy_type@, properties@),
{
    let pairs = properties.to_pairs();
    let encoded_type = match encode_json_string(policy_type) {
        Some(encoded) => encoded,
        None => {
            return None;
        },
    };
    let encoded_properties = match encode_json_object(&pairs) {
        Some(encoded) => encoded,
        None => {
            return None;
        },
    };
    Some(frame_policy_properties(encoded_type.as_str(), encoded_properties.as_str()))
}

/// The configuration for a source, a backend and the text to store under
/// `policy_properties`.
pub fn build_config(source: &SecretSourceProperty, backend: String, policy_properties: String) -> (config:
    StringMap)
    ensures
        config@ == config_with(source@, backend@, policy_properties@),
{
    let mut config = flatten_source(source);
    config.insert("backend".to_owned(), backend);
    config.insert("policy_properties".to_owned(), policy_properties);
    config
}

/// Merges a policy with the source of a secret.
///
/// Fails with [`MergeError::MissingBackendProperty`] exactly when the policy
/// has no property `backend`. Otherwise the configuration holds the fields
/// of the source, the backend, and under `policy_properties` the policy's
/// type and its properties other than the backend as JSON; where those
/// cannot be encoded the merge fails with [`MergeError::Serialization`].
pub fn merge_policy_properties(policy: &Policy, reference: &SecretSourceProperty) -> (merged:
    Result<StringMap, MergeError>)
    ensures
        merged_view(merged) == merged_config(policy@, reference@),
{
    let mut properties = policy.properties.clone();
    let backend = match properties.remove("backend") {
        Some(backend) => backend,
        None => {
            return Err(MergeError::MissingBackendProperty);
        },
    };
    match encode_policy_properties(policy.policy_type.as_str(), &properties) {
        Some(text) => Ok(build_config(reference, backend, text)),
        None => Err(MergeError::Serialization),
    }
}

} // verus!
