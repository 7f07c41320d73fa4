//! The values a secret scaler is built from and reports: the source of a
//! secret, the policy that names its backend, and the status of the scaler.
//!
//! Each type has a view made of sequences of characters, and every contract
//! of the library is stated over those views.
use crate::string_map::StringMap;
use vstd::prelude::*;
use vstd::std_specs::cmp::PartialEqSpecImpl;

verus! {

/// The view of an optional string.
pub open spec fn option_view(value: Option<String>) -> Option<Seq<char>> {
    match value {
        Some(s) => Some(s@),
        None => None,
    }
}

/// Copies an optional string.
pub fn clone_option(value: &Option<String>) -> (copy: Option<String>)
    ensures
        option_view(copy) == option_view(*value),
{
    match value {
        Some(s) => Some(s.clone()),
        None => None,
    }
}

/// Whether two optional strings hold the same text.
pub fn same_option(a: &Option<String>, b: &Option<String>) -> (same: bool)
    ensures
        same == (option_view(*a) == option_view(*b)),
{
    match (a, b) {
        (Some(x), Some(y)) => *x == *y,
        (None, None) => true,
        _ => false,
    }
}

/// Where a secret comes from: the policy that names the backend, the key
/// under which the backend holds the secret, and optionally one field of the
/// secret and one version of it.
#[derive(Debug)]
pub struct SecretSourceProperty {
    pub policy: String,
    pub key: String,
    pub field: Option<String>,
    pub version: Option<String>,
}

/// The view of a [`SecretSourceProperty`].
pub struct SecretSourceView {
    pub policy: Seq<char>,
    pub key: Seq<char>,
    pub field: Option<Seq<char>>,
    pub version: Option<Seq<char>>,
}

impl View for SecretSourceProperty {
    type V = SecretSourceView;

    open spec fn view(&self) -> SecretSourceView {
        SecretSourceView {
            policy: self.policy@,
            key: self.key@,
            field: option_view(self.field),
            version: option_view(self.version),
        }
    }
}

impl Clone for SecretSourceProperty {
    fn clone(&self) -> (copy: SecretSourceProperty)
        ensures
            copy@ == self@,
    {
        SecretSourceProperty {
            policy: self.policy.clone(),
            key: self.key.clone(),
            field: clone_option(&self.field),
            version: clone_option(&self.version),
        }
    }
}

impl PartialEq for SecretSourceProperty {
    fn eq(&self, other: &SecretSourceProperty) -> (same: bool) {
        self.policy == other.policy && self.key == other.key && same_option(
            &self.field,
            &other.field,
        ) && same_option(&self.version, &other.version)
    }
}

impl PartialEqSpecImpl for SecretSourceProperty {
    open spec fn obeys_eq_spec() -> bool {
        true
    }

    open spec fn eq_spec(&self, other: &SecretSourceProperty) -> bool {
        self@ == other@
    }
}

impl Eq for SecretSourceProperty {

}

/// A named policy: the kind of policy it is and its properties. A policy for
/// secrets names its backend under the property `backend`.
#[derive(Debug, PartialEq, Eq)]
pub struct Policy {
    pub name: String,
    pub properties: StringMap,
    pub policy_type: String,
}

/// The view of a [`Policy`].
pub struct PolicyView {
    pub name: Seq<char>,
    pub properties: Map<Seq<char>, Seq<char>>,
    pub policy_type: Seq<char>,
}

impl View for Policy {
    type V = PolicyView;

    open spec fn view(&self) -> PolicyView {
        PolicyView {
            name: self.name@,
            properties: self.properties@,
            policy_type: self.policy_type@,
        }
    }
}

impl Clone for Policy {
    fn clone(&self) -> (copy: Policy)
        ensures
            copy@ == self@,
    {
        Policy {
            name: self.name.clone(),
            properties: self.properties.clone(),
            policy_type: self.policy_type.clone(),
        }
    }
}

/// The three states a scaler reports.
#[derive(Clone, Copy, Debug, PartialEq, Eq, Structural)]
pub enum StatusType {
    Reconciling,
    Deployed,
    Failed,
}

/// A status with the message that explains it.
#[derive(Debug, PartialEq, Eq)]
pub struct StatusInfo {
    pub status_type: StatusType,
    pub message: String,
}

/// The view of a [`StatusInfo`].
pub struct StatusInfoView {
    pub status_type: StatusType,
    pub message: Seq<char>,
}

impl View for StatusInfo {
    type V = StatusInfoView;

    open spec fn view(&self) -> StatusInfoView {
        StatusInfoView { status_type: self.status_type, message: self.message@ }
    }
}

impl Clone for StatusInfo {
    fn clone(&self) -> (copy: StatusInfo)
        ensures
            copy@ == self@,
    {
        StatusInfo { status_type: self.status_type, message: self.message.clone() }
    }
}

impl StatusInfo {
    /// The status of a scaler that is still bringing its secret in line.
    pub fn reconciling(message: &str) -> (status: StatusInfo)
        ensures
            status@ == (StatusInfoView {
                status_type: StatusType::Reconciling,
                message: message@,
            }),
    {
        StatusInfo { status_type: StatusType::Reconciling, message: message.to_owned() }
    }

    /// The status of a scaler whose secret is in place.
    pub fn deployed(message: &str) -> (status: StatusInfo)
        ensures
            status@ == (StatusInfoView { status_type: StatusType::Deployed, message: message@ }),
    {
        StatusInfo { status_type: StatusType::Deployed, message: message.to_owned() }
    }

    /// The status of a scaler that could not do its work.
    pub fn failed(message: &str) -> (status: StatusInfo)
        ensures
            status@ == (StatusInfoView { status_type: StatusType::Failed, message: message@ }),
    {
        StatusInfo { status_type: StatusType::Failed, message: message.to_owned() }
    }
}

/// Why the backend could not say what it holds for a secret.
#[derive(Debug, PartialEq, Eq)]
pub struct FetchError {
    pub description: String,
}

impl FetchError {
    /// An error with the given description.
    pub fn new(description: String) -> (error: FetchError)
        ensures
            error.description@ == description@,
    {
        FetchError { description }
    }
}

/// What the backend holds for a secret, or why it could not say: a source,
/// no source, or an error with its description.
pub open spec fn fetched_view(
    fetched: Result<Option<SecretSourceProperty>, FetchError>,
) -> Result<Option<SecretSourceView>, Seq<char>> {
    match fetched {
        Ok(Some(source)) => Ok(Some(source@)),
        Ok(None) => Ok(None),
        Err(error) => Err(error.description@),
    }
}

} // verus!
