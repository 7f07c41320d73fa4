//! A scaler that keeps one secret in line with its source.
//!
//! The scaler is told what the backend holds for its secret, compares that
//! with the source it was made for, keeps a status, and answers with the
//! commands that close the gap. Everything here is plain computation: asking
//! the backend and applying the commands is left to the caller.

pub mod commands;
pub mod events;
pub mod identity;
pub mod laws;
pub mod merge;
pub mod outside;
pub mod scaler;
pub mod string_map;
pub mod types;

pub use commands::{Command, DeleteConfig, PutConfig};
pub use events::{ConfigDeleted, ConfigSet, Event};
pub use merge::{merge_policy_properties, MergeError};
pub use scaler::{SecretScaler, SecretSource, SECRET_CONFIG_PREFIX};
pub use string_map::StringMap;
pub use types::{FetchError, Policy, SecretSourceProperty, StatusInfo, StatusType};
