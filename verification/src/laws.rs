//! What holds of a secret scaler whatever its secret, its policy and the
//! answers of the backend are.
use crate::commands::CommandView;
use crate::events::EventView;
use crate::identity::{decimal, identity, lemma_decimal_is_injective};
use crate::merge::{merged_config, MergeError};
use crate::outside::source_hash;
use crate::scaler::{out_of_sync, ScalerView};
use crate::types::{SecretSourceView, StatusInfoView, StatusType};
use vstd::prelude::*;

verus! {

/// The identity of a scaler is a function of the name of its secret and of
/// the secret's source: equal names and equal sources give equal identities.
pub proof fn law_identity_is_determined(
    name_a: Seq<char>,
    source_a: SecretSourceView,
    name_b: Seq<char>,
    source_b: SecretSourceView,
)
    requires
        name_a == name_b,
        source_a == source_b,
    ensures
        identity(name_a, source_a) == identity(name_b, source_b),
{
}

/// The identity keeps the whole hash of the source: under one name, two
/// sources with different hashes get different identities.
pub proof fn law_identity_keeps_the_hash(
    name: Seq<char>,
    source_a: SecretSourceView,
    source_b: SecretSourceView,
)
    requires
        source_hash(source_a.policy, source_a.key, source_a.field, source_a.version)
            != source_hash(source_b.policy, source_b.key, source_b.field, source_b.version),
    ensures
        identity(name, source_a) != identity(name, source_b),
{
    let hash_a = source_hash(source_a.policy, source_a.key, source_a.field, source_a.version);
    let hash_b = source_hash(source_b.policy, source_b.key, source_b.field, source_b.version);
    let id_a = identity(name, source_a);
    let id_b = identity(name, source_b);
    if id_a == id_b {
        let start = name.len() + 1;
        assert(id_a.subrange(start as int, id_a.len() as int) =~= decimal(hash_a as nat));
        assert(id_b.subrange(start as int, id_b.len() as int) =~= decimal(hash_b as nat));
        lemma_decimal_is_injective(hash_a as nat, hash_b as nat);
    }
}

/// Reconciling twice against the same answer of the backend gives the same
/// commands both times and leaves the scaler as the first time left it.
pub proof fn law_reconcile_is_idempotent(
    scaler: ScalerView,
    fetched: Result<Option<SecretSourceView>, Seq<char>>,
)
    ensures
        scaler.after_reconcile(fetched).commands_for(fetched) == scaler.commands_for(fetched),
        scaler.after_reconcile(fetched).after_reconcile(fetched) == scaler.after_reconcile(
            fetched,
        ),
{
}

/// A reconciliation changes the status of a scaler and nothing else.
pub proof fn law_reconcile_changes_only_the_status(
    scaler: ScalerView,
    fetched: Result<Option<SecretSourceView>, Seq<char>>,
)
    ensures
        scaler.after_reconcile(fetched).id == scaler.id,
        scaler.after_reconcile(fetched).secret_name == scaler.secret_name,
        scaler.after_reconcile(fetched).source == scaler.source,
        scaler.after_reconcile(fetched).policy == scaler.policy,
{
}

/// A scaler whose policy and source can be merged converges. While the
/// backend holds nothing for its secret, it is reconciling and gives the one
/// command that stores the merged configuration under the name of the
/// secret. Once the backend holds the source of the scaler, it is deployed
/// and gives no command.
pub proof fn law_reconcile_converges(scaler: ScalerView)
    requires
        merged_config(scaler.policy, scaler.source) is Ok,
    ensures
        scaler.commands_for(Ok(None)) == seq![
            CommandView::PutConfig {
                config_name: scaler.secret_name,
                config: merged_config(scaler.policy, scaler.source)->Ok_0,
            },
        ],
        scaler.after_reconcile(Ok(None)).status == (StatusInfoView {
            status_type: StatusType::Reconciling,
            message: out_of_sync(),
        }),
        scaler.after_reconcile(Ok(None)).commands_for(Ok(Some(scaler.source))) == Seq::<
            CommandView,
        >::empty(),
        scaler.after_reconcile(Ok(None)).after_reconcile(Ok(Some(scaler.source))).status == (
        StatusInfoView { status_type: StatusType::Deployed, message: Seq::empty() }),
{
}

/// A scaler is deployed after a reconciliation exactly when the backend
/// holds the very source of the scaler.
pub proof fn law_deployed_means_in_sync(
    scaler: ScalerView,
    fetched: Result<Option<SecretSourceView>, Seq<char>>,
)
    ensures
        scaler.after_reconcile(fetched).status.status_type == StatusType::Deployed <==> fetched
            == Ok::<Option<SecretSourceView>, Seq<char>>(Some(scaler.source)),
{
}

/// A failed merge never passes for success: where the backend does not hold
/// the source of the scaler and the policy cannot be merged with it, the
/// scaler is failed, with the description of the merge error, and gives no
/// command.
pub proof fn law_failed_merge_shows(
    scaler: ScalerView,
    actual: Option<SecretSourceView>,
    error: MergeError,
)
    requires
        actual != Some(scaler.source),
        merged_config(scaler.policy, scaler.source) == Err::<Map<Seq<char>, Seq<char>>, MergeError>(
            error,
        ),
    ensures
        scaler.commands_for(Ok(actual)) == Seq::<CommandView>::empty(),
        scaler.after_reconcile(Ok(actual)).status == (StatusInfoView {
            status_type: StatusType::Failed,
            message: error.description(),
        }),
{
}

/// A policy without a backend cannot be merged, whatever the source.
pub proof fn law_missing_backend_fails(scaler: ScalerView)
    requires
        !scaler.policy.properties.contains_key("backend"@),
    ensures
        merged_config(scaler.policy, scaler.source) == Err::<Map<Seq<char>, Seq<char>>, MergeError>(
            MergeError::MissingBackendProperty,
        ),
{
}

/// An error of the backend gives no command and leaves the scaler failed,
/// with the description of the error as its message.
pub proof fn law_fetch_failure_shows(scaler: ScalerView, description: Seq<char>)
    ensures
        scaler.commands_for(Err(description)) == Seq::<CommandView>::empty(),
        scaler.after_reconcile(Err(description)).status == (StatusInfoView {
            status_type: StatusType::Failed,
            message: description,
        }),
{
}

/// A configuration stored or deleted under another name than that of the
/// secret does not make the scaler reconcile; one under the name of the secret
/// does.
pub proof fn law_config_events_are_filtered_by_name(scaler: ScalerView, config_name: Seq<char>)
    ensures
        scaler.wants_reconcile(EventView::ConfigSet { config_name }) == (config_name
            == scaler.secret_name),
        scaler.wants_reconcile(EventView::ConfigDeleted { config_name }) == (config_name
            == scaler.secret_name),
{
}

/// A heartbeat makes the scaler reconcile exactly while it is not deployed.
pub proof fn law_heartbeat_is_gated_by_status(scaler: ScalerView)
    ensures
        scaler.wants_reconcile(EventView::HostHeartbeat) == (scaler.status.status_type
            != StatusType::Deployed),
{
}

/// After a reconciliation that found the backend out of line, the next
/// heartbeat makes the scaler reconcile again; after one that found it in
/// line, heartbeats are ignored.
pub proof fn law_heartbeat_follows_reconcile(
    scaler: ScalerView,
    fetched: Result<Option<SecretSourceView>, Seq<char>>,
)
    ensures
        scaler.after_reconcile(fetched).wants_reconcile(EventView::HostHeartbeat) == (fetched
            != Ok::<Option<SecretSourceView>, Seq<char>>(Some(scaler.source))),
{
}

/// Events of other kinds never make the scaler reconcile.
pub proof fn law_other_events_are_ignored(scaler: ScalerView)
    ensures
        !scaler.wants_reconcile(EventView::Other),
{
}

} // verus!
