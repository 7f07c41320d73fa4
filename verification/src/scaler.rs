//! The scaler for one secret: it compares what the backend holds for the
//! secret with the source it was given, reports where it stands, and says
//! what has to be stored or deleted.
//!
//! A scaler never talks to the backend by itself. What the backend holds
//! comes in as an argument of [`SecretScaler::reconcile_with`], or from a
//! [`SecretSource`] that [`SecretScaler::reconcile`] asks. Commands are
//! handed back, never applied.
use crate::commands::{commands_view, Command, CommandView, DeleteConfig, PutConfig};
use crate::events::{Event, EventView};
use crate::identity::{derive_id, identity};
use crate::merge::{merge_policy_properties, merged_config};
use crate::types::{
    fetched_view, FetchError, Policy, PolicyView, SecretSourceProperty, SecretSourceView,
    StatusInfo, StatusInfoView, StatusType,
};
use vstd::prelude::*;

verus! {

/// The prefix of the names under which secrets are stored as configuration.
pub const SECRET_CONFIG_PREFIX: &'static str = "SECRET";

/// Something that can say what the backend holds for a secret: a source, no
/// source, or an error. Two calls may answer differently.
pub trait SecretSource {
    fn get_secret(&self, secret_name: &str) -> Result<Option<SecretSourceProperty>, FetchError>;
}

/// The scaler for one secret.
pub struct SecretScaler<S> {
    secret_source: S,
    id: String,
    secret_name: String,
    source: SecretSourceProperty,
    status: StatusInfo,
    policy: Policy,
}

/// The view of a [`SecretScaler`]: everything but the handle to the backend.
pub struct ScalerView {
    pub id: Seq<char>,
    pub secret_name: Seq<char>,
    pub source: SecretSourceView,
    pub policy: PolicyView,
    pub status: StatusInfoView,
}

/// The message of the status of a scaler whose secret is not in place.
pub open spec fn out_of_sync() -> Seq<char> {
    "Secret out of sync"@
}

impl ScalerView {
    /// The status after a reconciliation that found `fetched` in the
    /// backend: deployed where the backend holds the very source of the
    /// scaler; failed, with the description, where the backend or the merge
    /// gave an error; reconciling otherwise.
    pub open spec fn status_after(
        self,
        fetched: Result<Option<SecretSourceView>, Seq<char>>,
    ) -> StatusInfoView {
        match fetched {
            Err(description) => StatusInfoView {
                status_type: StatusType::Failed,
                message: description,
            },
            Ok(actual) => if actual == Some(self.source) {
                StatusInfoView { status_type: StatusType::Deployed, message: Seq::empty() }
            } else {
                match merged_config(self.policy, self.source) {
                    Ok(_) => StatusInfoView {
                        status_type: StatusType::Reconciling,
                        message: out_of_sync(),
                    },
                    Err(error) => StatusInfoView {
                        status_type: StatusType::Failed,
                        message: error.description(),
                    },
                }
            },
        }
    }

    /// The scaler after a reconciliation that found `fetched`: only its
    /// status changes.
    pub open spec fn after_reconcile(
        self,
        fetched: Result<Option<SecretSourceView>, Seq<char>>,
    ) -> ScalerView {
        ScalerView { status: self.status_after(fetched), ..self }
    }

    /// The commands of a reconciliation that found `fetched`: one command
    /// to store the merged configuration where the backend holds no source
    /// or another one and the merge succeeds, none otherwise.
    pub open spec fn commands_for(
        self,
        fetched: Result<Option<SecretSourceView>, Seq<char>>,
    ) -> Seq<CommandView> {
        match fetched {
            Err(_) => Seq::empty(),
            Ok(actual) => if actual == Some(self.source) {
                Seq::empty()
            } else {
                match merged_config(self.policy, self.source) {
                    Ok(config) => seq![
                        CommandView::PutConfig { config_name: self.secret_name, config },
                    ],
                    Err(_) => Seq::empty(),
                }
            },
        }
    }

    /// Whether an event makes the scaler reconcile: a configuration stored
    /// or deleted under the name of its secret does, and a heartbeat does
    /// while the scaler is not deployed.
    pub open spec fn wants_reconcile(self, event: EventView) -> bool {
        match event {
            EventView::ConfigSet { config_name } => config_name == self.secret_name,
            EventView::ConfigDeleted { config_name } => config_name == self.secret_name,
            EventView::HostHeartbeat => self.status.status_type != StatusType::Deployed,
            EventView::Other => false,
        }
    }

    /// `after` and `commands` are what one reconciliation of `self` gives
    /// for some answer of the backend.
    pub open spec fn reconciles_to(self, after: ScalerView, commands: Seq<CommandView>) -> bool {
        exists|fetched: Result<Option<SecretSourceView>, Seq<char>>|
            #![trigger self.after_reconcile(fetched)]
            after == self.after_reconcile(fetched) && commands == self.commands_for(fetched)
    }
}

impl<S> View for SecretScaler<S> {
    type V = ScalerView;

    closed spec fn view(&self) -> ScalerView {
        ScalerView {
            id: self.id@,
            secret_name: self.secret_name@,
            source: self.source@,
            policy: self.policy@,
            status: self.status@,
        }
    }
}

impl<S> SecretScaler<S> {
    /// The handle to the backend that the scaler was made with.
    pub closed spec fn backend(&self) -> S {
        self.secret_source
    }

    /// A scaler for the secret `secret_name` that is to come from `source`
    /// under `policy`. Its identity is derived from the name and the source,
    /// and it starts out reconciling, with an empty message. Nothing is
    /// checked here: a policy without a backend shows when the scaler
    /// reconciles.
    pub fn new(
        secret_name: String,
        source: SecretSourceProperty,
        secret_source: S,
        policy: Policy,
    ) -> (scaler: SecretScaler<S>)
        ensures
            scaler@ == (ScalerView {
                id: identity(secret_name@, source@),
                secret_name: secret_name@,
                source: source@,
                policy: policy@,
                status: StatusInfoView {
                    status_type: StatusType::Reconciling,
                    message: Seq::empty(),
                },
            }),
            scaler.backend() == secret_source,
    {
        proof {
            reveal_strlit("");
        }
        let id = derive_id(secret_name.as_str(), &source);
        let status = StatusInfo::reconciling("");
        assert(status@.message =~= Seq::<char>::empty());
        SecretScaler { secret_source, id, secret_name, source, status, policy }
    }

    /// The identity of the scaler.
    pub fn id(&self) -> (id: &str)
        ensures
            id@ == self@.id,
    {
        self.id.as_str()
    }

    /// The name of the secret.
    pub fn secret_name(&self) -> (name: &str)
        ensures
            name@ == self@.secret_name,
    {
        self.secret_name.as_str()
    }

    /// The handle to the backend.
    pub fn secret_source(&self) -> (handle: &S)
        ensures
            *handle == self.backend(),
    {
        &self.secret_source
    }

    /// The status as the last reconciliation left it. Reads only.
    pub fn last_status(&self) -> (status: StatusInfo)
        ensures
            status@ == self@.status,
    {
        self.status.clone()
    }

    /// Whether `event` makes the scaler reconcile.
    pub fn needs_reconcile(&self, event: &Event) -> (needed: bool)
        ensures
            needed == self@.wants_reconcile(event@),
    {
        match event {
            Event::ConfigSet(set) => set.config_name == self.secret_name,
            Event::ConfigDeleted(deleted) => deleted.config_name == self.secret_name,
            Event::HostHeartbeat => !matches!(self.status.status_type, StatusType::Deployed),
            Event::Other => false,
        }
    }

    /// Reconciles against `fetched`, the answer of the backend for the
    /// secret of this scaler. Sets the status and returns the commands that
    /// bring the backend in line: none where it already is, or where the
    /// backend or the merge failed.
    pub fn reconcile_with(
        &mut self,
        fetched: Result<Option<SecretSourceProperty>, FetchError>,
    ) -> (commands: Vec<Command>)
        ensures
            final(self)@ == old(self)@.after_reconcile(fetched_view(fetched)),
            commands_view(commands@) == old(self)@.commands_for(fetched_view(fetched)),
            final(self).backend() == old(self).backend(),
    {
        proof {
            reveal_strlit("");
        }
        let mut commands: Vec<Command> = Vec::new();
        match fetched {
            Err(error) => {
                self.status = StatusInfo::failed(error.description.as_str());
            },
            Ok(actual) => {
                let in_sync = match &actual {
                    Some(config) => *config == self.source,
                    None => false,
                };
                if in_sync {
                    self.status = StatusInfo::deployed("");
                    assert(self.status@.message =~= Seq::<char>::empty());
                } else {
                    match merge_policy_properties(&self.policy, &self.source) {
                        Ok(config) => {
                            self.status = StatusInfo::reconciling("Secret out of sync");
                            commands.push(
                                Command::PutConfig(
                                    PutConfig { config_name: self.secret_name.clone(), config },
                                ),
                            );
                        },
                        Err(error) => {
                            self.status = StatusInfo::failed(error.message().as_str());
                        },
                    }
                }
            },
        }
        assert(commands_view(commands@) =~= old(self)@.commands_for(fetched_view(fetched)));
        commands
    }

    /// The command that deletes the configuration of the secret. Changes
    /// nothing, whatever the status.
    pub fn cleanup(&self) -> (commands: Vec<Command>)
        ensures
            commands_view(commands@) == seq![
                CommandView::DeleteConfig { config_name: self@.secret_name },
            ],
    {
        let mut commands: Vec<Command> = Vec::new();
        commands.push(Command::DeleteConfig(DeleteConfig { config_name: self.secret_name.clone() }));
        assert(commands_view(commands@) =~= seq![
            CommandView::DeleteConfig { config_name: self@.secret_name },
        ]);
        commands
    }

    /// A secret has no configuration of its own to update: nothing changes
    /// and there is nothing to do.
    pub fn update_config(&mut self, _config: wadm_types::TraitProperty) -> (commands: Vec<Command>)
        ensures
            commands@.len() == 0,
            final(self)@ == old(self)@,
            final(self).backend() == old(self).backend(),
    {
        Vec::new()
    }
}

impl<S: SecretSource> SecretScaler<S> {
    /// Asks the backend what it holds for the secret and reconciles against
    /// the answer, as [`SecretScaler::reconcile_with`] does.
    pub fn reconcile(&mut self) -> (commands: Vec<Command>)
        ensures
            old(self)@.reconciles_to(final(self)@, commands_view(commands@)),
            final(self).backend() == old(self).backend(),
    {
        let fetched = self.secret_source.get_secret(self.secret_name.as_str());
        let ghost answer = fetched_view(fetched);
        let commands = self.reconcile_with(fetched);
        assert(self@ == old(self)@.after_reconcile(answer));
        commands
    }

    /// Reconciles, then returns the status. Asking for the status is no
    /// plain read: the backend is asked every time.
    pub fn status(&mut self) -> (status: StatusInfo)
        ensures
            exists|commands: Seq<CommandView>| old(self)@.reconciles_to(final(self)@, commands),
            status@ == final(self)@.status,
            final(self).backend() == old(self).backend(),
    {
        let commands = self.reconcile();
        assert(old(self)@.reconciles_to(self@, commands_view(commands@)));
        self.status.clone()
    }

    /// Reconciles where `event` calls for it, and returns the commands of
    /// that reconciliation. Any other event changes nothing, gives no
    /// command, and the backend is not asked.
    pub fn handle_event(&mut self, event: &Event) -> (commands: Vec<Command>)
        ensures
            old(self)@.wants_reconcile(event@) ==> old(self)@.reconciles_to(
                final(self)@,
                commands_view(commands@),
            ),
            !old(self)@.wants_reconcile(event@) ==> final(self)@ == old(self)@ && commands@.len()
                == 0,
            final(self).backend() == old(self).backend(),
    {
        if self.needs_reconcile(event) {
            self.reconcile()
        } else {
            Vec::new()
        }
    }
}

} // verus!
