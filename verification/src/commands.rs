//! The commands a scaler hands to whoever applies them.
use crate::string_map::StringMap;
use vstd::prelude::*;

verus! {

/// Store a configuration under a name.
#[derive(Debug, Clone, PartialEq, Eq)]
pub struct PutConfig {
    pub config_name: String,
    pub config: StringMap,
}

/// Delete the configuration stored under a name.
#[derive(Debug, Clone, PartialEq, Eq)]
pub struct DeleteConfig {
    pub config_name: String,
}

/// One step towards the desired state. A command carries no order: it is
/// applied by name, and applying it twice changes nothing more.
#[derive(Debug, Clone, PartialEq, Eq)]
pub enum Command {
    PutConfig(PutConfig),
    DeleteConfig(DeleteConfig),
}

/// The view of a [`Command`].
pub enum CommandView {
    PutConfig { config_name: Seq<char>, config: Map<Seq<char>, Seq<char>> },
    DeleteConfig { config_name: Seq<char> },
}

impl View for Command {
    type V = CommandView;

    open spec fn view(&self) -> CommandView {
        match self {
            Command::PutConfig(put) => CommandView::PutConfig {
                config_name: put.config_name@,
                config: put.config@,
            },
            Command::DeleteConfig(delete) => CommandView::DeleteConfig {
                config_name: delete.config_name@,
            },
        }
    }
}

/// The views of a list of commands, in order.
pub open spec fn commands_view(commands: Seq<Command>) -> Seq<CommandView> {
    commands.map_values(|command: Command| command@)
}

} // verus!
