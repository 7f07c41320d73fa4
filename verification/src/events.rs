//! The events a scaler is told of.
use vstd::prelude::*;

verus! {

/// A configuration was stored under `config_name`.
#[derive(Debug, Clone, PartialEq, Eq)]
pub struct ConfigSet {
    pub config_name: String,
}

/// The configuration under `config_name` was deleted.
#[derive(Debug, Clone, PartialEq, Eq)]
pub struct ConfigDeleted {
    pub config_name: String,
}

/// What happened in the lattice. `HostHeartbeat` is the periodic sign of life
/// of a host; `Other` stands for every kind of event a secret scaler has no
/// use for.
#[derive(Debug, Clone, PartialEq, Eq)]
pub enum Event {
    ConfigSet(ConfigSet),
    ConfigDeleted(ConfigDeleted),
    HostHeartbeat,
    Other,
}

/// The view of an [`Event`].
pub enum EventView {
    ConfigSet { config_name: Seq<char> },
    ConfigDeleted { config_name: Seq<char> },
    HostHeartbeat,
    Other,
}

impl View for Event {
    type V = EventView;

    open spec fn view(&self) -> EventView {
        match self {
            Event::ConfigSet(set) => EventView::ConfigSet { config_name: set.config_name@ },
            Event::ConfigDeleted(deleted) => EventView::ConfigDeleted {
                config_name: deleted.config_name@,
            },
            Event::HostHeartbeat => EventView::HostHeartbeat,
            Event::Other => EventView::Other,
        }
    }
}

} // verus!
