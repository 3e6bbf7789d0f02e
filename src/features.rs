use vstd::prelude::*;

verus! {

/// A persisted feature flag with its gate values.
#[derive(Clone, Debug, Default)]
pub struct Feature {
    pub name: String,
    pub state: String,
    pub definition: Option<Definition>,
    pub gates: Vec<Gate>,
}

/// One gate of a feature flag.
#[derive(Clone, Debug, PartialEq, Eq, Structural)]
pub enum Gate {
    Boolean { value: bool },
    PercentageOfActors { value: u32 },
}

/// The definition of a feature flag.
#[derive(Clone, Debug, Default)]
pub struct Definition {
    pub name: String,
    pub introduced_by_url: Option<String>,
    pub rollout_issue_url: Option<String>,
    pub milestone: Option<String>,
    /// The flag's kind (sent as `type`).
    pub type_: String,
    pub group: Option<String>,
    pub default_enabled: bool,
    pub log_state_changes: Option<bool>,
}

} // verus!
