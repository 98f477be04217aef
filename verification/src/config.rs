use vstd::prelude::*;

verus! {

/// The sampling universe for character generation: the display names of the
/// available races and classes, and the archetype names used when the drawn
/// class is the reserved value `"Wizard"`.
///
/// A configuration is immutable once built; every generation call reads it
/// and never changes it.
#[derive(Debug, Clone)]
pub struct Config {
    pub races: Vec<String>,
    pub classes: Vec<String>,
    pub wizard_archetypes: Vec<String>,
}

/// Which of the three name lists was found empty, in validation order:
/// races are checked first, then classes, then wizard archetypes.
#[derive(Debug, Clone, Copy, PartialEq, Eq, Structural)]
pub enum ConfigError {
    EmptyRaces,
    EmptyClasses,
    EmptyArchetypes,
}

/// A configuration is valid exactly when each of its three name lists holds
/// at least one entry.
pub open spec fn config_is_valid(c: Config) -> bool {
    c.races@.len() > 0 && c.classes@.len() > 0 && c.wizard_archetypes@.len() > 0
}

} // verus!
