//! Decisions on a creature's needs.
//!
//! Need levels are fractions kept by the caller; what this module decides is
//! which need is the most urgent, given how the urgencies compare, and whether
//! any need is critical.

use vstd::prelude::*;

verus! {

/// Types of creature needs.
#[derive(Debug, Clone, Copy, PartialEq, Eq, Structural)]
pub enum NeedType {
    Hunger,
    Thirst,
    Energy,
}

/// Detailed critical status for each of a creature's needs.
#[derive(Debug, Clone, Copy, PartialEq, Eq, Structural)]
pub struct CriticalStatus {
    pub hunger_critical: bool,
    pub thirst_critical: bool,
    pub energy_critical: bool,
}

impl CriticalStatus {
    /// Returns true if any need is critical.
    pub fn any_critical(&self) -> (r: bool)
        ensures
            r == (self.hunger_critical || self.thirst_critical || self.energy_critical),
    {
        self.hunger_critical || self.thirst_critical || self.energy_critical
    }
}

/// The most urgent need, given how the urgencies of hunger, thirst and energy
/// (the latter being one minus the energy level) compare: thirst wins ties
/// against both, hunger wins a tie against energy.
pub open spec fn most_urgent_spec(
    thirst_ge_hunger: bool,
    thirst_ge_energy: bool,
    hunger_ge_energy: bool,
) -> NeedType {
    if thirst_ge_hunger && thirst_ge_energy {
        NeedType::Thirst
    } else if hunger_ge_energy {
        NeedType::Hunger
    } else {
        NeedType::Energy
    }
}

/// Determines which need is most urgent from the comparisons
/// `thirst >= hunger`, `thirst >= energy urgency` and
/// `hunger >= energy urgency`.
pub fn most_urgent(thirst_ge_hunger: bool, thirst_ge_energy: bool, hunger_ge_energy: bool) -> (n:
    NeedType)
    ensures
        n == most_urgent_spec(thirst_ge_hunger, thirst_ge_energy, hunger_ge_energy),
{
    if thirst_ge_hunger && thirst_ge_energy {
        NeedType::Thirst
    } else if hunger_ge_energy {
        NeedType::Hunger
    } else {
        NeedType::Energy
    }
}

/// The urgency of a need among three given urgencies.
pub open spec fn urgency_of(n: NeedType, hunger: int, thirst: int, energy_urgency: int) -> int {
    match n {
        NeedType::Hunger => hunger,
        NeedType::Thirst => thirst,
        NeedType::Energy => energy_urgency,
    }
}

/// When the comparisons come from actual urgency values, the chosen need is
/// at least as urgent as each of the three.
pub proof fn lemma_most_urgent_is_maximal(hunger: int, thirst: int, energy_urgency: int)
    ensures
        ({
            let n = most_urgent_spec(
                thirst >= hunger,
                thirst >= energy_urgency,
                hunger >= energy_urgency,
            );
            let u = urgency_of(n, hunger, thirst, energy_urgency);
            &&& u >= hunger
            &&& u >= thirst
            &&& u >= energy_urgency
        }),
{
}

/// Ties are broken in a fixed order: thirst before hunger and energy, hunger
/// before energy; a need strictly more urgent than both others is chosen.
pub proof fn lemma_most_urgent_ties(hunger: int, thirst: int, energy_urgency: int)
    ensures
        ({
            let n = most_urgent_spec(
                thirst >= hunger,
                thirst >= energy_urgency,
                hunger >= energy_urgency,
            );
            &&& (thirst >= hunger && thirst >= energy_urgency) ==> n == NeedType::Thirst
            &&& (hunger > thirst && hunger >= energy_urgency) ==> n == NeedType::Hunger
            &&& (energy_urgency > thirst && energy_urgency > hunger) ==> n == NeedType::Energy
        }),
{
}

} // verus!
