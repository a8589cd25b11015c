//! Per-frame rules of a creature's life: whether it moves, what it consumes,
//! and whether and why it dies.

use vstd::prelude::*;
use crate::creature::CreatureState;
use crate::resource::ResourceType;

verus! {

/// Cause of a creature's death.
#[derive(Debug, Clone, Copy, PartialEq, Eq, Structural)]
pub enum DeathCause {
    Starvation,
    Dehydration,
    Exhaustion,
    OldAge,
}

/// Whether a creature in this state stays in place: dead, or busy eating,
/// drinking or resting.
pub open spec fn is_stationary_spec<P>(s: CreatureState<P>) -> bool {
    s is Dead || s is Eating || s is Drinking || s is Resting
}

/// Whether a creature in this state stays in place (its velocity is zeroed).
pub fn is_stationary<P>(s: &CreatureState<P>) -> (r: bool)
    ensures
        r == is_stationary_spec(*s),
{
    match s {
        CreatureState::Dead | CreatureState::Eating | CreatureState::Drinking
        | CreatureState::Resting => true,
        _ => false,
    }
}

/// The kind of resource a creature in this state consumes, if any.
pub open spec fn consumed_resource_spec<P>(s: CreatureState<P>) -> Option<ResourceType> {
    match s {
        CreatureState::Eating => Some(ResourceType::Food),
        CreatureState::Drinking => Some(ResourceType::Water),
        _ => None,
    }
}

/// The kind of resource a creature in this state consumes, if any.
pub fn consumed_resource<P>(s: &CreatureState<P>) -> (r: Option<ResourceType>)
    ensures
        r == consumed_resource_spec(*s),
{
    match s {
        CreatureState::Eating => Some(ResourceType::Food),
        CreatureState::Drinking => Some(ResourceType::Water),
        _ => None,
    }
}

/// Whether a creature dies, and of what, checked in this order: health used
/// up (reported as old age), hunger at its maximum, thirst at its maximum,
/// energy at its maximum, age beyond the limit.
pub open spec fn death_cause_spec(
    health_is_dead: bool,
    starving: bool,
    dehydrated: bool,
    exhausted: bool,
    too_old: bool,
) -> Option<DeathCause> {
    if health_is_dead {
        Some(DeathCause::OldAge)
    } else if starving {
        Some(DeathCause::Starvation)
    } else if dehydrated {
        Some(DeathCause::Dehydration)
    } else if exhausted {
        Some(DeathCause::Exhaustion)
    } else if too_old {
        Some(DeathCause::OldAge)
    } else {
        None
    }
}

/// Decides whether a creature dies this frame, and of what.
pub fn death_cause(
    health_is_dead: bool,
    starving: bool,
    dehydrated: bool,
    exhausted: bool,
    too_old: bool,
) -> (r: Option<DeathCause>)
    ensures
        r == death_cause_spec(health_is_dead, starving, dehydrated, exhausted, too_old),
{
    if health_is_dead {
        Some(DeathCause::OldAge)
    } else if starving {
        Some(DeathCause::Starvation)
    } else if dehydrated {
        Some(DeathCause::Dehydration)
    } else if exhausted {
        Some(DeathCause::Exhaustion)
    } else if too_old {
        Some(DeathCause::OldAge)
    } else {
        None
    }
}

/// A creature dies exactly when one of the five conditions holds.
pub proof fn lemma_dies_iff_some_condition(
    health_is_dead: bool,
    starving: bool,
    dehydrated: bool,
    exhausted: bool,
    too_old: bool,
)
    ensures
        death_cause_spec(health_is_dead, starving, dehydrated, exhausted, too_old) is Some <==> (
        health_is_dead || starving || dehydrated || exhausted || too_old),
{
}

/// Only creatures busy eating or drinking consume, and those stay in place.
pub proof fn lemma_consumers_are_stationary<P>(s: CreatureState<P>)
    ensures
        consumed_resource_spec(s) is Some ==> is_stationary_spec(s),
{
}

/// The cause of death follows a fixed priority: used-up health first
/// (reported as old age), then starvation, dehydration, exhaustion, and
/// finally old age; a creature meeting none of the conditions lives on.
pub proof fn lemma_death_cause_priority(
    health_is_dead: bool,
    starving: bool,
    dehydrated: bool,
    exhausted: bool,
    too_old: bool,
)
    ensures
        ({
            let c = death_cause_spec(health_is_dead, starving, dehydrated, exhausted, too_old);
            &&& health_is_dead ==> c == Some(DeathCause::OldAge)
            &&& !health_is_dead && starving ==> c == Some(DeathCause::Starvation)
            &&& !health_is_dead && !starving && dehydrated ==> c == Some(DeathCause::Dehydration)
            &&& !health_is_dead && !starving && !dehydrated && exhausted ==> c == Some(
                DeathCause::Exhaustion,
            )
            &&& !health_is_dead && !starving && !dehydrated && !exhausted && too_old ==> c == Some(
                DeathCause::OldAge,
            )
        }),
{
}

/// Only idle and moving creatures move; eating consumes food, drinking
/// consumes water, and nothing else consumes.
pub proof fn lemma_movement_and_consumption<P>(s: CreatureState<P>)
    ensures
        is_stationary_spec(s) <==> !(s is Idle || s is Moving),
        s is Eating ==> consumed_resource_spec(s) == Some(ResourceType::Food),
        s is Drinking ==> consumed_resource_spec(s) == Some(ResourceType::Water),
        !(s is Eating || s is Drinking) ==> consumed_resource_spec(s) is None,
{
}

} // verus!
