//! A creature's decision: what to do next, given what it perceives.
//!
//! Perception (distances, nearest resources, threats, where to flee) is the
//! caller's part; the decision follows a fixed order of priorities: flee a
//! threat, then answer an urgent need, then seek company when lonely, then
//! wander when idle.

use vstd::prelude::*;
use crate::creature::CreatureState;
use crate::needs::NeedType;

verus! {

/// Diet of a creature, which decides who threatens whom.
#[derive(Debug, Clone, Copy, PartialEq, Eq, Hash, Structural)]
pub enum CreatureType {
    Herbivore,
    Carnivore,
    Omnivore,
}

/// What a creature is heading for.
#[derive(Debug, Clone, Copy, PartialEq)]
pub enum CurrentTarget<P, E> {
    /// No target.
    Nothing,
    Position(P),
    Entity(E),
}

/// A resource in sight: which one, where, and whether it is within reach.
#[derive(Debug, Clone, Copy)]
pub struct Sighting<P, E> {
    pub entity: E,
    pub position: P,
    pub within_reach: bool,
}

/// What a creature perceives when it decides.
#[derive(Debug, Clone, Copy)]
pub struct Perception<P, E> {
    /// Where to flee to, when a threat is near.
    pub flee_target: Option<P>,
    /// The most urgent need, when its urgency is high enough to act on.
    pub urgent_need: Option<NeedType>,
    /// The nearest food, if any is in sight.
    pub nearest_food: Option<Sighting<P, E>>,
    /// The nearest water, if any is in sight.
    pub nearest_water: Option<Sighting<P, E>>,
    /// Whether the creature longs for company.
    pub lonely: bool,
    /// The nearest other creature, if any, and whether it is far off.
    pub nearest_creature: Option<(P, bool)>,
    /// Where to wander to when there is nothing else to do.
    pub wander_target: P,
}

/// The outcome of a decision: the new state and target, when they change,
/// and whether the decision clock restarts.
#[derive(Debug, Clone, Copy)]
pub struct Decision<P, E> {
    pub state: Option<CreatureState<P>>,
    pub target: Option<CurrentTarget<P, E>>,
    pub reset_timer: bool,
}

/// Whether a creature of type `other` threatens one of type `own`; an
/// omnivore threatens a herbivore only when much healthier than it.
pub open spec fn is_threat_spec(own: CreatureType, other: CreatureType, other_much_healthier: bool) -> bool {
    match (own, other) {
        (CreatureType::Herbivore, CreatureType::Carnivore) => true,
        (CreatureType::Herbivore, CreatureType::Omnivore) => other_much_healthier,
        _ => false,
    }
}

/// Whether a creature of type `other` threatens one of type `own`.
pub fn is_threat(own: CreatureType, other: CreatureType, other_much_healthier: bool) -> (r: bool)
    ensures
        r == is_threat_spec(own, other, other_much_healthier),
{
    match (own, other) {
        (CreatureType::Herbivore, CreatureType::Carnivore) => true,
        (CreatureType::Herbivore, CreatureType::Omnivore) => other_much_healthier,
        _ => false,
    }
}

/// A decision that sets a state and a target.
pub open spec fn act<P, E>(state: CreatureState<P>, target: CurrentTarget<P, E>) -> Decision<P, E> {
    Decision { state: Some(state), target: Some(target), reset_timer: false }
}

/// Going for a resource in sight: consume it when within reach, else move to it.
pub open spec fn go_for<P, E>(s: Sighting<P, E>, consume: CreatureState<P>) -> Decision<P, E> {
    if s.within_reach {
        act(consume, CurrentTarget::Entity(s.entity))
    } else {
        act(CreatureState::Moving { target: s.position }, CurrentTarget::Position(s.position))
    }
}

/// Answering an urgent need, when it can be answered now.
pub open spec fn answer_need<P, E>(need: NeedType, p: Perception<P, E>) -> Option<Decision<P, E>> {
    match need {
        NeedType::Hunger => match p.nearest_food {
            Some(s) => Some(go_for(s, CreatureState::Eating)),
            None => None,
        },
        NeedType::Thirst => match p.nearest_water {
            Some(s) => Some(go_for(s, CreatureState::Drinking)),
            None => None,
        },
        NeedType::Energy => Some(act(CreatureState::Resting, CurrentTarget::Nothing)),
    }
}

/// The decision, by order of priority.
pub open spec fn decide_spec<P, E>(current: CreatureState<P>, p: Perception<P, E>) -> Decision<P, E> {
    if let Some(t) = p.flee_target {
        act(CreatureState::Moving { target: t }, CurrentTarget::Position(t))
    } else if p.urgent_need is Some && answer_need(p.urgent_need.unwrap(), p) is Some {
        answer_need(p.urgent_need.unwrap(), p).unwrap()
    } else if p.lonely && p.nearest_creature is Some && p.nearest_creature.unwrap().1 {
        let c = p.nearest_creature.unwrap().0;
        act(CreatureState::Moving { target: c }, CurrentTarget::Position(c))
    } else if current is Idle {
        Decision {
            state: Some(CreatureState::Moving { target: p.wander_target }),
            target: Some(CurrentTarget::Position(p.wander_target)),
            reset_timer: true,
        }
    } else {
        Decision { state: None, target: None, reset_timer: true }
    }
}

fn go_for_exec<P: Copy, E: Copy>(s: Sighting<P, E>, consume: CreatureState<P>) -> (d: Decision<P, E>)
    ensures
        d == go_for(s, consume),
{
    if s.within_reach {
        Decision { state: Some(consume), target: Some(CurrentTarget::Entity(s.entity)), reset_timer: false }
    } else {
        Decision {
            state: Some(CreatureState::Moving { target: s.position }),
            target: Some(CurrentTarget::Position(s.position)),
            reset_timer: false,
        }
    }
}

/// Decides what a creature in state `current` does next.
pub fn decide<P: Copy, E: Copy>(current: &CreatureState<P>, p: &Perception<P, E>) -> (d: Decision<P, E>)
    ensures
        d == decide_spec(*current, *p),
{
    if let Some(t) = p.flee_target {
        return Decision {
            state: Some(CreatureState::Moving { target: t }),
            target: Some(CurrentTarget::Position(t)),
            reset_timer: false,
        };
    }
    if let Some(need) = p.urgent_need {
        match need {
            NeedType::Hunger => {
                if let Some(s) = p.nearest_food {
                    return go_for_exec(s, CreatureState::Eating);
                }
            },
            NeedType::Thirst => {
                if let Some(s) = p.nearest_water {
                    return go_for_exec(s, CreatureState::Drinking);
                }
            },
            NeedType::Energy => {
                return Decision {
                    state: Some(CreatureState::Resting),
                    target: Some(CurrentTarget::Nothing),
                    reset_timer: false,
                };
            },
        }
    }
    if p.lonely {
        if let Some((c, far)) = p.nearest_creature {
            if far {
                return Decision {
                    state: Some(CreatureState::Moving { target: c }),
                    target: Some(CurrentTarget::Position(c)),
                    reset_timer: false,
                };
            }
        }
    }
    match current {
        CreatureState::Idle => Decision {
            state: Some(CreatureState::Moving { target: p.wander_target }),
            target: Some(CurrentTarget::Position(p.wander_target)),
            reset_timer: true,
        },
        _ => Decision { state: None, target: None, reset_timer: true },
    }
}

/// A near threat always wins: the creature flees, whatever its needs.
pub proof fn lemma_threat_first<P, E>(current: CreatureState<P>, p: Perception<P, E>)
    requires
        p.flee_target is Some,
    ensures
        decide_spec(current, p).state == Some(
            CreatureState::<P>::Moving { target: p.flee_target.unwrap() },
        ),
{
}

/// Without a threat, an urgent need for energy is answered by resting.
pub proof fn lemma_exhausted_rests<P, E>(current: CreatureState<P>, p: Perception<P, E>)
    requires
        p.flee_target is None,
        p.urgent_need == Some(NeedType::Energy),
    ensures
        decide_spec(current, p).state == Some(CreatureState::<P>::Resting),
        decide_spec(current, p).target == Some(CurrentTarget::<P, E>::Nothing),
{
}

/// The decision clock restarts only when nothing pressing was decided: every
/// decision that restarts it leaves the creature in its state or sends an
/// idle one wandering.
pub proof fn lemma_reset_only_when_unhurried<P, E>(current: CreatureState<P>, p: Perception<P, E>)
    ensures
        decide_spec(current, p).reset_timer ==> p.flee_target is None && (decide_spec(current, p).state
            is None || (current is Idle && decide_spec(current, p).state == Some(
            CreatureState::<P>::Moving { target: p.wander_target },
        ))),
{
}

/// Only carnivores, and omnivores much healthier than them, threaten
/// herbivores; nothing threatens carnivores or omnivores.
pub proof fn lemma_who_threatens_whom(own: CreatureType, other: CreatureType, healthier: bool)
    ensures
        own != CreatureType::Herbivore ==> !is_threat_spec(own, other, healthier),
        other == CreatureType::Herbivore ==> !is_threat_spec(own, other, healthier),
{
}

/// Without a threat, an urgent thirst with water in sight is answered by
/// going for the water: drinking it (target: the water) when within reach,
/// otherwise walking to it (target: its position); the decision clock does
/// not restart.
pub proof fn lemma_thirst_goes_for_water<P, E>(current: CreatureState<P>, p: Perception<P, E>)
    requires
        p.flee_target is None,
        p.urgent_need == Some(NeedType::Thirst),
        p.nearest_water is Some,
    ensures
        ({
            let w = p.nearest_water.unwrap();
            let d = decide_spec(current, p);
            &&& !d.reset_timer
            &&& w.within_reach ==> d.state == Some(CreatureState::<P>::Drinking)
                && d.target == Some(CurrentTarget::<P, E>::Entity(w.entity))
            &&& !w.within_reach ==> d.state == Some(
                CreatureState::<P>::Moving { target: w.position },
            ) && d.target == Some(CurrentTarget::<P, E>::Position(w.position))
        }),
{
}

/// Without a threat, an urgent hunger with food in sight is answered by going
/// for the food: eating it (target: the food) when within reach, otherwise
/// walking to it (target: its position); the decision clock does not restart.
pub proof fn lemma_hunger_goes_for_food<P, E>(current: CreatureState<P>, p: Perception<P, E>)
    requires
        p.flee_target is None,
        p.urgent_need == Some(NeedType::Hunger),
        p.nearest_food is Some,
    ensures
        ({
            let f = p.nearest_food.unwrap();
            let d = decide_spec(current, p);
            &&& !d.reset_timer
            &&& f.within_reach ==> d.state == Some(CreatureState::<P>::Eating)
                && d.target == Some(CurrentTarget::<P, E>::Entity(f.entity))
            &&& !f.within_reach ==> d.state == Some(
                CreatureState::<P>::Moving { target: f.position },
            ) && d.target == Some(CurrentTarget::<P, E>::Position(f.position))
        }),
{
}

/// When nothing threatens and no urgent need can be answered now (none is
/// urgent, or the resource it calls for is out of sight), a lonely creature
/// with another creature far off walks to it; otherwise an idle creature
/// wanders to its wander target and any other keeps its state and target; in
/// these last two cases the decision clock restarts.
pub proof fn lemma_unhurried_decisions<P, E>(current: CreatureState<P>, p: Perception<P, E>)
    requires
        p.flee_target is None,
        p.urgent_need is None || (p.urgent_need == Some(NeedType::Hunger) && p.nearest_food is None)
            || (p.urgent_need == Some(NeedType::Thirst) && p.nearest_water is None),
    ensures
        ({
            let d = decide_spec(current, p);
            if p.lonely && p.nearest_creature is Some && p.nearest_creature.unwrap().1 {
                let c = p.nearest_creature.unwrap().0;
                &&& d.state == Some(CreatureState::<P>::Moving { target: c })
                &&& d.target == Some(CurrentTarget::<P, E>::Position(c))
                &&& !d.reset_timer
            } else if current is Idle {
                &&& d.state == Some(CreatureState::<P>::Moving { target: p.wander_target })
                &&& d.target == Some(CurrentTarget::<P, E>::Position(p.wander_target))
                &&& d.reset_timer
            } else {
                &&& d.state is None
                &&& d.target is None
                &&& d.reset_timer
            }
        }),
{
}

/// A fleeing creature heads for the flee target and keeps its decision clock.
pub proof fn lemma_flee_targets_escape<P, E>(current: CreatureState<P>, p: Perception<P, E>)
    requires
        p.flee_target is Some,
    ensures
        decide_spec(current, p).target == Some(
            CurrentTarget::<P, E>::Position(p.flee_target.unwrap()),
        ),
        !decide_spec(current, p).reset_timer,
{
}

/// Resting for energy targets nothing and keeps the decision clock.
pub proof fn lemma_rest_keeps_clock<P, E>(current: CreatureState<P>, p: Perception<P, E>)
    requires
        p.flee_target is None,
        p.urgent_need == Some(NeedType::Energy),
    ensures
        !decide_spec(current, p).reset_timer,
{
}

/// Herbivores fear carnivores always, and omnivores exactly when those are
/// much healthier.
pub proof fn lemma_herbivore_threats(healthier: bool)
    ensures
        is_threat_spec(CreatureType::Herbivore, CreatureType::Carnivore, healthier),
        is_threat_spec(CreatureType::Herbivore, CreatureType::Omnivore, healthier) == healthier,
        !is_threat_spec(CreatureType::Herbivore, CreatureType::Herbivore, healthier),
{
}

} // verus!
