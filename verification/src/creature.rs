//! The behaviour state machine of a creature.
//!
//! A creature is always in one `CreatureState`. Commands (`start_moving`,
//! `start_eating`, `die`, ...) move it between states; each command reports
//! through an `Effects` value what its caller must reset alongside the state:
//! the time spent in the current state and the cached movement speed when the
//! kind of state changes, and the velocity when the creature must halt.
//! The type parameter `P` is the type of a target position.

use vstd::prelude::*;

verus! {

/// Possible states for creature behaviour.
#[derive(Debug, Clone, Copy, PartialEq)]
pub enum CreatureState<P> {
    /// Not performing any specific action
    Idle,
    /// Moving towards a target position
    Moving { target: P },
    /// Consuming a food resource
    Eating,
    /// Consuming a water resource
    Drinking,
    /// Recovering energy
    Resting,
    /// No longer alive
    Dead,
}

/// The kind of a state, without its data: two states of the same kind differ
/// at most in their target.
#[derive(Debug, Clone, Copy, PartialEq, Eq, Structural)]
pub enum StateKind {
    Idle,
    Moving,
    Eating,
    Drinking,
    Resting,
    Dead,
}

/// What a caller must reset after a command on a creature's state.
#[derive(Debug, Clone, Copy, PartialEq, Eq, Structural)]
pub struct Effects {
    /// The kind of state changed: the time spent in the state restarts at zero
    /// and any cached movement speed is dropped.
    pub kind_changed: bool,
    /// The creature must halt: its velocity becomes zero.
    pub halt: bool,
}

/// The kind of a state.
pub open spec fn kind_of<P>(s: CreatureState<P>) -> StateKind {
    match s {
        CreatureState::Idle => StateKind::Idle,
        CreatureState::Moving { .. } => StateKind::Moving,
        CreatureState::Eating => StateKind::Eating,
        CreatureState::Drinking => StateKind::Drinking,
        CreatureState::Resting => StateKind::Resting,
        CreatureState::Dead => StateKind::Dead,
    }
}

/// A creature is alive unless its state is `Dead` or its health is used up.
pub open spec fn alive<P>(s: CreatureState<P>, health_is_dead: bool) -> bool {
    !(s is Dead) && !health_is_dead
}

/// The effects of replacing state `s` by state `t`.
pub open spec fn effects_of<P>(s: CreatureState<P>, t: CreatureState<P>, halt: bool) -> Effects {
    Effects { kind_changed: kind_of(s) != kind_of(t), halt }
}

/// The state after an activity command (`Eating`, `Drinking`, `Resting`):
/// a living creature takes it up, any other is left as it is.
pub open spec fn after_activity<P>(
    s: CreatureState<P>,
    activity: CreatureState<P>,
    health_is_dead: bool,
) -> CreatureState<P> {
    if alive(s, health_is_dead) {
        activity
    } else {
        s
    }
}

/// The state after `stop_moving`.
pub open spec fn after_stop<P>(s: CreatureState<P>) -> CreatureState<P> {
    if s is Moving {
        CreatureState::Idle
    } else {
        s
    }
}

impl<P: Copy> CreatureState<P> {
    /// The kind of this state.
    pub fn kind(&self) -> (k: StateKind)
        ensures
            k == kind_of(*self),
    {
        match self {
            CreatureState::Idle => StateKind::Idle,
            CreatureState::Moving { .. } => StateKind::Moving,
            CreatureState::Eating => StateKind::Eating,
            CreatureState::Drinking => StateKind::Drinking,
            CreatureState::Resting => StateKind::Resting,
            CreatureState::Dead => StateKind::Dead,
        }
    }

    /// Whether this is the `Dead` state.
    pub fn is_dead(&self) -> (r: bool)
        ensures
            r == (*self is Dead),
    {
        match self {
            CreatureState::Dead => true,
            _ => false,
        }
    }

    /// Whether a creature in this state, whose health is used up exactly when
    /// `health_is_dead` holds, is alive.
    pub fn is_alive(&self, health_is_dead: bool) -> (r: bool)
        ensures
            r == alive(*self, health_is_dead),
            r == (!(*self is Dead) && !health_is_dead),
    {
        !self.is_dead() && !health_is_dead
    }

    /// Replaces the state by `new_state`. Reports a change of kind, on which the
    /// caller restarts the state clock and drops the cached speed; a new target
    /// of the same kind is taken over without that.
    pub fn set_state(&mut self, new_state: CreatureState<P>) -> (kind_changed: bool)
        ensures
            *final(self) == new_state,
            kind_changed == (kind_of(*old(self)) != kind_of(new_state)),
    {
        let changed = self.kind() != new_state.kind();
        *self = new_state;
        changed
    }

    /// Marks the creature as dead; it halts.
    pub fn die(&mut self) -> (fx: Effects)
        ensures
            *final(self) == CreatureState::<P>::Dead,
            fx == effects_of(*old(self), CreatureState::<P>::Dead, true),
    {
        let kind_changed = self.set_state(CreatureState::Dead);
        Effects { kind_changed, halt: true }
    }

    /// Starts moving towards `target` if the creature is alive; it keeps its
    /// velocity.
    pub fn start_moving(&mut self, target: P, health_is_dead: bool) -> (fx: Effects)
        ensures
            alive(*old(self), health_is_dead) ==> {
                &&& *final(self) == CreatureState::Moving { target }
                &&& fx == effects_of(*old(self), CreatureState::Moving { target }, false)
            },
            !alive(*old(self), health_is_dead) ==> {
                &&& *final(self) == *old(self)
                &&& fx == (Effects { kind_changed: false, halt: false })
            },
            !(*old(self) is Dead) && !health_is_dead ==> *final(self) == (CreatureState::Moving {
                target,
            }),
            (*old(self) is Dead || health_is_dead) ==> *final(self) == *old(self),
    {
        if self.is_alive(health_is_dead) {
            let kind_changed = self.set_state(CreatureState::Moving { target });
            Effects { kind_changed, halt: false }
        } else {
            Effects { kind_changed: false, halt: false }
        }
    }

    /// Stops current movement: a moving creature becomes idle and halts; in any
    /// other state nothing happens.
    pub fn stop_moving(&mut self) -> (fx: Effects)
        ensures
            *final(self) == after_stop(*old(self)),
            fx == (Effects { kind_changed: *old(self) is Moving, halt: *old(self) is Moving }),
    {
        match self {
            CreatureState::Moving { .. } => {
                let kind_changed = self.set_state(CreatureState::Idle);
                Effects { kind_changed, halt: true }
            },
            _ => Effects { kind_changed: false, halt: false },
        }
    }

    /// Takes up an activity (`Eating`, `Drinking` or `Resting`) if alive, and halts.
    fn start_activity(&mut self, activity: CreatureState<P>, health_is_dead: bool) -> (fx: Effects)
        ensures
            *final(self) == after_activity(*old(self), activity, health_is_dead),
            alive(*old(self), health_is_dead) ==> fx == effects_of(*old(self), activity, true),
            !alive(*old(self), health_is_dead) ==> fx == (Effects {
                kind_changed: false,
                halt: false,
            }),
    {
        if self.is_alive(health_is_dead) {
            let kind_changed = self.set_state(activity);
            Effects { kind_changed, halt: true }
        } else {
            Effects { kind_changed: false, halt: false }
        }
    }

    /// Starts eating if alive, and halts.
    pub fn start_eating(&mut self, health_is_dead: bool) -> (fx: Effects)
        ensures
            *final(self) == after_activity(*old(self), CreatureState::Eating, health_is_dead),
            alive(*old(self), health_is_dead) ==> fx == effects_of(
                *old(self),
                CreatureState::Eating,
                true,
            ),
            !alive(*old(self), health_is_dead) ==> fx == (Effects {
                kind_changed: false,
                halt: false,
            }),
    {
        self.start_activity(CreatureState::Eating, health_is_dead)
    }

    /// Starts drinking if alive, and halts.
    pub fn start_drinking(&mut self, health_is_dead: bool) -> (fx: Effects)
        ensures
            *final(self) == after_activity(*old(self), CreatureState::Drinking, health_is_dead),
            alive(*old(self), health_is_dead) ==> fx == effects_of(
                *old(self),
                CreatureState::Drinking,
                true,
            ),
            !alive(*old(self), health_is_dead) ==> fx == (Effects {
                kind_changed: false,
                halt: false,
            }),
    {
        self.start_activity(CreatureState::Drinking, health_is_dead)
    }

    /// Starts resting if alive, and halts.
    pub fn start_resting(&mut self, health_is_dead: bool) -> (fx: Effects)
        ensures
            *final(self) == after_activity(*old(self), CreatureState::Resting, health_is_dead),
            alive(*old(self), health_is_dead) ==> fx == effects_of(
                *old(self),
                CreatureState::Resting,
                true,
            ),
            !alive(*old(self), health_is_dead) ==> fx == (Effects {
                kind_changed: false,
                halt: false,
            }),
    {
        self.start_activity(CreatureState::Resting, health_is_dead)
    }
}

/// Death is final: no activity command brings a dead creature back, whatever
/// its health says.
pub proof fn lemma_dead_stays_dead<P>(activity: CreatureState<P>, health_is_dead: bool)
    ensures
        after_activity(CreatureState::<P>::Dead, activity, health_is_dead) == CreatureState::<
            P,
        >::Dead,
        !alive(CreatureState::<P>::Dead, health_is_dead),
        after_stop(CreatureState::<P>::Dead) == CreatureState::<P>::Dead,
{
}

/// A creature whose health is used up takes up no activity, whatever its state.
pub proof fn lemma_no_activity_without_health<P>(s: CreatureState<P>, activity: CreatureState<P>)
    ensures
        after_activity(s, activity, true) == s,
{
}

/// Repeating a command is harmless: the second time it changes neither the
/// state nor its kind.
pub proof fn lemma_activity_idempotent<P>(
    s: CreatureState<P>,
    activity: CreatureState<P>,
    health_is_dead: bool,
)
    ensures
        after_activity(after_activity(s, activity, health_is_dead), activity, health_is_dead)
            == after_activity(s, activity, health_is_dead),
        alive(after_activity(s, activity, health_is_dead), health_is_dead) ==> kind_of(
            after_activity(s, activity, health_is_dead),
        ) == kind_of(activity),
{
}

/// Stopping twice is stopping once, and a stopped creature is never moving.
pub proof fn lemma_stop_idempotent<P>(s: CreatureState<P>)
    ensures
        after_stop(after_stop(s)) == after_stop(s),
        !(after_stop(s) is Moving),
{
}

/// A creature is alive exactly when it is not dead and its health is not
/// used up, whatever else it is doing; such a creature takes up any activity
/// it is given, and a creature that is dead or out of health takes up none.
pub proof fn lemma_alive_exactly<P>(
    s: CreatureState<P>,
    activity: CreatureState<P>,
    health_is_dead: bool,
)
    ensures
        alive(s, health_is_dead) <==> (!(s is Dead) && !health_is_dead),
        !(s is Dead) && !health_is_dead ==> after_activity(s, activity, health_is_dead)
            == activity,
        (s is Dead || health_is_dead) ==> after_activity(s, activity, health_is_dead) == s,
{
}

/// Stopping turns a moving creature idle and leaves any other state alone.
pub proof fn lemma_stop_only_moving<P>(s: CreatureState<P>)
    ensures
        s is Moving ==> after_stop(s) == CreatureState::<P>::Idle,
        !(s is Moving) ==> after_stop(s) == s,
{
}

/// Two states are of the same kind exactly when they are the same variant.
pub proof fn lemma_kinds_are_variants<P>(s: CreatureState<P>, t: CreatureState<P>)
    ensures
        (kind_of(s) == kind_of(t)) <==> ((s is Idle && t is Idle) || (s is Moving && t is Moving)
            || (s is Eating && t is Eating) || (s is Drinking && t is Drinking) || (s is Resting
            && t is Resting) || (s is Dead && t is Dead)),
{
}

/// The effects of a command: the kind changes exactly when the old and new
/// states are different variants, and the creature halts exactly when the
/// command says so.
pub proof fn lemma_effects_follow_the_change<P>(s: CreatureState<P>, t: CreatureState<P>, halt: bool)
    ensures
        effects_of(s, t, halt).halt == halt,
        effects_of(s, t, halt).kind_changed <==> !((s is Idle && t is Idle) || (s is Moving
            && t is Moving) || (s is Eating && t is Eating) || (s is Drinking && t is Drinking) || (
        s is Resting && t is Resting) || (s is Dead && t is Dead)),
{
}

} // verus!
