use creature_simulation::creature::{CreatureState, Effects, StateKind};
use creature_simulation::decision::{
    decide, is_threat, CreatureType, CurrentTarget, Perception, Sighting,
};
use creature_simulation::lifecycle::{consumed_resource, death_cause, is_stationary, DeathCause};
use creature_simulation::needs::NeedType;
use creature_simulation::resource::ResourceType;

type State = CreatureState<(f32, f32)>;

const NO_EFFECT: Effects = Effects { kind_changed: false, halt: false };

#[test]
fn creature_creation() {
    let state: State = CreatureState::Idle;
    assert!(state.is_alive(false));
    assert_eq!(state, CreatureState::Idle);
}

#[test]
fn creature_death() {
    let mut state: State = CreatureState::Idle;
    let fx = state.die();
    assert!(!state.is_alive(false));
    assert_eq!(state, CreatureState::Dead);
    assert!(fx.halt);
    assert!(fx.kind_changed);
}

#[test]
fn creature_state_transitions() {
    let mut state: State = CreatureState::Idle;
    state.start_moving((10.0, 10.0), false);
    assert!(matches!(state, CreatureState::Moving { .. }));
    let fx = state.start_eating(false);
    assert_eq!(state, CreatureState::Eating);
    assert!(fx.halt);
}

#[test]
fn creature_stop_moving() {
    let mut state: State = CreatureState::Moving { target: (10.0, 10.0) };
    let fx = state.stop_moving();
    assert_eq!(state, CreatureState::Idle);
    assert!(fx.halt);
    // Should not affect non-moving states
    let mut state: State = CreatureState::Eating;
    let fx = state.stop_moving();
    assert_eq!(state, CreatureState::Eating);
    assert_eq!(fx, NO_EFFECT);
}

#[test]
fn creature_start_activities() {
    let mut state: State = CreatureState::Idle;
    let fx = state.start_drinking(false);
    assert_eq!(state, CreatureState::Drinking);
    assert!(fx.halt);
    let fx = state.start_resting(false);
    assert_eq!(state, CreatureState::Resting);
    assert!(fx.halt);
    // Dead creatures can't start activities
    state.die();
    let fx = state.start_eating(false);
    assert_eq!(state, CreatureState::Dead);
    assert_eq!(fx, NO_EFFECT);
}

#[test]
fn creature_state_tracking() {
    let mut state: State = CreatureState::Idle;
    let fx = state.start_moving((10.0, 10.0), false);
    assert!(fx.kind_changed); // the state clock restarts
    assert!(!fx.halt);
    // A new target of the same kind keeps the clock running
    let fx = state.start_moving((20.0, 5.0), false);
    assert!(!fx.kind_changed);
    assert_eq!(state, CreatureState::Moving { target: (20.0, 5.0) });
}

#[test]
fn set_state_reports_kind_change() {
    let mut state: State = CreatureState::Resting;
    assert!(!state.set_state(CreatureState::Resting));
    assert!(state.set_state(CreatureState::Idle));
    assert_eq!(state.kind(), StateKind::Idle);
}

#[test]
fn creature_without_health_takes_no_activity() {
    let mut state: State = CreatureState::Idle;
    assert!(!state.is_alive(true));
    let fx = state.start_eating(true);
    assert_eq!(state, CreatureState::Idle);
    assert_eq!(fx, NO_EFFECT);
    let fx = state.start_moving((1.0, 1.0), true);
    assert_eq!(state, CreatureState::Idle);
    assert_eq!(fx, NO_EFFECT);
}

#[test]
fn repeated_activity_changes_nothing() {
    let mut state: State = CreatureState::Idle;
    state.start_resting(false);
    let fx = state.start_resting(false);
    assert_eq!(state, CreatureState::Resting);
    assert_eq!(fx, Effects { kind_changed: false, halt: true });
}

#[test]
fn threats_by_diet() {
    assert!(is_threat(CreatureType::Herbivore, CreatureType::Carnivore, false));
    assert!(is_threat(CreatureType::Herbivore, CreatureType::Omnivore, true));
    assert!(!is_threat(CreatureType::Herbivore, CreatureType::Omnivore, false));
    assert!(!is_threat(CreatureType::Carnivore, CreatureType::Carnivore, true));
    assert!(!is_threat(CreatureType::Omnivore, CreatureType::Herbivore, true));
}

fn calm() -> Perception<(f32, f32), u64> {
    Perception {
        flee_target: None,
        urgent_need: None,
        nearest_food: None,
        nearest_water: None,
        lonely: false,
        nearest_creature: None,
        wander_target: (3.0, 4.0),
    }
}

#[test]
fn threat_beats_needs() {
    let mut p = calm();
    p.flee_target = Some((-100.0, 0.0));
    p.urgent_need = Some(NeedType::Energy);
    let d = decide(&CreatureState::Idle, &p);
    assert_eq!(d.state, Some(CreatureState::Moving { target: (-100.0, 0.0) }));
    assert_eq!(d.target, Some(CurrentTarget::Position((-100.0, 0.0))));
    assert!(!d.reset_timer);
}

#[test]
fn hungry_creature_eats_food_in_reach_or_walks_to_it() {
    let mut p = calm();
    p.urgent_need = Some(NeedType::Hunger);
    p.nearest_food = Some(Sighting { entity: 7, position: (1.0, 1.0), within_reach: true });
    let d = decide(&CreatureState::Idle, &p);
    assert_eq!(d.state, Some(CreatureState::Eating));
    assert_eq!(d.target, Some(CurrentTarget::Entity(7)));
    p.nearest_food = Some(Sighting { entity: 7, position: (9.0, 1.0), within_reach: false });
    let d = decide(&CreatureState::Idle, &p);
    assert_eq!(d.state, Some(CreatureState::Moving { target: (9.0, 1.0) }));
    assert_eq!(d.target, Some(CurrentTarget::Position((9.0, 1.0))));
}

#[test]
fn thirsty_creature_without_water_falls_through_to_wandering() {
    let mut p = calm();
    p.urgent_need = Some(NeedType::Thirst);
    let d = decide(&CreatureState::Idle, &p);
    assert_eq!(d.state, Some(CreatureState::Moving { target: (3.0, 4.0) }));
    assert!(d.reset_timer);
    p.nearest_water = Some(Sighting { entity: 2, position: (0.5, 0.5), within_reach: true });
    let d = decide(&CreatureState::Idle, &p);
    assert_eq!(d.state, Some(CreatureState::Drinking));
}

#[test]
fn exhausted_creature_rests() {
    let mut p = calm();
    p.urgent_need = Some(NeedType::Energy);
    let d = decide(&CreatureState::Moving { target: (0.0, 0.0) }, &p);
    assert_eq!(d.state, Some(CreatureState::Resting));
    assert_eq!(d.target, Some(CurrentTarget::Nothing));
}

#[test]
fn lonely_creature_seeks_far_company_only() {
    let mut p = calm();
    p.lonely = true;
    p.nearest_creature = Some(((50.0, 0.0), true));
    let d = decide(&CreatureState::Eating, &p);
    assert_eq!(d.state, Some(CreatureState::Moving { target: (50.0, 0.0) }));
    p.nearest_creature = Some(((5.0, 0.0), false));
    let d = decide(&CreatureState::Eating, &p);
    assert_eq!(d.state, None);
    assert_eq!(d.target, None);
    assert!(d.reset_timer);
}

#[test]
fn movement_and_consumption_by_state() {
    assert!(is_stationary::<(f32, f32)>(&CreatureState::Dead));
    assert!(is_stationary::<(f32, f32)>(&CreatureState::Resting));
    assert!(!is_stationary::<(f32, f32)>(&CreatureState::Idle));
    assert!(!is_stationary(&CreatureState::Moving { target: (1.0f32, 1.0f32) }));
    assert_eq!(consumed_resource::<(f32, f32)>(&CreatureState::Eating), Some(ResourceType::Food));
    assert_eq!(consumed_resource::<(f32, f32)>(&CreatureState::Drinking), Some(ResourceType::Water));
    assert_eq!(consumed_resource::<(f32, f32)>(&CreatureState::Resting), None);
}

#[test]
fn death_causes_in_order() {
    assert_eq!(death_cause(false, false, false, false, false), None);
    assert_eq!(death_cause(true, true, true, true, true), Some(DeathCause::OldAge));
    assert_eq!(death_cause(false, true, true, false, false), Some(DeathCause::Starvation));
    assert_eq!(death_cause(false, false, true, true, false), Some(DeathCause::Dehydration));
    assert_eq!(death_cause(false, false, false, true, true), Some(DeathCause::Exhaustion));
    assert_eq!(death_cause(false, false, false, false, true), Some(DeathCause::OldAge));
}
