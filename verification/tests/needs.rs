use creature_simulation::needs::{most_urgent, CriticalStatus, NeedType};

fn most_urgent_of(hunger: f32, thirst: f32, energy: f32) -> NeedType {
    let energy_urgency = 1.0 - energy;
    most_urgent(thirst >= hunger, thirst >= energy_urgency, hunger >= energy_urgency)
}

#[test]
fn needs_urgency() {
    assert_eq!(most_urgent_of(0.8, 0.3, 0.9), NeedType::Hunger);
    assert_eq!(most_urgent_of(0.8, 0.9, 0.9), NeedType::Thirst);
    assert_eq!(most_urgent_of(0.8, 0.9, 0.05), NeedType::Energy);
}

#[test]
fn urgency_ties() {
    // Thirst wins ties against both, hunger wins a tie against energy.
    assert_eq!(most_urgent(true, true, true), NeedType::Thirst);
    assert_eq!(most_urgent(false, true, true), NeedType::Hunger);
    assert_eq!(most_urgent(true, false, true), NeedType::Hunger);
    assert_eq!(most_urgent(true, false, false), NeedType::Energy);
}

#[test]
fn critical_status() {
    let status = CriticalStatus { hunger_critical: false, thirst_critical: false, energy_critical: false };
    assert!(!status.any_critical());
    let status = CriticalStatus { hunger_critical: true, thirst_critical: false, energy_critical: false };
    assert!(status.hunger_critical);
    assert!(status.any_critical());
    let status = CriticalStatus { hunger_critical: true, thirst_critical: false, energy_critical: true };
    assert!(status.energy_critical);
    assert!(status.any_critical());
    let status = CriticalStatus { hunger_critical: false, thirst_critical: true, energy_critical: false };
    assert!(status.any_critical());
}
