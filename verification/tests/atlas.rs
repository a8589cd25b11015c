use creature_simulation::atlas::{
    animation_cell, atlas_index, expression_cell, expression_position, frame_position,
    species_of, species_to_string, standard_frames, AnimationLoopMode, AnimationType, CreatureSpecies,
    ExpressionType, SpecialAnimationType,
};
use creature_simulation::decision::CreatureType;

#[test]
fn test_animation_range_creation() {
    let idle = standard_frames(AnimationType::Idle).unwrap();
    assert!(standard_frames(AnimationType::Walk).is_some());
    assert_eq!(idle.frame_count, 4);
    assert_eq!(idle.loop_mode, AnimationLoopMode::Loop);
    let death = standard_frames(AnimationType::Death).unwrap();
    assert_eq!((death.start_frame, death.frame_count, death.loop_mode), (42, 8, AnimationLoopMode::Once));
    assert!(standard_frames(AnimationType::Special(SpecialAnimationType::Happy)).is_none());
}

#[test]
fn test_expression_type_position() {
    let happy = expression_cell(ExpressionType::Happy);
    let sad = expression_cell(ExpressionType::Sad);
    assert_ne!(happy.0, sad.0);
    assert_eq!(happy, (1, 5));
    assert_eq!(expression_position(ExpressionType::Love), (7, 1));
    assert_eq!(expression_cell(ExpressionType::Love), (7, 6));
}

#[test]
fn frame_positions_follow_the_layout() {
    assert_eq!(frame_position(AnimationType::Idle, 0), (0, 0));
    assert_eq!(frame_position(AnimationType::Idle, 5), (1, 0));
    assert_eq!(frame_position(AnimationType::Walk, 9), (5, 0));
    assert_eq!(frame_position(AnimationType::Eat, 7), (3, 1));
    assert_eq!(frame_position(AnimationType::Death, 5), (15, 2));
    assert_eq!(frame_position(AnimationType::Special(SpecialAnimationType::Curious), 2), (14, 3));
}

#[test]
fn variations_take_three_rows() {
    assert_eq!(animation_cell(AnimationType::Idle, 0, 0), (0, 0));
    assert_eq!(animation_cell(AnimationType::Talk, 1, 2), (1, 8));
    assert_eq!(atlas_index(1, 8), 65);
}

#[test]
fn species_names() {
    assert_eq!(species_to_string(CreatureSpecies::Herbivore), "herbivore");
    assert_eq!(species_to_string(CreatureSpecies::Carnivore), "carnivore");
    assert_eq!(species_to_string(CreatureSpecies::Omnivore), "omnivore");
}

#[test]
fn test_creature_species_conversion() {
    assert_eq!(species_of(CreatureType::Herbivore), CreatureSpecies::Herbivore);
    assert_eq!(species_of(CreatureType::Carnivore), CreatureSpecies::Carnivore);
    assert_eq!(species_of(CreatureType::Omnivore), CreatureSpecies::Omnivore);
}
