use creature_simulation::features::{Phase3Config, Phase4Features};

#[test]
fn test_phase3_config_default() {
    let config = Phase3Config::default();
    assert!(config.animations_enabled);
    assert!(config.expressions_enabled);
    assert!(config.patterns_enabled);
    assert!(config.attachments_enabled);
    assert!(!config.debug_visualizations);
}

#[test]
fn test_phase4_features_default() {
    let features = Phase4Features::default();
    assert!(features.enhanced_particles);
    assert!(features.weather_effects);
    assert!(features.enhanced_speech_bubbles);
    assert!(features.floating_ui);
    assert!(features.camera_effects);
    assert!(features.audio_system);
}

#[test]
fn toggle_all_switches_the_four_together() {
    let mut features = Phase4Features::default();
    assert!(features.all_switchable_on());
    assert!(!features.toggle_all());
    assert!(!features.enhanced_particles);
    assert!(!features.weather_effects);
    assert!(!features.enhanced_speech_bubbles);
    assert!(!features.floating_ui);
    assert!(features.camera_effects);
    assert!(features.audio_system);
    assert!(features.toggle_all());
    assert_eq!(features, Phase4Features::default());
}

#[test]
fn toggle_all_from_a_mixed_state_turns_everything_on() {
    let mut features = Phase4Features::default();
    features.weather_effects = false;
    features.audio_system = false;
    assert!(features.toggle_all());
    assert!(features.all_switchable_on());
    assert!(!features.audio_system);
}
