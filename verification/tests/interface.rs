use creature_simulation::floating_ui::{
    should_show, visibility_apply, visibility_transition, UIVisibilityState,
};
use creature_simulation::history::add_to_history;
use creature_simulation::speech::{emoji_to_atlas_index, next_message, EmojiType};
use std::collections::VecDeque;

#[test]
fn test_emoji_atlas_index() {
    assert_eq!(emoji_to_atlas_index(EmojiType::Happy), 0);
    assert_eq!(emoji_to_atlas_index(EmojiType::Check), 11);
    assert_eq!(emoji_to_atlas_index(EmojiType::Music), 8);
}

#[test]
fn speech_queue_steps() {
    assert_eq!(next_message(0, 3), Some(1));
    assert_eq!(next_message(2, 3), None);
}

#[test]
fn ui_fades_in_and_out() {
    let mut state = UIVisibilityState::Hidden;
    let (s, restart) = visibility_transition(state, true, true);
    assert_eq!((s, restart), (UIVisibilityState::FadingIn, true));
    let (s, vis) = visibility_apply(s, false);
    assert_eq!((s, vis), (UIVisibilityState::FadingIn, Some(true)));
    let (s, vis) = visibility_apply(s, true);
    assert_eq!((s, vis), (UIVisibilityState::Visible, Some(true)));
    state = s;
    let (s, restart) = visibility_transition(state, true, false);
    assert_eq!((s, restart), (UIVisibilityState::FadingOut, true));
    let (s, vis) = visibility_apply(s, false);
    assert_eq!((s, vis), (UIVisibilityState::FadingOut, None));
    let (s, vis) = visibility_apply(s, true);
    assert_eq!((s, vis), (UIVisibilityState::Hidden, Some(false)));
    // A hidden element that should not show stays hidden
    assert_eq!(visibility_transition(s, false, true), (UIVisibilityState::Hidden, false));
}

#[test]
fn show_rules() {
    assert!(should_show(true, false, false, false, false));
    assert!(should_show(false, true, true, false, false));
    assert!(!should_show(false, true, false, true, false));
    assert!(should_show(false, false, false, true, true));
    assert!(!should_show(false, false, true, false, true));
}

#[test]
fn profiler_history_rolls() {
    let mut h: VecDeque<f32> = VecDeque::new();
    for i in 0..5 {
        add_to_history(&mut h, i as f32, 3);
    }
    assert_eq!(h, VecDeque::from(vec![2.0, 3.0, 4.0]));
    // An over-full history only drops one sample per addition
    let mut h: VecDeque<u8> = VecDeque::from(vec![1, 2, 3, 4]);
    add_to_history(&mut h, 5, 2);
    assert_eq!(h, VecDeque::from(vec![2, 3, 4, 5]));
    let mut h: VecDeque<u8> = VecDeque::new();
    add_to_history(&mut h, 1, 0);
    assert_eq!(h, VecDeque::from(vec![1]));
}
