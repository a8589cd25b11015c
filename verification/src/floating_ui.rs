//! Visibility of the floating UI above a creature (health bar, need icons).
//!
//! The element goes through a small state machine: hidden, fading in,
//! visible, fading out. Each frame the caller first reports whether the
//! element should be shown and whether it is within viewing distance
//! (`visibility_transition`), ticks the fade timer it keeps, then reports
//! whether that timer has finished (`visibility_apply`), which says what the
//! element's rendered visibility becomes.

use vstd::prelude::*;

verus! {

/// Visibility states for UI elements.
#[derive(Debug, Clone, Copy, PartialEq, Eq, Structural)]
pub enum UIVisibilityState {
    Hidden,
    FadingIn,
    Visible,
    FadingOut,
}

/// Needs shown by indicators.
#[derive(Debug, Clone, Copy, PartialEq, Eq, Structural)]
pub enum NeedType {
    Hunger,
    Thirst,
    Energy,
    Social,
}

/// Status icons.
#[derive(Debug, Clone, Copy, PartialEq, Eq, Structural)]
pub enum StatusType {
    Sleeping,
    Eating,
    Talking,
    Working,
    Alert,
}

/// Whether a creature's floating UI should be shown under the settings'
/// three switches: always, when damaged, when selected.
pub open spec fn should_show_spec(
    show_always: bool,
    show_when_damaged: bool,
    damaged: bool,
    show_when_selected: bool,
    selected: bool,
) -> bool {
    show_always || (show_when_damaged && damaged) || (show_when_selected && selected)
}

/// Decides whether a creature's floating UI should be shown.
pub fn should_show(
    show_always: bool,
    show_when_damaged: bool,
    damaged: bool,
    show_when_selected: bool,
    selected: bool,
) -> (r: bool)
    ensures
        r == should_show_spec(show_always, show_when_damaged, damaged, show_when_selected, selected),
{
    show_always || (show_when_damaged && damaged) || (show_when_selected && selected)
}

/// The state after the element learns whether it should be shown and whether
/// it is within range, and whether the fade timer restarts.
pub open spec fn transition_spec(state: UIVisibilityState, show: bool, in_range: bool) -> (
    UIVisibilityState,
    bool,
) {
    match state {
        UIVisibilityState::Hidden => if show && in_range {
            (UIVisibilityState::FadingIn, true)
        } else {
            (state, false)
        },
        UIVisibilityState::Visible => if !show || !in_range {
            (UIVisibilityState::FadingOut, true)
        } else {
            (state, false)
        },
        _ => (state, false),
    }
}

/// The state after the fade timer was ticked, and the rendered visibility to
/// set (`None`: leave it as it is).
pub open spec fn apply_spec(state: UIVisibilityState, fade_finished: bool) -> (
    UIVisibilityState,
    Option<bool>,
) {
    match state {
        UIVisibilityState::Hidden => (state, Some(false)),
        UIVisibilityState::FadingIn => (
            if fade_finished {
                UIVisibilityState::Visible
            } else {
                state
            },
            Some(true),
        ),
        UIVisibilityState::Visible => (state, Some(true)),
        UIVisibilityState::FadingOut => if fade_finished {
            (UIVisibilityState::Hidden, Some(false))
        } else {
            (state, None)
        },
    }
}

/// Reacts to whether the element should be shown (`show`) and is within
/// viewing distance (`in_range`): a hidden element starts fading in, a visible
/// one starts fading out; the second component says whether the fade timer
/// restarts.
pub fn visibility_transition(state: UIVisibilityState, show: bool, in_range: bool) -> (r: (
    UIVisibilityState,
    bool,
))
    ensures
        r == transition_spec(state, show, in_range),
{
    match state {
        UIVisibilityState::Hidden => if show && in_range {
            (UIVisibilityState::FadingIn, true)
        } else {
            (state, false)
        },
        UIVisibilityState::Visible => if !show || !in_range {
            (UIVisibilityState::FadingOut, true)
        } else {
            (state, false)
        },
        _ => (state, false),
    }
}

/// Completes a fade whose timer has finished and says what the rendered
/// visibility becomes (`None`: unchanged).
pub fn visibility_apply(state: UIVisibilityState, fade_finished: bool) -> (r: (
    UIVisibilityState,
    Option<bool>,
))
    ensures
        r == apply_spec(state, fade_finished),
{
    match state {
        UIVisibilityState::Hidden => (state, Some(false)),
        UIVisibilityState::FadingIn => (
            if fade_finished {
                UIVisibilityState::Visible
            } else {
                state
            },
            Some(true),
        ),
        UIVisibilityState::Visible => (state, Some(true)),
        UIVisibilityState::FadingOut => if fade_finished {
            (UIVisibilityState::Hidden, Some(false))
        } else {
            (state, None)
        },
    }
}

/// One frame: transition, then apply with the timer's state.
pub open spec fn frame_spec(
    state: UIVisibilityState,
    show: bool,
    in_range: bool,
    fade_finished: bool,
) -> UIVisibilityState {
    apply_spec(transition_spec(state, show, in_range).0, fade_finished).0
}

/// No fade is skipped: a hidden element becomes visible only by starting a
/// fade-in (restarting the fade timer) whose timer then finishes, and a
/// visible element becomes hidden only through a fade-out in the same way.
pub proof fn lemma_fades_are_not_skipped(
    state: UIVisibilityState,
    show: bool,
    in_range: bool,
    fade_finished: bool,
)
    ensures
        state == UIVisibilityState::Hidden && frame_spec(state, show, in_range, fade_finished)
            == UIVisibilityState::Visible ==> transition_spec(state, show, in_range) == (
            UIVisibilityState::FadingIn,
            true,
        ) && fade_finished,
        state == UIVisibilityState::Visible && frame_spec(state, show, in_range, fade_finished)
            == UIVisibilityState::Hidden ==> transition_spec(state, show, in_range) == (
            UIVisibilityState::FadingOut,
            true,
        ) && fade_finished,
{
}

/// An element that should be shown and is in range never starts fading out,
/// and one that should not be shown never starts fading in.
pub proof fn lemma_fade_direction_follows_wish(state: UIVisibilityState, show: bool, in_range: bool)
    ensures
        show && in_range ==> transition_spec(state, show, in_range).0
            != UIVisibilityState::FadingOut || state == UIVisibilityState::FadingOut,
        !show ==> transition_spec(state, show, in_range).0 != UIVisibilityState::FadingIn
            || state == UIVisibilityState::FadingIn,
{
}

/// The rendered visibility agrees with the state: shown while fading in or
/// visible, hidden while hidden.
pub proof fn lemma_rendered_visibility_agrees(state: UIVisibilityState, fade_finished: bool)
    ensures
        ({
            let (s, v) = apply_spec(state, fade_finished);
            &&& (s == UIVisibilityState::FadingIn || s == UIVisibilityState::Visible) ==> v
                == Some(true)
            &&& s == UIVisibilityState::Hidden ==> v == Some(false)
        }),
{
}

/// How an element reacts to whether it should be shown and is within range:
/// a hidden one starts fading in exactly when it should be shown and is in
/// range, a visible one starts fading out exactly when either fails, an
/// element already fading goes on fading; the fade timer restarts exactly
/// when the state changes.
pub proof fn lemma_transition_reacts_to_wish(state: UIVisibilityState, show: bool, in_range: bool)
    ensures
        ({
            let (next, restart) = transition_spec(state, show, in_range);
            &&& restart <==> next != state
            &&& state == UIVisibilityState::Hidden ==> (next == UIVisibilityState::FadingIn <==> (
                show && in_range))
            &&& state == UIVisibilityState::Hidden ==> (next == UIVisibilityState::FadingIn
                || next == UIVisibilityState::Hidden)
            &&& state == UIVisibilityState::Visible ==> (next == UIVisibilityState::FadingOut <==> (
                !show || !in_range))
            &&& state == UIVisibilityState::Visible ==> (next == UIVisibilityState::FadingOut
                || next == UIVisibilityState::Visible)
            &&& (state == UIVisibilityState::FadingIn || state == UIVisibilityState::FadingOut)
                ==> next == state
        }),
{
}

/// Applying the timer: a fade completes exactly when its timer has finished
/// (fading in ends visible, fading out ends hidden); settled states stay; the
/// element is drawn while hidden never, while fading in or visible always, and
/// a running fade-out leaves the drawn visibility as it was.
pub proof fn lemma_apply_completes_fades(state: UIVisibilityState, fade_finished: bool)
    ensures
        ({
            let (next, drawn) = apply_spec(state, fade_finished);
            &&& state == UIVisibilityState::FadingIn ==> (next == (if fade_finished {
                UIVisibilityState::Visible
            } else {
                UIVisibilityState::FadingIn
            })) && drawn == Some(true)
            &&& state == UIVisibilityState::FadingOut ==> (next == (if fade_finished {
                UIVisibilityState::Hidden
            } else {
                UIVisibilityState::FadingOut
            })) && drawn == (if fade_finished {
                Some(false)
            } else {
                None::<bool>
            })
            &&& state == UIVisibilityState::Hidden ==> next == state && drawn == Some(false)
            &&& state == UIVisibilityState::Visible ==> next == state && drawn == Some(true)
        }),
{
}

/// The UI is shown when shown always, when damaged with that switch on, or
/// when selected with that switch on, and in no other case.
pub proof fn lemma_show_rules(always: bool, when_damaged: bool, damaged: bool, when_selected: bool, selected: bool)
    ensures
        always ==> should_show_spec(always, when_damaged, damaged, when_selected, selected),
        when_damaged && damaged ==> should_show_spec(always, when_damaged, damaged, when_selected, selected),
        when_selected && selected ==> should_show_spec(always, when_damaged, damaged, when_selected, selected),
        !always && !(when_damaged && damaged) && !(when_selected && selected) ==> !should_show_spec(
            always,
            when_damaged,
            damaged,
            when_selected,
            selected,
        ),
{
}

} // verus!
