//! Switches of the visual feature sets: the creature visuals (animations,
//! expressions, patterns, attachments) and the effects layer (particles,
//! weather, speech bubbles, floating UI, camera effects, audio).

use vstd::prelude::*;

verus! {

/// Switches of the creature visual systems.
#[derive(Debug, Clone, Copy, PartialEq, Eq, Structural)]
pub struct Phase3Config {
    pub animations_enabled: bool,
    pub expressions_enabled: bool,
    pub patterns_enabled: bool,
    pub attachments_enabled: bool,
    pub debug_visualizations: bool,
}

impl Default for Phase3Config {
    /// Every visual system on, debug drawing off.
    fn default() -> (c: Self)
        ensures
            c == (Phase3Config {
                animations_enabled: true,
                expressions_enabled: true,
                patterns_enabled: true,
                attachments_enabled: true,
                debug_visualizations: false,
            }),
    {
        Phase3Config {
            animations_enabled: true,
            expressions_enabled: true,
            patterns_enabled: true,
            attachments_enabled: true,
            debug_visualizations: false,
        }
    }
}

/// Switches of the effects layer.
#[derive(Debug, Clone, Copy, PartialEq, Eq, Structural)]
pub struct Phase4Features {
    pub enhanced_particles: bool,
    pub weather_effects: bool,
    pub enhanced_speech_bubbles: bool,
    pub floating_ui: bool,
    pub camera_effects: bool,
    pub audio_system: bool,
}

impl Default for Phase4Features {
    /// Every feature on.
    fn default() -> (f: Self)
        ensures
            f == (Phase4Features {
                enhanced_particles: true,
                weather_effects: true,
                enhanced_speech_bubbles: true,
                floating_ui: true,
                camera_effects: true,
                audio_system: true,
            }),
    {
        Phase4Features {
            enhanced_particles: true,
            weather_effects: true,
            enhanced_speech_bubbles: true,
            floating_ui: true,
            camera_effects: true,
            audio_system: true,
        }
    }
}

/// Whether the four switchable features (particles, weather, speech bubbles,
/// floating UI) are all on.
pub open spec fn all_switchable_on(f: Phase4Features) -> bool {
    f.enhanced_particles && f.weather_effects && f.enhanced_speech_bubbles && f.floating_ui
}

/// The features after switching the four switchable ones together: all off
/// when all were on, else all on. Camera effects and audio stay as they are.
pub open spec fn after_toggle_all(f: Phase4Features) -> Phase4Features {
    let on = !all_switchable_on(f);
    Phase4Features {
        enhanced_particles: on,
        weather_effects: on,
        enhanced_speech_bubbles: on,
        floating_ui: on,
        ..f
    }
}

impl Phase4Features {
    /// Whether particles, weather, speech bubbles and floating UI are all on.
    pub fn all_switchable_on(&self) -> (r: bool)
        ensures
            r == all_switchable_on(*self),
            r == (self.enhanced_particles && self.weather_effects && self.enhanced_speech_bubbles
                && self.floating_ui),
    {
        self.enhanced_particles && self.weather_effects && self.enhanced_speech_bubbles
            && self.floating_ui
    }

    /// Switches particles, weather, speech bubbles and floating UI together:
    /// all off when all were on, else all on. Returns whether they are now on.
    pub fn toggle_all(&mut self) -> (on: bool)
        ensures
            *final(self) == after_toggle_all(*old(self)),
            on == !all_switchable_on(*old(self)),
            on == !(old(self).enhanced_particles && old(self).weather_effects
                && old(self).enhanced_speech_bubbles && old(self).floating_ui),
            final(self).enhanced_particles == on,
            final(self).weather_effects == on,
            final(self).enhanced_speech_bubbles == on,
            final(self).floating_ui == on,
            final(self).camera_effects == old(self).camera_effects,
            final(self).audio_system == old(self).audio_system,
    {
        let on = !self.all_switchable_on();
        self.enhanced_particles = on;
        self.weather_effects = on;
        self.enhanced_speech_bubbles = on;
        self.floating_ui = on;
        on
    }
}

/// After a switch the four switchable features agree; a second switch from
/// there turns them the other way, and camera effects and audio never move.
pub proof fn lemma_toggle_all_twice(f: Phase4Features)
    ensures
        ({
            let g = after_toggle_all(f);
            let h = after_toggle_all(g);
            &&& g.enhanced_particles == g.weather_effects
            &&& g.weather_effects == g.enhanced_speech_bubbles
            &&& g.enhanced_speech_bubbles == g.floating_ui
            &&& h.floating_ui == !g.floating_ui
            &&& h.camera_effects == f.camera_effects
            &&& h.audio_system == f.audio_system
            &&& ((f.enhanced_particles == f.weather_effects && f.weather_effects
                == f.enhanced_speech_bubbles && f.enhanced_speech_bubbles == f.floating_ui) ==> h
                == f)
        }),
{
}

/// The four switchable features count as all on exactly when each of them is
/// on; a switch turns the four off exactly in that case and on in every other.
pub proof fn lemma_toggle_all_follows_the_four(f: Phase4Features)
    ensures
        all_switchable_on(f) <==> (f.enhanced_particles && f.weather_effects
            && f.enhanced_speech_bubbles && f.floating_ui),
        ({
            let g = after_toggle_all(f);
            let all = f.enhanced_particles && f.weather_effects && f.enhanced_speech_bubbles
                && f.floating_ui;
            &&& g.enhanced_particles == !all
            &&& g.weather_effects == !all
            &&& g.enhanced_speech_bubbles == !all
            &&& g.floating_ui == !all
            &&& g.camera_effects == f.camera_effects
            &&& g.audio_system == f.audio_system
        }),
{
}

} // verus!
