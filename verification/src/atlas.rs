//! Layout of creature sprite atlases: where each animation frame and each
//! expression overlay sits in the atlas grid, and the standard frame ranges.
//!
//! Grid layout of one variation (three rows per variation):
//! ```text
//! Row 0: [Idle(0-3)] [Walk(4-11)]
//! Row 1: [Run(0-5)] [Eat(2-7)] [Sleep(8-11)]
//! Row 2: [Talk(0-7)] [Attack(4-9)] [Death(10-15)]
//! Row 3: [Special animations]
//! ```
//! Expression overlays start at row 5, eight to a row.

use vstd::prelude::*;
use crate::decision::CreatureType;

verus! {

/// Special (emotional) animations.
#[derive(Debug, Clone, Copy, PartialEq, Eq, Hash, Structural)]
pub enum SpecialAnimationType {
    Happy,
    Sad,
    Angry,
    Curious,
}

/// Animation types of a creature sprite.
#[derive(Debug, Clone, Copy, PartialEq, Eq, Hash, Structural)]
pub enum AnimationType {
    Idle,
    Walk,
    Run,
    Eat,
    Sleep,
    Talk,
    Attack,
    Death,
    Special(SpecialAnimationType),
}

/// How an animation repeats.
#[derive(Debug, Clone, Copy, PartialEq, Eq, Structural)]
pub enum AnimationLoopMode {
    Once,
    Loop,
    PingPong,
}

/// Facial expression overlays.
#[derive(Debug, Clone, Copy, PartialEq, Eq, Hash, Structural)]
pub enum ExpressionType {
    Neutral,
    Happy,
    Sad,
    Angry,
    Scared,
    Curious,
    Tired,
    Hungry,
    Excited,
    Content,
    Disgusted,
    Surprised,
    Confused,
    Sleeping,
    Sick,
    Love,
}

/// Creature species with an atlas of their own.
#[derive(Debug, Clone, Copy, PartialEq, Eq, Hash, Structural)]
pub enum CreatureSpecies {
    Herbivore,
    Carnivore,
    Omnivore,
}

/// Biomes with a terrain atlas of their own.
#[derive(Debug, Clone, Copy, PartialEq, Eq, Hash, Structural)]
pub enum BiomeType {
    Forest,
    Desert,
    Grassland,
    Tundra,
    Ocean,
}

/// Frames of an animation in the atlas: the first frame, how many there are,
/// and how they repeat.
#[derive(Debug, Clone, Copy, PartialEq, Eq, Structural)]
pub struct FrameRange {
    pub start_frame: usize,
    pub frame_count: usize,
    pub loop_mode: AnimationLoopMode,
}

/// Column and row (within a variation) of a special animation's frame.
pub open spec fn special_position_spec(special: SpecialAnimationType, frame: nat) -> (nat, nat) {
    match special {
        SpecialAnimationType::Happy => (frame % 4, 3),
        SpecialAnimationType::Sad => (frame % 4 + 4, 3),
        SpecialAnimationType::Angry => (frame % 4 + 8, 3),
        SpecialAnimationType::Curious => (frame % 4 + 12, 3),
    }
}

/// Column and row (within a variation) of an animation's frame.
pub open spec fn frame_position_spec(animation: AnimationType, frame: nat) -> (nat, nat) {
    match animation {
        AnimationType::Idle => (frame % 4, 0),
        AnimationType::Walk => (frame % 8 + 4, 0),
        AnimationType::Run => (frame % 6, 1),
        AnimationType::Eat => (frame % 6 + 2, 1),
        AnimationType::Sleep => (frame % 4 + 8, 1),
        AnimationType::Talk => (frame % 8, 2),
        AnimationType::Attack => (frame % 6 + 4, 2),
        AnimationType::Death => (frame % 6 + 10, 2),
        AnimationType::Special(special) => special_position_spec(special, frame),
    }
}

/// Number of distinct frames an animation cycles through in the grid.
pub open spec fn frame_period(animation: AnimationType) -> nat {
    match animation {
        AnimationType::Idle => 4,
        AnimationType::Walk => 8,
        AnimationType::Run => 6,
        AnimationType::Eat => 6,
        AnimationType::Sleep => 4,
        AnimationType::Talk => 8,
        AnimationType::Attack => 6,
        AnimationType::Death => 6,
        AnimationType::Special(_) => 4,
    }
}

/// Column and row (within the expression sheet) of an expression overlay.
pub open spec fn expression_position_spec(expression: ExpressionType) -> (nat, nat) {
    match expression {
        ExpressionType::Neutral => (0, 0),
        ExpressionType::Happy => (1, 0),
        ExpressionType::Sad => (2, 0),
        ExpressionType::Angry => (3, 0),
        ExpressionType::Scared => (4, 0),
        ExpressionType::Curious => (5, 0),
        ExpressionType::Tired => (6, 0),
        ExpressionType::Hungry => (7, 0),
        ExpressionType::Excited => (0, 1),
        ExpressionType::Content => (1, 1),
        ExpressionType::Disgusted => (2, 1),
        ExpressionType::Surprised => (3, 1),
        ExpressionType::Confused => (4, 1),
        ExpressionType::Sleeping => (5, 1),
        ExpressionType::Sick => (6, 1),
        ExpressionType::Love => (7, 1),
    }
}

/// The row of the atlas at which expression overlays start.
pub const EXPRESSION_BASE_ROW: usize = 5;

/// Maps a special animation's frame to its column and row.
pub fn special_position(special: SpecialAnimationType, frame: usize) -> (r: (usize, usize))
    ensures
        (r.0 as nat, r.1 as nat) == special_position_spec(special, frame as nat),
{
    match special {
        SpecialAnimationType::Happy => (frame % 4, 3),
        SpecialAnimationType::Sad => (frame % 4 + 4, 3),
        SpecialAnimationType::Angry => (frame % 4 + 8, 3),
        SpecialAnimationType::Curious => (frame % 4 + 12, 3),
    }
}

/// Maps an animation's frame to its column and row within a variation.
pub fn frame_position(animation: AnimationType, frame: usize) -> (r: (usize, usize))
    ensures
        (r.0 as nat, r.1 as nat) == frame_position_spec(animation, frame as nat),
{
    match animation {
        AnimationType::Idle => (frame % 4, 0),
        AnimationType::Walk => (frame % 8 + 4, 0),
        AnimationType::Run => (frame % 6, 1),
        AnimationType::Eat => (frame % 6 + 2, 1),
        AnimationType::Sleep => (frame % 4 + 8, 1),
        AnimationType::Talk => (frame % 8, 2),
        AnimationType::Attack => (frame % 6 + 4, 2),
        AnimationType::Death => (frame % 6 + 10, 2),
        AnimationType::Special(special) => special_position(special, frame),
    }
}

/// The grid cell (column, row) of an animation's frame in a given variation;
/// each variation takes three rows.
pub fn animation_cell(animation: AnimationType, frame: usize, variation: usize) -> (r: (
    usize,
    usize,
))
    requires
        variation * 3 + frame_position_spec(animation, frame as nat).1 + 1 <= usize::MAX,
    ensures
        r.0 == frame_position_spec(animation, frame as nat).0,
        r.1 == variation * 3 + frame_position_spec(animation, frame as nat).1,
{
    let (col, row_offset) = frame_position(animation, frame);
    (col, variation * 3 + row_offset)
}

/// Maps an expression to its column and row in the expression sheet.
pub fn expression_position(expression: ExpressionType) -> (r: (usize, usize))
    ensures
        (r.0 as nat, r.1 as nat) == expression_position_spec(expression),
{
    match expression {
        ExpressionType::Neutral => (0, 0),
        ExpressionType::Happy => (1, 0),
        ExpressionType::Sad => (2, 0),
        ExpressionType::Angry => (3, 0),
        ExpressionType::Scared => (4, 0),
        ExpressionType::Curious => (5, 0),
        ExpressionType::Tired => (6, 0),
        ExpressionType::Hungry => (7, 0),
        ExpressionType::Excited => (0, 1),
        ExpressionType::Content => (1, 1),
        ExpressionType::Disgusted => (2, 1),
        ExpressionType::Surprised => (3, 1),
        ExpressionType::Confused => (4, 1),
        ExpressionType::Sleeping => (5, 1),
        ExpressionType::Sick => (6, 1),
        ExpressionType::Love => (7, 1),
    }
}

/// The grid cell (column, row) of an expression overlay in the atlas.
pub fn expression_cell(expression: ExpressionType) -> (r: (usize, usize))
    ensures
        r.0 == expression_position_spec(expression).0,
        r.1 == EXPRESSION_BASE_ROW + expression_position_spec(expression).1,
{
    let (col, row) = expression_position(expression);
    (col, EXPRESSION_BASE_ROW + row)
}

/// The index of a grid cell in an atlas eight columns wide.
pub fn atlas_index(col: usize, row: usize) -> (i: usize)
    requires
        row * 8 + col <= usize::MAX,
    ensures
        i == row * 8 + col,
{
    row * 8 + col
}

/// The atlas species drawn for a creature of type `t`.
pub open spec fn species_of_spec(t: CreatureType) -> CreatureSpecies {
    match t {
        CreatureType::Herbivore => CreatureSpecies::Herbivore,
        CreatureType::Carnivore => CreatureSpecies::Carnivore,
        CreatureType::Omnivore => CreatureSpecies::Omnivore,
    }
}

/// The atlas species drawn for a creature of type `t`.
pub fn species_of(t: CreatureType) -> (s: CreatureSpecies)
    ensures
        s == species_of_spec(t),
{
    match t {
        CreatureType::Herbivore => CreatureSpecies::Herbivore,
        CreatureType::Carnivore => CreatureSpecies::Carnivore,
        CreatureType::Omnivore => CreatureSpecies::Omnivore,
    }
}

/// Converts a creature species to the name used in resource paths.
pub fn species_to_string(species: CreatureSpecies) -> (s: &'static str)
    ensures
        species == CreatureSpecies::Herbivore ==> s@ == "herbivore"@,
        species == CreatureSpecies::Carnivore ==> s@ == "carnivore"@,
        species == CreatureSpecies::Omnivore ==> s@ == "omnivore"@,
{
    match species {
        CreatureSpecies::Herbivore => "herbivore",
        CreatureSpecies::Carnivore => "carnivore",
        CreatureSpecies::Omnivore => "omnivore",
    }
}

/// The standard frames of an animation shared by all creatures, as
/// (first frame, frame count, loop mode); special animations have none.
pub open spec fn standard_frames_spec(animation: AnimationType) -> Option<(nat, nat, AnimationLoopMode)> {
    match animation {
        AnimationType::Idle => Some((0, 4, AnimationLoopMode::Loop)),
        AnimationType::Walk => Some((4, 8, AnimationLoopMode::Loop)),
        AnimationType::Run => Some((12, 6, AnimationLoopMode::Loop)),
        AnimationType::Eat => Some((18, 6, AnimationLoopMode::Once)),
        AnimationType::Sleep => Some((24, 4, AnimationLoopMode::Loop)),
        AnimationType::Talk => Some((28, 8, AnimationLoopMode::Loop)),
        AnimationType::Attack => Some((36, 6, AnimationLoopMode::Once)),
        AnimationType::Death => Some((42, 8, AnimationLoopMode::Once)),
        AnimationType::Special(_) => None,
    }
}

/// The standard frame range of an animation, if it has one.
pub fn standard_frames(animation: AnimationType) -> (r: Option<FrameRange>)
    ensures
        match (r, standard_frames_spec(animation)) {
            (Some(f), Some((start, count, mode))) => f.start_frame == start && f.frame_count
                == count && f.loop_mode == mode,
            (None, None) => true,
            _ => false,
        },
{
    match animation {
        AnimationType::Idle => Some(FrameRange { start_frame: 0, frame_count: 4, loop_mode: AnimationLoopMode::Loop }),
        AnimationType::Walk => Some(FrameRange { start_frame: 4, frame_count: 8, loop_mode: AnimationLoopMode::Loop }),
        AnimationType::Run => Some(FrameRange { start_frame: 12, frame_count: 6, loop_mode: AnimationLoopMode::Loop }),
        AnimationType::Eat => Some(FrameRange { start_frame: 18, frame_count: 6, loop_mode: AnimationLoopMode::Once }),
        AnimationType::Sleep => Some(FrameRange { start_frame: 24, frame_count: 4, loop_mode: AnimationLoopMode::Loop }),
        AnimationType::Talk => Some(FrameRange { start_frame: 28, frame_count: 8, loop_mode: AnimationLoopMode::Loop }),
        AnimationType::Attack => Some(FrameRange { start_frame: 36, frame_count: 6, loop_mode: AnimationLoopMode::Once }),
        AnimationType::Death => Some(FrameRange { start_frame: 42, frame_count: 8, loop_mode: AnimationLoopMode::Once }),
        AnimationType::Special(_) => None,
    }
}

/// Every frame lands inside one variation's block of the grid: columns below
/// sixteen, rows below four; and an animation repeats with its period.
pub proof fn lemma_frame_positions_in_grid(animation: AnimationType, frame: nat)
    ensures
        frame_position_spec(animation, frame).0 < 16,
        frame_position_spec(animation, frame).1 < 4,
        frame_position_spec(animation, frame + frame_period(animation)) == frame_position_spec(
            animation,
            frame,
        ),
{
    let p = frame_period(animation);
    assert((frame + p) % p == frame % p) by {
        vstd::arithmetic::div_mod::lemma_mod_add_multiples_vanish(frame as int, p as int);
    }
}

/// No two expressions share a cell, and every one lies in the eight-wide,
/// two-row expression sheet.
pub proof fn lemma_expression_positions_distinct(a: ExpressionType, b: ExpressionType)
    ensures
        expression_position_spec(a).0 < 8,
        expression_position_spec(a).1 < 2,
        expression_position_spec(a) == expression_position_spec(b) ==> a == b,
{
}

/// Within a variation an animation keeps to one row and steps one column per
/// frame from its first cell until it wraps around after its period; the
/// first cells are those of the documented layout.
pub proof fn lemma_frames_step_along_a_row(animation: AnimationType, frame: nat)
    ensures
        frame_position_spec(animation, frame).1 == frame_position_spec(animation, 0).1,
        frame_position_spec(animation, frame).0 == frame_position_spec(animation, 0).0 + frame
            % frame_period(animation),
        frame_position_spec(AnimationType::Idle, 0) == (0nat, 0nat),
        frame_position_spec(AnimationType::Walk, 0) == (4nat, 0nat),
        frame_position_spec(AnimationType::Run, 0) == (0nat, 1nat),
        frame_position_spec(AnimationType::Eat, 0) == (2nat, 1nat),
        frame_position_spec(AnimationType::Sleep, 0) == (8nat, 1nat),
        frame_position_spec(AnimationType::Talk, 0) == (0nat, 2nat),
        frame_position_spec(AnimationType::Attack, 0) == (4nat, 2nat),
        frame_position_spec(AnimationType::Death, 0) == (10nat, 2nat),
        frame_position_spec(AnimationType::Special(SpecialAnimationType::Happy), 0) == (0nat, 3nat),
        frame_position_spec(AnimationType::Special(SpecialAnimationType::Sad), 0) == (4nat, 3nat),
        frame_position_spec(AnimationType::Special(SpecialAnimationType::Angry), 0) == (8nat, 3nat),
        frame_position_spec(AnimationType::Special(SpecialAnimationType::Curious), 0) == (
            12nat,
            3nat,
        ),
{
}

/// The standard frame ranges follow one another without gap or overlap, in
/// the order idle, walk, run, eat, sleep, talk, attack, death, from frame 0;
/// eating, attacking and dying play once, the others loop.
pub proof fn lemma_standard_ranges_are_consecutive()
    ensures
        standard_frames_spec(AnimationType::Idle).unwrap().0 == 0,
        ({
            let seqv = seq![
                AnimationType::Idle,
                AnimationType::Walk,
                AnimationType::Run,
                AnimationType::Eat,
                AnimationType::Sleep,
                AnimationType::Talk,
                AnimationType::Attack,
                AnimationType::Death,
            ];
            forall|i: int|
                0 <= i < 7 ==> #[trigger] standard_frames_spec(seqv[i]).unwrap().0
                    + standard_frames_spec(seqv[i]).unwrap().1 == standard_frames_spec(
                    seqv[i + 1],
                ).unwrap().0
        }),
        standard_frames_spec(AnimationType::Eat).unwrap().2 == AnimationLoopMode::Once,
        standard_frames_spec(AnimationType::Attack).unwrap().2 == AnimationLoopMode::Once,
        standard_frames_spec(AnimationType::Death).unwrap().2 == AnimationLoopMode::Once,
        standard_frames_spec(AnimationType::Idle).unwrap().2 == AnimationLoopMode::Loop,
        standard_frames_spec(AnimationType::Walk).unwrap().2 == AnimationLoopMode::Loop,
        standard_frames_spec(AnimationType::Run).unwrap().2 == AnimationLoopMode::Loop,
        standard_frames_spec(AnimationType::Sleep).unwrap().2 == AnimationLoopMode::Loop,
        standard_frames_spec(AnimationType::Talk).unwrap().2 == AnimationLoopMode::Loop,
        standard_frames_spec(AnimationType::Death).unwrap().1 == 8,
        forall|s: SpecialAnimationType| #[trigger] standard_frames_spec(AnimationType::Special(s))
            is None,
{
    let seqv = seq![
        AnimationType::Idle,
        AnimationType::Walk,
        AnimationType::Run,
        AnimationType::Eat,
        AnimationType::Sleep,
        AnimationType::Talk,
        AnimationType::Attack,
        AnimationType::Death,
    ];
    assert forall|i: int|
        0 <= i < 7 implies #[trigger] standard_frames_spec(seqv[i]).unwrap().0
            + standard_frames_spec(seqv[i]).unwrap().1 == standard_frames_spec(
            seqv[i + 1],
        ).unwrap().0 by {
        if i == 0 {} else if i == 1 {} else if i == 2 {} else if i == 3 {} else if i == 4 {}
        else if i == 5 {} else {}
    }
}

} // verus!
