//! Speech bubbles: bubble kinds, their content, the emoji atlas, and the
//! stepping of a creature's queue of messages.

use vstd::prelude::*;

verus! {

/// Speech bubble types.
#[derive(Debug, Clone, Copy, PartialEq, Eq, Structural)]
pub enum BubbleType {
    /// Normal talking
    Speech,
    /// Thinking (cloud bubble)
    Thought,
    /// Loud/important (spiky bubble)
    Shout,
    /// Quiet (small, faded)
    Whisper,
    /// Game messages (different style)
    System,
}

/// Animation states of a bubble.
#[derive(Debug, Clone, Copy, PartialEq, Eq, Structural)]
pub enum BubbleAnimationState {
    Appearing,
    Idle,
    Disappearing,
    Bouncing,
}

/// Emoji types for visual communication.
#[derive(Debug, Clone, Copy, PartialEq, Eq, Structural)]
pub enum EmojiType {
    Happy,
    Sad,
    Angry,
    Love,
    Question,
    Exclamation,
    Food,
    Sleep,
    Music,
    Star,
    Warning,
    Check,
}

/// One part of a mixed bubble.
#[derive(Debug, Clone)]
pub enum ContentPart {
    Text(String),
    Emoji(EmojiType),
    Icon(String),
}

/// Content that can be displayed in a speech bubble.
#[derive(Debug, Clone)]
pub enum BubbleContent {
    Text(String),
    Emoji(EmojiType),
    Mixed(Vec<ContentPart>),
}

/// Number of emoji in the emoji atlas (four columns, three rows).
pub const EMOJI_COUNT: usize = 12;

/// The position of each emoji in the emoji atlas.
pub open spec fn emoji_index_spec(emoji: EmojiType) -> usize {
    match emoji {
        EmojiType::Happy => 0,
        EmojiType::Sad => 1,
        EmojiType::Angry => 2,
        EmojiType::Love => 3,
        EmojiType::Question => 4,
        EmojiType::Exclamation => 5,
        EmojiType::Food => 6,
        EmojiType::Sleep => 7,
        EmojiType::Music => 8,
        EmojiType::Star => 9,
        EmojiType::Warning => 10,
        EmojiType::Check => 11,
    }
}

/// The position of an emoji in the emoji atlas.
pub fn emoji_to_atlas_index(emoji: EmojiType) -> (i: usize)
    ensures
        i == emoji_index_spec(emoji),
{
    match emoji {
        EmojiType::Happy => 0,
        EmojiType::Sad => 1,
        EmojiType::Angry => 2,
        EmojiType::Love => 3,
        EmojiType::Question => 4,
        EmojiType::Exclamation => 5,
        EmojiType::Food => 6,
        EmojiType::Sleep => 7,
        EmojiType::Music => 8,
        EmojiType::Star => 9,
        EmojiType::Warning => 10,
        EmojiType::Check => 11,
    }
}

/// Every emoji has a cell of its own in the atlas.
pub proof fn lemma_emoji_cells_distinct(a: EmojiType, b: EmojiType)
    ensures
        emoji_index_spec(a) < EMOJI_COUNT,
        emoji_index_spec(a) == emoji_index_spec(b) ==> a == b,
{
}

/// What happens when the current message of a queue of `len` messages has
/// run its time: the next message's index, or `None` when the queue is done.
pub fn next_message(current_index: usize, len: usize) -> (r: Option<usize>)
    requires
        current_index < len,
    ensures
        current_index + 1 < len ==> r == Some((current_index + 1) as usize),
        current_index + 1 >= len ==> r is None,
{
    let next = current_index + 1;
    if next < len {
        Some(next)
    } else {
        None
    }
}

} // verus!
