//! Audio channels: channel priorities and voice limits, and the queue of
//! sounds waiting to play, from which the most important play first.
//!
//! A sound waiting to play carries a priority and whatever the caller needs to
//! play it (`S`). The queue hands out a sound of highest priority first; among
//! sounds of equal priority it picks any.

use vstd::prelude::*;
use vstd::multiset::Multiset;

verus! {

broadcast use vstd::seq_lib::group_to_multiset_ensures;

/// Types of audio channels for organizing sounds.
#[derive(Debug, Clone, Copy, PartialEq, Eq, Hash, Structural)]
pub enum AudioChannelType {
    /// Sound effects (footsteps, actions, etc)
    Sfx,
    /// Environmental and weather sounds
    Ambient,
    /// UI feedback sounds
    Ui,
    /// Creature vocalizations
    Voice,
}

/// The priority given to sounds played on a channel.
pub open spec fn channel_priority_spec(channel: AudioChannelType) -> u8 {
    match channel {
        AudioChannelType::Voice => 200,
        AudioChannelType::Ui => 180,
        AudioChannelType::Sfx => 128,
        AudioChannelType::Ambient => 64,
    }
}

/// The priority given to sounds played on a channel.
pub fn channel_priority(channel: AudioChannelType) -> (p: u8)
    ensures
        p == channel_priority_spec(channel),
{
    match channel {
        AudioChannelType::Voice => 200,
        AudioChannelType::Ui => 180,
        AudioChannelType::Sfx => 128,
        AudioChannelType::Ambient => 64,
    }
}

/// How many sounds a channel plays at once.
pub open spec fn max_concurrent_spec(channel: AudioChannelType) -> usize {
    match channel {
        AudioChannelType::Sfx => 16,
        AudioChannelType::Ambient => 4,
        AudioChannelType::Voice => 8,
        AudioChannelType::Ui => 4,
    }
}

/// How many sounds a channel plays at once.
pub fn max_concurrent(channel: AudioChannelType) -> (n: usize)
    ensures
        n == max_concurrent_spec(channel),
{
    match channel {
        AudioChannelType::Sfx => 16,
        AudioChannelType::Ambient => 4,
        AudioChannelType::Voice => 8,
        AudioChannelType::Ui => 4,
    }
}

/// Whether the other channels are ducked: they are while a voice plays.
pub fn should_duck(voice_sounds_playing: usize) -> (r: bool)
    ensures
        r == (voice_sounds_playing > 0),
{
    voice_sounds_playing != 0
}

/// A sound waiting to play, with its priority (higher is more important).
#[derive(Debug, Clone)]
pub struct PrioritizedSound<S> {
    pub sound: S,
    pub priority: u8,
}

/// Sounds waiting to play.
pub struct SoundQueue<S> {
    items: Vec<PrioritizedSound<S>>,
}

impl<S> View for SoundQueue<S> {
    type V = Seq<PrioritizedSound<S>>;

    /// The waiting sounds, in no meaningful order.
    closed spec fn view(&self) -> Seq<PrioritizedSound<S>> {
        self.items@
    }
}

/// Every sound in `s` has priority at most `p`.
pub open spec fn all_at_most<S>(s: Seq<PrioritizedSound<S>>, p: u8) -> bool {
    forall|i: int| 0 <= i < s.len() ==> #[trigger] s[i].priority <= p
}

impl<S> SoundQueue<S> {
    /// An empty queue.
    pub fn new() -> (q: Self)
        ensures
            q@ == Seq::<PrioritizedSound<S>>::empty(),
    {
        SoundQueue { items: Vec::new() }
    }

    /// Number of waiting sounds.
    pub fn len(&self) -> (n: usize)
        ensures
            n == self@.len(),
    {
        self.items.len()
    }

    /// Whether no sound is waiting.
    pub fn is_empty(&self) -> (r: bool)
        ensures
            r == (self@.len() == 0),
    {
        self.items.len() == 0
    }

    /// Queues a sound.
    pub fn push(&mut self, item: PrioritizedSound<S>)
        ensures
            final(self)@ == old(self)@.push(item),
    {
        self.items.push(item);
    }

    /// Takes out a sound of highest priority, if any is waiting.
    pub fn pop(&mut self) -> (r: Option<PrioritizedSound<S>>)
        ensures
            r is None <==> old(self)@.len() == 0,
            r is None ==> final(self)@ == old(self)@,
            r matches Some(x) ==> {
                &&& old(self)@.to_multiset() == final(self)@.to_multiset().insert(x)
                &&& all_at_most(final(self)@, x.priority)
                &&& final(self)@.len() + 1 == old(self)@.len()
            },
    {
        if self.items.len() == 0 {
            return None;
        }
        let mut best: usize = 0;
        let mut i: usize = 1;
        while i < self.items.len()
            invariant
                0 <= best < i <= self.items@.len(),
                forall|j: int| 0 <= j < i ==> self.items@[j].priority <= self.items@[best as int].priority,
            decreases self.items@.len() - i,
        {
            if self.items[i].priority > self.items[best].priority {
                best = i;
            }
            i = i + 1;
        }
        let ghost before = self.items@;
        let x = self.items.remove(best);
        proof {
            vstd::seq_lib::to_multiset_remove(before, best as int);
            assert(before.to_multiset().remove(x).insert(x) =~= before.to_multiset());
            assert forall|j: int| 0 <= j < self.items@.len() implies #[trigger] self.items@[j].priority
                <= x.priority by {
                if j < best {
                    assert(self.items@[j] == before[j]);
                } else {
                    assert(self.items@[j] == before[j + 1]);
                }
            }
        }
        Some(x)
    }

    /// Takes out the sounds a channel starts now: while fewer than
    /// `max_concurrent` sounds play (`active` already do), the most important
    /// waiting sound. They come in order of decreasing priority, each at
    /// least as important as any sound left waiting.
    pub fn take_to_play(&mut self, active: usize, max_concurrent: usize) -> (r: Vec<
        PrioritizedSound<S>,
    >)
        ensures
            r@.len() == (if active >= max_concurrent {
                0
            } else if old(self)@.len() < max_concurrent - active {
                old(self)@.len() as int
            } else {
                max_concurrent - active
            }),
            old(self)@.to_multiset() == final(self)@.to_multiset().add(r@.to_multiset()),
            forall|i: int, j: int| 0 <= i < j < r@.len() ==> r@[j].priority <= r@[i].priority,
            forall|i: int| 0 <= i < r@.len() ==> all_at_most(final(self)@, #[trigger] r@[i].priority),
    {
        let mut started: Vec<PrioritizedSound<S>> = Vec::new();
        if active >= max_concurrent {
            assert(started@.to_multiset() =~= Multiset::empty());
            assert(old(self)@.to_multiset() =~= self@.to_multiset().add(started@.to_multiset()));
            return started;
        }
        let room = max_concurrent - active;
        while started.len() < room
            invariant_except_break
                started@.len() <= room,
            invariant
                room == max_concurrent - active,
                started@.len() + self@.len() == old(self)@.len(),
                old(self)@.to_multiset() == self@.to_multiset().add(started@.to_multiset()),
                forall|i: int, j: int|
                    0 <= i < j < started@.len() ==> started@[j].priority <= started@[i].priority,
                forall|i: int|
                    0 <= i < started@.len() ==> all_at_most(self@, #[trigger] started@[i].priority),
            ensures
                started@.len() == room || self@.len() == 0,
                started@.len() <= room,
            decreases room - started@.len(),
        {
            let ghost q0 = self@;
            match self.pop() {
                Some(x) => {
                    let ghost prev = started@;
                    started.push(x);
                    proof {
                        assert(started@.to_multiset() =~= prev.to_multiset().insert(x));
                        assert(old(self)@.to_multiset() =~= self@.to_multiset().add(
                            started@.to_multiset(),
                        ));
                        assert(q0.to_multiset().count(x) > 0);
                        assert(q0.contains(x));
                        let k = choose|k: int| 0 <= k < q0.len() && q0[k] == x;
                        assert forall|i: int| 0 <= i < prev.len() implies x.priority
                            <= #[trigger] prev[i].priority by {
                            assert(all_at_most(q0, prev[i].priority));
                            assert(q0[k].priority <= prev[i].priority);
                        }
                        assert forall|i: int| 0 <= i < started@.len() implies all_at_most(
                            self@,
                            #[trigger] started@[i].priority,
                        ) by {
                            if i < prev.len() {
                                assert forall|j: int| 0 <= j < self@.len() implies #[trigger] self@[j].priority
                                    <= started@[i].priority by {
                                    assert(self@.to_multiset().count(self@[j]) > 0);
                                    assert(q0.to_multiset().count(self@[j]) > 0);
                                    assert(q0.contains(self@[j]));
                                    let m = choose|m: int| 0 <= m < q0.len() && q0[m] == self@[j];
                                    assert(all_at_most(q0, prev[i].priority));
                                    assert(q0[m].priority <= prev[i].priority);
                                }
                            }
                        }
                    }
                },
                None => {
                    break;
                },
            }
        }
        started
    }
}

/// Voices outrank interface sounds, which outrank effects, which outrank
/// ambience; effects get the most simultaneous voices, creature voices half as
/// many, ambience and interface a quarter.
pub proof fn lemma_channel_ranks()
    ensures
        channel_priority_spec(AudioChannelType::Voice) > channel_priority_spec(AudioChannelType::Ui),
        channel_priority_spec(AudioChannelType::Ui) > channel_priority_spec(AudioChannelType::Sfx),
        channel_priority_spec(AudioChannelType::Sfx) > channel_priority_spec(
            AudioChannelType::Ambient,
        ),
        max_concurrent_spec(AudioChannelType::Voice) * 2 == max_concurrent_spec(AudioChannelType::Sfx),
        max_concurrent_spec(AudioChannelType::Ambient) * 4 == max_concurrent_spec(
            AudioChannelType::Sfx,
        ),
        max_concurrent_spec(AudioChannelType::Ui) * 4 == max_concurrent_spec(AudioChannelType::Sfx),
        max_concurrent_spec(AudioChannelType::Sfx) == 16,
        channel_priority_spec(AudioChannelType::Voice) == 200,
        channel_priority_spec(AudioChannelType::Ui) == 180,
        channel_priority_spec(AudioChannelType::Sfx) == 128,
        channel_priority_spec(AudioChannelType::Ambient) == 64,
{
}

} // verus!
