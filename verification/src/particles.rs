//! Pooling of particle slots and the numbering of particle effects.
//!
//! The pool hands out slot indices into a preallocated particle buffer kept by
//! the caller. It keeps a list of free indices and a count of slots in use;
//! every slot is counted exactly once, in use or free.

use vstd::prelude::*;

verus! {

/// The abstract state of a particle pool.
pub struct PoolView {
    /// The free slot indices, in the order in which they are handed out.
    pub free: Seq<usize>,
    /// Number of slots in use.
    pub active: nat,
    /// Number of slots in the pool.
    pub capacity: nat,
}

/// Global pool of particle slots.
pub struct ParticlePool {
    free_indices: Vec<usize>,
    active_count: u32,
    max_particles: u32,
}

impl View for ParticlePool {
    type V = PoolView;

    closed spec fn view(&self) -> PoolView {
        PoolView {
            free: self.free_indices@,
            active: self.active_count as nat,
            capacity: self.max_particles as nat,
        }
    }
}

/// The accounting invariant: each slot is either in use or free.
pub open spec fn pool_accounts(v: PoolView) -> bool {
    v.active + v.free.len() == v.capacity && v.capacity <= u32::MAX
}

/// The pool after handing out `count` slots, when there are enough.
pub open spec fn after_allocate(v: PoolView, count: nat) -> PoolView {
    PoolView { free: v.free.skip(count as int), active: v.active + count, capacity: v.capacity }
}

/// The pool after giving back the slots `indices`.
pub open spec fn after_free(v: PoolView, indices: Seq<usize>) -> PoolView {
    PoolView { free: v.free + indices, active: (v.active - indices.len()) as nat, capacity: v.capacity }
}

impl ParticlePool {
    /// The pool is well formed: every slot is accounted for.
    pub closed spec fn wf(&self) -> bool {
        pool_accounts(self@)
    }

    /// Creates a pool of `max_particles` slots, all free, numbered in order.
    pub fn new(max_particles: u32) -> (pool: Self)
        ensures
            pool.wf(),
            pool@.active == 0,
            pool@.capacity == max_particles,
            pool@.free == Seq::new(max_particles as nat, |i: int| i as usize),
    {
        let mut free_indices: Vec<usize> = Vec::new();
        let mut i: u32 = 0;
        while i < max_particles
            invariant
                i <= max_particles,
                free_indices@ == Seq::new(i as nat, |k: int| k as usize),
            decreases max_particles - i,
        {
            free_indices.push(i as usize);
            i = i + 1;
        }
        ParticlePool { free_indices, active_count: 0, max_particles }
    }

    /// Number of slots in use.
    pub fn active_count(&self) -> (n: u32)
        ensures
            n == self@.active,
    {
        self.active_count
    }

    /// Number of slots in the pool.
    pub fn max_particles(&self) -> (n: u32)
        ensures
            n == self@.capacity,
    {
        self.max_particles
    }

    /// The free slot indices, in the order in which they are handed out.
    pub fn free_indices(&self) -> (s: &[usize])
        ensures
            s@ == self@.free,
    {
        self.free_indices.as_slice()
    }

    /// Hands out the first `count` free slots, or nothing when fewer are free.
    pub fn allocate(&mut self, count: u32) -> (r: Option<Vec<usize>>)
        requires
            old(self).wf(),
        ensures
            final(self).wf(),
            (old(self)@.free.len() < count) <==> r is None,
            r is None ==> final(self)@ == old(self)@,
            r matches Some(v) ==> {
                &&& v@ == old(self)@.free.take(count as int)
                &&& final(self)@ == after_allocate(old(self)@, count as nat)
            },
    {
        if self.free_indices.len() < count as usize {
            return None;
        }
        let mut taken = self.free_indices.split_off(count as usize);
        std::mem::swap(&mut taken, &mut self.free_indices);
        self.active_count = self.active_count + count;
        assert(self@.free =~= old(self)@.free.skip(count as int));
        Some(taken)
    }

    /// Gives slots back: they join the end of the free list.
    pub fn free(&mut self, indices: Vec<usize>)
        requires
            old(self).wf(),
            indices.len() <= old(self)@.active,
        ensures
            final(self).wf(),
            final(self)@ == after_free(old(self)@, indices@),
    {
        let mut indices = indices;
        self.active_count = self.active_count - indices.len() as u32;
        self.free_indices.append(&mut indices);
    }

    /// Whether slot `i` is on the free list.
    fn is_free(&self, i: usize) -> (r: bool)
        ensures
            r == self@.free.contains(i),
    {
        let mut k: usize = 0;
        while k < self.free_indices.len()
            invariant
                k <= self.free_indices@.len(),
                forall|j: int| 0 <= j < k ==> self.free_indices@[j] != i,
            decreases self.free_indices@.len() - k,
        {
            if self.free_indices[k] == i {
                return true;
            }
            k = k + 1;
        }
        false
    }

    /// The slots to reclaim: in increasing order, each index `i` whose particle
    /// has run out (`expired[i]`) and that is not already free.
    pub fn expired_slots(&self, expired: &Vec<bool>) -> (r: Vec<usize>)
        ensures
            forall|j: int, k: int| 0 <= j < k < r@.len() ==> r@[j] < r@[k],
            forall|i: usize|
                r@.contains(i) <==> (i < expired@.len() && expired@[i as int]
                    && !self@.free.contains(i)),
    {
        let mut r: Vec<usize> = Vec::new();
        let mut i: usize = 0;
        while i < expired.len()
            invariant
                i <= expired@.len(),
                forall|j: int, k: int| 0 <= j < k < r@.len() ==> r@[j] < r@[k],
                forall|j: int| 0 <= j < r@.len() ==> r@[j] < i,
                forall|x: usize|
                    r@.contains(x) <==> (x < i && expired@[x as int] && !self@.free.contains(x)),
            decreases expired@.len() - i,
        {
            let ghost before = r@;
            if expired[i] && !self.is_free(i) {
                r.push(i);
                assert(r@ == before.push(i));
            }
            assert forall|x: usize|
                r@.contains(x) <==> (x < i + 1 && expired@[x as int] && !self@.free.contains(
                    x,
                )) by {
                if r@.contains(x) && x != i {
                    let k = choose|k: int| 0 <= k < r@.len() && r@[k] == x;
                    assert(before[k] == x);
                }
                if x < i && expired@[x as int] && !self@.free.contains(x) {
                    let k = choose|k: int| 0 <= k < before.len() && before[k] == x;
                    assert(r@[k] == x);
                }
                if x == i && expired@[x as int] && !self@.free.contains(x) {
                    assert(r@[r@.len() - 1] == x);
                }
            }
            i = i + 1;
        }
        r
    }
}

/// Every pool keeps its accounting: handing out slots and giving them back
/// both leave each slot counted once.
pub proof fn lemma_accounting_kept(v: PoolView, count: nat, indices: Seq<usize>)
    requires
        pool_accounts(v),
    ensures
        count <= v.free.len() ==> pool_accounts(after_allocate(v, count)),
        indices.len() <= v.active ==> pool_accounts(after_free(v, indices)),
{
}

/// Giving back what was just handed out restores the count of slots in use
/// and the set of free slots (the returned ones move to the end of the list).
pub proof fn lemma_allocate_then_free(v: PoolView, count: nat)
    requires
        pool_accounts(v),
        count <= v.free.len(),
    ensures
        ({
            let w = after_free(after_allocate(v, count), v.free.take(count as int));
            &&& w.active == v.active
            &&& w.capacity == v.capacity
            &&& w.free.len() == v.free.len()
            &&& w.free.to_multiset() == v.free.to_multiset()
        }),
{
    let a = v.free.take(count as int);
    let b = v.free.skip(count as int);
    assert(v.free == a + b);
    vstd::seq_lib::lemma_multiset_commutative(b, a);
    vstd::seq_lib::lemma_multiset_commutative(a, b);
}

/// Particle effect types, numbered in declaration order.
#[derive(Debug, Clone, Copy, PartialEq, Eq, Hash, Structural)]
pub enum ParticleEffectType {
    Heart,
    Zzz,
    Sparkle,
    Sweat,
    Exclamation,
    Question,
    Rain,
    Snow,
    Fog,
    Wind,
    Lightning,
    Impact,
    Footstep,
    Splash,
    Dust,
    Leaves,
    Fireflies,
    Pollen,
    Smoke,
}

/// The number of each effect type.
pub open spec fn effect_index(e: ParticleEffectType) -> u32 {
    match e {
        ParticleEffectType::Heart => 0,
        ParticleEffectType::Zzz => 1,
        ParticleEffectType::Sparkle => 2,
        ParticleEffectType::Sweat => 3,
        ParticleEffectType::Exclamation => 4,
        ParticleEffectType::Question => 5,
        ParticleEffectType::Rain => 6,
        ParticleEffectType::Snow => 7,
        ParticleEffectType::Fog => 8,
        ParticleEffectType::Wind => 9,
        ParticleEffectType::Lightning => 10,
        ParticleEffectType::Impact => 11,
        ParticleEffectType::Footstep => 12,
        ParticleEffectType::Splash => 13,
        ParticleEffectType::Dust => 14,
        ParticleEffectType::Leaves => 15,
        ParticleEffectType::Fireflies => 16,
        ParticleEffectType::Pollen => 17,
        ParticleEffectType::Smoke => 18,
    }
}

impl ParticleEffectType {
    /// The texture index of this effect type.
    pub fn index(self) -> (i: u32)
        ensures
            i == effect_index(self),
    {
        match self {
            ParticleEffectType::Heart => 0,
            ParticleEffectType::Zzz => 1,
            ParticleEffectType::Sparkle => 2,
            ParticleEffectType::Sweat => 3,
            ParticleEffectType::Exclamation => 4,
            ParticleEffectType::Question => 5,
            ParticleEffectType::Rain => 6,
            ParticleEffectType::Snow => 7,
            ParticleEffectType::Fog => 8,
            ParticleEffectType::Wind => 9,
            ParticleEffectType::Lightning => 10,
            ParticleEffectType::Impact => 11,
            ParticleEffectType::Footstep => 12,
            ParticleEffectType::Splash => 13,
            ParticleEffectType::Dust => 14,
            ParticleEffectType::Leaves => 15,
            ParticleEffectType::Fireflies => 16,
            ParticleEffectType::Pollen => 17,
            ParticleEffectType::Smoke => 18,
        }
    }

    /// The effect type with texture index `index`, if any.
    pub fn from_index(index: u32) -> (r: Option<Self>)
        ensures
            r matches Some(e) ==> effect_index(e) == index,
            r is None <==> index >= 19,
    {
        match index {
            0 => Some(ParticleEffectType::Heart),
            1 => Some(ParticleEffectType::Zzz),
            2 => Some(ParticleEffectType::Sparkle),
            3 => Some(ParticleEffectType::Sweat),
            4 => Some(ParticleEffectType::Exclamation),
            5 => Some(ParticleEffectType::Question),
            6 => Some(ParticleEffectType::Rain),
            7 => Some(ParticleEffectType::Snow),
            8 => Some(ParticleEffectType::Fog),
            9 => Some(ParticleEffectType::Wind),
            10 => Some(ParticleEffectType::Lightning),
            11 => Some(ParticleEffectType::Impact),
            12 => Some(ParticleEffectType::Footstep),
            13 => Some(ParticleEffectType::Splash),
            14 => Some(ParticleEffectType::Dust),
            15 => Some(ParticleEffectType::Leaves),
            16 => Some(ParticleEffectType::Fireflies),
            17 => Some(ParticleEffectType::Pollen),
            18 => Some(ParticleEffectType::Smoke),
            _ => None,
        }
    }
}

/// Numbering is one to one: an effect type's index leads back to it, and no
/// two types share an index.
pub proof fn lemma_effect_index_injective(a: ParticleEffectType, b: ParticleEffectType)
    ensures
        effect_index(a) < 19,
        effect_index(a) == effect_index(b) ==> a == b,
{
}

/// Allocation hands out slots from the front of the free list and counts them
/// as in use; freeing appends the returned slots to the back of the free list
/// and counts them out of use; the capacity never changes.
pub proof fn lemma_free_list_order(v: PoolView, count: nat, indices: Seq<usize>)
    requires
        count <= v.free.len(),
        indices.len() <= v.active,
    ensures
        v.free.take(count as int) + after_allocate(v, count).free == v.free,
        after_allocate(v, count).active == v.active + count,
        after_allocate(v, count).capacity == v.capacity,
        after_free(v, indices).free.take(v.free.len() as int) == v.free,
        after_free(v, indices).free.skip(v.free.len() as int) == indices,
        after_free(v, indices).active + indices.len() == v.active,
        after_free(v, indices).capacity == v.capacity,
{
    assert(v.free.take(count as int) + v.free.skip(count as int) =~= v.free);
    assert((v.free + indices).take(v.free.len() as int) =~= v.free);
    assert((v.free + indices).skip(v.free.len() as int) =~= indices);
}

} // verus!
