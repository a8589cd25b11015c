use creature_simulation::particles::{ParticleEffectType, ParticlePool};

#[test]
fn test_particle_pool_allocation() {
    let mut pool = ParticlePool::new(100);
    let indices = pool.allocate(10).unwrap();
    assert_eq!(indices.len(), 10);
    assert_eq!(pool.active_count(), 10);
    assert_eq!(pool.free_indices().len(), 90);
    pool.free(indices);
    assert_eq!(pool.active_count(), 0);
    assert_eq!(pool.free_indices().len(), 100);
}

#[test]
fn pool_hands_out_slots_in_order_and_refuses_too_many() {
    let mut pool = ParticlePool::new(5);
    assert_eq!(pool.max_particles(), 5);
    assert_eq!(pool.free_indices(), &[0, 1, 2, 3, 4]);
    assert_eq!(pool.allocate(2), Some(vec![0, 1]));
    assert_eq!(pool.allocate(4), None);
    assert_eq!(pool.active_count(), 2);
    assert_eq!(pool.allocate(3), Some(vec![2, 3, 4]));
    assert_eq!(pool.allocate(1), None);
    pool.free(vec![1]);
    assert_eq!(pool.free_indices(), &[1]);
    assert_eq!(pool.active_count(), 4);
    assert_eq!(pool.allocate(0), Some(vec![]));
}

#[test]
fn allocate_then_free_restores_the_pool() {
    let mut pool = ParticlePool::new(8);
    let taken = pool.allocate(3).unwrap();
    pool.free(taken);
    assert_eq!(pool.active_count(), 0);
    let mut free = pool.free_indices().to_vec();
    free.sort();
    assert_eq!(free, (0..8).collect::<Vec<usize>>());
    assert_eq!(pool.free_indices(), &[3, 4, 5, 6, 7, 0, 1, 2]);
}

#[test]
fn expired_slots_skip_free_ones() {
    let mut pool = ParticlePool::new(6);
    let _ = pool.allocate(4).unwrap(); // slots 0..4 in use
    let expired = vec![true, false, true, false, true, true];
    assert_eq!(pool.expired_slots(&expired), vec![0, 2]);
}

#[test]
fn effect_type_numbering_round_trips() {
    let all = [
        ParticleEffectType::Heart,
        ParticleEffectType::Zzz,
        ParticleEffectType::Sparkle,
        ParticleEffectType::Sweat,
        ParticleEffectType::Exclamation,
        ParticleEffectType::Question,
        ParticleEffectType::Rain,
        ParticleEffectType::Snow,
        ParticleEffectType::Fog,
        ParticleEffectType::Wind,
        ParticleEffectType::Lightning,
        ParticleEffectType::Impact,
        ParticleEffectType::Footstep,
        ParticleEffectType::Splash,
        ParticleEffectType::Dust,
        ParticleEffectType::Leaves,
        ParticleEffectType::Fireflies,
        ParticleEffectType::Pollen,
        ParticleEffectType::Smoke,
    ];
    for (i, e) in all.iter().enumerate() {
        assert_eq!(e.index(), i as u32);
        assert_eq!(ParticleEffectType::from_index(i as u32), Some(*e));
    }
    assert_eq!(ParticleEffectType::from_index(19), None);
    assert_eq!(ParticleEffectType::Snow.index(), 7);
}
