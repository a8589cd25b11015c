use creature_simulation::audio::{
    channel_priority, max_concurrent, should_duck, AudioChannelType, PrioritizedSound, SoundQueue,
};

#[test]
fn test_priority_queue() {
    let mut queue = SoundQueue::new();
    queue.push(PrioritizedSound { sound: "a", priority: 100 });
    queue.push(PrioritizedSound { sound: "b", priority: 200 });
    let first = queue.pop().unwrap();
    assert_eq!(first.priority, 200);
}

#[test]
fn pop_drains_by_priority() {
    let mut queue = SoundQueue::new();
    for (s, p) in [("x", 5u8), ("y", 9), ("z", 1), ("w", 9)] {
        queue.push(PrioritizedSound { sound: s, priority: p });
    }
    let mut order = Vec::new();
    while let Some(s) = queue.pop() {
        order.push(s.priority);
    }
    assert_eq!(order, vec![9, 9, 5, 1]);
    assert!(queue.is_empty());
    assert!(queue.pop().is_none());
}

#[test]
fn channel_admits_up_to_its_limit() {
    let mut queue = SoundQueue::new();
    for p in [10u8, 50, 30, 40, 20] {
        queue.push(PrioritizedSound { sound: p as u32, priority: p });
    }
    let started = queue.take_to_play(2, 4);
    let prios: Vec<u8> = started.iter().map(|s| s.priority).collect();
    assert_eq!(prios, vec![50, 40]);
    assert_eq!(queue.len(), 3);
    assert!(queue.take_to_play(4, 4).is_empty());
    assert!(queue.take_to_play(7, 4).is_empty());
    let rest = queue.take_to_play(0, 16);
    assert_eq!(rest.iter().map(|s| s.priority).collect::<Vec<u8>>(), vec![30, 20, 10]);
    assert!(queue.is_empty());
}

#[test]
fn channel_table() {
    assert_eq!(channel_priority(AudioChannelType::Voice), 200);
    assert_eq!(channel_priority(AudioChannelType::Ui), 180);
    assert_eq!(channel_priority(AudioChannelType::Sfx), 128);
    assert_eq!(channel_priority(AudioChannelType::Ambient), 64);
    assert_eq!(max_concurrent(AudioChannelType::Sfx), 16);
    assert_eq!(max_concurrent(AudioChannelType::Voice), 8);
    assert_eq!(max_concurrent(AudioChannelType::Ambient), 4);
    assert!(should_duck(1));
    assert!(!should_duck(0));
}
