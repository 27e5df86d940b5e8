use mara_core::cache::{MaraCache, SweptCache};
use std::collections::HashMap;

#[derive(Default)]
struct Counted {
    generation: u64,
    entries: HashMap<u32, u64>,
}

impl SweptCache for Counted {
    fn sweep(&mut self) {
        let current = self.generation;
        self.entries.retain(|_, stamp| *stamp == current);
        self.generation += 1;
    }
}

#[test]
fn sweep_keeps_touched_entries_and_drops_stale_ones() {
    let cache = MaraCache::<Counted>::default();

    cache.with(|c| c.entries.insert(1, c.generation)).unwrap();
    cache.with(|c| c.entries.insert(2, c.generation)).unwrap();
    assert_eq!(cache.with(|c| c.entries.len()), Some(2));

    cache.sweep();
    cache.with(|c| c.entries.insert(1, c.generation)).unwrap();

    cache.sweep();
    assert_eq!(cache.with(|c| c.entries.len()), Some(1));
    assert_eq!(cache.with(|c| c.entries.contains_key(&1)), Some(true));
}

#[test]
fn handles_share_one_store() {
    let a = MaraCache::<Counted>::default();
    let b = a.clone();
    a.with(|c| c.entries.insert(7, 0)).unwrap();
    assert_eq!(b.with(|c| c.entries.get(&7).copied()), Some(Some(0)));
}

#[test]
fn lock_borrows_the_contents() {
    let cache = MaraCache::<Counted>::new();
    {
        let mut guard = cache.lock().expect("fresh lock is not poisoned");
        guard.entries.insert(3, 9);
    }
    assert_eq!(cache.with(|c| c.entries.get(&3).copied()), Some(Some(9)));
}

#[test]
fn a_busy_cache_is_a_miss_not_a_deadlock() {
    let cache = MaraCache::<Counted>::default();
    let other = cache.clone();
    let inner = cache.with(|_| other.with(|c| c.entries.len()));
    assert_eq!(inner, Some(None));
    let guard = cache.lock().expect("free lock");
    assert!(other.lock().is_none());
    other.sweep();
    drop(guard);
    assert_eq!(other.with(|c| c.generation), Some(0));
}
