use seed_sampler::seed_store::SeedStore;

#[test]
fn a_new_store_holds_nothing() {
    let store = SeedStore::new();
    assert_eq!(store.read_current(), None);
}

#[test]
fn a_store_shows_the_latest_write_whole() {
    let mut store = SeedStore::new();
    let first = [0xaau8; 32];
    let mut second = [0u8; 32];
    for (i, byte) in second.iter_mut().enumerate() {
        *byte = i as u8;
    }
    store.write(first);
    assert_eq!(store.read_current(), Some(first));
    store.write(second);
    assert_eq!(store.read_current(), Some(second));
    store.write(first);
    assert_eq!(store.read_current(), Some(first));
}

#[test]
fn a_read_is_a_copy_that_later_writes_leave_alone() {
    let mut store = SeedStore::new();
    store.write([1u8; 32]);
    let copy = store.read_current();
    store.write([2u8; 32]);
    assert_eq!(copy, Some([1u8; 32]));
    assert_eq!(store.read_current(), Some([2u8; 32]));
}

#[test]
fn a_store_never_shows_a_mix_of_two_writes() {
    let mut store = SeedStore::new();
    for round in 0..20_000u32 {
        let seed = [(round % 251) as u8; 32];
        store.write(seed);
        let seen = store.read_current().unwrap();
        assert!(seen.iter().all(|byte| *byte == (round % 251) as u8));
    }
}

#[test]
fn a_store_behind_a_lock_shows_the_latest_write() {
    let store = std::sync::RwLock::new(SeedStore::new());
    assert_eq!(store.read().unwrap().read_current(), None);
    store.write().unwrap().write([4u8; 32]);
    let first = store.read().unwrap();
    let second = store.read().unwrap();
    assert_eq!(first.read_current(), Some([4u8; 32]));
    assert_eq!(second.read_current(), Some([4u8; 32]));
}
