use seed_sampler::fingerprint::fingerprint;
use seed_sampler::fingerprint::fingerprint_of_seed;
use seed_sampler::fingerprint::FINGERPRINT_LEN;
use seed_sampler::mixer::on_sample_chunk;
use seed_sampler::seed_store::SeedStore;

fn is_fingerprint(text: &str) -> bool {
    text.len() == 10 && text.chars().all(|c| matches!(c, '0'..='9' | 'a'..='f'))
}

#[test]
fn fingerprint_of_the_zero_seed_is_known() {
    assert_eq!(fingerprint_of_seed(&[0u8; 32]), "66687aadf8");
}

#[test]
fn fingerprint_of_the_counting_seed_is_known() {
    let mut seed = [0u8; 32];
    for (i, byte) in seed.iter_mut().enumerate() {
        *byte = i as u8;
    }
    assert_eq!(fingerprint_of_seed(&seed), "630dcd2966");
    assert_eq!(FINGERPRINT_LEN, 10);
}

#[test]
fn fingerprints_before_any_chunk_are_well_formed() {
    let store = SeedStore::new();
    let first = fingerprint(&store);
    let second = fingerprint(&store);
    assert!(is_fingerprint(&first), "{}", first);
    assert!(is_fingerprint(&second), "{}", second);
}

#[test]
fn fingerprints_are_ten_lowercase_hex_characters() {
    let mut store = SeedStore::new();
    for round in 0..300u32 {
        let seed = on_sample_chunk(&[round, round ^ 0xffff_ffff], Some(round as u128));
        store.write(seed);
        let text = fingerprint(&store);
        assert!(is_fingerprint(&text), "{}", text);
        assert_eq!(text, fingerprint_of_seed(&seed));
    }
}

#[test]
fn fingerprint_changes_when_a_new_chunk_is_mixed() {
    let mut store = SeedStore::new();
    store.write(on_sample_chunk(&[0x3f80_0000, 0x3f00_0000], Some(1)));
    let before = fingerprint(&store);
    assert_eq!(before, fingerprint(&store));
    store.write(on_sample_chunk(&[0xbf80_0000, 0x3e80_0000], Some(2)));
    let after = fingerprint(&store);
    assert_ne!(before, after);
}

#[test]
fn fingerprint_is_not_the_seed_in_hex() {
    assert_ne!(fingerprint_of_seed(&[0xabu8; 32]), "ababababab");
}
