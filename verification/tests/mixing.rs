use seed_sampler::mixer::mix_chunk;
use seed_sampler::mixer::on_sample_chunk;
use sha2::Digest;
use sha2::Sha256;

fn digest_of(samples: &[f32], salt: &[u8; 32], nanos: Option<u128>) -> [u8; 32] {
    let mut hasher = Sha256::new();
    for sample in samples {
        hasher.update(sample.to_le_bytes());
    }
    hasher.update(salt);
    if let Some(t) = nanos {
        hasher.update(t.to_le_bytes());
    }
    hasher.finalize().into()
}

fn hex(bytes: &[u8]) -> String {
    let mut text = String::new();
    for byte in bytes {
        text.push_str(&format!("{:02x}", byte));
    }
    text
}

fn bits(samples: &[f32]) -> Vec<u32> {
    samples.iter().map(|sample| sample.to_bits()).collect()
}

#[test]
fn mixing_two_samples_with_salt_and_timestamp_has_the_known_digest() {
    let seed = mix_chunk(
        &[1065353216, 3204448256],
        &[0x11u8; 32],
        Some(1_700_000_000_123_456_789),
    );
    assert_eq!(hex(&seed), "68bf2fd55bce99daeb70d046af4f58fa8cfb0fdabc098f2d4fc51cdd2b6e9875");
    assert_eq!(bits(&[1.0, -0.5]), vec![1065353216, 3204448256]);
}

#[test]
fn mixing_without_a_timestamp_absorbs_none() {
    let seed = mix_chunk(&[1065353216, 3204448256], &[0x11u8; 32], None);
    assert_eq!(hex(&seed), "4809b83c33ebb665b5daa95d782cec12dc36e83a9fa1cd02a9b4ab5d0012dbf3");
}

#[test]
fn mixing_an_empty_chunk_hashes_the_salt_alone() {
    let seed = mix_chunk(&[], &[0x11u8; 32], None);
    assert_eq!(hex(&seed), "02d449a31fbb267c8f352e9968a79e3e5fc95c1bbeaa502fd6454ebde5a4bedc");
}

#[test]
fn mixing_is_the_hash_of_samples_then_salt_then_timestamp() {
    let mut samples: Vec<f32> = Vec::new();
    let mut salt = [0u8; 32];
    for round in 0..200u32 {
        samples.push(((round as f32) * 0.37).sin());
        salt[(round % 32) as usize] = salt[(round % 32) as usize].wrapping_add(round as u8 + 1);
        let nanos = if round % 3 == 0 { None } else { Some((round as u128) << (round % 100)) };
        assert_eq!(mix_chunk(&bits(&samples), &salt, nanos), digest_of(&samples, &salt, nanos));
    }
}

#[test]
fn mixing_takes_every_timestamp_byte() {
    let salt = [0u8; 32];
    let low = mix_chunk(&[], &salt, Some(1));
    let high = mix_chunk(&[], &salt, Some(1u128 << 127));
    let max = mix_chunk(&[], &salt, Some(u128::MAX));
    assert_eq!(low, digest_of(&[], &salt, Some(1)));
    assert_eq!(high, digest_of(&[], &salt, Some(1u128 << 127)));
    assert_eq!(max, digest_of(&[], &salt, Some(u128::MAX)));
    assert!(low != high && high != max);
}

#[test]
fn mixing_depends_on_sample_order_and_content() {
    let salt = [7u8; 32];
    let a = mix_chunk(&bits(&[0.25, 0.5]), &salt, Some(5));
    let b = mix_chunk(&bits(&[0.5, 0.25]), &salt, Some(5));
    let c = mix_chunk(&bits(&[0.25, 0.5, 0.0]), &salt, Some(5));
    let d = mix_chunk(&bits(&[0.25, 0.5]), &[8u8; 32], Some(5));
    assert!(a != b && a != c && a != d && b != c);
    assert_eq!(a, mix_chunk(&bits(&[0.25, 0.5]), &salt, Some(5)));
}

#[test]
fn an_arrived_chunk_is_mixed_with_fresh_salt_each_time() {
    let chunk = bits(&[0.1, -0.2, 0.3]);
    let a = on_sample_chunk(&chunk, Some(10));
    let b = on_sample_chunk(&chunk, Some(10));
    let c = on_sample_chunk(&chunk, None);
    assert!(a != b && b != c && a != c);
    assert!(a != chunk_as_seed_padding(&chunk));
}

fn chunk_as_seed_padding(chunk: &[u32]) -> [u8; 32] {
    let mut out = [0u8; 32];
    for (i, sample) in chunk.iter().enumerate().take(8) {
        out[4 * i..4 * i + 4].copy_from_slice(&sample.to_le_bytes());
    }
    out
}
