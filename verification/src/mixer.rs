//! Entropy mixing: a chunk of captured samples, 32 bytes of independent
//! randomness and a timestamp are hashed into a new seed.
//!
//! A sample is the bit pattern of a 32-bit float. Its four bytes, least
//! significant first, are what the float's own little-endian encoding gives.
use crate::digest::sha256;
use crate::digest::sha256_digest;
use crate::digest::Seed;
use crate::keystream::fresh_seed;
use vstd::prelude::*;

verus! {

/// The bytes of a sample.
pub const SAMPLE_BYTES: usize = 4;

/// The bytes of a timestamp in nanoseconds.
pub const TIMESTAMP_BYTES: usize = 16;

/// The `n` low bytes of `x`, least significant first.
pub open spec fn le_bytes(x: nat, n: nat) -> Seq<u8>
    decreases n,
{
    if n == 0 {
        Seq::empty()
    } else {
        seq![(x % 256) as u8] + le_bytes(x / 256, (n - 1) as nat)
    }
}

/// The bytes of all samples of a chunk, in arrival order.
pub open spec fn samples_bytes(samples: Seq<u32>) -> Seq<u8>
    decreases samples.len(),
{
    if samples.len() == 0 {
        Seq::empty()
    } else {
        samples_bytes(samples.drop_last()) + le_bytes(samples.last() as nat, SAMPLE_BYTES as nat)
    }
}

/// The bytes of a timestamp, or none where the clock could not be read.
pub open spec fn timestamp_bytes(nanos: Option<u128>) -> Seq<u8> {
    match nanos {
        Some(t) => le_bytes(t as nat, TIMESTAMP_BYTES as nat),
        None => Seq::empty(),
    }
}

/// The message that is hashed for a chunk: the samples, then the salt, then
/// the timestamp.
pub open spec fn mix_input(samples: Seq<u32>, salt: Seq<u8>, nanos: Option<u128>) -> Seq<u8> {
    samples_bytes(samples) + salt + timestamp_bytes(nanos)
}

/// The seed that a chunk is mixed into.
pub open spec fn mixed_seed(samples: Seq<u32>, salt: Seq<u8>, nanos: Option<u128>) -> Seq<u8> {
    sha256_digest(mix_input(samples, salt, nanos))
}

/// Appends the `n` low bytes of `x` to `buf`, least significant first.
fn push_le(buf: &mut Vec<u8>, x: u128, n: usize)
    ensures
        final(buf)@ == old(buf)@ + le_bytes(x as nat, n as nat),
{
    let mut rest: u128 = x;
    let mut i: usize = 0;
    while i < n
        invariant
            i <= n,
            buf@ + le_bytes(rest as nat, (n - i) as nat) == old(buf)@ + le_bytes(
                x as nat,
                n as nat,
            ),
        decreases n - i,
    {
        let ghost before = buf@;
        let low: u8 = (rest % 256) as u8;
        buf.push(low);
        proof {
            let tail = le_bytes((rest / 256) as nat, (n - i - 1) as nat);
            assert(le_bytes(rest as nat, (n - i) as nat) == seq![low] + tail);
            assert(before.push(low) + tail =~= before + (seq![low] + tail));
        }
        rest = rest / 256;
        i = i + 1;
    }
    assert(buf@ + Seq::<u8>::empty() =~= buf@);
}

/// Mixes a chunk with the given salt and timestamp.
///
/// The seed is the SHA-256 digest of the samples' bytes in arrival order,
/// followed by the salt, followed by the timestamp's bytes where there is a
/// timestamp.
pub fn mix_chunk(samples: &[u32], salt: &Seed, nanos: Option<u128>) -> (seed: Seed)
    ensures
        seed@ == mixed_seed(samples@, salt@, nanos),
{
    let mut buf: Vec<u8> = Vec::new();
    let mut i: usize = 0;
    assert(samples@.take(0) =~= Seq::<u32>::empty());
    while i < samples.len()
        invariant
            i <= samples.len(),
            buf@ == samples_bytes(samples@.take(i as int)),
        decreases samples.len() - i,
    {
        proof {
            let upto = samples@.take(i + 1);
            assert(upto.drop_last() =~= samples@.take(i as int));
            assert(upto.last() == samples@[i as int]);
        }
        push_le(&mut buf, samples[i] as u128, SAMPLE_BYTES);
        i = i + 1;
    }
    assert(samples@.take(samples.len() as int) =~= samples@);
    let mut j: usize = 0;
    while j < 32
        invariant
            j <= 32,
            salt@.len() == 32,
            buf@ == samples_bytes(samples@) + salt@.take(j as int),
        decreases 32 - j,
    {
        let ghost before = buf@;
        buf.push(salt[j]);
        assert(salt@.take(j + 1) =~= salt@.take(j as int).push(salt@[j as int]));
        assert(before.push(salt@[j as int]) =~= samples_bytes(samples@) + salt@.take(j + 1));
        j = j + 1;
    }
    assert(salt@.take(32) =~= salt@);
    match nanos {
        Some(t) => {
            push_le(&mut buf, t, TIMESTAMP_BYTES);
        },
        None => {
            assert(buf@ + Seq::<u8>::empty() =~= buf@);
        },
    }
    sha256(buf.as_slice())
}

/// Mixes an arrived chunk into a new seed.
///
/// The salt is 32 bytes of fresh randomness, drawn for this chunk alone;
/// `nanos` is the clock's reading in nanoseconds, or nothing where the clock
/// could not be read, in which case no timestamp is absorbed. The seed is
/// that of [`mix_chunk`] for the chunk, the timestamp and some salt.
pub fn on_sample_chunk(samples: &[u32], nanos: Option<u128>) -> (seed: Seed)
    ensures
        exists|salt: Seq<u8>|
            salt.len() == 32 && seed@ == #[trigger] mixed_seed(samples@, salt, nanos),
{
    let salt = fresh_seed();
    let seed = mix_chunk(samples, &salt, nanos);
    assert(salt@.len() == 32 && seed@ == mixed_seed(samples@, salt@, nanos));
    seed
}

} // verus!
