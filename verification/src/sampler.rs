//! Integer sampling over an inclusive range, with a policy for the two
//! sentinel values.
use crate::digest::Seed;
use crate::keystream::fresh_seed;
use crate::keystream::uniform_u32_at;
use crate::keystream::uniform_u64_at;
use crate::keystream::RngStream;
use crate::seed_store::SeedStore;
use vstd::prelude::*;

verus! {

/// The first sentinel value.
pub const SENTINEL_HIGH: u32 = 35;

/// The second sentinel value.
pub const SENTINEL_LOW: u32 = 26;

/// Ranges of at most this many values admit a sentinel by lot under
/// [`SentinelPolicy::ProbabilisticInclusion`].
pub const SMALL_RANGE: u64 = 5;

/// The number of rounds after which sampling gives up.
///
/// Outside the one range that holds nothing but a sentinel under strict
/// exclusion, a round accepts with probability at least one half, so this
/// limit is reached with probability at most 2^-256.
pub const ROUND_LIMIT: u32 = 256;

/// What is done with a draw that is a sentinel.
#[derive(Clone, Copy, Debug, PartialEq, Eq, Structural)]
pub enum SentinelPolicy {
    /// A sentinel is always discarded and the draw repeated.
    StrictExclusion,
    /// In a range of at most [`SMALL_RANGE`] values a sentinel is accepted
    /// with probability `1 / (2 * size)`; in a larger range it is always
    /// discarded.
    ProbabilisticInclusion,
}

/// Why no value was sampled.
#[derive(Clone, Copy, Debug, PartialEq, Eq, Structural)]
pub enum SampleError {
    /// The lower bound is greater than the upper bound.
    InvalidRange,
    /// Every one of [`ROUND_LIMIT`] rounds ended in a discarded sentinel.
    RetriesExhausted,
}

/// Whether `v` is one of the two sentinel values.
pub open spec fn is_sentinel(v: u32) -> bool {
    v == SENTINEL_HIGH || v == SENTINEL_LOW
}

/// Whether `min..=max` holds a sentinel.
pub open spec fn holds_sentinel(min: u32, max: u32) -> bool {
    min <= SENTINEL_HIGH <= max || min <= SENTINEL_LOW <= max
}

/// The number of values in `min..=max`.
pub open spec fn range_size(min: u32, max: u32) -> int {
    max - min + 1
}

/// Whether a sentinel drawn from `min..=max` is put to the lot.
pub open spec fn admits_by_lot(min: u32, max: u32, policy: SentinelPolicy) -> bool {
    policy == SentinelPolicy::ProbabilisticInclusion && range_size(min, max) <= SMALL_RANGE
}

/// The result of one round: the value if it was accepted, and the offset the
/// stream has reached.
pub struct Round {
    pub accepted: Option<u32>,
    pub next_pos: u128,
}

/// One round on the keystream of `seed` from offset `pos`: a draw of
/// `min..=max`; a value that is no sentinel is accepted; a sentinel is put to
/// the lot where the policy admits it, a draw of `1..=2 * size` that accepts
/// on 1, and is discarded otherwise.
pub open spec fn round_at(
    seed: Seq<u8>,
    pos: u128,
    min: u32,
    max: u32,
    policy: SentinelPolicy,
) -> Round {
    let (value, after_value) = uniform_u32_at(seed, pos, min, max);
    if !is_sentinel(value) {
        Round { accepted: Some(value), next_pos: after_value }
    } else if admits_by_lot(min, max, policy) {
        let (lot, after_lot) = uniform_u64_at(
            seed,
            after_value,
            1,
            (2 * range_size(min, max)) as u64,
        );
        Round { accepted: if lot == 1 { Some(value) } else { None }, next_pos: after_lot }
    } else {
        Round { accepted: None, next_pos: after_value }
    }
}

/// The value of the first accepting round among at most `rounds` rounds from
/// offset `pos`, each starting where the one before ended.
pub open spec fn rounds_from(
    seed: Seq<u8>,
    pos: u128,
    min: u32,
    max: u32,
    policy: SentinelPolicy,
    rounds: nat,
) -> Result<u32, SampleError>
    decreases rounds,
{
    if rounds == 0 {
        Err(SampleError::RetriesExhausted)
    } else {
        let round = round_at(seed, pos, min, max, policy);
        match round.accepted {
            Some(value) => Ok(value),
            None => rounds_from(seed, round.next_pos, min, max, policy, (rounds - 1) as nat),
        }
    }
}

/// What sampling `min..=max` under `policy` returns on the stream of `seed`.
pub open spec fn sample_outcome(
    seed: Seq<u8>,
    min: u32,
    max: u32,
    policy: SentinelPolicy,
) -> Result<u32, SampleError> {
    if min > max {
        Err(SampleError::InvalidRange)
    } else {
        rounds_from(seed, 0, min, max, policy, ROUND_LIMIT as nat)
    }
}

/// What a plain uniform draw of `min..=max` returns on the stream of `seed`.
pub open spec fn uniform_outcome(seed: Seq<u8>, min: u32, max: u32) -> Result<u32, SampleError> {
    if min > max {
        Err(SampleError::InvalidRange)
    } else {
        Ok(uniform_u32_at(seed, 0, min, max).0)
    }
}

/// What every result of sampling `min..=max` under `policy` satisfies,
/// whichever seed it came from.
pub open spec fn respects_policy(
    result: Result<u32, SampleError>,
    min: u32,
    max: u32,
    policy: SentinelPolicy,
) -> bool {
    match result {
        Ok(value) => {
            &&& min <= value <= max
            &&& is_sentinel(value) ==> admits_by_lot(min, max, policy)
        },
        Err(SampleError::InvalidRange) => min > max,
        Err(SampleError::RetriesExhausted) => min <= max && holds_sentinel(min, max),
    }
}

/// A result that respects the policy is never a sentinel under strict
/// exclusion, nor under probabilistic inclusion in a range of more than
/// [`SMALL_RANGE`] values; a range without a sentinel always yields a value;
/// and `InvalidRange` comes exactly for bounds in the wrong order.
pub proof fn lemma_policy_keeps_sentinels_out(
    result: Result<u32, SampleError>,
    min: u32,
    max: u32,
    policy: SentinelPolicy,
)
    requires
        respects_policy(result, min, max, policy),
    ensures
        policy == SentinelPolicy::StrictExclusion ==> !(result matches Ok(value) && is_sentinel(
            value,
        )),
        range_size(min, max) > SMALL_RANGE ==> !(result matches Ok(value) && is_sentinel(value)),
        min <= max && !holds_sentinel(min, max) ==> result is Ok,
        min > max <==> result matches Err(SampleError::InvalidRange),
{
}

/// Runs one round on `stream`: a draw of `min..=max`, and for a sentinel the
/// lot where the policy admits it.
pub fn sample_round(
    stream: &mut RngStream,
    min: u32,
    max: u32,
    policy: SentinelPolicy,
) -> (accepted: Option<u32>)
    requires
        min <= max,
    ensures
        accepted == round_at(old(stream).seed(), old(stream).pos(), min, max, policy).accepted,
        final(stream).pos() == round_at(
            old(stream).seed(),
            old(stream).pos(),
            min,
            max,
            policy,
        ).next_pos,
        final(stream).seed() == old(stream).seed(),
        accepted matches Some(value) ==> min <= value <= max && (is_sentinel(value)
            ==> admits_by_lot(min, max, policy)),
        min == max && is_sentinel(min) && !admits_by_lot(min, max, policy) ==> accepted is None,
        !holds_sentinel(min, max) ==> accepted is Some,
{
    let value = stream.next_u32_in(min, max);
    if value != SENTINEL_HIGH && value != SENTINEL_LOW {
        return Some(value);
    }
    let size: u64 = (max as u64) - (min as u64) + 1;
    match policy {
        SentinelPolicy::ProbabilisticInclusion => {
            if size <= SMALL_RANGE {
                let lot = stream.next_u64_in(1, 2 * size);
                if lot == 1 {
                    return Some(value);
                }
            }
        },
        SentinelPolicy::StrictExclusion => {},
    }
    None
}

/// Samples `min..=max` under `policy` on the stream of `seed`.
///
/// The result is fixed by the seed: the value of the first accepting round.
/// A value that comes back lies in the range and is a sentinel only where the
/// policy put it to the lot. A range without a sentinel always yields a
/// value. A range that holds nothing but a sentinel, under a policy that
/// discards it, ends in `RetriesExhausted`.
pub fn sample_with_seed(
    seed: Seed,
    min: u32,
    max: u32,
    policy: SentinelPolicy,
) -> (result: Result<u32, SampleError>)
    ensures
        result == sample_outcome(seed@, min, max, policy),
        respects_policy(result, min, max, policy),
        min == max && is_sentinel(min) && !admits_by_lot(min, max, policy)
            ==> result matches Err(SampleError::RetriesExhausted),
        min <= max && !holds_sentinel(min, max) ==> result is Ok,
{
    if min > max {
        return Err(SampleError::InvalidRange);
    }
    let mut stream = RngStream::from_seed(seed);
    let mut left: u32 = ROUND_LIMIT;
    while left > 0
        invariant
            min <= max,
            left <= ROUND_LIMIT,
            left < ROUND_LIMIT ==> holds_sentinel(min, max),
            stream.seed() == seed@,
            rounds_from(seed@, stream.pos(), min, max, policy, left as nat) == rounds_from(
                seed@,
                0,
                min,
                max,
                policy,
                ROUND_LIMIT as nat,
            ),
        decreases left,
    {
        match sample_round(&mut stream, min, max, policy) {
            Some(value) => {
                return Ok(value);
            },
            None => {},
        }
        left = left - 1;
    }
    Err(SampleError::RetriesExhausted)
}

/// Draws `min..=max` uniformly on the stream of `seed`, with no policy: the
/// first draw of the stream.
pub fn sample_uniform_with_seed(seed: Seed, min: u32, max: u32) -> (result: Result<u32, SampleError>)
    ensures
        result == uniform_outcome(seed@, min, max),
        min > max ==> result matches Err(SampleError::InvalidRange),
        min <= max ==> (result matches Ok(value) && min <= value <= max),
{
    if min > max {
        return Err(SampleError::InvalidRange);
    }
    let mut stream = RngStream::from_seed(seed);
    Ok(stream.next_u32_in(min, max))
}

/// The seed a request works on: the stored one, or, while the store is empty,
/// 32 bytes of fresh randomness drawn for this request alone.
pub fn seed_for_request(store: &SeedStore) -> (seed: Seed)
    ensures
        store@ matches Some(stored) ==> seed@ == stored,
{
    match store.read_current() {
        Some(seed) => seed,
        None => fresh_seed(),
    }
}

/// Samples `min..=max` under `policy` from the freshest seed.
///
/// Bounds in the wrong order fail with `InvalidRange` before any seed is
/// read. Else the result is that of [`sample_with_seed`] on the stored seed,
/// or, where the store is empty, on some seed.
pub fn sample(
    store: &SeedStore,
    min: u32,
    max: u32,
    policy: SentinelPolicy,
) -> (result: Result<u32, SampleError>)
    ensures
        min > max ==> result matches Err(SampleError::InvalidRange),
        match store@ {
            Some(stored) => result == sample_outcome(stored, min, max, policy),
            None => exists|seed: Seq<u8>|
                seed.len() == 32 && result == #[trigger] sample_outcome(seed, min, max, policy),
        },
        respects_policy(result, min, max, policy),
        min == max && is_sentinel(min) && !admits_by_lot(min, max, policy)
            ==> result matches Err(SampleError::RetriesExhausted),
        min <= max && !holds_sentinel(min, max) ==> result is Ok,
{
    if min > max {
        proof {
            let any = Seq::new(32, |i: int| 0u8);
            assert(any.len() == 32);
            assert(sample_outcome(any, min, max, policy) matches Err(SampleError::InvalidRange));
        }
        return Err(SampleError::InvalidRange);
    }
    let seed = seed_for_request(store);
    sample_with_seed(seed, min, max, policy)
}

/// Draws `min..=max` uniformly from the freshest seed, with no policy.
///
/// Bounds in the wrong order fail with `InvalidRange`; any other range
/// yields a value of the range.
pub fn sample_uniform(store: &SeedStore, min: u32, max: u32) -> (result: Result<u32, SampleError>)
    ensures
        min > max ==> result matches Err(SampleError::InvalidRange),
        min <= max ==> (result matches Ok(value) && min <= value <= max),
        match store@ {
            Some(stored) => result == uniform_outcome(stored, min, max),
            None => exists|seed: Seq<u8>|
                seed.len() == 32 && result == #[trigger] uniform_outcome(seed, min, max),
        },
{
    if min > max {
        proof {
            let any = Seq::new(32, |i: int| 0u8);
            assert(any.len() == 32);
            assert(uniform_outcome(any, min, max) matches Err(SampleError::InvalidRange));
        }
        return Err(SampleError::InvalidRange);
    }
    let seed = seed_for_request(store);
    sample_uniform_with_seed(seed, min, max)
}

} // verus!
