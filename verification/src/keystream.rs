//! A cursor into the ChaCha20 keystream of a seed, and bounded draws from it.
//!
//! The stream is identified by plain values: the 32-byte seed and the offset,
//! in 32-bit words, of the next unread word. Every draw is a function of
//! these two and of the bounds, so two cursors that agree on them agree on
//! everything they will ever produce.
use crate::digest::Seed;
use rand::Rng;
use rand::SeedableRng;
use vstd::prelude::*;

verus! {

/// What `rand`'s uniform draw of a `u32` in `lo..=hi` yields on the ChaCha20
/// keystream of `seed` read from word offset `pos`: the value drawn, and the
/// word offset after the draw.
pub uninterp spec fn uniform_u32_at(seed: Seq<u8>, pos: u128, lo: u32, hi: u32) -> (u32, u128);

/// What `rand`'s uniform draw of a `u64` in `lo..=hi` yields on the ChaCha20
/// keystream of `seed` read from word offset `pos`: the value drawn, and the
/// word offset after the draw.
pub uninterp spec fn uniform_u64_at(seed: Seq<u8>, pos: u128, lo: u64, hi: u64) -> (u64, u128);

/// Draws a `u32` with `rand::Rng::gen_range` from a
/// `rand_chacha::ChaCha20Rng` made by `from_seed` and moved to `pos` by
/// `set_word_pos`; the offset afterwards is read by `get_word_pos`.
///
/// Trusted: the generator is deterministic, so value and new offset depend on
/// the arguments alone, and `gen_range` stays within the inclusive bounds. An
/// empty range, on which `gen_range` panics, is excluded.
#[verifier::external_body]
fn draw_u32_at(seed: &Seed, pos: u128, lo: u32, hi: u32) -> (out: (u32, u128))
    requires
        lo <= hi,
    ensures
        out == uniform_u32_at(seed@, pos, lo, hi),
        lo <= out.0 <= hi,
{
    let mut rng = rand_chacha::ChaCha20Rng::from_seed(*seed);
    rng.set_word_pos(pos);
    let value: u32 = rng.gen_range(lo..=hi);
    (value, rng.get_word_pos())
}

/// Draws a `u64` with `rand::Rng::gen_range` from a
/// `rand_chacha::ChaCha20Rng` made by `from_seed` and moved to `pos` by
/// `set_word_pos`; the offset afterwards is read by `get_word_pos`.
///
/// Trusted: the generator is deterministic, so value and new offset depend on
/// the arguments alone, and `gen_range` stays within the inclusive bounds. An
/// empty range, on which `gen_range` panics, is excluded.
#[verifier::external_body]
fn draw_u64_at(seed: &Seed, pos: u128, lo: u64, hi: u64) -> (out: (u64, u128))
    requires
        lo <= hi,
    ensures
        out == uniform_u64_at(seed@, pos, lo, hi),
        lo <= out.0 <= hi,
{
    let mut rng = rand_chacha::ChaCha20Rng::from_seed(*seed);
    rng.set_word_pos(pos);
    let value: u64 = rng.gen_range(lo..=hi);
    (value, rng.get_word_pos())
}

/// Draws 32 bytes with `rand::random`, which reads the thread-local
/// generator that the operating system seeds.
///
/// Nothing is claimed of the bytes: every call may return any value.
#[verifier::external_body]
pub(crate) fn fresh_seed() -> (out: Seed) {
    rand::random::<[u8; 32]>()
}

/// A deterministic stream of draws: the seed it was made from and the word
/// offset it has reached.
#[derive(Clone, Copy, Debug)]
pub struct RngStream {
    seed: Seed,
    pos: u128,
}

impl RngStream {
    /// The seed of this stream.
    pub closed spec fn seed(&self) -> Seq<u8> {
        self.seed@
    }

    /// The offset, in 32-bit words, of the next unread keystream word.
    pub closed spec fn pos(&self) -> u128 {
        self.pos
    }

    /// A stream at the start of the keystream of `seed`.
    pub fn from_seed(seed: Seed) -> (s: Self)
        ensures
            s.seed() == seed@,
            s.pos() == 0,
    {
        RngStream { seed, pos: 0 }
    }

    /// Draws an integer of `lo..=hi` and advances the stream.
    pub fn next_u32_in(&mut self, lo: u32, hi: u32) -> (v: u32)
        requires
            lo <= hi,
        ensures
            lo <= v <= hi,
            v == uniform_u32_at(old(self).seed(), old(self).pos(), lo, hi).0,
            final(self).pos() == uniform_u32_at(old(self).seed(), old(self).pos(), lo, hi).1,
            final(self).seed() == old(self).seed(),
    {
        let (v, next) = draw_u32_at(&self.seed, self.pos, lo, hi);
        self.pos = next;
        v
    }

    /// Draws an integer of `lo..=hi` and advances the stream.
    pub fn next_u64_in(&mut self, lo: u64, hi: u64) -> (v: u64)
        requires
            lo <= hi,
        ensures
            lo <= v <= hi,
            v == uniform_u64_at(old(self).seed(), old(self).pos(), lo, hi).0,
            final(self).pos() == uniform_u64_at(old(self).seed(), old(self).pos(), lo, hi).1,
            final(self).seed() == old(self).seed(),
    {
        let (v, next) = draw_u64_at(&self.seed, self.pos, lo, hi);
        self.pos = next;
        v
    }
}

/// One draw: the width of the integer and its inclusive bounds.
pub enum DrawCall {
    /// A draw of a `u32` in `lo..=hi`.
    Narrow { lo: u32, hi: u32 },
    /// A draw of a `u64` in `lo..=hi`.
    Wide { lo: u64, hi: u64 },
}

/// The value that `call` yields on the keystream of `seed` at offset `pos`,
/// and the offset after it.
pub open spec fn draw_at(seed: Seq<u8>, pos: u128, call: DrawCall) -> (u64, u128) {
    match call {
        DrawCall::Narrow { lo, hi } => {
            let (value, next) = uniform_u32_at(seed, pos, lo, hi);
            (value as u64, next)
        },
        DrawCall::Wide { lo, hi } => uniform_u64_at(seed, pos, lo, hi),
    }
}

/// The values that `calls`, made in order, yield on the keystream of `seed`
/// from offset `pos`: what [`RngStream::next_u32_in`] and
/// [`RngStream::next_u64_in`] return, call after call.
pub open spec fn draws_from(seed: Seq<u8>, pos: u128, calls: Seq<DrawCall>) -> Seq<u64>
    decreases calls.len(),
{
    if calls.len() == 0 {
        Seq::empty()
    } else {
        let (value, next) = draw_at(seed, pos, calls.first());
        seq![value] + draws_from(seed, next, calls.drop_first())
    }
}

/// Two streams made from the same seed yield the same values for the same
/// sequence of calls.
pub proof fn lemma_same_seed_same_draws(a: RngStream, b: RngStream, calls: Seq<DrawCall>)
    requires
        a.seed() == b.seed(),
        a.pos() == b.pos(),
    ensures
        draws_from(a.seed(), a.pos(), calls) == draws_from(b.seed(), b.pos(), calls),
{
}

} // verus!
