//! The holder of the current seed: absent at first, then always the value of
//! the latest write, replaced as a whole.
use crate::digest::Seed;
use vstd::prelude::*;

verus! {

/// The latest seed, if one was ever written.
///
/// A store has one writer and any number of readers. A write replaces the
/// value wholesale and a read hands out a copy, so a reader holds either
/// nothing or all 32 bytes of one write.
#[derive(Clone, Copy, Debug)]
pub struct SeedStore {
    current: Option<Seed>,
}

/// The state of a store after `seed` is written over `before`.
pub open spec fn written(before: Option<Seq<u8>>, seed: Seq<u8>) -> Option<Seq<u8>> {
    Some(seed)
}

/// The state of a store that held `start` and then took `writes` in order.
pub open spec fn after_writes(start: Option<Seq<u8>>, writes: Seq<Seq<u8>>) -> Option<Seq<u8>>
    decreases writes.len(),
{
    if writes.len() == 0 {
        start
    } else {
        written(after_writes(start, writes.drop_last()), writes.last())
    }
}

impl View for SeedStore {
    type V = Option<Seq<u8>>;

    closed spec fn view(&self) -> Option<Seq<u8>> {
        match self.current {
            Some(seed) => Some(seed@),
            None => None,
        }
    }
}

impl SeedStore {
    /// A store that holds no seed yet.
    pub fn new() -> (store: Self)
        ensures
            store@ is None,
    {
        SeedStore { current: None }
    }

    /// Replaces the stored value by `seed`.
    pub fn write(&mut self, seed: Seed)
        ensures
            final(self)@ == written(old(self)@, seed@),
            final(self)@ == Some(seed@),
    {
        self.current = Some(seed);
    }

    /// A copy of the seed written last, or nothing if none ever was.
    pub fn read_current(&self) -> (seed: Option<Seed>)
        ensures
            match seed {
                Some(bytes) => self@ == Some(bytes@),
                None => self@ is None,
            },
    {
        self.current
    }
}

/// Whatever was written, a store shows its starting value as long as nothing
/// was written, and from then on exactly the latest write: all of its bytes
/// and none of any other write.
pub proof fn lemma_store_shows_latest_write(start: Option<Seq<u8>>, writes: Seq<Seq<u8>>)
    ensures
        writes.len() == 0 ==> after_writes(start, writes) == start,
        writes.len() > 0 ==> after_writes(start, writes) == Some(writes.last()),
{
}

/// A store that starts empty never shows a value that was not written to it
/// as a whole.
pub proof fn lemma_store_shows_only_writes(writes: Seq<Seq<u8>>)
    ensures
        match after_writes(None, writes) {
            Some(seed) => exists|i: int| 0 <= i < writes.len() && writes[i] == seed,
            None => writes.len() == 0,
        },
{
    if writes.len() > 0 {
        assert(writes[writes.len() - 1] == writes.last());
    }
}

} // verus!
