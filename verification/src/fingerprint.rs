//! A short, non-reversible mark of the live seed: the first characters of
//! the lowercase hexadecimal form of its SHA-256 digest.
use crate::digest::sha256;
use crate::digest::sha256_digest;
use crate::digest::Seed;
use crate::sampler::seed_for_request;
use crate::seed_store::SeedStore;
use vstd::prelude::*;
use vstd::string::*;

verus! {

/// The number of characters of a fingerprint.
pub const FINGERPRINT_LEN: usize = 10;

/// The number of digest bytes that a fingerprint shows.
pub const FINGERPRINT_BYTES: usize = 5;

/// The lowercase hexadecimal digit of `n`, for `n` below 16.
pub open spec fn hex_digit(n: int) -> char {
    if n < 10 {
        (n + 48) as char
    } else {
        (n + 87) as char
    }
}

/// Whether `c` is one of `0` to `9` or `a` to `f`.
pub open spec fn is_lower_hex(c: char) -> bool {
    ('0' <= c && c <= '9') || ('a' <= c && c <= 'f')
}

/// The lowercase hexadecimal form of `bytes`: two digits for each byte, the
/// high half first.
pub open spec fn hex_lower(bytes: Seq<u8>) -> Seq<char> {
    Seq::new(
        2 * bytes.len(),
        |i: int|
            if i % 2 == 0 {
                hex_digit(bytes[i / 2] as int / 16)
            } else {
                hex_digit(bytes[i / 2] as int % 16)
            },
    )
}

/// The fingerprint of a seed.
pub open spec fn fingerprint_of(seed: Seq<u8>) -> Seq<char> {
    hex_lower(sha256_digest(seed)).take(FINGERPRINT_LEN as int)
}

/// Whether `text` has the form of a fingerprint.
pub open spec fn is_fingerprint(text: Seq<char>) -> bool {
    &&& text.len() == FINGERPRINT_LEN
    &&& forall|i: int| 0 <= i < text.len() ==> is_lower_hex(#[trigger] text[i])
}

/// The one-character text of a hexadecimal digit.
fn hex_digit_text(n: u8) -> (text: &'static str)
    requires
        n < 16,
    ensures
        text@ == seq![hex_digit(n as int)],
{
    let digits = "0123456789abcdef";
    proof {
        reveal_strlit("0123456789abcdef");
        assert(digits@[n as int] == hex_digit(n as int));
    }
    let text = digits.substring_ascii(n as usize, n as usize + 1);
    assert(text@ =~= seq![hex_digit(n as int)]);
    text
}

/// The fingerprint of `seed`.
pub fn fingerprint_of_seed(seed: &Seed) -> (text: String)
    ensures
        text@ == fingerprint_of(seed@),
        is_fingerprint(text@),
{
    let digest = sha256(seed.as_slice());
    let mut text = String::new();
    let mut i: usize = 0;
    while i < FINGERPRINT_BYTES
        invariant
            i <= FINGERPRINT_BYTES,
            digest@.len() == 32,
            text@ == hex_lower(digest@).take(2 * i),
        decreases FINGERPRINT_BYTES - i,
    {
        let byte = digest[i];
        text.append(hex_digit_text(byte / 16));
        text.append(hex_digit_text(byte % 16));
        assert(text@ =~= hex_lower(digest@).take(2 * (i + 1)));
        i = i + 1;
    }
    assert forall|j: int| 0 <= j < text@.len() implies is_lower_hex(#[trigger] text@[j]) by {
        let b = digest@[j / 2];
        assert(0 <= b as int / 16 < 16 && 0 <= b as int % 16 < 16);
    }
    text
}

/// The fingerprint of the live seed: of the stored one, or, while the store
/// is empty, of 32 bytes of fresh randomness drawn for this call alone.
pub fn fingerprint(store: &SeedStore) -> (text: String)
    ensures
        is_fingerprint(text@),
        match store@ {
            Some(stored) => text@ == fingerprint_of(stored),
            None => exists|seed: Seq<u8>|
                seed.len() == 32 && text@ == #[trigger] fingerprint_of(seed),
        },
{
    let seed = seed_for_request(store);
    let text = fingerprint_of_seed(&seed);
    assert(seed@.len() == 32 && text@ == fingerprint_of(seed@));
    text
}

} // verus!
