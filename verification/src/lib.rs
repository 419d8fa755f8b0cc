//! Seed material for a deterministic generator, and bounded integer sampling
//! with a special policy for two sentinel values.
//!
//! The crate has five parts. A [`mixer`] turns a chunk of captured samples,
//! fresh randomness and a timestamp into a 256-bit seed. A [`seed_store`]
//! keeps the latest seed. A [`keystream`] is a cursor into the ChaCha20
//! keystream of a seed, from which bounded integers are drawn. The
//! [`sampler`] draws an integer of an inclusive range and applies the
//! sentinel policy. A [`fingerprint`] is a short hexadecimal mark of the
//! live seed. SHA-256 itself is in [`digest`].
pub mod digest;
pub mod keystream;
pub mod seed_store;
pub mod sampler;
pub mod mixer;
pub mod fingerprint;
