//! Perceptual-hash based image upgrade decisions.
//!
//! The library measures how alike two images are through 64-bit perceptual
//! digests and decides whether a remote candidate image should replace a
//! local one: the candidate must be strictly higher in resolution and
//! perceptually near-identical. Fetching, decoding and writing files are
//! left to callers; the digests, the similarity measure and the scanning
//! rules live here, each with a proved contract.

pub mod api;
pub mod evaluate;
pub mod hash;
pub mod img;
