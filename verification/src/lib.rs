//! A directory-scan engine core: content fingerprints (SHA-256, lowercase
//! hex) and basic metadata for regular files, with a per-entry policy that
//! silently skips anything unreadable. The surrounding process supplies the
//! filesystem entries; everything the engine decides and computes is here.

pub mod digest;
pub mod engine;
pub mod hex;
pub mod laws;
