//! Checksum computation (MD5, SHA-1, SHA-256 and Fletcher-32) over a byte
//! sequence, and the case-insensitive comparison of a checksum against an
//! expected value.
pub mod hex;
pub mod fletcher;
pub mod hashes;
pub mod selector;
pub mod compare;
pub mod engine;
