//! Library of a small command-line utility that generates asymmetric key
//! pairs (Ed25519 or X25519), encodes them in one of several on-disk
//! encodings (Hex, BCS, Base64), and guards the destination files against
//! accidental overwrite.
//!
//! The encoding engine, the overwrite guard and the generation/persistence
//! orchestration are verified; the cryptographic primitives, the random
//! source, the interactive prompt and the file system are outside
//! collaborators reached through trusted declarations or through the
//! unverified binary around this library.

pub mod encoding;
pub mod errors;
pub mod guard;
pub mod keys;
pub mod laws;
pub mod tool;
