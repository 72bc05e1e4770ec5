//! Read-only decoder for Generation III handheld save images.
//!
//! A save image is a fixed 128 KiB buffer holding two redundant save slots.
//! Each slot is cut into fixed-size sections, and every section ends in a
//! footer with an identifier, a checksum, a magic signature and a save
//! counter.  [`save::decode`] validates every section and returns the decoded
//! image, or the first corruption it meets.
//!
//! Every function carries a contract over `Seq<u8>`, and the spec functions
//! that the contracts use are public, so that callers can reason about the
//! decoder themselves.  The module [`integrity`] proves from them what
//! decoding does with a damaged image.

pub mod config;
pub mod error;
pub mod character_encoding;
pub mod bytes;
pub mod checksum;
pub mod trainer;
pub mod section;
pub mod save;
pub mod integrity;
