//! Why an image was refused.

use vstd::prelude::*;

verus! {

/// The first fault that decoding met.  A fault in a section names the slot
/// and the position of the section within the slot.
#[allow(inconsistent_fields)]
#[derive(Debug, Clone, Copy, PartialEq, Eq, Structural)]
pub enum DecodeError {
    /// The buffer does not have the size of a save image.
    SizeMismatch { actual: usize, expected: usize },
    /// The footer of a section does not carry the magic signature.
    SignatureMismatch { slot: usize, section_index: usize, expected: u32, actual: u32 },
    /// The checksum stored in a section is not the checksum of its payload.
    ChecksumMismatch { slot: usize, section_index: usize, expected: u16, computed: u16 },
}

} // verus!
