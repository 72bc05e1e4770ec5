//! Layout constants of the save image.

use vstd::prelude::*;

verus! {

/// Size of a whole save image in bytes.
pub const SAVESIZE: usize = 131072;

/// Number of redundant save slots in an image.
pub const SLOTS: usize = 2;

/// Bytes reserved for one save slot.
pub const SLOT_SIZE: usize = 65536;

/// Number of sections in a save slot.
pub const SECTIONS: usize = 14;

/// Number of sections in an image, both slots together.
pub const SECTION_COUNT: usize = 28;

/// Bytes occupied by one section, footer included.
pub const SECTION_SIZE: usize = 4096;

/// Length of the section payload, which is the range the checksum covers.
pub const PAYLOAD_SIZE: usize = 0xF80;

/// Magic value found in the footer of every intact section.
pub const SIGNATURE: u32 = 0x08012025;

/// Offset of the section identifier within a section.
pub const SECTION_ID_OFFSET: usize = 0xFF4;

/// Offset of the stored checksum within a section.
pub const CHECKSUM_OFFSET: usize = 0xFF6;

/// Offset of the signature within a section.
pub const SIGNATURE_OFFSET: usize = 0xFF8;

/// Offset of the save counter within a section.
pub const SAVE_COUNT_OFFSET: usize = 0xFFC;

/// Number of encoded characters in a player name.
pub const PLAYERNAMELEN: usize = 7;

/// Offset of the player name within the trainer payload.
pub const PLAYER_NAME_OFFSET: usize = 0x00;

/// Offset of the gender byte within the trainer payload.
pub const PLAYER_GENDER_OFFSET: usize = 0x08;

/// Offset of the four-byte trainer id within the trainer payload.
pub const TRAINER_ID_OFFSET: usize = 0x0A;

/// Offset of the hours played within the trainer payload.
pub const HOURS_PLAYED_OFFSET: usize = 0x0E;

/// Offset of the minutes played within the trainer payload.
pub const MINUTES_PLAYED_OFFSET: usize = 0x10;

/// Offset of the seconds played within the trainer payload.
pub const SECONDS_PLAYED_OFFSET: usize = 0x11;

/// Offset of the frame counter within the trainer payload.
pub const TIME_FRAME_OFFSET: usize = 0x12;

/// Offset of the three option bytes within the trainer payload.
pub const OPTIONS_OFFSET: usize = 0x13;

/// Offset of the game version word within the trainer payload.
pub const GAME_VERSION_OFFSET: usize = 0xAC;

/// Offset of the security key within the trainer payload.
pub const SECURITY_KEY_OFFSET: usize = 0xAF8;

/// Shortest payload that holds every trainer field.
pub const TRAINER_INFO_SIZE: usize = 0xAFC;

} // verus!
