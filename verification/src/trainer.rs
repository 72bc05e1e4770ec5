//! The trainer payload: who the player is and how long they have played.

use vstd::prelude::*;
use vstd::slice::slice_subrange;
use crate::bytes::{le_u16, le_u24, le_u32, spec_le_u16, spec_le_u24, spec_le_u32};
use crate::character_encoding::{decode_text, spec_decode_text};
use crate::config::{
    GAME_VERSION_OFFSET, HOURS_PLAYED_OFFSET, MINUTES_PLAYED_OFFSET, OPTIONS_OFFSET, PLAYERNAMELEN,
    PLAYER_GENDER_OFFSET, PLAYER_NAME_OFFSET, SECONDS_PLAYED_OFFSET, SECURITY_KEY_OFFSET,
    TIME_FRAME_OFFSET, TRAINER_ID_OFFSET, TRAINER_INFO_SIZE,
};

verus! {

/// Gender that the player chose.
#[derive(Debug, Clone, Copy, PartialEq, Eq, Structural)]
pub enum PlayerGender {
    Male,
    Female,
}

impl PlayerGender {
    /// Zero stands for male, every other value for female.
    pub open spec fn spec_from_u8(value: u8) -> PlayerGender {
        if value == 0 {
            PlayerGender::Male
        } else {
            PlayerGender::Female
        }
    }

    /// The value that the game stores for a gender.
    pub open spec fn spec_to_u8(self) -> u8 {
        match self {
            PlayerGender::Male => 0,
            PlayerGender::Female => 1,
        }
    }

    /// Reads a gender from its stored byte.
    #[verifier::when_used_as_spec(spec_from_u8)]
    pub fn from_u8(value: u8) -> (gender: PlayerGender)
        ensures
            gender == PlayerGender::spec_from_u8(value),
    {
        match value {
            0 => PlayerGender::Male,
            _ => PlayerGender::Female,
        }
    }

    /// Gives the byte that stands for the gender; reading it back gives the
    /// same gender.
    pub fn to_u8(&self) -> (value: u8)
        ensures
            value == self.spec_to_u8(),
            PlayerGender::spec_from_u8(value) == *self,
    {
        match self {
            PlayerGender::Male => 0,
            PlayerGender::Female => 1,
        }
    }
}

/// Game release that wrote the save.
#[derive(Debug, Clone, Copy, PartialEq, Eq, Structural)]
pub enum GameVersion {
    RubySapphire,
    FireRedLeafGreen,
    Emerald,
}

impl GameVersion {
    /// Zero stands for Ruby and Sapphire, one for FireRed and LeafGreen, and
    /// every other value for Emerald.
    pub open spec fn spec_from_u32(value: u32) -> GameVersion {
        if value == 0 {
            GameVersion::RubySapphire
        } else if value == 1 {
            GameVersion::FireRedLeafGreen
        } else {
            GameVersion::Emerald
        }
    }

    /// The word that stands for a release.
    pub open spec fn spec_to_u32(self) -> u32 {
        match self {
            GameVersion::RubySapphire => 0,
            GameVersion::FireRedLeafGreen => 1,
            GameVersion::Emerald => 0xFFFF_FFFF,
        }
    }

    /// Reads a release from its stored word.
    #[verifier::when_used_as_spec(spec_from_u32)]
    pub fn from_u32(value: u32) -> (version: GameVersion)
        ensures
            version == GameVersion::spec_from_u32(value),
    {
        match value {
            0 => GameVersion::RubySapphire,
            1 => GameVersion::FireRedLeafGreen,
            _ => GameVersion::Emerald,
        }
    }

    /// Gives the word that stands for the release; reading it back gives the
    /// same release.
    pub fn to_u32(&self) -> (value: u32)
        ensures
            value == self.spec_to_u32(),
            GameVersion::spec_from_u32(value) == *self,
    {
        match self {
            GameVersion::RubySapphire => 0,
            GameVersion::FireRedLeafGreen => 1,
            GameVersion::Emerald => 0xFFFF_FFFF,
        }
    }
}

/// Decoded trainer payload.
#[derive(Debug, PartialEq, Eq)]
pub struct TrainerInfo {
    pub player_name: String,
    pub player_gender: PlayerGender,
    pub public_id: u16,
    pub secret_id: u16,
    pub hours_played: u16,
    pub minutes_played: u8,
    pub seconds_played: u8,
    pub time_frame: u8,
    pub options: u32,
    pub game_version: GameVersion,
    pub security_key: u32,
}

/// Mathematical value of a [`TrainerInfo`]: the same fields, the name as a
/// sequence of characters.
pub struct TrainerInfoView {
    pub player_name: Seq<char>,
    pub player_gender: PlayerGender,
    pub public_id: u16,
    pub secret_id: u16,
    pub hours_played: u16,
    pub minutes_played: u8,
    pub seconds_played: u8,
    pub time_frame: u8,
    pub options: u32,
    pub game_version: GameVersion,
    pub security_key: u32,
}

impl View for TrainerInfo {
    type V = TrainerInfoView;

    open spec fn view(&self) -> TrainerInfoView {
        TrainerInfoView {
            player_name: self.player_name@,
            player_gender: self.player_gender,
            public_id: self.public_id,
            secret_id: self.secret_id,
            hours_played: self.hours_played,
            minutes_played: self.minutes_played,
            seconds_played: self.seconds_played,
            time_frame: self.time_frame,
            options: self.options,
            game_version: self.game_version,
            security_key: self.security_key,
        }
    }
}

/// The trainer record that a payload holds.  The trainer id is one
/// little-endian word: its lower half is the public id, its upper half the
/// secret id.
pub open spec fn spec_trainer_info(payload: Seq<u8>) -> TrainerInfoView {
    let trainer_id = spec_le_u32(payload, TRAINER_ID_OFFSET as int);
    TrainerInfoView {
        player_name: spec_decode_text(
            payload.subrange(PLAYER_NAME_OFFSET as int, PLAYER_NAME_OFFSET + PLAYERNAMELEN),
        ),
        player_gender: PlayerGender::spec_from_u8(payload[PLAYER_GENDER_OFFSET as int]),
        public_id: (trainer_id % 0x1_0000) as u16,
        secret_id: (trainer_id / 0x1_0000) as u16,
        hours_played: spec_le_u16(payload, HOURS_PLAYED_OFFSET as int),
        minutes_played: payload[MINUTES_PLAYED_OFFSET as int],
        seconds_played: payload[SECONDS_PLAYED_OFFSET as int],
        time_frame: payload[TIME_FRAME_OFFSET as int],
        options: spec_le_u24(payload, OPTIONS_OFFSET as int),
        game_version: GameVersion::spec_from_u32(spec_le_u32(payload, GAME_VERSION_OFFSET as int)),
        security_key: spec_le_u32(payload, SECURITY_KEY_OFFSET as int),
    }
}

impl TrainerInfo {
    /// Identifier of the sections that hold a trainer payload.
    pub const INDEX: u16 = 0;

    /// The unused top byte of the options word is zero.
    pub open spec fn wf(&self) -> bool {
        self.options < 0x100_0000
    }

    /// Decodes the trainer record from a section payload.
    pub fn new(data: Vec<u8>) -> (info: TrainerInfo)
        requires
            data@.len() >= TRAINER_INFO_SIZE,
        ensures
            info@ == spec_trainer_info(data@),
            info@.player_name.len() == PLAYERNAMELEN,
            info.wf(),
    {
        let bytes = data.as_slice();
        let player_name = decode_text(
            slice_subrange(bytes, PLAYER_NAME_OFFSET, PLAYER_NAME_OFFSET + PLAYERNAMELEN),
        );
        let player_gender = PlayerGender::from_u8(bytes[PLAYER_GENDER_OFFSET]);
        let trainer_id = le_u32(bytes, TRAINER_ID_OFFSET);
        let public_id = (trainer_id % 0x1_0000) as u16;
        let secret_id = (trainer_id / 0x1_0000) as u16;
        let hours_played = le_u16(bytes, HOURS_PLAYED_OFFSET);
        let minutes_played = bytes[MINUTES_PLAYED_OFFSET];
        let seconds_played = bytes[SECONDS_PLAYED_OFFSET];
        let time_frame = bytes[TIME_FRAME_OFFSET];
        let options = le_u24(bytes, OPTIONS_OFFSET);
        let game_version = GameVersion::from_u32(le_u32(bytes, GAME_VERSION_OFFSET));
        let security_key = le_u32(bytes, SECURITY_KEY_OFFSET);
        TrainerInfo {
            player_name,
            player_gender,
            public_id,
            secret_id,
            hours_played,
            minutes_played,
            seconds_played,
            time_frame,
            options,
            game_version,
            security_key,
        }
    }

    /// A record with an empty name and every field zero.
    pub fn default() -> (info: TrainerInfo)
        ensures
            info@ == (TrainerInfoView {
                player_name: Seq::<char>::empty(),
                player_gender: PlayerGender::Male,
                public_id: 0,
                secret_id: 0,
                hours_played: 0,
                minutes_played: 0,
                seconds_played: 0,
                time_frame: 0,
                options: 0,
                game_version: GameVersion::RubySapphire,
                security_key: 0,
            }),
            info.wf(),
    {
        TrainerInfo {
            player_name: String::new(),
            player_gender: PlayerGender::Male,
            public_id: 0,
            secret_id: 0,
            hours_played: 0,
            minutes_played: 0,
            seconds_played: 0,
            time_frame: 0,
            options: 0,
            game_version: GameVersion::RubySapphire,
            security_key: 0,
        }
    }
}

/// The two halves of the trainer id are the two-byte values at the id's
/// offset and two bytes after it.
pub proof fn lemma_trainer_id_halves(payload: Seq<u8>)
    ensures
        spec_trainer_info(payload).public_id == spec_le_u16(payload, TRAINER_ID_OFFSET as int),
        spec_trainer_info(payload).secret_id == spec_le_u16(payload, TRAINER_ID_OFFSET + 2),
{
}

} // verus!
