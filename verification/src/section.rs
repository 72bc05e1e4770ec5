//! One section of a save slot: its footer, its validation and its payload.

use vstd::prelude::*;
use vstd::slice::slice_to_vec;
use crate::bytes::{le_u16, le_u32, spec_le_u16, spec_le_u32};
use crate::checksum::{calculate_checksum, spec_checksum};
use crate::config::{
    CHECKSUM_OFFSET, PAYLOAD_SIZE, SAVE_COUNT_OFFSET, SECTION_ID_OFFSET, SECTION_SIZE, SIGNATURE,
    SIGNATURE_OFFSET, TRAINER_INFO_SIZE,
};
use crate::error::DecodeError;
use crate::trainer::{spec_trainer_info, TrainerInfo, TrainerInfoView};

verus! {

/// The four fields of a section footer, as stored.
#[derive(Debug, Clone, Copy, PartialEq, Eq, Structural)]
pub struct SectionHeader {
    pub section_id: u16,
    pub checksum: u16,
    pub signature: u32,
    pub save_count: u32,
}

/// The footer fields of a section, read at their fixed offsets.
pub open spec fn spec_section_header(section: Seq<u8>) -> SectionHeader {
    SectionHeader {
        section_id: spec_le_u16(section, SECTION_ID_OFFSET as int),
        checksum: spec_le_u16(section, CHECKSUM_OFFSET as int),
        signature: spec_le_u32(section, SIGNATURE_OFFSET as int),
        save_count: spec_le_u32(section, SAVE_COUNT_OFFSET as int),
    }
}

/// Reads the footer of a section.  Nothing is validated here.
pub fn read_header(section: &[u8]) -> (header: SectionHeader)
    requires
        section@.len() == SECTION_SIZE,
    ensures
        header == spec_section_header(section@),
{
    SectionHeader {
        section_id: le_u16(section, SECTION_ID_OFFSET),
        checksum: le_u16(section, CHECKSUM_OFFSET),
        signature: le_u32(section, SIGNATURE_OFFSET),
        save_count: le_u32(section, SAVE_COUNT_OFFSET),
    }
}

/// Decoded payload of a section.  Only the trainer payload is understood;
/// the payload of any other section is kept as it was read.
#[derive(Debug, PartialEq, Eq)]
pub enum SectionData {
    TrainerInfo(TrainerInfo),
    Unrecognized { raw_bytes: Vec<u8> },
}

/// Mathematical value of a [`SectionData`].
pub enum SectionDataView {
    TrainerInfo(TrainerInfoView),
    Unrecognized { raw_bytes: Seq<u8> },
}

impl View for SectionData {
    type V = SectionDataView;

    open spec fn view(&self) -> SectionDataView {
        match self {
            SectionData::TrainerInfo(info) => SectionDataView::TrainerInfo(info@),
            SectionData::Unrecognized { raw_bytes } => SectionDataView::Unrecognized {
                raw_bytes: raw_bytes@,
            },
        }
    }
}

/// What a payload decodes to under a section identifier.
pub open spec fn spec_section_data(section_id: u16, payload: Seq<u8>) -> SectionDataView {
    if section_id == TrainerInfo::INDEX {
        SectionDataView::TrainerInfo(spec_trainer_info(payload))
    } else {
        SectionDataView::Unrecognized { raw_bytes: payload }
    }
}

impl SectionData {
    /// A trainer record inside obeys its invariant.
    pub open spec fn wf(&self) -> bool {
        self matches SectionData::TrainerInfo(info) ==> info.wf()
    }

    /// Decodes a payload by the identifier of its section.
    pub fn decode(section_id: u16, payload: Vec<u8>) -> (data: SectionData)
        requires
            section_id == TrainerInfo::INDEX ==> payload@.len() >= TRAINER_INFO_SIZE,
        ensures
            data@ == spec_section_data(section_id, payload@),
            data.wf(),
    {
        if section_id == TrainerInfo::INDEX {
            SectionData::TrainerInfo(TrainerInfo::new(payload))
        } else {
            SectionData::Unrecognized { raw_bytes: payload }
        }
    }
}

/// A validated section: the footer fields as stored, and the decoded payload.
#[derive(Debug, PartialEq, Eq)]
pub struct Section {
    pub data: SectionData,
    pub section_id: u16,
    pub checksum: u16,
    pub signature: u32,
    pub save_count: u32,
}

/// Mathematical value of a [`Section`].
pub struct SectionView {
    pub data: SectionDataView,
    pub section_id: u16,
    pub checksum: u16,
    pub signature: u32,
    pub save_count: u32,
}

impl View for Section {
    type V = SectionView;

    open spec fn view(&self) -> SectionView {
        SectionView {
            data: self.data@,
            section_id: self.section_id,
            checksum: self.checksum,
            signature: self.signature,
            save_count: self.save_count,
        }
    }
}

impl Section {
    /// The section carries the magic signature and a well-formed payload.
    pub open spec fn wf(&self) -> bool {
        &&& self.signature == SIGNATURE
        &&& self.data.wf()
    }

    /// A section around a payload, with the magic signature and the other
    /// footer fields zero.
    pub fn new(data: SectionData) -> (section: Section)
        ensures
            section.data == data,
            section.section_id == 0,
            section.checksum == 0,
            section.signature == SIGNATURE,
            section.save_count == 0,
            data.wf() ==> section.wf(),
    {
        Section { data, section_id: 0, checksum: 0, signature: SIGNATURE, save_count: 0 }
    }

    /// Identifier that the kind of the payload stands for: that of the
    /// trainer payload, or 255 for a payload that was not understood.
    pub fn to_index(&self) -> (index: u8)
        ensures
            index == if self.data is TrainerInfo {
                TrainerInfo::INDEX as u8
            } else {
                255u8
            },
    {
        match self.data {
            SectionData::TrainerInfo(_) => 0,
            _ => 255,
        }
    }
}

/// The fault of a section with the given footer and payload, if it has one.
/// The signature is looked at before the checksum.
pub open spec fn spec_section_error(
    header: SectionHeader,
    payload: Seq<u8>,
    slot: usize,
    index: usize,
) -> Option<DecodeError> {
    let computed = spec_checksum(payload);
    if header.signature != SIGNATURE {
        Some(
            DecodeError::SignatureMismatch {
                slot,
                section_index: index,
                expected: SIGNATURE,
                actual: header.signature,
            },
        )
    } else if computed != header.checksum {
        Some(
            DecodeError::ChecksumMismatch {
                slot,
                section_index: index,
                expected: header.checksum,
                computed,
            },
        )
    } else {
        None
    }
}

/// What an intact section with the given footer and payload decodes to.
pub open spec fn spec_section(header: SectionHeader, payload: Seq<u8>) -> SectionView {
    SectionView {
        data: spec_section_data(header.section_id, payload),
        section_id: header.section_id,
        checksum: header.checksum,
        signature: header.signature,
        save_count: header.save_count,
    }
}

/// Validates a payload against the footer of its section and decodes it.
/// `slot` and `index` say where the section lies and are used to report a
/// fault.
pub fn decode_section(header: SectionHeader, payload: &[u8], slot: usize, index: usize) -> (result:
    Result<Section, DecodeError>)
    requires
        payload@.len() == PAYLOAD_SIZE,
    ensures
        match spec_section_error(header, payload@, slot, index) {
            Some(error) => result == Err::<Section, DecodeError>(error),
            None => result matches Ok(decoded) && decoded@ == spec_section(header, payload@)
                && decoded.wf(),
        },
{
    if header.signature != SIGNATURE {
        return Err(
            DecodeError::SignatureMismatch {
                slot,
                section_index: index,
                expected: SIGNATURE,
                actual: header.signature,
            },
        );
    }
    match calculate_checksum(payload, header.checksum) {
        Ok(_) => {},
        Err(mismatch) => {
            return Err(
                DecodeError::ChecksumMismatch {
                    slot,
                    section_index: index,
                    expected: mismatch.expected,
                    computed: mismatch.computed,
                },
            );
        },
    }
    let mut decoded = Section::new(SectionData::decode(header.section_id, slice_to_vec(payload)));
    decoded.section_id = header.section_id;
    decoded.checksum = header.checksum;
    decoded.signature = header.signature;
    decoded.save_count = header.save_count;
    Ok(decoded)
}

} // verus!
