//! The whole image: framing it into sections and decoding both save slots.

use vstd::prelude::*;
use vstd::slice::slice_subrange;
use crate::config::{
    PAYLOAD_SIZE, SAVESIZE, SECTIONS, SECTION_COUNT, SECTION_SIZE, SLOTS, SLOT_SIZE,
};
use crate::error::DecodeError;
use crate::section::{
    decode_section, read_header, spec_section, spec_section_error, spec_section_header, Section,
    SectionHeader, SectionView,
};

verus! {

/// Decoded save image: the two save slots, each with its sections in the
/// order in which they lie in the image.
#[derive(Debug, PartialEq, Eq)]
pub struct FileStructure {
    pub game_save: [Vec<Section>; 2],
}

impl View for FileStructure {
    type V = Seq<Seq<SectionView>>;

    open spec fn view(&self) -> Seq<Seq<SectionView>> {
        Seq::new(
            SLOTS as nat,
            |slot: int|
                Seq::new(
                    self.game_save[slot]@.len(),
                    |index: int| self.game_save[slot]@[index]@,
                ),
        )
    }
}

impl FileStructure {
    /// Every slot holds its full count of sections, each of them well formed.
    pub open spec fn complete(&self) -> bool {
        forall|slot: int|
            0 <= slot < SLOTS ==> {
                &&& (#[trigger] self.game_save[slot])@.len() == SECTIONS
                &&& forall|index: int|
                    0 <= index < SECTIONS ==> (#[trigger] self.game_save[slot]@[index]).wf()
            }
    }

    /// An image without sections, for a caller to fill.
    pub fn new() -> (image: FileStructure)
        ensures
            image.game_save[0]@.len() == 0,
            image.game_save[1]@.len() == 0,
    {
        FileStructure { game_save: [Vec::new(), Vec::new()] }
    }
}

/// Where section `index` of slot `slot` begins in the image.
pub open spec fn spec_section_start(slot: int, index: int) -> int {
    slot * SLOT_SIZE + index * SECTION_SIZE
}

/// The bytes of section `index` of slot `slot`.
pub open spec fn spec_section_window(data: Seq<u8>, slot: int, index: int) -> Seq<u8> {
    data.subrange(spec_section_start(slot, index), spec_section_start(slot, index) + SECTION_SIZE)
}

/// The footer of section `index` of slot `slot`.
pub open spec fn spec_header_at(data: Seq<u8>, slot: int, index: int) -> SectionHeader {
    spec_section_header(spec_section_window(data, slot, index))
}

/// The payload of section `index` of slot `slot`: the bytes that its
/// checksum covers.
pub open spec fn spec_payload_at(data: Seq<u8>, slot: int, index: int) -> Seq<u8> {
    data.subrange(spec_section_start(slot, index), spec_section_start(slot, index) + PAYLOAD_SIZE)
}

/// The footers of all sections of an image, slot by slot.
pub open spec fn spec_frame(data: Seq<u8>) -> Seq<SectionHeader> {
    Seq::new(
        SECTION_COUNT as nat,
        |k: int| spec_header_at(data, k / (SECTIONS as int), k % (SECTIONS as int)),
    )
}

/// The fault of section `index` of slot `slot` of an image, if it has one.
pub open spec fn spec_fault_at(data: Seq<u8>, slot: usize, index: usize) -> Option<DecodeError> {
    spec_section_error(
        spec_header_at(data, slot as int, index as int),
        spec_payload_at(data, slot as int, index as int),
        slot,
        index,
    )
}

/// What section `index` of slot `slot` of an intact image decodes to.
pub open spec fn spec_section_at(data: Seq<u8>, slot: int, index: int) -> SectionView {
    spec_section(spec_header_at(data, slot, index), spec_payload_at(data, slot, index))
}

/// The first fault among the first `upto` sections of a slot.
pub open spec fn spec_slot_error(data: Seq<u8>, slot: usize, upto: nat) -> Option<DecodeError>
    decreases upto,
{
    if upto == 0 {
        None
    } else {
        match spec_slot_error(data, slot, (upto - 1) as nat) {
            Some(error) => Some(error),
            None => spec_fault_at(data, slot, (upto - 1) as usize),
        }
    }
}

/// The fault that decoding an image reports: a wrong size, or else the first
/// fault in the first slot, or else the first fault in the second slot.
pub open spec fn spec_decode_error(data: Seq<u8>) -> Option<DecodeError> {
    if data.len() != SAVESIZE {
        Some(DecodeError::SizeMismatch { actual: data.len() as usize, expected: SAVESIZE })
    } else {
        match spec_slot_error(data, 0, SECTIONS as nat) {
            Some(error) => Some(error),
            None => spec_slot_error(data, 1, SECTIONS as nat),
        }
    }
}

/// What the sections of a slot decode to.
pub open spec fn spec_slot(data: Seq<u8>, slot: int) -> Seq<SectionView> {
    Seq::new(SECTIONS as nat, |index: int| spec_section_at(data, slot, index))
}

/// What an intact image decodes to.
pub open spec fn spec_image(data: Seq<u8>) -> Seq<Seq<SectionView>> {
    Seq::new(SLOTS as nat, |slot: int| spec_slot(data, slot))
}

/// Cuts section `index` of slot `slot` out of an image.
pub fn section_window(data: &[u8], slot: usize, index: usize) -> (section: &[u8])
    requires
        data@.len() == SAVESIZE,
        slot < SLOTS,
        index < SECTIONS,
    ensures
        section@ == spec_section_window(data@, slot as int, index as int),
        section@.len() == SECTION_SIZE,
{
    let start = slot * SLOT_SIZE + index * SECTION_SIZE;
    slice_subrange(data, start, start + SECTION_SIZE)
}

/// Checks the size of an image and reads the footer of each of its sections,
/// slot by slot.  The footers are not validated.
pub fn frame_sections(data: &[u8]) -> (result: Result<Vec<SectionHeader>, DecodeError>)
    ensures
        data@.len() != SAVESIZE ==> result == Err::<Vec<SectionHeader>, DecodeError>(
            (DecodeError::SizeMismatch { actual: data@.len() as usize, expected: SAVESIZE }),
        ),
        data@.len() == SAVESIZE ==> (result matches Ok(headers) && headers@ == spec_frame(data@)),
{
    if data.len() != SAVESIZE {
        return Err(DecodeError::SizeMismatch { actual: data.len(), expected: SAVESIZE });
    }
    let mut headers: Vec<SectionHeader> = Vec::new();
    let mut k: usize = 0;
    while k < SECTION_COUNT
        invariant
            data@.len() == SAVESIZE,
            k <= SECTION_COUNT,
            headers@.len() == k,
            forall|j: int| 0 <= j < k ==> headers@[j] == spec_frame(data@)[j],
        decreases SECTION_COUNT - k,
    {
        let section = section_window(data, k / SECTIONS, k % SECTIONS);
        headers.push(read_header(section));
        k += 1;
    }
    Ok(headers)
}

/// A fault among the first sections of a slot is the fault of the slot.
proof fn lemma_slot_error_stays(data: Seq<u8>, slot: usize, found: nat, upto: nat)
    requires
        found <= upto,
        spec_slot_error(data, slot, found) is Some,
    ensures
        spec_slot_error(data, slot, upto) == spec_slot_error(data, slot, found),
    decreases upto,
{
    if found < upto {
        lemma_slot_error_stays(data, slot, found, (upto - 1) as nat);
    }
}

/// Validates and decodes the sections of one slot, in order, and stops at
/// the first fault.
fn decode_slot(data: &[u8], headers: &Vec<SectionHeader>, slot: usize) -> (result: Result<
    Vec<Section>,
    DecodeError,
>)
    requires
        data@.len() == SAVESIZE,
        headers@ == spec_frame(data@),
        slot < SLOTS,
    ensures
        match spec_slot_error(data@, slot, SECTIONS as nat) {
            Some(error) => result == Err::<Vec<Section>, DecodeError>(error),
            None => {
                &&& result matches Ok(sections)
                &&& sections@.len() == SECTIONS
                &&& forall|index: int|
                    0 <= index < SECTIONS ==> {
                        &&& (#[trigger] sections@[index])@ == spec_section_at(
                            data@,
                            slot as int,
                            index,
                        )
                        &&& sections@[index].wf()
                    }
            },
        },
{
    let mut sections: Vec<Section> = Vec::new();
    let mut index: usize = 0;
    while index < SECTIONS
        invariant
            data@.len() == SAVESIZE,
            headers@ == spec_frame(data@),
            slot < SLOTS,
            index <= SECTIONS,
            sections@.len() == index,
            spec_slot_error(data@, slot, index as nat) is None,
            forall|i: int|
                0 <= i < index ==> {
                    &&& (#[trigger] sections@[i])@ == spec_section_at(data@, slot as int, i)
                    &&& sections@[i].wf()
                },
        decreases SECTIONS - index,
    {
        let payload = slice_subrange(section_window(data, slot, index), 0, PAYLOAD_SIZE);
        assert(payload@ == spec_payload_at(data@, slot as int, index as int));
        let k = slot * SECTIONS + index;
        assert(k / SECTIONS == slot && k % SECTIONS == index);
        match decode_section(headers[k], payload, slot, index) {
            Ok(decoded) => {
                sections.push(decoded);
            },
            Err(error) => {
                proof {
                    lemma_slot_error_stays(data@, slot, (index + 1) as nat, SECTIONS as nat);
                }
                return Err(error);
            },
        }
        index += 1;
    }
    Ok(sections)
}

/// Decodes a save image.  The size is checked first; then every section of
/// the first slot and of the second slot is validated and decoded in order.
/// The first fault ends decoding, and nothing of the image is returned.
pub fn decode(data: &[u8]) -> (result: Result<FileStructure, DecodeError>)
    ensures
        data@.len() != SAVESIZE ==> result == Err::<FileStructure, DecodeError>(
            (DecodeError::SizeMismatch { actual: data@.len() as usize, expected: SAVESIZE }),
        ),
        match spec_decode_error(data@) {
            Some(error) => result == Err::<FileStructure, DecodeError>(error),
            None => result matches Ok(image) && image@ == spec_image(data@) && image.complete(),
        },
{
    let headers = match frame_sections(data) {
        Ok(headers) => headers,
        Err(error) => {
            return Err(error);
        },
    };
    let first = match decode_slot(data, &headers, 0) {
        Ok(sections) => sections,
        Err(error) => {
            return Err(error);
        },
    };
    let second = match decode_slot(data, &headers, 1) {
        Ok(sections) => sections,
        Err(error) => {
            return Err(error);
        },
    };
    let image = FileStructure { game_save: [first, second] };
    assert(image@ =~~= spec_image(data@));
    Ok(image)
}

} // verus!
