//! What decoding guarantees about damaged images.
//!
//! The theorems here are stated over the spec functions in the contract of
//! [`decode`](crate::save::decode), so they hold of every result that it
//! returns.

use vstd::prelude::*;
use crate::bytes::lemma_le_u32_byte_matters;
use crate::checksum::{lemma_checksum_detects_byte_change, lemma_checksum_of_zeros, spec_checksum};
use crate::config::{
    PAYLOAD_SIZE, SAVESIZE, SECTIONS, SECTION_SIZE, SIGNATURE, SIGNATURE_OFFSET, SLOTS,
};
use crate::error::DecodeError;
use crate::save::{
    spec_decode_error, spec_fault_at, spec_header_at, spec_image, spec_payload_at,
    spec_section_start, spec_section_window, spec_slot_error,
};

verus! {

/// Every section that is decoded before section `index` of slot `slot` is
/// intact.
pub open spec fn spec_intact_before(data: Seq<u8>, slot: usize, index: usize) -> bool {
    forall|s: usize, i: usize|
        s < SLOTS && i < SECTIONS && (s < slot || (s == slot && i < index))
            ==> #[trigger] spec_fault_at(data, s, i) is None
}

/// Every section but section `index` of slot `slot` is intact.
pub open spec fn spec_intact_elsewhere(data: Seq<u8>, slot: usize, index: usize) -> bool {
    forall|s: usize, i: usize|
        s < SLOTS && i < SECTIONS && (s != slot || i != index) ==> #[trigger] spec_fault_at(
            data,
            s,
            i,
        ) is None
}

/// The first sections of a slot are without fault exactly when each of them
/// is intact.
pub proof fn lemma_slot_without_fault(data: Seq<u8>, slot: usize, upto: nat)
    requires
        upto <= SECTIONS,
    ensures
        spec_slot_error(data, slot, upto) is None <==> forall|i: usize|
            i < upto ==> #[trigger] spec_fault_at(data, slot, i) is None,
    decreases upto,
{
    if upto > 0 {
        lemma_slot_without_fault(data, slot, (upto - 1) as nat);
    }
}

/// An image decodes without fault exactly when it has the right size and
/// each of its sections is intact.
pub proof fn lemma_decodes_iff_intact(data: Seq<u8>)
    ensures
        spec_decode_error(data) is None <==> {
            &&& data.len() == SAVESIZE
            &&& forall|s: usize, i: usize|
                s < SLOTS && i < SECTIONS ==> #[trigger] spec_fault_at(data, s, i) is None
        },
{
    lemma_slot_without_fault(data, 0, SECTIONS as nat);
    lemma_slot_without_fault(data, 1, SECTIONS as nat);
}

/// Every section of an image that decodes carries the signature and stores
/// the checksum of its own payload.
pub proof fn lemma_decoded_sections_validated(data: Seq<u8>, slot: usize, index: usize)
    requires
        spec_decode_error(data) is None,
        slot < SLOTS,
        index < SECTIONS,
    ensures
        spec_image(data)[slot as int][index as int].signature == SIGNATURE,
        spec_image(data)[slot as int][index as int].checksum == spec_checksum(
            spec_payload_at(data, slot as int, index as int),
        ),
{
    lemma_decodes_iff_intact(data);
    assert(spec_fault_at(data, slot, index) is None);
}

/// The fault that a slot reports is that of its first section with a fault.
proof fn lemma_first_fault_of_slot(data: Seq<u8>, slot: usize, index: usize, upto: nat)
    requires
        index < upto <= SECTIONS,
        forall|i: usize| i < index ==> #[trigger] spec_fault_at(data, slot, i) is None,
        spec_fault_at(data, slot, index) is Some,
    ensures
        spec_slot_error(data, slot, upto) == spec_fault_at(data, slot, index),
    decreases upto,
{
    if upto == index + 1 {
        lemma_slot_without_fault(data, slot, index as nat);
    } else {
        lemma_first_fault_of_slot(data, slot, index, (upto - 1) as nat);
    }
}

/// Decoding reports the fault of the first section, in decoding order, that
/// has one.
pub proof fn lemma_first_fault(data: Seq<u8>, slot: usize, index: usize)
    requires
        data.len() == SAVESIZE,
        slot < SLOTS,
        index < SECTIONS,
        spec_intact_before(data, slot, index),
        spec_fault_at(data, slot, index) is Some,
    ensures
        spec_decode_error(data) == spec_fault_at(data, slot, index),
{
    lemma_first_fault_of_slot(data, slot, index, SECTIONS as nat);
    if slot == 1 {
        lemma_slot_without_fault(data, 0, SECTIONS as nat);
    }
}

/// Writing a byte outside a section leaves the section as it was.
pub proof fn lemma_section_untouched(data: Seq<u8>, at: int, byte: u8, slot: usize, index: usize)
    requires
        data.len() == SAVESIZE,
        slot < SLOTS,
        index < SECTIONS,
        0 <= at < data.len(),
        at < spec_section_start(slot as int, index as int) || at >= spec_section_start(
            slot as int,
            index as int,
        ) + SECTION_SIZE,
    ensures
        spec_section_window(data.update(at, byte), slot as int, index as int)
            == spec_section_window(data, slot as int, index as int),
        spec_payload_at(data.update(at, byte), slot as int, index as int) == spec_payload_at(
            data,
            slot as int,
            index as int,
        ),
        spec_fault_at(data.update(at, byte), slot, index) == spec_fault_at(data, slot, index),
{
    assert(spec_payload_at(data.update(at, byte), slot as int, index as int) =~= spec_payload_at(
        data,
        slot as int,
        index as int,
    ));
}

/// Writing a byte inside a section leaves every other section as it was.
pub proof fn lemma_other_sections_untouched(
    data: Seq<u8>,
    slot: usize,
    index: usize,
    offset: int,
    byte: u8,
)
    requires
        data.len() == SAVESIZE,
        slot < SLOTS,
        index < SECTIONS,
        0 <= offset < SECTION_SIZE,
    ensures
        forall|s: usize, i: usize|
            s < SLOTS && i < SECTIONS && (s != slot || i != index) ==> #[trigger] spec_fault_at(
                data.update(spec_section_start(slot as int, index as int) + offset, byte),
                s,
                i,
            ) == spec_fault_at(data, s, i),
{
    let at = spec_section_start(slot as int, index as int) + offset;
    assert forall|s: usize, i: usize|
        s < SLOTS && i < SECTIONS && (s != slot || i != index) implies #[trigger] spec_fault_at(
        data.update(at, byte),
        s,
        i,
    ) == spec_fault_at(data, s, i) by {
        lemma_section_untouched(data, at, byte, s, i);
    }
}

/// The checksum of a section depends on the bytes of its payload alone: two
/// images that agree there give the same checksum, whatever else they hold.
pub proof fn lemma_checksum_ignores_other_bytes(
    a: Seq<u8>,
    b: Seq<u8>,
    slot: usize,
    index: usize,
)
    requires
        a.len() == SAVESIZE,
        b.len() == SAVESIZE,
        slot < SLOTS,
        index < SECTIONS,
        forall|at: int|
            spec_section_start(slot as int, index as int) <= at < spec_section_start(
                slot as int,
                index as int,
            ) + PAYLOAD_SIZE ==> a[at] == b[at],
    ensures
        spec_checksum(spec_payload_at(a, slot as int, index as int)) == spec_checksum(
            spec_payload_at(b, slot as int, index as int),
        ),
{
    assert(spec_payload_at(a, slot as int, index as int) =~= spec_payload_at(
        b,
        slot as int,
        index as int,
    ));
}

/// A section whose payload is all zero has the checksum zero.  It is intact
/// exactly when it carries the signature and stores the checksum zero.
pub proof fn lemma_zero_payload(data: Seq<u8>, slot: usize, index: usize)
    requires
        data.len() == SAVESIZE,
        slot < SLOTS,
        index < SECTIONS,
        forall|at: int|
            spec_section_start(slot as int, index as int) <= at < spec_section_start(
                slot as int,
                index as int,
            ) + PAYLOAD_SIZE ==> data[at] == 0,
    ensures
        spec_checksum(spec_payload_at(data, slot as int, index as int)) == 0,
        spec_fault_at(data, slot, index) is None <==> {
            &&& spec_header_at(data, slot as int, index as int).signature == SIGNATURE
            &&& spec_header_at(data, slot as int, index as int).checksum == 0
        },
{
    lemma_checksum_of_zeros(spec_payload_at(data, slot as int, index as int));
}

/// An image in which one section has an all-zero payload and the signature,
/// and every other section is intact, decodes exactly when that section
/// stores the checksum zero.
pub proof fn lemma_zero_payload_decodes(data: Seq<u8>, slot: usize, index: usize)
    requires
        data.len() == SAVESIZE,
        slot < SLOTS,
        index < SECTIONS,
        forall|at: int|
            spec_section_start(slot as int, index as int) <= at < spec_section_start(
                slot as int,
                index as int,
            ) + PAYLOAD_SIZE ==> data[at] == 0,
        spec_header_at(data, slot as int, index as int).signature == SIGNATURE,
        spec_intact_elsewhere(data, slot, index),
    ensures
        spec_decode_error(data) is None <==> spec_header_at(
            data,
            slot as int,
            index as int,
        ).checksum == 0,
{
    lemma_zero_payload(data, slot, index);
    lemma_decodes_iff_intact(data);
}

/// Replacing one byte of the signature of a section is reported as a
/// signature mismatch of that section, provided that the section carried the
/// signature and every section decoded before it is intact.
pub proof fn lemma_signature_damage_reported(
    data: Seq<u8>,
    slot: usize,
    index: usize,
    k: int,
    byte: u8,
)
    requires
        data.len() == SAVESIZE,
        slot < SLOTS,
        index < SECTIONS,
        0 <= k < 4,
        byte != data[spec_section_start(slot as int, index as int) + SIGNATURE_OFFSET + k],
        spec_header_at(data, slot as int, index as int).signature == SIGNATURE,
        spec_intact_before(data, slot, index),
    ensures
        ({
            let damaged = data.update(
                spec_section_start(slot as int, index as int) + SIGNATURE_OFFSET + k,
                byte,
            );
            let actual = spec_header_at(damaged, slot as int, index as int).signature;
            &&& actual != SIGNATURE
            &&& spec_decode_error(damaged) == Some(
                DecodeError::SignatureMismatch {
                    slot,
                    section_index: index,
                    expected: SIGNATURE,
                    actual,
                },
            )
        }),
{
    let start = spec_section_start(slot as int, index as int);
    let damaged = data.update(start + SIGNATURE_OFFSET + k, byte);
    let section = spec_section_window(data, slot as int, index as int);
    lemma_le_u32_byte_matters(section, SIGNATURE_OFFSET as int, k, byte);
    lemma_other_sections_untouched(data, slot, index, SIGNATURE_OFFSET + k, byte);
    lemma_first_fault(damaged, slot, index);
}

/// Replacing one byte of the payload of an intact section is reported as a
/// checksum mismatch of that section, provided that every section decoded
/// before it is intact.  The checksum of a payload always changes when one
/// of its bytes does.
pub proof fn lemma_payload_damage_reported(
    data: Seq<u8>,
    slot: usize,
    index: usize,
    offset: int,
    byte: u8,
)
    requires
        data.len() == SAVESIZE,
        slot < SLOTS,
        index < SECTIONS,
        0 <= offset < PAYLOAD_SIZE,
        byte != data[spec_section_start(slot as int, index as int) + offset],
        spec_fault_at(data, slot, index) is None,
        spec_intact_before(data, slot, index),
    ensures
        ({
            let damaged = data.update(spec_section_start(slot as int, index as int) + offset, byte);
            let expected = spec_header_at(data, slot as int, index as int).checksum;
            let computed = spec_checksum(spec_payload_at(damaged, slot as int, index as int));
            &&& computed != expected
            &&& spec_decode_error(damaged) == Some(
                DecodeError::ChecksumMismatch { slot, section_index: index, expected, computed },
            )
        }),
{
    let start = spec_section_start(slot as int, index as int);
    let damaged = data.update(start + offset, byte);
    let payload = spec_payload_at(data, slot as int, index as int);
    assert(spec_payload_at(damaged, slot as int, index as int) =~= payload.update(offset, byte));
    lemma_checksum_detects_byte_change(payload, offset, byte);
    lemma_other_sections_untouched(data, slot, index, offset, byte);
    lemma_first_fault(damaged, slot, index);
}

} // verus!
