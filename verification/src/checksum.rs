//! The folded 16-bit checksum of a section.
//!
//! The bytes are read as successive little-endian 32-bit words, a trailing
//! partial word padded with zeros, and added up with 32-bit wraparound.  The
//! upper half of the sum is then added to its lower half, once, again with
//! wraparound.

use vstd::prelude::*;

verus! {

/// Outcome of a failed comparison: the checksum that was expected and the
/// one that the bytes gave.
#[derive(Debug, Clone, Copy, PartialEq, Eq, Structural)]
pub struct ChecksumMismatch {
    pub expected: u16,
    pub computed: u16,
}

/// The byte at `i`, or zero past the end of the bytes.
pub open spec fn byte_or_zero(s: Seq<u8>, i: int) -> int {
    if 0 <= i < s.len() {
        s[i] as int
    } else {
        0
    }
}

/// The `w`-th little-endian word of the bytes, padded with zeros.
pub open spec fn spec_word(s: Seq<u8>, w: int) -> u32 {
    (byte_or_zero(s, 4 * w) + 0x100 * byte_or_zero(s, 4 * w + 1) + 0x1_0000 * byte_or_zero(
        s,
        4 * w + 2,
    ) + 0x100_0000 * byte_or_zero(s, 4 * w + 3)) as u32
}

/// Number of words that `len` bytes occupy.
pub open spec fn word_count(len: nat) -> nat {
    (len + 3) / 4
}

/// Wrapping sum of the first `n` words of the bytes.
pub open spec fn word_sum(s: Seq<u8>, n: nat) -> u32
    decreases n,
{
    if n == 0 {
        0
    } else {
        word_sum(s, (n - 1) as nat).wrapping_add(spec_word(s, n - 1))
    }
}

/// The upper half of a sum added to its lower half, carry dropped.
pub open spec fn spec_fold(sum: u32) -> u16 {
    ((sum % 0x1_0000) as u16).wrapping_add((sum / 0x1_0000) as u16)
}

/// The checksum of the bytes.
pub open spec fn spec_checksum(s: Seq<u8>) -> u16 {
    spec_fold(word_sum(s, word_count(s.len())))
}

/// Reads the `w`-th word of the data, which must begin inside it.
fn read_word(data: &[u8], w: usize) -> (word: u32)
    requires
        4 * w < data@.len(),
    ensures
        word == spec_word(data@, w as int),
{
    let len = data.len();
    let base = 4 * w;
    let rest = len - base;
    let b0 = data[base] as u32;
    let b1 = if rest > 1 {
        data[base + 1] as u32
    } else {
        0
    };
    let b2 = if rest > 2 {
        data[base + 2] as u32
    } else {
        0
    };
    let b3 = if rest > 3 {
        data[base + 3] as u32
    } else {
        0
    };
    b0 + b1 * 0x100 + b2 * 0x1_0000 + b3 * 0x100_0000
}

/// Folds a 32-bit sum to 16 bits.
fn fold(sum: u32) -> (folded: u16)
    ensures
        folded == spec_fold(sum),
{
    let upper = (sum / 0x1_0000) as u16;
    let lower = (sum % 0x1_0000) as u16;
    lower.wrapping_add(upper)
}

/// Computes the checksum of the data.
pub fn compute_checksum(data: &[u8]) -> (folded: u16)
    ensures
        folded == spec_checksum(data@),
{
    let len = data.len();
    let words = if len % 4 == 0 {
        len / 4
    } else {
        len / 4 + 1
    };
    let mut sum: u32 = 0;
    let mut w: usize = 0;
    while w < words
        invariant
            len == data@.len(),
            words == word_count(len as nat),
            w <= words,
            sum == word_sum(data@, w as nat),
        decreases words - w,
    {
        let word = read_word(data, w);
        sum = sum.wrapping_add(word);
        w += 1;
    }
    fold(sum)
}

/// Compares the checksum of the data with the expected one.  Returns
/// `Ok(true)` when they agree, and both values otherwise.
pub fn calculate_checksum(section_raw_data: &[u8], expected_checksum: u16) -> (result: Result<
    bool,
    ChecksumMismatch,
>)
    ensures
        spec_checksum(section_raw_data@) == expected_checksum ==> result == Ok::<
            bool,
            ChecksumMismatch,
        >(true),
        spec_checksum(section_raw_data@) != expected_checksum ==> result == Err::<
            bool,
            ChecksumMismatch,
        >(
            (ChecksumMismatch {
                expected: expected_checksum,
                computed: spec_checksum(section_raw_data@),
            }),
        ),
{
    let computed = compute_checksum(section_raw_data);
    if computed == expected_checksum {
        Ok(true)
    } else {
        Err(ChecksumMismatch { expected: expected_checksum, computed })
    }
}

/// Bytes that are all zero have the checksum zero.
pub proof fn lemma_checksum_of_zeros(s: Seq<u8>)
    requires
        forall|i: int| 0 <= i < s.len() ==> s[i] == 0,
    ensures
        spec_checksum(s) == 0,
{
    lemma_word_sum_of_zeros(s, word_count(s.len()));
}

proof fn lemma_word_sum_of_zeros(s: Seq<u8>, n: nat)
    requires
        forall|i: int| 0 <= i < s.len() ==> s[i] == 0,
    ensures
        word_sum(s, n) == 0,
    decreases n,
{
    if n > 0 {
        lemma_word_sum_of_zeros(s, (n - 1) as nat);
    }
}

/// What a byte at position `i` adds to its word for each unit of its value.
pub open spec fn byte_weight(i: int) -> int {
    if i % 4 == 0 {
        1
    } else if i % 4 == 1 {
        0x100
    } else if i % 4 == 2 {
        0x1_0000
    } else {
        0x100_0000
    }
}

/// The sum of the words is the sum with byte `i` cleared, plus what byte `i`
/// adds to its word, once that word has been reached.
proof fn lemma_word_sum_split(s: Seq<u8>, i: int, n: nat)
    requires
        0 <= i < s.len(),
    ensures
        word_sum(s, n) == if n > i / 4 {
            word_sum(s.update(i, 0), n).wrapping_add((s[i] * byte_weight(i)) as u32)
        } else {
            word_sum(s.update(i, 0), n)
        },
    decreases n,
{
    if n > 0 {
        lemma_word_sum_split(s, i, (n - 1) as nat);
    }
}

/// Two sums that differ in the value of a single byte fold to different
/// checksums.
proof fn lemma_fold_separates(rest: u32, a: u8, b: u8, weight: int)
    requires
        a != b,
        weight == 1 || weight == 0x100 || weight == 0x1_0000 || weight == 0x100_0000,
    ensures
        spec_fold(rest.wrapping_add((a * weight) as u32)) != spec_fold(
            rest.wrapping_add((b * weight) as u32),
        ),
{
    assert(a != b ==> spec_fold(rest.wrapping_add((a * 1) as u32)) != spec_fold(
        rest.wrapping_add((b * 1) as u32),
    )) by (bit_vector);
    assert(a != b ==> spec_fold(rest.wrapping_add((a * 0x100) as u32)) != spec_fold(
        rest.wrapping_add((b * 0x100) as u32),
    )) by (bit_vector);
    assert(a != b ==> spec_fold(rest.wrapping_add((a * 0x1_0000) as u32)) != spec_fold(
        rest.wrapping_add((b * 0x1_0000) as u32),
    )) by (bit_vector);
    assert(a != b ==> spec_fold(rest.wrapping_add((a * 0x100_0000) as u32)) != spec_fold(
        rest.wrapping_add((b * 0x100_0000) as u32),
    )) by (bit_vector);
}

/// Replacing any one byte by a different byte changes the checksum.
pub proof fn lemma_checksum_detects_byte_change(s: Seq<u8>, i: int, byte: u8)
    requires
        0 <= i < s.len(),
        byte != s[i],
    ensures
        spec_checksum(s.update(i, byte)) != spec_checksum(s),
{
    let changed = s.update(i, byte);
    let n = word_count(s.len());
    assert(changed.update(i, 0) =~= s.update(i, 0));
    lemma_word_sum_split(s, i, n);
    lemma_word_sum_split(changed, i, n);
    lemma_fold_separates(word_sum(s.update(i, 0), n), s[i], byte, byte_weight(i));
}

} // verus!
