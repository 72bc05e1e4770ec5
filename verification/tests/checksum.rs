use gen3_save::checksum::{calculate_checksum, compute_checksum, ChecksumMismatch};

/// Word-by-word sum written with shifts, to hold the library against.
fn sum_by_shifts(bytes: &[u8]) -> u16 {
    let mut sum: u32 = 0;
    for chunk in bytes.chunks(4) {
        let mut word: u32 = 0;
        for (i, &byte) in chunk.iter().enumerate() {
            word |= (byte as u32) << (i * 8);
        }
        sum = sum.wrapping_add(word);
    }
    ((sum & 0xFFFF) as u16).wrapping_add((sum >> 16) as u16)
}

#[test]
fn checksum_of_nothing_is_zero() {
    assert_eq!(compute_checksum(&[]), 0);
}

#[test]
fn checksum_of_one_word() {
    assert_eq!(compute_checksum(&[0x01, 0x02, 0x03, 0x04]), 0x0403 + 0x0201);
}

#[test]
fn checksum_pads_trailing_bytes_with_zeros() {
    assert_eq!(compute_checksum(&[0x01, 0x02, 0x03, 0x04, 0x05]), 0x0403 + 0x0206);
    assert_eq!(compute_checksum(&[0x34, 0x12]), 0x1234);
    assert_eq!(compute_checksum(&[0x01, 0x02, 0x03]), 0x0003 + 0x0201);
    assert_eq!(
        compute_checksum(&[0x01, 0x02, 0x03]),
        compute_checksum(&[0x01, 0x02, 0x03, 0x00])
    );
}

#[test]
fn checksum_sum_wraps_at_32_bits() {
    let bytes = [0xFF, 0xFF, 0xFF, 0xFF, 0x01, 0x00, 0x00, 0x00];
    assert_eq!(compute_checksum(&bytes), 0);
    let bytes = [0xFF, 0xFF, 0xFF, 0xFF, 0x03, 0x00, 0x00, 0x00];
    assert_eq!(compute_checksum(&bytes), 2);
}

#[test]
fn checksum_folds_once_and_drops_the_carry() {
    // 0xFFFF + 0xFFFF = 0x1FFFE; the carry is dropped, not added back.
    assert_eq!(compute_checksum(&[0xFF, 0xFF, 0xFF, 0xFF]), 0xFFFE);
    // 0x0001 + 0xFFFF = 0x10000, which folds to zero.
    assert_eq!(compute_checksum(&[0xFF, 0xFF, 0x01, 0x00]), 0);
    // The sum 0x0001_0000 has the upper half 1 and the lower half 0.
    assert_eq!(compute_checksum(&[0xFF, 0xFF, 0x00, 0x00, 0x01, 0x00, 0x00, 0x00]), 1);
}

#[test]
fn checksum_of_zero_payload_is_zero() {
    let payload = vec![0u8; 3968];
    assert_eq!(compute_checksum(&payload), 0);
    assert_eq!(calculate_checksum(&payload, 0), Ok(true));
    assert_eq!(
        calculate_checksum(&payload, 1),
        Err(ChecksumMismatch { expected: 1, computed: 0 })
    );
}

#[test]
fn checksum_agrees_with_shifted_sum() {
    let mut bytes = Vec::new();
    let mut state: u32 = 0x2545_F491;
    for _ in 0..3968 {
        state = state.wrapping_mul(1_664_525).wrapping_add(1_013_904_223);
        bytes.push((state >> 24) as u8);
    }
    for len in [0usize, 1, 2, 3, 4, 5, 7, 8, 9, 100, 1023, 3967, 3968] {
        assert_eq!(compute_checksum(&bytes[..len]), sum_by_shifts(&bytes[..len]), "length {}", len);
    }
}

#[test]
fn checksum_is_repeatable() {
    let bytes: Vec<u8> = (0..=255u8).cycle().take(3968).collect();
    let first = compute_checksum(&bytes);
    let second = compute_checksum(&bytes);
    assert_eq!(first, second);
    assert_eq!(calculate_checksum(&bytes, first), calculate_checksum(&bytes, first));
    assert_eq!(calculate_checksum(&bytes, first), Ok(true));
}

#[test]
fn calculate_checksum_accepts_the_right_value() {
    assert_eq!(calculate_checksum(&[0x01, 0x02, 0x03, 0x04], 0x0604), Ok(true));
}

#[test]
fn calculate_checksum_reports_both_values() {
    assert_eq!(
        calculate_checksum(&[0x01, 0x02, 0x03, 0x04], 0x0605),
        Err(ChecksumMismatch { expected: 0x0605, computed: 0x0604 })
    );
    assert_eq!(calculate_checksum(&[], 7), Err(ChecksumMismatch { expected: 7, computed: 0 }));
}

#[test]
fn checksum_changes_with_any_single_byte() {
    let base: Vec<u8> = (0..64u32).map(|i| (i * 37 + 11) as u8).collect();
    let unchanged = compute_checksum(&base);
    for at in 0..base.len() {
        for value in 0..=255u8 {
            if value == base[at] {
                continue;
            }
            let mut changed = base.clone();
            changed[at] = value;
            assert_ne!(compute_checksum(&changed), unchanged, "byte {} set to {}", at, value);
        }
    }
}

#[test]
fn checksum_changes_with_any_single_byte_near_wraparound() {
    let base = [0xFFu8, 0xFF, 0xFF, 0xFF, 0xFF, 0xFF, 0xFF, 0xFF, 0x02, 0x00, 0x00];
    let unchanged = compute_checksum(&base);
    for at in 0..base.len() {
        for value in 0..=255u8 {
            if value == base[at] {
                continue;
            }
            let mut changed = base;
            changed[at] = value;
            assert_ne!(compute_checksum(&changed), unchanged, "byte {} set to {}", at, value);
        }
    }
}
