use gen3_save::bytes::{le_u16, le_u24, le_u32};

#[test]
fn le_u16_reads_low_byte_first() {
    let data = [0xAA, 0x34, 0x12, 0xBB];
    assert_eq!(le_u16(&data, 1), 0x1234);
    assert_eq!(le_u16(&data, 0), 0x34AA);
    assert_eq!(le_u16(&data, 2), 0xBB12);
    assert_eq!(le_u16(&[0xFF, 0xFF], 0), u16::MAX);
}

#[test]
fn le_u24_reads_three_bytes() {
    let data = [0x00, 0x56, 0x34, 0x12, 0xFF];
    assert_eq!(le_u24(&data, 1), 0x0012_3456);
    assert_eq!(le_u24(&[0xFF, 0xFF, 0xFF, 0xFF], 0), 0x00FF_FFFF);
}

#[test]
fn le_u32_reads_four_bytes() {
    let data = [0x00, 0x78, 0x56, 0x34, 0x12];
    assert_eq!(le_u32(&data, 1), 0x1234_5678);
    assert_eq!(le_u32(&data, 0), 0x3456_7800);
    assert_eq!(le_u32(&[0xFF, 0xFF, 0xFF, 0xFF], 0), u32::MAX);
    assert_eq!(le_u32(&[0x25, 0x20, 0x01, 0x08], 0), 0x0801_2025);
}

#[test]
fn le_readers_agree_with_std() {
    let data: Vec<u8> = (0..32u32).map(|i| (i * 73 + 5) as u8).collect();
    for at in 0..28 {
        assert_eq!(le_u16(&data, at), u16::from_le_bytes([data[at], data[at + 1]]));
        assert_eq!(
            le_u24(&data, at),
            u32::from_le_bytes([data[at], data[at + 1], data[at + 2], 0])
        );
        assert_eq!(
            le_u32(&data, at),
            u32::from_le_bytes([data[at], data[at + 1], data[at + 2], data[at + 3]])
        );
    }
}
