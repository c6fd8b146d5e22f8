use velera::bits::{count_set_bits, get_bit_at, get_last_bits};
use velera::enums::{get_shift_type, ShiftType, ThumbFirst3Bits};
use velera::memory::MMU;

#[test]
fn bus_composes_big_endian_and_ignores_rom_writes() {
    let mut m = MMU::new();
    m.store8(0x0200_0000, 0x12);
    m.store8(0x0200_0001, 0x34);
    assert_eq!(m.load16(0x0200_0000), 0x1234);
    m.store32(0x0300_0000, 0x1122_3344);
    assert_eq!(m.load8(0x0300_0000), 0x11);
    assert_eq!(m.load32(0x0300_0000), 0x1122_3344);
    m.store16(0x0300_0010, 0xBEEF);
    assert_eq!(m.load16(0x0300_0010), 0xBEEF);
    assert_eq!(m.load8(0x0300_0011), 0xEF);
    m.store8(0x0800_0000, 0xAB);
    assert_eq!(m.load8(0x0800_0000), 0);
    assert_eq!(m.load8(0x1000_0000), 0);
    m.load_rom(&vec![1, 2, 3]);
    assert_eq!(m.load8(0x0800_0002), 3);
    assert_eq!(m.load8(0x0A00_0001), 2);
}

#[test]
fn bit_helpers() {
    assert_eq!(count_set_bits(4), 1);
    assert_eq!(count_set_bits(0xFFFF_FFFF), 32);
    assert_eq!(count_set_bits(0), 0);
    assert!(get_bit_at(0x8000_0000, 31));
    assert!(!get_bit_at(0x8000_0000, 32));
    assert_eq!(get_last_bits(0xABCD, 8), 0xCD);
    assert_eq!(get_last_bits(0xABCD, 40), 0);
    assert_eq!(get_shift_type(2), ShiftType::ASR);
    assert_eq!(get_shift_type(9), ShiftType::LSL);
    assert_eq!(ThumbFirst3Bits::from_instruction(0b1101_0000_0000_0000), ThumbFirst3Bits::MultiLoadStoreCondBranchSWI);
}
