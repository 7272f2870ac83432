use rfid_rc522::crc::{crc16a, crc_update, CRC_PRESET};

#[test]
fn crc_of_nothing_is_the_preset() {
    assert_eq!(crc16a(&[]), (0x63, 0x63));
    assert_eq!(CRC_PRESET, 0x6363);
}

#[test]
fn crc_of_a_single_zero_byte() {
    assert_eq!(crc16a(&[0x00]), (0x3F, 0xC5));
}

#[test]
fn crc_of_two_zero_bytes() {
    assert_eq!(crc16a(&[0x00, 0x00]), (0x02, 0xBC));
}

#[test]
fn crc_of_a_select_head() {
    let head = [0x93, 0x70, 0xDE, 0xAD, 0xBE, 0xEF, 0x22];
    assert_eq!(crc16a(&head), (0x31, 0x14));
}

#[test]
fn crc_of_select_acknowledges() {
    assert_eq!(crc16a(&[0x08]), (0xBE, 0xCD));
    assert_eq!(crc16a(&[0x04]), (0x7F, 0x41));
    assert_eq!(crc16a(&[0xFF]), (0x21, 0x35));
}

#[test]
fn crc_is_the_same_each_time() {
    let data = [0x12, 0x34];
    assert_eq!(crc16a(&data), (0x11, 0x7A));
    assert_eq!(crc16a(&data), crc16a(&data));
}

#[test]
fn crc_goes_byte_by_byte() {
    let after_first = crc_update(CRC_PRESET, 0x12);
    let after_second = crc_update(after_first, 0x34);
    assert_eq!(((after_second >> 8) as u8, (after_second & 0xFF) as u8), crc16a(&[0x12, 0x34]));
}

#[test]
fn crc_update_shifts_and_folds() {
    // One zero byte from a register with the top bit clear and with it set.
    assert_eq!(crc_update(0x0000, 0x00), 0x0000);
    assert_eq!(crc_update(0x8000, 0x00), 0x9188);
}
