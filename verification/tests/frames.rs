use rfid_rc522::bus::{read_frame, read_value, write_frame};
use rfid_rc522::crc::crc16a;
use rfid_rc522::errors::RFIDError;
use rfid_rc522::picc::{
    anticollision_frame, atqa_verdict, bcc, cascade_continues, cascade_level, collision_position,
    exchange_frame, framing, guess_bit, merge_reply, nvb, reply_len, sak_verdict, select_frame,
    store_block, CascadeLevel,
};
use rfid_rc522::registers::{COMMAND_REG, FIFO_DATA_REG, VERSION_REG};

#[test]
fn a_write_clears_the_direction_bit() {
    assert_eq!(write_frame(COMMAND_REG, 0x0F), [0x02, 0x0F]);
    assert_eq!(write_frame(0xFF, 0xAB), [0x7F, 0xAB]);
    assert_eq!(write_frame(0x80, 0x00), [0x00, 0x00]);
}

#[test]
fn a_read_sets_the_direction_bit() {
    assert_eq!(read_frame(VERSION_REG), [0xEE, 0x00]);
    assert_eq!(read_frame(FIFO_DATA_REG), [0x92, 0x00]);
    assert_eq!(read_frame(0xFF), [0xFF, 0x00]);
}

#[test]
fn a_read_takes_the_second_byte() {
    assert_eq!(read_value([0x55, 0x92]), 0x92);
}

#[test]
fn levels_and_their_commands() {
    assert_eq!(cascade_level(1), Ok(CascadeLevel::One));
    assert_eq!(cascade_level(2), Ok(CascadeLevel::Two));
    assert_eq!(cascade_level(3), Ok(CascadeLevel::Three));
    assert_eq!(cascade_level(0), Err(RFIDError::InvalidResponse));
    assert_eq!(cascade_level(4), Err(RFIDError::InvalidResponse));
    assert_eq!(CascadeLevel::One.select_command(), 0x93);
    assert_eq!(CascadeLevel::Two.select_command(), 0x95);
    assert_eq!(CascadeLevel::Three.select_command(), 0x97);
    assert_eq!(CascadeLevel::One.number(), 1);
    assert_eq!(CascadeLevel::Three.number(), 3);
}

#[test]
fn levels_follow_each_other_up_to_the_third() {
    assert_eq!(CascadeLevel::One.next(), Some(CascadeLevel::Two));
    assert_eq!(CascadeLevel::Two.next(), Some(CascadeLevel::Three));
    assert_eq!(CascadeLevel::Three.next(), None);
}

#[test]
fn levels_place_their_bytes() {
    assert_eq!(CascadeLevel::One.offset(), 0);
    assert_eq!(CascadeLevel::Two.offset(), 3);
    assert_eq!(CascadeLevel::Three.offset(), 6);
    assert_eq!(CascadeLevel::One.uid_len(), 4);
    assert_eq!(CascadeLevel::Two.uid_len(), 7);
    assert_eq!(CascadeLevel::Three.uid_len(), 10);
}

#[test]
fn nvb_packs_bytes_and_bits() {
    assert_eq!(nvb(0), 0x20);
    assert_eq!(nvb(5), 0x25);
    assert_eq!(nvb(8), 0x30);
    assert_eq!(nvb(17), 0x41);
    assert_eq!(nvb(31), 0x57);
    assert_eq!(nvb(32), 0x70);
    assert_eq!(nvb(200), 0x70);
    for known in 0..32u8 {
        assert_eq!(nvb(known), ((2 + known / 8) << 4) | (known % 8));
    }
}

#[test]
fn framing_carries_the_odd_bits_twice() {
    assert_eq!(framing(0), 0x80);
    assert_eq!(framing(5), 0xD5);
    assert_eq!(framing(8), 0x80);
    assert_eq!(framing(31), 0xF7);
    assert_eq!(framing(32), 0x80);
    for known in 0..32u8 {
        assert_eq!(framing(known), 0x80 | ((known % 8) << 4) | (known % 8));
    }
}

#[test]
fn bcc_is_the_exclusive_or() {
    assert_eq!(bcc(&[0xDE, 0xAD, 0xBE, 0xEF]), 0x22);
    assert_eq!(bcc(&[0x00, 0x00, 0x00, 0x00]), 0x00);
    assert_eq!(bcc(&[0x88, 0x04, 0x11, 0x22]), 0xBF);
}

#[test]
fn anticollision_frames_carry_the_known_bytes() {
    let block = [0xDE, 0xAD, 0xBE, 0xEF];
    assert_eq!(anticollision_frame(CascadeLevel::One, 0, &block), vec![0x93, 0x20]);
    assert_eq!(anticollision_frame(CascadeLevel::One, 5, &block), vec![0x93, 0x25, 0xDE]);
    assert_eq!(anticollision_frame(CascadeLevel::Two, 8, &block), vec![0x95, 0x30, 0xDE]);
    assert_eq!(anticollision_frame(CascadeLevel::Two, 9, &block), vec![0x95, 0x31, 0xDE, 0xAD]);
    assert_eq!(
        anticollision_frame(CascadeLevel::Three, 31, &block),
        vec![0x97, 0x57, 0xDE, 0xAD, 0xBE, 0xEF]
    );
}

#[test]
fn select_frames_carry_block_check_byte_and_checksum() {
    let block = [0xDE, 0xAD, 0xBE, 0xEF];
    assert_eq!(
        select_frame(CascadeLevel::One, &block),
        vec![0x93, 0x70, 0xDE, 0xAD, 0xBE, 0xEF, 0x22, 0x31, 0x14]
    );
    let tagged = [0x88, 0x04, 0x11, 0x22];
    assert_eq!(
        select_frame(CascadeLevel::One, &tagged),
        vec![0x93, 0x70, 0x88, 0x04, 0x11, 0x22, 0xBF, 0x53, 0x13]
    );
    let second = [0x33, 0x44, 0x55, 0x66];
    assert_eq!(
        select_frame(CascadeLevel::Two, &second),
        vec![0x95, 0x70, 0x33, 0x44, 0x55, 0x66, 0x44, 0x00, 0x7A]
    );
}

#[test]
fn the_frame_follows_the_known_bits() {
    let block = [0xDE, 0xAD, 0xBE, 0xEF];
    assert_eq!(exchange_frame(CascadeLevel::One, 0, &block), vec![0x93, 0x20]);
    assert_eq!(exchange_frame(CascadeLevel::One, 31, &block).len(), 6);
    assert_eq!(
        exchange_frame(CascadeLevel::One, 32, &block),
        select_frame(CascadeLevel::One, &block)
    );
    assert_eq!(
        exchange_frame(CascadeLevel::One, 40, &block),
        select_frame(CascadeLevel::One, &block)
    );
}

#[test]
fn the_answer_has_the_bytes_still_open() {
    assert_eq!(reply_len(0), 4);
    assert_eq!(reply_len(7), 4);
    assert_eq!(reply_len(8), 3);
    assert_eq!(reply_len(20), 2);
    assert_eq!(reply_len(31), 1);
    assert_eq!(reply_len(32), 3);
    assert_eq!(reply_len(99), 3);
}

#[test]
fn an_answer_fills_an_empty_block() {
    let merged = merge_reply(&[0, 0, 0, 0], 0, &[0xDE, 0xAD, 0xBE, 0xEF]);
    assert_eq!(merged, [0xDE, 0xAD, 0xBE, 0xEF]);
}

#[test]
fn an_answer_keeps_the_known_bits() {
    // Five bits known: the low five of the first byte stay.
    let merged = merge_reply(&[0x15, 0x00, 0x00, 0x00], 5, &[0xC0, 0xAD, 0xBE, 0xEF]);
    assert_eq!(merged, [0xD5, 0xAD, 0xBE, 0xEF]);
    // The answer's own low bits are passed over.
    let merged = merge_reply(&[0x15, 0x00, 0x00, 0x00], 5, &[0xDF, 0xAD, 0xBE, 0xEF]);
    assert_eq!(merged, [0xD5, 0xAD, 0xBE, 0xEF]);
    // Twelve bits known: a whole byte and four bits.
    let merged = merge_reply(&[0xDE, 0x0D, 0x00, 0x00], 12, &[0xA0, 0xBE, 0xEF]);
    assert_eq!(merged, [0xDE, 0xAD, 0xBE, 0xEF]);
    // Whole bytes known: the answer starts on the next one.
    let merged = merge_reply(&[0xDE, 0xAD, 0x00, 0x00], 16, &[0xBE, 0xEF]);
    assert_eq!(merged, [0xDE, 0xAD, 0xBE, 0xEF]);
}

#[test]
fn a_short_answer_leaves_the_rest() {
    let merged = merge_reply(&[0x11, 0x22, 0x33, 0x44], 0, &[0xDE, 0xAD]);
    assert_eq!(merged, [0xDE, 0xAD, 0x33, 0x44]);
    let merged = merge_reply(&[0x11, 0x22, 0x33, 0x44], 0, &[]);
    assert_eq!(merged, [0x11, 0x22, 0x33, 0x44]);
}

#[test]
fn a_complete_block_takes_nothing() {
    let merged = merge_reply(&[0x11, 0x22, 0x33, 0x44], 32, &[0xDE, 0xAD, 0xBE]);
    assert_eq!(merged, [0x11, 0x22, 0x33, 0x44]);
}

#[test]
fn a_long_answer_is_cut_at_the_block() {
    let merged = merge_reply(&[0, 0, 0, 0], 0, &[0xDE, 0xAD, 0xBE, 0xEF, 0x22]);
    assert_eq!(merged, [0xDE, 0xAD, 0xBE, 0xEF]);
}

#[test]
fn the_collision_register_gives_the_position() {
    assert_eq!(collision_position(0x05), Ok(5));
    assert_eq!(collision_position(0x1F), Ok(31));
    assert_eq!(collision_position(0xE5), Ok(5));
    assert_eq!(collision_position(0x01), Ok(1));
}

#[test]
fn a_collision_at_zero_is_an_error() {
    assert_eq!(collision_position(0x00), Err(RFIDError::Collision));
    assert_eq!(collision_position(0x20), Err(RFIDError::Collision));
    assert_eq!(collision_position(0xE0), Err(RFIDError::Collision));
}

#[test]
fn the_guess_sets_the_bit_at_the_position() {
    assert_eq!(guess_bit(&[0, 0, 0, 0], 1), [0x01, 0, 0, 0]);
    assert_eq!(guess_bit(&[0, 0, 0, 0], 5), [0x10, 0, 0, 0]);
    assert_eq!(guess_bit(&[0, 0, 0, 0], 8), [0x80, 0, 0, 0]);
    assert_eq!(guess_bit(&[0, 0, 0, 0], 9), [0, 0x01, 0, 0]);
    assert_eq!(guess_bit(&[0x0F, 0, 0, 0], 5), [0x1F, 0, 0, 0]);
    assert_eq!(guess_bit(&[0, 0, 0, 0], 32), [0, 0, 0, 0x80]);
    assert_eq!(guess_bit(&[1, 2, 3, 4], 0), [1, 2, 3, 4]);
    assert_eq!(guess_bit(&[1, 2, 3, 4], 33), [1, 2, 3, 4]);
}

#[test]
fn an_answer_to_request_must_not_be_zero() {
    assert_eq!(atqa_verdict(0x04, 0x00), Ok([0x04, 0x00]));
    assert_eq!(atqa_verdict(0x00, 0x44), Ok([0x00, 0x44]));
    assert_eq!(atqa_verdict(0xFF, 0xFF), Ok([0xFF, 0xFF]));
    assert_eq!(atqa_verdict(0x00, 0x00), Err(RFIDError::InvalidResponse));
}

#[test]
fn a_select_acknowledge_is_held_to_its_checksum() {
    assert_eq!(sak_verdict(0x08, 0xBE, 0xCD), Ok(0x08));
    assert_eq!(sak_verdict(0x04, 0x7F, 0x41), Ok(0x04));
    assert_eq!(sak_verdict(0x08, 0xCD, 0xBE), Err(RFIDError::CrcError));
    assert_eq!(sak_verdict(0x08, 0xBE, 0xCC), Err(RFIDError::CrcError));
    assert_eq!(sak_verdict(0x08, 0x00, 0x00), Err(RFIDError::CrcError));
    for sak in 0..=255u8 {
        let sum = crc16a(&[sak]);
        assert_eq!(sak_verdict(sak, sum.0, sum.1), Ok(sak));
    }
}

#[test]
fn the_cascade_bit_is_bit_two() {
    assert!(cascade_continues(0x04));
    assert!(cascade_continues(0x24));
    assert!(cascade_continues(0xFF));
    assert!(!cascade_continues(0x00));
    assert!(!cascade_continues(0x08));
    assert!(!cascade_continues(0xFB));
}

#[test]
fn a_last_block_is_stored_whole() {
    let uid = [0u8; 10];
    assert_eq!(
        store_block(&uid, CascadeLevel::One, &[0xDE, 0xAD, 0xBE, 0xEF], true),
        [0xDE, 0xAD, 0xBE, 0xEF, 0, 0, 0, 0, 0, 0]
    );
    let uid = [0x04, 0x11, 0x22, 0, 0, 0, 0, 0, 0, 0];
    assert_eq!(
        store_block(&uid, CascadeLevel::Two, &[0x33, 0x44, 0x55, 0x66], true),
        [0x04, 0x11, 0x22, 0x33, 0x44, 0x55, 0x66, 0, 0, 0]
    );
    let uid = [1, 2, 3, 4, 5, 6, 0, 0, 0, 0];
    assert_eq!(
        store_block(&uid, CascadeLevel::Three, &[7, 8, 9, 10], true),
        [1, 2, 3, 4, 5, 6, 7, 8, 9, 10]
    );
}

#[test]
fn a_block_that_goes_on_is_stored_without_its_tag() {
    let uid = [0u8; 10];
    assert_eq!(
        store_block(&uid, CascadeLevel::One, &[0x88, 0x04, 0x11, 0x22], false),
        [0x04, 0x11, 0x22, 0, 0, 0, 0, 0, 0, 0]
    );
    let uid = [0x04, 0x11, 0x22, 0, 0, 0, 0, 0, 0, 0];
    assert_eq!(
        store_block(&uid, CascadeLevel::Two, &[0x88, 0x33, 0x44, 0x55], false),
        [0x04, 0x11, 0x22, 0x33, 0x44, 0x55, 0, 0, 0, 0]
    );
}
