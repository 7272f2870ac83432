//! What the reader and a card say to each other while the card is activated:
//! cascade levels, the anti-collision and select frames, how an answer fills
//! a level's block of the identifier, and how the answers are judged.

use vstd::prelude::*;
use crate::card_types::{card_type, card_type_of, CardType};
use crate::commands::{PICC_CMD_SEL_CL1, PICC_CMD_SEL_CL2, PICC_CMD_SEL_CL3};
use crate::crc::{crc16a, crc16a_of};
use crate::errors::RFIDError;

verus! {

/// From this many known bits on, a level's block is complete.
pub const BLOCK_BITS: u8 = 32;

/// The bit of a select acknowledge that says the identifier goes on.
pub const SAK_CASCADE_BIT: u8 = 0x04;

/// One round of resolving the identifier. A round carries a block of four
/// bytes, so longer identifiers take two or three rounds.
#[derive(Clone, Copy, Debug, PartialEq, Eq, Structural)]
pub enum CascadeLevel {
    One,
    Two,
    Three,
}

impl CascadeLevel {
    /// The level's number, 1 to 3.
    pub open spec fn number_of(self) -> nat {
        match self {
            CascadeLevel::One => 1,
            CascadeLevel::Two => 2,
            CascadeLevel::Three => 3,
        }
    }

    /// The command byte that opens this level's frames.
    pub open spec fn select_command_of(self) -> u8 {
        match self {
            CascadeLevel::One => PICC_CMD_SEL_CL1,
            CascadeLevel::Two => PICC_CMD_SEL_CL2,
            CascadeLevel::Three => PICC_CMD_SEL_CL3,
        }
    }

    /// The level after this one, if there is one.
    pub open spec fn next_of(self) -> Option<CascadeLevel> {
        match self {
            CascadeLevel::One => Some(CascadeLevel::Two),
            CascadeLevel::Two => Some(CascadeLevel::Three),
            CascadeLevel::Three => None,
        }
    }

    /// Where this level's bytes start in the assembled identifier.
    pub open spec fn offset_of(self) -> nat {
        (3 * (self.number_of() - 1)) as nat
    }

    /// The identifier's length when this level is the last.
    pub open spec fn uid_len_of(self) -> nat {
        self.offset_of() + 4
    }

    /// The level's number, 1 to 3.
    pub fn number(&self) -> (n: u8)
        ensures
            n == self.number_of(),
    {
        match self {
            CascadeLevel::One => 1,
            CascadeLevel::Two => 2,
            CascadeLevel::Three => 3,
        }
    }

    /// The command byte that opens this level's frames.
    pub fn select_command(&self) -> (cmd: u8)
        ensures
            cmd == self.select_command_of(),
    {
        match self {
            CascadeLevel::One => PICC_CMD_SEL_CL1,
            CascadeLevel::Two => PICC_CMD_SEL_CL2,
            CascadeLevel::Three => PICC_CMD_SEL_CL3,
        }
    }

    /// The level after this one; none after the third.
    pub fn next(&self) -> (following: Option<CascadeLevel>)
        ensures
            following == self.next_of(),
    {
        match self {
            CascadeLevel::One => Some(CascadeLevel::Two),
            CascadeLevel::Two => Some(CascadeLevel::Three),
            CascadeLevel::Three => None,
        }
    }

    /// Where this level's bytes start in the assembled identifier.
    pub fn offset(&self) -> (at: usize)
        ensures
            at == self.offset_of(),
    {
        match self {
            CascadeLevel::One => 0,
            CascadeLevel::Two => 3,
            CascadeLevel::Three => 6,
        }
    }

    /// The identifier's length when this level is the last.
    pub fn uid_len(&self) -> (len: usize)
        ensures
            len == self.uid_len_of(),
    {
        self.offset() + 4
    }
}

/// The level with the given number, where there is one.
pub open spec fn cascade_level_of(number: u8) -> Result<CascadeLevel, RFIDError> {
    if number == 1 {
        Ok(CascadeLevel::One)
    } else if number == 2 {
        Ok(CascadeLevel::Two)
    } else if number == 3 {
        Ok(CascadeLevel::Three)
    } else {
        Err(RFIDError::InvalidResponse)
    }
}

/// The level with the given number. Only 1, 2 and 3 name a level; anything
/// else is an invalid response.
pub fn cascade_level(number: u8) -> (level: Result<CascadeLevel, RFIDError>)
    ensures
        level == cascade_level_of(number),
{
    match number {
        1 => Ok(CascadeLevel::One),
        2 => Ok(CascadeLevel::Two),
        3 => Ok(CascadeLevel::Three),
        _ => Err(RFIDError::InvalidResponse),
    }
}

/// A card that was selected: its identifier and the select acknowledge that
/// ended the cascade.
#[derive(Clone, Copy, Debug, PartialEq, Eq)]
pub struct Card {
    /// The identifier's bytes, from the front; what lies behind them is not
    /// part of the identifier.
    pub uid: [u8; 10],
    /// The cascade level at which the identifier was complete.
    pub levels: CascadeLevel,
    /// The select acknowledge of that level.
    pub sak: u8,
}

impl View for Card {
    type V = Seq<u8>;

    /// The identifier: 4, 7 or 10 bytes. The select acknowledge is no part
    /// of it, and of the level only the length that it gives.
    open spec fn view(&self) -> Seq<u8> {
        self.uid@.take(self.levels.uid_len_of() as int)
    }
}

impl Card {
    /// How many bytes the identifier has.
    pub fn uid_len(&self) -> (len: usize)
        ensures
            len == self@.len(),
            len == 4 || len == 7 || len == 10,
    {
        self.levels.uid_len()
    }

    /// The identifier as a vector.
    pub fn uid_bytes(&self) -> (bytes: Vec<u8>)
        ensures
            bytes@ == self@,
    {
        let len = self.levels.uid_len();
        let mut bytes: Vec<u8> = Vec::new();
        let mut i: usize = 0;
        while i < len
            invariant
                i <= len,
                len == self.levels.uid_len_of(),
                bytes@ == self.uid@.take(i as int),
            decreases len - i,
        {
            bytes.push(self.uid[i]);
            proof {
                assert(self.uid@.take(i + 1) == self.uid@.take(i as int).push(self.uid@[i as int]));
            }
            i = i + 1;
        }
        bytes
    }

    /// The card's kind, by its select acknowledge.
    pub fn card_type(&self) -> (kind: CardType)
        ensures
            kind == card_type_of(self.sak),
    {
        card_type(self.sak)
    }
}

/// An identifier of which nothing is known yet.
pub open spec fn blank_uid() -> [u8; 10] {
    [0, 0, 0, 0, 0, 0, 0, 0, 0, 0]
}

/// A byte with its `n` lowest bits set.
pub open spec fn low_mask(n: u8) -> u8 {
    if n == 0 {
        0x00
    } else if n == 1 {
        0x01
    } else if n == 2 {
        0x03
    } else if n == 3 {
        0x07
    } else if n == 4 {
        0x0F
    } else if n == 5 {
        0x1F
    } else if n == 6 {
        0x3F
    } else if n == 7 {
        0x7F
    } else {
        0xFF
    }
}

/// A byte with bit `n` set and no other; zero where there is no such bit.
pub open spec fn bit_value(n: u8) -> u8 {
    if n == 0 {
        0x01
    } else if n == 1 {
        0x02
    } else if n == 2 {
        0x04
    } else if n == 3 {
        0x08
    } else if n == 4 {
        0x10
    } else if n == 5 {
        0x20
    } else if n == 6 {
        0x40
    } else if n == 7 {
        0x80
    } else {
        0x00
    }
}

fn low_bits(n: u8) -> (mask: u8)
    ensures
        mask == low_mask(n),
{
    match n {
        0 => 0x00,
        1 => 0x01,
        2 => 0x03,
        3 => 0x07,
        4 => 0x0F,
        5 => 0x1F,
        6 => 0x3F,
        7 => 0x7F,
        _ => 0xFF,
    }
}

fn single_bit(n: u8) -> (mask: u8)
    ensures
        mask == bit_value(n),
{
    match n {
        0 => 0x01,
        1 => 0x02,
        2 => 0x04,
        3 => 0x08,
        4 => 0x10,
        5 => 0x20,
        6 => 0x40,
        7 => 0x80,
        _ => 0x00,
    }
}

/// How many bytes of a block hold at least one known bit.
pub open spec fn known_bytes(known: u8) -> nat {
    if known >= BLOCK_BITS {
        4
    } else {
        ((known + 7) / 8) as nat
    }
}

/// The frame's second byte: the count of whole bytes the frame carries, the
/// two leading ones included, in the upper half; the count of bits beyond
/// them in the lower half. A frame with a complete block also carries the
/// block's check byte, and says so.
pub open spec fn nvb_of(known: u8) -> u8 {
    if known >= BLOCK_BITS {
        0x70
    } else {
        (16 * (2 + known / 8) + known % 8) as u8
    }
}

/// Computes the frame's second byte from the number of known bits.
pub fn nvb(known: u8) -> (byte: u8)
    ensures
        byte == nvb_of(known),
{
    if known >= BLOCK_BITS {
        0x70
    } else {
        16 * (2 + known / 8) + known % 8
    }
}

/// The value for the bit-framing register that starts the transmission of a
/// frame with `known` bits of the block: the start bit, and the count of bits
/// of the last byte both as what is sent and as where the answer begins.
pub open spec fn framing_of(known: u8) -> u8 {
    if known >= BLOCK_BITS {
        0x80
    } else {
        (0x80 + 16 * (known % 8) + known % 8) as u8
    }
}

/// Computes the bit-framing value for a frame with `known` bits of the block.
pub fn framing(known: u8) -> (value: u8)
    ensures
        value == framing_of(known),
{
    if known >= BLOCK_BITS {
        0x80
    } else {
        0x80 + 16 * (known % 8) + known % 8
    }
}

/// The bit-framing value for a request or wake-up: the start bit, and seven
/// bits in the only byte.
pub const SHORT_FRAME_FRAMING: u8 = 0x87;

/// The check byte of a block: the exclusive or of its four bytes.
pub open spec fn bcc_of(block: Seq<u8>) -> u8 {
    block[0] ^ block[1] ^ block[2] ^ block[3]
}

/// Computes the check byte of a block.
pub fn bcc(block: &[u8; 4]) -> (check: u8)
    ensures
        check == bcc_of(block@),
{
    block[0] ^ block[1] ^ block[2] ^ block[3]
}

/// The anti-collision frame: command, second byte, and the bytes of the
/// block that hold known bits.
pub open spec fn anticollision_frame_of(level: CascadeLevel, known: u8, block: Seq<u8>) -> Seq<u8> {
    seq![level.select_command_of(), nvb_of(known)] + block.take(known_bytes(known) as int)
}

/// The first seven bytes of a select frame: command, second byte, the block
/// and its check byte.
pub open spec fn select_head_of(level: CascadeLevel, block: Seq<u8>) -> Seq<u8> {
    seq![
        level.select_command_of(),
        0x70,
        block[0],
        block[1],
        block[2],
        block[3],
        bcc_of(block),
    ]
}

/// The select frame: the seven leading bytes and their checksum.
pub open spec fn select_frame_of(level: CascadeLevel, block: Seq<u8>) -> Seq<u8> {
    let head = select_head_of(level, block);
    head + seq![crc16a_of(head).0, crc16a_of(head).1]
}

/// The frame to send for a level of which `known` bits are known: the select
/// frame once the block is complete, the anti-collision frame before.
pub open spec fn exchange_frame_of(level: CascadeLevel, known: u8, block: Seq<u8>) -> Seq<u8> {
    if known >= BLOCK_BITS {
        select_frame_of(level, block)
    } else {
        anticollision_frame_of(level, known, block)
    }
}

/// Builds the anti-collision frame for a block of which `known` bits are
/// known.
pub fn anticollision_frame(level: CascadeLevel, known: u8, block: &[u8; 4]) -> (frame: Vec<u8>)
    ensures
        frame@ == anticollision_frame_of(level, known, block@),
{
    let mut frame: Vec<u8> = Vec::new();
    frame.push(level.select_command());
    frame.push(nvb(known));
    let count: usize = if known >= BLOCK_BITS {
        4
    } else {
        ((known + 7) / 8) as usize
    };
    let mut i: usize = 0;
    while i < count
        invariant
            i <= count <= 4,
            count == known_bytes(known),
            frame@ == seq![level.select_command_of(), nvb_of(known)] + block@.take(i as int),
        decreases count - i,
    {
        frame.push(block[i]);
        proof {
            assert(block@.take(i + 1) == block@.take(i as int).push(block@[i as int]));
        }
        i = i + 1;
    }
    frame
}

/// Builds the select frame for a complete block.
pub fn select_frame(level: CascadeLevel, block: &[u8; 4]) -> (frame: Vec<u8>)
    ensures
        frame@ == select_frame_of(level, block@),
{
    let mut frame: Vec<u8> = Vec::new();
    frame.push(level.select_command());
    frame.push(0x70);
    frame.push(block[0]);
    frame.push(block[1]);
    frame.push(block[2]);
    frame.push(block[3]);
    frame.push(bcc(block));
    assert(frame@ == select_head_of(level, block@));
    let sum = crc16a(frame.as_slice());
    frame.push(sum.0);
    frame.push(sum.1);
    frame
}

/// Builds the frame to send for a level of which `known` bits are known.
pub fn exchange_frame(level: CascadeLevel, known: u8, block: &[u8; 4]) -> (frame: Vec<u8>)
    ensures
        frame@ == exchange_frame_of(level, known, block@),
        frame@.len() <= 9,
{
    if known >= BLOCK_BITS {
        select_frame(level, block)
    } else {
        anticollision_frame(level, known, block)
    }
}

/// How many bytes of the answer the engine takes from the FIFO: the select
/// acknowledge with its checksum once the block is complete; before, the
/// bytes of the block from the first one that is not fully known.
pub open spec fn reply_len_of(known: u8) -> nat {
    if known >= BLOCK_BITS {
        3
    } else {
        (4 - known / 8) as nat
    }
}

/// Computes how many bytes of the answer the engine takes from the FIFO.
pub fn reply_len(known: u8) -> (len: u8)
    ensures
        len == reply_len_of(known),
        1 <= len <= 4,
{
    if known >= BLOCK_BITS {
        3
    } else {
        4 - known / 8
    }
}

/// Byte `j` of a block after an answer has been taken in. Bytes that were
/// fully known stay. The answer's first byte meets the first byte that was
/// not: there the known low bits stay and the answer gives the rest. Each
/// further byte of the answer is the next byte of the block. Where the
/// answer ends, the block keeps what it had.
pub open spec fn merged_byte(block: Seq<u8>, known: u8, rx: Seq<u8>, j: int) -> u8 {
    let first = (known / 8) as int;
    let keep = low_mask(known % 8);
    if j < first || j - first >= rx.len() {
        block[j]
    } else if j == first {
        (block[j] & keep) | (rx[0] & !keep)
    } else {
        rx[j - first]
    }
}

/// A block after an answer to an anti-collision frame has been taken in.
pub open spec fn merged_block(block: [u8; 4], known: u8, rx: Seq<u8>) -> [u8; 4] {
    [
        merged_byte(block@, known, rx, 0),
        merged_byte(block@, known, rx, 1),
        merged_byte(block@, known, rx, 2),
        merged_byte(block@, known, rx, 3),
    ]
}

/// Takes an answer to an anti-collision frame into the block.
pub fn merge_reply(block: &[u8; 4], known: u8, rx: &[u8]) -> (merged: [u8; 4])
    ensures
        merged == merged_block(*block, known, rx@),
{
    let first: usize = (known / 8) as usize;
    let keep = low_bits(known % 8);
    let mut merged: [u8; 4] = *block;
    let mut j: usize = first;
    while j < 4 && j - first < rx.len()
        invariant
            first <= j,
            first == known / 8,
            keep == low_mask(known % 8),
            forall|k: int|
                0 <= k < 4 ==> merged@[k] == (if k < j {
                    merged_byte(block@, known, rx@, k)
                } else {
                    block@[k]
                }),
        decreases 4 - j,
    {
        let r = rx[j - first];
        if j == first {
            merged[j] = (block[j] & keep) | (r & !keep);
        } else {
            merged[j] = r;
        }
        j = j + 1;
    }
    assert(merged@ =~= merged_block(*block, known, rx@)@);
    merged
}

/// What the collision register says: its five low bits are the position of
/// the first bit on which the cards disagreed; zero is no position.
pub open spec fn collision_position_of(coll: u8) -> Result<u8, RFIDError> {
    if coll & 0x1F == 0 {
        Err(RFIDError::Collision)
    } else {
        Ok(coll & 0x1F)
    }
}

/// Reads the position of a reported collision from the collision register's
/// value. A position of zero cannot be retried from and is an error.
pub fn collision_position(coll: u8) -> (position: Result<u8, RFIDError>)
    ensures
        position == collision_position_of(coll),
        position matches Ok(p) ==> 1 <= p <= 31,
{
    let p = coll & 0x1F;
    assert(p <= 31) by (bit_vector)
        requires
            p == coll & 0x1F,
    ;
    if p == 0 {
        Err(RFIDError::Collision)
    } else {
        Ok(p)
    }
}

/// A block with the bit at `position` set: the guess with which the
/// arbitration goes on. Positions count from 1; one that names no bit of the
/// block leaves it as it is.
pub open spec fn guessed_block(block: [u8; 4], position: u8) -> [u8; 4] {
    [
        guessed_byte(block@, position, 0),
        guessed_byte(block@, position, 1),
        guessed_byte(block@, position, 2),
        guessed_byte(block@, position, 3),
    ]
}

/// Byte `j` of a block after the bit at `position` has been set.
pub open spec fn guessed_byte(block: Seq<u8>, position: u8, j: int) -> u8 {
    if 1 <= position <= BLOCK_BITS && j == (position - 1) / 8 {
        block[j] | bit_value(((position - 1) % 8) as u8)
    } else {
        block[j]
    }
}

/// Sets the bit at `position` in the block.
pub fn guess_bit(block: &[u8; 4], position: u8) -> (guessed: [u8; 4])
    ensures
        guessed == guessed_block(*block, position),
{
    let mut guessed: [u8; 4] = *block;
    if 1 <= position && position <= BLOCK_BITS {
        let at: usize = ((position - 1) / 8) as usize;
        guessed[at] = block[at] | single_bit((position - 1) % 8);
    }
    assert(guessed@ =~= guessed_block(*block, position)@);
    guessed
}

/// The verdict on the two bytes of an answer to request: they must not both
/// be zero.
pub open spec fn atqa_verdict_of(first: u8, second: u8) -> Result<[u8; 2], RFIDError> {
    if first == 0 && second == 0 {
        Err(RFIDError::InvalidResponse)
    } else {
        Ok([first, second])
    }
}

/// Judges the two bytes of an answer to request.
pub fn atqa_verdict(first: u8, second: u8) -> (verdict: Result<[u8; 2], RFIDError>)
    ensures
        verdict == atqa_verdict_of(first, second),
{
    if first == 0 && second == 0 {
        Err(RFIDError::InvalidResponse)
    } else {
        Ok([first, second])
    }
}

/// The verdict on a select acknowledge and the two checksum bytes behind it.
pub open spec fn sak_verdict_of(sak: u8, first: u8, second: u8) -> Result<u8, RFIDError> {
    if crc16a_of(seq![sak]) == (first, second) {
        Ok(sak)
    } else {
        Err(RFIDError::CrcError)
    }
}

/// Judges a select acknowledge by its checksum, computed afresh.
pub fn sak_verdict(sak: u8, first: u8, second: u8) -> (verdict: Result<u8, RFIDError>)
    ensures
        verdict == sak_verdict_of(sak, first, second),
{
    let one: [u8; 1] = [sak];
    assert(one@ == seq![sak]);
    let sum = crc16a(one.as_slice());
    if sum.0 == first && sum.1 == second {
        Ok(sak)
    } else {
        Err(RFIDError::CrcError)
    }
}

/// Whether a select acknowledge says that the identifier goes on.
pub open spec fn cascade_continues_of(sak: u8) -> bool {
    sak & SAK_CASCADE_BIT != 0
}

/// Tells whether a select acknowledge says that the identifier goes on at
/// the next cascade level.
pub fn cascade_continues(sak: u8) -> (more: bool)
    ensures
        more == cascade_continues_of(sak),
{
    sak & SAK_CASCADE_BIT != 0
}

/// The identifier's bytes after a level's block has been put in its place.
/// The last level gives four bytes. A level that the cascade goes on from
/// gives three: its block's first byte is the cascade tag and is left out.
pub open spec fn stored_block(uid: [u8; 10], level: CascadeLevel, block: [u8; 4], last: bool) -> [u8; 10] {
    [
        stored_byte(uid@, level, block@, last, 0),
        stored_byte(uid@, level, block@, last, 1),
        stored_byte(uid@, level, block@, last, 2),
        stored_byte(uid@, level, block@, last, 3),
        stored_byte(uid@, level, block@, last, 4),
        stored_byte(uid@, level, block@, last, 5),
        stored_byte(uid@, level, block@, last, 6),
        stored_byte(uid@, level, block@, last, 7),
        stored_byte(uid@, level, block@, last, 8),
        stored_byte(uid@, level, block@, last, 9),
    ]
}

/// Byte `i` of the identifier after a level's block has been put in its
/// place.
pub open spec fn stored_byte(uid: Seq<u8>, level: CascadeLevel, block: Seq<u8>, last: bool, i: int) -> u8 {
    let at = level.offset_of() as int;
    if last && at <= i < at + 4 {
        block[i - at]
    } else if !last && at <= i < at + 3 {
        block[i - at + 1]
    } else {
        uid[i]
    }
}

/// Puts a level's block in its place in the identifier.
pub fn store_block(uid: &[u8; 10], level: CascadeLevel, block: &[u8; 4], last: bool) -> (stored: [u8; 10])
    ensures
        stored == stored_block(*uid, level, *block, last),
{
    let at = level.offset();
    let mut stored: [u8; 10] = *uid;
    if last {
        stored[at] = block[0];
        stored[at + 1] = block[1];
        stored[at + 2] = block[2];
        stored[at + 3] = block[3];
    } else {
        stored[at] = block[1];
        stored[at + 1] = block[2];
        stored[at + 2] = block[3];
    }
    assert(stored@ =~= stored_block(*uid, level, *block, last)@);
    stored
}

/// The mask with the `n` lowest bits set is one less than two to the `n`.
pub proof fn lemma_low_mask_value(n: u8)
    requires
        n < 8,
    ensures
        low_mask(n) == (1u8 << n) - 1,
{
    assert(n < 8 ==> low_mask(n) == (1u8 << n) - 1) by (bit_vector);
}

/// The byte with bit `n` set is one shifted left by `n`.
pub proof fn lemma_bit_value(n: u8)
    requires
        n < 8,
    ensures
        bit_value(n) == 1u8 << n,
{
    assert(n < 8 ==> bit_value(n) == 1u8 << n) by (bit_vector);
}

/// The frame's second byte packs the count of bytes into its upper half and
/// the count of bits into its lower half.
pub proof fn lemma_nvb_packs(known: u8)
    requires
        known < BLOCK_BITS,
    ensures
        nvb_of(known) == (((2 + known / 8) as u8) << 4) | (known % 8),
        nvb_of(known) >> 4 == 2 + known / 8,
        nvb_of(known) & 0x0F == known % 8,
{
    let packed = nvb_of(known);
    assert(packed == 16 * (2 + known / 8) + known % 8);
    assert(known < 32 && packed == 16 * (2 + known / 8) + known % 8 ==> packed == (((2 + known
        / 8) as u8) << 4) | (known % 8)) by (bit_vector);
    assert(known < 32 && packed == 16 * (2 + known / 8) + known % 8 ==> packed >> 4 == 2 + known
        / 8) by (bit_vector);
    assert(known < 32 && packed == 16 * (2 + known / 8) + known % 8 ==> packed & 0x0F == known
        % 8) by (bit_vector);
}

/// The bit-framing value carries the start bit, and the count of bits of the
/// last byte in its bits 4 to 6 and in its bits 0 to 2.
pub proof fn lemma_framing_packs(known: u8)
    requires
        known < BLOCK_BITS,
    ensures
        framing_of(known) == 0x80 | ((known % 8) << 4) | (known % 8),
{
    let packed = framing_of(known);
    assert(packed == 0x80 + 16 * (known % 8) + known % 8);
    assert(known < 32 && packed == 0x80 + 16 * (known % 8) + known % 8 ==> packed == 0x80 | ((
    known % 8) << 4) | (known % 8)) by (bit_vector);
}

/// Where an answer meets known bits in one byte, the merged byte has the
/// known bits from the block and all other bits from the answer.
pub proof fn lemma_merge_keeps_known_bits(block: Seq<u8>, known: u8, rx: Seq<u8>)
    requires
        block.len() == 4,
        known < BLOCK_BITS,
        rx.len() > 0,
    ensures
        merged_byte(block, known, rx, (known / 8) as int) & low_mask(known % 8) == block[(known
            / 8) as int] & low_mask(known % 8),
        merged_byte(block, known, rx, (known / 8) as int) & !low_mask(known % 8) == rx[0]
            & !low_mask(known % 8),
{
    let b = block[(known / 8) as int];
    let r = rx[0];
    let keep = low_mask(known % 8);
    assert(((b & keep) | (r & !keep)) & keep == b & keep) by (bit_vector);
    assert(((b & keep) | (r & !keep)) & !keep == r & !keep) by (bit_vector);
}

/// The guess sets the bit at the position and leaves every other bit of the
/// block as it was.
pub proof fn lemma_guess_sets_one_bit(block: [u8; 4], position: u8)
    requires
        1 <= position <= BLOCK_BITS,
    ensures
        forall|j: int|
            0 <= j < 4 && j != (position - 1) / 8 ==> #[trigger] guessed_block(block, position)@[j]
                == block@[j],
        guessed_block(block, position)@[(position - 1) / 8] & bit_value(
            ((position - 1) % 8) as u8,
        ) == bit_value(((position - 1) % 8) as u8),
        guessed_block(block, position)@[(position - 1) / 8] & !bit_value(
            ((position - 1) % 8) as u8,
        ) == block@[(position - 1) / 8] & !bit_value(((position - 1) % 8) as u8),
{
    let b = block@[(position - 1) / 8];
    let v = bit_value(((position - 1) % 8) as u8);
    assert((b | v) & v == v) by (bit_vector);
    assert((b | v) & !v == b & !v) by (bit_vector);
}

/// An answer of four bytes or more to a frame without known bits becomes the
/// block.
pub proof fn lemma_answer_fills_block(block: [u8; 4], rx: Seq<u8>)
    requires
        rx.len() >= 4,
    ensures
        merged_block(block, 0, rx)@ == rx.take(4),
{
    let b = block@[0];
    let r = rx[0];
    assert((b & 0x00) | (r & !0x00u8) == r) by (bit_vector);
    assert(merged_block(block, 0, rx)@ =~= rx.take(4));
}

/// A block stored as the last one stands whole at its level's place, and
/// the bytes before it stay.
pub proof fn lemma_stored_last(uid: [u8; 10], level: CascadeLevel, block: [u8; 4])
    ensures
        stored_block(uid, level, block, true)@.subrange(
            level.offset_of() as int,
            level.uid_len_of() as int,
        ) == block@,
        stored_block(uid, level, block, true)@.take(level.offset_of() as int) == uid@.take(
            level.offset_of() as int,
        ),
{
    let stored = stored_block(uid, level, block, true)@;
    assert(stored.subrange(level.offset_of() as int, level.uid_len_of() as int) =~= block@);
    assert(stored.take(level.offset_of() as int) =~= uid@.take(level.offset_of() as int));
}

/// A block stored on the way to the next level leaves its first byte, the
/// cascade tag, out: its other three bytes stand at its level's place, and
/// the bytes before them stay.
pub proof fn lemma_stored_tagged(uid: [u8; 10], level: CascadeLevel, block: [u8; 4])
    ensures
        stored_block(uid, level, block, false)@.subrange(
            level.offset_of() as int,
            level.offset_of() as int + 3,
        ) == block@.subrange(1, 4),
        stored_block(uid, level, block, false)@.take(level.offset_of() as int) == uid@.take(
            level.offset_of() as int,
        ),
{
    let stored = stored_block(uid, level, block, false)@;
    assert(stored.subrange(level.offset_of() as int, level.offset_of() as int + 3)
        =~= block@.subrange(1, 4));
    assert(stored.take(level.offset_of() as int) =~= uid@.take(level.offset_of() as int));
}

} // verus!
