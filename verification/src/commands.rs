//! Command codes: those the host gives the reader chip, and those the reader
//! sends to a card.

use vstd::prelude::*;

verus! {

// Commands of the reader chip
/// Cancels the running command.
pub const PCD_IDLE: u8 = 0x00;
/// Runs the checksum coprocessor over the FIFO contents.
pub const PCD_CALC_CRC: u8 = 0x03;
/// Transmits the FIFO contents and receives the answer.
pub const PCD_TRANSCEIVE: u8 = 0x0C;
/// Runs the card authentication.
pub const PCD_AUTH: u8 = 0x0E;
/// Resets the chip.
pub const PCD_RESETPHASE: u8 = 0x0F;

// Commands sent to a card
/// Request, type A: invites idle cards to answer.
pub const PICC_CMD_REQA: u8 = 0x26;
/// Wake-up, type A: invites idle and halted cards to answer.
pub const PICC_CMD_WUPA: u8 = 0x52;
/// Cascade tag: marks a block whose identifier continues on the next level.
pub const PICC_CMD_CT: u8 = 0x88;
/// Anti-collision and select, cascade level 1.
pub const PICC_CMD_SEL_CL1: u8 = 0x93;
/// Anti-collision and select, cascade level 2.
pub const PICC_CMD_SEL_CL2: u8 = 0x95;
/// Anti-collision and select, cascade level 3.
pub const PICC_CMD_SEL_CL3: u8 = 0x97;

} // verus!
