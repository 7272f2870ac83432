//! Host-side protocol engine for the MFRC522 contactless reader.
//!
//! The reader chip sits on a serial bus and handles the radio. This library
//! sequences its registers: it wakes a card up, resolves its identifier
//! through the bit-wise anti-collision arbitration over up to three cascade
//! levels, selects it, and tells its kind.
//!
//! The library does no input or output. An operation of [`RfidRc522`] hands
//! out one [`bus::Action`] at a time: drive chip-select, exchange two bytes,
//! wait. The driver performs it and calls [`RfidRc522::resume`] with the
//! [`bus::Event`] that came of it, until the action is
//! [`bus::Action::Finished`] and carries the [`protocol::Outcome`].
//!
//! - [`bus`]: the register access layer and the vocabulary of actions and
//!   events.
//! - [`crc`]: the CRC16/A checksum.
//! - [`picc`]: frames, blocks and verdicts of the exchange with a card.
//! - [`protocol`]: the scripts of register operations and the verdicts on
//!   what they read.
//! - [`machine`]: the engine as a state machine.
//! - [`engine`], [`rfid_rc522`]: the engine and the reader's handle.
//! - [`laws`], [`soundness`], [`termination`]: what holds of every run.

pub mod bus;
pub mod card_types;
pub mod commands;
pub mod crc;
pub mod cs_pin_wrapper;
pub mod engine;
pub mod errors;
pub mod laws;
pub mod machine;
pub mod picc;
pub mod protocol;
pub mod registers;
pub mod rfid_rc522;
pub mod soundness;
pub mod termination;

pub use rfid_rc522::RfidRc522;
