//! Register addresses of the reader chip, in the form the serial bus carries
//! them: the register number shifted left by one bit.

use vstd::prelude::*;

verus! {

// Command and status
/// Starts and stops command execution.
pub const COMMAND_REG: u8 = 0x02;
/// Enables the communication interrupt requests.
pub const COM_IEN_REG: u8 = 0x04;
/// Enables the divider interrupt requests.
pub const DIV_IEN_REG: u8 = 0x06;
/// Communication interrupt request bits.
pub const COMM_IRQ_REG: u8 = 0x08;
/// Divider interrupt request bits.
pub const DIV_IRQ_REG: u8 = 0x0A;
/// Error bits of the last command.
pub const ERROR_REG: u8 = 0x0C;
/// Communication status bits.
pub const STATUS1_REG: u8 = 0x0E;
/// Receiver and transmitter status bits.
pub const STATUS2_REG: u8 = 0x10;
/// Input and output of the FIFO buffer.
pub const FIFO_DATA_REG: u8 = 0x12;
/// Number of bytes stored in the FIFO buffer.
pub const FIFO_LEVEL_REG: u8 = 0x14;
/// Level for FIFO underflow and overflow warning.
pub const WATER_LEVEL_REG: u8 = 0x16;
/// Miscellaneous control bits.
pub const CONTROL_REG: u8 = 0x18;
/// Adjustments for bit-oriented frames.
pub const BIT_FRAMING_REG: u8 = 0x1A;
/// Position of the first bit collision on the radio interface.
pub const COLL_REG: u8 = 0x1C;

// Timer and general modes
/// General modes for transmitting and receiving.
pub const MODE_REG: u8 = 0x22;
/// Timer settings.
pub const T_MODE_REG: u8 = 0x54;
/// Timer prescaler.
pub const T_PRESCALER_REG: u8 = 0x56;
/// Timer reload value, high byte.
pub const T_RELOAD_REG_H: u8 = 0x58;
/// Timer reload value, low byte.
pub const T_RELOAD_REG_L: u8 = 0x5A;

// Radio configuration
/// Transmission data rate and framing.
pub const TX_MODE_REG: u8 = 0x04;
/// Reception data rate and framing.
pub const RX_MODE_REG: u8 = 0x06;
/// Behaviour of the antenna driver pins.
pub const TX_CONTROL_REG: u8 = 0x28;
/// Transmission modulation.
pub const TX_ASK_REG: u8 = 0x2A;
/// Modulation width.
pub const MODE_WIDTH_REG: u8 = 0x48;
/// Receiver gain.
pub const RF_CFG_REG: u8 = 0x4C;
/// Conductance of the antenna driver pins.
pub const GS_N_REG: u8 = 0x4E;
/// Conductance of the driver output while not modulating.
pub const CW_GS_P_REG: u8 = 0x50;
/// Conductance of the driver output while modulating.
pub const MOD_GS_P_REG: u8 = 0x52;

// Checksum result and test
/// Checksum result, most significant byte.
pub const CRC_RESULT_REG_H: u8 = 0x42;
/// Checksum result, least significant byte.
pub const CRC_RESULT_REG_L: u8 = 0x44;
/// Chip version.
pub const VERSION_REG: u8 = 0x6E;
/// General test signal configuration.
pub const TEST_SEL1_REG: u8 = 0x62;
/// General test signal configuration and PRBS control.
pub const TEST_SEL2_REG: u8 = 0x64;
/// Enables pin output drivers for test signals.
pub const TEST_PIN_EN_REG: u8 = 0x66;
/// Values of the test bus.
pub const TEST_BUS_REG: u8 = 0x68;
/// Controls the digital self test.
pub const AUTO_TEST_REG: u8 = 0x6C;
/// Values of the two analogue-to-digital channels.
pub const TEST_ADC_REG: u8 = 0x72;

} // verus!
