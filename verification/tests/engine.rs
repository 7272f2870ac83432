use std::collections::VecDeque;

use rfid_rc522::bus::{Action, Event};
use rfid_rc522::card_types::{card_type, CardType};
use rfid_rc522::crc::crc16a;
use rfid_rc522::errors::RFIDError;
use rfid_rc522::picc::{select_frame, CascadeLevel};
use rfid_rc522::protocol::Outcome;
use rfid_rc522::RfidRc522;

const COMMAND: u8 = 0x02;
const TX_MODE: u8 = 0x04;
const RX_MODE: u8 = 0x06;
const COMM_IRQ: u8 = 0x08;
const DIV_IRQ: u8 = 0x0A;
const ERROR: u8 = 0x0C;
const FIFO_DATA: u8 = 0x12;
const FIFO_LEVEL: u8 = 0x14;
const BIT_FRAMING: u8 = 0x1A;
const COLL: u8 = 0x1C;
const MODE: u8 = 0x22;
const TX_CONTROL: u8 = 0x28;
const TX_ASK: u8 = 0x2A;
const CRC_HIGH: u8 = 0x42;
const CRC_LOW: u8 = 0x44;
const MODE_WIDTH: u8 = 0x48;
const RF_CFG: u8 = 0x4C;
const T_MODE: u8 = 0x54;
const T_PRESCALER: u8 = 0x56;
const T_RELOAD_HIGH: u8 = 0x58;
const T_RELOAD_LOW: u8 = 0x5A;
const VERSION: u8 = 0x6E;

/// What the cards in the field do with a frame.
#[derive(Clone)]
enum Answer {
    Silent,
    Data(Vec<u8>),
    Collision(Vec<u8>, u8),
}

/// A reader chip with cards in its field, as far as the engine can tell.
struct Chip {
    answers: VecDeque<Answer>,
    fallback: Answer,
    frames: Vec<(Vec<u8>, u8)>,
    fifo: VecDeque<u8>,
    command: u8,
    comm_irq: u8,
    div_irq: u8,
    error: u8,
    coll: u8,
    lazy_polls: usize,
    crc_never_ready: bool,
    crc_result: (u8, u8),
    version: u8,
    tx_control: u8,
    selected: bool,
    transfers: usize,
    fail_from: Option<usize>,
    writes: Vec<(u8, u8)>,
    reads: Vec<u8>,
    waited_ms: u32,
    reset_levels: Vec<bool>,
    actions: Vec<Action>,
}

impl Chip {
    fn new(answers: Vec<Answer>) -> Chip {
        Chip {
            answers: answers.into_iter().collect(),
            fallback: Answer::Silent,
            frames: Vec::new(),
            fifo: VecDeque::new(),
            command: 0,
            comm_irq: 0,
            div_irq: 0,
            error: 0,
            coll: 0,
            lazy_polls: 0,
            crc_never_ready: false,
            crc_result: (0xA0, 0x1E),
            version: 0x92,
            tx_control: 0x80,
            selected: false,
            transfers: 0,
            fail_from: None,
            writes: Vec::new(),
            reads: Vec::new(),
            waited_ms: 0,
            reset_levels: Vec::new(),
            actions: Vec::new(),
        }
    }

    fn write(&mut self, addr: u8, value: u8) {
        self.writes.push((addr, value));
        match addr {
            COMM_IRQ => self.comm_irq = 0,
            DIV_IRQ => self.div_irq = 0,
            FIFO_LEVEL => {
                if value & 0x80 != 0 {
                    self.fifo.clear();
                }
            }
            FIFO_DATA => self.fifo.push_back(value),
            COMMAND => {
                self.command = value;
                if value == 0x03 && !self.crc_never_ready {
                    self.div_irq = 0x04;
                }
            }
            BIT_FRAMING => {
                if value & 0x80 != 0 && self.command == 0x0C {
                    let frame: Vec<u8> = self.fifo.drain(..).collect();
                    self.frames.push((frame, value));
                    self.error = 0;
                    self.coll = 0;
                    let answer = match self.answers.pop_front() {
                        Some(answer) => answer,
                        None => self.fallback.clone(),
                    };
                    match answer {
                        Answer::Silent => {}
                        Answer::Data(data) => {
                            self.fifo = data.into_iter().collect();
                            self.comm_irq = 0x30;
                        }
                        Answer::Collision(data, coll) => {
                            self.fifo = data.into_iter().collect();
                            self.error = 0x08;
                            self.coll = coll;
                            self.comm_irq = 0x30;
                        }
                    }
                }
            }
            TX_CONTROL => self.tx_control = value,
            _ => {}
        }
    }

    fn read(&mut self, addr: u8) -> u8 {
        self.reads.push(addr);
        match addr {
            COMM_IRQ | DIV_IRQ => {
                if self.lazy_polls > 0 {
                    self.lazy_polls -= 1;
                    0
                } else if addr == COMM_IRQ {
                    self.comm_irq
                } else {
                    self.div_irq
                }
            }
            ERROR => self.error,
            FIFO_LEVEL => self.fifo.len() as u8,
            FIFO_DATA => self.fifo.pop_front().unwrap_or(0),
            COLL => self.coll,
            VERSION => self.version,
            TX_CONTROL => self.tx_control,
            CRC_LOW => self.crc_result.0,
            CRC_HIGH => self.crc_result.1,
            _ => 0,
        }
    }

    fn perform(&mut self, action: Action) -> Event {
        self.actions.push(action);
        match action {
            Action::SelectChip => {
                assert!(!self.selected, "chip-select driven low twice");
                self.selected = true;
                Event::Done
            }
            Action::ReleaseChip => {
                self.selected = false;
                Event::Done
            }
            Action::Transfer { tx } => {
                assert!(self.selected, "transfer without chip-select");
                let count = self.transfers;
                self.transfers += 1;
                if let Some(first) = self.fail_from {
                    if count >= first {
                        return Event::Fault;
                    }
                }
                if tx[0] & 0x80 != 0 {
                    assert_eq!(tx[1], 0x00);
                    let value = self.read(tx[0] & 0x7F);
                    Event::Reply { rx: [0x00, value] }
                } else {
                    self.write(tx[0], tx[1]);
                    Event::Reply { rx: [0x00, 0x00] }
                }
            }
            Action::ResetLine { high } => {
                self.reset_levels.push(high);
                Event::Done
            }
            Action::DelayMs { ms } => {
                self.waited_ms += ms as u32;
                Event::Done
            }
            Action::Finished(_) | Action::Idle => unreachable!(),
        }
    }

    fn polls_of(&self, addr: u8) -> usize {
        self.reads.iter().filter(|&&a| a == addr).count()
    }
}

fn reader() -> RfidRc522<(), ()> {
    RfidRc522::new((), ())
}

fn run(reader: &mut RfidRc522<(), ()>, first: Action, chip: &mut Chip) -> Outcome {
    let mut action = first;
    let mut steps = 0u32;
    loop {
        if let Action::Finished(outcome) = action {
            assert!(!chip.selected, "finished with chip-select low");
            assert!(reader.is_idle());
            return outcome;
        }
        assert!(!reader.is_idle());
        steps += 1;
        assert!(steps < 200_000, "the operation does not end");
        let event = chip.perform(action);
        action = reader.resume(event);
    }
}

fn with_sum(sak: u8) -> Vec<u8> {
    let sum = crc16a(&[sak]);
    vec![sak, sum.0, sum.1]
}

fn uid_of(outcome: Outcome) -> Vec<u8> {
    match outcome {
        Outcome::Selected(Ok(card)) => card.uid_bytes(),
        Outcome::Serial(Some(card)) => card.uid_bytes(),
        other => panic!("no card: {:?}", other),
    }
}

// ---------------------------------------------------------------------
// The handle
// ---------------------------------------------------------------------

#[test]
fn a_new_reader_is_idle_and_keeps_its_lines() {
    let mut reader = RfidRc522::new(7u8, "line");
    assert!(reader.is_idle());
    assert_eq!(reader.spi, 7);
    assert_eq!(reader.cs, "line");
    assert_eq!(reader.resume(Event::Done), Action::Idle);
    assert_eq!(reader.resume(Event::Fault), Action::Idle);
    assert!(reader.is_idle());
    assert_eq!(reader.spi, 7);
}

#[test]
fn a_register_write_is_bracketed_by_chip_select() {
    let mut reader = reader();
    assert_eq!(reader.set_antenna_gain_max(), Action::SelectChip);
    assert!(!reader.is_idle());
    assert_eq!(reader.resume(Event::Done), Action::Transfer { tx: [0x4C, 0x70] });
    assert_eq!(reader.resume(Event::Reply { rx: [0, 0] }), Action::ReleaseChip);
    assert_eq!(reader.resume(Event::Done), Action::Finished(Outcome::GainSet));
    assert!(reader.is_idle());
}

#[test]
fn a_failed_transfer_still_releases_chip_select() {
    let mut reader = reader();
    assert_eq!(reader.request_a(), Action::SelectChip);
    assert_eq!(reader.resume(Event::Done), Action::Transfer { tx: [0x08, 0x7F] });
    assert_eq!(reader.resume(Event::Fault), Action::ReleaseChip);
    assert_eq!(
        reader.resume(Event::Done),
        Action::Finished(Outcome::Requested(Err(RFIDError::CommunicationError)))
    );
    assert!(reader.is_idle());
}

#[test]
fn a_missing_reply_counts_as_a_failure() {
    let mut reader = reader();
    assert_eq!(reader.request_a(), Action::SelectChip);
    assert_eq!(reader.resume(Event::Done), Action::Transfer { tx: [0x08, 0x7F] });
    assert_eq!(reader.resume(Event::Done), Action::ReleaseChip);
    assert_eq!(
        reader.resume(Event::Done),
        Action::Finished(Outcome::Requested(Err(RFIDError::CommunicationError)))
    );
}

// ---------------------------------------------------------------------
// Initialisation
// ---------------------------------------------------------------------

#[test]
fn init_resets_and_configures() {
    let mut reader = reader();
    let mut chip = Chip::new(vec![]);
    chip.tx_control = 0x80;
    let first = reader.init();
    assert_eq!(first, Action::ReleaseChip);
    let outcome = run(&mut reader, first, &mut chip);
    assert_eq!(outcome, Outcome::Initialized { version: 0x92 });
    assert_eq!(
        &chip.actions[..8],
        &[
            Action::ReleaseChip,
            Action::ResetLine { high: false },
            Action::DelayMs { ms: 50 },
            Action::ResetLine { high: true },
            Action::DelayMs { ms: 50 },
            Action::SelectChip,
            Action::Transfer { tx: [COMMAND, 0x0F] },
            Action::ReleaseChip,
        ]
    );
    assert_eq!(chip.actions[8], Action::DelayMs { ms: 50 });
    assert_eq!(chip.waited_ms, 150);
    assert_eq!(chip.reset_levels, vec![false, true]);
    assert_eq!(
        chip.writes,
        vec![
            (COMMAND, 0x0F),
            (TX_MODE, 0x00),
            (RX_MODE, 0x00),
            (MODE_WIDTH, 0x26),
            (T_MODE, 0x80),
            (T_PRESCALER, 0xA9),
            (T_RELOAD_HIGH, 0x03),
            (T_RELOAD_LOW, 0xE8),
            (TX_ASK, 0x40),
            (MODE, 0x3D),
            (TX_CONTROL, 0x83),
            (RF_CFG, 0x70),
        ]
    );
    assert_eq!(chip.reads, vec![VERSION, TX_CONTROL]);
}

#[test]
fn init_leaves_a_running_antenna_alone() {
    let mut reader = reader();
    let mut chip = Chip::new(vec![]);
    chip.tx_control = 0x83;
    chip.version = 0x91;
    let first = reader.init();
    let outcome = run(&mut reader, first, &mut chip);
    assert_eq!(outcome, Outcome::Initialized { version: 0x91 });
    assert!(!chip.writes.iter().any(|&(addr, _)| addr == TX_CONTROL));
    assert_eq!(chip.writes.last(), Some(&(RF_CFG, 0x70)));
}

#[test]
fn init_switches_on_a_half_running_antenna() {
    let mut reader = reader();
    let mut chip = Chip::new(vec![]);
    chip.tx_control = 0x81;
    let first = reader.init();
    run(&mut reader, first, &mut chip);
    assert!(chip.writes.contains(&(TX_CONTROL, 0x83)));
}

#[test]
fn init_goes_on_when_the_transport_fails() {
    let mut reader = reader();
    let mut chip = Chip::new(vec![]);
    chip.fail_from = Some(0);
    let first = reader.init();
    let outcome = run(&mut reader, first, &mut chip);
    assert_eq!(outcome, Outcome::Initialized { version: 0 });
    // Every exchange was tried: the reset, nine settings, two reads, and the
    // two writes that a transmit control register of zero calls for.
    assert_eq!(chip.transfers, 14);
    assert_eq!(chip.waited_ms, 150);
}

#[test]
fn the_gain_is_set_with_one_write() {
    let mut reader = reader();
    let mut chip = Chip::new(vec![]);
    let first = reader.set_antenna_gain_max();
    assert_eq!(run(&mut reader, first, &mut chip), Outcome::GainSet);
    assert_eq!(chip.writes, vec![(RF_CFG, 0x70)]);
    assert_eq!(chip.reads, vec![]);
}

#[test]
fn the_gain_setting_has_no_error_to_report() {
    let mut reader = reader();
    let mut chip = Chip::new(vec![]);
    chip.fail_from = Some(0);
    let first = reader.set_antenna_gain_max();
    assert_eq!(run(&mut reader, first, &mut chip), Outcome::GainSet);
}

// ---------------------------------------------------------------------
// The checksum coprocessor
// ---------------------------------------------------------------------

#[test]
fn the_chip_computes_a_checksum() {
    let mut reader = reader();
    let mut chip = Chip::new(vec![]);
    chip.crc_result = (0xA0, 0x1E);
    let first = reader.pcd_calculate_crc(&[0x00, 0x00]);
    let outcome = run(&mut reader, first, &mut chip);
    assert_eq!(outcome, Outcome::Crc(Ok([0xA0, 0x1E])));
    assert_eq!(
        chip.writes,
        vec![
            (COMMAND, 0x00),
            (DIV_IRQ, 0x04),
            (FIFO_LEVEL, 0x80),
            (FIFO_DATA, 0x00),
            (FIFO_DATA, 0x00),
            (COMMAND, 0x03),
        ]
    );
    assert_eq!(chip.reads, vec![DIV_IRQ, CRC_LOW, CRC_HIGH]);
    assert_eq!(chip.waited_ms, 0);
}

#[test]
fn the_checksum_of_no_data() {
    let mut reader = reader();
    let mut chip = Chip::new(vec![]);
    chip.crc_result = (0x63, 0x63);
    let first = reader.pcd_calculate_crc(&[]);
    assert_eq!(run(&mut reader, first, &mut chip), Outcome::Crc(Ok([0x63, 0x63])));
    assert_eq!(chip.writes.len(), 4);
}

#[test]
fn the_checksum_is_waited_for() {
    let mut reader = reader();
    let mut chip = Chip::new(vec![]);
    chip.lazy_polls = 99;
    let first = reader.pcd_calculate_crc(&[0x01]);
    assert_eq!(run(&mut reader, first, &mut chip), Outcome::Crc(Ok([0xA0, 0x1E])));
    assert_eq!(chip.polls_of(DIV_IRQ), 100);
    assert_eq!(chip.waited_ms, 99);
}

#[test]
fn the_checksum_times_out() {
    let mut reader = reader();
    let mut chip = Chip::new(vec![]);
    chip.crc_never_ready = true;
    let first = reader.pcd_calculate_crc(&[0x01, 0x02, 0x03]);
    assert_eq!(run(&mut reader, first, &mut chip), Outcome::Crc(Err(RFIDError::Timeout)));
    assert_eq!(chip.polls_of(DIV_IRQ), 100);
    assert_eq!(chip.waited_ms, 99);
    assert_eq!(chip.polls_of(CRC_LOW), 0);
}

#[test]
fn the_checksum_fails_with_the_transport() {
    let mut reader = reader();
    let mut chip = Chip::new(vec![]);
    chip.fail_from = Some(2);
    let first = reader.pcd_calculate_crc(&[0x01, 0x02, 0x03]);
    assert_eq!(
        run(&mut reader, first, &mut chip),
        Outcome::Crc(Err(RFIDError::CommunicationError))
    );
    assert_eq!(chip.transfers, 3);
}

// ---------------------------------------------------------------------
// Probes
// ---------------------------------------------------------------------

#[test]
fn a_card_in_the_field_is_present() {
    let mut reader = reader();
    let mut chip = Chip::new(vec![Answer::Data(vec![0x04, 0x00])]);
    let first = reader.is_new_card_present();
    assert_eq!(run(&mut reader, first, &mut chip), Outcome::Present(Ok(true)));
    assert_eq!(chip.frames, vec![(vec![0x26], 0x87)]);
    assert_eq!(
        chip.writes,
        vec![
            (TX_MODE, 0x00),
            (RX_MODE, 0x00),
            (MODE_WIDTH, 0x26),
            (COMM_IRQ, 0x7F),
            (FIFO_LEVEL, 0x80),
            (FIFO_DATA, 0x26),
            (COMMAND, 0x0C),
            (BIT_FRAMING, 0x87),
        ]
    );
    assert_eq!(chip.reads, vec![COMM_IRQ, FIFO_LEVEL, FIFO_DATA, FIFO_DATA]);
}

#[test]
fn an_empty_field_is_no_error() {
    let mut reader = reader();
    let mut chip = Chip::new(vec![Answer::Silent]);
    let first = reader.is_new_card_present();
    assert_eq!(run(&mut reader, first, &mut chip), Outcome::Present(Ok(false)));
    assert_eq!(chip.polls_of(COMM_IRQ), 100);
    assert_eq!(chip.waited_ms, 99);
}

#[test]
fn a_late_answer_within_the_bound_counts() {
    let mut reader = reader();
    let mut chip = Chip::new(vec![Answer::Data(vec![0x04, 0x00])]);
    chip.lazy_polls = 99;
    let first = reader.is_new_card_present();
    assert_eq!(run(&mut reader, first, &mut chip), Outcome::Present(Ok(true)));
    assert_eq!(chip.polls_of(COMM_IRQ), 100);
}

#[test]
fn an_answer_beyond_the_bound_comes_too_late() {
    let mut reader = reader();
    let mut chip = Chip::new(vec![Answer::Data(vec![0x04, 0x00])]);
    chip.lazy_polls = 100;
    let first = reader.is_new_card_present();
    assert_eq!(run(&mut reader, first, &mut chip), Outcome::Present(Ok(false)));
    assert_eq!(chip.polls_of(COMM_IRQ), 100);
}

#[test]
fn presence_fails_only_with_the_transport() {
    for fail_from in 0..12 {
        let mut reader = reader();
        let mut chip = Chip::new(vec![Answer::Data(vec![0x04, 0x00])]);
        chip.fail_from = Some(fail_from);
        let first = reader.is_new_card_present();
        assert_eq!(
            run(&mut reader, first, &mut chip),
            Outcome::Present(Err(RFIDError::CommunicationError))
        );
        assert_eq!(chip.transfers, fail_from + 1);
    }
}

#[test]
fn a_malformed_answer_is_no_card() {
    let mut reader = reader();
    let mut chip = Chip::new(vec![Answer::Data(vec![0x00, 0x00])]);
    let first = reader.is_new_card_present();
    assert_eq!(run(&mut reader, first, &mut chip), Outcome::Present(Ok(false)));

    let mut chip = Chip::new(vec![Answer::Data(vec![0x04])]);
    let first = reader.is_new_card_present();
    assert_eq!(run(&mut reader, first, &mut chip), Outcome::Present(Ok(false)));
    assert_eq!(chip.polls_of(FIFO_DATA), 0);
}

#[test]
fn a_wake_up_brings_the_answer_to_request() {
    let mut reader = reader();
    let mut chip = Chip::new(vec![Answer::Data(vec![0x44, 0x00])]);
    let first = reader.picc_reqa_or_wupa(0x52, 2);
    assert_eq!(run(&mut reader, first, &mut chip), Outcome::Atqa(Ok([0x44, 0x00])));
    assert_eq!(chip.frames, vec![(vec![0x52], 0x87)]);
    assert_eq!(chip.writes[0], (COMM_IRQ, 0x7F));
    assert_eq!(chip.writes[1], (FIFO_LEVEL, 0x80));
}

#[test]
fn a_longer_answer_to_request_is_cut() {
    let mut reader = reader();
    let mut chip = Chip::new(vec![Answer::Data(vec![0x00, 0x44, 0x99])]);
    let first = reader.picc_reqa_or_wupa(0x26, 64);
    assert_eq!(run(&mut reader, first, &mut chip), Outcome::Atqa(Ok([0x00, 0x44])));
}

#[test]
fn a_request_needs_room_for_the_answer() {
    let mut reader = reader();
    assert_eq!(
        reader.picc_reqa_or_wupa(0x26, 1),
        Action::Finished(Outcome::Atqa(Err(RFIDError::NoRoom)))
    );
    assert!(reader.is_idle());
    assert_eq!(
        reader.picc_reqa_or_wupa(0x26, 0),
        Action::Finished(Outcome::Atqa(Err(RFIDError::NoRoom)))
    );
    assert!(reader.is_idle());
}

#[test]
fn a_request_without_answer_times_out() {
    let mut reader = reader();
    let mut chip = Chip::new(vec![Answer::Silent]);
    let first = reader.picc_reqa_or_wupa(0x26, 2);
    assert_eq!(run(&mut reader, first, &mut chip), Outcome::Atqa(Err(RFIDError::Timeout)));
}

#[test]
fn a_zero_answer_to_request_is_invalid() {
    let mut reader = reader();
    let mut chip = Chip::new(vec![Answer::Data(vec![0x00, 0x00])]);
    let first = reader.picc_reqa_or_wupa(0x26, 2);
    assert_eq!(
        run(&mut reader, first, &mut chip),
        Outcome::Atqa(Err(RFIDError::InvalidResponse))
    );
}

#[test]
fn a_short_answer_to_request_is_invalid() {
    let mut reader = reader();
    let mut chip = Chip::new(vec![Answer::Data(vec![0x04])]);
    let first = reader.picc_reqa_or_wupa(0x26, 2);
    assert_eq!(
        run(&mut reader, first, &mut chip),
        Outcome::Atqa(Err(RFIDError::InvalidResponse))
    );
    let mut chip = Chip::new(vec![Answer::Data(vec![])]);
    let first = reader.picc_reqa_or_wupa(0x26, 2);
    assert_eq!(
        run(&mut reader, first, &mut chip),
        Outcome::Atqa(Err(RFIDError::InvalidResponse))
    );
}

#[test]
fn a_request_passes_errors_on() {
    let mut reader = reader();
    let mut chip = Chip::new(vec![Answer::Data(vec![0x04, 0x00])]);
    let first = reader.request_a();
    assert_eq!(run(&mut reader, first, &mut chip), Outcome::Requested(Ok(true)));
    assert_eq!(chip.frames, vec![(vec![0x26], 0x87)]);

    let mut chip = Chip::new(vec![Answer::Silent]);
    let first = reader.request_a();
    assert_eq!(run(&mut reader, first, &mut chip), Outcome::Requested(Err(RFIDError::Timeout)));

    let mut chip = Chip::new(vec![Answer::Data(vec![0x00, 0x00])]);
    let first = reader.request_a();
    assert_eq!(
        run(&mut reader, first, &mut chip),
        Outcome::Requested(Err(RFIDError::InvalidResponse))
    );
}

#[test]
fn detection_brings_the_answer_to_request() {
    let mut reader = reader();
    let mut chip = Chip::new(vec![Answer::Data(vec![0x04, 0x00])]);
    let first = reader.detect_card_type();
    assert_eq!(run(&mut reader, first, &mut chip), Outcome::Detected(Ok(Some([0x04, 0x00]))));
    assert_eq!(chip.frames, vec![(vec![0x26], 0x87)]);
}

#[test]
fn detection_takes_a_blank_first_byte_as_no_card() {
    let mut reader = reader();
    let mut chip = Chip::new(vec![Answer::Data(vec![0x00, 0x04])]);
    let first = reader.detect_card_type();
    assert_eq!(run(&mut reader, first, &mut chip), Outcome::Detected(Ok(None)));

    let mut chip = Chip::new(vec![Answer::Data(vec![0xFF, 0x04])]);
    let first = reader.detect_card_type();
    assert_eq!(run(&mut reader, first, &mut chip), Outcome::Detected(Ok(None)));
}

#[test]
fn detection_of_nothing_is_no_error() {
    let mut reader = reader();
    let mut chip = Chip::new(vec![Answer::Silent]);
    let first = reader.detect_card_type();
    assert_eq!(run(&mut reader, first, &mut chip), Outcome::Detected(Ok(None)));

    let mut chip = Chip::new(vec![Answer::Data(vec![0x04])]);
    let first = reader.detect_card_type();
    assert_eq!(run(&mut reader, first, &mut chip), Outcome::Detected(Ok(None)));
}

#[test]
fn detection_fails_with_the_transport() {
    let mut reader = reader();
    let mut chip = Chip::new(vec![Answer::Data(vec![0x04, 0x00])]);
    chip.fail_from = Some(5);
    let first = reader.detect_card_type();
    assert_eq!(
        run(&mut reader, first, &mut chip),
        Outcome::Detected(Err(RFIDError::CommunicationError))
    );
}

// ---------------------------------------------------------------------
// Activation
// ---------------------------------------------------------------------

#[test]
fn a_single_card_with_a_short_identifier() {
    let mut reader = reader();
    let mut chip = Chip::new(vec![
        Answer::Data(vec![0x04, 0x00]),
        Answer::Data(vec![0xDE, 0xAD, 0xBE, 0xEF, 0x22]),
        Answer::Data(vec![0x08, 0xBE, 0xCD]),
    ]);
    let first = reader.is_new_card_present();
    assert_eq!(run(&mut reader, first, &mut chip), Outcome::Present(Ok(true)));
    let first = reader.read_card_serial();
    let outcome = run(&mut reader, first, &mut chip);
    let card = match outcome {
        Outcome::Serial(Some(card)) => card,
        other => panic!("no card: {:?}", other),
    };
    assert_eq!(card.uid_len(), 4);
    assert_eq!(card.uid_bytes(), vec![0xDE, 0xAD, 0xBE, 0xEF]);
    assert_eq!(card.uid, [0xDE, 0xAD, 0xBE, 0xEF, 0, 0, 0, 0, 0, 0]);
    assert_eq!(card.levels, CascadeLevel::One);
    assert_eq!(card.sak, 0x08);
    assert_eq!(card.card_type(), CardType::Mifare4K);
    assert_eq!(card_type(card.sak), CardType::Mifare4K);
    assert_eq!(
        chip.frames,
        vec![
            (vec![0x26], 0x87),
            (vec![0x93, 0x20], 0x80),
            (vec![0x93, 0x70, 0xDE, 0xAD, 0xBE, 0xEF, 0x22, 0x31, 0x14], 0x80),
        ]
    );
}

#[test]
fn each_exchange_clears_flags_and_fifo_first() {
    let mut reader = reader();
    let mut chip = Chip::new(vec![
        Answer::Data(vec![0xDE, 0xAD, 0xBE, 0xEF, 0x22]),
        Answer::Data(vec![0x08, 0xBE, 0xCD]),
    ]);
    let first = reader.select_card([0; 10], 0);
    run(&mut reader, first, &mut chip);
    assert_eq!(
        chip.writes,
        vec![
            (COMM_IRQ, 0x7F),
            (FIFO_LEVEL, 0x80),
            (FIFO_DATA, 0x93),
            (FIFO_DATA, 0x20),
            (COMMAND, 0x0C),
            (BIT_FRAMING, 0x80),
            (COMM_IRQ, 0x7F),
            (FIFO_LEVEL, 0x80),
            (FIFO_DATA, 0x93),
            (FIFO_DATA, 0x70),
            (FIFO_DATA, 0xDE),
            (FIFO_DATA, 0xAD),
            (FIFO_DATA, 0xBE),
            (FIFO_DATA, 0xEF),
            (FIFO_DATA, 0x22),
            (FIFO_DATA, 0x31),
            (FIFO_DATA, 0x14),
            (COMMAND, 0x0C),
            (BIT_FRAMING, 0x80),
        ]
    );
    assert_eq!(
        chip.reads,
        vec![
            COMM_IRQ, ERROR, FIFO_LEVEL, FIFO_DATA, FIFO_DATA, FIFO_DATA, FIFO_DATA, COMM_IRQ,
            ERROR, FIFO_LEVEL, FIFO_DATA, FIFO_DATA, FIFO_DATA,
        ]
    );
}

#[test]
fn a_cascade_to_the_second_level() {
    let mut reader = reader();
    let mut chip = Chip::new(vec![
        Answer::Data(vec![0x88, 0x04, 0x11, 0x22, 0xBF]),
        Answer::Data(vec![0x04, 0x7F, 0x41]),
        Answer::Data(vec![0x33, 0x44, 0x55, 0x66, 0x44]),
        Answer::Data(vec![0x00, 0x3F, 0xC5]),
    ]);
    let first = reader.select_card([0; 10], 0);
    let outcome = run(&mut reader, first, &mut chip);
    let card = match outcome {
        Outcome::Selected(Ok(card)) => card,
        other => panic!("no card: {:?}", other),
    };
    assert_eq!(card.uid_len(), 7);
    assert_eq!(card.uid_bytes(), vec![0x04, 0x11, 0x22, 0x33, 0x44, 0x55, 0x66]);
    assert!(!card.uid_bytes().contains(&0x88));
    assert_eq!(card.levels, CascadeLevel::Two);
    assert_eq!(card.sak, 0x00);
    assert_eq!(card.card_type(), CardType::MifareUltralight);
    assert_eq!(
        chip.frames,
        vec![
            (vec![0x93, 0x20], 0x80),
            (vec![0x93, 0x70, 0x88, 0x04, 0x11, 0x22, 0xBF, 0x53, 0x13], 0x80),
            (vec![0x95, 0x20], 0x80),
            (vec![0x95, 0x70, 0x33, 0x44, 0x55, 0x66, 0x44, 0x00, 0x7A], 0x80),
        ]
    );
}

#[test]
fn a_cascade_to_the_third_level() {
    let mut reader = reader();
    let mut chip = Chip::new(vec![
        Answer::Data(vec![0x88, 0x01, 0x02, 0x03, 0x88]),
        Answer::Data(with_sum(0x04)),
        Answer::Data(vec![0x88, 0x04, 0x05, 0x06, 0x8F]),
        Answer::Data(with_sum(0x24)),
        Answer::Data(vec![0x07, 0x08, 0x09, 0x0A, 0x0C]),
        Answer::Data(with_sum(0x20)),
    ]);
    let first = reader.read_card_serial();
    let outcome = run(&mut reader, first, &mut chip);
    assert_eq!(uid_of(outcome), vec![1, 2, 3, 4, 5, 6, 7, 8, 9, 10]);
    match outcome {
        Outcome::Serial(Some(card)) => {
            assert_eq!(card.uid_len(), 10);
            assert_eq!(card.levels, CascadeLevel::Three);
            assert_eq!(card.sak, 0x20);
            assert_eq!(card.card_type(), CardType::Unknown);
        }
        other => panic!("no card: {:?}", other),
    }
    assert_eq!(chip.frames.len(), 6);
    assert_eq!(chip.frames[4], (vec![0x97, 0x20], 0x80));
    assert_eq!(chip.frames[5].0, select_frame(CascadeLevel::Three, &[7, 8, 9, 10]));
}

#[test]
fn there_is_no_fourth_level() {
    let mut reader = reader();
    let mut chip = Chip::new(vec![
        Answer::Data(vec![0x88, 0x01, 0x02, 0x03, 0x88]),
        Answer::Data(with_sum(0x04)),
        Answer::Data(vec![0x88, 0x04, 0x05, 0x06, 0x8F]),
        Answer::Data(with_sum(0x04)),
        Answer::Data(vec![0x07, 0x08, 0x09, 0x0A, 0x0C]),
        Answer::Data(with_sum(0x04)),
    ]);
    let first = reader.select_card([0; 10], 0);
    assert_eq!(
        run(&mut reader, first, &mut chip),
        Outcome::Selected(Err(RFIDError::InvalidResponse))
    );
    assert_eq!(chip.frames.len(), 6);
}

#[test]
fn a_collision_is_narrowed_down_once() {
    let mut reader = reader();
    let mut chip = Chip::new(vec![
        Answer::Collision(vec![0x0E], 0x05),
        Answer::Data(vec![0xC0, 0xAD, 0xBE, 0xEF, 0x22]),
        Answer::Data(vec![0x08, 0xBE, 0xCD]),
    ]);
    let first = reader.select_card([0; 10], 0);
    let outcome = run(&mut reader, first, &mut chip);
    assert_eq!(uid_of(outcome), vec![0xDE, 0xAD, 0xBE, 0xEF]);
    assert_eq!(
        chip.frames,
        vec![
            (vec![0x93, 0x20], 0x80),
            (vec![0x93, 0x25, 0x1E], 0xD5),
            (vec![0x93, 0x70, 0xDE, 0xAD, 0xBE, 0xEF, 0x22, 0x31, 0x14], 0x80),
        ]
    );
    assert_eq!(chip.polls_of(COLL), 1);
}

#[test]
fn a_collision_beyond_the_first_byte() {
    let mut reader = reader();
    // The cards agree on twelve bits and collide on the thirteenth.
    let mut chip = Chip::new(vec![
        Answer::Collision(vec![0xDE, 0x0D], 0x0D),
        Answer::Data(vec![0xA0, 0xBE, 0xEF, 0x22]),
        Answer::Data(with_sum(0x08)),
    ]);
    let first = reader.select_card([0; 10], 0);
    let outcome = run(&mut reader, first, &mut chip);
    // The guess sets bit 12; the answer brings the upper three bits.
    assert_eq!(uid_of(outcome), vec![0xDE, 0xBD, 0xBE, 0xEF]);
    assert_eq!(chip.frames[1], (vec![0x93, 0x35, 0xDE, 0x1D], 0xD5));
}

#[test]
fn a_collision_at_position_zero_is_an_error() {
    let mut reader = reader();
    let mut chip = Chip::new(vec![Answer::Collision(vec![0x0E], 0x00)]);
    let first = reader.select_card([0; 10], 0);
    assert_eq!(run(&mut reader, first, &mut chip), Outcome::Selected(Err(RFIDError::Collision)));
    assert_eq!(chip.frames.len(), 1);

    let mut chip = Chip::new(vec![Answer::Collision(vec![], 0x20)]);
    let first = reader.select_card([0; 10], 0);
    assert_eq!(run(&mut reader, first, &mut chip), Outcome::Selected(Err(RFIDError::Collision)));

    let mut chip = Chip::new(vec![Answer::Collision(vec![], 0x00)]);
    let first = reader.read_card_serial();
    assert_eq!(run(&mut reader, first, &mut chip), Outcome::Serial(None));
}

#[test]
fn endless_collisions_are_given_up() {
    let mut reader = reader();
    let mut chip = Chip::new(vec![]);
    chip.fallback = Answer::Collision(vec![0x0E], 0x05);
    let first = reader.select_card([0; 10], 0);
    assert_eq!(run(&mut reader, first, &mut chip), Outcome::Selected(Err(RFIDError::Timeout)));
    // The first frame, and one for each of the 32 collisions narrowed down.
    assert_eq!(chip.frames.len(), 33);
    assert_eq!(chip.polls_of(COLL), 33);
}

#[test]
fn a_collision_on_the_select_is_narrowed_down_too() {
    let mut reader = reader();
    let mut chip = Chip::new(vec![
        Answer::Data(vec![0xDE, 0xAD, 0xBE, 0xEF, 0x22]),
        Answer::Collision(vec![0x08], 0x11),
        Answer::Data(vec![0xBE, 0xEF, 0x22]),
        Answer::Data(with_sum(0x08)),
    ]);
    let first = reader.select_card([0; 10], 0);
    let outcome = run(&mut reader, first, &mut chip);
    // Position 17 is bit 0 of the third byte, which the guess sets.
    assert_eq!(chip.frames[2], (vec![0x93, 0x41, 0xDE, 0xAD, 0xBF], 0x91));
    assert_eq!(uid_of(outcome), vec![0xDE, 0xAD, 0xBF, 0xEF]);
    assert_eq!(chip.polls_of(FIFO_DATA), 4 + 2 + 3);
}

#[test]
fn a_wrong_checksum_ends_the_activation() {
    let mut reader = reader();
    let mut chip = Chip::new(vec![
        Answer::Data(vec![0xDE, 0xAD, 0xBE, 0xEF, 0x22]),
        Answer::Data(vec![0x08, 0xBE, 0xCC]),
    ]);
    let first = reader.select_card([0; 10], 0);
    assert_eq!(run(&mut reader, first, &mut chip), Outcome::Selected(Err(RFIDError::CrcError)));

    let mut chip = Chip::new(vec![
        Answer::Data(vec![0xDE, 0xAD, 0xBE, 0xEF, 0x22]),
        Answer::Data(vec![0x08, 0xBE, 0xCC]),
    ]);
    let first = reader.read_card_serial();
    assert_eq!(run(&mut reader, first, &mut chip), Outcome::Serial(None));
}

#[test]
fn a_short_answer_is_invalid() {
    let mut reader = reader();
    let mut chip = Chip::new(vec![Answer::Data(vec![0xDE, 0xAD, 0xBE])]);
    let first = reader.select_card([0; 10], 0);
    assert_eq!(
        run(&mut reader, first, &mut chip),
        Outcome::Selected(Err(RFIDError::InvalidResponse))
    );
    assert_eq!(chip.polls_of(FIFO_DATA), 0);

    let mut chip = Chip::new(vec![Answer::Data(vec![])]);
    let first = reader.select_card([0; 10], 0);
    assert_eq!(
        run(&mut reader, first, &mut chip),
        Outcome::Selected(Err(RFIDError::InvalidResponse))
    );

    let mut chip = Chip::new(vec![
        Answer::Data(vec![0xDE, 0xAD, 0xBE, 0xEF, 0x22]),
        Answer::Data(vec![0x08, 0xBE]),
    ]);
    let first = reader.select_card([0; 10], 0);
    assert_eq!(
        run(&mut reader, first, &mut chip),
        Outcome::Selected(Err(RFIDError::InvalidResponse))
    );
}

#[test]
fn an_activation_without_card_times_out() {
    let mut reader = reader();
    let mut chip = Chip::new(vec![Answer::Silent]);
    let first = reader.select_card([0; 10], 0);
    assert_eq!(run(&mut reader, first, &mut chip), Outcome::Selected(Err(RFIDError::Timeout)));
    assert_eq!(chip.polls_of(COMM_IRQ), 100);
    assert_eq!(chip.waited_ms, 99);
    assert_eq!(chip.polls_of(ERROR), 0);

    let mut chip = Chip::new(vec![Answer::Silent]);
    let first = reader.read_card_serial();
    assert_eq!(run(&mut reader, first, &mut chip), Outcome::Serial(None));
}

#[test]
fn an_activation_fails_with_the_transport() {
    for fail_from in [0usize, 3, 6, 7, 8, 12, 20, 25] {
        let mut reader = reader();
        let mut chip = Chip::new(vec![
            Answer::Data(vec![0xDE, 0xAD, 0xBE, 0xEF, 0x22]),
            Answer::Data(vec![0x08, 0xBE, 0xCD]),
        ]);
        chip.fail_from = Some(fail_from);
        let first = reader.select_card([0; 10], 0);
        assert_eq!(
            run(&mut reader, first, &mut chip),
            Outcome::Selected(Err(RFIDError::CommunicationError))
        );
        assert_eq!(chip.transfers, fail_from + 1);
    }
}

#[test]
fn a_known_identifier_is_selected_at_once() {
    let mut reader = reader();
    let mut chip = Chip::new(vec![Answer::Data(vec![0x08, 0xBE, 0xCD])]);
    let first = reader.select_card([0xDE, 0xAD, 0xBE, 0xEF, 9, 9, 9, 9, 9, 9], 32);
    let outcome = run(&mut reader, first, &mut chip);
    assert_eq!(uid_of(outcome), vec![0xDE, 0xAD, 0xBE, 0xEF]);
    assert_eq!(
        chip.frames,
        vec![(vec![0x93, 0x70, 0xDE, 0xAD, 0xBE, 0xEF, 0x22, 0x31, 0x14], 0x80)]
    );

    let mut chip = Chip::new(vec![Answer::Data(vec![0x08, 0xBE, 0xCD])]);
    let first = reader.select_card([0xDE, 0xAD, 0xBE, 0xEF, 0, 0, 0, 0, 0, 0], 80);
    let outcome = run(&mut reader, first, &mut chip);
    assert_eq!(uid_of(outcome), vec![0xDE, 0xAD, 0xBE, 0xEF]);
    assert_eq!(chip.frames.len(), 1);
}

#[test]
fn known_bits_go_out_with_the_first_frame() {
    let mut reader = reader();
    let mut chip = Chip::new(vec![
        Answer::Data(vec![0xA0, 0xBE, 0xEF, 0x22]),
        Answer::Data(vec![0x08, 0xBE, 0xCD]),
    ]);
    let first = reader.select_card([0xDE, 0x0D, 0, 0, 0, 0, 0, 0, 0, 0], 12);
    let outcome = run(&mut reader, first, &mut chip);
    assert_eq!(uid_of(outcome), vec![0xDE, 0xAD, 0xBE, 0xEF]);
    assert_eq!(chip.frames[0], (vec![0x93, 0x34, 0xDE, 0x0D], 0xC4));
}

#[test]
fn the_reader_serves_one_operation_after_the_other() {
    let mut reader = reader();
    let mut chip = Chip::new(vec![
        Answer::Silent,
        Answer::Data(vec![0x04, 0x00]),
        Answer::Data(vec![0xDE, 0xAD, 0xBE, 0xEF, 0x22]),
        Answer::Data(vec![0x08, 0xBE, 0xCD]),
    ]);
    let first = reader.init();
    assert_eq!(run(&mut reader, first, &mut chip), Outcome::Initialized { version: 0x92 });
    let first = reader.is_new_card_present();
    assert_eq!(run(&mut reader, first, &mut chip), Outcome::Present(Ok(false)));
    let first = reader.is_new_card_present();
    assert_eq!(run(&mut reader, first, &mut chip), Outcome::Present(Ok(true)));
    let first = reader.read_card_serial();
    assert_eq!(uid_of(run(&mut reader, first, &mut chip)), vec![0xDE, 0xAD, 0xBE, 0xEF]);
    assert_eq!(reader.resume(Event::Done), Action::Idle);
}
