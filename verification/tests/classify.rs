use rfid_rc522::card_types::{card_type, CardType};
use rfid_rc522::errors::RFIDError;
use rfid_rc522::picc::{Card, CascadeLevel};

#[test]
fn named_acknowledges_have_their_kinds() {
    assert_eq!(card_type(0x04), CardType::Mifare1K);
    assert_eq!(card_type(0x08), CardType::Mifare4K);
    assert_eq!(card_type(0x00), CardType::MifareUltralight);
}

#[test]
fn every_other_acknowledge_is_unknown() {
    for sak in 0..=255u8 {
        let kind = card_type(sak);
        match sak {
            0x04 => assert_eq!(kind, CardType::Mifare1K),
            0x08 => assert_eq!(kind, CardType::Mifare4K),
            0x00 => assert_eq!(kind, CardType::MifareUltralight),
            _ => assert_eq!(kind, CardType::Unknown),
        }
    }
}

#[test]
fn classification_is_repeatable() {
    for sak in 0..=255u8 {
        assert_eq!(card_type(sak), card_type(sak));
    }
}

#[test]
fn card_type_names() {
    assert_eq!(CardType::Mifare1K.name(), "Mifare1K");
    assert_eq!(CardType::Mifare4K.name(), "Mifare4K");
    assert_eq!(CardType::MifareUltralight.name(), "MifareUltralight");
    assert_eq!(CardType::Unknown.name(), "Unknown");
    assert_eq!(format!("{:?}", CardType::Mifare4K), "Mifare4K");
}

#[test]
fn error_names() {
    assert_eq!(RFIDError::CommunicationError.name(), "CommunicationError");
    assert_eq!(RFIDError::Timeout.name(), "Timeout");
    assert_eq!(RFIDError::InvalidResponse.name(), "InvalidResponse");
    assert_eq!(RFIDError::CrcError.name(), "CrcError");
    assert_eq!(RFIDError::NoRoom.name(), "No room or we");
    assert_eq!(RFIDError::Collision.name(), "Collision i guess");
    assert_eq!(format!("{:?}", RFIDError::Timeout), "Timeout");
}

#[test]
fn error_texts_differ_from_each_other() {
    let all = [
        RFIDError::CommunicationError,
        RFIDError::Timeout,
        RFIDError::InvalidResponse,
        RFIDError::CrcError,
        RFIDError::NoRoom,
        RFIDError::Collision,
    ];
    for (i, a) in all.iter().enumerate() {
        for (j, b) in all.iter().enumerate() {
            assert_eq!(a.name() == b.name(), i == j);
        }
    }
}

#[test]
fn a_card_knows_its_kind_and_its_length() {
    let uid = [0x01, 0x02, 0x03, 0x04, 0x05, 0x06, 0x07, 0x08, 0x09, 0x0A];
    let short = Card { uid, levels: CascadeLevel::One, sak: 0x08 };
    assert_eq!(short.uid_len(), 4);
    assert_eq!(short.uid_bytes(), vec![0x01, 0x02, 0x03, 0x04]);
    assert_eq!(short.card_type(), CardType::Mifare4K);
    let double = Card { uid, levels: CascadeLevel::Two, sak: 0x00 };
    assert_eq!(double.uid_len(), 7);
    assert_eq!(double.uid_bytes(), vec![0x01, 0x02, 0x03, 0x04, 0x05, 0x06, 0x07]);
    assert_eq!(double.card_type(), CardType::MifareUltralight);
    let triple = Card { uid, levels: CascadeLevel::Three, sak: 0x20 };
    assert_eq!(triple.uid_len(), 10);
    assert_eq!(triple.uid_bytes(), uid.to_vec());
    assert_eq!(triple.card_type(), CardType::Unknown);
}
