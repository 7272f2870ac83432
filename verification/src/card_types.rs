use vstd::prelude::*;

verus! {

/// The kind of card, as told by the select-acknowledge byte that ends the cascade.
#[derive(Clone, Copy, Debug, PartialEq, Eq, Structural)]
pub enum CardType {
    Mifare1K,
    Mifare4K,
    MifareUltralight,
    Unknown,
}

impl CardType {
    /// The variant's name as text.
    pub open spec fn name_of(self) -> Seq<char> {
        match self {
            CardType::Mifare1K => "Mifare1K"@,
            CardType::Mifare4K => "Mifare4K"@,
            CardType::MifareUltralight => "MifareUltralight"@,
            CardType::Unknown => "Unknown"@,
        }
    }

    /// The variant's name, for a log or a console.
    pub fn name(&self) -> (text: &'static str)
        ensures
            text@ == self.name_of(),
    {
        match self {
            CardType::Mifare1K => "Mifare1K",
            CardType::Mifare4K => "Mifare4K",
            CardType::MifareUltralight => "MifareUltralight",
            CardType::Unknown => "Unknown",
        }
    }
}

/// What a terminal select-acknowledge byte says about the card.
pub open spec fn card_type_of(sak: u8) -> CardType {
    if sak == 0x04 {
        CardType::Mifare1K
    } else if sak == 0x08 {
        CardType::Mifare4K
    } else if sak == 0x00 {
        CardType::MifareUltralight
    } else {
        CardType::Unknown
    }
}

/// Classifies a card by the select-acknowledge byte that ended its cascade.
pub fn card_type(sak: u8) -> (kind: CardType)
    ensures
        kind == card_type_of(sak),
{
    match sak {
        0x04 => CardType::Mifare1K,
        0x08 => CardType::Mifare4K,
        0x00 => CardType::MifareUltralight,
        _ => CardType::Unknown,
    }
}

/// Every select acknowledge has one kind: 0x04, 0x08 and 0x00 have the three
/// named ones, and every other value is unknown.
pub proof fn lemma_card_type_partition(sak: u8)
    ensures
        card_type_of(0x04) == CardType::Mifare1K,
        card_type_of(0x08) == CardType::Mifare4K,
        card_type_of(0x00) == CardType::MifareUltralight,
        card_type_of(sak) is Unknown <==> sak != 0x04 && sak != 0x08 && sak != 0x00,
        card_type_of(sak) is Mifare1K <==> sak == 0x04,
        card_type_of(sak) is Mifare4K <==> sak == 0x08,
        card_type_of(sak) is MifareUltralight <==> sak == 0x00,
{
}

} // verus!
