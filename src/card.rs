use vstd::prelude::*;

verus! {

/// Function code that sets the buzzer.
pub const FN_CODE_SET_BUZZER: u8 = 0x05;

/// Function code that switches the reader's own UID reports on or off.
pub const FN_CODE_UID_REPORT_SET: u8 = 0x07;

/// Payload of `FN_CODE_UID_REPORT_SET` that switches UID reports off.
pub const UID_REPORT_OFF: u8 = 0xAA;

/// Payload of `FN_CODE_UID_REPORT_SET` that switches UID reports on.
pub const UID_REPORT_ON: u8 = 0x55;

/// Command: write bytes into the card's pages.
pub const CMD_WRITE_DATA: u8 = 0x01;

/// Command: read bytes from the card's pages.
pub const CMD_READ_DATA: u8 = 0x02;

/// Command: set the buzzer.
pub const CMD_SET_BUZZER: u8 = 0x03;

/// Command: switch the reader's UID reports off.
pub const CMD_CLOSE_UID_REPORT: u8 = 0x04;

/// Command: switch the reader's UID reports on.
pub const CMD_OPEN_UID_REPORT: u8 = 0x05;

/// The card family the reader talks to; each has its own function codes.
#[derive(Debug, Clone, Copy, PartialEq, Eq, Structural)]
pub enum CardType {
    Mifare,
    UltraLight,
    CPU,
    ISO14443B,
    ISO15693,
    Other,
}

/// Function code that reads the UID of a card of type `c`.
pub open spec fn read_uid_code(c: CardType) -> u8 {
    match c {
        CardType::Mifare => 0x20,
        CardType::UltraLight => 0x40,
        CardType::CPU => 0x80,
        CardType::ISO14443B => 0x90,
        CardType::ISO15693 => 0x60,
        CardType::Other => 0x00,
    }
}

/// Function code that reads one page of a card of type `c`.
pub open spec fn read_data_code(c: CardType) -> u8 {
    match c {
        CardType::Mifare => 0x21,
        CardType::UltraLight => 0x41,
        CardType::CPU => 0x81,
        CardType::ISO14443B => 0x91,
        CardType::ISO15693 => 0x61,
        CardType::Other => 0x01,
    }
}

/// Function code that writes one page of a card of type `c`.
pub open spec fn write_data_code(c: CardType) -> u8 {
    match c {
        CardType::Mifare => 0x22,
        CardType::UltraLight => 0x42,
        CardType::CPU => 0x81,
        CardType::ISO14443B => 0x92,
        CardType::ISO15693 => 0x62,
        CardType::Other => 0x02,
    }
}

/// Whether `s` is the name `name` spelled exactly.
fn is_named(s: &str, name: &str) -> (r: bool)
    ensures
        r == (s@ == name@),
{
    s.to_owned() == name.to_owned()
}

impl CardType {
    /// The card type named `tp`; any other name gives `Other`.
    pub fn from_str(tp: &str) -> (r: CardType)
        ensures
            tp@ == "Mifare"@ ==> r == CardType::Mifare,
            tp@ == "UltraLight"@ ==> r == CardType::UltraLight,
            tp@ == "CPU"@ ==> r == CardType::CPU,
            tp@ == "ISO14443B"@ ==> r == CardType::ISO14443B,
            tp@ == "ISO15693"@ ==> r == CardType::ISO15693,
            tp@ != "Mifare"@ && tp@ != "UltraLight"@ && tp@ != "CPU"@ && tp@ != "ISO14443B"@
                && tp@ != "ISO15693"@ ==> r == CardType::Other,
    {
        proof {
            reveal_strlit("Mifare");
            reveal_strlit("UltraLight");
            reveal_strlit("CPU");
            reveal_strlit("ISO14443B");
            reveal_strlit("ISO15693");
            assert("Mifare"@.len() != "UltraLight"@.len());
            assert("Mifare"@.len() != "CPU"@.len());
            assert("Mifare"@.len() != "ISO14443B"@.len());
            assert("Mifare"@.len() != "ISO15693"@.len());
            assert("UltraLight"@.len() != "CPU"@.len());
            assert("UltraLight"@.len() != "ISO14443B"@.len());
            assert("UltraLight"@.len() != "ISO15693"@.len());
            assert("CPU"@.len() != "ISO14443B"@.len());
            assert("CPU"@.len() != "ISO15693"@.len());
            assert("ISO14443B"@[4] != "ISO15693"@[4]);
        }
        if is_named(tp, "Mifare") {
            CardType::Mifare
        } else if is_named(tp, "UltraLight") {
            CardType::UltraLight
        } else if is_named(tp, "CPU") {
            CardType::CPU
        } else if is_named(tp, "ISO14443B") {
            CardType::ISO14443B
        } else if is_named(tp, "ISO15693") {
            CardType::ISO15693
        } else {
            CardType::Other
        }
    }

    /// The card type with the numeric tag `tp`; any other tag gives `Other`.
    pub fn from_i32(tp: i32) -> (r: CardType)
        ensures
            r == (match tp {
                2 => CardType::Mifare,
                4 => CardType::UltraLight,
                8 => CardType::CPU,
                9 => CardType::ISO14443B,
                6 => CardType::ISO15693,
                _ => CardType::Other,
            }),
    {
        match tp {
            2 => CardType::Mifare,
            4 => CardType::UltraLight,
            8 => CardType::CPU,
            9 => CardType::ISO14443B,
            6 => CardType::ISO15693,
            _ => CardType::Other,
        }
    }

    /// Function code that reads the card's UID.
    pub fn fn_code_read_uid(&self) -> (r: u8)
        ensures
            r == read_uid_code(*self),
    {
        match self {
            CardType::Mifare => 0x20,
            CardType::UltraLight => 0x40,
            CardType::CPU => 0x80,
            CardType::ISO14443B => 0x90,
            CardType::ISO15693 => 0x60,
            CardType::Other => 0x00,
        }
    }

    /// Function code that reads one page of the card.
    pub fn fn_code_read_data(&self) -> (r: u8)
        ensures
            r == read_data_code(*self),
    {
        match self {
            CardType::Mifare => 0x21,
            CardType::UltraLight => 0x41,
            CardType::CPU => 0x81,
            CardType::ISO14443B => 0x91,
            CardType::ISO15693 => 0x61,
            CardType::Other => 0x01,
        }
    }

    /// Function code that writes one page of the card.
    pub fn fn_code_write_data(&self) -> (r: u8)
        ensures
            r == write_data_code(*self),
    {
        match self {
            CardType::Mifare => 0x22,
            CardType::UltraLight => 0x42,
            CardType::CPU => 0x81,
            CardType::ISO14443B => 0x92,
            CardType::ISO15693 => 0x62,
            CardType::Other => 0x02,
        }
    }
}

} // verus!
