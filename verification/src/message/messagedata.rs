//! The payload of a message: one of ten kinds, told apart by the last
//! bits of the 77.

use crate::callsignmap::CallsignMap;
use crate::message::dxpedition::Dxpedition;
use crate::message::euvhf::EUVHF;
use crate::message::fieldday::FieldDay;
use crate::message::freetext::FreeText;
use crate::message::nonstdcall::NonStdCall;
use crate::message::rttyru::RTTYRU;
use crate::message::standard::Standard;
use crate::message::telemetry::Telemetry;
use crate::message::unknown::Unknown;
use crate::text::{decimal_padded, push_decimal, texts};
use crate::utils::{bits_value, bool_slice_to_u8, sub_array};
use vstd::prelude::*;
use vstd::string::*;

verus! {

/// The payload of a message, by its kind.
#[derive(Debug, Clone)]
pub enum MessageData {
    FreeText(FreeText),
    Dxpedition(Dxpedition),
    FieldDay(FieldDay),
    Telemetry(Telemetry),
    StandardR(Standard<82>),
    StandardP(Standard<80>),
    RTTYRU(RTTYRU),
    NonStdCall(NonStdCall),
    EUVHF(EUVHF),
    Unknown(Unknown),
}

impl MessageData {
    /// The kind of a payload: its bits 74..77.
    pub open spec fn i3(message: Seq<bool>) -> nat {
        bits_value(message.subrange(74, 77))
    }

    /// The kind within kind 0: the bits 71..74.
    pub open spec fn n3(message: Seq<bool>) -> nat {
        bits_value(message.subrange(71, 74))
    }

    /// The kinds that are reserved or not known: 6 and 7, and within
    /// kind 0 the kinds 2, 6 and 7.
    pub open spec fn is_unknown_kind(message: Seq<bool>) -> bool {
        Self::i3(message) >= 6 || (Self::i3(message) == 0 && (Self::n3(message) == 2 || Self::n3(
            message,
        ) >= 6))
    }

    /// This value is what the payload `message` decodes to with the table
    /// `map`: the kind that bits 74..77, and for kind 0 bits 71..74, select,
    /// decoded as that kind is.
    pub open spec fn decoded_from(&self, message: Seq<bool>, map: &CallsignMap) -> bool {
        let i3 = Self::i3(message);
        let n3 = Self::n3(message);
        match *self {
            MessageData::FreeText(m) => i3 == 0 && n3 == 0 && m.decoded_from(message),
            MessageData::Dxpedition(m) => i3 == 0 && n3 == 1 && m.decoded_from(message, map),
            MessageData::FieldDay(m) => i3 == 0 && ((n3 == 3 && m.decoded_from(message, 1, map)) || (
            n3 == 4 && m.decoded_from(message, 17, map))),
            MessageData::Telemetry(m) => i3 == 0 && n3 == 5 && m.decoded_from(message),
            MessageData::StandardR(m) => i3 == 1 && m.decoded_from(message, map),
            MessageData::StandardP(m) => i3 == 2 && m.decoded_from(message, map),
            MessageData::RTTYRU(m) => i3 == 3 && m.decoded_from(message, map),
            MessageData::NonStdCall(m) => i3 == 4 && m.decoded_from(message, map),
            MessageData::EUVHF(m) => i3 == 5 && m.decoded_from(message, map),
            MessageData::Unknown(m) => Self::is_unknown_kind(message) && m.bits@ == message,
        }
    }

    /// The text of the payload.
    pub open spec fn rendered(&self) -> Seq<char> {
        match *self {
            MessageData::FreeText(m) => m.rendered(),
            MessageData::Dxpedition(m) => m.rendered(),
            MessageData::FieldDay(m) => m.rendered(),
            MessageData::Telemetry(m) => m.rendered(),
            MessageData::StandardR(m) => m.rendered(),
            MessageData::StandardP(m) => m.rendered(),
            MessageData::RTTYRU(m) => m.rendered(),
            MessageData::NonStdCall(m) => m.rendered(),
            MessageData::EUVHF(m) => m.rendered(),
            MessageData::Unknown(m) => m.rendered(),
        }
    }

    /// The texts of the callsigns that the payload names; none for free
    /// text, telemetry and an unknown payload.
    pub open spec fn callsign_texts(&self) -> Seq<Seq<char>> {
        match *self {
            MessageData::Dxpedition(m) => m.callsign_texts(),
            MessageData::FieldDay(m) => m.callsign_texts(),
            MessageData::StandardR(m) => m.callsign_texts(),
            MessageData::StandardP(m) => m.callsign_texts(),
            MessageData::RTTYRU(m) => m.callsign_texts(),
            MessageData::NonStdCall(m) => m.callsign_texts(),
            MessageData::EUVHF(m) => m.callsign_texts(),
            _ => Seq::empty(),
        }
    }

    /// The name of the kind.
    pub open spec fn kind_name(&self) -> Seq<char> {
        match *self {
            MessageData::FreeText(_) => "FreeText"@,
            MessageData::Dxpedition(_) => "Dxpedition"@,
            MessageData::FieldDay(_) => "FieldDay"@,
            MessageData::Telemetry(_) => "Telemetry"@,
            MessageData::StandardR(_) => "StandardR"@,
            MessageData::StandardP(_) => "StandardP"@,
            MessageData::RTTYRU(_) => "RTTYRU"@,
            MessageData::NonStdCall(_) => "NonStdCall"@,
            MessageData::EUVHF(_) => "EUVHF"@,
            MessageData::Unknown(_) => "Unknown"@,
        }
    }

    /// Unpacks the fields from the 77 bits of a payload.
    pub fn from_bits(message: &[bool; 77], callsign_map: &CallsignMap) -> (data: Self)
        ensures
            data.decoded_from(message@, callsign_map),
    {
        let kind: [bool; 3] = sub_array(message, 74);
        let i3 = bool_slice_to_u8(&kind);
        match i3 {
            0 => {
                let subkind: [bool; 3] = sub_array(message, 71);
                let n3 = bool_slice_to_u8(&subkind);
                match n3 {
                    0 => MessageData::FreeText(FreeText::from_bits(message)),
                    1 => MessageData::Dxpedition(Dxpedition::from_bits(message, callsign_map)),
                    3 => MessageData::FieldDay(FieldDay::from_bits(message, 1, callsign_map)),
                    4 => MessageData::FieldDay(FieldDay::from_bits(message, 17, callsign_map)),
                    5 => MessageData::Telemetry(Telemetry::from_bits(message)),
                    _ => MessageData::Unknown(Unknown::from_bits(message)),
                }
            },
            1 => MessageData::StandardR(Standard::from_bits(message, callsign_map)),
            2 => MessageData::StandardP(Standard::from_bits(message, callsign_map)),
            3 => MessageData::RTTYRU(RTTYRU::from_bits(message, callsign_map)),
            4 => MessageData::NonStdCall(NonStdCall::from_bits(message, callsign_map)),
            5 => MessageData::EUVHF(EUVHF::from_bits(message, callsign_map)),
            _ => MessageData::Unknown(Unknown::from_bits(message)),
        }
    }

    /// The callsigns of the message as texts, in the order of the fields.
    pub fn callsigns(&self) -> (names: Vec<String>)
        ensures
            texts(names@) == self.callsign_texts(),
    {
        match self {
            MessageData::Dxpedition(m) => m.callsigns(),
            MessageData::FieldDay(m) => m.callsigns(),
            MessageData::StandardR(m) => m.callsigns(),
            MessageData::StandardP(m) => m.callsigns(),
            MessageData::RTTYRU(m) => m.callsigns(),
            MessageData::NonStdCall(m) => m.callsigns(),
            MessageData::EUVHF(m) => m.callsigns(),
            _ => {
                let names: Vec<String> = Vec::new();
                proof {
                    assert(texts(names@) =~= Seq::<Seq<char>>::empty());
                }
                names
            },
        }
    }

    /// The name of the kind.
    pub fn message_type_as_string(&self) -> (name: &str)
        ensures
            name@ == self.kind_name(),
    {
        match self {
            MessageData::FreeText(_) => "FreeText",
            MessageData::Dxpedition(_) => "Dxpedition",
            MessageData::FieldDay(_) => "FieldDay",
            MessageData::Telemetry(_) => "Telemetry",
            MessageData::StandardR(_) => "StandardR",
            MessageData::StandardP(_) => "StandardP",
            MessageData::RTTYRU(_) => "RTTYRU",
            MessageData::NonStdCall(_) => "NonStdCall",
            MessageData::EUVHF(_) => "EUVHF",
            MessageData::Unknown(_) => "Unknown",
        }
    }

    /// Renders the text that `rendered` describes.
    pub fn to_string(&self) -> (text: String)
        ensures
            text@ == self.rendered(),
    {
        match self {
            MessageData::FreeText(m) => m.to_string(),
            MessageData::Dxpedition(m) => m.to_string(),
            MessageData::FieldDay(m) => m.to_string(),
            MessageData::Telemetry(m) => m.to_string(),
            MessageData::StandardR(m) => m.to_string(),
            MessageData::StandardP(m) => m.to_string(),
            MessageData::RTTYRU(m) => m.to_string(),
            MessageData::NonStdCall(m) => m.to_string(),
            MessageData::EUVHF(m) => m.to_string(),
            MessageData::Unknown(m) => m.to_string(),
        }
    }
}

/// The names of the states and provinces, each in three characters.
pub const STATES_AND_PROVINCES: [&'static str; 65] = [
    "AL ", "AK ", "AZ ", "AR ", "CA ", "CO ", "CT ", "DE ", "FL ", "GA ", "HI ", "ID ", "IL ",
    "IN ", "IA ", "KS ", "KY ", "LA ", "ME ", "MD ", "MA ", "MI ", "MN ", "MS ", "MO ", "MT ",
    "NE ", "NV ", "NH ", "NJ ", "NM ", "NY ", "NC ", "ND ", "OH ", "OK ", "OR ", "PA ", "RI ",
    "SC ", "SD ", "TN ", "TX ", "UT ", "VT ", "VA ", "WA ", "WV ", "WI ", "WY ", "NB ", "NS ",
    "QC ", "ON ", "MB ", "SK ", "AB ", "BC ", "NWT", "NF ", "LB ", "NU ", "YT ", "PEI", "DC ",
];

/// A 13-bit exchange: a serial number, or the number of a state or
/// province.
#[derive(Debug, Clone, Copy, PartialEq, Eq, Structural)]
pub enum S13 {
    SerialNumber(u16),
    StatesAndProvinces(u8),
}

impl S13 {
    /// Below 8001 a serial number; from 8001 on the number of a state or
    /// province, counted from 8001 and kept to 8 bits.
    pub open spec fn spec_new(n: u16) -> Self {
        if n < 8001 {
            Self::SerialNumber(n)
        } else {
            Self::StatesAndProvinces(((n - 8001) % 256) as u8)
        }
    }

    /// The text of the exchange: the serial number in four digits, or the
    /// name of the state or province as the list has it, and nothing for a
    /// number that the list does not reach.
    pub open spec fn rendered(&self) -> Seq<char> {
        match *self {
            Self::SerialNumber(n) => decimal_padded(n as nat, 4),
            Self::StatesAndProvinces(n) => if n < 65 {
                STATES_AND_PROVINCES@[n as int]@
            } else {
                Seq::empty()
            },
        }
    }

    /// Tells a serial number from the number of a state or province.
    pub fn new(n: u16) -> (s13: Self)
        ensures
            s13 == Self::spec_new(n),
    {
        if n < 8001 {
            Self::SerialNumber(n)
        } else {
            Self::StatesAndProvinces(((n - 8001) % 256) as u8)
        }
    }

    /// Renders the text that `rendered` describes.
    pub fn to_string(&self) -> (text: String)
        ensures
            text@ == self.rendered(),
    {
        match self {
            Self::SerialNumber(n) => {
                let mut text = String::new();
                push_decimal(&mut text, *n as u64, 4);
                proof {
                    assert(text@ =~= decimal_padded(*n as nat, 4));
                }
                text
            },
            Self::StatesAndProvinces(n) => {
                if *n < 65 {
                    String::from_str(STATES_AND_PROVINCES[*n as usize])
                } else {
                    String::new()
                }
            },
        }
    }
}

} // verus!
