//! The RTTY Roundup message: two callsigns, a report and a serial number
//! or a state.

use crate::callsignmap::CallsignMap;
use crate::message::callsign::Callsign;
use crate::message::messagedata::S13;
use crate::text::{decimal, push_char, push_decimal, texts};
use crate::utils::{bits_value, bool_slice_to_u16, bool_slice_to_u8, sub_array};
use vstd::prelude::*;
use vstd::string::*;

verus! {

/// Two callsigns, a report and a serial number or a state.
#[derive(Debug, Clone)]
pub struct RTTYRU {
    pub has_tu: bool,
    pub callsign1: Callsign,
    pub callsign2: Callsign,
    pub has_r: bool,
    pub signal_strength: u8,
    pub s13: S13,
}

impl RTTYRU {
    /// This value is what the payload `message` decodes to with the table
    /// `map`: the `TU` flag in bit 0, callsigns in bits 1..29 and 29..57, the
    /// `R` flag in bit 57, the strength in bits 58..61 and the 13-bit
    /// exchange in bits 61..74.
    pub open spec fn decoded_from(&self, message: Seq<bool>, map: &CallsignMap) -> bool {
        &&& self.has_tu == message[0]
        &&& self.callsign1.decoded_from(bits_value(message.subrange(1, 29)) as u32, None, map)
        &&& self.callsign2.decoded_from(bits_value(message.subrange(29, 57)) as u32, None, map)
        &&& self.has_r == message[57]
        &&& self.signal_strength == bits_value(message.subrange(58, 61))
        &&& self.s13 == S13::spec_new(bits_value(message.subrange(61, 74)) as u16)
    }

    /// The report: ten times the strength, and 529.
    pub open spec fn report(&self) -> nat {
        (self.signal_strength * 10 + 529) as nat
    }

    /// The text of the message: `TU` where the flag is set, the two
    /// callsigns, the report and the exchange, with a space between them.
    pub open spec fn rendered(&self) -> Seq<char> {
        (if self.has_tu {
            seq!['T', 'U', ' ']
        } else {
            Seq::<char>::empty()
        }) + self.callsign1.rendered() + seq![' '] + self.callsign2.rendered() + seq![' ']
            + decimal(self.report()) + seq![' '] + self.s13.rendered()
    }

    /// The texts of the two callsigns.
    pub open spec fn callsign_texts(&self) -> Seq<Seq<char>> {
        seq![self.callsign1.rendered(), self.callsign2.rendered()]
    }

    /// Unpacks the fields from the 77 bits of a payload.
    pub fn from_bits(message: &[bool; 77], callsign_map: &CallsignMap) -> (rttyru: Self)
        ensures
            rttyru.decoded_from(message@, callsign_map),
    {
        let bits1: [bool; 28] = sub_array(message, 1);
        let bits2: [bool; 28] = sub_array(message, 29);
        let bits3: [bool; 3] = sub_array(message, 58);
        let bits4: [bool; 13] = sub_array(message, 61);
        Self {
            has_tu: message[0],
            callsign1: Callsign::from_bits(&bits1, callsign_map),
            callsign2: Callsign::from_bits(&bits2, callsign_map),
            has_r: message[57],
            signal_strength: bool_slice_to_u8(&bits3),
            s13: S13::new(bool_slice_to_u16(&bits4)),
        }
    }

    /// The callsigns of the message as texts, in the order of the fields.
    pub fn callsigns(&self) -> (names: Vec<String>)
        ensures
            texts(names@) == self.callsign_texts(),
    {
        let mut names: Vec<String> = Vec::new();
        names.push(self.callsign1.to_string());
        names.push(self.callsign2.to_string());
        proof {
            assert(texts(names@) =~= self.callsign_texts());
        }
        names
    }

    /// Renders the text that `rendered` describes.
    pub fn to_string(&self) -> (text: String)
        ensures
            text@ == self.rendered(),
    {
        let mut text = String::new();
        if self.has_tu {
            push_char(&mut text, 'T');
            push_char(&mut text, 'U');
            push_char(&mut text, ' ');
        }
        text.append(self.callsign1.to_string().as_str());
        push_char(&mut text, ' ');
        text.append(self.callsign2.to_string().as_str());
        push_char(&mut text, ' ');
        push_decimal(&mut text, (self.signal_strength as u64) * 10 + 529, 0);
        push_char(&mut text, ' ');
        text.append(self.s13.to_string().as_str());
        proof {
            assert(text@ =~= self.rendered());
        }
        text
    }
}

} // verus!
