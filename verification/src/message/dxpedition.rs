//! The DXpedition message: two callsigns, a hashed callsign and a report.

use crate::callsignmap::CallsignMap;
use crate::message::callsign::Callsign;
use crate::message::hashedcallsign::HashedCallsign;
use crate::text::{push_char, push_signed_decimal, signed_decimal, texts};
use crate::utils::{bits_value, bool_slice_to_u32, bool_slice_to_u8, sub_array};
use vstd::prelude::*;
use vstd::string::*;

verus! {

/// Two callsigns, the hashed callsign of the expedition and a report.
#[derive(Debug, Clone)]
pub struct Dxpedition {
    pub callsign1: Callsign,
    pub callsign2: Callsign,
    pub hashed_callsign: HashedCallsign<10>,
    pub signal_strength: u8,
}

impl Dxpedition {
    /// This value is what the payload `message` decodes to with the table
    /// `map`: callsigns in bits 0..28 and 28..56, a 10-bit hash in bits
    /// 56..66 and the strength in bits 66..71.
    pub open spec fn decoded_from(&self, message: Seq<bool>, map: &CallsignMap) -> bool {
        &&& self.callsign1.decoded_from(bits_value(message.subrange(0, 28)) as u32, None, map)
        &&& self.callsign2.decoded_from(bits_value(message.subrange(28, 56)) as u32, None, map)
        &&& self.hashed_callsign.resolves(bits_value(message.subrange(56, 66)) as u32, map)
        &&& self.signal_strength == bits_value(message.subrange(66, 71))
    }

    /// The report in dB: twice the strength, less 30.
    pub open spec fn report(&self) -> int {
        self.signal_strength * 2 - 30
    }

    /// The text of the message: the three callsigns and the report, with a
    /// space between them.
    pub open spec fn rendered(&self) -> Seq<char> {
        self.callsign1.rendered() + seq![' '] + self.callsign2.rendered() + seq![' ']
            + self.hashed_callsign.rendered() + seq![' '] + signed_decimal(self.report())
    }

    /// The texts of the three callsigns.
    pub open spec fn callsign_texts(&self) -> Seq<Seq<char>> {
        seq![
            self.callsign1.rendered(),
            self.callsign2.rendered(),
            self.hashed_callsign.rendered(),
        ]
    }

    /// Unpacks the fields from the 77 bits of a payload.
    pub fn from_bits(message: &[bool; 77], callsign_map: &CallsignMap) -> (dxpedition: Self)
        ensures
            dxpedition.decoded_from(message@, callsign_map),
    {
        let bits1: [bool; 28] = sub_array(message, 0);
        let bits2: [bool; 28] = sub_array(message, 28);
        let bits3: [bool; 10] = sub_array(message, 56);
        let bits4: [bool; 5] = sub_array(message, 66);
        Self {
            callsign1: Callsign::from_bits(&bits1, callsign_map),
            callsign2: Callsign::from_bits(&bits2, callsign_map),
            hashed_callsign: HashedCallsign::from_hash(bool_slice_to_u32(&bits3), callsign_map),
            signal_strength: bool_slice_to_u8(&bits4),
        }
    }

    /// The callsigns of the message as texts, in the order of the fields.
    pub fn callsigns(&self) -> (names: Vec<String>)
        ensures
            texts(names@) == self.callsign_texts(),
    {
        let mut names: Vec<String> = Vec::new();
        names.push(self.callsign1.to_string());
        names.push(self.callsign2.to_string());
        names.push(self.hashed_callsign.to_string());
        proof {
            assert(texts(names@) =~= self.callsign_texts());
        }
        names
    }

    /// Renders the text that `rendered` describes.
    pub fn to_string(&self) -> (text: String)
        ensures
            text@ == self.rendered(),
    {
        let mut text = self.callsign1.to_string();
        push_char(&mut text, ' ');
        text.append(self.callsign2.to_string().as_str());
        push_char(&mut text, ' ');
        text.append(self.hashed_callsign.to_string().as_str());
        push_char(&mut text, ' ');
        push_signed_decimal(&mut text, (self.signal_strength as i64) * 2 - 30);
        proof {
            assert(text@ =~= self.rendered());
        }
        text
    }
}

} // verus!
