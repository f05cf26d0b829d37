//! The standard message: two callsigns and a locator or report.

use crate::callsignmap::CallsignMap;
use crate::message::callsign::Callsign;
use crate::message::grid::Grid4;
use crate::text::{push_char, texts};
use crate::utils::{bits_value, sub_array};
use vstd::prelude::*;
use vstd::string::*;

verus! {

/// A standard message whose callsigns may carry the suffix `/` and the
/// character with the code `SUFFIX`.
#[derive(Debug, Clone)]
pub struct Standard<const SUFFIX: u8> {
    pub callsign1: Callsign,
    pub callsign2: Callsign,
    pub grid: Grid4,
}

impl<const SUFFIX: u8> Standard<SUFFIX> {
    /// The suffix of a callsign whose flag is `flag`.
    pub open spec fn suffix(flag: bool) -> Option<char> {
        if flag {
            Some(SUFFIX as char)
        } else {
            None
        }
    }

    /// This value is what the payload `message` decodes to with the table
    /// `map`: callsigns in bits 0..28 and 29..57, each followed by its
    /// suffix flag, the `R` flag in bit 58 and the locator in bits 59..74.
    pub open spec fn decoded_from(&self, message: Seq<bool>, map: &CallsignMap) -> bool {
        &&& self.callsign1.decoded_from(
            bits_value(message.subrange(0, 28)) as u32,
            Self::suffix(message[28]),
            map,
        )
        &&& self.callsign2.decoded_from(
            bits_value(message.subrange(29, 57)) as u32,
            Self::suffix(message[57]),
            map,
        )
        &&& self.grid.has_r == message[58]
        &&& self.grid.grid == bits_value(message.subrange(59, 74))
    }

    /// The text of the message: the two callsigns and the locator, with a
    /// space between them.
    pub open spec fn rendered(&self) -> Seq<char> {
        self.callsign1.rendered() + seq![' '] + self.callsign2.rendered() + seq![' ']
            + self.grid.rendered()
    }

    /// The texts of the two callsigns.
    pub open spec fn callsign_texts(&self) -> Seq<Seq<char>> {
        seq![self.callsign1.rendered(), self.callsign2.rendered()]
    }

    /// Unpacks the fields from the 77 bits of a payload.
    pub fn from_bits(message: &[bool; 77], callsign_map: &CallsignMap) -> (standard: Self)
        ensures
            standard.decoded_from(message@, callsign_map),
    {
        let callsign1_suffix = if message[28] { Some(SUFFIX as char) } else { None };
        let callsign2_suffix = if message[57] { Some(SUFFIX as char) } else { None };
        let has_r = message[58];
        let bits1: [bool; 28] = sub_array(message, 0);
        let bits2: [bool; 28] = sub_array(message, 29);
        let bits3: [bool; 15] = sub_array(message, 59);
        Self {
            callsign1: Callsign::from_bits_with_suffix(&bits1, callsign1_suffix, callsign_map),
            callsign2: Callsign::from_bits_with_suffix(&bits2, callsign2_suffix, callsign_map),
            grid: Grid4::from_bits_with_r(&bits3, has_r),
        }
    }

    /// The callsigns of the message as texts, in the order of the fields.
    pub fn callsigns(&self) -> (names: Vec<String>)
        ensures
            texts(names@) == self.callsign_texts(),
    {
        let mut names: Vec<String> = Vec::new();
        names.push(self.callsign1.to_string());
        names.push(self.callsign2.to_string());
        proof {
            assert(texts(names@) =~= self.callsign_texts());
        }
        names
    }

    /// Renders the text that `rendered` describes.
    pub fn to_string(&self) -> (text: String)
        ensures
            text@ == self.rendered(),
    {
        let mut text = self.callsign1.to_string();
        push_char(&mut text, ' ');
        text.append(self.callsign2.to_string().as_str());
        push_char(&mut text, ' ');
        text.append(self.grid.to_string().as_str());
        proof {
            assert(text@ =~= self.rendered());
        }
        text
    }
}

} // verus!
