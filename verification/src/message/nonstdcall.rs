//! The message with a callsign that the 28-bit field cannot spell: a
//! hashed callsign, a callsign of up to 11 characters and a closing word.

use crate::callsignmap::CallsignMap;
use crate::message::callsign::Callsign58;
use crate::message::hashedcallsign::HashedCallsign;
use crate::text::{push_char, texts};
use crate::utils::{bits_value, bool_slice_to_u32, bool_slice_to_u8, sub_array};
use vstd::prelude::*;
use vstd::string::*;

verus! {

/// The closing word of a message.
pub open spec fn message_word(r2: u8) -> Seq<char> {
    if r2 == 0 {
        ""@
    } else if r2 == 1 {
        "RRR"@
    } else if r2 == 2 {
        "RR73"@
    } else if r2 == 3 {
        "73"@
    } else {
        "???"@
    }
}

/// A hashed callsign, a spelled callsign and a closing word.
#[derive(Debug, Clone)]
pub struct NonStdCall {
    pub callsign1: HashedCallsign<12>,
    pub callsign2: Callsign58,
    pub callsign_swap: bool,
    pub message_word: u8,
    pub has_cq: bool,
}

impl NonStdCall {
    /// This value is what the payload `message` decodes to with the table
    /// `map`: a 12-bit hash in bits 0..12, the spelled callsign in bits
    /// 12..70, the swap flag in bit 70, the closing word in bits 71..73 and
    /// the `CQ` flag in bit 73.
    pub open spec fn decoded_from(&self, message: Seq<bool>, map: &CallsignMap) -> bool {
        &&& self.callsign1.resolves(bits_value(message.subrange(0, 12)) as u32, map)
        &&& self.callsign2.c58 == bits_value(message.subrange(12, 70))
        &&& self.callsign_swap == message[70]
        &&& self.message_word == bits_value(message.subrange(71, 73))
        &&& self.has_cq == message[73]
    }

    /// The callsign that the text names first: the spelled one where the
    /// swap flag is set, else the hashed one.
    pub open spec fn first(&self) -> Seq<char> {
        if self.callsign_swap {
            self.callsign2.rendered()
        } else {
            self.callsign1.rendered()
        }
    }

    /// The callsign that the text names second.
    pub open spec fn second(&self) -> Seq<char> {
        if self.callsign_swap {
            self.callsign1.rendered()
        } else {
            self.callsign2.rendered()
        }
    }

    /// The text of the message: `CQ` or the first callsign, the second
    /// callsign and the closing word, with a space between them.
    pub open spec fn rendered(&self) -> Seq<char> {
        (if self.has_cq {
            "CQ"@
        } else {
            self.first()
        }) + seq![' '] + self.second() + seq![' '] + message_word(self.message_word)
    }

    /// The texts of the two callsigns.
    pub open spec fn callsign_texts(&self) -> Seq<Seq<char>> {
        seq![self.callsign1.rendered(), self.callsign2.rendered()]
    }

    /// Unpacks the fields from the 77 bits of a payload.
    pub fn from_bits(message: &[bool; 77], callsign_map: &CallsignMap) -> (call: Self)
        ensures
            call.decoded_from(message@, callsign_map),
    {
        let bits1: [bool; 12] = sub_array(message, 0);
        let bits2: [bool; 58] = sub_array(message, 12);
        let bits3: [bool; 2] = sub_array(message, 71);
        Self {
            callsign1: HashedCallsign::from_hash(bool_slice_to_u32(&bits1), callsign_map),
            callsign2: Callsign58::from_bits(&bits2),
            callsign_swap: message[70],
            message_word: bool_slice_to_u8(&bits3),
            has_cq: message[73],
        }
    }

    /// The closing word of a message.
    pub fn message_word_to_text(r2: u8) -> (word: &'static str)
        ensures
            word@ == message_word(r2),
    {
        match r2 {
            0 => "",
            1 => "RRR",
            2 => "RR73",
            3 => "73",
            _ => "???",
        }
    }

    /// The callsigns of the message as texts, in the order of the fields.
    pub fn callsigns(&self) -> (names: Vec<String>)
        ensures
            texts(names@) == self.callsign_texts(),
    {
        let mut names: Vec<String> = Vec::new();
        names.push(self.callsign1.to_string());
        names.push(self.callsign2.to_string());
        proof {
            assert(texts(names@) =~= self.callsign_texts());
        }
        names
    }

    /// Renders the text that `rendered` describes.
    pub fn to_string(&self) -> (text: String)
        ensures
            text@ == self.rendered(),
    {
        let callsign1 = self.callsign1.to_string();
        let callsign2 = self.callsign2.to_string();
        let mut text = if self.has_cq {
            String::from_str("CQ")
        } else if self.callsign_swap {
            callsign2.clone()
        } else {
            callsign1.clone()
        };
        push_char(&mut text, ' ');
        if self.callsign_swap {
            text.append(callsign1.as_str());
        } else {
            text.append(callsign2.as_str());
        }
        push_char(&mut text, ' ');
        text.append(Self::message_word_to_text(self.message_word));
        proof {
            assert(text@ =~= self.rendered());
        }
        text
    }
}

} // verus!
