//! The Field Day message: two callsigns, the number of transmitters, the
//! class and the section.

use crate::callsignmap::CallsignMap;
use crate::message::callsign::Callsign;
use crate::message::grid::{capital, capital_letter};
use crate::text::{decimal, push_char, push_decimal, texts, trim_spaces, trimmed};
use crate::utils::{bits_value, bool_slice_to_u8, sub_array};
use vstd::prelude::*;
use vstd::string::*;

verus! {

/// The names of the sections, each in three characters.
pub const RAC_SECTION: [&'static str; 84] = [
    "AB ", "AK ", "AL ", "AR ", "AZ ", "BC ", "CO ", "CT ", "DE ", "EB ", "EMA", "ENY", "EPA",
    "EWA", "GA ", "GTA", "IA ", "ID ", "IL ", "IN ", "KS ", "KY ", "LA ", "LAX", "MAR", "MB ",
    "MDC", "ME ", "MI ", "MN ", "MO ", "MS ", "MT ", "NC ", "ND ", "NE ", "NFL", "NH ", "NL ",
    "NLI", "NM ", "NNJ", "NNY", "NT ", "NTX", "NV ", "OH ", "OK ", "ONE", "ONN", "ONS", "OR ",
    "ORG", "PAC", "PR ", "QC ", "RI ", "SB ", "SC ", "SCV", "SD ", "SDG", "SF ", "SFL", "SJV",
    "SK ", "SNJ", "STX", "SV ", "TN ", "UT ", "VA ", "VI ", "VT ", "WCF", "WI ", "WMA", "WNY",
    "WPA", "WTX", "WV ", "WWA", "WY ", "DX ",
];

/// The name of a section as the list has it; `"DX "` for a number that the
/// list does not reach.
pub open spec fn section_name(section: u8) -> Seq<char> {
    if section < 84 {
        RAC_SECTION@[section as int]@
    } else {
        "DX "@
    }
}

/// Two callsigns, the number of transmitters, the class and the section.
#[derive(Debug, Clone)]
pub struct FieldDay {
    pub callsign1: Callsign,
    pub callsign2: Callsign,
    pub has_r: bool,
    pub transmitters: u8,
    pub class: char,
    pub rac_section: u8,
}

impl FieldDay {
    /// This value is what the payload `message` decodes to with the table
    /// `map`: callsigns in bits 0..28 and 28..56, the `R` flag in bit 56,
    /// three bits from bit 57 that count the transmitters from
    /// `transmitter_offset` on, the class letter in bits 61..64 and the
    /// section in bits 64..71.
    pub open spec fn decoded_from(
        &self,
        message: Seq<bool>,
        transmitter_offset: u8,
        map: &CallsignMap,
    ) -> bool {
        &&& self.callsign1.decoded_from(bits_value(message.subrange(0, 28)) as u32, None, map)
        &&& self.callsign2.decoded_from(bits_value(message.subrange(28, 56)) as u32, None, map)
        &&& self.has_r == message[56]
        &&& self.transmitters == bits_value(message.subrange(57, 60)) + transmitter_offset
        &&& self.class == capital(bits_value(message.subrange(61, 64)))
        &&& self.rac_section == bits_value(message.subrange(64, 71))
    }

    /// The text of the message: the two callsigns, `R` where the flag is
    /// set, the transmitters and the class letter, and the name of the
    /// section without the spaces around it.
    pub open spec fn rendered(&self) -> Seq<char> {
        self.callsign1.rendered() + seq![' '] + self.callsign2.rendered() + seq![' '] + (if self.has_r {
            seq!['R', ' ']
        } else {
            Seq::<char>::empty()
        }) + decimal(self.transmitters as nat) + seq![self.class, ' '] + trim_spaces(
            section_name(self.rac_section),
        )
    }

    /// The texts of the two callsigns.
    pub open spec fn callsign_texts(&self) -> Seq<Seq<char>> {
        seq![self.callsign1.rendered(), self.callsign2.rendered()]
    }

    /// Unpacks the fields from the 77 bits of a payload.
    pub fn from_bits(
        message: &[bool; 77],
        transmitter_offset: u8,
        callsign_map: &CallsignMap,
    ) -> (field_day: Self)
        requires
            transmitter_offset <= 248,
        ensures
            field_day.decoded_from(message@, transmitter_offset, callsign_map),
    {
        let bits1: [bool; 28] = sub_array(message, 0);
        let bits2: [bool; 28] = sub_array(message, 28);
        let bits3: [bool; 3] = sub_array(message, 57);
        let bits4: [bool; 3] = sub_array(message, 61);
        let bits5: [bool; 7] = sub_array(message, 64);
        proof {
            crate::utils::lemma_bits_value_bound(bits3@);
            crate::utils::lemma_bits_value_bound(bits4@);
            vstd::arithmetic::power2::lemma2_to64();
        }
        let class = capital_letter(bool_slice_to_u8(&bits4));
        Self {
            callsign1: Callsign::from_bits(&bits1, callsign_map),
            callsign2: Callsign::from_bits(&bits2, callsign_map),
            has_r: message[56],
            transmitters: bool_slice_to_u8(&bits3) + transmitter_offset,
            class,
            rac_section: bool_slice_to_u8(&bits5),
        }
    }

    /// The callsigns of the message as texts, in the order of the fields.
    pub fn callsigns(&self) -> (names: Vec<String>)
        ensures
            texts(names@) == self.callsign_texts(),
    {
        let mut names: Vec<String> = Vec::new();
        names.push(self.callsign1.to_string());
        names.push(self.callsign2.to_string());
        proof {
            assert(texts(names@) =~= self.callsign_texts());
        }
        names
    }

    /// Renders the text that `rendered` describes.
    pub fn to_string(&self) -> (text: String)
        ensures
            text@ == self.rendered(),
    {
        let rac_section = if self.rac_section < 84 {
            RAC_SECTION[self.rac_section as usize]
        } else {
            "DX "
        };
        let mut text = self.callsign1.to_string();
        push_char(&mut text, ' ');
        text.append(self.callsign2.to_string().as_str());
        push_char(&mut text, ' ');
        if self.has_r {
            push_char(&mut text, 'R');
            push_char(&mut text, ' ');
        }
        push_decimal(&mut text, self.transmitters as u64, 0);
        push_char(&mut text, self.class);
        push_char(&mut text, ' ');
        text.append(trimmed(rac_section).as_str());
        proof {
            assert(text@ =~= self.rendered());
        }
        text
    }
}

} // verus!
