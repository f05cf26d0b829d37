//! The EU VHF contest message: two hashed callsigns, a report, a serial
//! number and a six-character locator.

use crate::callsignmap::CallsignMap;
use crate::message::grid::Grid6;
use crate::message::hashedcallsign::HashedCallsign;
use crate::text::{decimal, decimal_padded, push_char, push_decimal, texts};
use crate::utils::{bits_value, bool_slice_to_u16, bool_slice_to_u32, bool_slice_to_u8, sub_array};
use vstd::prelude::*;
use vstd::string::*;

verus! {

/// Two hashed callsigns, a report with a serial number and a locator.
#[derive(Debug, Clone)]
pub struct EUVHF {
    pub callsign1: HashedCallsign<12>,
    pub callsign2: HashedCallsign<22>,
    pub has_r: bool,
    pub signal_strength: u8,
    pub serial_number: u16,
    pub grid: Grid6,
}

impl EUVHF {
    /// This value is what the payload `message` decodes to with the table
    /// `map`: a 12-bit hash in bits 0..12, a 22-bit hash in bits 12..34, the
    /// `R` flag in bit 34, the strength in bits 35..38, the serial number in
    /// bits 38..49 and the locator in bits 49..74.
    pub open spec fn decoded_from(&self, message: Seq<bool>, map: &CallsignMap) -> bool {
        &&& self.callsign1.resolves(bits_value(message.subrange(0, 12)) as u32, map)
        &&& self.callsign2.resolves(bits_value(message.subrange(12, 34)) as u32, map)
        &&& self.has_r == message[34]
        &&& self.signal_strength == bits_value(message.subrange(35, 38))
        &&& self.serial_number == bits_value(message.subrange(38, 49))
        &&& self.grid.grid == bits_value(message.subrange(49, 74))
    }

    /// The report: the strength and 52.
    pub open spec fn report(&self) -> nat {
        (self.signal_strength + 52) as nat
    }

    /// The text of the message: the two callsigns, `R` where the flag is
    /// set, the report with the four-digit serial number behind it, and the
    /// locator.
    pub open spec fn rendered(&self) -> Seq<char> {
        self.callsign1.rendered() + seq![' '] + self.callsign2.rendered() + seq![' '] + (if self.has_r {
            seq!['R', ' ']
        } else {
            Seq::<char>::empty()
        }) + decimal(self.report()) + decimal_padded(self.serial_number as nat, 4) + seq![' ']
            + self.grid.rendered()
    }

    /// The texts of the two callsigns.
    pub open spec fn callsign_texts(&self) -> Seq<Seq<char>> {
        seq![self.callsign1.rendered(), self.callsign2.rendered()]
    }

    /// Unpacks the fields from the 77 bits of a payload.
    pub fn from_bits(message: &[bool; 77], callsign_map: &CallsignMap) -> (euvhf: Self)
        ensures
            euvhf.decoded_from(message@, callsign_map),
    {
        let bits1: [bool; 12] = sub_array(message, 0);
        let bits2: [bool; 22] = sub_array(message, 12);
        let bits3: [bool; 3] = sub_array(message, 35);
        let bits4: [bool; 11] = sub_array(message, 38);
        let bits5: [bool; 25] = sub_array(message, 49);
        Self {
            callsign1: HashedCallsign::from_hash(bool_slice_to_u32(&bits1), callsign_map),
            callsign2: HashedCallsign::from_hash(bool_slice_to_u32(&bits2), callsign_map),
            has_r: message[34],
            signal_strength: bool_slice_to_u8(&bits3),
            serial_number: bool_slice_to_u16(&bits4),
            grid: Grid6::from_bits(&bits5),
        }
    }

    /// The callsigns of the message as texts, in the order of the fields.
    pub fn callsigns(&self) -> (names: Vec<String>)
        ensures
            texts(names@) == self.callsign_texts(),
    {
        let mut names: Vec<String> = Vec::new();
        names.push(self.callsign1.to_string());
        names.push(self.callsign2.to_string());
        proof {
            assert(texts(names@) =~= self.callsign_texts());
        }
        names
    }

    /// Renders the text that `rendered` describes.
    pub fn to_string(&self) -> (text: String)
        ensures
            text@ == self.rendered(),
    {
        let mut text = self.callsign1.to_string();
        push_char(&mut text, ' ');
        text.append(self.callsign2.to_string().as_str());
        push_char(&mut text, ' ');
        if self.has_r {
            push_char(&mut text, 'R');
            push_char(&mut text, ' ');
        }
        push_decimal(&mut text, (self.signal_strength as u64) + 52, 0);
        push_decimal(&mut text, self.serial_number as u64, 4);
        push_char(&mut text, ' ');
        text.append(self.grid.to_string().as_str());
        proof {
            assert(text@ =~= self.rendered());
        }
        text
    }
}

} // verus!
