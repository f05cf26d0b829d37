//! A callsign that a message carries as a hash of 10, 12 or 22 bits.

use crate::callsignmap::CallsignMap;
use crate::text::{decimal, push_char, push_decimal};
use vstd::prelude::*;
use vstd::string::*;

verus! {

/// A hash of `SIZE` bits, with the callsign that the table had for it when
/// the message was decoded.
#[derive(Debug, Clone)]
pub struct HashedCallsign<const SIZE: usize> {
    pub callsign: Option<String>,
    pub hashed: u32,
}

impl<const SIZE: usize> HashedCallsign<SIZE> {
    /// The callsign that the table has for a hash of `SIZE` bits: for 10 and
    /// 12 bits the low 16 bits of `hash` are looked up; for a size other
    /// than 10, 12 and 22 there is none.
    pub open spec fn resolved(hash: u32, map: &CallsignMap) -> Option<String> {
        if SIZE == 10 {
            map.lookup_10((hash % 0x1_0000) as u16)
        } else if SIZE == 12 {
            map.lookup_12((hash % 0x1_0000) as u16)
        } else if SIZE == 22 {
            map.lookup_22(hash)
        } else {
            None
        }
    }

    /// This value is what `hash` decodes to with the table `map`.
    pub open spec fn resolves(&self, hash: u32, map: &CallsignMap) -> bool {
        self.hashed == hash && self.callsign == Self::resolved(hash, map)
    }

    /// The callsign where the table had one, else the hash between `<` and
    /// `>`.
    pub open spec fn rendered(&self) -> Seq<char> {
        match self.callsign {
            Some(callsign) => callsign@,
            None => seq!['<'] + decimal(self.hashed as nat) + seq!['>'],
        }
    }

    /// Looks the hash up in the table and keeps what was found.
    pub fn from_hash(hash: u32, map: &CallsignMap) -> (hashed: Self)
        ensures
            hashed.resolves(hash, map),
    {
        let callsign = if SIZE == 10 {
            map.get_10((hash % 0x1_0000) as u16)
        } else if SIZE == 12 {
            map.get_12((hash % 0x1_0000) as u16)
        } else if SIZE == 22 {
            map.get_22(hash)
        } else {
            None
        };
        let callsign = match callsign {
            Some(found) => Some(found.clone()),
            None => None,
        };
        Self { callsign, hashed: hash }
    }

    /// Renders the text that `rendered` describes.
    pub fn to_string(&self) -> (text: String)
        ensures
            text@ == self.rendered(),
    {
        match &self.callsign {
            Some(callsign) => callsign.clone(),
            None => {
                let mut text = String::new();
                push_char(&mut text, '<');
                push_decimal(&mut text, self.hashed as u64, 0);
                push_char(&mut text, '>');
                proof {
                    assert(text@ =~= seq!['<'] + decimal(self.hashed as nat) + seq!['>']);
                }
                text
            },
        }
    }
}

} // verus!
