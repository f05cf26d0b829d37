//! Free text: 71 bits that spell 13 characters.

use crate::text::{radix_chars, radix_digits, reversed};
use crate::utils::{bits_value, bool_slice_to_u128, sub_array};
use vstd::prelude::*;
use vstd::string::*;

verus! {

/// The 42 symbols of free text.
pub const FREETEXT_CHARSET: &'static str = " 0123456789ABCDEFGHIJKLMNOPQRSTUVWXYZ+-./?";

/// The 13 characters that 71 bits spell: the digits of their number in base
/// 42, most significant first.
pub open spec fn free_text(bits: Seq<bool>) -> Seq<char> {
    radix_chars(bits_value(bits), FREETEXT_CHARSET@, 13).reverse()
}

/// The 13 characters of a free text.
#[derive(Debug, Clone)]
pub struct FreeText {
    pub text: String,
}

impl FreeText {
    /// This value is what the payload `message` decodes to.
    pub open spec fn decoded_from(&self, message: Seq<bool>) -> bool {
        self.text@ == free_text(message.subrange(0, 71))
    }

    /// The text of the message.
    pub open spec fn rendered(&self) -> Seq<char> {
        self.text@
    }

    /// Unpacks the fields from the 77 bits of a payload.
    pub fn from_bits(message: &[bool; 77]) -> (free: Self)
        ensures
            free.decoded_from(message@),
    {
        let bits: [bool; 71] = sub_array(message, 0);
        Self { text: Self::to_text(&bits) }
    }

    /// The text that the 71 bits spell.
    pub fn to_text(message: &[bool; 71]) -> (text: String)
        ensures
            text@ == free_text(message@),
    {
        proof {
            reveal_strlit(" 0123456789ABCDEFGHIJKLMNOPQRSTUVWXYZ+-./?");
        }
        let number = bool_slice_to_u128(message);
        let digits = radix_digits(number, FREETEXT_CHARSET, 13);
        reversed(&digits)
    }

    /// Renders the text that `rendered` describes.
    pub fn to_string(&self) -> (text: String)
        ensures
            text@ == self.rendered(),
    {
        self.text.clone()
    }
}

} // verus!
