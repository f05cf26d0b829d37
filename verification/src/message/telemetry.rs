//! Telemetry: 71 bits as 18 hexadecimal digits.

use crate::text::{radix_chars, radix_digits, reversed};
use crate::utils::{bits_value, bool_slice_to_u128, sub_array};
use vstd::prelude::*;
use vstd::string::*;

verus! {

/// The hexadecimal digits.
pub const TELEMETRY_CHARSET: &'static str = "0123456789ABCDEF";

/// The 18 hexadecimal digits of the number that 71 bits denote, most
/// significant first.
pub open spec fn telemetry_text(bits: Seq<bool>) -> Seq<char> {
    radix_chars(bits_value(bits), TELEMETRY_CHARSET@, 18).reverse()
}

/// The 18 hexadecimal digits of a telemetry payload.
#[derive(Debug, Clone)]
pub struct Telemetry {
    pub text: String,
}

impl Telemetry {
    /// This value is what the payload `message` decodes to.
    pub open spec fn decoded_from(&self, message: Seq<bool>) -> bool {
        self.text@ == telemetry_text(message.subrange(0, 71))
    }

    /// The text of the message.
    pub open spec fn rendered(&self) -> Seq<char> {
        self.text@
    }

    /// Unpacks the fields from the 77 bits of a payload.
    pub fn from_bits(message: &[bool; 77]) -> (telemetry: Self)
        ensures
            telemetry.decoded_from(message@),
    {
        let bits: [bool; 71] = sub_array(message, 0);
        Self { text: Self::to_text(&bits) }
    }

    /// The text that the 71 bits spell.
    pub fn to_text(message: &[bool; 71]) -> (text: String)
        ensures
            text@ == telemetry_text(message@),
    {
        proof {
            reveal_strlit("0123456789ABCDEF");
        }
        let number = bool_slice_to_u128(message);
        let digits = radix_digits(number, TELEMETRY_CHARSET, 18);
        reversed(&digits)
    }

    /// Renders the text that `rendered` describes.
    pub fn to_string(&self) -> (text: String)
        ensures
            text@ == self.rendered(),
    {
        self.text.clone()
    }
}

} // verus!
