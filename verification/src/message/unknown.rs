//! A payload of a kind that is reserved or not known: its bits as they are.

use crate::text::push_char;
use vstd::prelude::*;

verus! {

/// The bits as a row of `0` and `1`.
pub open spec fn binary_text(bits: Seq<bool>) -> Seq<char> {
    Seq::new(bits.len(), |i: int| if bits[i] { '1' } else { '0' })
}

/// The 77 bits of a payload of a kind that is not known.
#[derive(Debug, Clone, Copy)]
pub struct Unknown {
    pub bits: [bool; 77],
}

impl Unknown {
    /// The text of the message.
    pub open spec fn rendered(&self) -> Seq<char> {
        binary_text(self.bits@)
    }

    /// Unpacks the fields from the 77 bits of a payload.
    pub fn from_bits(message: &[bool; 77]) -> (unknown: Self)
        ensures
            unknown.bits == *message,
    {
        Self { bits: *message }
    }

    /// Renders the text that `rendered` describes.
    pub fn to_string(&self) -> (text: String)
        ensures
            text@ == self.rendered(),
    {
        let mut text = String::new();
        let mut i: usize = 0;
        while i < 77
            invariant
                i <= 77,
                text@ == binary_text(self.bits@.subrange(0, i as int)),
            decreases 77 - i,
        {
            if self.bits[i] {
                push_char(&mut text, '1');
            } else {
                push_char(&mut text, '0');
            }
            proof {
                assert(text@ =~= binary_text(self.bits@.subrange(0, i + 1)));
            }
            i += 1;
        }
        proof {
            assert(self.bits@.subrange(0, 77) =~= self.bits@);
        }
        text
    }
}

} // verus!
