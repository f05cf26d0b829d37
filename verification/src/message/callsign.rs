//! Callsigns: the 28-bit field of the standard messages and the 58-bit
//! field that spells a callsign of up to 11 characters.

use crate::callsignmap::CallsignMap;
use crate::message::hashedcallsign::HashedCallsign;
use crate::text::{
    decimal, decimal_padded, push_char, push_decimal, radix_chars, radix_digits, trim_spaces,
    trimmed_reversed,
};
use crate::utils::{bits_value, bool_slice_to_u32, bool_slice_to_u64, char_lookup, lookup_char};
use vstd::prelude::*;
use vstd::string::*;

verus! {

/// The digits and the capital letters.
pub const ALPHANUMERIC: &'static str = "0123456789ABCDEFGHIJKLMNOPQRSTUVWXYZ";

/// The space, the digits and the capital letters.
pub const ALPHANUMERIC_SPACE: &'static str = " 0123456789ABCDEFGHIJKLMNOPQRSTUVWXYZ";

/// The space and the capital letters.
pub const ALPHA_SPACE: &'static str = " ABCDEFGHIJKLMNOPQRSTUVWXYZ";

/// The digits.
pub const NUMERIC: &'static str = "0123456789";

/// The 38 symbols of a spelled callsign.
pub const NONSTD_CHARSET: &'static str = " 0123456789ABCDEFGHIJKLMNOPQRSTUVWXYZ/";

/// The first 28-bit value that stands for a 22-bit hash.
pub const HASHED_FROM: u32 = 2063592;

/// The first 28-bit value that spells a standard callsign.
pub const STANDARD_FROM: u32 = 6257896;

/// The six characters of a standard callsign, last character first: three
/// of space and `A..Z`, a digit, one of `0..9A..Z`, one of space and
/// `0..9A..Z`.
pub open spec fn standard_call_chars(n: u32) -> Seq<char> {
    seq![
        lookup_char(ALPHA_SPACE@, (n % 27) as int),
        lookup_char(ALPHA_SPACE@, (n / 27 % 27) as int),
        lookup_char(ALPHA_SPACE@, (n / 729 % 27) as int),
        lookup_char(NUMERIC@, (n / 19683 % 10) as int),
        lookup_char(ALPHANUMERIC@, (n / 196830 % 36) as int),
        lookup_char(ALPHANUMERIC_SPACE@, (n / 7085880 % 37) as int),
    ]
}

/// The letters after `CQ` in a directed call, last letter first: the
/// digits of `n` in base 27 over space and `A..Z`.
pub open spec fn directed_chars(n: nat) -> Seq<char>
    decreases n,
{
    if n == 0 {
        Seq::empty()
    } else {
        seq![lookup_char(ALPHA_SPACE@, (n % 27) as int)] + directed_chars(n / 27)
    }
}

/// The text of a 28-bit callsign field.
pub open spec fn call_text(n: u32) -> Seq<char> {
    if n == 0 {
        "DE"@
    } else if n == 1 {
        "QRZ"@
    } else if n == 2 {
        "CQ"@
    } else if n < 1004 {
        "CQ "@ + decimal_padded((n - 3) as nat, 3)
    } else if n < HASHED_FROM {
        "CQ "@ + trim_spaces(directed_chars((n - 1003) as nat)).reverse()
    } else if n < STANDARD_FROM {
        seq!['<'] + decimal((n - HASHED_FROM) as nat) + seq!['>']
    } else {
        trim_spaces(standard_call_chars((n - STANDARD_FROM) as u32)).reverse()
    }
}

/// The text of a 58-bit callsign field: 11 digits in base 38, read from the
/// most significant, without the spaces at both ends.
pub open spec fn call58_text(n: u64) -> Seq<char> {
    trim_spaces(radix_chars(n as nat, NONSTD_CHARSET@, 11)).reverse()
}

/// A 28-bit callsign field that is no hash, with the suffix that the
/// message gives it.
#[derive(Debug, Clone, Copy)]
pub struct Callsign28 {
    pub c28: u32,
    pub suffix: Option<char>,
}

/// The callsign of a 28-bit field: the field itself, or the hash in it.
#[derive(Debug, Clone)]
pub enum Callsign {
    C28(Callsign28),
    H22(HashedCallsign<22>),
}

impl Callsign {
    /// A 28-bit value that stands for a 22-bit hash.
    pub open spec fn is_hashed(n: u32) -> bool {
        HASHED_FROM <= n < STANDARD_FROM
    }

    /// This value is what the field `n` decodes to, with the suffix
    /// `suffix` and the table `map`.
    pub open spec fn decoded_from(&self, n: u32, suffix: Option<char>, map: &CallsignMap) -> bool {
        match *self {
            Callsign::C28(call) => !Self::is_hashed(n) && call.c28 == n && call.suffix == suffix,
            Callsign::H22(hashed) => Self::is_hashed(n) && hashed.resolves(
                (n - HASHED_FROM) as u32,
                map,
            ),
        }
    }

    /// The text of the callsign.
    pub open spec fn rendered(&self) -> Seq<char> {
        match *self {
            Callsign::C28(call) => call.rendered(),
            Callsign::H22(hashed) => hashed.rendered(),
        }
    }

    /// Reads the field from its bits, first bit most significant.
    pub fn from_bits(message: &[bool; 28], callsign_map: &CallsignMap) -> (callsign: Self)
        ensures
            callsign.decoded_from(bits_value(message@) as u32, None, callsign_map),
    {
        let num = bool_slice_to_u32(message);
        Self::from_u32(num, None, callsign_map)
    }

    /// Reads the field from its bits, first bit most significant.
    pub fn from_bits_with_suffix(
        message: &[bool; 28],
        suffix: Option<char>,
        callsign_map: &CallsignMap,
    ) -> (callsign: Self)
        ensures
            callsign.decoded_from(bits_value(message@) as u32, suffix, callsign_map),
    {
        let num = bool_slice_to_u32(message);
        Self::from_u32(num, suffix, callsign_map)
    }

    /// A value in the range of the hashes is looked up in the table, and the
    /// suffix is dropped; any other value is kept with its suffix.
    pub fn from_u32(n: u32, suffix: Option<char>, callsign_map: &CallsignMap) -> (callsign: Self)
        ensures
            callsign.decoded_from(n, suffix, callsign_map),
    {
        if n >= HASHED_FROM && n < STANDARD_FROM {
            Self::H22(HashedCallsign::from_hash(n - HASHED_FROM, callsign_map))
        } else {
            Self::C28(Callsign28::from_u32(n, suffix))
        }
    }

    /// Renders the text that `rendered` describes.
    pub fn to_string(&self) -> (text: String)
        ensures
            text@ == self.rendered(),
    {
        match self {
            Callsign::C28(call) => call.to_string(),
            Callsign::H22(hashed) => hashed.to_string(),
        }
    }
}

impl Callsign28 {
    /// The text of the field, then `/` and the suffix where there is one.
    pub open spec fn rendered(&self) -> Seq<char> {
        match self.suffix {
            Some(suffix) => call_text(self.c28) + seq!['/', suffix],
            None => call_text(self.c28),
        }
    }

    /// Holds the number of the field.
    pub fn from_u32(n: u32, suffix: Option<char>) -> (call: Self)
        ensures
            call.c28 == n,
            call.suffix == suffix,
    {
        Self { c28: n, suffix }
    }

    /// The standard callsign that `n` spells.
    pub fn to_standard_call(n: u32) -> (call: String)
        ensures
            call@ == trim_spaces(standard_call_chars(n)).reverse(),
    {
        let ghost field = n;
        let mut n = n;
        let mut call: Vec<char> = Vec::new();
        call.push(char_lookup((n % 27) as usize, ALPHA_SPACE));
        n = n / 27;
        call.push(char_lookup((n % 27) as usize, ALPHA_SPACE));
        n = n / 27;
        call.push(char_lookup((n % 27) as usize, ALPHA_SPACE));
        n = n / 27;
        call.push(char_lookup((n % 10) as usize, NUMERIC));
        n = n / 10;
        call.push(char_lookup((n % 36) as usize, ALPHANUMERIC));
        n = n / 36;
        call.push(char_lookup((n % 37) as usize, ALPHANUMERIC_SPACE));
        proof {
            assert(call@ =~= standard_call_chars(field));
        }
        trimmed_reversed(&call)
    }

    /// The letters of a directed call that `n` spells.
    pub fn num_to_str(n: u32) -> (letters: String)
        ensures
            letters@ == trim_spaces(directed_chars(n as nat)).reverse(),
    {
        let mut s: Vec<char> = Vec::new();
        let mut rest = n;
        proof {
            assert(Seq::<char>::empty() + directed_chars(n as nat) =~= directed_chars(n as nat));
        }
        while rest > 0
            invariant
                directed_chars(n as nat) == s@ + directed_chars(rest as nat),
            decreases rest,
        {
            let ghost before = s@;
            let c = char_lookup((rest % 27) as usize, ALPHA_SPACE);
            s.push(c);
            proof {
                let tail = directed_chars((rest / 27) as nat);
                assert(before + (seq![c] + tail) =~= s@ + tail);
            }
            rest = rest / 27;
        }
        proof {
            assert(s@ + Seq::<char>::empty() =~= s@);
        }
        trimmed_reversed(&s)
    }

    /// The text of a 28-bit callsign field.
    pub fn to_call(n: u32) -> (call: String)
        ensures
            call@ == call_text(n),
    {
        if n == 0 {
            return String::from_str("DE");
        }
        if n == 1 {
            return String::from_str("QRZ");
        }
        if n == 2 {
            return String::from_str("CQ");
        }
        if n < 1004 {
            let mut call = String::from_str("CQ ");
            push_decimal(&mut call, (n - 3) as u64, 3);
            return call;
        }
        if n < HASHED_FROM {
            let mut call = String::from_str("CQ ");
            let letters = Self::num_to_str(n - 1003);
            call.append(letters.as_str());
            return call;
        }
        if n < STANDARD_FROM {
            let mut call = String::new();
            push_char(&mut call, '<');
            push_decimal(&mut call, (n - HASHED_FROM) as u64, 0);
            push_char(&mut call, '>');
            proof {
                assert(call@ =~= seq!['<'] + decimal((n - HASHED_FROM) as nat) + seq!['>']);
            }
            return call;
        }
        Self::to_standard_call(n - STANDARD_FROM)
    }

    /// Renders the text that `rendered` describes.
    pub fn to_string(&self) -> (text: String)
        ensures
            text@ == self.rendered(),
    {
        let mut text = Self::to_call(self.c28);
        if let Some(suffix) = self.suffix {
            let ghost call = text@;
            push_char(&mut text, '/');
            push_char(&mut text, suffix);
            proof {
                assert(text@ =~= call + seq!['/', suffix]);
            }
        }
        text
    }
}

/// A 58-bit field that spells a callsign of up to 11 characters.
#[derive(Debug, Clone, Copy)]
pub struct Callsign58 {
    pub c58: u64,
}

impl Callsign58 {
    /// The text of the callsign.
    pub open spec fn rendered(&self) -> Seq<char> {
        call58_text(self.c58)
    }

    /// Reads the field from its bits, first bit most significant.
    pub fn from_bits(message: &[bool; 58]) -> (call: Self)
        ensures
            call.c58 == bits_value(message@),
    {
        Self::from_u64(bool_slice_to_u64(message))
    }

    /// Holds the number of the field.
    pub fn from_u64(n: u64) -> (call: Self)
        ensures
            call.c58 == n,
    {
        Self { c58: n }
    }

    /// The callsign that the field spells.
    pub fn to_call(&self) -> (call: String)
        ensures
            call@ == call58_text(self.c58),
    {
        proof {
            reveal_strlit(" 0123456789ABCDEFGHIJKLMNOPQRSTUVWXYZ/");
        }
        let text = radix_digits(self.c58 as u128, NONSTD_CHARSET, 11);
        trimmed_reversed(&text)
    }

    /// Renders the text that `rendered` describes.
    pub fn to_string(&self) -> (text: String)
        ensures
            text@ == self.rendered(),
    {
        self.to_call()
    }
}

} // verus!
