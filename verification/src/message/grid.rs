//! Maidenhead locators of four and six characters, and the reports that
//! share the 15-bit field of the four-character locator.

use crate::text::{decimal_padded, digit, digit_char, push_char, push_decimal};
use crate::utils::{bits_value, bool_slice_to_u16, bool_slice_to_u32};
use vstd::prelude::*;
use vstd::string::*;

verus! {

/// The `k`-th capital letter, `'A'` for 0.
pub open spec fn capital(k: nat) -> char {
    ('A' as u8 + k) as char
}

/// The `k`-th capital letter.
pub fn capital_letter(k: u8) -> (c: char)
    requires
        k < 26,
    ensures
        c == capital(k as nat),
{
    (65u8 + k) as char
}

/// The text of a 15-bit locator field: up to 32400 a locator of two
/// letters `A..R` and two digits; above it nothing, `RRR`, `RR73`, `73`,
/// or a signed two-digit report.
pub open spec fn grid4_text(n: u16) -> Seq<char> {
    if n <= 32400 {
        seq![
            capital((n / 1800 % 18) as nat),
            capital((n / 100 % 18) as nat),
            digit_char((n / 10 % 10) as nat),
            digit_char((n % 10) as nat),
        ]
    } else if n == 32401 {
        Seq::empty()
    } else if n == 32402 {
        "RRR"@
    } else if n == 32403 {
        "RR73"@
    } else if n == 32404 {
        "73"@
    } else if n < 32435 {
        seq!['-'] + decimal_padded((32435 - n) as nat, 2)
    } else {
        seq!['+'] + decimal_padded((n - 32435) as nat, 2)
    }
}

/// The text of a 25-bit locator: two letters `A..R`, two digits, two
/// letters `A..X`.
pub open spec fn grid6_text(n: u32) -> Seq<char> {
    seq![
        capital((n / 1036800 % 18) as nat),
        capital((n / 57600 % 18) as nat),
        digit_char((n / 5760 % 10) as nat),
        digit_char((n / 576 % 10) as nat),
        capital((n / 24 % 24) as nat),
        capital((n % 24) as nat),
    ]
}

/// A four-character locator or a report, with the flag that puts `R` in
/// front of it.
#[derive(Debug, Clone, Copy)]
pub struct Grid4 {
    pub has_r: bool,
    pub grid: u16,
}

impl Grid4 {
    /// The text of the field: `R` where the flag is set, then the locator
    /// or report.
    pub open spec fn rendered(&self) -> Seq<char> {
        (if self.has_r {
            seq!['R']
        } else {
            Seq::<char>::empty()
        }) + grid4_text(self.grid)
    }

    /// Reads the field from its bits, first bit most significant.
    pub fn from_bits_with_r(message: &[bool; 15], has_r: bool) -> (grid: Self)
        ensures
            grid.grid == bits_value(message@),
            grid.has_r == has_r,
    {
        Self::from_u16(bool_slice_to_u16(message), has_r)
    }

    /// Holds the number of the field and the flag.
    pub fn from_u16(n: u16, has_r: bool) -> (grid: Self)
        ensures
            grid.grid == n,
            grid.has_r == has_r,
    {
        Self { grid: n, has_r: has_r }
    }

    /// The text of a 15-bit locator field.
    pub fn to_grid(n: u16) -> (text: String)
        ensures
            text@ == grid4_text(n),
    {
        let mut grid = String::new();
        if n <= 32400 {
            let ghost field = n;
            let mut n = n;
            let d0 = digit((n % 10) as u8);
            n = n / 10;
            let d1 = digit((n % 10) as u8);
            n = n / 10;
            let l0 = capital_letter((n % 18) as u8);
            n = n / 18;
            let l1 = capital_letter((n % 18) as u8);
            push_char(&mut grid, l1);
            push_char(&mut grid, l0);
            push_char(&mut grid, d1);
            push_char(&mut grid, d0);
            proof {
                assert(grid@ =~= grid4_text(field));
            }
            return grid;
        }
        let n = n - 32400;
        if n == 1 {
            return grid;
        }
        if n == 2 {
            return String::from_str("RRR");
        }
        if n == 3 {
            return String::from_str("RR73");
        }
        if n == 4 {
            return String::from_str("73");
        }
        if n < 35 {
            push_char(&mut grid, '-');
            push_decimal(&mut grid, (35 - n) as u64, 2);
            return grid;
        }
        push_char(&mut grid, '+');
        push_decimal(&mut grid, (n - 35) as u64, 2);
        grid
    }

    /// Renders the text that `rendered` describes.
    pub fn to_string(&self) -> (text: String)
        ensures
            text@ == self.rendered(),
    {
        let grid = Self::to_grid(self.grid);
        if self.has_r {
            let mut text = String::from_str("R");
            proof {
                reveal_strlit("R");
                assert("R"@ =~= seq!['R']);
            }
            text.append(grid.as_str());
            text
        } else {
            proof {
                assert(Seq::<char>::empty() + grid@ =~= grid@);
            }
            grid
        }
    }
}

/// A six-character locator.
#[derive(Debug, Clone, Copy)]
pub struct Grid6 {
    pub grid: u32,
}

impl Grid6 {
    /// The text of the locator.
    pub open spec fn rendered(&self) -> Seq<char> {
        grid6_text(self.grid)
    }

    /// Reads the field from its bits, first bit most significant.
    pub fn from_bits(message: &[bool; 25]) -> (grid: Self)
        ensures
            grid.grid == bits_value(message@),
    {
        Self::from_u32(bool_slice_to_u32(message))
    }

    /// Holds the number of the field.
    pub fn from_u32(n: u32) -> (grid: Self)
        ensures
            grid.grid == n,
    {
        Self { grid: n }
    }

    /// The text of a 25-bit locator.
    pub fn to_grid(n: u32) -> (text: String)
        ensures
            text@ == grid6_text(n),
    {
        let ghost field = n;
        let mut n = n;
        let c5 = capital_letter((n % 24) as u8);
        n = n / 24;
        let c4 = capital_letter((n % 24) as u8);
        n = n / 24;
        let c3 = digit((n % 10) as u8);
        n = n / 10;
        let c2 = digit((n % 10) as u8);
        n = n / 10;
        let c1 = capital_letter((n % 18) as u8);
        n = n / 18;
        let c0 = capital_letter((n % 18) as u8);
        let mut grid = String::new();
        push_char(&mut grid, c0);
        push_char(&mut grid, c1);
        push_char(&mut grid, c2);
        push_char(&mut grid, c3);
        push_char(&mut grid, c4);
        push_char(&mut grid, c5);
        proof {
            assert(grid@ =~= grid6_text(field));
        }
        grid
    }

    /// Renders the text that `rendered` describes.
    pub fn to_string(&self) -> (text: String)
        ensures
            text@ == self.rendered(),
    {
        Self::to_grid(self.grid)
    }
}

} // verus!
