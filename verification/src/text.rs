//! Building the textual forms: decimal numbers, trimming and reversal.

use crate::utils::{char_lookup, lookup_char};
use vstd::prelude::*;
use vstd::string::*;

verus! {

/// The character of a decimal digit.
pub open spec fn digit_char(d: nat) -> char {
    ('0' as u8 + d) as char
}

/// The character of the decimal digit `d`.
pub fn digit(d: u8) -> (c: char)
    requires
        d < 10,
    ensures
        c == digit_char(d as nat),
{
    (48u8 + d) as char
}

/// The decimal digits of `n`, without leading zeros (`"0"` for zero).
pub open spec fn decimal(n: nat) -> Seq<char>
    decreases n,
{
    if n < 10 {
        seq![digit_char(n)]
    } else {
        decimal(n / 10).push(digit_char(n % 10))
    }
}

/// `count` zeros.
pub open spec fn zeros(count: nat) -> Seq<char> {
    Seq::new(count, |i: int| '0')
}

/// The decimal digits of `n`, with zeros in front up to `width` characters.
pub open spec fn decimal_padded(n: nat, width: nat) -> Seq<char> {
    if decimal(n).len() >= width {
        decimal(n)
    } else {
        zeros((width - decimal(n).len()) as nat) + decimal(n)
    }
}

/// The decimal form of a signed number, with `-` in front of a negative one.
pub open spec fn signed_decimal(i: int) -> Seq<char> {
    if i < 0 {
        seq!['-'] + decimal((-i) as nat)
    } else {
        decimal(i as nat)
    }
}

/// `s` without the spaces at its front.
pub open spec fn trim_start(s: Seq<char>) -> Seq<char>
    decreases s.len(),
{
    if s.len() > 0 && s[0] == ' ' {
        trim_start(s.drop_first())
    } else {
        s
    }
}

/// `s` without the spaces at its end.
pub open spec fn trim_end(s: Seq<char>) -> Seq<char>
    decreases s.len(),
{
    if s.len() > 0 && s.last() == ' ' {
        trim_end(s.drop_last())
    } else {
        s
    }
}

/// `s` without the spaces at both ends.
pub open spec fn trim_spaces(s: Seq<char>) -> Seq<char> {
    trim_end(trim_start(s))
}

/// `std::string::String::push`: the string grows by the one character at its
/// end.
#[verifier::external_body]
pub(crate) fn push_char(s: &mut String, c: char)
    ensures
        final(s)@ == old(s)@.push(c),
{
    s.push(c)
}

/// Appends `chars[from..to]` to `s`, last character first.
fn push_reversed(s: &mut String, chars: &Vec<char>, from: usize, to: usize)
    requires
        from <= to <= chars@.len(),
    ensures
        final(s)@ == old(s)@ + chars@.subrange(from as int, to as int).reverse(),
{
    let mut k: usize = to;
    let ghost part = chars@.subrange(from as int, to as int);
    while k > from
        invariant
            from <= k <= to <= chars@.len(),
            part == chars@.subrange(from as int, to as int),
            s@ == old(s)@ + part.reverse().subrange(0, to - k),
        decreases k,
    {
        k -= 1;
        push_char(s, chars[k]);
        proof {
            assert(part.reverse()[to - k - 1] == chars@[k as int]);
            assert(s@ =~= old(s)@ + part.reverse().subrange(0, to - k));
        }
    }
    proof {
        assert(part.reverse().subrange(0, to - from) =~= part.reverse());
    }
}

/// Appends the decimal digits of `n` to `s`, with zeros in front up to
/// `width` characters.
pub fn push_decimal(s: &mut String, n: u64, width: usize)
    ensures
        final(s)@ == old(s)@ + decimal_padded(n as nat, width as nat),
{
    let mut low_first: Vec<char> = Vec::new();
    low_first.push(digit((n % 10) as u8));
    let mut rest: u64 = n / 10;
    while rest > 0
        invariant
            decimal(n as nat) == (if rest > 0 {
                decimal(rest as nat)
            } else {
                Seq::<char>::empty()
            }) + low_first@.reverse(),
        decreases rest,
    {
        let ghost before = low_first@;
        low_first.push(digit((rest % 10) as u8));
        proof {
            let d = digit_char((rest % 10) as nat);
            assert(low_first@.reverse() =~= seq![d] + before.reverse());
            let front = if rest / 10 > 0 {
                decimal((rest / 10) as nat)
            } else {
                Seq::<char>::empty()
            };
            assert(decimal(rest as nat) =~= front + seq![d]);
            assert(decimal(n as nat) =~= front + low_first@.reverse());
        }
        rest = rest / 10;
    }
    proof {
        assert(decimal(n as nat) =~= low_first@.reverse());
    }
    let digits = low_first.len();
    let mut pad: usize = 0;
    let ghost missing: nat = if digits >= width { 0 } else { (width - digits) as nat };
    while pad + digits < width
        invariant
            digits == low_first@.len(),
            pad <= missing,
            missing == if digits >= width { 0 } else { (width - digits) as nat },
            s@ == old(s)@ + zeros(pad as nat),
        decreases width - pad,
    {
        push_char(s, '0');
        pad += 1;
        proof {
            assert(s@ =~= old(s)@ + zeros(pad as nat));
        }
    }
    push_reversed(s, &low_first, 0, digits);
    proof {
        assert(low_first@.subrange(0, digits as int) =~= low_first@);
        assert(s@ =~= old(s)@ + (zeros(pad as nat) + decimal(n as nat)));
        if digits >= width {
            assert(zeros(0) + decimal(n as nat) =~= decimal(n as nat));
        }
    }
}

/// Appends the decimal form of a signed number to `s`.
pub fn push_signed_decimal(s: &mut String, i: i64)
    ensures
        final(s)@ == old(s)@ + signed_decimal(i as int),
{
    if i < 0 {
        push_char(s, '-');
        let magnitude: u64 = (-(i + 1)) as u64 + 1;
        push_decimal(s, magnitude, 0);
        proof {
            assert(s@ =~= old(s)@ + (seq!['-'] + decimal((-i) as nat)));
        }
    } else {
        push_decimal(s, i as u64, 0);
    }
}

/// Where `chars` begins and ends once the spaces at both ends are taken
/// off.
pub fn trim_bounds(chars: &Vec<char>) -> (bounds: (usize, usize))
    ensures
        bounds.0 <= bounds.1 <= chars@.len(),
        trim_spaces(chars@) == chars@.subrange(bounds.0 as int, bounds.1 as int),
{
    let len = chars.len();
    let mut lo: usize = 0;
    proof {
        assert(chars@.subrange(0, len as int) =~= chars@);
    }
    while lo < len && chars[lo] == ' '
        invariant
            lo <= len == chars@.len(),
            trim_start(chars@) == trim_start(chars@.subrange(lo as int, len as int)),
        decreases len - lo,
    {
        proof {
            assert(chars@.subrange(lo as int, len as int).drop_first() =~= chars@.subrange(
                lo + 1,
                len as int,
            ));
        }
        lo += 1;
    }
    let mut hi: usize = len;
    while hi > lo && chars[hi - 1] == ' '
        invariant
            lo <= hi <= len == chars@.len(),
            trim_start(chars@) == chars@.subrange(lo as int, len as int),
            trim_spaces(chars@) == trim_end(chars@.subrange(lo as int, hi as int)),
        decreases hi,
    {
        proof {
            assert(chars@.subrange(lo as int, hi as int).drop_last() =~= chars@.subrange(
                lo as int,
                hi - 1,
            ));
        }
        hi -= 1;
    }
    (lo, hi)
}

/// The characters of `chars`, without the spaces at both ends and in
/// reverse order.
pub fn trimmed_reversed(chars: &Vec<char>) -> (s: String)
    ensures
        s@ == trim_spaces(chars@).reverse(),
{
    let (lo, hi) = trim_bounds(chars);
    let mut s = String::new();
    push_reversed(&mut s, chars, lo, hi);
    proof {
        assert(s@ =~= chars@.subrange(lo as int, hi as int).reverse());
    }
    s
}

/// `text` without the spaces at both ends.
pub fn trimmed(text: &str) -> (s: String)
    ensures
        s@ == trim_spaces(text@),
{
    let len = text.unicode_len();
    let mut chars: Vec<char> = Vec::new();
    let mut i: usize = 0;
    while i < len
        invariant
            i <= len == text@.len(),
            chars@ == text@.subrange(0, i as int),
        decreases len - i,
    {
        chars.push(text.get_char(i));
        proof {
            assert(chars@ =~= text@.subrange(0, i + 1));
        }
        i += 1;
    }
    proof {
        assert(text@.subrange(0, len as int) =~= text@);
    }
    let (lo, hi) = trim_bounds(&chars);
    let mut s = String::new();
    let mut k: usize = lo;
    while k < hi
        invariant
            lo <= k <= hi <= chars@.len(),
            s@ == chars@.subrange(lo as int, k as int),
        decreases hi - k,
    {
        push_char(&mut s, chars[k]);
        proof {
            assert(s@ =~= chars@.subrange(lo as int, k + 1));
        }
        k += 1;
    }
    s
}

/// The `count` lowest digits of `n` in the base that `charset` has symbols
/// for, lowest digit first, each written as its symbol.
pub open spec fn radix_chars(n: nat, charset: Seq<char>, count: nat) -> Seq<char>
    decreases count,
{
    if count == 0 {
        Seq::empty()
    } else {
        seq![lookup_char(charset, (n % charset.len()) as int)] + radix_chars(
            n / charset.len(),
            charset,
            (count - 1) as nat,
        )
    }
}

/// The `count` lowest digits of `n` over `charset`, lowest digit first.
pub fn radix_digits(n: u128, charset: &str, count: usize) -> (digits: Vec<char>)
    requires
        charset@.len() > 0,
    ensures
        digits@ == radix_chars(n as nat, charset@, count as nat),
{
    let base = charset.unicode_len();
    let mut digits: Vec<char> = Vec::new();
    let mut rest: u128 = n;
    let mut i: usize = 0;
    proof {
        assert(Seq::<char>::empty() + radix_chars(n as nat, charset@, count as nat)
            =~= radix_chars(n as nat, charset@, count as nat));
    }
    while i < count
        invariant
            i <= count,
            base == charset@.len(),
            base > 0,
            radix_chars(n as nat, charset@, count as nat) == digits@ + radix_chars(
                rest as nat,
                charset@,
                (count - i) as nat,
            ),
        decreases count - i,
    {
        let ghost before = digits@;
        let c = char_lookup((rest % (base as u128)) as usize, charset);
        digits.push(c);
        proof {
            let tail = radix_chars((rest / (base as u128)) as nat, charset@, (count - i - 1) as nat);
            assert(before + (seq![c] + tail) =~= digits@ + tail);
        }
        rest = rest / (base as u128);
        i += 1;
    }
    proof {
        assert(digits@ + Seq::<char>::empty() =~= digits@);
    }
    digits
}

/// The characters of `chars` in reverse order.
pub fn reversed(chars: &Vec<char>) -> (s: String)
    ensures
        s@ == chars@.reverse(),
{
    let mut s = String::new();
    push_reversed(&mut s, chars, 0, chars.len());
    proof {
        assert(chars@.subrange(0, chars@.len() as int) =~= chars@);
        assert(s@ =~= chars@.reverse());
    }
    s
}

/// The texts of a list of strings.
pub open spec fn texts(names: Seq<String>) -> Seq<Seq<char>> {
    Seq::new(names.len(), |i: int| names[i]@)
}

} // verus!
