//! The callsign table: callsign strings under their 22-bit hash, and an
//! index from the upper 12 bits of a hash to the hash.

use std::collections::hash_map;
use std::collections::HashMap;
use vstd::prelude::*;
use vstd::std_specs::hash::*;
use vstd::string::*;
use vstd::utf8::is_ascii_chars;

verus! {

broadcast use {vstd::std_specs::hash::group_hash_axioms, vstd::string::is_ascii_spec_bytes};

/// The 38 symbols a hashed callsign is written in.
pub const ALPHABET: &'static str = " 0123456789ABCDEFGHIJKLMNOPQRSTUVWXYZ/";

/// The position of a character in the alphabet; a character outside it
/// counts as the space at position 0.
pub open spec fn alphabet_index(c: char) -> nat {
    if '0' <= c <= '9' {
        (c as nat - '0' as nat + 1) as nat
    } else if 'A' <= c <= 'Z' {
        (c as nat - 'A' as nat + 11) as nat
    } else if c == '/' {
        37
    } else {
        0
    }
}

/// `alphabet_index` gives each symbol of `ALPHABET` its position.
pub proof fn lemma_alphabet_index(i: int)
    requires
        0 <= i < 38,
    ensures
        ALPHABET@.len() == 38,
        alphabet_index(ALPHABET@[i]) == i,
{
    reveal_strlit(" 0123456789ABCDEFGHIJKLMNOPQRSTUVWXYZ/");
}

/// The number that a string denotes in base 38, first character most
/// significant.
pub open spec fn base38_value(s: Seq<char>) -> nat
    decreases s.len(),
{
    if s.len() == 0 {
        0
    } else {
        38 * base38_value(s.drop_last()) + alphabet_index(s.last())
    }
}

/// `s`, with spaces behind it up to 11 characters.
pub open spec fn left_justified(s: Seq<char>) -> Seq<char> {
    s + Seq::new((11 - s.len()) as nat, |i: int| ' ')
}

/// A callsign that can be hashed: at most 11 characters, all of them ASCII.
pub open spec fn hashable(s: Seq<char>) -> bool {
    s.len() <= 11 && is_ascii_chars(s)
}

/// The 22-bit hash of a callsign: its 11 left-justified characters read as
/// a number in base 38, multiplied by 47055833459 in 64-bit arithmetic, of
/// which the upper 22 bits are taken.
pub open spec fn spec_hash(s: Seq<char>) -> u32 {
    (((base38_value(left_justified(s)) * 47055833459) % 0x1_0000_0000_0000_0000)
        / 0x400_0000_0000) as u32
}

/// The upper 12 bits of a 22-bit hash.
pub open spec fn spec_hash12(h22: u32) -> u16 {
    (h22 / 1024) as u16
}

/// 38 to the power of `n`.
pub open spec fn pow38(n: nat) -> nat
    decreases n,
{
    if n == 0 {
        1
    } else {
        38 * pow38((n - 1) as nat)
    }
}

proof fn lemma_base38_bound(s: Seq<char>)
    ensures
        base38_value(s) < pow38(s.len()),
    decreases s.len(),
{
    if s.len() > 0 {
        lemma_base38_bound(s.drop_last());
    }
}

proof fn lemma_pow38_11()
    ensures
        pow38(11) == 238572050223552512,
{
    reveal_with_fuel(pow38, 12);
}

/// The table from a byte to the alphabet position of its character.
pub fn compute_char_map() -> (char_map: [u8; 256])
    ensures
        forall|b: u8| #![auto] char_map@[b as int] == alphabet_index(b as char),
{
    let mut char_map = [0u8; 256];
    let table = ALPHABET;
    proof {
        reveal_strlit(" 0123456789ABCDEFGHIJKLMNOPQRSTUVWXYZ/");
        assert(is_ascii(table));
        assert forall|k: int| 0 <= k < 38 implies alphabet_index(#[trigger] table@[k]) == k by {
            lemma_alphabet_index(k);
        }
    }
    let mut i: usize = 0;
    while i < 38
        invariant
            i <= 38,
            table == ALPHABET,
            table@.len() == 38,
            is_ascii(table),
            forall|k: int| 0 <= k < 38 ==> alphabet_index(#[trigger] table@[k]) == k,
            forall|b: u8|
                #![auto]
                char_map@[b as int] == if alphabet_index(b as char) < i {
                    alphabet_index(b as char)
                } else {
                    0
                },
        decreases 38 - i,
    {
        let byte = table.get_ascii(i);
        char_map[byte as usize] = i as u8;
        i += 1;
    }
    char_map
}

/// Callsigns under their 22-bit hash, with an index from the upper 12 bits
/// of a hash to the hash that was inserted last under them.
#[derive(Debug, Clone)]
pub struct CallsignMap {
    pub map: HashMap<u32, String>,
    pub map12: HashMap<u16, u32>,
}

impl CallsignMap {
    /// Every entry of the 12-bit index leads to an entry of the table, under
    /// a hash that begins with those 12 bits.
    pub open spec fn wf(&self) -> bool {
        forall|k: u16| #[trigger]
            self.map12@.contains_key(k) ==> self.map@.contains_key(self.map12@[k]) && spec_hash12(
                self.map12@[k],
            ) == k
    }

    /// The callsign stored under a 22-bit hash.
    pub open spec fn lookup_22(&self, hash: u32) -> Option<String> {
        if self.map@.contains_key(hash) {
            Some(self.map@[hash])
        } else {
            None
        }
    }

    /// The callsign that the 12-bit index leads to.
    pub open spec fn lookup_12(&self, hash: u16) -> Option<String> {
        if self.map12@.contains_key(hash) {
            self.lookup_22(self.map12@[hash])
        } else {
            None
        }
    }

    /// The `k`-th of the four 12-bit keys that begin with a 10-bit hash.
    pub open spec fn key_10(hash: u16, k: int) -> u16 {
        (((hash as int * 4) % 0x1_0000) + k) as u16
    }

    /// The callsign under the first of the four 12-bit keys of a 10-bit hash
    /// that leads to one.
    pub open spec fn lookup_10(&self, hash: u16) -> Option<String> {
        if self.lookup_12(Self::key_10(hash, 0)) is Some {
            self.lookup_12(Self::key_10(hash, 0))
        } else if self.lookup_12(Self::key_10(hash, 1)) is Some {
            self.lookup_12(Self::key_10(hash, 1))
        } else if self.lookup_12(Self::key_10(hash, 2)) is Some {
            self.lookup_12(Self::key_10(hash, 2))
        } else {
            self.lookup_12(Self::key_10(hash, 3))
        }
    }

    /// An empty table.
    pub fn new() -> (table: Self)
        ensures
            table.map@ == Map::<u32, String>::empty(),
            table.map12@ == Map::<u16, u32>::empty(),
            table.wf(),
    {
        Self { map: HashMap::new(), map12: HashMap::new() }
    }

    /// The 22-bit hash of a callsign.
    pub fn hash(callsign: &String) -> (h: u32)
        requires
            hashable(callsign@),
        ensures
            h == spec_hash(callsign@),
            h < 0x40_0000,
    {
        let char_map = compute_char_map();
        let text = callsign.as_str();
        let bytes = text.as_bytes();
        let len = bytes.len();
        let ghost justified = left_justified(callsign@);
        let mut acc: u64 = 0;
        let mut i: usize = 0;
        proof {
            assert(is_ascii(text));
            lemma_pow38_11();
        }
        while i < 11
            invariant
                i <= 11,
                len == callsign@.len() <= 11,
                justified == left_justified(callsign@),
                bytes@ == Seq::new(callsign@.len(), |k: int| callsign@[k] as u8),
                is_ascii_chars(callsign@),
                forall|b: u8| #![auto] char_map@[b as int] == alphabet_index(b as char),
                acc as nat == base38_value(justified.take(i as int)),
            decreases 11 - i,
        {
            let byte: u8 = if i < len { bytes[i] } else { 32 };
            proof {
                assert(justified.take(i + 1).drop_last() =~= justified.take(i as int));
                assert(byte as char == justified[i as int]);
                lemma_base38_bound(justified.take(i as int));
                lemma_pow38_monotone(i as nat, 10);
                reveal_with_fuel(pow38, 12);
            }
            acc = acc * 38 + char_map[byte as usize] as u64;
            i += 1;
        }
        proof {
            assert(justified.take(11) =~= justified);
        }
        let mixed = acc.wrapping_mul(47055833459);
        let h = mixed >> 42;
        proof {
            assert(mixed as int == (acc as int * 47055833459) % 0x1_0000_0000_0000_0000);
            assert(mixed >> 42 == mixed / 0x400_0000_0000) by (bit_vector);
            assert(mixed >> 42 < 0x40_0000) by (bit_vector);
        }
        h as u32
    }

    /// Stores a callsign under its hash, and the hash under its upper 12
    /// bits; what stood under either before is replaced.
    pub fn insert(&mut self, callsign: &String) -> (h: u32)
        requires
            hashable(callsign@),
        ensures
            h == spec_hash(callsign@),
            final(self).map@ == old(self).map@.insert(h, *callsign),
            final(self).map12@ == old(self).map12@.insert(spec_hash12(h), h),
            final(self).lookup_22(h) == Some(*callsign),
            final(self).lookup_12(spec_hash12(h)) == Some(*callsign),
            old(self).wf() ==> final(self).wf(),
    {
        let hash = Self::hash(callsign);
        self.map.insert(hash, callsign.clone());
        proof {
            assert(hash >> 10 == hash / 1024) by (bit_vector);
            assert(hash >> 10 < 0x1000) by (bit_vector)
                requires
                    hash < 0x40_0000,
            ;
        }
        self.map12.insert((hash >> 10) as u16, hash);
        hash
    }

    /// Removes the entry under a callsign's hash, and the index entry under
    /// the upper 12 bits of that hash.
    pub fn remove(&mut self, callsign: &String)
        requires
            hashable(callsign@),
        ensures
            final(self).map@ == old(self).map@.remove(spec_hash(callsign@)),
            final(self).map12@ == old(self).map12@.remove(spec_hash12(spec_hash(callsign@))),
            old(self).wf() ==> final(self).wf(),
    {
        let hash = Self::hash(callsign);
        self.map.remove(&hash);
        proof {
            assert(hash >> 10 == hash / 1024) by (bit_vector);
            assert(hash >> 10 < 0x1000) by (bit_vector)
                requires
                    hash < 0x40_0000,
            ;
        }
        self.map12.remove(&((hash >> 10) as u16));
    }

    /// The callsign stored under a 22-bit hash.
    pub fn get_22(&self, hash: u32) -> (found: Option<&String>)
        ensures
            match found {
                Some(callsign) => self.lookup_22(hash) == Some(*callsign),
                None => self.lookup_22(hash) is None,
            },
    {
        self.map.get(&hash)
    }

    /// The callsign that the 12-bit index leads to.
    pub fn get_12(&self, hash: u16) -> (found: Option<&String>)
        ensures
            match found {
                Some(callsign) => self.lookup_12(hash) == Some(*callsign),
                None => self.lookup_12(hash) is None,
            },
    {
        match self.map12.get(&hash) {
            Some(h22) => self.map.get(h22),
            None => None,
        }
    }

    /// The callsign under the first of the four 12-bit keys
    /// `(hash << 2) + k` that leads to one.
    pub fn get_10(&self, hash: u16) -> (found: Option<&String>)
        ensures
            match found {
                Some(callsign) => self.lookup_10(hash) == Some(*callsign),
                None => self.lookup_10(hash) is None,
            },
    {
        let base: u16 = hash << 2;
        proof {
            assert(hash << 2 == (hash as int * 4) % 0x1_0000) by (bit_vector);
            assert(hash << 2 <= 0xfffc) by (bit_vector);
        }
        let mut k: u16 = 0;
        while k < 4
            invariant
                k <= 4,
                base <= 0xfffc,
                base as int == (hash as int * 4) % 0x1_0000,
                forall|j: int| 0 <= j < k ==> self.lookup_12(Self::key_10(hash, j)) is None,
            decreases 4 - k,
        {
            let found = self.get_12(base + k);
            if found.is_some() {
                return found;
            }
            k += 1;
        }
        None
    }

    /// The entries of the table, each 22-bit hash with its callsign, in no
    /// particular order.
    pub fn iter(&self) -> (entries: hash_map::Iter<'_, u32, String>)
        ensures
            entries == spec_hash_map_iter(&self.map),
    {
        self.map.iter()
    }
}

impl Default for CallsignMap {
    /// An empty table.
    fn default() -> (table: Self)
        ensures
            table.map@ == Map::<u32, String>::empty(),
            table.map12@ == Map::<u16, u32>::empty(),
            table.wf(),
    {
        Self::new()
    }
}

proof fn lemma_pow38_monotone(a: nat, b: nat)
    requires
        a <= b,
    ensures
        pow38(a) <= pow38(b),
    decreases b - a,
{
    if a < b {
        lemma_pow38_monotone(a, (b - 1) as nat);
    }
}

} // verus!
