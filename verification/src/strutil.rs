//! Small verified helpers over strings and string vectors.

use vstd::prelude::*;

verus! {

/// Character-exact equality of two string slices.
pub fn str_eq(a: &str, b: &str) -> (r: bool)
    ensures
        r == (a@ == b@),
{
    let sa = String::from_str(a);
    let sb = String::from_str(b);
    sa == sb
}

/// Copy a vector of strings, keeping every element's characters.
pub fn clone_string_vec(v: &Vec<String>) -> (r: Vec<String>)
    ensures
        r@ == v@,
{
    let mut r: Vec<String> = Vec::new();
    let mut i: usize = 0;
    while i < v.len()
        invariant
            i <= v.len(),
            r@ =~= v@.take(i as int),
        decreases v.len() - i,
    {
        r.push(v[i].clone());
        i += 1;
    }
    proof {
        assert(v@.take(v@.len() as int) =~= v@);
    }
    r
}

/// Whether some element of `v` spells exactly the characters of `term`.
pub fn vec_contains_str(v: &Vec<String>, term: &str) -> (r: bool)
    ensures
        r == v.deep_view().contains(term@),
{
    let mut i: usize = 0;
    while i < v.len()
        invariant
            i <= v.len(),
            forall|j: int| 0 <= j < i ==> v.deep_view()[j] != term@,
        decreases v.len() - i,
    {
        if str_eq(v[i].as_str(), term) {
            assert(v.deep_view()[i as int] == term@);
            return true;
        }
        i += 1;
    }
    false
}

/// What a keyed table answers for `w`: the value of the last record whose
/// key spells `w`, mirroring insertion where a later record overrides an
/// earlier one with the same key.
pub open spec fn tbl_get<V>(t: Seq<(Seq<char>, V)>, w: Seq<char>) -> Option<V>
    decreases t.len(),
{
    if t.len() == 0 {
        None
    } else if t.last().0 == w {
        Some(t.last().1)
    } else {
        tbl_get(t.drop_last(), w)
    }
}

/// Whether `c` is a decimal digit.
pub open spec fn is_digit(c: char) -> bool {
    0x30 <= (c as u32) && (c as u32) <= 0x39
}

/// The value of a decimal digit character.
pub open spec fn digit_val(c: char) -> nat {
    ((c as u32) - 0x30) as nat
}

/// The numeric value of a sequence of decimal digits.
pub open spec fn dec_val(s: Seq<char>) -> nat
    decreases s.len(),
{
    if s.len() == 0 {
        0
    } else {
        dec_val(s.drop_last()) * 10 + digit_val(s.last())
    }
}

/// Whether every character of `s` is a decimal digit.
pub open spec fn all_digits(s: Seq<char>) -> bool {
    forall|i: int| 0 <= i < s.len() ==> is_digit(s[i])
}

/// What parsing an unsigned decimal number yields: the value when the text
/// is one or more digits and fits the width, nothing otherwise.
pub open spec fn parse_u32_spec(s: Seq<char>) -> Option<u32> {
    if s.len() > 0 && all_digits(s) && dec_val(s) <= u32::MAX {
        Some(dec_val(s) as u32)
    } else {
        None
    }
}

/// What parsing into a byte yields.
pub open spec fn parse_u8_spec(s: Seq<char>) -> Option<u8> {
    if s.len() > 0 && all_digits(s) && dec_val(s) <= u8::MAX {
        Some(dec_val(s) as u8)
    } else {
        None
    }
}

proof fn lemma_dec_val_grows(s: Seq<char>, i: int)
    requires
        0 <= i <= s.len(),
    ensures
        dec_val(s.take(i)) <= dec_val(s),
    decreases s.len() - i,
{
    if i < s.len() {
        lemma_dec_val_grows(s, i + 1);
        assert(s.take(i + 1).drop_last() =~= s.take(i));
        assert(dec_val(s.take(i)) <= dec_val(s.take(i + 1)));
    } else {
        assert(s.take(i) =~= s);
    }
}

/// Parse a non-empty run of decimal digits into a `u32`; any other text,
/// or a value too large for the width, yields nothing.
pub fn parse_u32(s: &str) -> (r: Option<u32>)
    ensures
        r == parse_u32_spec(s@),
{
    let n = s.unicode_len();
    if n == 0 {
        return None;
    }
    let mut value: u64 = 0;
    let mut i: usize = 0;
    while i < n
        invariant
            i <= n,
            n == s@.len(),
            all_digits(s@.take(i as int)),
            value == dec_val(s@.take(i as int)),
            value <= u32::MAX,
        decreases n - i,
    {
        let c = s.get_char(i);
        let u = c as u32;
        if u < 0x30 || u > 0x39 {
            assert(!is_digit(s@[i as int]));
            return None;
        }
        assert(is_digit(s@[i as int]));
        let d = (u - 0x30) as u64;
        let next = value * 10 + d;
        proof {
            assert(s@.take(i + 1).drop_last() =~= s@.take(i as int));
            assert(s@.take(i + 1).last() == s@[i as int]);
        }
        if next > 0xFFFF_FFFF {
            proof {
                lemma_dec_val_grows(s@, i + 1);
            }
            return None;
        }
        value = next;
        i += 1;
    }
    proof {
        assert(s@.take(n as int) =~= s@);
    }
    Some(value as u32)
}

/// Parse a non-empty run of decimal digits into a byte.
pub fn parse_u8(s: &str) -> (r: Option<u8>)
    ensures
        r == parse_u8_spec(s@),
{
    match parse_u32(s) {
        Some(v) => if v <= 255 {
            Some(v as u8)
        } else {
            None
        },
        None => {
            proof {
                if s@.len() > 0 && all_digits(s@) && dec_val(s@) <= u8::MAX {
                    assert(dec_val(s@) <= u32::MAX);
                }
            }
            None
        },
    }
}

/// The digit character of a value below ten.
pub open spec fn digit_seq(d: nat) -> Seq<char> {
    if d == 0 {
        "0"@
    } else if d == 1 {
        "1"@
    } else if d == 2 {
        "2"@
    } else if d == 3 {
        "3"@
    } else if d == 4 {
        "4"@
    } else if d == 5 {
        "5"@
    } else if d == 6 {
        "6"@
    } else if d == 7 {
        "7"@
    } else if d == 8 {
        "8"@
    } else {
        "9"@
    }
}

/// The decimal spelling of a number, most significant digit first.
pub open spec fn dec_str(n: nat) -> Seq<char>
    decreases n,
{
    if n < 10 {
        digit_seq(n)
    } else {
        dec_str(n / 10) + digit_seq(n % 10)
    }
}

fn digit_str(d: u8) -> (r: &'static str)
    requires
        d < 10,
    ensures
        r@ == digit_seq(d as nat),
{
    match d {
        0 => "0",
        1 => "1",
        2 => "2",
        3 => "3",
        4 => "4",
        5 => "5",
        6 => "6",
        7 => "7",
        8 => "8",
        _ => "9",
    }
}

/// The decimal spelling of a byte value.
pub fn u8_to_string(n: u8) -> (r: String)
    ensures
        r@ == dec_str(n as nat),
{
    if n < 10 {
        String::from_str(digit_str(n))
    } else if n < 100 {
        let r = String::from_str(digit_str(n / 10)).concat(digit_str(n % 10));
        proof {
            assert(dec_str(n as nat) == dec_str(n as nat / 10) + digit_seq(n as nat % 10));
            assert(n as nat / 10 < 10);
        }
        r
    } else {
        let hi = n / 100;
        let mid = (n / 10) % 10;
        let lo = n % 10;
        let r = String::from_str(digit_str(hi)).concat(digit_str(mid)).concat(digit_str(lo));
        proof {
            let m = n as nat;
            assert(dec_str(m) == dec_str(m / 10) + digit_seq(m % 10));
            assert(m / 10 >= 10);
            assert(dec_str(m / 10) == dec_str(m / 10 / 10) + digit_seq(m / 10 % 10));
            assert(m / 10 / 10 == m / 100) by (nonlinear_arith);
            assert(m / 100 < 10);
            assert(hi as nat == m / 100);
            assert(mid as nat == m / 10 % 10);
            assert(lo as nat == m % 10);
        }
        r
    }
}

/// The decimal spelling of a 32-bit value.
pub fn u32_to_string(n: u32) -> (r: String)
    ensures
        r@ == dec_str(n as nat),
{
    let mut value = n;
    let mut acc = String::new();
    while value >= 10
        invariant
            dec_str(n as nat) == dec_str(value as nat) + acc@,
        decreases value,
    {
        let d = (value % 10) as u8;
        acc = String::from_str(digit_str(d)).concat(acc.as_str());
        proof {
            assert(value as nat / 10 == (value / 10) as nat);
            assert(value as nat % 10 == (value % 10) as nat);
        }
        value = value / 10;
    }
    let r = String::from_str(digit_str(value as u8)).concat(acc.as_str());
    r
}

/// `count` repetitions of the filled-star glyph.
pub open spec fn star_seq(count: nat) -> Seq<char>
    decreases count,
{
    if count == 0 {
        Seq::empty()
    } else {
        star_seq((count - 1) as nat) + "\u{2605}"@
    }
}

/// A string of `count` filled stars.
pub fn star_string(count: u8) -> (r: String)
    ensures
        r@ == star_seq(count as nat),
{
    let mut acc = String::new();
    let mut i: u8 = 0;
    proof {
        assert(acc@ =~= star_seq(0));
    }
    while i < count
        invariant
            i <= count,
            acc@ == star_seq(i as nat),
        decreases count - i,
    {
        acc.append("\u{2605}");
        i = i + 1;
    }
    acc
}

} // verus!
