//! Helpers on strings: comparison, byte lengths, decimal numbers.
use vstd::prelude::*;
use vstd::utf8::*;
use vstd::string::*;

verus! {

/// Number of bytes that the UTF-8 encoding of `s` takes.
pub open spec fn utf8_len(s: Seq<char>) -> nat {
    encode_utf8(s).len()
}

/// Whether two string slices hold the same characters.
pub fn str_eq(a: &str, b: &str) -> (r: bool)
    ensures
        r == (a@ == b@),
{
    let x = a.as_bytes();
    let y = b.as_bytes();
    proof {
        encode_utf8_decode_utf8(a@);
        encode_utf8_decode_utf8(b@);
    }
    if x.len() != y.len() {
        return false;
    }
    let mut i: usize = 0;
    while i < x.len()
        invariant
            i <= x@.len(),
            x@.len() == y@.len(),
            x@ == encode_utf8(a@),
            y@ == encode_utf8(b@),
            forall|k: int| 0 <= k < i ==> x@[k] == y@[k],
        decreases x@.len() - i,
    {
        if x[i] != y[i] {
            return false;
        }
        i += 1;
    }
    assert(x@ =~= y@);
    true
}

/// The views of a sequence of strings, in the same order.
pub open spec fn strs(v: Seq<String>) -> Seq<Seq<char>> {
    v.map_values(|s: String| s@)
}

/// The views of a sequence of borrowed strings, in the same order.
pub open spec fn str_refs(v: Seq<&String>) -> Seq<Seq<char>> {
    v.map_values(|s: &String| s@)
}

/// The views of a list with one more string are the views of the list with
/// one more view.
pub proof fn lemma_strs_push(v: Seq<String>, s: String)
    ensures
        strs(v.push(s)) == strs(v).push(s@),
{
    assert(strs(v.push(s)) =~= strs(v).push(s@));
}

/// A copy of a list of strings.
pub fn clone_strings(v: &Vec<String>) -> (copy: Vec<String>)
    ensures
        strs(copy@) == strs(v@),
{
    let mut copy: Vec<String> = Vec::new();
    let mut i: usize = 0;
    while i < v.len()
        invariant
            i <= v@.len(),
            strs(copy@) =~= strs(v@).take(i as int),
        decreases v@.len() - i,
    {
        let s = v[i].clone();
        proof {
            lemma_strs_push(copy@, s);
        }
        copy.push(s);
        i += 1;
    }
    assert(strs(v@).take(i as int) =~= strs(v@));
    copy
}

/// Whether two lists hold the same strings in the same order.
pub fn strings_eq(a: &Vec<String>, b: &Vec<String>) -> (r: bool)
    ensures
        r == (strs(a@) == strs(b@)),
{
    if a.len() != b.len() {
        assert(strs(a@).len() != strs(b@).len());
        return false;
    }
    let mut i: usize = 0;
    while i < a.len()
        invariant
            i <= a@.len(),
            a@.len() == b@.len(),
            forall|k: int| 0 <= k < i ==> a@[k]@ == b@[k]@,
        decreases a@.len() - i,
    {
        if !(a[i] == b[i]) {
            assert(strs(a@)[i as int] != strs(b@)[i as int]);
            return false;
        }
        i += 1;
    }
    assert(strs(a@) =~= strs(b@));
    true
}

/// The character of a decimal digit.
pub open spec fn digit_char(d: nat) -> char
    recommends
        d < 10,
{
    ((48 + d) as u8) as char
}

/// The number `n` in decimal digits, without a sign and without leading
/// zeros.
pub open spec fn decimal(n: nat) -> Seq<char>
    decreases n,
{
    if n < 10 {
        seq![digit_char(n)]
    } else {
        decimal(n / 10).push(digit_char(n % 10))
    }
}

/// Whether `c` is one of the digits `0` to `9`.
pub open spec fn is_digit(c: char) -> bool {
    '0' <= c && c <= '9'
}

/// The number that a sequence of decimal digits stands for.
pub open spec fn digits_value(s: Seq<char>) -> nat
    decreases s.len(),
{
    if s.len() == 0 {
        0
    } else {
        digits_value(s.drop_last()) * 10 + ((s.last() as u32) - 48) as nat
    }
}

/// The digits of a number that is written with or without a `+` in front.
pub open spec fn unsigned_part(s: Seq<char>) -> Seq<char> {
    if s.len() > 0 && s[0] == '+' {
        s.subrange(1, s.len() as int)
    } else {
        s
    }
}

/// Whether every character is one of the digits `0` to `9`.
pub open spec fn all_digits(s: Seq<char>) -> bool {
    forall|i: int| 0 <= i < s.len() ==> is_digit(#[trigger] s[i])
}

/// The number that a string stands for: an optional `+`, then one or more
/// decimal digits and nothing else, with a value that fits in 64 bits.
pub open spec fn parse_decimal(s: Seq<char>) -> Option<u64> {
    let digits = unsigned_part(s);
    if digits.len() > 0 && all_digits(digits) && digits_value(digits) <= u64::MAX {
        Some(digits_value(digits) as u64)
    } else {
        None
    }
}

/// The number that a string stands for, zero if it stands for none.
pub open spec fn parse_or_zero(s: Seq<char>) -> u64 {
    match parse_decimal(s) {
        Some(v) => v,
        None => 0,
    }
}

/// Whether `needle` occurs in `hay` as a run of consecutive characters.
pub open spec fn has_substring(hay: Seq<char>, needle: Seq<char>) -> bool {
    exists|i: int|
        0 <= i && i + needle.len() <= hay.len() && #[trigger] hay.subrange(
            i,
            i + needle.len(),
        ) == needle
}

/// The lowercase form of a string, as `str::to_lowercase` gives it.
pub uninterp spec fn lowercase(s: Seq<char>) -> Seq<char>;

/// The character of a digit, as a string.
fn digit_str(d: u64) -> (s: &'static str)
    requires
        d < 10,
    ensures
        s@ == seq![digit_char(d as nat)],
{
    proof {
        reveal_strlit("0");
        reveal_strlit("1");
        reveal_strlit("2");
        reveal_strlit("3");
        reveal_strlit("4");
        reveal_strlit("5");
        reveal_strlit("6");
        reveal_strlit("7");
        reveal_strlit("8");
        reveal_strlit("9");
    }
    let s = match d {
        0 => "0",
        1 => "1",
        2 => "2",
        3 => "3",
        4 => "4",
        5 => "5",
        6 => "6",
        7 => "7",
        8 => "8",
        _ => "9",
    };
    assert(s@ =~= seq![digit_char(d as nat)]);
    s
}

/// The number in decimal digits, without a sign and without leading zeros.
pub fn u64_to_string(v: u64) -> (s: String)
    ensures
        s@ == decimal(v as nat),
{
    let mut s = String::from_str(digit_str(v % 10));
    let mut n = v / 10;
    assert(decimal(v as nat) =~= (if n > 0 {
        decimal(n as nat)
    } else {
        Seq::<char>::empty()
    }) + s@);
    while n > 0
        invariant
            decimal(v as nat) =~= (if n > 0 {
                decimal(n as nat)
            } else {
                Seq::<char>::empty()
            }) + s@,
        decreases n,
    {
        let mut t = String::from_str(digit_str(n % 10));
        t.append(s.as_str());
        proof {
            let rest = n / 10;
            assert(decimal(n as nat) =~= (if rest > 0 {
                decimal(rest as nat)
            } else {
                Seq::<char>::empty()
            }) + seq![digit_char((n % 10) as nat)]);
        }
        s = t;
        n = n / 10;
    }
    s
}

/// The digits of a number that is written out stand for a number that is
/// no less than the one its first digits stand for.
proof fn lemma_digits_value_grows(s: Seq<char>, n: int)
    requires
        0 <= n <= s.len(),
        all_digits(s),
    ensures
        digits_value(s.take(n)) <= digits_value(s),
    decreases s.len() - n,
{
    if n < s.len() {
        assert(s.take(n + 1).drop_last() =~= s.take(n));
        assert(s.take(n + 1).last() == s[n]);
        lemma_digits_value_grows(s, n + 1);
    } else {
        assert(s.take(n) =~= s);
    }
}

/// The number that a string stands for: an optional `+`, then one or more
/// decimal digits and nothing else, with a value that fits in 64 bits.
pub fn parse_u64(s: &str) -> (v: Option<u64>)
    ensures
        v == parse_decimal(s@),
{
    let ghost digits = unsigned_part(s@);
    let ghost offset: int = s@.len() - digits.len();
    if !s.is_ascii() {
        proof {
            let i = choose|i: int|
                0 <= i < s@.len() && !('\0' <= #[trigger] s@[i] && s@[i] <= '\u{7f}');
            assert(s@[i] != '+');
            assert(0 <= i - offset < digits.len());
            assert(digits[i - offset] == s@[i]);
            assert(!is_digit(digits[i - offset]));
            assert(parse_decimal(s@) is None);
        }
        return None;
    }
    let bytes = s.as_bytes();
    proof {
        is_ascii_chars_encode_utf8(s@);
    }
    let len = bytes.len();
    let start: usize = if len > 0 && bytes[0] == 43 {
        1
    } else {
        0
    };
    assert(start == offset);
    if start == len {
        return None;
    }
    let mut acc: u64 = 0;
    let mut i = start;
    assert(digits.take(0) =~= Seq::<char>::empty());
    assert(digits =~= s@.subrange(start as int, len as int));
    assert(digits.len() > 0);
    while i < len
        invariant
            start <= i <= len,
            len == s@.len(),
            offset == start,
            digits == unsigned_part(s@),
            digits == s@.subrange(start as int, len as int),
            digits.len() > 0,
            bytes@.len() == len,
            forall|k: int| 0 <= k < len ==> s@[k] as u8 == #[trigger] bytes@[k],
            forall|k: int| 0 <= k < len ==> '\0' <= #[trigger] s@[k] <= '\u{7f}',
            forall|k: int| 0 <= k < i - start ==> is_digit(#[trigger] digits[k]),
            acc == digits_value(digits.take(i - start)),
        decreases len - i,
    {
        let c = bytes[i];
        let ghost at = i - start;
        proof {
            assert(digits[at] == s@[i as int]);
            assert(digits.take(at + 1).drop_last() =~= digits.take(at));
            assert(digits.take(at + 1).last() == digits[at]);
        }
        if c < 48 || c > 57 {
            assert(!is_digit(digits[at]));
            return None;
        }
        assert(is_digit(digits[at]));
        let d = (c - 48) as u64;
        assert(d == ((digits[at] as u32) - 48) as nat);
        let next = match acc.checked_mul(10) {
            Some(m) => m.checked_add(d),
            None => None,
        };
        match next {
            Some(a) => {
                acc = a;
            },
            None => {
                proof {
                    if all_digits(digits) {
                        lemma_digits_value_grows(digits, at + 1);
                    }
                }
                return None;
            },
        }
        i += 1;
    }
    assert(digits.take(i - start) =~= digits);
    Some(acc)
}

/// `str::to_lowercase` gives the lowercase form of the string. The form is
/// defined by the Unicode tables and is named here, not spelled out.
#[verifier::external_body]
pub(crate) fn to_lowercase(s: &str) -> (lower: String)
    ensures
        lower@ == lowercase(s@),
{
    s.to_lowercase()
}

/// `str::contains` with a string pattern tells whether the pattern matches
/// a sub-slice of the string.
#[verifier::external_body]
pub(crate) fn str_contains(hay: &str, needle: &str) -> (found: bool)
    ensures
        found == has_substring(hay@, needle@),
{
    hay.contains(needle)
}

} // verus!
