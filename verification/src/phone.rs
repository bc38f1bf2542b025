//! Recognition and formatting of regional phone numbers.
//!
//! A number is accepted in four layouts behind either the "+7" or the
//! "8" prefix, and only when its three-digit area code is on the
//! parser's allow-list. The accepted grammar is stated below as spec
//! functions, and the matcher is proved against them.

use vstd::prelude::*;
use vstd::string::StrSliceExecFns;
use vstd::string::StringExecFns;
use crate::text;
use crate::text::is_digit;

verus! {

/// Every character of `s` in `[from, to)` is a decimal digit.
pub open spec fn digits_at(s: Seq<char>, from: int, to: int) -> bool {
    forall|j: int| from <= j < to ==> is_digit(#[trigger] s[j])
}

/// Layout `" ddd ddd dddd"` after a prefix of length `p`.
pub open spec fn shape_spaced(s: Seq<char>, p: int) -> bool {
    s.len() == p + 13 && s[p] == ' ' && digits_at(s, p + 1, p + 4) && s[p + 4] == ' '
        && digits_at(s, p + 5, p + 8) && s[p + 8] == ' ' && digits_at(s, p + 9, p + 13)
}

/// Layout `" ddd ddd dd dd"` after a prefix of length `p`.
pub open spec fn shape_spaced_split(s: Seq<char>, p: int) -> bool {
    s.len() == p + 14 && s[p] == ' ' && digits_at(s, p + 1, p + 4) && s[p + 4] == ' '
        && digits_at(s, p + 5, p + 8) && s[p + 8] == ' ' && digits_at(s, p + 9, p + 11)
        && s[p + 11] == ' ' && digits_at(s, p + 12, p + 14)
}

/// Layout `" (ddd) ddd-dddd"` after a prefix of length `p`.
pub open spec fn shape_paren(s: Seq<char>, p: int) -> bool {
    s.len() == p + 15 && s[p] == ' ' && s[p + 1] == '(' && digits_at(s, p + 2, p + 5)
        && s[p + 5] == ')' && s[p + 6] == ' ' && digits_at(s, p + 7, p + 10) && s[p + 10] == '-'
        && digits_at(s, p + 11, p + 15)
}

/// Layout `"dddddddddd"` after a prefix of length `p`.
pub open spec fn shape_compact(s: Seq<char>, p: int) -> bool {
    s.len() == p + 10 && digits_at(s, p, p + 10)
}

/// The four captured groups — area code, three digits, two, two — when
/// one of the layouts follows the prefix that ends at `p`.
pub open spec fn parts_after(s: Seq<char>, p: int) -> Option<(Seq<char>, Seq<char>, Seq<char>, Seq<char>)> {
    if shape_spaced(s, p) {
        Some(
            (
                s.subrange(p + 1, p + 4),
                s.subrange(p + 5, p + 8),
                s.subrange(p + 9, p + 11),
                s.subrange(p + 11, p + 13),
            ),
        )
    } else if shape_spaced_split(s, p) {
        Some(
            (
                s.subrange(p + 1, p + 4),
                s.subrange(p + 5, p + 8),
                s.subrange(p + 9, p + 11),
                s.subrange(p + 12, p + 14),
            ),
        )
    } else if shape_paren(s, p) {
        Some(
            (
                s.subrange(p + 2, p + 5),
                s.subrange(p + 7, p + 10),
                s.subrange(p + 11, p + 13),
                s.subrange(p + 13, p + 15),
            ),
        )
    } else if shape_compact(s, p) {
        Some(
            (
                s.subrange(p, p + 3),
                s.subrange(p + 3, p + 6),
                s.subrange(p + 6, p + 8),
                s.subrange(p + 8, p + 10),
            ),
        )
    } else {
        None
    }
}

/// The captured groups of a recognized phone string: a "+7" or "8"
/// prefix followed by one of the four layouts.
pub open spec fn phone_parts(s: Seq<char>) -> Option<(Seq<char>, Seq<char>, Seq<char>, Seq<char>)> {
    if s.len() >= 2 && s[0] == '+' && s[1] == '7' {
        parts_after(s, 2)
    } else if s.len() >= 1 && s[0] == '8' {
        parts_after(s, 1)
    } else {
        None
    }
}

/// The canonical rendering of a recognized number.
pub open spec fn formatted_parts(code: Seq<char>, a: Seq<char>, b: Seq<char>, c: Seq<char>) -> Seq<char> {
    "+7-"@ + code + "-"@ + a + "-"@ + b + c
}

/// The captured area code reads as a number on the allow-list.
pub open spec fn code_allowed(codes: Seq<u32>, code: Seq<char>) -> bool {
    codes.contains(text::dec_value(code) as u32)
}

/// What parsing yields: the canonical rendering when the string is
/// recognized and its area code is allowed, nothing otherwise.
pub open spec fn spec_phone_result(raw: Seq<char>, codes: Seq<u32>) -> Option<Seq<char>> {
    match phone_parts(raw) {
        Some(parts) => if code_allowed(codes, parts.0) {
            Some(formatted_parts(parts.0, parts.1, parts.2, parts.3))
        } else {
            None
        },
        None => None,
    }
}

/// The area codes the parser accepts by default.
pub open spec fn default_phone_codes() -> Seq<u32> {
    seq![982u32, 986u32, 912u32, 934u32]
}

/// A captured area code is three decimal digits.
proof fn lemma_parts_after_code_digits(s: Seq<char>, p: int, parts: (Seq<char>, Seq<char>, Seq<char>, Seq<char>))
    requires
        0 <= p,
        parts_after(s, p) == Some(parts),
    ensures
        parts.0.len() == 3,
        text::all_digits(parts.0),
{
    if shape_spaced(s, p) {
        assert forall|i: int| 0 <= i < parts.0.len() implies is_digit(#[trigger] parts.0[i]) by {
            assert(parts.0[i] == s[p + 1 + i]);
        }
    } else if shape_spaced_split(s, p) {
        assert forall|i: int| 0 <= i < parts.0.len() implies is_digit(#[trigger] parts.0[i]) by {
            assert(parts.0[i] == s[p + 1 + i]);
        }
    } else if shape_paren(s, p) {
        assert forall|i: int| 0 <= i < parts.0.len() implies is_digit(#[trigger] parts.0[i]) by {
            assert(parts.0[i] == s[p + 2 + i]);
        }
    } else {
        assert forall|i: int| 0 <= i < parts.0.len() implies is_digit(#[trigger] parts.0[i]) by {
            assert(parts.0[i] == s[p + i]);
        }
    }
}

/// A captured area code of a recognized string is three decimal digits.
proof fn lemma_phone_code_digits(s: Seq<char>, parts: (Seq<char>, Seq<char>, Seq<char>, Seq<char>))
    requires
        phone_parts(s) == Some(parts),
    ensures
        parts.0.len() == 3,
        text::all_digits(parts.0),
{
    if s.len() >= 2 && s[0] == '+' && s[1] == '7' {
        lemma_parts_after_code_digits(s, 2, parts);
    } else {
        lemma_parts_after_code_digits(s, 1, parts);
    }
}

/// Every character of `s` in `[from, to)` is a decimal digit, decided.
fn digits_range(s: &str, from: usize, to: usize) -> (r: bool)
    requires
        from <= to,
        to <= s@.len(),
    ensures
        r == digits_at(s@, from as int, to as int),
{
    let mut i = from;
    while i < to
        invariant
            from <= i <= to,
            to <= s@.len(),
            forall|j: int| from <= j < i ==> is_digit(#[trigger] s@[j]),
        decreases to - i,
    {
        let c = s.get_char(i);
        let u = c as u32;
        if u < 48 || u > 57 {
            proof {
                assert(!is_digit(s@[i as int]));
            }
            return false;
        }
        i = i + 1;
    }
    true
}

/// The characters `[from, to)` of `s`, as an owned string.
fn capture(s: &str, from: usize, to: usize) -> (r: String)
    requires
        from <= to,
        to <= s@.len(),
    ensures
        r@ == s@.subrange(from as int, to as int),
{
    s.substring_char(from, to).to_owned()
}

/// The allow-list holds this code.
fn code_is_allowed(codes: &Vec<u32>, code_value: u32) -> (r: bool)
    ensures
        r == codes@.contains(code_value),
{
    let mut i: usize = 0;
    while i < codes.len()
        invariant
            i <= codes@.len(),
            forall|k: int| 0 <= k < i ==> codes@[k] != code_value,
        decreases codes@.len() - i,
    {
        if codes[i] == code_value {
            proof {
                assert(codes@[i as int] == code_value);
            }
            return true;
        }
        i = i + 1;
    }
    proof {
        assert(!codes@.contains(code_value));
    }
    false
}

/// Recognizes phone numbers in the regional layouts and renders them
/// canonically.
pub struct PhoneParser {
    pub raw: String,
    pub phone_codes: Vec<u32>,
}

impl PhoneParser {
    /// A parser for `raw` with the default area-code allow-list.
    pub fn new(raw: String) -> (parser: Self)
        ensures
            parser.raw == raw,
            parser.phone_codes@ == default_phone_codes(),
    {
        let mut phone_codes: Vec<u32> = Vec::new();
        phone_codes.push(982);
        phone_codes.push(986);
        phone_codes.push(912);
        phone_codes.push(934);
        proof {
            assert(phone_codes@ =~= default_phone_codes());
        }
        Self { raw, phone_codes }
    }

    /// The four captured groups when the raw string matches one of the
    /// recognized layouts.
    pub fn match_phone(&self) -> (r: Option<(String, String, String, String)>)
        ensures
            match r {
                Some(t) => phone_parts(self.raw@) == Some((t.0@, t.1@, t.2@, t.3@)),
                None => phone_parts(self.raw@) is None,
            },
    {
        let s = self.raw.as_str();
        let n = s.unicode_len();
        let p: usize;
        if n >= 2 && s.get_char(0) == '+' && s.get_char(1) == '7' {
            p = 2;
        } else if n >= 1 && s.get_char(0) == '8' {
            p = 1;
        } else {
            return None;
        }
        if n == p + 13 && s.get_char(p) == ' ' && digits_range(s, p + 1, p + 4)
            && s.get_char(p + 4) == ' ' && digits_range(s, p + 5, p + 8) && s.get_char(p + 8) == ' '
            && digits_range(s, p + 9, p + 13) {
            return Some(
                (
                    capture(s, p + 1, p + 4),
                    capture(s, p + 5, p + 8),
                    capture(s, p + 9, p + 11),
                    capture(s, p + 11, p + 13),
                ),
            );
        }
        if n == p + 14 && s.get_char(p) == ' ' && digits_range(s, p + 1, p + 4)
            && s.get_char(p + 4) == ' ' && digits_range(s, p + 5, p + 8) && s.get_char(p + 8) == ' '
            && digits_range(s, p + 9, p + 11) && s.get_char(p + 11) == ' '
            && digits_range(s, p + 12, p + 14) {
            return Some(
                (
                    capture(s, p + 1, p + 4),
                    capture(s, p + 5, p + 8),
                    capture(s, p + 9, p + 11),
                    capture(s, p + 12, p + 14),
                ),
            );
        }
        if n == p + 15 && s.get_char(p) == ' ' && s.get_char(p + 1) == '('
            && digits_range(s, p + 2, p + 5) && s.get_char(p + 5) == ')' && s.get_char(p + 6) == ' '
            && digits_range(s, p + 7, p + 10) && s.get_char(p + 10) == '-'
            && digits_range(s, p + 11, p + 15) {
            return Some(
                (
                    capture(s, p + 2, p + 5),
                    capture(s, p + 7, p + 10),
                    capture(s, p + 11, p + 13),
                    capture(s, p + 13, p + 15),
                ),
            );
        }
        if n == p + 10 && digits_range(s, p, p + 10) {
            return Some(
                (
                    capture(s, p, p + 3),
                    capture(s, p + 3, p + 6),
                    capture(s, p + 6, p + 8),
                    capture(s, p + 8, p + 10),
                ),
            );
        }
        None
    }

    /// The canonical rendering of the raw string, when it is recognized
    /// and its area code is on the allow-list.
    pub fn parse(&self) -> (r: Option<String>)
        ensures
            match r {
                Some(out) => spec_phone_result(self.raw@, self.phone_codes@) == Some(out@),
                None => spec_phone_result(self.raw@, self.phone_codes@) is None,
            },
    {
        match self.match_phone() {
            Some(caps) => {
                let (code, a, b, c) = caps;
                proof {
                    lemma_phone_code_digits(self.raw@, (code@, a@, b@, c@));
                    text::lemma_dec_value_small(code@);
                }
                let code_value64 = text::parse_u64(code.as_str()).unwrap();
                let code_value = code_value64 as u32;
                if code_is_allowed(&self.phone_codes, code_value) {
                    let mut out = String::from_str("+7-");
                    out.append(code.as_str());
                    out.append("-");
                    out.append(a.as_str());
                    out.append("-");
                    out.append(b.as_str());
                    out.append(c.as_str());
                    proof {
                        assert(out@ =~= formatted_parts(code@, a@, b@, c@));
                    }
                    Some(out)
                } else {
                    None
                }
            },
            None => None,
        }
    }
}

} // verus!
