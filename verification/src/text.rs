//! Character-level rules shared by the catalog: which characters count as
//! whitespace, when a piece of text is blank, and how a port number is read.

use vstd::prelude::*;

verus! {

/// The Unicode `White_Space` property, which is what `char::is_whitespace`
/// tests: U+0009..U+000D, U+0020, U+0085, U+00A0, U+1680, U+2000..U+200A,
/// U+2028, U+2029, U+202F, U+205F and U+3000.
pub open spec fn is_whitespace_char(c: char) -> bool {
    let u = c as u32;
    ||| 0x09 <= u <= 0x0d
    ||| u == 0x20
    ||| u == 0x85
    ||| u == 0xa0
    ||| u == 0x1680
    ||| 0x2000 <= u <= 0x200a
    ||| u == 0x2028
    ||| u == 0x2029
    ||| u == 0x202f
    ||| u == 0x205f
    ||| u == 0x3000
}

/// A text is blank when every one of its characters is whitespace; these are
/// exactly the texts that `str::trim` turns into the empty string.
pub open spec fn is_blank_text(s: Seq<char>) -> bool {
    forall|i: int| 0 <= i < s.len() ==> is_whitespace_char(#[trigger] s[i])
}

/// Whether `c` is a whitespace character.
pub fn is_whitespace(c: char) -> (b: bool)
    ensures
        b == is_whitespace_char(c),
{
    let u = c as u32;
    (0x09 <= u && u <= 0x0d) || u == 0x20 || u == 0x85 || u == 0xa0 || u == 0x1680 || (0x2000
        <= u && u <= 0x200a) || u == 0x2028 || u == 0x2029 || u == 0x202f || u == 0x205f || u
        == 0x3000
}

/// Whether `s` holds nothing but whitespace (the empty text included).
pub fn is_blank(s: &str) -> (b: bool)
    ensures
        b == is_blank_text(s@),
        b <==> forall|i: int| 0 <= i < s@.len() ==> is_whitespace_char(#[trigger] s@[i]),
{
    for c in it: s.chars()
        invariant
            it.seq() == s@,
            forall|j: int| 0 <= j < it.index() ==> is_whitespace_char(#[trigger] s@[j]),
    {
        if !is_whitespace(c) {
            return false;
        }
    }
    true
}

/// The value of an ASCII decimal digit (`'0'` is U+0030).
pub open spec fn digit_value(c: char) -> int {
    (c as u32) - 48
}

/// Whether `c` is one of the ASCII digits `0`..`9` (U+0030..U+0039).
pub open spec fn is_ascii_digit(c: char) -> bool {
    48 <= c as u32 <= 57
}

/// The number that a run of decimal digits denotes, most significant first.
pub open spec fn decimal_value(s: Seq<char>) -> int
    decreases s.len(),
{
    if s.len() == 0 {
        0
    } else {
        decimal_value(s.drop_last()) * 10 + digit_value(s.last())
    }
}

/// Whether every character of `s` is an ASCII digit.
pub open spec fn all_ascii_digits(s: Seq<char>) -> bool {
    forall|i: int| 0 <= i < s.len() ==> is_ascii_digit(#[trigger] s[i])
}

/// The text after an optional leading `+` sign.
pub open spec fn unsigned_part(s: Seq<char>) -> Seq<char> {
    if s.len() > 0 && s[0] == '+' {
        s.drop_first()
    } else {
        s
    }
}

/// What `str::parse::<u16>` gives: an optional `+` sign followed by one or
/// more ASCII digits whose value fits in a `u16`; any other text is refused.
pub open spec fn parse_u16_spec(s: Seq<char>) -> Option<u16> {
    let digits = unsigned_part(s);
    if digits.len() > 0 && all_ascii_digits(digits) && decimal_value(digits) <= u16::MAX {
        Some(decimal_value(digits) as u16)
    } else {
        None
    }
}

/// Reads a port number the way `str::parse::<u16>` does.
pub fn parse_u16(s: &str) -> (r: Option<u16>)
    ensures
        r == parse_u16_spec(s@),
{
    let n = s.unicode_len();
    let start: usize = if n > 0 && s.get_char(0) == '+' {
        1
    } else {
        0
    };
    let ghost digits = unsigned_part(s@);
    assert(digits =~= s@.subrange(start as int, n as int));
    if start >= n {
        return None;
    }
    // `value` stops growing at 65536: past `u16::MAX` every larger number
    // is refused alike.
    let mut value: u32 = 0;
    let mut i: usize = start;
    while i < n
        invariant
            n == s@.len(),
            start <= i <= n,
            digits =~= s@.subrange(start as int, n as int),
            digits == unsigned_part(s@),
            forall|j: int| start <= j < i ==> is_ascii_digit(#[trigger] s@[j]),
            value as int == if decimal_value(s@.subrange(start as int, i as int)) < 65536 {
                decimal_value(s@.subrange(start as int, i as int))
            } else {
                65536
            },
            decimal_value(s@.subrange(start as int, i as int)) >= 0,
        decreases n - i,
    {
        let u = s.get_char(i) as u32;
        if !(48 <= u && u <= 57) {
            assert(!is_ascii_digit(digits[i - start]));
            return None;
        }
        let d = u - 48;
        let ghost prefix = s@.subrange(start as int, i as int);
        assert(s@.subrange(start as int, i + 1).drop_last() =~= prefix);
        let next = value * 10 + d;
        value = if next < 65536 {
            next
        } else {
            65536
        };
        i = i + 1;
    }
    assert(s@.subrange(start as int, n as int) =~= digits);
    if value < 65536 {
        Some(value as u16)
    } else {
        None
    }
}

/// A text holding any character that is not whitespace is never blank, and
/// a text made only of whitespace is: blank means exactly that `str::trim`
/// leaves nothing.
pub proof fn lemma_blank_exactly_whitespace(s: Seq<char>)
    ensures
        (exists|i: int| 0 <= i < s.len() && !is_whitespace_char(#[trigger] s[i])) ==> !is_blank_text(s),
        (forall|i: int| 0 <= i < s.len() ==> is_whitespace_char(#[trigger] s[i])) ==> is_blank_text(s),
{
}

/// Letters, digits and every character beyond U+3000 are not whitespace;
/// the ASCII space, tab, line feed and carriage return are.
pub proof fn lemma_whitespace_chars(c: char)
    ensures
        (c as u32) > 0x3000 ==> !is_whitespace_char(c),
        (0x30 <= (c as u32) <= 0x39 || 0x41 <= (c as u32) <= 0x5a || 0x61 <= (c as u32) <= 0x7a)
            ==> !is_whitespace_char(c),
        0x0600 <= (c as u32) <= 0x06ff ==> !is_whitespace_char(c),
        c == ' ' || c == '\t' || c == '\n' || c == '\r' ==> is_whitespace_char(c),
{
}

} // verus!
