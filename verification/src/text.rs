//! Plain-text building blocks shared by the listing formatter and the
//! menu loop: decimal rendering, column padding, whitespace trimming and
//! decimal parsing of menu choices.

use vstd::prelude::*;
use vstd::string::*;

verus! {

/// The characters that count as whitespace when user input is trimmed:
/// the Unicode `White_Space` set.
pub open spec fn is_whitespace_char(c: char) -> bool {
    c == '\t' || c == '\n' || c == '\u{b}' || c == '\u{c}' || c == '\r' || c == ' '
        || c == '\u{85}' || c == '\u{a0}' || c == '\u{1680}'
        || (0x2000 <= c as u32 && c as u32 <= 0x200a)
        || c == '\u{2028}' || c == '\u{2029}' || c == '\u{202f}' || c == '\u{205f}'
        || c == '\u{3000}'
}

pub fn char_is_whitespace(c: char) -> (b: bool)
    ensures
        b == is_whitespace_char(c),
{
    c == '\t' || c == '\n' || c == '\u{b}' || c == '\u{c}' || c == '\r' || c == ' '
        || c == '\u{85}' || c == '\u{a0}' || c == '\u{1680}'
        || (0x2000 <= c as u32 && c as u32 <= 0x200a)
        || c == '\u{2028}' || c == '\u{2029}' || c == '\u{202f}' || c == '\u{205f}'
        || c == '\u{3000}'
}

/// The character for a single decimal digit.
pub open spec fn decimal_digit_char(d: nat) -> char {
    if d == 0 { '0' } else if d == 1 { '1' } else if d == 2 { '2' } else if d == 3 { '3' }
    else if d == 4 { '4' } else if d == 5 { '5' } else if d == 6 { '6' } else if d == 7 { '7' }
    else if d == 8 { '8' } else { '9' }
}

/// The usual base-ten rendering of a natural number, most significant
/// digit first, no sign and no leading zeros (`0` itself is "0").
pub open spec fn decimal_digits(n: nat) -> Seq<char>
    decreases n,
{
    if n < 10 {
        seq![decimal_digit_char(n)]
    } else {
        decimal_digits(n / 10).push(decimal_digit_char(n % 10))
    }
}

fn decimal_digit_str(d: u64) -> (r: &'static str)
    requires
        d < 10,
    ensures
        r@ == seq![decimal_digit_char(d as nat)],
{
    match d {
        0 => {
            proof { reveal_strlit("0"); }
            assert("0"@ =~= seq!['0']);
            "0"
        },
        1 => {
            proof { reveal_strlit("1"); }
            assert("1"@ =~= seq!['1']);
            "1"
        },
        2 => {
            proof { reveal_strlit("2"); }
            assert("2"@ =~= seq!['2']);
            "2"
        },
        3 => {
            proof { reveal_strlit("3"); }
            assert("3"@ =~= seq!['3']);
            "3"
        },
        4 => {
            proof { reveal_strlit("4"); }
            assert("4"@ =~= seq!['4']);
            "4"
        },
        5 => {
            proof { reveal_strlit("5"); }
            assert("5"@ =~= seq!['5']);
            "5"
        },
        6 => {
            proof { reveal_strlit("6"); }
            assert("6"@ =~= seq!['6']);
            "6"
        },
        7 => {
            proof { reveal_strlit("7"); }
            assert("7"@ =~= seq!['7']);
            "7"
        },
        8 => {
            proof { reveal_strlit("8"); }
            assert("8"@ =~= seq!['8']);
            "8"
        },
        _ => {
            proof { reveal_strlit("9"); }
            assert("9"@ =~= seq!['9']);
            "9"
        },
    }
}

pub fn u64_to_decimal(n: u64) -> (r: String)
    ensures
        r@ == decimal_digits(n as nat),
    decreases n,
{
    if n < 10 {
        decimal_digit_str(n).to_owned()
    } else {
        let mut prefix = u64_to_decimal(n / 10);
        prefix.append(decimal_digit_str(n % 10));
        proof {
            assert(decimal_digits((n / 10) as nat) + seq![decimal_digit_char((n % 10) as nat)]
                =~= decimal_digits((n / 10) as nat).push(decimal_digit_char((n % 10) as nat)));
        }
        prefix
    }
}

/// A run of `n` spaces.
pub open spec fn space_run(n: nat) -> Seq<char>
    decreases n,
{
    if n == 0 {
        Seq::empty()
    } else {
        space_run((n - 1) as nat).push(' ')
    }
}

/// Left-justified padding: the text itself when it already fills the
/// column, otherwise the text followed by spaces up to `width`.
pub open spec fn pad_right(s: Seq<char>, width: nat) -> Seq<char> {
    if s.len() >= width {
        s
    } else {
        s + space_run((width - s.len()) as nat)
    }
}

#[verifier::loop_isolation(false)]
pub fn pad_to_width(s: String, width: usize) -> (r: String)
    ensures
        r@ == pad_right(s@, width as nat),
{
    let ghost orig: Seq<char> = s@;
    let mut out = s;
    let mut len: usize = out.as_str().unicode_len();
    proof {
        assert(orig + space_run(0) =~= orig);
    }
    while len < width
        invariant
            len == out@.len(),
            orig.len() <= out@.len(),
            len <= width || len == orig.len(),
            out@ == orig + space_run((out@.len() - orig.len()) as nat),
        decreases width - len,
    {
        proof {
            reveal_strlit(" ");
            assert(" "@ =~= seq![' ']);
        }
        let ghost before: Seq<char> = out@;
        out.append(" ");
        len = len + 1;
        proof {
            assert(out@ =~= before.push(' '));
            assert((orig + space_run((before.len() - orig.len()) as nat)).push(' ')
                =~= orig + space_run((before.len() - orig.len()) as nat).push(' '));
        }
    }
    out
}

/// What is left of `s` once every leading whitespace character is gone.
pub open spec fn trim_start_spec(s: Seq<char>) -> Seq<char>
    decreases s.len(),
{
    if s.len() > 0 && is_whitespace_char(s[0]) {
        trim_start_spec(s.subrange(1, s.len() as int))
    } else {
        s
    }
}

/// What is left of `s` once every trailing whitespace character is gone.
pub open spec fn trim_end_spec(s: Seq<char>) -> Seq<char>
    decreases s.len(),
{
    if s.len() > 0 && is_whitespace_char(s[s.len() - 1]) {
        trim_end_spec(s.subrange(0, s.len() - 1))
    } else {
        s
    }
}

/// `s` without leading and trailing whitespace.
pub open spec fn trim_spec(s: Seq<char>) -> Seq<char> {
    trim_end_spec(trim_start_spec(s))
}

fn str_trim_start(s: &str) -> (r: &str)
    ensures
        r@ == trim_start_spec(s@),
    decreases s@.len(),
{
    let n: usize = s.unicode_len();
    if n > 0 && char_is_whitespace(s.get_char(0)) {
        str_trim_start(s.substring_char(1, n))
    } else {
        s
    }
}

fn str_trim_end(s: &str) -> (r: &str)
    ensures
        r@ == trim_end_spec(s@),
    decreases s@.len(),
{
    let n: usize = s.unicode_len();
    if n > 0 && char_is_whitespace(s.get_char(n - 1)) {
        str_trim_end(s.substring_char(0, n - 1))
    } else {
        s
    }
}

/// One line of user input as the menu reads it: surrounding whitespace
/// (the trailing newline included) removed.
pub fn trim_input(s: &str) -> (r: String)
    ensures
        r@ == trim_spec(s@),
{
    str_trim_end(str_trim_start(s)).to_owned()
}

pub open spec fn is_decimal_digit(c: char) -> bool {
    0x30 <= c as u32 && c as u32 <= 0x39
}

pub open spec fn decimal_digit_of(c: char) -> nat {
    (c as u32 - 0x30) as nat
}

/// The value of an unsigned decimal numeral, most significant digit
/// first.
pub open spec fn digits_value(s: Seq<char>) -> nat
    decreases s.len(),
{
    if s.len() == 0 {
        0
    } else {
        digits_value(s.drop_last()) * 10 + decimal_digit_of(s.last())
    }
}

pub open spec fn all_decimal_digits(s: Seq<char>) -> bool {
    forall|i: int| 0 <= i < s.len() ==> is_decimal_digit(s[i])
}

/// What `u32` parsing accepts: an optional leading `+`, then at least
/// one decimal digit, the whole value fitting in 32 bits.
pub open spec fn parse_u32_spec(s: Seq<char>) -> Option<u32> {
    let body = if s.len() > 0 && s[0] == '+' {
        s.subrange(1, s.len() as int)
    } else {
        s
    };
    if body.len() == 0 || !all_decimal_digits(body) {
        None
    } else if digits_value(body) > u32::MAX {
        None
    } else {
        Some(digits_value(body) as u32)
    }
}

proof fn lemma_digits_value_prefix_le(s: Seq<char>, i: int)
    requires
        0 <= i <= s.len(),
    ensures
        digits_value(s.subrange(0, i)) <= digits_value(s),
    decreases s.len() - i,
{
    if i == s.len() {
        assert(s.subrange(0, i) =~= s);
    } else {
        assert(s.subrange(0, i + 1).drop_last() =~= s.subrange(0, i));
        assert(digits_value(s.subrange(0, i)) <= digits_value(s.subrange(0, i + 1)));
        lemma_digits_value_prefix_le(s, i + 1);
    }
}

#[verifier::loop_isolation(false)]
pub fn parse_u32(s: &str) -> (r: Option<u32>)
    ensures
        r == parse_u32_spec(s@),
{
    let n: usize = s.unicode_len();
    let body: &str = if n > 0 && s.get_char(0) == '+' {
        s.substring_char(1, n)
    } else {
        s
    };
    let m: usize = body.unicode_len();
    if m == 0 {
        return None;
    }
    let mut acc: u64 = 0;
    let mut i: usize = 0;
    while i < m
        invariant
            i <= m,
            m == body@.len(),
            forall|k: int| 0 <= k < i ==> is_decimal_digit(body@[k]),
            acc == digits_value(body@.subrange(0, i as int)),
            acc <= u32::MAX,
        decreases m - i,
    {
        let c = body.get_char(i);
        let cv: u32 = c as u32;
        if !(0x30 <= cv && cv <= 0x39) {
            assert(!is_decimal_digit(body@[i as int]));
            return None;
        }
        let d: u64 = (cv - 0x30) as u64;
        let ghost before: Seq<char> = body@.subrange(0, i as int);
        acc = acc * 10 + d;
        i = i + 1;
        proof {
            assert(body@.subrange(0, i as int).drop_last() =~= before);
            assert(body@.subrange(0, i as int).last() == body@[i - 1]);
        }
        if acc > u32::MAX as u64 {
            proof {
                lemma_digits_value_prefix_le(body@, i as int);
            }
            return None;
        }
    }
    proof {
        assert(body@.subrange(0, m as int) =~= body@);
    }
    Some(acc as u32)
}

} // verus!
