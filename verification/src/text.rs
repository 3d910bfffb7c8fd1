//! Text: numbers written out and read back, and lists joined.

use vstd::prelude::*;
use vstd::string::StrSliceExecFns;

verus! {

/// The character of the decimal digit `d`.
pub open spec fn digit(d: nat) -> char {
    if d == 0 {
        '0'
    } else if d == 1 {
        '1'
    } else if d == 2 {
        '2'
    } else if d == 3 {
        '3'
    } else if d == 4 {
        '4'
    } else if d == 5 {
        '5'
    } else if d == 6 {
        '6'
    } else if d == 7 {
        '7'
    } else if d == 8 {
        '8'
    } else {
        '9'
    }
}

/// `n` in decimal, without leading zeros.
pub open spec fn decimal(n: nat) -> Seq<char>
    decreases n,
{
    if n < 10 {
        seq![digit(n)]
    } else {
        decimal(n / 10).push(digit(n % 10))
    }
}

/// `i` in decimal, with a minus sign in front where it is negative.
pub open spec fn decimal_int(i: int) -> Seq<char> {
    if i < 0 {
        seq!['-'] + decimal((-i) as nat)
    } else {
        decimal(i as nat)
    }
}

/// The texts of a sequence of strings.
pub open spec fn texts(strings: Seq<String>) -> Seq<Seq<char>> {
    Seq::new(strings.len(), |i: int| strings[i]@)
}

/// `parts` with `separator` between each two neighbours.
pub open spec fn joined(parts: Seq<Seq<char>>, separator: Seq<char>) -> Seq<char>
    decreases parts.len(),
{
    if parts.len() == 0 {
        Seq::empty()
    } else if parts.len() == 1 {
        parts[0]
    } else {
        joined(parts.drop_last(), separator) + separator + parts.last()
    }
}

/// The number that the decimal digit `c` stands for.
pub open spec fn digit_value(c: char) -> nat {
    (c as u32 - '0' as u32) as nat
}

/// Whether `c` is one of the digits `0` to `9`.
pub open spec fn is_digit(c: char) -> bool {
    '0' as u32 <= c as u32 <= '9' as u32
}

/// The number that a sequence of decimal digits stands for.
pub open spec fn digits_value(digits: Seq<char>) -> nat
    decreases digits.len(),
{
    if digits.len() == 0 {
        0
    } else {
        digits_value(digits.drop_last()) * 10 + digit_value(digits.last())
    }
}

/// `text` without the plus sign that may stand in front of a number.
pub open spec fn unsigned_part(text: Seq<char>) -> Seq<char> {
    if text.len() > 0 && text[0] == '+' {
        text.subrange(1, text.len() as int)
    } else {
        text
    }
}

/// The ID that `text` denotes: `text` is one or more decimal digits, with at
/// most a plus sign in front and nothing else around them, and their number
/// fits the machine word. Otherwise `text` denotes no ID.
pub open spec fn parsed_id(text: Seq<char>) -> Option<usize> {
    let digits = unsigned_part(text);
    if digits.len() > 0 && (forall|i: int| 0 <= i < digits.len() ==> is_digit(digits[i]))
        && digits_value(digits) <= usize::MAX {
        Some(digits_value(digits) as usize)
    } else {
        None
    }
}

/// Appends `tail` to `text` by `String::push_str` of std: afterwards `text`
/// reads as before, followed by the characters of `tail`.
#[verifier::external_body]
pub(crate) fn push_str(text: &mut String, tail: &str)
    ensures
        final(text)@ == old(text)@ + tail@,
{
    text.push_str(tail);
}

fn digit_str(d: u64) -> (s: &'static str)
    requires
        d < 10,
    ensures
        s@ == seq![digit(d as nat)],
{
    proof {
        reveal_strlit("0");
        reveal_strlit("1");
        reveal_strlit("2");
        reveal_strlit("3");
        reveal_strlit("4");
        reveal_strlit("5");
        reveal_strlit("6");
        reveal_strlit("7");
        reveal_strlit("8");
        reveal_strlit("9");
    }
    let s = match d {
        0 => "0",
        1 => "1",
        2 => "2",
        3 => "3",
        4 => "4",
        5 => "5",
        6 => "6",
        7 => "7",
        8 => "8",
        _ => "9",
    };
    s
}

fn push_decimal(text: &mut String, n: u64)
    ensures
        final(text)@ == old(text)@ + decimal(n as nat),
    decreases n,
{
    if n >= 10 {
        push_decimal(text, n / 10);
    }
    push_str(text, digit_str(n % 10));
}

/// Writes a place in the catalogue in decimal.
pub fn index_text(index: usize) -> (text: String)
    ensures
        text@ == decimal(index as nat),
{
    let mut text = String::new();
    push_decimal(&mut text, index as u64);
    text
}

/// Writes a count or a task's number in decimal.
pub fn number_text(number: i32) -> (text: String)
    ensures
        text@ == decimal_int(number as int),
{
    let mut text = String::new();
    if number < 0 {
        push_str(&mut text, "-");
        proof {
            reveal_strlit("-");
        }
        let magnitude: u64 = (-(number as i64)) as u64;
        push_decimal(&mut text, magnitude);
    } else {
        push_decimal(&mut text, number as u64);
    }
    text
}

/// Joins `parts` with `separator` between each two neighbours.
pub fn join(parts: &Vec<String>, separator: &str) -> (text: String)
    ensures
        text@ == joined(texts(parts@), separator@),
{
    let mut text = String::new();
    let ghost all = texts(parts@);
    let mut i: usize = 0;
    while i < parts.len()
        invariant
            i <= parts.len(),
            all == texts(parts@),
            text@ == joined(all.subrange(0, i as int), separator@),
        decreases parts.len() - i,
    {
        if i > 0 {
            push_str(&mut text, separator);
        }
        push_str(&mut text, parts[i].as_str());
        proof {
            assert(all.subrange(0, i + 1).drop_last() =~= all.subrange(0, i as int));
        }
        i += 1;
    }
    assert(all.subrange(0, i as int) =~= all);
    text
}

proof fn lemma_digits_value_grows(digits: Seq<char>, shorter: int)
    requires
        0 <= shorter <= digits.len(),
    ensures
        digits_value(digits.subrange(0, shorter)) <= digits_value(digits),
    decreases digits.len(),
{
    if shorter < digits.len() {
        lemma_digits_value_grows(digits.drop_last(), shorter);
        assert(digits.drop_last().subrange(0, shorter) =~= digits.subrange(0, shorter));
    } else {
        assert(digits.subrange(0, shorter) =~= digits);
    }
}

/// Reads a project ID: decimal digits, with at most a plus sign in front.
/// Anything else, and a number beyond the machine word, is no ID.
pub fn parse_id(text: &str) -> (id: Option<usize>)
    ensures
        id == parsed_id(text@),
{
    let len: usize = text.unicode_len();
    let start: usize = if len > 0 && text.get_char(0) == '+' {
        1
    } else {
        0
    };
    let ghost digits = unsigned_part(text@);
    if start == len {
        return None;
    }
    let mut value: usize = 0;
    let mut i: usize = start;
    while i < len
        invariant
            start <= i <= len,
            len == text@.len(),
            start <= 1,
            digits == unsigned_part(text@),
            digits.len() == len - start,
            forall|k: int| 0 <= k < digits.len() ==> digits[k] == text@[k + start],
            forall|k: int| 0 <= k < i - start ==> is_digit(digits[k]),
            value == digits_value(digits.subrange(0, i - start)),
        decreases len - i,
    {
        let c: char = text.get_char(i);
        let code: u32 = c as u32;
        if code < 48 || code > 57 {
            assert(!is_digit(digits[i - start]));
            return None;
        }
        let d: usize = (code - 48) as usize;
        proof {
            assert(digits.subrange(0, i - start + 1).drop_last() =~= digits.subrange(
                0,
                i - start,
            ));
            lemma_digits_value_grows(digits, i - start + 1);
        }
        if value > (usize::MAX - d) / 10 {
            return None;
        }
        value = value * 10 + d;
        i += 1;
    }
    assert(digits.subrange(0, i - start) =~= digits);
    Some(value)
}

} // verus!
