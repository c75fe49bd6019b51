//! Reading a coordinate from a line of text of the form `<row>,<col>`.

use vstd::prelude::*;
use crate::error::GameError;

verus! {

/// The characters that may stand around a number and are skipped: space,
/// tab, line feed and carriage return.
pub open spec fn is_blank(c: char) -> bool {
    c == ' ' || c == '\t' || c == '\n' || c == '\r'
}

/// The decimal digits `0` to `9`.
pub open spec fn is_digit(c: char) -> bool {
    '0' as int <= c as int <= '9' as int
}

/// What a digit counts for; 0 for any other character.
pub open spec fn digit_value(c: char) -> nat {
    if is_digit(c) {
        (c as int - '0' as int) as nat
    } else {
        0
    }
}

/// The number that `s` spells in decimal, most significant digit first.
pub open spec fn decimal(s: Seq<char>) -> nat
    decreases s.len(),
{
    if s.len() == 0 {
        0
    } else {
        10 * decimal(s.drop_last()) + digit_value(s.last())
    }
}

/// `s` without the blanks at its two ends.
pub open spec fn trimmed(s: Seq<char>) -> Seq<char>
    decreases s.len(),
{
    if s.len() > 0 && is_blank(s.first()) {
        trimmed(s.drop_first())
    } else if s.len() > 0 && is_blank(s.last()) {
        trimmed(s.drop_last())
    } else {
        s
    }
}

/// The number that a field stands for: between blanks it must hold one or
/// more digits and nothing else, and their value must fit a `usize`.
pub open spec fn field_value(s: Seq<char>) -> Option<usize> {
    let t = trimmed(s);
    if t.len() > 0 && (forall|i: int| 0 <= i < t.len() ==> is_digit(#[trigger] t[i])) && decimal(t)
        <= usize::MAX {
        Some(decimal(t) as usize)
    } else {
        None
    }
}

/// The coordinate that a line stands for. The line is cut at its first
/// comma: what stands before it is the row, all that follows is the column.
/// A line without a comma, or with a field that is no number, is invalid.
pub open spec fn coordinate_of(line: Seq<char>) -> Result<(usize, usize), GameError> {
    match line.index_of_first(',') {
        None => Err(GameError::InvalidInput),
        Some(k) => match (field_value(line.take(k)), field_value(line.skip(k + 1))) {
            (Some(row), Some(col)) => Ok((row, col)),
            _ => Err(GameError::InvalidInput),
        },
    }
}

/// Trimming leaves the part between the first and the last character that
/// is not a blank.
proof fn lemma_trimmed(s: Seq<char>, lo: int, hi: int)
    requires
        0 <= lo <= hi <= s.len(),
        forall|j: int| 0 <= j < lo ==> is_blank(#[trigger] s[j]),
        forall|j: int| hi <= j < s.len() ==> is_blank(#[trigger] s[j]),
        lo < hi ==> !is_blank(s[lo]) && !is_blank(s[hi - 1]),
    ensures
        trimmed(s) == s.subrange(lo, hi),
    decreases s.len(),
{
    if s.len() > 0 && is_blank(s.first()) {
        if lo == 0 {
            lemma_trimmed(s.drop_first(), 0, 0);
        } else {
            lemma_trimmed(s.drop_first(), lo - 1, hi - 1);
        }
    } else if s.len() > 0 && is_blank(s.last()) {
        lemma_trimmed(s.drop_last(), lo, hi);
    }
}

/// A number is at least what any of its leading digits spell.
proof fn lemma_decimal_prefix(s: Seq<char>, k: int)
    requires
        0 <= k <= s.len(),
    ensures
        decimal(s.take(k)) <= decimal(s),
    decreases s.len() - k,
{
    if k == s.len() {
        assert(s.take(k) =~= s);
    } else {
        lemma_decimal_prefix(s, k + 1);
        assert(s.take(k + 1).drop_last() =~= s.take(k));
    }
}

fn is_blank_char(c: char) -> (blank: bool)
    ensures
        blank == is_blank(c),
{
    c == ' ' || c == '\t' || c == '\n' || c == '\r'
}

/// The number that stands in `chars` from `from` up to `to`, if it is one.
fn parse_field(chars: &Vec<char>, from: usize, to: usize) -> (value: Option<usize>)
    requires
        from <= to <= chars@.len(),
    ensures
        value == field_value(chars@.subrange(from as int, to as int)),
{
    let ghost field = chars@.subrange(from as int, to as int);
    let mut lo = from;
    while lo < to && is_blank_char(chars[lo])
        invariant
            from <= lo <= to <= chars@.len(),
            forall|j: int| from <= j < lo ==> is_blank(#[trigger] chars@[j]),
        decreases to - lo,
    {
        lo += 1;
    }
    let mut hi = to;
    while hi > lo && is_blank_char(chars[hi - 1])
        invariant
            lo <= hi <= to <= chars@.len(),
            forall|j: int| hi <= j < to ==> is_blank(#[trigger] chars@[j]),
        decreases hi - lo,
    {
        hi -= 1;
    }
    let ghost digits = chars@.subrange(lo as int, hi as int);
    proof {
        lemma_trimmed(field, lo - from, hi - from);
    }
    if lo == hi {
        return None;
    }
    let mut value: usize = 0;
    let mut i = lo;
    while i < hi
        invariant
            from <= lo <= i <= hi <= to <= chars@.len(),
            digits == chars@.subrange(lo as int, hi as int),
            trimmed(chars@.subrange(from as int, to as int)) == digits,
            forall|j: int| 0 <= j < i - lo ==> is_digit(#[trigger] digits[j]),
            value == decimal(digits.take(i - lo)),
        decreases hi - i,
    {
        let c = chars[i];
        if c < '0' || c > '9' {
            assert(!is_digit(digits[i - lo]));
            return None;
        }
        let digit = (c as u32 - '0' as u32) as usize;
        proof {
            lemma_decimal_prefix(digits, i - lo + 1);
            assert(digits.take(i - lo + 1).drop_last() =~= digits.take(i - lo));
        }
        match value.checked_mul(10) {
            None => {
                return None;
            },
            Some(tens) => match tens.checked_add(digit) {
                None => {
                    return None;
                },
                Some(sum) => {
                    value = sum;
                },
            },
        }
        i += 1;
    }
    assert(digits.take(hi - lo) =~= digits);
    Some(value)
}

/// The characters of `line`, in order.
fn chars_of(line: &str) -> (chars: Vec<char>)
    ensures
        chars@ == line@,
{
    let mut chars: Vec<char> = Vec::new();
    for c in it: line.chars()
        invariant
            chars@ == it.seq().take(it.index() as int),
    {
        chars.push(c);
    }
    chars
}

/// Reads a coordinate from a line of the form `<row>,<col>`. Blanks around
/// either number are skipped. Any other line is invalid input: one without a
/// comma, with a field that is empty or holds anything but digits, or with a
/// number too large for a `usize`.
pub fn parse_coordinate(line: &str) -> (result: Result<(usize, usize), GameError>)
    ensures
        result == coordinate_of(line@),
{
    let chars = chars_of(line);
    let mut k: usize = 0;
    while k < chars.len() && chars[k] != ','
        invariant
            k <= chars@.len(),
            forall|j: int| 0 <= j < k ==> #[trigger] chars@[j] != ',',
        decreases chars@.len() - k,
    {
        k += 1;
    }
    proof {
        chars@.index_of_first_ensures(',');
    }
    if k == chars.len() {
        return Err(GameError::InvalidInput);
    }
    let row = parse_field(&chars, 0, k);
    let col = parse_field(&chars, k + 1, chars.len());
    match (row, col) {
        (Some(row), Some(col)) => Ok((row, col)),
        _ => Err(GameError::InvalidInput),
    }
}

} // verus!
