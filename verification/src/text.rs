//! Numbers as decimal text, and texts that begin with a given prefix: what identifiers,
//! amounts and denominations are made of.

use vstd::prelude::*;
use vstd::string::*;

verus! {

/// The value of a decimal digit.
pub open spec fn digit_value(c: char) -> Option<nat> {
    if c == '0' {
        Some(0)
    } else if c == '1' {
        Some(1)
    } else if c == '2' {
        Some(2)
    } else if c == '3' {
        Some(3)
    } else if c == '4' {
        Some(4)
    } else if c == '5' {
        Some(5)
    } else if c == '6' {
        Some(6)
    } else if c == '7' {
        Some(7)
    } else if c == '8' {
        Some(8)
    } else if c == '9' {
        Some(9)
    } else {
        None
    }
}

/// The number that `text` writes in decimal digits: there is one where the text is not
/// empty and holds nothing but digits.
pub open spec fn decimal_value(text: Seq<char>) -> Option<nat>
    decreases text.len(),
{
    if text.len() == 0 {
        None
    } else {
        match digit_value(text.last()) {
            None => None,
            Some(d) => {
                if text.len() == 1 {
                    Some(d)
                } else {
                    match decimal_value(text.drop_last()) {
                        None => None,
                        Some(v) => Some(v * 10 + d),
                    }
                }
            },
        }
    }
}

/// A text that writes a number does so in each of its beginnings, and none of them
/// writes a larger number than the whole.
pub proof fn lemma_decimal_prefix(text: Seq<char>, i: int)
    requires
        0 < i <= text.len(),
        decimal_value(text).is_some(),
    ensures
        decimal_value(text.subrange(0, i)).is_some(),
        decimal_value(text.subrange(0, i))->0 <= decimal_value(text)->0,
        digit_value(text[i - 1]).is_some(),
    decreases text.len(),
{
    if i == text.len() {
        assert(text.subrange(0, i) == text);
    } else {
        lemma_decimal_prefix(text.drop_last(), i);
        assert(text.drop_last().subrange(0, i) == text.subrange(0, i));
    }
}

/// Computes [`digit_value`].
pub fn digit_of(c: char) -> (d: Option<u8>)
    ensures
        match d {
            Some(d) => digit_value(c) == Some(d as nat) && d <= 9,
            None => digit_value(c).is_none(),
        },
{
    if c == '0' {
        Some(0)
    } else if c == '1' {
        Some(1)
    } else if c == '2' {
        Some(2)
    } else if c == '3' {
        Some(3)
    } else if c == '4' {
        Some(4)
    } else if c == '5' {
        Some(5)
    } else if c == '6' {
        Some(6)
    } else if c == '7' {
        Some(7)
    } else if c == '8' {
        Some(8)
    } else if c == '9' {
        Some(9)
    } else {
        None
    }
}

/// The number within 128 bits that `text` writes in decimal digits.
pub open spec fn decimal_in(text: Seq<char>) -> Option<u128> {
    match decimal_value(text) {
        Some(v) => if v <= u128::MAX {
            Some(v as u128)
        } else {
            None
        },
        None => None,
    }
}

/// Reads a number written in decimal digits. Empty text, anything but digits, and a
/// number beyond 128 bits give none.
pub fn parse_decimal(text: &str) -> (number: Option<u128>)
    ensures
        number == decimal_in(text@),
{
    let n = text.unicode_len();
    if n == 0 {
        return None;
    }
    let mut acc: u128 = 0;
    let mut i: usize = 0;
    while i < n
        invariant
            i <= n,
            n == text@.len(),
            i == 0 ==> acc == 0,
            i > 0 ==> decimal_value(text@.subrange(0, i as int)) == Some(acc as nat),
        decreases n - i,
    {
        let c = text.get_char(i);
        let ghost next = text@.subrange(0, i + 1);
        assert(next.last() == c);
        assert(next.drop_last() == text@.subrange(0, i as int));
        match digit_of(c) {
            None => {
                proof {
                    if decimal_value(text@).is_some() {
                        lemma_decimal_prefix(text@, i + 1);
                    }
                }
                return None;
            },
            Some(d) => {
                if acc > (u128::MAX - d as u128) / 10 {
                    proof {
                        if decimal_value(text@).is_some() {
                            lemma_decimal_prefix(text@, i + 1);
                        }
                    }
                    return None;
                }
                acc = acc * 10 + d as u128;
            },
        }
        i += 1;
    }
    assert(text@.subrange(0, n as int) == text@);
    Some(acc)
}

/// The text of one decimal digit.
pub open spec fn digit_text(d: nat) -> Seq<char> {
    if d == 0 {
        "0"@
    } else if d == 1 {
        "1"@
    } else if d == 2 {
        "2"@
    } else if d == 3 {
        "3"@
    } else if d == 4 {
        "4"@
    } else if d == 5 {
        "5"@
    } else if d == 6 {
        "6"@
    } else if d == 7 {
        "7"@
    } else if d == 8 {
        "8"@
    } else {
        "9"@
    }
}

/// The decimal digits of `n`, without leading zeros.
pub open spec fn decimal_text(n: nat) -> Seq<char>
    decreases n,
{
    if n < 10 {
        digit_text(n)
    } else {
        decimal_text(n / 10) + digit_text(n % 10)
    }
}

/// Computes [`digit_text`].
fn digit_str(d: u128) -> (text: &'static str)
    requires
        d <= 9,
    ensures
        text@ == digit_text(d as nat),
{
    if d == 0 {
        "0"
    } else if d == 1 {
        "1"
    } else if d == 2 {
        "2"
    } else if d == 3 {
        "3"
    } else if d == 4 {
        "4"
    } else if d == 5 {
        "5"
    } else if d == 6 {
        "6"
    } else if d == 7 {
        "7"
    } else if d == 8 {
        "8"
    } else {
        "9"
    }
}

/// Writes `n` in decimal digits.
pub fn decimal(n: u128) -> (text: String)
    ensures
        text@ == decimal_text(n as nat),
    decreases n,
{
    if n < 10 {
        digit_str(n).to_owned()
    } else {
        let mut text = decimal(n / 10);
        text.append(digit_str(n % 10));
        text
    }
}

/// Whether `text` begins with `prefix`.
pub open spec fn starts_with(text: Seq<char>, prefix: Seq<char>) -> bool {
    prefix.len() <= text.len() && text.subrange(0, prefix.len() as int) == prefix
}

/// Computes [`starts_with`].
pub fn has_prefix(text: &str, prefix: &str) -> (r: bool)
    ensures
        r == starts_with(text@, prefix@),
{
    let n = prefix.unicode_len();
    if n > text.unicode_len() {
        return false;
    }
    let head = text.substring_char(0, n).to_owned();
    let wanted = prefix.to_owned();
    head == wanted
}

/// The number that `text` writes after `prefix`: the text must be the prefix followed by
/// the decimal digits of a number within 64 bits.
pub open spec fn numbered(text: Seq<char>, prefix: Seq<char>) -> Option<u64> {
    if !starts_with(text, prefix) {
        None
    } else {
        match decimal_value(text.subrange(prefix.len() as int, text.len() as int)) {
            Some(v) => if v <= u64::MAX {
                Some(v as u64)
            } else {
                None
            },
            None => None,
        }
    }
}

/// Computes [`numbered`].
pub fn parse_numbered(text: &str, prefix: &str) -> (number: Option<u64>)
    ensures
        number == numbered(text@, prefix@),
{
    if !has_prefix(text, prefix) {
        return None;
    }
    let digits = text.substring_char(prefix.unicode_len(), text.unicode_len());
    match parse_decimal(digits) {
        Some(v) => if v <= u64::MAX as u128 {
            Some(v as u64)
        } else {
            None
        },
        None => None,
    }
}

/// The text that writes `number` after `prefix`.
pub open spec fn numbered_text(prefix: Seq<char>, number: u64) -> Seq<char> {
    prefix + decimal_text(number as nat)
}

/// Computes [`numbered_text`].
pub fn write_numbered(prefix: &str, number: u64) -> (text: String)
    ensures
        text@ == numbered_text(prefix@, number),
{
    let mut text = prefix.to_owned();
    let digits = decimal(number as u128);
    text.append(digits.as_str());
    text
}

/// What is written reads back: the decimal digits of a number write that number.
pub proof fn lemma_decimal_reads_back(n: nat)
    ensures
        decimal_text(n).len() > 0,
        decimal_value(decimal_text(n)) == Some(n),
    decreases n,
{
    reveal_strlit("0");
    reveal_strlit("1");
    reveal_strlit("2");
    reveal_strlit("3");
    reveal_strlit("4");
    reveal_strlit("5");
    reveal_strlit("6");
    reveal_strlit("7");
    reveal_strlit("8");
    reveal_strlit("9");
    if n < 10 {
        assert(digit_text(n).len() == 1);
        assert(digit_value(digit_text(n).last()) == Some(n));
    } else {
        lemma_decimal_reads_back(n / 10);
        let digit = digit_text(n % 10);
        let text = decimal_text(n / 10) + digit;
        assert(digit.len() == 1);
        assert(digit_value(digit[0]) == Some(n % 10));
        assert(text.last() == digit[0]);
        assert(text.drop_last() =~= decimal_text(n / 10));
    }
}

/// What is written reads back: a number written after a prefix is read after that
/// prefix.
pub proof fn lemma_numbered_reads_back(prefix: Seq<char>, number: u64)
    ensures
        numbered(numbered_text(prefix, number), prefix) == Some(number),
{
    let digits = decimal_text(number as nat);
    let text = numbered_text(prefix, number);
    lemma_decimal_reads_back(number as nat);
    assert(text.subrange(0, prefix.len() as int) =~= prefix);
    assert(text.subrange(prefix.len() as int, text.len() as int) =~= digits);
}

} // verus!
