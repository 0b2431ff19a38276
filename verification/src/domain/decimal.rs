//! Decimal numerals, as the identifiers of a record are written.

use vstd::prelude::*;
use vstd::string::{StrSliceExecFns, StringExecFns};

verus! {

/// The code of the plus sign.
const PLUS: u8 = 43;

/// The code of the digit zero.
const ZERO: u8 = 48;

/// The code of the digit nine.
const NINE: u8 = 57;

/// Whether `c` is one of the ten decimal digits.
pub open spec fn is_digit(c: char) -> bool {
    '0' <= c <= '9'
}

/// The number that the digit `c` stands for.
pub open spec fn digit_value(c: char) -> nat {
    (c as u32 - '0' as u32) as nat
}

/// Whether `text` consists of decimal digits only.
pub open spec fn all_digits(text: Seq<char>) -> bool {
    forall|i: int| 0 <= i < text.len() ==> is_digit(#[trigger] text[i])
}

/// The number that `digits` writes in base ten.
pub open spec fn digits_value(digits: Seq<char>) -> nat
    decreases digits.len(),
{
    if digits.len() == 0 {
        0
    } else {
        digits_value(digits.drop_last()) * 10 + digit_value(digits.last())
    }
}

/// `text` without the plus sign that a numeral may begin with.
pub open spec fn unsigned_part(text: Seq<char>) -> Seq<char> {
    if text.len() > 0 && text[0] == '+' {
        text.drop_first()
    } else {
        text
    }
}

/// The number that `text` writes, where `text` is a numeral for a number up
/// to `limit`: an optional plus sign, then one or more decimal digits and
/// nothing else.
pub open spec fn numeral(text: Seq<char>, limit: nat) -> Option<nat> {
    let digits = unsigned_part(text);
    if digits.len() > 0 && all_digits(digits) && digits_value(digits) <= limit {
        Some(digits_value(digits))
    } else {
        None
    }
}

/// The number that a beginning of a digit sequence writes is at most the
/// number that the whole sequence writes.
proof fn prefix_value_is_smaller(digits: Seq<char>, n: int)
    requires
        0 <= n <= digits.len(),
    ensures
        digits_value(digits.take(n)) <= digits_value(digits),
    decreases digits.len() - n,
{
    if n == digits.len() {
        assert(digits.take(n) == digits);
    } else {
        prefix_value_is_smaller(digits, n + 1);
        assert(digits.take(n + 1).drop_last() == digits.take(n));
    }
}

/// Reads a numeral for a number up to `limit`.
pub fn parse_numeral(text: &str, limit: u64) -> (result: Option<u64>)
    ensures
        match result {
            Some(value) => numeral(text@, limit as nat) == Some(value as nat),
            None => numeral(text@, limit as nat) is None,
        },
{
    let ghost digits = unsigned_part(text@);
    if !text.is_ascii() {
        proof {
            let i = choose|i: int| 0 <= i < text@.len() && !('\0' <= #[trigger] text@[i] <= '\u{7f}');
            if text@[0] == '+' {
                assert(digits[i - 1] == text@[i]);
            } else {
                assert(digits[i] == text@[i]);
            }
        }
        return None;
    }
    let len = text.unicode_len();
    let start: usize = if len > 0 && text.get_ascii(0) == PLUS {
        1
    } else {
        0
    };
    if start == len {
        return None;
    }
    assert(digits == text@.subrange(start as int, len as int));
    let mut value: u64 = 0;
    let mut i: usize = start;
    while i < len
        invariant
            text.is_ascii(),
            len == text@.len(),
            digits == unsigned_part(text@),
            digits == text@.subrange(start as int, len as int),
            start <= i <= len,
            all_digits(digits.take(i - start)),
            value == digits_value(digits.take(i - start)),
            value <= limit,
        decreases len - i,
    {
        let byte = text.get_ascii(i);
        let ghost seen = digits.take(i - start);
        let ghost longer = digits.take(i - start + 1);
        assert(digits[i - start] == text@[i as int]);
        if byte < ZERO || byte > NINE {
            return None;
        }
        assert(longer.drop_last() == seen);
        assert(all_digits(longer));
        let digit: u64 = (byte - ZERO) as u64;
        proof {
            prefix_value_is_smaller(digits, i - start + 1);
        }
        if value > limit / 10 {
            return None;
        }
        let tens: u64 = value * 10;
        if digit > limit - tens {
            return None;
        }
        value = tens + digit;
        i = i + 1;
    }
    assert(digits.take(len - start) == digits);
    Some(value)
}

/// The character that writes the digit `digit`.
pub open spec fn digit_char(digit: nat) -> char {
    (digit + 48) as u8 as char
}

/// The numeral that writes `number`: its decimal digits, the first of them
/// not zero unless the number is.
pub open spec fn decimal(number: nat) -> Seq<char>
    decreases number,
{
    if number < 10 {
        seq![digit_char(number)]
    } else {
        decimal(number / 10).push(digit_char(number % 10))
    }
}

/// What `decimal` writes reads back as the number it was written for.
pub proof fn decimal_reads_back(number: nat, limit: nat)
    requires
        number <= limit,
    ensures
        numeral(decimal(number), limit) == Some(number),
{
    decimal_is_digits(number);
}

/// What `decimal` writes is one or more digits, and they write the number.
proof fn decimal_is_digits(number: nat)
    ensures
        decimal(number).len() > 0,
        all_digits(decimal(number)),
        digits_value(decimal(number)) == number,
    decreases number,
{
    if number < 10 {
        let text = decimal(number);
        assert(text.drop_last() == Seq::<char>::empty());
        assert(digits_value(text.drop_last()) == 0);
    } else {
        decimal_is_digits(number / 10);
        let text = decimal(number);
        assert(text.drop_last() == decimal(number / 10));
    }
}

/// The text of one digit.
fn digit_text(digit: u64) -> (result: &'static str)
    requires
        digit < 10,
    ensures
        result@ == seq![digit_char(digit as nat)],
{
    proof {
        reveal_strlit("0");
        reveal_strlit("1");
        reveal_strlit("2");
        reveal_strlit("3");
        reveal_strlit("4");
        reveal_strlit("5");
        reveal_strlit("6");
        reveal_strlit("7");
        reveal_strlit("8");
        reveal_strlit("9");
    }
    let text = if digit == 0 {
        "0"
    } else if digit == 1 {
        "1"
    } else if digit == 2 {
        "2"
    } else if digit == 3 {
        "3"
    } else if digit == 4 {
        "4"
    } else if digit == 5 {
        "5"
    } else if digit == 6 {
        "6"
    } else if digit == 7 {
        "7"
    } else if digit == 8 {
        "8"
    } else {
        "9"
    };
    assert(text@ =~= seq![digit_char(digit as nat)]);
    text
}

/// Writes `number` in decimal.
pub fn render_decimal(number: u64) -> (result: String)
    ensures
        result@ == decimal(number as nat),
    decreases number,
{
    if number < 10 {
        digit_text(number).to_owned()
    } else {
        let text = render_decimal(number / 10).concat(digit_text(number % 10));
        assert(text@ =~= decimal(number as nat));
        text
    }
}

} // verus!
