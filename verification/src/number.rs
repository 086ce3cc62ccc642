//! Whole numbers as a number field reads and shows them.

use vstd::prelude::*;
use vstd::utf8::is_ascii_chars;

verus! {

/// Whether a character is one of the ten decimal digits.
pub open spec fn is_digit(c: char) -> bool {
    '0' <= c <= '9'
}

/// The value of a decimal digit.
pub open spec fn digit_value(c: char) -> int {
    c as int - '0' as int
}

/// Whether every character is a decimal digit.
pub open spec fn all_digits(digits: Seq<char>) -> bool {
    forall|i: int| 0 <= i < digits.len() ==> is_digit(#[trigger] digits[i])
}

/// The number that a row of decimal digits stands for.
pub open spec fn decimal_value(digits: Seq<char>) -> int
    decreases digits.len(),
{
    if digits.len() == 0 {
        0
    } else {
        10 * decimal_value(digits.drop_last()) + digit_value(digits.last())
    }
}

/// Whether text starts with a plus or a minus sign.
pub open spec fn has_sign(text: Seq<char>) -> bool {
    text.len() > 0 && (text[0] == '-' || text[0] == '+')
}

/// The digits of a number: the text without its sign.
pub open spec fn digits_of(text: Seq<char>) -> Seq<char> {
    if has_sign(text) {
        text.drop_first()
    } else {
        text
    }
}

/// The number that text stands for, before any bound is applied.
pub open spec fn signed_value(text: Seq<char>) -> int {
    if text.len() > 0 && text[0] == '-' {
        -decimal_value(digits_of(text))
    } else {
        decimal_value(digits_of(text))
    }
}

/// The 64-bit number that text stands for: an optional sign, then at least
/// one digit and nothing but digits, with a value in range. Anything else,
/// blanks included, stands for nothing.
pub open spec fn spec_parse_i64(text: Seq<char>) -> Option<i64> {
    if digits_of(text).len() > 0 && all_digits(digits_of(text)) && i64::MIN <= signed_value(text)
        <= i64::MAX {
        Some(signed_value(text) as i64)
    } else {
        None
    }
}

/// A row of digits stands for a number that is not negative.
pub proof fn lemma_decimal_value_nonnegative(digits: Seq<char>)
    requires
        all_digits(digits),
    ensures
        decimal_value(digits) >= 0,
    decreases digits.len(),
{
    if digits.len() > 0 {
        assert(all_digits(digits.drop_last())) by {
            assert forall|i: int| 0 <= i < digits.drop_last().len() implies is_digit(
                #[trigger] digits.drop_last()[i],
            ) by {
                assert(digits.drop_last()[i] == digits[i]);
            }
        }
        lemma_decimal_value_nonnegative(digits.drop_last());
        assert(is_digit(digits[digits.len() - 1]));
    }
}

/// Reading one digit more multiplies what was read by ten and adds the
/// digit.
pub proof fn lemma_decimal_value_step(digits: Seq<char>, read: int)
    requires
        0 <= read < digits.len(),
    ensures
        decimal_value(digits.take(read + 1)) == 10 * decimal_value(digits.take(read))
            + digit_value(digits[read]),
{
    assert(digits.take(read + 1).drop_last() =~= digits.take(read));
    assert(digits.take(read + 1).last() == digits[read]);
}

/// More digits never stand for less: what the first `read` digits stand for
/// is at most what all of them stand for.
pub proof fn lemma_decimal_value_grows(digits: Seq<char>, read: int)
    requires
        all_digits(digits),
        0 <= read <= digits.len(),
    ensures
        decimal_value(digits.take(read)) <= decimal_value(digits),
    decreases digits.len() - read,
{
    if read == digits.len() {
        assert(digits.take(read) =~= digits);
    } else {
        lemma_decimal_value_step(digits, read);
        assert(all_digits(digits.take(read))) by {
            assert forall|i: int| 0 <= i < digits.take(read).len() implies is_digit(
                #[trigger] digits.take(read)[i],
            ) by {
                assert(digits.take(read)[i] == digits[i]);
            }
        }
        lemma_decimal_value_nonnegative(digits.take(read));
        assert(is_digit(digits[read]));
        lemma_decimal_value_grows(digits, read + 1);
    }
}

/// Reads a 64-bit number: an optional sign and then digits only. Text that
/// is empty, holds anything but digits after the sign, or stands for a
/// number out of range gives nothing.
pub fn parse_i64(text: &str) -> (number: Option<i64>)
    ensures
        number == spec_parse_i64(text@),
{
    if !text.is_ascii() {
        proof {
            let at = choose|i: int| 0 <= i < text@.len() && !('\0' <= #[trigger] text@[i] <= '\u{7f}');
            let digits = digits_of(text@);
            if has_sign(text@) {
                assert(at > 0);
                assert(digits[at - 1] == text@[at]);
                assert(!is_digit(digits[at - 1]));
            } else {
                assert(!is_digit(digits[at]));
            }
        }
        return None;
    }
    let len = text.unicode_len();
    if len == 0 {
        return None;
    }
    let first = text.get_ascii(0);
    let negative = first == 45u8;
    let signed = first == 45u8 || first == 43u8;
    let start: usize = if signed {
        1
    } else {
        0
    };
    proof {
        assert(signed == has_sign(text@));
        assert(negative == (text@[0] == '-'));
    }
    let ghost digits = digits_of(text@);
    if start == len {
        return None;
    }
    // The digits read so far, negated: the negative range is the wider one.
    let mut below: i64 = 0;
    let mut at: usize = start;
    while at < len
        invariant
            is_ascii_chars(text@),
            len == text@.len(),
            digits == digits_of(text@),
            digits.len() == len - start,
            start <= at <= len,
            start <= 1,
            forall|i: int| 0 <= i < digits.len() ==> digits[i] == text@[i + start],
            all_digits(digits.take(at - start)),
            below == -decimal_value(digits.take(at - start)),
            below <= 0,
        decreases len - at,
    {
        let byte = text.get_ascii(at);
        let ghost read = at - start;
        proof {
            assert(digits[read] == text@[at as int]);
            assert('\0' <= text@[at as int] <= '\u{7f}');
        }
        if byte < 48u8 || byte > 57u8 {
            proof {
                assert(!is_digit(digits[read]));
            }
            return None;
        }
        let digit: i64 = (byte - 48u8) as i64;
        proof {
            assert(digit == digit_value(digits[read]));
            lemma_decimal_value_step(digits, read);
            assert(all_digits(digits.take(read + 1))) by {
                assert forall|i: int| 0 <= i < read + 1 implies is_digit(
                    #[trigger] digits.take(read + 1)[i],
                ) by {
                    if i < read {
                        assert(digits.take(read)[i] == digits[i]);
                        assert(is_digit(digits.take(read)[i]));
                    }
                }
            }
        }
        if below < -922337203685477580i64 || below * 10 < i64::MIN + digit {
            proof {
                // What was read is already out of range, and so is the whole.
                assert(decimal_value(digits.take(read + 1)) > 0x8000_0000_0000_0000);
                if all_digits(digits) {
                    lemma_decimal_value_grows(digits, read + 1);
                }
            }
            return None;
        }
        below = below * 10 - digit;
        at = at + 1;
    }
    proof {
        assert(digits.take(at - start) =~= digits);
    }
    if negative {
        Some(below)
    } else if below == i64::MIN {
        None
    } else {
        Some(-below)
    }
}

/// The number a number field reports after typing: what was typed if it is
/// a number, the previous value if it is not.
pub fn number_input(typed: &str, previous: i64) -> (value: i64)
    ensures
        value == match spec_parse_i64(typed@) {
            Some(number) => number,
            None => previous,
        },
{
    match parse_i64(typed) {
        Some(number) => number,
        None => previous,
    }
}

/// The ten decimal digits.
pub open spec fn digit_chars() -> Seq<char> {
    seq!['0', '1', '2', '3', '4', '5', '6', '7', '8', '9']
}

/// The digits of a number, without leading zeros; a single zero for zero.
pub open spec fn decimal_digits(number: nat) -> Seq<char>
    decreases number,
{
    if number < 10 {
        seq![digit_chars()[number as int]]
    } else {
        decimal_digits(number / 10).push(digit_chars()[(number % 10) as int])
    }
}

/// A 64-bit number as text: a minus sign for a negative number, then its
/// digits.
pub open spec fn spec_write_i64(number: i64) -> Seq<char> {
    if number < 0 {
        seq!['-'] + decimal_digits((-(number as int)) as nat)
    } else {
        decimal_digits(number as nat)
    }
}

/// The text of one digit.
fn digit_text(digit: u64) -> (text: &'static str)
    requires
        digit < 10,
    ensures
        text@ == seq![digit_chars()[digit as int]],
{
    proof {
        reveal_strlit("0");
        reveal_strlit("1");
        reveal_strlit("2");
        reveal_strlit("3");
        reveal_strlit("4");
        reveal_strlit("5");
        reveal_strlit("6");
        reveal_strlit("7");
        reveal_strlit("8");
        reveal_strlit("9");
    }
    let text = match digit {
        0 => "0",
        1 => "1",
        2 => "2",
        3 => "3",
        4 => "4",
        5 => "5",
        6 => "6",
        7 => "7",
        8 => "8",
        _ => "9",
    };
    proof {
        assert(text@ =~= seq![digit_chars()[digit as int]]);
    }
    text
}

/// Writes a number that is not negative in decimal digits.
pub fn write_u64(number: u64) -> (text: String)
    ensures
        text@ == decimal_digits(number as nat),
    decreases number,
{
    if number < 10 {
        String::from_str(digit_text(number))
    } else {
        let mut text = write_u64(number / 10);
        text.append(digit_text(number % 10));
        proof {
            assert(text@ =~= decimal_digits(number as nat));
        }
        text
    }
}

/// Writes a 64-bit number as a number field shows it: a minus sign for a
/// negative number, then its digits.
pub fn write_i64(number: i64) -> (text: String)
    ensures
        text@ == spec_write_i64(number),
{
    if number < 0 {
        let size: u64 = if number == i64::MIN {
            9223372036854775808u64
        } else {
            (-number) as u64
        };
        let digits = write_u64(size);
        let mut text = String::from_str("-");
        text.append(digits.as_str());
        proof {
            reveal_strlit("-");
            assert(text@ =~= spec_write_i64(number));
        }
        text
    } else {
        write_u64(number as u64)
    }
}

/// What is written for a number is a row of digits, not empty, that stands
/// for the number.
pub proof fn lemma_written_digits(number: nat)
    ensures
        decimal_digits(number).len() > 0,
        all_digits(decimal_digits(number)),
        decimal_value(decimal_digits(number)) == number,
    decreases number,
{
    let digits = decimal_digits(number);
    if number < 10 {
        assert(digits.drop_last() =~= Seq::<char>::empty());
        assert(digits.last() == digit_chars()[number as int]);
        assert(decimal_value(digits.drop_last()) == 0);
    } else {
        let front = decimal_digits(number / 10);
        lemma_written_digits(number / 10);
        assert(digits.drop_last() =~= front);
        assert(digits.last() == digit_chars()[(number % 10) as int]);
        assert forall|i: int| 0 <= i < digits.len() implies is_digit(#[trigger] digits[i]) by {
            if i < front.len() {
                assert(digits[i] == front[i]);
            }
        }
    }
}

/// What a number field shows for a number reads back as that number.
pub proof fn lemma_write_read_round_trip(number: i64)
    ensures
        spec_parse_i64(spec_write_i64(number)) == Some(number),
{
    let text = spec_write_i64(number);
    if number < 0 {
        let size = (-(number as int)) as nat;
        lemma_written_digits(size);
        assert(text[0] == '-');
        assert(text.drop_first() =~= decimal_digits(size));
    } else {
        lemma_written_digits(number as nat);
        assert(is_digit(text[0]));
    }
}

} // verus!
