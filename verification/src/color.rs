//! Colours as the colour picker handles them: three channels, written and
//! read as hexadecimal text.

use vstd::prelude::*;
use vstd::utf8::is_ascii_chars;
use crate::text::optional_view;

verus! {

/// An opaque colour of three channels.
#[derive(PartialEq, Eq, Structural, Clone, Copy, Debug)]
pub struct CosmoColor {
    pub red: u8,
    pub green: u8,
    pub blue: u8,
}

/// The sixteen hexadecimal digits, in lower case.
pub open spec fn hex_digits() -> Seq<char> {
    seq!['0', '1', '2', '3', '4', '5', '6', '7', '8', '9', 'a', 'b', 'c', 'd', 'e', 'f']
}

/// The value of a hexadecimal digit of either case; nothing for any other
/// character.
pub open spec fn hex_value(c: char) -> Option<int> {
    if '0' <= c <= '9' {
        Some(c as int - '0' as int)
    } else if 'a' <= c <= 'f' {
        Some(c as int - 'a' as int + 10)
    } else if 'A' <= c <= 'F' {
        Some(c as int - 'A' as int + 10)
    } else {
        None
    }
}

/// The two lower-case digits of a channel.
pub open spec fn spec_channel_hex(channel: u8) -> Seq<char> {
    seq![hex_digits()[channel as int / 16], hex_digits()[channel as int % 16]]
}

/// A colour as `#rrggbb`, in lower case.
pub open spec fn spec_rgb2hex(color: CosmoColor) -> Seq<char> {
    seq!['#'] + spec_channel_hex(color.red) + spec_channel_hex(color.green) + spec_channel_hex(
        color.blue,
    )
}

/// Whether text has the shape of a hexadecimal colour: any first character,
/// then three, four, six or eight hexadecimal digits, all of it ASCII.
pub open spec fn is_hex_color(text: Seq<char>) -> bool {
    &&& is_ascii_chars(text)
    &&& (text.len() == 4 || text.len() == 5 || text.len() == 7 || text.len() == 9)
    &&& forall|i: int| 1 <= i < text.len() ==> (#[trigger] hex_value(text[i])).is_some()
}

/// The channel that two digits stand for.
pub open spec fn spec_channel(high: char, low: char) -> u8 {
    (16 * hex_value(high).unwrap() + hex_value(low).unwrap()) as u8
}

/// The colour that hexadecimal text stands for. In the short forms every
/// digit counts twice; a fourth channel, the opacity, is read over.
pub open spec fn spec_parse_hex(text: Seq<char>) -> Option<CosmoColor> {
    if !is_hex_color(text) {
        None
    } else if text.len() == 4 || text.len() == 5 {
        Some(
            CosmoColor {
                red: spec_channel(text[1], text[1]),
                green: spec_channel(text[2], text[2]),
                blue: spec_channel(text[3], text[3]),
            },
        )
    } else {
        Some(
            CosmoColor {
                red: spec_channel(text[1], text[2]),
                green: spec_channel(text[3], text[4]),
                blue: spec_channel(text[5], text[6]),
            },
        )
    }
}

/// Calls `color_art::Color::from_hex` and keeps the red, green and blue
/// channels of the colour it gives. The contract claims what that function
/// does on ASCII text: it accepts text of 4, 5, 7 or 9 characters whose
/// characters after the first are hexadecimal digits, reads the channels
/// from them, and rejects everything else. Text outside ASCII is left out
/// because the function may slice such text inside a character.
#[verifier::external_body]
fn color_from_hex(text: &str) -> (color: Option<CosmoColor>)
    requires
        is_ascii_chars(text@),
    ensures
        color == spec_parse_hex(text@),
{
    match color_art::Color::from_hex(text) {
        Ok(color) => Some(CosmoColor { red: color.red(), green: color.green(), blue: color.blue() }),
        Err(_) => None,
    }
}

/// Reads a colour from what was typed into a colour field. Text that is no
/// hexadecimal colour gives nothing, and the field's owner is then not told.
pub fn parse_hex_color(text: &str) -> (color: Option<CosmoColor>)
    ensures
        color == spec_parse_hex(text@),
{
    if text.is_ascii() {
        color_from_hex(text)
    } else {
        None
    }
}

/// The lower-case digit of a value below sixteen.
fn hex_digit(value: u8) -> (digit: &'static str)
    requires
        value < 16,
    ensures
        digit@ == seq![hex_digits()[value as int]],
{
    proof {
        reveal_strlit("0");
        reveal_strlit("1");
        reveal_strlit("2");
        reveal_strlit("3");
        reveal_strlit("4");
        reveal_strlit("5");
        reveal_strlit("6");
        reveal_strlit("7");
        reveal_strlit("8");
        reveal_strlit("9");
        reveal_strlit("a");
        reveal_strlit("b");
        reveal_strlit("c");
        reveal_strlit("d");
        reveal_strlit("e");
        reveal_strlit("f");
    }
    let digit = match value {
        0 => "0",
        1 => "1",
        2 => "2",
        3 => "3",
        4 => "4",
        5 => "5",
        6 => "6",
        7 => "7",
        8 => "8",
        9 => "9",
        10 => "a",
        11 => "b",
        12 => "c",
        13 => "d",
        14 => "e",
        _ => "f",
    };
    proof {
        assert(digit@ =~= seq![hex_digits()[value as int]]);
    }
    digit
}

/// Writes a colour as `#rrggbb`, in lower case, each channel in two digits.
pub fn rgb2hex(color: CosmoColor) -> (text: String)
    ensures
        text@ == spec_rgb2hex(color),
{
    proof {
        reveal_strlit("#");
    }
    let mut text = String::from_str("#");
    text.append(hex_digit(color.red / 16));
    text.append(hex_digit(color.red % 16));
    text.append(hex_digit(color.green / 16));
    text.append(hex_digit(color.green % 16));
    text.append(hex_digit(color.blue / 16));
    text.append(hex_digit(color.blue % 16));
    proof {
        assert(text@ =~= spec_rgb2hex(color));
    }
    text
}

/// Whether both digits of a channel are the same, so that one can stand for
/// both.
pub open spec fn is_doubled(channel: u8) -> bool {
    channel as int / 16 == channel as int % 16
}

/// A colour in the shortest form that reads back as the same colour:
/// `#rgb` where every channel has two equal digits, `#rrggbb` otherwise.
pub open spec fn spec_short_hex(color: CosmoColor) -> Seq<char> {
    if is_doubled(color.red) && is_doubled(color.green) && is_doubled(color.blue) {
        seq![
            '#',
            hex_digits()[color.red as int % 16],
            hex_digits()[color.green as int % 16],
            hex_digits()[color.blue as int % 16],
        ]
    } else {
        spec_rgb2hex(color)
    }
}

/// Builds the colour with `color_art::Color::from_rgb` and writes it with
/// `Color::hex`. The contract claims what those two do for channels of one
/// byte: the first accepts every such colour as an opaque one, and the
/// second writes an opaque colour as `#rrggbb` in lower case, shortened to
/// `#rgb` where each channel's two digits are equal.
#[verifier::external_body]
fn color_hex(red: u8, green: u8, blue: u8) -> (text: Option<String>)
    ensures
        optional_view(text) == Some(spec_short_hex(CosmoColor { red, green, blue })),
{
    match color_art::Color::from_rgb(red, green, blue) {
        Ok(color) => Some(color.hex()),
        Err(_) => None,
    }
}

/// The text of a colour box for its value: the colour in its shortest
/// hexadecimal form.
pub fn colorbox(value: CosmoColor) -> (text: String)
    ensures
        text@ == spec_short_hex(value),
{
    match color_hex(value.red, value.green, value.blue) {
        Some(written) => written,
        None => rgb2hex(value),
    }
}

/// Every digit that is written is read back as its value.
pub proof fn lemma_hex_digit_value(value: int)
    requires
        0 <= value < 16,
    ensures
        hex_value(hex_digits()[value]) == Some(value),
        '\0' <= hex_digits()[value] <= '\u{7f}',
{
}

/// Reading back what was written for a colour gives that colour.
pub proof fn lemma_hex_round_trip(color: CosmoColor)
    ensures
        spec_parse_hex(spec_rgb2hex(color)) == Some(color),
{
    let text = spec_rgb2hex(color);
    let r = color.red as int;
    let g = color.green as int;
    let b = color.blue as int;
    assert(text.len() == 7);
    assert(text[0] == '#');
    assert(text[1] == hex_digits()[r / 16] && text[2] == hex_digits()[r % 16]);
    assert(text[3] == hex_digits()[g / 16] && text[4] == hex_digits()[g % 16]);
    assert(text[5] == hex_digits()[b / 16] && text[6] == hex_digits()[b % 16]);
    lemma_hex_digit_value(r / 16);
    lemma_hex_digit_value(r % 16);
    lemma_hex_digit_value(g / 16);
    lemma_hex_digit_value(g % 16);
    lemma_hex_digit_value(b / 16);
    lemma_hex_digit_value(b % 16);
    assert(is_hex_color(text)) by {
        assert forall|i: int| 1 <= i < text.len() implies (#[trigger] hex_value(
            text[i],
        )).is_some() by {
            if i == 1 {
            } else if i == 2 {
            } else if i == 3 {
            } else if i == 4 {
            } else if i == 5 {
            } else {
                assert(i == 6);
            }
        }
        assert forall|i: int| 0 <= i < text.len() implies '\0' <= #[trigger] text[i]
            <= '\u{7f}' by {
            if i == 0 {
            } else if i == 1 {
            } else if i == 2 {
            } else if i == 3 {
            } else if i == 4 {
            } else if i == 5 {
            } else {
                assert(i == 6);
            }
        }
    }
    assert(16 * (r / 16) + r % 16 == r);
    assert(16 * (g / 16) + g % 16 == g);
    assert(16 * (b / 16) + b % 16 == b);
}

/// What is written for a colour always has the shape that is read: a hash
/// sign and six digits.
pub proof fn lemma_rgb2hex_shape(color: CosmoColor)
    ensures
        spec_rgb2hex(color).len() == 7,
        spec_rgb2hex(color)[0] == '#',
        is_hex_color(spec_rgb2hex(color)),
{
    lemma_hex_round_trip(color);
}

/// Reading back the short form of a colour gives that colour too.
pub proof fn lemma_short_hex_round_trip(color: CosmoColor)
    ensures
        spec_parse_hex(spec_short_hex(color)) == Some(color),
{
    lemma_hex_round_trip(color);
    if is_doubled(color.red) && is_doubled(color.green) && is_doubled(color.blue) {
        let text = spec_short_hex(color);
        let r = color.red as int;
        let g = color.green as int;
        let b = color.blue as int;
        assert(text.len() == 4);
        assert(text[1] == hex_digits()[r % 16]);
        assert(text[2] == hex_digits()[g % 16]);
        assert(text[3] == hex_digits()[b % 16]);
        lemma_hex_digit_value(r % 16);
        lemma_hex_digit_value(g % 16);
        lemma_hex_digit_value(b % 16);
        assert(is_hex_color(text)) by {
            assert forall|i: int| 1 <= i < text.len() implies (#[trigger] hex_value(
                text[i],
            )).is_some() by {
                if i == 1 {
                } else if i == 2 {
                } else {
                    assert(i == 3);
                }
            }
            assert forall|i: int| 0 <= i < text.len() implies '\0' <= #[trigger] text[i]
                <= '\u{7f}' by {
                if i == 0 {
                } else if i == 1 {
                } else if i == 2 {
                } else {
                    assert(i == 3);
                }
            }
        }
        assert(17 * (r % 16) == r);
        assert(17 * (g % 16) == g);
        assert(17 * (b % 16) == b);
    }
}

} // verus!
