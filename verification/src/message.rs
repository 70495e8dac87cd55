//! The text sent to a client for one update.
//!
//! An update is written as the two pedal values, gas first, each rounded to
//! two decimal places, with one space between them.

use vstd::prelude::*;

verus! {

/// A pedal byte in hundredths of the full scale, rounded to the nearest:
/// the integer closest to `100 * value / 255`.
pub open spec fn hundredths(value: u8) -> int {
    (200 * value + 255) / 510
}

/// The character of one decimal digit.
pub open spec fn digit(d: int) -> char {
    seq!['0', '1', '2', '3', '4', '5', '6', '7', '8', '9'][d]
}

/// A number of hundredths between 0 and 100 in fixed notation, such as
/// `0.39` or `1.00`.
pub open spec fn fixed_text(h: int) -> Seq<char> {
    seq![digit(h / 100), '.', digit((h / 10) % 10), digit(h % 10)]
}

/// The normalised value of a pedal byte with two decimal places.
pub open spec fn pedal_text(value: u8) -> Seq<char> {
    fixed_text(hundredths(value))
}

/// The message for one update: gas, a space, brake.
pub open spec fn update_text(gas: u8, brake: u8) -> Seq<char> {
    pedal_text(gas) + seq![' '] + pedal_text(brake)
}

/// `String::push` of the standard library: appends one character to the end
/// of the string and leaves what was there before in place.
#[verifier::external_body]
fn push_char(text: &mut String, c: char)
    ensures
        final(text)@ == old(text)@.push(c),
{
    text.push(c);
}

/// Rounds a pedal byte to hundredths of the full scale. No byte lies
/// halfway between two hundredths, so the nearest one is unique.
pub fn pedal_hundredths(value: u8) -> (h: u8)
    ensures
        h == hundredths(value),
        h <= 100,
        -255 < 200 * value - 510 * h < 255,
{
    let scaled: u32 = 200 * (value as u32) + 255;
    let h: u32 = scaled / 510;
    assert(200 * value != 510 * h + 255) by {
        assert((200 * value) % 2 == 0);
        assert((510 * h + 255) % 2 == 1);
    }
    h as u8
}

fn digit_char(d: u8) -> (c: char)
    requires
        d < 10,
    ensures
        c == digit(d as int),
{
    match d {
        0 => '0',
        1 => '1',
        2 => '2',
        3 => '3',
        4 => '4',
        5 => '5',
        6 => '6',
        7 => '7',
        8 => '8',
        _ => '9',
    }
}

fn push_pedal(text: &mut String, value: u8)
    ensures
        final(text)@ == old(text)@ + pedal_text(value),
{
    let h: u8 = pedal_hundredths(value);
    push_char(text, digit_char(h / 100));
    push_char(text, '.');
    push_char(text, digit_char((h / 10) % 10));
    push_char(text, digit_char(h % 10));
    assert(text@ =~= old(text)@ + pedal_text(value));
}

/// Renders the message for one update from the two pedal bytes.
pub fn format_update(gas: u8, brake: u8) -> (text: String)
    ensures
        text@ == update_text(gas, brake),
        text@.len() == 9,
{
    let mut text = String::new();
    push_pedal(&mut text, gas);
    push_char(&mut text, ' ');
    push_pedal(&mut text, brake);
    assert(text@ =~= update_text(gas, brake));
    text
}

/// Both numbers of a message lie between `0.00` and `1.00`, and a pedal that
/// is pressed further never reads lower.
pub proof fn lemma_hundredths_range_and_order(lower: u8, higher: u8)
    requires
        lower <= higher,
    ensures
        0 <= hundredths(lower) <= hundredths(higher) <= 100,
        hundredths(0) == 0,
        hundredths(255) == 100,
{
}

} // verus!
