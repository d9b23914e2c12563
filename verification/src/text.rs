//! The text of one line of the listing: the id in decimal, a colon, a space
//! and the note, which is struck through where the item is done.

use vstd::prelude::*;
use vstd::string::*;
use colored::Colorize;
use crate::item::{Item, ItemView};

verus! {

/// The character of one decimal digit.
pub open spec fn digit_char(d: nat) -> char {
    if d == 0 {
        '0'
    } else if d == 1 {
        '1'
    } else if d == 2 {
        '2'
    } else if d == 3 {
        '3'
    } else if d == 4 {
        '4'
    } else if d == 5 {
        '5'
    } else if d == 6 {
        '6'
    } else if d == 7 {
        '7'
    } else if d == 8 {
        '8'
    } else {
        '9'
    }
}

/// The decimal digits of `n`, the most significant first, without leading
/// zeros.
pub open spec fn digits(n: nat) -> Seq<char>
    decreases n,
{
    if n < 10 {
        seq![digit_char(n)]
    } else {
        digits(n / 10).push(digit_char(n % 10))
    }
}

/// `n` in decimal, with a minus sign where it is negative.
pub open spec fn decimal(n: int) -> Seq<char> {
    if n < 0 {
        seq!['-'] + digits((-n) as nat)
    } else {
        digits(n as nat)
    }
}

/// The line that shows the id with `shown` as the note's text.
pub open spec fn line_text(id: int, shown: Seq<char>) -> Seq<char> {
    decimal(id) + seq![':', ' '] + shown
}

/// The escape sequence that switches strikethrough on.
pub open spec fn strike_on() -> Seq<char> {
    seq!['\x1b', '[', '9', 'm']
}

/// The escape sequence that switches every style off.
pub open spec fn style_off() -> Seq<char> {
    seq!['\x1b', '[', '0', 'm']
}

/// `part` occurs somewhere in `text`.
pub open spec fn holds(text: Seq<char>, part: Seq<char>) -> bool {
    exists|i: int|
        0 <= i && i + part.len() <= text.len() && #[trigger] text.subrange(i, i + part.len())
            == part
}

/// `shown` is a way in which a struck note may come out. Where styling is
/// switched off for the process, it is the note itself. Where it is on, the
/// note stands between the two escape sequences; a note that itself holds
/// the sequence that ends a style has the strikethrough resumed after each,
/// which makes the text longer.
pub open spec fn may_show_struck(note: Seq<char>, shown: Seq<char>) -> bool {
    ||| shown == note
    ||| {
        &&& shown.len() >= strike_on().len() + note.len() + style_off().len()
        &&& shown.subrange(0, strike_on().len() as int) == strike_on()
        &&& shown.subrange(shown.len() - style_off().len(), shown.len() as int) == style_off()
        &&& !holds(note, style_off()) ==> shown == strike_on() + note + style_off()
    }
}

/// `line` is a line that shows `item`: its id, and its note as it is, or
/// struck through where the item is done.
pub open spec fn shows(item: ItemView, line: Seq<char>) -> bool {
    exists|shown: Seq<char>|
        line == #[trigger] line_text(item.id, shown) && if item.is_done {
            may_show_struck(item.note, shown)
        } else {
            shown == item.note
        }
}

/// `Colorize::strikethrough` of the crate `colored`, rendered with
/// `to_string`.
///
/// Whether the styling is applied depends on the process: on `NO_COLOR`,
/// `CLICOLOR` and `CLICOLOR_FORCE` in its environment, on whether its
/// standard output is a terminal, and on `colored::control::set_override`.
/// The contract claims only what holds either way.
#[verifier::external_body]
pub(crate) fn struck(note: &str) -> (shown: String)
    ensures
        may_show_struck(note@, shown@),
{
    note.strikethrough().to_string()
}

/// The text of one decimal digit.
fn digit_text(d: u32) -> (s: &'static str)
    requires
        d < 10,
    ensures
        s@ == seq![digit_char(d as nat)],
{
    proof {
        reveal_strlit("0");
        reveal_strlit("1");
        reveal_strlit("2");
        reveal_strlit("3");
        reveal_strlit("4");
        reveal_strlit("5");
        reveal_strlit("6");
        reveal_strlit("7");
        reveal_strlit("8");
        reveal_strlit("9");
    }
    let s = if d == 0 {
        "0"
    } else if d == 1 {
        "1"
    } else if d == 2 {
        "2"
    } else if d == 3 {
        "3"
    } else if d == 4 {
        "4"
    } else if d == 5 {
        "5"
    } else if d == 6 {
        "6"
    } else if d == 7 {
        "7"
    } else if d == 8 {
        "8"
    } else {
        "9"
    };
    assert(s@ =~= seq![digit_char(d as nat)]);
    s
}

/// Appends the decimal digits of `n` to `out`.
fn push_digits(out: &mut String, n: u32)
    ensures
        final(out)@ == old(out)@ + digits(n as nat),
    decreases n,
{
    if n >= 10 {
        push_digits(out, n / 10);
    }
    out.append(digit_text(n % 10));
}

/// Writes `n` in decimal.
pub fn decimal_text(n: i32) -> (s: String)
    ensures
        s@ == decimal(n as int),
{
    let mut s = String::new();
    if n < 0 {
        proof {
            reveal_strlit("-");
        }
        s.append("-");
        let wide: i64 = n as i64;
        let magnitude: u32 = (0 - wide) as u32;
        push_digits(&mut s, magnitude);
        assert(s@ =~= decimal(n as int));
    } else {
        push_digits(&mut s, n as u32);
        assert(s@ =~= decimal(n as int));
    }
    s
}

/// Writes the line for an id and the text that stands for the note.
pub fn line_of(id: i32, shown: &str) -> (line: String)
    ensures
        line@ == line_text(id as int, shown@),
{
    let mut line = decimal_text(id);
    proof {
        reveal_strlit(": ");
    }
    line.append(": ");
    line.append(shown);
    assert(line@ =~= line_text(id as int, shown@));
    line
}

/// Writes the line that shows `item`. The note of an item that is done goes
/// through the terminal styling, which decides by the environment whether it
/// adds its escape sequences.
pub fn render(item: &Item) -> (line: String)
    ensures
        shows(item@, line@),
{
    if item.is_done {
        let shown = struck(item.note.as_str());
        let line = line_of(item.id, shown.as_str());
        assert(line@ == line_text(item@.id, shown@));
        line
    } else {
        let line = line_of(item.id, item.note.as_str());
        assert(line@ == line_text(item@.id, item@.note));
        line
    }
}

} // verus!
