//! Text building blocks: decimal numbers and line lists.

use vstd::prelude::*;
use vstd::string::*;

verus! {

/// The character that stands for the decimal digit `d`.
pub open spec fn digit_char(d: nat) -> char
    recommends
        d < 10,
{
    if d == 0 {
        '0'
    } else if d == 1 {
        '1'
    } else if d == 2 {
        '2'
    } else if d == 3 {
        '3'
    } else if d == 4 {
        '4'
    } else if d == 5 {
        '5'
    } else if d == 6 {
        '6'
    } else if d == 7 {
        '7'
    } else if d == 8 {
        '8'
    } else {
        '9'
    }
}

/// The decimal notation of `n`: most significant digit first, no leading zero
/// but for zero itself.
pub open spec fn decimal_text(n: nat) -> Seq<char>
    decreases n,
{
    if n < 10 {
        seq![digit_char(n)]
    } else {
        decimal_text(n / 10).push(digit_char(n % 10))
    }
}

/// The decimal digit that the character `c` stands for, if it stands for one.
pub open spec fn digit_value(c: char) -> Option<nat> {
    if c == '0' {
        Some(0)
    } else if c == '1' {
        Some(1)
    } else if c == '2' {
        Some(2)
    } else if c == '3' {
        Some(3)
    } else if c == '4' {
        Some(4)
    } else if c == '5' {
        Some(5)
    } else if c == '6' {
        Some(6)
    } else if c == '7' {
        Some(7)
    } else if c == '8' {
        Some(8)
    } else if c == '9' {
        Some(9)
    } else {
        None
    }
}

/// The number that `text` is the decimal notation of: one digit or more and
/// nothing else; zeros may lead.
pub open spec fn parsed_decimal(text: Seq<char>) -> Option<nat>
    decreases text.len(),
{
    if text.len() == 0 {
        None
    } else {
        match digit_value(text.last()) {
            None => None,
            Some(digit) => if text.len() == 1 {
                Some(digit)
            } else {
                match parsed_decimal(text.drop_last()) {
                    Some(front) => Some(front * 10 + digit),
                    None => None,
                }
            },
        }
    }
}

/// The view of an optional string.
pub open spec fn text_view(text: Option<String>) -> Option<Seq<char>> {
    match text {
        Some(t) => Some(t@),
        None => None,
    }
}

/// The lines of `lines`, separated by line feeds, with none at the end.
pub open spec fn joined_lines(lines: Seq<Seq<char>>) -> Seq<char>
    decreases lines.len(),
{
    if lines.len() == 0 {
        Seq::empty()
    } else if lines.len() == 1 {
        lines[0]
    } else {
        joined_lines(lines.drop_last()) + seq!['\n'] + lines.last()
    }
}

/// The views of the strings of `lines`, in order.
pub open spec fn line_views(lines: Seq<String>) -> Seq<Seq<char>> {
    lines.map_values(|line: String| line@)
}

fn digit_text(d: u64) -> (text: &'static str)
    requires
        d < 10,
    ensures
        text@ == seq![digit_char(d as nat)],
{
    proof {
        reveal_strlit("0");
        reveal_strlit("1");
        reveal_strlit("2");
        reveal_strlit("3");
        reveal_strlit("4");
        reveal_strlit("5");
        reveal_strlit("6");
        reveal_strlit("7");
        reveal_strlit("8");
        reveal_strlit("9");
    }
    let text = if d == 0 {
        "0"
    } else if d == 1 {
        "1"
    } else if d == 2 {
        "2"
    } else if d == 3 {
        "3"
    } else if d == 4 {
        "4"
    } else if d == 5 {
        "5"
    } else if d == 6 {
        "6"
    } else if d == 7 {
        "7"
    } else if d == 8 {
        "8"
    } else {
        "9"
    };
    assert(text@ =~= seq![digit_char(d as nat)]);
    text
}

/// Writes `n` in decimal notation.
pub fn decimal(n: u64) -> (text: String)
    ensures
        text@ == decimal_text(n as nat),
    decreases n,
{
    if n < 10 {
        String::from_str(digit_text(n))
    } else {
        let mut text = decimal(n / 10);
        text.append(digit_text(n % 10));
        assert(text@ =~= decimal_text((n / 10) as nat).push(digit_char((n % 10) as nat)));
        text
    }
}

/// A text that has a beginning without a number has none, and the number of a
/// text is at least that of each of its beginnings.
proof fn beginning_bounds_number(text: Seq<char>, i: int)
    requires
        0 < i <= text.len(),
    ensures
        parsed_decimal(text.take(i)) is None ==> parsed_decimal(text) is None,
        parsed_decimal(text) matches Some(n) ==> parsed_decimal(text.take(i)) matches Some(m)
            && m <= n,
    decreases text.len() - i,
{
    if i < text.len() {
        assert(text.drop_last().take(i) =~= text.take(i));
        beginning_bounds_number(text.drop_last(), i);
    } else {
        assert(text.take(i) =~= text);
    }
}

fn digit_of(c: char) -> (digit: Option<u64>)
    ensures
        digit is Some <==> digit_value(c) is Some,
        digit matches Some(d) ==> digit_value(c) == Some(d as nat) && d < 10,
{
    if c == '0' {
        Some(0)
    } else if c == '1' {
        Some(1)
    } else if c == '2' {
        Some(2)
    } else if c == '3' {
        Some(3)
    } else if c == '4' {
        Some(4)
    } else if c == '5' {
        Some(5)
    } else if c == '6' {
        Some(6)
    } else if c == '7' {
        Some(7)
    } else if c == '8' {
        Some(8)
    } else if c == '9' {
        Some(9)
    } else {
        None
    }
}

/// Reads a number in decimal notation: `None` unless `text` is made of digits,
/// at least one, and the number fits.
pub fn parse_decimal(text: &str) -> (number: Option<u64>)
    ensures
        number is Some <==> (parsed_decimal(text@) matches Some(n) && n <= u64::MAX),
        number matches Some(n) ==> parsed_decimal(text@) == Some(n as nat),
{
    let len = text.unicode_len();
    if len == 0 {
        return None;
    }
    let mut value: u64 = 0;
    let mut i: usize = 0;
    while i < len
        invariant
            i <= len == text@.len(),
            i > 0 ==> parsed_decimal(text@.take(i as int)) == Some(value as nat),
            i == 0 ==> value == 0,
        decreases len - i,
    {
        let ghost longer = text@.take(i + 1);
        proof {
            assert(longer.last() == text@[i as int]);
            assert(longer.drop_last() =~= text@.take(i as int));
            beginning_bounds_number(text@, i + 1);
        }
        let digit = match digit_of(text.get_char(i)) {
            Some(digit) => digit,
            None => { return None; },
        };
        if value > (u64::MAX - digit) / 10 {
            proof {
                assert(value * 10 + digit > u64::MAX);
                if i == 0 {
                    assert(false);
                }
            }
            return None;
        }
        value = value * 10 + digit;
        i = i + 1;
    }
    assert(text@.take(len as int) =~= text@);
    Some(value)
}

/// Joins `lines` with line feeds between them.
pub fn join_lines(lines: &Vec<String>) -> (text: String)
    ensures
        text@ == joined_lines(line_views(lines@)),
{
    let mut text = String::new();
    let mut i: usize = 0;
    while i < lines.len()
        invariant
            i <= lines.len(),
            text@ == joined_lines(line_views(lines@).take(i as int)),
        decreases lines.len() - i,
    {
        let ghost views = line_views(lines@);
        proof {
            assert(views.take(i + 1).drop_last() =~= views.take(i as int));
            assert(views.take(i + 1).last() == lines@[i as int]@);
        }
        if i > 0 {
            text.append("\n");
            proof {
                reveal_strlit("\n");
                assert("\n"@ =~= seq!['\n']);
            }
        } else {
            assert(views.take(0).len() == 0);
            assert(text@ =~= Seq::<char>::empty());
        }
        text.append(lines[i].as_str());
        i = i + 1;
    }
    assert(line_views(lines@).take(lines.len() as int) =~= line_views(lines@));
    text
}

} // verus!
