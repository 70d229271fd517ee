//! Building blocks for the text of the views: padding, radix rendering,
//! and the renderings that outside formatters provide.

use vstd::prelude::*;
use vstd::string::*;

verus! {

/// `count` copies of `c`.
pub open spec fn repeated(c: char, count: nat) -> Seq<char> {
    Seq::new(count, |i: int| c)
}

/// `text` followed by as many blanks as it takes to reach `width`
/// characters; unchanged when it is already that wide.
pub open spec fn left_aligned(text: Seq<char>, width: nat) -> Seq<char> {
    if text.len() >= width {
        text
    } else {
        text + repeated(' ', (width - text.len()) as nat)
    }
}

/// `text` preceded by as many blanks as it takes to reach `width`
/// characters; unchanged when it is already that wide.
pub open spec fn right_aligned(text: Seq<char>, width: nat) -> Seq<char> {
    if text.len() >= width {
        text
    } else {
        repeated(' ', (width - text.len()) as nat) + text
    }
}

/// The character of one digit, decimal or hexadecimal.
pub open spec fn digit_char(d: nat) -> char {
    if d == 0 {
        '0'
    } else if d == 1 {
        '1'
    } else if d == 2 {
        '2'
    } else if d == 3 {
        '3'
    } else if d == 4 {
        '4'
    } else if d == 5 {
        '5'
    } else if d == 6 {
        '6'
    } else if d == 7 {
        '7'
    } else if d == 8 {
        '8'
    } else if d == 9 {
        '9'
    } else if d == 10 {
        'a'
    } else if d == 11 {
        'b'
    } else if d == 12 {
        'c'
    } else if d == 13 {
        'd'
    } else if d == 14 {
        'e'
    } else {
        'f'
    }
}

/// The decimal digits of `n`, most significant first, without leading
/// zeros; a single `0` for zero.
pub open spec fn decimal_text(n: nat) -> Seq<char>
    decreases n,
{
    if n < 10 {
        seq![digit_char(n)]
    } else {
        decimal_text(n / 10).push(digit_char(n % 10))
    }
}

/// The binary digits of `n`, most significant first, without leading
/// zeros; a single `0` for zero.
pub open spec fn binary_text(n: nat) -> Seq<char>
    decreases n,
{
    if n < 2 {
        seq![digit_char(n)]
    } else {
        binary_text(n / 2).push(digit_char(n % 2))
    }
}

/// `n` in decimal, with a leading zero when it has a single digit.
pub open spec fn two_digit_text(n: nat) -> Seq<char> {
    if n < 10 {
        seq!['0'] + decimal_text(n)
    } else {
        decimal_text(n)
    }
}

/// `hours:minutes:seconds` of a whole number of seconds, each part with at
/// least two digits.
pub open spec fn duration_text(seconds: nat) -> Seq<char> {
    two_digit_text(seconds / 3600) + seq![':'] + two_digit_text((seconds / 60) % 60) + seq![':']
        + two_digit_text(seconds % 60)
}

/// The parts with `separator` between each two neighbours.
pub open spec fn joined(parts: Seq<Seq<char>>, separator: Seq<char>) -> Seq<char>
    decreases parts.len(),
{
    if parts.len() == 0 {
        Seq::empty()
    } else if parts.len() == 1 {
        parts[0]
    } else {
        joined(parts.drop_last(), separator) + separator + parts.last()
    }
}

/// What is shown in place of a value that the platform does not report.
pub open spec fn unknown_text() -> Seq<char> {
    "unknown"@
}

/// The text of a byte count in decimal (SI) units.
pub uninterp spec fn human_size_text(bytes: u64) -> Seq<char>;

fn digit_str(d: u64) -> (s: &'static str)
    requires
        d < 16,
    ensures
        s@ == seq![digit_char(d as nat)],
{
    proof {
        reveal_strlit("0");
        reveal_strlit("1");
        reveal_strlit("2");
        reveal_strlit("3");
        reveal_strlit("4");
        reveal_strlit("5");
        reveal_strlit("6");
        reveal_strlit("7");
        reveal_strlit("8");
        reveal_strlit("9");
        reveal_strlit("a");
        reveal_strlit("b");
        reveal_strlit("c");
        reveal_strlit("d");
        reveal_strlit("e");
        reveal_strlit("f");
    }
    let s: &'static str = match d {
        0 => "0",
        1 => "1",
        2 => "2",
        3 => "3",
        4 => "4",
        5 => "5",
        6 => "6",
        7 => "7",
        8 => "8",
        9 => "9",
        10 => "a",
        11 => "b",
        12 => "c",
        13 => "d",
        14 => "e",
        _ => "f",
    };
    assert(s@ =~= seq![digit_char(d as nat)]);
    s
}

/// Renders `n` in decimal.
pub fn decimal(n: u64) -> (s: String)
    ensures
        s@ == decimal_text(n as nat),
    decreases n,
{
    if n < 10 {
        String::from_str(digit_str(n))
    } else {
        let mut s = decimal(n / 10);
        s.append(digit_str(n % 10));
        s
    }
}

/// Renders `n` in binary.
pub fn binary(n: u32) -> (s: String)
    ensures
        s@ == binary_text(n as nat),
    decreases n,
{
    if n < 2 {
        String::from_str(digit_str(n as u64))
    } else {
        let mut s = binary(n / 2);
        s.append(digit_str((n % 2) as u64));
        s
    }
}

/// Renders `n` in decimal with at least two digits.
pub fn two_digits(n: u64) -> (s: String)
    ensures
        s@ == two_digit_text(n as nat),
{
    if n < 10 {
        let mut s = String::from_str("0");
        proof {
            reveal_strlit("0");
        }
        let digits = decimal(n);
        s.append(digits.as_str());
        s
    } else {
        decimal(n)
    }
}

/// `count` copies of the one character of `c`, as a string.
pub(crate) fn repeat(c: &str, count: usize) -> (s: String)
    requires
        c@.len() == 1,
    ensures
        s@ == repeated(c@[0], count as nat),
{
    let mut s = String::new();
    let mut i: usize = 0;
    while i < count
        invariant
            i <= count,
            c@.len() == 1,
            s@ == repeated(c@[0], i as nat),
        decreases count - i,
    {
        s.append(c);
        i += 1;
        assert(s@ =~= repeated(c@[0], i as nat));
    }
    s
}

/// Pads `text` with blanks on the right up to `width` characters.
pub fn pad_right(text: &str, width: usize) -> (s: String)
    ensures
        s@ == left_aligned(text@, width as nat),
{
    let len = text.unicode_len();
    let mut s = String::from_str(text);
    if len < width {
        proof {
            reveal_strlit(" ");
        }
        let blanks = repeat(" ", width - len);
        s.append(blanks.as_str());
    }
    s
}

/// Pads `text` with blanks on the left up to `width` characters.
pub fn pad_left(text: &str, width: usize) -> (s: String)
    ensures
        s@ == right_aligned(text@, width as nat),
{
    let len = text.unicode_len();
    if len < width {
        proof {
            reveal_strlit(" ");
        }
        let mut s = repeat(" ", width - len);
        s.append(text);
        s
    } else {
        String::from_str(text)
    }
}

/// Formats a whole number of seconds as `hours:minutes:seconds`.
pub fn format_duration(seconds: u64) -> (s: String)
    ensures
        s@ == duration_text(seconds as nat),
{
    proof {
        reveal_strlit(":");
    }
    let mut s = two_digits(seconds / 3600);
    s.append(":");
    let minutes = two_digits((seconds / 60) % 60);
    s.append(minutes.as_str());
    s.append(":");
    let rest = two_digits(seconds % 60);
    s.append(rest.as_str());
    s
}

/// The text of `opt`, or `unknown` when there is none.
pub fn to_string_or_unknown<T: core::fmt::Display>(opt: Option<T>) -> (s: String)
    ensures
        match opt {
            Some(t) => to_string_from_display_ensures::<T>(&t, s),
            None => s@ == unknown_text(),
        },
{
    match opt {
        Some(t) => t.to_string(),
        None => String::from_str("unknown"),
    }
}

/// What `formatter` makes of `opt`, or `unknown` when there is none.
pub fn format_or_unknown<T, F: Fn(T) -> String>(opt: Option<T>, formatter: &F) -> (s: String)
    requires
        opt matches Some(t) ==> formatter.requires((t,)),
    ensures
        match opt {
            Some(t) => formatter.ensures((t,), s),
            None => s@ == unknown_text(),
        },
{
    match opt {
        Some(t) => formatter(t),
        None => String::from_str("unknown"),
    }
}

/// The text itself, or `unknown` when there is none.
pub fn text_or_unknown(opt: &Option<String>) -> (s: String)
    ensures
        s@ == (match *opt {
            Some(t) => t@,
            None => unknown_text(),
        }),
{
    match opt {
        Some(t) => t.clone(),
        None => String::from_str("unknown"),
    }
}

/// The number in decimal, or `unknown` when there is none.
pub fn decimal_or_unknown(opt: Option<u64>) -> (s: String)
    ensures
        s@ == (match opt {
            Some(n) => decimal_text(n as nat),
            None => unknown_text(),
        }),
{
    match opt {
        Some(n) => decimal(n),
        None => String::from_str("unknown"),
    }
}

/// Asks humansize for the decimal (SI) rendering of a byte count.
/// The crate scales the count down by thousands and prints it with its
/// unit; the contract only gives that text a name.
#[verifier::external_body]
pub(crate) fn format_size_decimal(bytes: u64) -> (s: String)
    ensures
        s@ == human_size_text(bytes),
{
    humansize::format_size(bytes, humansize::DECIMAL)
}

/// Renders a byte count in decimal (SI) units.
pub fn human_size(bytes: u64) -> (s: String)
    ensures
        s@ == human_size_text(bytes),
{
    format_size_decimal(bytes)
}

/// The byte count in SI units, or `unknown` when there is none.
pub fn human_size_or_unknown(opt: Option<u64>) -> (s: String)
    ensures
        s@ == (match opt {
            Some(n) => human_size_text(n),
            None => unknown_text(),
        }),
{
    match opt {
        Some(n) => human_size(n),
        None => String::from_str("unknown"),
    }
}

/// The views of the strings of a list.
pub open spec fn texts(strings: Seq<String>) -> Seq<Seq<char>> {
    strings.map_values(|s: String| s@)
}

/// Number of bytes that `text` takes in UTF-8: what the width of a column
/// is measured in.
pub open spec fn byte_len(text: Seq<char>) -> usize {
    vstd::utf8::encode_utf8(text).len() as usize
}

/// The greatest byte length among `columns`, and at least `floor`.
pub open spec fn widest(columns: Seq<Seq<char>>, floor: usize) -> usize
    decreases columns.len(),
{
    if columns.len() == 0 {
        floor
    } else {
        let rest = widest(columns.drop_last(), floor);
        if byte_len(columns.last()) > rest {
            byte_len(columns.last())
        } else {
            rest
        }
    }
}

/// `label` followed by `value`.
pub fn labelled(label: &str, value: &str) -> (s: String)
    ensures
        s@ == label@ + value@,
{
    let mut s = String::from_str(label);
    s.append(value);
    s
}

/// The width of a column: the greatest byte length among its cells and
/// its header.
pub fn column_width(cells: &Vec<String>, header: &str) -> (width: usize)
    ensures
        width == widest(texts(cells@), byte_len(header@)),
{
    let mut width = header.len();
    let mut i: usize = 0;
    proof {
        assert(texts(cells@.take(0)) =~= Seq::<Seq<char>>::empty());
    }
    while i < cells.len()
        invariant
            i <= cells@.len(),
            width == widest(texts(cells@.take(i as int)), byte_len(header@)),
        decreases cells@.len() - i,
    {
        let len = cells[i].as_str().len();
        proof {
            let upto = cells@.take(i + 1);
            assert(upto.drop_last() =~= cells@.take(i as int));
            assert(texts(upto).drop_last() =~= texts(cells@.take(i as int)));
            assert(texts(upto).last() == cells@[i as int]@);
        }
        if len > width {
            width = len;
        }
        i += 1;
    }
    proof {
        assert(cells@.take(cells@.len() as int) =~= cells@);
    }
    width
}

} // verus!
