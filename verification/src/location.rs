//! Where in a source file an operator comes from.
//!
//! A location is written as `file`, `file:line` or `file:line:column`. The
//! text is cut at every colon; one, two or three pieces give a location, and
//! any other number of pieces gives the unknown location.
use vstd::prelude::*;
use crate::select::{lemma_marked, lemma_marked_none, lemma_marked_push, marked};

verus! {

/// A place in a source file, as far as it is known.
#[derive(Debug)]
pub enum Location {
    Unknown,
    File(String),
    Line(String, usize),
    LineColumn(String, usize, usize),
}

pub enum LocationView {
    Unknown,
    File(Seq<char>),
    Line(Seq<char>, usize),
    LineColumn(Seq<char>, usize, usize),
}

impl View for Location {
    type V = LocationView;

    open spec fn view(&self) -> LocationView {
        match self {
            Location::Unknown => LocationView::Unknown,
            Location::File(file) => LocationView::File(file@),
            Location::Line(file, line) => LocationView::Line(file@, *line),
            Location::LineColumn(file, line, column) => LocationView::LineColumn(
                file@,
                *line,
                *column,
            ),
        }
    }
}

impl Clone for Location {
    fn clone(&self) -> (location: Location)
        ensures
            location@ == self@,
    {
        match self {
            Location::Unknown => Location::Unknown,
            Location::File(file) => Location::File(file.clone()),
            Location::Line(file, line) => Location::Line(file.clone(), *line),
            Location::LineColumn(file, line, column) => Location::LineColumn(
                file.clone(),
                *line,
                *column,
            ),
        }
    }
}

/// Which characters of a text are colons.
pub open spec fn colon_marks(text: Seq<char>) -> Seq<bool> {
    text.map_values(|c: char| c == ':')
}

/// The positions of the colons of a text, in increasing order.
pub open spec fn colons(text: Seq<char>) -> Seq<int> {
    marked(colon_marks(text))
}

/// The pieces that the colons cut a text into: one more than there are
/// colons. Piece `k` runs from behind colon `k - 1`, or from the start, up to
/// colon `k`, or to the end. A piece may be empty.
pub open spec fn pieces(text: Seq<char>) -> Seq<Seq<char>> {
    let cuts = colons(text);
    Seq::new(
        cuts.len() + 1,
        |k: int|
            text.subrange(
                if k == 0 {
                    0
                } else {
                    cuts[k - 1] + 1
                },
                if k == cuts.len() {
                    text.len() as int
                } else {
                    cuts[k]
                },
            ),
    )
}

/// A decimal digit.
pub open spec fn is_digit(c: char) -> bool {
    '0' <= c <= '9'
}

/// The number that a sequence of decimal digits writes.
pub open spec fn digits_value(digits: Seq<char>) -> nat
    decreases digits.len(),
{
    if digits.len() == 0 {
        0
    } else {
        10 * digits_value(digits.drop_last()) + (digits.last() as nat - '0' as nat) as nat
    }
}

/// A text without the plus sign that may stand in front of a number.
pub open spec fn unsigned(text: Seq<char>) -> Seq<char> {
    if text.len() > 0 && text[0] == '+' {
        text.skip(1)
    } else {
        text
    }
}

/// The number that a text writes: an optional plus sign, then one or more
/// decimal digits and nothing else, with a value that fits in `usize`.
pub open spec fn number(text: Seq<char>) -> Option<usize> {
    let digits = unsigned(text);
    if digits.len() > 0 && (forall|i: int| 0 <= i < digits.len() ==> is_digit(#[trigger] digits[i]))
        && digits_value(digits) <= usize::MAX {
        Some(digits_value(digits) as usize)
    } else {
        None
    }
}

/// The location that a text writes, if it writes one. A text of two or three
/// pieces writes none when a piece behind the file name is not a number.
pub open spec fn parse(text: Seq<char>) -> Option<LocationView> {
    let parts = pieces(text);
    if parts.len() == 1 {
        Some(LocationView::File(parts[0]))
    } else if parts.len() == 2 {
        match number(parts[1]) {
            Some(line) => Some(LocationView::Line(parts[0], line)),
            None => None,
        }
    } else if parts.len() == 3 {
        match (number(parts[1]), number(parts[2])) {
            (Some(line), Some(column)) => Some(LocationView::LineColumn(parts[0], line, column)),
            _ => None,
        }
    } else {
        Some(LocationView::Unknown)
    }
}

/// A text without a colon names a file and nothing more, whatever it holds.
pub proof fn lemma_parse_file(text: Seq<char>)
    requires
        !text.contains(':'),
    ensures
        parse(text) == Some(LocationView::File(text)),
{
    assert forall|i: int| 0 <= i < colon_marks(text).len() implies !colon_marks(text)[i] by {
        if text[i] == ':' {
            assert(text.contains(':'));
        }
    }
    lemma_marked_none(colon_marks(text));
    assert(pieces(text)[0] =~= text);
}

/// A text with more than two colons gives the unknown location, whatever
/// stands between them.
pub proof fn lemma_parse_unknown(text: Seq<char>)
    requires
        colons(text).len() > 2,
    ensures
        parse(text) == Some(LocationView::Unknown),
{
}

/// A longer run of digits writes no smaller number.
proof fn lemma_digits_value_grows(digits: Seq<char>, shorter: int)
    requires
        0 <= shorter <= digits.len(),
    ensures
        digits_value(digits.take(shorter)) <= digits_value(digits),
    decreases digits.len(),
{
    if shorter == digits.len() {
        assert(digits.take(shorter) =~= digits);
    } else {
        lemma_digits_value_grows(digits.drop_last(), shorter);
        assert(digits.drop_last().take(shorter) =~= digits.take(shorter));
    }
}

/// Reads a number as [`number`] defines it.
pub fn parse_number(text: &str) -> (value: Option<usize>)
    ensures
        value == number(text@),
{
    let len: usize = text.unicode_len();
    let start: usize = if len > 0 && text.get_char(0) == '+' {
        1
    } else {
        0
    };
    if start == len {
        return None;
    }
    let ghost digits: Seq<char> = unsigned(text@);
    assert(digits =~= text@.subrange(start as int, len as int));
    let mut value: usize = 0;
    let mut i: usize = start;
    while i < len
        invariant
            start <= i <= len,
            len == text@.len(),
            digits == unsigned(text@),
            digits == text@.subrange(start as int, len as int),
            forall|j: int| 0 <= j < i - start ==> is_digit(#[trigger] digits[j]),
            value == digits_value(digits.take(i - start)),
        decreases len - i,
    {
        let c: char = text.get_char(i);
        assert(digits[i - start] == c);
        if !('0' <= c && c <= '9') {
            assert(!is_digit(digits[i - start]));
            return None;
        }
        let digit: usize = (c as u32 - '0' as u32) as usize;
        proof {
            let longer = digits.take(i - start + 1);
            assert(longer.drop_last() =~= digits.take(i - start));
            assert(longer.last() == c);
            assert(digits_value(longer) == 10 * value + digit);
            lemma_digits_value_grows(digits, i - start + 1);
        }
        let scaled: Option<usize> = value.checked_mul(10);
        match scaled {
            None => {
                return None;
            },
            Some(scaled) => {
                match scaled.checked_add(digit) {
                    None => {
                        return None;
                    },
                    Some(next) => {
                        value = next;
                    },
                }
            },
        }
        i = i + 1;
    }
    assert(digits.take(len - start) =~= digits);
    Some(value)
}

/// The positions of the colons of a text.
fn colon_positions(text: &str) -> (cuts: Vec<usize>)
    ensures
        cuts@.len() == colons(text@).len(),
        forall|k: int| 0 <= k < cuts@.len() ==> #[trigger] cuts@[k] == colons(text@)[k],
{
    let len: usize = text.unicode_len();
    let mut cuts: Vec<usize> = Vec::new();
    let mut i: usize = 0;
    while i < len
        invariant
            i <= len,
            len == text@.len(),
            cuts@.len() == colons(text@.take(i as int)).len(),
            forall|k: int|
                0 <= k < cuts@.len() ==> #[trigger] cuts@[k] == colons(text@.take(i as int))[k],
        decreases len - i,
    {
        let c: char = text.get_char(i);
        proof {
            let seen = text@.take(i as int);
            assert(colon_marks(text@.take(i + 1)) =~= colon_marks(seen).push(c == ':'));
            lemma_marked_push(colon_marks(seen), c == ':');
        }
        if c == ':' {
            cuts.push(i);
        }
        i = i + 1;
    }
    assert(text@.take(len as int) =~= text@);
    cuts
}

impl Location {
    /// Reads a location from `file`, `file:line` or `file:line:column`; any
    /// other number of pieces between colons gives the unknown location.
    /// There is no location where a line or a column is not a number.
    pub fn try_from_string(string: &str) -> (location: Option<Location>)
        ensures
            location is Some <==> parse(string@) is Some,
            location matches Some(l) ==> Some(l@) == parse(string@),
    {
        let len: usize = string.unicode_len();
        let cuts = colon_positions(string);
        proof {
            lemma_marked(colon_marks(string@));
        }
        if cuts.len() == 0 {
            assert(pieces(string@)[0] =~= string@);
            Some(Location::File(String::from_str(string)))
        } else if cuts.len() == 1 {
            let file = string.substring_char(0, cuts[0]);
            let line = parse_number(string.substring_char(cuts[0] + 1, len));
            match line {
                Some(line) => Some(Location::Line(String::from_str(file), line)),
                None => None,
            }
        } else if cuts.len() == 2 {
            let file = string.substring_char(0, cuts[0]);
            let line = parse_number(string.substring_char(cuts[0] + 1, cuts[1]));
            let column = parse_number(string.substring_char(cuts[1] + 1, len));
            match (line, column) {
                (Some(line), Some(column)) => Some(
                    Location::LineColumn(String::from_str(file), line, column),
                ),
                _ => None,
            }
        } else {
            Some(Location::Unknown)
        }
    }
}

/// The unknown location.
pub fn location_unknown() -> (location: Box<Location>)
    ensures
        location@ == LocationView::Unknown,
{
    Box::new(Location::Unknown)
}

/// Reads a location from `file`, `file:line` or `file:line:column`; any other
/// number of pieces between colons gives the unknown location.
pub fn location_from_string(string: &str) -> (location: Box<Location>)
    requires
        parse(string@) is Some,
    ensures
        Some(location@) == parse(string@),
{
    match Location::try_from_string(string) {
        Some(location) => Box::new(location),
        None => vstd::pervasive::unreached(),
    }
}

} // verus!
