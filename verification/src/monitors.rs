//! The layout of the displays, read from what the display queries print.
//!
//! A layout listing names one output per line; the line of a connected
//! output carries a geometry token of the form `WxH+X+Y`. A display report
//! carries the extent of the whole virtual display on its `dimensions:`
//! line, as `WxH`.

use crate::decimal::{decimal_i32, is_digit, read_i32};
use crate::geometry::Monitor;
use crate::text::{
    chars_of, contains_char, contains_run, fields, find_first, first_index, first_piece,
    is_first_piece, lemma_first_piece_found, lemma_first_piece_missing, occurs, split_fields,
    views, CharClass,
};
use vstd::prelude::*;
use vstd::slice::slice_subrange;

verus! {

/// Why a display query gave no bounds.
#[derive(Clone, Copy, Debug, PartialEq, Eq, Structural)]
pub enum MonitorQueryError {
    /// The query could not be run, or ended in failure.
    QueryFailed,
    /// The layout listing holds no connected output with a geometry.
    NoMonitors,
    /// The display report holds no `dimensions:` line with an extent.
    DimensionsMissing,
    /// The width of the extent is not a 32-bit integer.
    InvalidWidth,
    /// The height of the extent is not a 32-bit integer.
    InvalidHeight,
}

/// The display whose extent and offsets are written by the four texts, if
/// each of them is a 32-bit integer.
pub open spec fn monitor_from(w: Seq<char>, h: Seq<char>, x: Seq<char>, y: Seq<char>) -> Option<
    Monitor,
> {
    match (decimal_i32(w), decimal_i32(h), decimal_i32(x), decimal_i32(y)) {
        (Some(w), Some(h), Some(x), Some(y)) => Some(Monitor { x, y, w, h }),
        _ => None,
    }
}

/// The display that the geometry token `token` describes as `WxH+X+Y`.
///
/// The width ends at the first `x`. The height ends at the first sign
/// after that. The horizontal offset starts with that sign and ends at the
/// next sign, which is looked for one character further on; the vertical
/// offset starts there and runs to the end. Each offset is read with its
/// sign.
pub open spec fn monitor_geometry(token: Seq<char>) -> Option<Monitor> {
    match first_index(token, CharClass::Exactly('x')) {
        None => None,
        Some(cut) => {
            let rest = token.skip(cut + 1);
            match first_index(rest, CharClass::Sign) {
                None => None,
                Some(first) => {
                    let offsets = rest.skip(first);
                    match first_index(offsets.skip(1), CharClass::Sign) {
                        None => None,
                        Some(next) => monitor_from(
                            token.take(cut),
                            rest.take(first),
                            offsets.take(next + 1),
                            offsets.skip(next + 1),
                        ),
                    }
                },
            }
        },
    }
}

/// Reads a display from the characters of a geometry token.
fn geometry_of(token: &[char]) -> (r: Option<Monitor>)
    ensures
        r == monitor_geometry(token@),
{
    let cut: usize = match find_first(token, CharClass::Exactly('x')) {
        Some(i) => i,
        None => {
            return None;
        },
    };
    let total: usize = token.len();
    let rest = slice_subrange(token, cut + 1, total);
    let first: usize = match find_first(rest, CharClass::Sign) {
        Some(i) => i,
        None => {
            return None;
        },
    };
    let offsets = slice_subrange(rest, first, rest.len());
    let next: usize = match find_first(slice_subrange(offsets, 1, offsets.len()), CharClass::Sign) {
        Some(i) => i,
        None => {
            return None;
        },
    };
    let w = read_i32(slice_subrange(token, 0, cut));
    let h = read_i32(slice_subrange(rest, 0, first));
    let x = read_i32(slice_subrange(offsets, 0, next + 1));
    let y = read_i32(slice_subrange(offsets, next + 1, offsets.len()));
    match (w, h, x, y) {
        (Some(w), Some(h), Some(x), Some(y)) => Some(Monitor { x, y, w, h }),
        _ => None,
    }
}

/// Reads the display that `token` describes as `WxH+X+Y`.
pub fn parse_monitor_geometry(token: &str) -> (r: Option<Monitor>)
    ensures
        r == monitor_geometry(token@),
{
    let chars = chars_of(token);
    geometry_of(chars.as_slice())
}

/// Whether `word` looks like a geometry token: it holds an `x` and a plus
/// sign.
pub open spec fn is_geometry_token(word: Seq<char>) -> bool {
    word.contains('x') && word.contains('+')
}

/// The display that the line `line` of a layout listing describes.
///
/// Only a line that holds ` connected` describes one. Its geometry is the
/// first of its words (the pieces between white space) that looks like a
/// geometry token; where that word is no geometry after all, the line
/// describes nothing.
pub open spec fn line_monitor(line: Seq<char>) -> Option<Monitor> {
    if !occurs(line, " connected"@) {
        None
    } else {
        match first_piece(fields(line, CharClass::Space), |w: Seq<char>| is_geometry_token(w)) {
            Some(token) => monitor_geometry(token),
            None => None,
        }
    }
}

/// Reads the display that a line of a layout listing describes.
fn monitor_in_line(line: &[char]) -> (r: Option<Monitor>)
    ensures
        r == line_monitor(line@),
{
    let marker = chars_of(" connected");
    if !contains_run(line, marker.as_slice()) {
        return None;
    }
    let words = split_fields(line, CharClass::Space);
    let ghost wanted = |w: Seq<char>| is_geometry_token(w);
    let ghost pieces = fields(line@, CharClass::Space);
    let mut i: usize = 0;
    while i < words.len()
        invariant
            i <= words@.len(),
            views(words@) == pieces,
            pieces == fields(line@, CharClass::Space),
            wanted == (|w: Seq<char>| is_geometry_token(w)),
            occurs(line@, " connected"@),
            forall|j: int| 0 <= j < i ==> !wanted(#[trigger] pieces[j]),
        decreases words@.len() - i,
    {
        let word = words[i].as_slice();
        assert(pieces[i as int] == word@);
        if contains_char(word, 'x') && contains_char(word, '+') {
            proof {
                assert(wanted(pieces[i as int]));
                assert(is_first_piece(pieces, wanted, i as int));
                lemma_first_piece_found(pieces, wanted, i as int);
            }
            return geometry_of(word);
        }
        assert(!wanted(pieces[i as int]));
        i += 1;
    }
    proof {
        lemma_first_piece_missing(pieces, wanted);
    }
    None
}

/// Reads the display that the line `line` of a layout listing describes.
pub fn parse_xrandr_line(line: &str) -> (r: Option<Monitor>)
    ensures
        r == line_monitor(line@),
{
    let chars = chars_of(line);
    monitor_in_line(chars.as_slice())
}

/// The displays that the lines `lines` describe, in the order of the
/// lines; a line that describes none is passed over.
pub open spec fn listed_monitors(lines: Seq<Seq<char>>) -> Seq<Monitor>
    decreases lines.len(),
{
    if lines.len() == 0 {
        Seq::empty()
    } else {
        let before = listed_monitors(lines.drop_last());
        match line_monitor(lines.last()) {
            Some(m) => before.push(m),
            None => before,
        }
    }
}

/// The displays of a layout listing: those that its lines describe, the
/// text cut into lines at every line feed. (A carriage return before the
/// line feed is white space and changes nothing.)
pub open spec fn layout_monitors(output: Seq<char>) -> Seq<Monitor> {
    listed_monitors(fields(output, CharClass::Exactly('\n')))
}

/// Reads the displays of a layout listing. A listing that describes no
/// display is an error.
pub fn parse_monitor_layout(output: &str) -> (r: Result<Vec<Monitor>, MonitorQueryError>)
    ensures
        match r {
            Ok(monitors) => monitors@ == layout_monitors(output@) && monitors@.len() > 0,
            Err(e) => e == MonitorQueryError::NoMonitors && layout_monitors(output@).len() == 0,
        },
{
    let chars = chars_of(output);
    let lines = split_fields(chars.as_slice(), CharClass::Exactly('\n'));
    let ghost pieces = fields(output@, CharClass::Exactly('\n'));
    let mut monitors: Vec<Monitor> = Vec::new();
    let mut i: usize = 0;
    assert(pieces.take(0) =~= Seq::<Seq<char>>::empty());
    while i < lines.len()
        invariant
            i <= lines@.len(),
            views(lines@) == pieces,
            monitors@ == listed_monitors(pieces.take(i as int)),
        decreases lines@.len() - i,
    {
        assert(pieces[i as int] == lines@[i as int]@);
        proof {
            assert(pieces.take(i + 1).drop_last() == pieces.take(i as int));
            assert(pieces.take(i + 1).last() == pieces[i as int]);
        }
        match monitor_in_line(lines[i].as_slice()) {
            Some(m) => {
                monitors.push(m);
            },
            None => {},
        }
        i += 1;
    }
    assert(pieces.take(i as int) == pieces);
    if monitors.len() == 0 {
        Err(MonitorQueryError::NoMonitors)
    } else {
        Ok(monitors)
    }
}

/// Whether `word` looks like an extent: it holds an `x`, and nothing but
/// digits and `x`.
pub open spec fn is_extent_token(word: Seq<char>) -> bool {
    &&& word.contains('x')
    &&& forall|i: int| 0 <= i < word.len() ==> is_digit(#[trigger] word[i]) || word[i] == 'x'
}

/// The extent that the line `line` of a display report carries: on a line
/// that holds `dimensions:`, the first word that looks like an extent.
pub open spec fn line_extent(line: Seq<char>) -> Option<Seq<char>> {
    if !occurs(line, "dimensions:"@) {
        None
    } else {
        first_piece(fields(line, CharClass::Space), |w: Seq<char>| is_extent_token(w))
    }
}

/// The extent that the first of `lines` to carry one carries.
pub open spec fn first_extent(lines: Seq<Seq<char>>) -> Option<Seq<char>>
    decreases lines.len(),
{
    if lines.len() == 0 {
        None
    } else {
        match line_extent(lines.first()) {
            Some(token) => Some(token),
            None => first_extent(lines.drop_first()),
        }
    }
}

/// The bounds of the whole virtual display, read from the extent token
/// `token`: the width before its first `x`, the height after it, the
/// origin at zero.
pub open spec fn extent_bounds(token: Seq<char>) -> Result<Monitor, MonitorQueryError> {
    match first_index(token, CharClass::Exactly('x')) {
        None => Err(MonitorQueryError::DimensionsMissing),
        Some(cut) => match decimal_i32(token.take(cut)) {
            None => Err(MonitorQueryError::InvalidWidth),
            Some(w) => match decimal_i32(token.skip(cut + 1)) {
                None => Err(MonitorQueryError::InvalidHeight),
                Some(h) => Ok(Monitor { x: 0, y: 0, w, h }),
            },
        },
    }
}

/// The bounds of the whole virtual display that a display report gives,
/// the text cut into lines at every line feed.
pub open spec fn virtual_bounds(output: Seq<char>) -> Result<Monitor, MonitorQueryError> {
    match first_extent(fields(output, CharClass::Exactly('\n'))) {
        None => Err(MonitorQueryError::DimensionsMissing),
        Some(token) => extent_bounds(token),
    }
}

/// Tests whether `word` looks like an extent.
fn looks_like_extent(word: &[char]) -> (b: bool)
    ensures
        b == is_extent_token(word@),
{
    if !contains_char(word, 'x') {
        return false;
    }
    let mut i: usize = 0;
    while i < word.len()
        invariant
            i <= word@.len(),
            forall|j: int| 0 <= j < i ==> is_digit(#[trigger] word@[j]) || word@[j] == 'x',
        decreases word@.len() - i,
    {
        let c: char = word[i];
        if !(('0' <= c && c <= '9') || c == 'x') {
            return false;
        }
        i += 1;
    }
    true
}

/// Finds the extent that a line of a display report carries.
fn extent_in_line(line: &[char]) -> (r: Option<Vec<char>>)
    ensures
        match r {
            Some(token) => line_extent(line@) == Some(token@),
            None => line_extent(line@) is None,
        },
{
    let marker = chars_of("dimensions:");
    if !contains_run(line, marker.as_slice()) {
        return None;
    }
    let mut words = split_fields(line, CharClass::Space);
    let ghost wanted = |w: Seq<char>| is_extent_token(w);
    let ghost pieces = fields(line@, CharClass::Space);
    let mut i: usize = 0;
    while i < words.len()
        invariant
            i <= words@.len(),
            views(words@) == pieces,
            pieces == fields(line@, CharClass::Space),
            wanted == (|w: Seq<char>| is_extent_token(w)),
            occurs(line@, "dimensions:"@),
            forall|j: int| 0 <= j < i ==> !wanted(#[trigger] pieces[j]),
        decreases words@.len() - i,
    {
        assert(pieces[i as int] == words@[i as int]@);
        if looks_like_extent(words[i].as_slice()) {
            proof {
                assert(wanted(pieces[i as int]));
                assert(is_first_piece(pieces, wanted, i as int));
                lemma_first_piece_found(pieces, wanted, i as int);
            }
            return Some(words.swap_remove(i));
        }
        assert(!wanted(pieces[i as int]));
        i += 1;
    }
    proof {
        lemma_first_piece_missing(pieces, wanted);
    }
    None
}

/// Reads the bounds of the whole virtual display from an extent token.
fn bounds_of_extent(token: &[char]) -> (r: Result<Monitor, MonitorQueryError>)
    ensures
        r == extent_bounds(token@),
{
    let cut: usize = match find_first(token, CharClass::Exactly('x')) {
        Some(i) => i,
        None => {
            return Err(MonitorQueryError::DimensionsMissing);
        },
    };
    let w: i32 = match read_i32(slice_subrange(token, 0, cut)) {
        Some(w) => w,
        None => {
            return Err(MonitorQueryError::InvalidWidth);
        },
    };
    let total: usize = token.len();
    let h: i32 = match read_i32(slice_subrange(token, cut + 1, total)) {
        Some(h) => h,
        None => {
            return Err(MonitorQueryError::InvalidHeight);
        },
    };
    Ok(Monitor { x: 0, y: 0, w, h })
}

/// Reads the bounds of the whole virtual display from a display report.
/// They start at the origin.
pub fn parse_display_dimensions(output: &str) -> (r: Result<Monitor, MonitorQueryError>)
    ensures
        r == virtual_bounds(output@),
        r matches Ok(m) ==> m.x == 0 && m.y == 0,
{
    let chars = chars_of(output);
    let lines = split_fields(chars.as_slice(), CharClass::Exactly('\n'));
    let ghost pieces = fields(output@, CharClass::Exactly('\n'));
    let mut i: usize = 0;
    assert(pieces.skip(0) == pieces);
    while i < lines.len()
        invariant
            i <= lines@.len(),
            views(lines@) == pieces,
            pieces == fields(output@, CharClass::Exactly('\n')),
            first_extent(pieces) == first_extent(pieces.skip(i as int)),
        decreases lines@.len() - i,
    {
        assert(pieces[i as int] == lines@[i as int]@);
        proof {
            assert(pieces.skip(i as int).drop_first() == pieces.skip(i + 1));
            assert(pieces.skip(i as int).first() == pieces[i as int]);
        }
        match extent_in_line(lines[i].as_slice()) {
            Some(token) => {
                return bounds_of_extent(token.as_slice());
            },
            None => {},
        }
        i += 1;
    }
    Err(MonitorQueryError::DimensionsMissing)
}

} // verus!
