//! The rectangle that an interactive selection reports, read from its
//! text.

use crate::decimal::{decimal_i32, read_i32};
use crate::geometry::Rect;
use crate::text::{chars_of, fields, split_fields, trim, trim_slice, views, CharClass};
use vstd::prelude::*;

verus! {

/// Why a text is not the geometry of a selection.
#[derive(Clone, Copy, Debug, PartialEq, Eq, Structural)]
pub enum GeometryError {
    /// One of the values between the commas is not a 32-bit integer.
    InvalidNumber,
    /// Every value is an integer, but there are this many and not four.
    WrongCount(usize),
}

/// Whether the piece `piece` of a geometry, once trimmed, is a number.
pub open spec fn is_number(piece: Seq<char>) -> bool {
    decimal_i32(trim(piece)) is Some
}

/// The number that the piece `piece` of a geometry writes.
pub open spec fn number(piece: Seq<char>) -> i32 {
    decimal_i32(trim(piece)).unwrap()
}

/// The rectangle that the text `raw` describes as `x,y,w,h`: four values
/// between commas, each a 32-bit integer with any white space round it.
/// A value that is no integer makes the text invalid whatever the count.
pub open spec fn selection_geometry(raw: Seq<char>) -> Result<Rect, GeometryError> {
    let pieces = fields(raw, CharClass::Exactly(','));
    if exists|i: int| 0 <= i < pieces.len() && !is_number(#[trigger] pieces[i]) {
        Err(GeometryError::InvalidNumber)
    } else if pieces.len() != 4 {
        Err(GeometryError::WrongCount(pieces.len() as usize))
    } else {
        Ok(
            Rect {
                x: number(pieces[0]),
                y: number(pieces[1]),
                w: number(pieces[2]),
                h: number(pieces[3]),
            },
        )
    }
}

/// Reads the rectangle of a selection from characters.
fn geometry_of(raw: &[char]) -> (r: Result<Rect, GeometryError>)
    ensures
        r == selection_geometry(raw@),
{
    let pieces = split_fields(raw, CharClass::Exactly(','));
    let ghost wanted = fields(raw@, CharClass::Exactly(','));
    let mut values: Vec<i32> = Vec::new();
    let mut i: usize = 0;
    while i < pieces.len()
        invariant
            i <= pieces@.len(),
            views(pieces@) == wanted,
            wanted == fields(raw@, CharClass::Exactly(',')),
            values@.len() == i,
            forall|j: int| 0 <= j < i ==> is_number(#[trigger] wanted[j]),
            forall|j: int| 0 <= j < i ==> values@[j] == number(#[trigger] wanted[j]),
        decreases pieces@.len() - i,
    {
        assert(wanted[i as int] == pieces@[i as int]@);
        match read_i32(trim_slice(pieces[i].as_slice())) {
            Some(v) => {
                values.push(v);
            },
            None => {
                assert(!is_number(wanted[i as int]));
                return Err(GeometryError::InvalidNumber);
            },
        }
        i += 1;
    }
    if values.len() != 4 {
        return Err(GeometryError::WrongCount(values.len()));
    }
    Ok(Rect { x: values[0], y: values[1], w: values[2], h: values[3] })
}

/// Reads the rectangle that `raw` describes as `x,y,w,h`.
pub fn parse_selection_geometry(raw: &str) -> (r: Result<Rect, GeometryError>)
    ensures
        r == selection_geometry(raw@),
{
    let chars = chars_of(raw);
    geometry_of(chars.as_slice())
}

/// What a run of the selection tool amounts to: a rectangle, or nothing
/// where the user gave up, which shows as a failed run or as an output
/// that is empty but for white space.
pub open spec fn selection(succeeded: bool, output: Seq<char>) -> Result<
    Option<Rect>,
    GeometryError,
> {
    if !succeeded || trim(output).len() == 0 {
        Ok(None)
    } else {
        match selection_geometry(trim(output)) {
            Ok(rect) => Ok(Some(rect)),
            Err(e) => Err(e),
        }
    }
}

/// Reads what the selection tool reported: whether it ran to a good end,
/// and what it printed.
pub fn read_selection(succeeded: bool, output: &str) -> (r: Result<Option<Rect>, GeometryError>)
    ensures
        r == selection(succeeded, output@),
{
    if !succeeded {
        return Ok(None);
    }
    let chars = chars_of(output);
    let raw = trim_slice(chars.as_slice());
    if raw.len() == 0 {
        return Ok(None);
    }
    match geometry_of(raw) {
        Ok(rect) => Ok(Some(rect)),
        Err(e) => Err(e),
    }
}

} // verus!
