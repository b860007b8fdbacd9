//! Where the terminal cursor goes while the text field has the focus.

use vstd::prelude::*;

verus! {

/// The number of terminal columns that `text` takes up, as
/// `unicode_width::UnicodeWidthStr::width` counts them. Nothing is said here of
/// what that number is.
pub uninterp spec fn display_width(text: Seq<char>) -> nat;

/// Calls `unicode_width::UnicodeWidthStr::width` on `text`. Taken on trust:
/// the result depends on the characters of `text` and on nothing else, so it
/// is the width that `display_width` names.
#[verifier::external_body]
pub(crate) fn str_width(text: &str) -> (width: usize)
    ensures
        width as nat == display_width(text@),
{
    unicode_width::UnicodeWidthStr::width(text)
}

/// `n`, or the largest screen coordinate if `n` is beyond it.
pub open spec fn clamp_coordinate(n: nat) -> u16 {
    if n > u16::MAX {
        u16::MAX
    } else {
        n as u16
    }
}

/// The cell just behind a text of `width` columns that starts one cell right
/// of and one cell below `(x, y)`, the corner of the field's border.
pub open spec fn cursor_cell_at(x: u16, y: u16, width: nat) -> (u16, u16) {
    (clamp_coordinate(x as nat + width + 1), clamp_coordinate(y as nat + 1))
}

/// The cursor cell for a text field whose border starts at `(x, y)` and whose
/// text is `width` columns wide. Coordinates stop at the largest one.
pub fn cursor_cell(x: u16, y: u16, width: usize) -> (cell: (u16, u16))
    ensures
        cell == cursor_cell_at(x, y, width as nat),
{
    let room: u16 = u16::MAX - x;
    let column: u16 = if width >= room as usize {
        u16::MAX
    } else {
        x + (width as u16) + 1
    };
    let row: u16 = if y == u16::MAX {
        u16::MAX
    } else {
        y + 1
    };
    (column, row)
}

} // verus!
