//! Lines placed on the cells of a terminal.

use vstd::prelude::*;
use crate::data_loader::texts;

verus! {

/// One line of a screen and the cell at which it starts.
#[derive(Debug)]
pub struct Placement {
    /// The column of the first character, counted from zero.
    pub col: u16,
    /// The row, counted from zero.
    pub row: u16,
    /// The line.
    pub text: String,
}

/// A placed line as plain mathematical values.
pub struct PlacementView {
    pub col: u16,
    pub row: u16,
    pub text: Seq<char>,
}

impl View for Placement {
    type V = PlacementView;

    open spec fn view(&self) -> PlacementView {
        PlacementView { col: self.col, row: self.row, text: self.text@ }
    }
}

/// The view of each placed line of a list, in order.
pub open spec fn placement_views(frame: Seq<Placement>) -> Seq<PlacementView> {
    Seq::new(frame.len(), |i: int| frame[i]@)
}

/// The column at which a line of `len` characters starts so that it
/// stands in the middle of `cols` columns: half of the columns that the
/// line leaves free, and zero where it leaves none.
pub open spec fn centered_col(cols: u16, len: int) -> u16 {
    if len >= cols {
        0
    } else {
        ((cols - len) / 2) as u16
    }
}

/// The row `offset` rows below `first_row`, or the last row that can be
/// addressed if there is no such row.
pub open spec fn row_below(first_row: u16, offset: int) -> u16 {
    if first_row + offset > u16::MAX {
        u16::MAX
    } else {
        (first_row + offset) as u16
    }
}

/// The lines, each centered, on consecutive rows from `first_row` down.
pub open spec fn centered_lines(lines: Seq<Seq<char>>, cols: u16, first_row: u16) -> Seq<
    PlacementView,
> {
    Seq::new(
        lines.len(),
        |i: int|
            PlacementView {
                col: centered_col(cols, lines[i].len() as int),
                row: row_below(first_row, i),
                text: lines[i],
            },
    )
}

/// The first of `needed` rows that stand in the middle of `available`
/// rows: half of the rows that are left over, and zero where none is.
pub open spec fn centered_offset(available: u16, needed: int) -> u16 {
    if needed >= available {
        0
    } else {
        ((available - needed) / 2) as u16
    }
}

/// The column at which a line of `len` characters starts so that it stands
/// in the middle of `cols` columns.
pub fn center_col(cols: u16, len: usize) -> (col: u16)
    ensures
        col == centered_col(cols, len as int),
{
    if len >= cols as usize {
        0
    } else {
        (cols - len as u16) / 2
    }
}

/// The first of `needed` rows that stand in the middle of `available` rows.
pub fn center_offset(available: u16, needed: usize) -> (offset: u16)
    ensures
        offset == centered_offset(available, needed as int),
{
    if needed >= available as usize {
        0
    } else {
        (available - needed as u16) / 2
    }
}

/// Places each line centered on consecutive rows from `first_row` down.
pub fn place_centered(lines: &Vec<String>, cols: u16, first_row: u16) -> (frame: Vec<Placement>)
    ensures
        placement_views(frame@) == centered_lines(texts(lines@), cols, first_row),
{
    let mut frame: Vec<Placement> = Vec::new();
    for i in 0..lines.len()
        invariant
            frame.len() == i,
            forall|k: int|
                0 <= k < i ==> (#[trigger] frame[k])@ == centered_lines(
                    texts(lines@),
                    cols,
                    first_row,
                )[k],
    {
        let line = &lines[i];
        let row: u16 = if i >= (u16::MAX - first_row) as usize {
            u16::MAX
        } else {
            first_row + i as u16
        };
        frame.push(
            Placement { col: center_col(cols, line.as_str().unicode_len()), row, text: line.clone() },
        );
    }
    assert(placement_views(frame@) =~= centered_lines(texts(lines@), cols, first_row));
    frame
}

} // verus!
