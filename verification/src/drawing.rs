//! What is drawn of the grid of a terminal, and where.

use crate::arith::clamp_to_i32;
use crate::arith::saturating_add_i32;
use crate::offset::RowOffset;
use crate::scroll::terminal_prepared_source_rows;
use crate::scroll::terminal_visible_source_rows;
use crate::selection::selection_bounds;
use crate::selection::TerminalCellPosition;
use crate::selection::TerminalSelection;
use crate::terminal::terminal_cursor_columns;
use crate::terminal::terminal_cursor_position;
use crate::terminal::TerminalSnapshot;
use core::ops::Range;
use vstd::prelude::*;

verus! {

/// A place on the painted grid: a row, counted from the top of the picture,
/// a column and how many columns it covers.
#[derive(Clone, Copy, PartialEq, Eq, Structural, Debug)]
pub struct PaintedCells {
    pub row: i32,
    pub column: usize,
    pub width_columns: usize,
}

/// The rows of a frame: those that show, and those to prepare.
#[derive(Debug)]
pub struct FrameRows {
    pub visible: Range<i32>,
    pub prepared: Range<i32>,
}

/// The cursor cells painted as part of their row: those of the pane that takes
/// the input.
pub open spec fn cursor_in_row(snapshot: TerminalSnapshot, cursor_focused: bool) -> Option<
    (nat, nat),
> {
    if cursor_focused && snapshot.cursor.visible {
        Some(snapshot.cursor_position())
    } else {
        None
    }
}

/// The cells of a selection, if it is of this terminal.
pub open spec fn cells_of_selection(
    snapshot: TerminalSnapshot,
    selection: Option<TerminalSelection>,
) -> Option<(int, int)> {
    match selection {
        Some(selection) => if selection.terminal_id == snapshot.terminal_id {
            crate::selection::selected_cells(snapshot, selection)
        } else {
            None
        },
        None => None,
    }
}

/// Where the cursor is painted when the picture is moved.
pub open spec fn moved_cursor(
    snapshot: TerminalSnapshot,
    offset: RowOffset,
    width_columns: nat,
) -> PaintedCells {
    PaintedCells {
        row: crate::arith::clamped_i32(
            snapshot.cursor_position().0 + crate::arith::clamped_i32(offset.whole()),
        ) as i32,
        column: snapshot.cursor_position().1 as usize,
        width_columns: width_columns as usize,
    }
}

/// Where the text being composed is painted.
pub open spec fn composition_cells(
    snapshot: TerminalSnapshot,
    composed: Seq<char>,
    offset: RowOffset,
) -> Option<PaintedCells> {
    if composed.len() > 0 && snapshot.cursor.visible {
        Some(moved_cursor(snapshot, offset, 1))
    } else {
        None
    }
}

/// Where the outline of the cursor is painted: in a pane that does not take
/// the input.
pub open spec fn outline_cells(
    snapshot: TerminalSnapshot,
    cursor_focused: bool,
    offset: RowOffset,
) -> Option<PaintedCells> {
    if snapshot.cursor.visible && !cursor_focused {
        Some(moved_cursor(snapshot, offset, snapshot.cursor_columns()))
    } else {
        None
    }
}

/// The cursor cells painted as part of their row.
pub fn focused_cursor(snapshot: &TerminalSnapshot, cursor_focused: bool) -> (cursor: Option<
    (usize, usize),
>)
    ensures
        match cursor {
            Some((row, column)) => cursor_in_row(*snapshot, cursor_focused) == Some(
                (row as nat, column as nat),
            ),
            None => cursor_in_row(*snapshot, cursor_focused) is None,
        },
{
    if cursor_focused && snapshot.cursor.visible {
        Some(terminal_cursor_position(snapshot))
    } else {
        None
    }
}

/// The first and the last selected cell, if the selection is of this terminal.
pub fn shown_selection(snapshot: &TerminalSnapshot, selection: Option<TerminalSelection>) -> (bounds:
    Option<(TerminalCellPosition, TerminalCellPosition)>)
    requires
        snapshot.wf(),
    ensures
        bounds is Some <==> cells_of_selection(*snapshot, selection) is Some,
        bounds matches Some((start, end)) ==> {
            let cells = cells_of_selection(*snapshot, selection)->0;
            let columns = snapshot.size.columns as int;
            &&& columns > 0
            &&& crate::selection::locates(start, cells.0, columns)
            &&& crate::selection::locates(end, cells.1 - 1, columns)
        },
{
    match selection {
        Some(selection) if selection.terminal_id == snapshot.terminal_id => selection_bounds(
            snapshot,
            selection,
        ),
        _ => None,
    }
}

fn painted_cursor(snapshot: &TerminalSnapshot, offset: RowOffset, width_columns: usize) -> (cells:
    PaintedCells)
    requires
        snapshot.wf(),
    ensures
        cells == moved_cursor(*snapshot, offset, width_columns as nat),
{
    let (row, column) = terminal_cursor_position(snapshot);
    let whole: i32 = clamp_to_i32(offset.whole_rows());
    PaintedCells { row: saturating_add_i32(row as i32, whole), column, width_columns }
}

/// Where the text being composed is painted, if it is.
pub fn composition_place(snapshot: &TerminalSnapshot, composed: &str, offset: RowOffset) -> (place:
    Option<PaintedCells>)
    requires
        snapshot.wf(),
    ensures
        place == composition_cells(*snapshot, composed@, offset),
{
    if crate::text::chars_of(composed).len() > 0 && snapshot.cursor.visible {
        Some(painted_cursor(snapshot, offset, 1))
    } else {
        None
    }
}

/// Where the outline of the cursor is painted, if it is.
pub fn outlined_cursor(snapshot: &TerminalSnapshot, cursor_focused: bool, offset: RowOffset) -> (place:
    Option<PaintedCells>)
    requires
        snapshot.wf(),
    ensures
        place == outline_cells(*snapshot, cursor_focused, offset),
{
    if snapshot.cursor.visible && !cursor_focused {
        Some(painted_cursor(snapshot, offset, terminal_cursor_columns(snapshot)))
    } else {
        None
    }
}

/// The rows of a frame.
pub fn frame_rows(snapshot: &TerminalSnapshot, offset: RowOffset) -> (rows: FrameRows)
    requires
        snapshot.wf(),
        crate::scroll::rows_are_addressable(snapshot.size.lines as int, offset),
    ensures
        (rows.visible.start as int, rows.visible.end as int) == crate::scroll::visible_rows(
            snapshot.size.lines as int,
            offset,
        ),
        (rows.prepared.start as int, rows.prepared.end as int) == crate::scroll::prepared_rows(
            rows.visible.start as int,
            rows.visible.end as int,
            -(snapshot.rows_before.len() as int),
            snapshot.size.lines + snapshot.rows_after.len(),
        ),
{
    let visible = terminal_visible_source_rows(snapshot.size.lines, offset);
    let first: i32 = -(snapshot.rows_before.len() as i32);
    let end: i32 = (snapshot.size.lines + snapshot.rows_after.len()) as i32;
    let prepared = terminal_prepared_source_rows(visible.start..visible.end, first, end);
    FrameRows { visible, prepared }
}

/// The cursor is drawn once: as part of its row where the pane takes the
/// input, as an outline where it does not, and not at all where it is hidden.
pub proof fn law_cursors_are_drawn_once(
    snapshot: TerminalSnapshot,
    cursor_focused: bool,
    offset: RowOffset,
)
    ensures
        snapshot.cursor.visible ==> (cursor_in_row(snapshot, cursor_focused) is Some
            <==> outline_cells(snapshot, cursor_focused, offset) is None),
        !snapshot.cursor.visible ==> cursor_in_row(snapshot, cursor_focused) is None
            && outline_cells(snapshot, cursor_focused, offset) is None,
{
}

/// The cursor moves with the picture: it is outlined, and text composed, as many
/// rows below or above its own as the picture was moved by whole rows, in its
/// own column. The outline covers a wide character whole.
pub proof fn law_cursors_move_with_the_picture(
    snapshot: TerminalSnapshot,
    composed: Seq<char>,
    offset: RowOffset,
    cursor_focused: bool,
)
    requires
        snapshot.cursor.visible,
        i32::MIN <= offset.whole() <= i32::MAX,
        i32::MIN <= snapshot.cursor_position().0 + offset.whole() <= i32::MAX,
        snapshot.cursor_position().1 <= usize::MAX,
        composed.len() > 0,
    ensures
        ({
            let (row, column) = snapshot.cursor_position();
            let outline = outline_cells(snapshot, false, offset);
            let text = composition_cells(snapshot, composed, offset);
            &&& outline is Some && text is Some
            &&& outline->0.row == row + offset.whole()
            &&& text->0.row == row + offset.whole()
            &&& outline->0.column == column
            &&& text->0.column == column
            &&& outline->0.width_columns == snapshot.cursor_columns()
            &&& text->0.width_columns == 1
            &&& cursor_in_row(snapshot, true) == Some((row, column))
        }),
        composition_cells(snapshot, Seq::empty(), offset) is None,
{
}

/// Only a selection of the terminal itself shows in it.
pub proof fn law_selections_show_in_their_terminal(
    snapshot: TerminalSnapshot,
    selection: TerminalSelection,
)
    ensures
        selection.terminal_id == snapshot.terminal_id ==> cells_of_selection(
            snapshot,
            Some(selection),
        ) == crate::selection::selected_cells(snapshot, selection),
        selection.terminal_id != snapshot.terminal_id ==> cells_of_selection(
            snapshot,
            Some(selection),
        ) is None,
        cells_of_selection(snapshot, None) is None,
{
}

} // verus!
