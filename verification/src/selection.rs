//! The selection of cells in a terminal.
//!
//! A selection runs from an anchor to a head. Both lie on an edge of a cell,
//! so the cells of a grid are counted row by row and an endpoint is the number
//! of cells before it. Rows above the visible grid count backwards.

use crate::arith::clamp_to_i32;
use crate::arith::saturating_add_i32;
use crate::arith::saturating_sub_i64;
use crate::ids::TerminalId;
use crate::terminal::TerminalCell;
use crate::terminal::TerminalRow;
use crate::terminal::TerminalSnapshot;
use vstd::prelude::*;

verus! {

#[derive(Clone, Copy, PartialEq, Eq, Structural, Debug)]
pub struct TerminalCellPosition {
    /// Row coordinate; rows scrolled out above the visible grid are negative.
    pub row: i32,
    pub column: usize,
}

/// The half of a cell that an endpoint lies in.
#[derive(Clone, Copy, PartialEq, Eq, Structural, Debug)]
pub enum TerminalSelectionSide {
    Left,
    Right,
}

#[derive(Clone, Copy, PartialEq, Eq, Structural, Debug)]
pub struct TerminalSelectionEndpoint {
    pub position: TerminalCellPosition,
    pub side: TerminalSelectionSide,
}

#[derive(Clone, Copy, PartialEq, Eq, Structural, Debug)]
pub struct TerminalSelection {
    pub terminal_id: TerminalId,
    pub anchor: TerminalSelectionEndpoint,
    pub head: TerminalSelectionEndpoint,
}

/// How many cells lie before an endpoint.
pub open spec fn boundary(endpoint: TerminalSelectionEndpoint, columns: int) -> int {
    endpoint.position.row * columns + endpoint.position.column + (if endpoint.side
        == TerminalSelectionSide::Right {
        1int
    } else {
        0
    })
}

/// The first cell at hand.
pub open spec fn first_cell(snapshot: TerminalSnapshot) -> int {
    -(snapshot.rows_before.len() as int) * snapshot.size.columns
}

/// The end of the cells at hand.
pub open spec fn end_cell(snapshot: TerminalSnapshot) -> int {
    (snapshot.size.lines + snapshot.rows_after.len()) * snapshot.size.columns
}

/// The cell with a given number.
pub open spec fn cell_at(snapshot: TerminalSnapshot, index: int) -> Option<TerminalCell> {
    let columns = snapshot.size.columns as int;
    match snapshot.relative(index / columns) {
        Some(cells) => if index % columns < cells.len() {
            Some(cells[index % columns])
        } else {
            None
        },
        None => None,
    }
}

pub open spec fn is_wide(snapshot: TerminalSnapshot, index: int) -> bool {
    cell_at(snapshot, index) is Some && cell_at(snapshot, index)->0.flags.wide
}

pub open spec fn is_leading_spacer(snapshot: TerminalSnapshot, index: int) -> bool {
    cell_at(snapshot, index) is Some && cell_at(snapshot, index)->0.flags.leading_wide_spacer
}

pub open spec fn is_spacer(snapshot: TerminalSnapshot, index: int) -> bool {
    cell_at(snapshot, index) is Some && cell_at(snapshot, index)->0.flags.wide_spacer
}

/// The cell is the right half of the wide character before it.
pub open spec fn is_second_half(snapshot: TerminalSnapshot, index: int) -> bool {
    &&& is_spacer(snapshot, index)
    &&& !is_leading_spacer(snapshot, index)
    &&& index > first_cell(snapshot)
    &&& is_wide(snapshot, index - 1)
}

/// The cell holds no character and belongs to none before it, so a selection
/// cannot start there.
pub open spec fn is_filler(snapshot: TerminalSnapshot, index: int) -> bool {
    (is_leading_spacer(snapshot, index) || is_spacer(snapshot, index)) && !is_second_half(
        snapshot,
        index,
    )
}

/// The first cell from `start` on that is no filler, or `end`.
pub open spec fn skip_fillers(snapshot: TerminalSnapshot, start: int, end: int) -> int
    decreases end - start,
{
    if start >= end || !is_filler(snapshot, start) {
        start
    } else {
        skip_fillers(snapshot, start + 1, end)
    }
}

/// The cell that a character starts in, seen from any of its cells: a right
/// half leads to the cell before it, which may be a right half itself.
pub open spec fn base_of(snapshot: TerminalSnapshot, index: int) -> int
    decreases index - first_cell(snapshot),
{
    if is_second_half(snapshot, index) {
        base_of(snapshot, index - 1)
    } else {
        index
    }
}

/// Where the cells of a selection start: past fillers, and on the base of a
/// wide character rather than on its right half.
pub open spec fn settled_start(snapshot: TerminalSnapshot, start: int, end: int) -> int {
    let kept = skip_fillers(snapshot, start, end);
    if kept < end {
        base_of(snapshot, kept)
    } else {
        kept
    }
}

/// Where the cells of a selection end: before a leading spacer, and past the
/// right half of a wide character.
pub open spec fn settled_end(snapshot: TerminalSnapshot, start: int, end: int) -> int {
    let cut = if end > start && is_leading_spacer(snapshot, end - 1) {
        end - 1
    } else {
        end
    };
    if cut > start && is_wide(snapshot, cut - 1) {
        if cut + 1 <= end_cell(snapshot) {
            cut + 1
        } else {
            end_cell(snapshot)
        }
    } else {
        cut
    }
}

/// The cells between two edges, as the first and the end of their numbers.
pub open spec fn cells_between(snapshot: TerminalSnapshot, low: int, high: int) -> Option<
    (int, int),
> {
    let start = crate::arith::clamped(low, first_cell(snapshot), end_cell(snapshot));
    let end = crate::arith::clamped(high, first_cell(snapshot), end_cell(snapshot));
    let first = settled_start(snapshot, start, end);
    let past = settled_end(snapshot, first, end);
    if start >= end || first >= past {
        None
    } else {
        Some((first, past))
    }
}

/// The cells that a selection covers.
pub open spec fn selected_cells(snapshot: TerminalSnapshot, selection: TerminalSelection) -> Option<
    (int, int),
> {
    let anchor = boundary(selection.anchor, snapshot.size.columns as int);
    let head = boundary(selection.head, snapshot.size.columns as int);
    if anchor <= head {
        cells_between(snapshot, anchor, head)
    } else {
        cells_between(snapshot, head, anchor)
    }
}

/// The position of the cell with the given number.
pub open spec fn position_at(index: int, columns: int) -> TerminalCellPosition {
    TerminalCellPosition {
        row: (index / columns) as i32,
        column: (index % columns) as usize,
    }
}

/// The positions of the first and the last cell that a selection covers.
pub open spec fn selected_positions(
    snapshot: TerminalSnapshot,
    selection: TerminalSelection,
) -> Option<(TerminalCellPosition, TerminalCellPosition)> {
    let columns = snapshot.size.columns as int;
    match selected_cells(snapshot, selection) {
        Some((first, past)) => Some(
            (position_at(first, columns), position_at(past - 1, columns)),
        ),
        None => None,
    }
}

/// Whether a position is that of the cell with the given number.
pub open spec fn locates(position: TerminalCellPosition, index: int, columns: int) -> bool {
    position.row == index / columns && position.column == index % columns
}

/// Reading order of positions.
pub open spec fn at_or_before(a: TerminalCellPosition, b: TerminalCellPosition) -> bool {
    a.row < b.row || (a.row == b.row && a.column <= b.column)
}

/// The characters that a cell adds to copied text.
pub open spec fn copied(cell: TerminalCell) -> Seq<char> {
    if cell.flags.wide_spacer || cell.flags.leading_wide_spacer {
        Seq::empty()
    } else {
        cell@.text()
    }
}

/// The characters of the cells from `from` up to `to`, as far as the row goes.
pub open spec fn copied_cells(cells: Seq<TerminalCell>, from: int, to: int) -> Seq<char>
    decreases to - from,
{
    if to <= from {
        Seq::empty()
    } else {
        copied_cells(cells, from, to - 1) + (if to - 1 < cells.len() {
            copied(cells[to - 1])
        } else {
            Seq::empty()
        })
    }
}

/// A text without the spaces at its end.
pub open spec fn without_padding(text: Seq<char>) -> Seq<char>
    decreases text.len(),
{
    if text.len() > 0 && text.last() == ' ' {
        without_padding(text.drop_last())
    } else {
        text
    }
}

/// What one row adds to copied text: its selected cells without the padding,
/// and a line break unless it is the last row or runs on in the next.
pub open spec fn copied_row(
    snapshot: TerminalSnapshot,
    start: TerminalCellPosition,
    end: TerminalCellPosition,
    row: int,
) -> Seq<char> {
    let columns = snapshot.size.columns as int;
    match snapshot.relative(row) {
        None => Seq::empty(),
        Some(cells) => {
            let from = if row == start.row {
                start.column as int
            } else {
                0
            };
            let to = if row == end.row {
                end.column + 1
            } else {
                columns
            };
            let wrapped = 0 < columns <= cells.len() && cells[columns - 1].flags.wrapline;
            without_padding(copied_cells(cells, from, to)) + (if row == end.row || wrapped {
                Seq::empty()
            } else {
                seq!['\n']
            })
        },
    }
}

/// What the rows from that of `start` up to `row` add to copied text.
pub open spec fn copied_rows(
    snapshot: TerminalSnapshot,
    start: TerminalCellPosition,
    end: TerminalCellPosition,
    row: int,
) -> Seq<char>
    decreases row - start.row + 1,
{
    if row < start.row {
        Seq::empty()
    } else {
        copied_rows(snapshot, start, end, row - 1) + copied_row(snapshot, start, end, row)
    }
}

/// The text of a selection.
pub open spec fn selected_text(snapshot: TerminalSnapshot, selection: TerminalSelection) -> Seq<
    char,
> {
    match selected_positions(snapshot, selection) {
        None => Seq::empty(),
        Some((start, end)) => copied_rows(snapshot, start, end, end.row as int),
    }
}

pub fn selection_boundary_index(endpoint: TerminalSelectionEndpoint, columns: usize) -> (index:
    i128)
    requires
        columns <= i32::MAX,
    ensures
        index == boundary(endpoint, columns as int),
{
    let row: i128 = endpoint.position.row as i128;
    let width: i128 = columns as i128;
    assert(-0x4000_0000_0000_0000 <= row * width <= 0x4000_0000_0000_0000) by (nonlinear_arith)
        requires
            -0x8000_0000 <= row <= 0x8000_0000,
            0 <= width <= 0x8000_0000,
    ;
    let side: i128 = if endpoint.side == TerminalSelectionSide::Right { 1 } else { 0 };
    row * width + endpoint.position.column as i128 + side
}

/// The cell with a given number.
pub fn terminal_cell_at_linear_index(snapshot: &TerminalSnapshot, index: i64) -> (cell: Option<
    &TerminalCell,
>)
    requires
        snapshot.wf(),
        snapshot.size.columns > 0,
    ensures
        cell is Some <==> cell_at(*snapshot, index as int) is Some,
        cell is Some ==> *cell->0 == cell_at(*snapshot, index as int)->0,
{
    let columns: i64 = snapshot.size.columns as i64;
    let row: Option<i64> = index.checked_div_euclid(columns);
    let column: Option<i64> = index.checked_rem_euclid(columns);
    assert(index as int % columns as int >= 0);
    match (row, column) {
        (Some(row), Some(column)) => {
            assert(row == index as int / columns as int);
            assert(column == index as int % columns as int);
            if row < i32::MIN as i64 || row > i32::MAX as i64 {
                return None;
            }
            match snapshot.relative_row(row as i32) {
                Some(cells) => {
                    if (column as usize) < cells.len() {
                        Some(&cells[column as usize])
                    } else {
                        None
                    }
                },
                None => None,
            }
        },
        _ => None,
    }
}

proof fn lemma_cells_fit(snapshot: TerminalSnapshot)
    requires
        snapshot.wf(),
    ensures
        -0x4000_0000_0000_0000 <= first_cell(snapshot) <= 0,
        0 <= end_cell(snapshot) <= 0x4000_0000_0000_0000,
{
    let columns = snapshot.size.columns as int;
    let before = snapshot.rows_before.len() as int;
    let after = snapshot.size.lines + snapshot.rows_after.len();
    assert(-0x4000_0000_0000_0000 <= -before * columns <= 0) by (nonlinear_arith)
        requires
            0 <= columns <= 0x7fff_ffff,
            0 <= before <= 0x7fff_ffff,
    ;
    assert(0 <= after * columns <= 0x4000_0000_0000_0000) by (nonlinear_arith)
        requires
            0 <= columns <= 0x7fff_ffff,
            0 <= after <= 0x7fff_ffff,
    ;
}

proof fn lemma_position_bounds(snapshot: TerminalSnapshot, index: int)
    requires
        snapshot.wf(),
        snapshot.size.columns > 0,
        first_cell(snapshot) <= index < end_cell(snapshot),
    ensures
        -snapshot.rows_before.len() <= index / (snapshot.size.columns as int)
            < snapshot.size.lines + snapshot.rows_after.len(),
        0 <= index % (snapshot.size.columns as int) < snapshot.size.columns,
{
    let columns = snapshot.size.columns as int;
    let before = snapshot.rows_before.len() as int;
    let after = snapshot.size.lines + snapshot.rows_after.len();
    assert(-before <= index / columns < after) by (nonlinear_arith)
        requires
            columns > 0,
            -before * columns <= index < after * columns,
    ;
    assert(0 <= index % columns < columns) by (nonlinear_arith)
        requires
            columns > 0,
    ;
}

fn position_of(index: i64, columns: usize, Ghost(snapshot): Ghost<TerminalSnapshot>) -> (position:
    TerminalCellPosition)
    requires
        snapshot.wf(),
        snapshot.size.columns == columns,
        columns > 0,
        first_cell(snapshot) <= index < end_cell(snapshot),
    ensures
        locates(position, index as int, columns as int),
        -snapshot.rows_before.len() <= position.row < snapshot.size.lines
            + snapshot.rows_after.len(),
        position.column < columns,
{
    proof {
        lemma_position_bounds(snapshot, index as int);
    }
    let width: i64 = columns as i64;
    match (index.checked_div_euclid(width), index.checked_rem_euclid(width)) {
        (Some(row), Some(column)) => TerminalCellPosition {
            row: row as i32,
            column: column as usize,
        },
        _ => {
            assert(false);
            TerminalCellPosition { row: 0, column: 0 }
        },
    }
}

fn clamp_to_cells(value: i128, low: i64, high: i64) -> (clamped: i64)
    requires
        low <= high,
    ensures
        clamped == crate::arith::clamped(value as int, low as int, high as int),
{
    if value < low as i128 {
        low
    } else if value > high as i128 {
        high
    } else {
        value as i64
    }
}

/// Whether a cell is the right half of the wide character before it.
fn is_right_half(snapshot: &TerminalSnapshot, index: i64, first: i64) -> (half: bool)
    requires
        snapshot.wf(),
        snapshot.size.columns > 0,
        first == first_cell(*snapshot),
    ensures
        half == is_second_half(*snapshot, index as int),
{
    match terminal_cell_at_linear_index(snapshot, index) {
        Some(cell) if cell.flags.wide_spacer && !cell.flags.leading_wide_spacer && index
            > first => match terminal_cell_at_linear_index(snapshot, index - 1) {
            Some(previous) => previous.flags.wide,
            None => false,
        },
        _ => false,
    }
}

/// Whether a cell holds no character and belongs to none before it.
fn holds_no_character(snapshot: &TerminalSnapshot, index: i64, first: i64) -> (filler: bool)
    requires
        snapshot.wf(),
        snapshot.size.columns > 0,
        first == first_cell(*snapshot),
    ensures
        filler == is_filler(*snapshot, index as int),
{
    match terminal_cell_at_linear_index(snapshot, index) {
        Some(cell) => (cell.flags.leading_wide_spacer || cell.flags.wide_spacer)
            && !is_right_half(snapshot, index, first),
        None => false,
    }
}

/// The first and the last cell of a selection, in reading order; nothing where
/// it covers no cell.
pub fn selection_bounds(snapshot: &TerminalSnapshot, selection: TerminalSelection) -> (bounds:
    Option<(TerminalCellPosition, TerminalCellPosition)>)
    requires
        snapshot.wf(),
    ensures
        bounds == selected_positions(*snapshot, selection),
        bounds matches Some((start, end)) ==> {
            let cells = selected_cells(*snapshot, selection)->0;
            let columns = snapshot.size.columns as int;
            &&& columns > 0
            &&& locates(start, cells.0, columns)
            &&& locates(end, cells.1 - 1, columns)
        },
{
    let columns: usize = snapshot.size.columns;
    let anchor: i128 = selection_boundary_index(selection.anchor, columns);
    let head: i128 = selection_boundary_index(selection.head, columns);
    let (low, high): (i128, i128) = if anchor <= head {
        (anchor, head)
    } else {
        (head, anchor)
    };
    proof {
        lemma_cells_fit(*snapshot);
        let width = columns as int;
        let before = snapshot.rows_before.len() as int;
        let after = snapshot.size.lines + snapshot.rows_after.len();
        assert(before * width == -first_cell(*snapshot)) by (nonlinear_arith)
            requires
                first_cell(*snapshot) == -before * width,
        ;
        assert(after * width == end_cell(*snapshot));
    }
    let first: i64 = -((snapshot.rows_before.len() as i64) * (columns as i64));
    let past: i64 = ((snapshot.size.lines as i64) + (snapshot.rows_after.len() as i64)) * (
    columns as i64);
    let mut start: i64 = clamp_to_cells(low, first, past);
    let mut end: i64 = clamp_to_cells(high, first, past);
    if start >= end {
        return None;
    }
    if columns == 0 {
        assert(first_cell(*snapshot) == 0 && end_cell(*snapshot) == 0) by (nonlinear_arith)
            requires
                snapshot.size.columns == 0,
                first_cell(*snapshot) == -(snapshot.rows_before.len() as int)
                    * snapshot.size.columns,
                end_cell(*snapshot) == (snapshot.size.lines + snapshot.rows_after.len())
                    * snapshot.size.columns,
        ;
        return None;
    }
    let ghost low_edge = start as int;
    let ghost high_edge = end as int;
    while start < end && holds_no_character(snapshot, start, first)
        invariant
            snapshot.wf(),
            columns == snapshot.size.columns,
            columns > 0,
            first == first_cell(*snapshot),
            end == high_edge,
            low_edge <= start <= end,
            skip_fillers(*snapshot, low_edge, high_edge) == skip_fillers(
                *snapshot,
                start as int,
                high_edge,
            ),
        decreases end - start,
    {
        start += 1;
    }
    assert(start == skip_fillers(*snapshot, low_edge, high_edge));
    if start < end {
        let ghost kept = start as int;
        while is_right_half(snapshot, start, first)
            invariant
                snapshot.wf(),
                columns == snapshot.size.columns,
                columns > 0,
                first == first_cell(*snapshot),
                first <= start <= kept,
                base_of(*snapshot, start as int) == base_of(*snapshot, kept),
            decreases start - first,
        {
            start -= 1;
        }
    }
    assert(start == settled_start(*snapshot, low_edge, high_edge));
    if end > start {
        if let Some(cell) = terminal_cell_at_linear_index(snapshot, end - 1) {
            if cell.flags.leading_wide_spacer {
                end -= 1;
            }
        }
    }
    if end > start {
        if let Some(cell) = terminal_cell_at_linear_index(snapshot, end - 1) {
            if cell.flags.wide {
                end = if end + 1 <= past {
                    end + 1
                } else {
                    past
                };
            }
        }
    }
    assert(end == settled_end(*snapshot, start as int, high_edge));
    if start >= end {
        return None;
    }
    let first_position = position_of(start, columns, Ghost(*snapshot));
    let last_position = position_of(end - 1, columns, Ghost(*snapshot));
    Some((first_position, last_position))
}

/// Whether the position at a row and column lies within a selection.
pub fn is_terminal_cell_selected(
    snapshot: &TerminalSnapshot,
    selection: Option<TerminalSelection>,
    terminal_id: TerminalId,
    row: usize,
    column: usize,
) -> (selected: bool)
    requires
        snapshot.wf(),
    ensures
        selected == (selection is Some && selection->0.terminal_id == terminal_id && (
        match selected_positions(*snapshot, selection->0) {
            Some((start, end)) => {
                let position = TerminalCellPosition { row: row as i32, column };
                at_or_before(start, position) && at_or_before(position, end)
            },
            None => false,
        })),
{
    match selection {
        Some(selection) if selection.terminal_id == terminal_id => {
            match selection_bounds(snapshot, selection) {
                Some((start, end)) => {
                    let position = TerminalCellPosition { row: row as i32, column };
                    is_between(position, start, end)
                },
                None => false,
            }
        },
        _ => false,
    }
}

proof fn lemma_order(
    a: TerminalCellPosition,
    b: TerminalCellPosition,
    a_index: int,
    b_index: int,
    columns: int,
)
    requires
        columns > 0,
        locates(a, a_index, columns) || (0 <= a.column < columns && a_index == a.row * columns
            + a.column),
        locates(b, b_index, columns) || (0 <= b.column < columns && b_index == b.row * columns
            + b.column),
    ensures
        at_or_before(a, b) <==> a_index <= b_index,
{
    assert(a_index == a.row * columns + a.column && 0 <= a.column < columns) by {
        if locates(a, a_index, columns) {
            vstd::arithmetic::div_mod::lemma_fundamental_div_mod(a_index, columns);
            assert(columns * (a_index / columns) == (a_index / columns) * columns)
                by (nonlinear_arith);
        }
    }
    assert(b_index == b.row * columns + b.column && 0 <= b.column < columns) by {
        if locates(b, b_index, columns) {
            vstd::arithmetic::div_mod::lemma_fundamental_div_mod(b_index, columns);
            assert(columns * (b_index / columns) == (b_index / columns) * columns)
                by (nonlinear_arith);
        }
    }
    let ar = a.row as int;
    let br = b.row as int;
    if ar < br {
        assert(ar * columns + columns <= br * columns) by (nonlinear_arith)
            requires
                ar < br,
                columns > 0,
        ;
    } else if ar > br {
        assert(br * columns + columns <= ar * columns) by (nonlinear_arith)
            requires
                br < ar,
                columns > 0,
        ;
    }
}

/// Whether a position lies between two others, both included.
pub fn is_between(
    position: TerminalCellPosition,
    start: TerminalCellPosition,
    end: TerminalCellPosition,
) -> (between: bool)
    ensures
        between == (at_or_before(start, position) && at_or_before(position, end)),
{
    (start.row < position.row || (start.row == position.row && start.column <= position.column))
        && (position.row < end.row || (position.row == end.row && position.column <= end.column))
}

/// The selection after a click: a click with shift moves the head of the
/// selection in the same terminal, any other starts a new selection.
pub fn terminal_selection_after_click(
    previous: Option<TerminalSelection>,
    terminal_id: TerminalId,
    endpoint: TerminalSelectionEndpoint,
    shift_held: bool,
) -> (selection: TerminalSelection)
    ensures
        selection == selection_after_click(previous, terminal_id, endpoint, shift_held),
{
    if let Some(previous) = previous {
        if shift_held && previous.terminal_id == terminal_id {
            return TerminalSelection { terminal_id, anchor: previous.anchor, head: endpoint };
        }
    }
    TerminalSelection { terminal_id, anchor: endpoint, head: endpoint }
}

pub open spec fn selection_after_click(
    previous: Option<TerminalSelection>,
    terminal_id: TerminalId,
    endpoint: TerminalSelectionEndpoint,
    shift_held: bool,
) -> TerminalSelection {
    let extends = shift_held && previous is Some && previous->0.terminal_id == terminal_id;
    TerminalSelection {
        terminal_id,
        anchor: if extends {
            previous->0.anchor
        } else {
            endpoint
        },
        head: endpoint,
    }
}

fn trim_padding(text: &mut Vec<char>)
    ensures
        final(text)@ == without_padding(old(text)@),
{
    while text.len() > 0 && text[text.len() - 1] == ' '
        invariant
            without_padding(text@) == without_padding(old(text)@),
        decreases text.len(),
    {
        text.pop();
        assert(text@.len() >= 0);
    }
}

fn push_cell_text(text: &mut Vec<char>, cell: &TerminalCell)
    ensures
        final(text)@ == old(text)@ + copied(*cell),
{
    if cell.flags.wide_spacer || cell.flags.leading_wide_spacer {
        assert(text@ + Seq::<char>::empty() =~= text@);
        return;
    }
    text.push(cell.character);
    let mut i: usize = 0;
    while i < cell.zerowidth.len()
        invariant
            i <= cell.zerowidth.len(),
            text@ =~= old(text)@.push(cell.character) + cell.zerowidth@.take(i as int),
        decreases cell.zerowidth.len() - i,
    {
        text.push(cell.zerowidth[i]);
        i += 1;
        assert(cell.zerowidth@.take(i as int) =~= cell.zerowidth@.take(i - 1).push(
            cell.zerowidth@[i - 1],
        ));
    }
    assert(cell.zerowidth@.take(i as int) =~= cell.zerowidth@);
    assert(text@ =~= old(text)@ + copied(*cell));
}

fn row_text(cells: &TerminalRow, from: usize, to: usize) -> (text: Vec<char>)
    requires
        from <= to,
    ensures
        text@ == copied_cells(cells@, from as int, to as int),
{
    let mut text: Vec<char> = Vec::new();
    let mut column: usize = from;
    while column < to
        invariant
            from <= column <= to,
            text@ == copied_cells(cells@, from as int, column as int),
        decreases to - column,
    {
        if column < cells.len() {
            push_cell_text(&mut text, &cells[column]);
        } else {
            assert(text@ + Seq::<char>::empty() =~= text@);
        }
        column += 1;
    }
    text
}

/// The text that a selection copies: rows without the spaces that pad them,
/// broken into lines where the terminal broke them.
pub fn selected_terminal_text(snapshot: &TerminalSnapshot, selection: TerminalSelection) -> (text:
    String)
    requires
        snapshot.wf(),
    ensures
        text@ == selected_text(*snapshot, selection),
{
    let mut text: String = String::new();
    let (start, end): (TerminalCellPosition, TerminalCellPosition) = match selection_bounds(
        snapshot,
        selection,
    ) {
        Some(bounds) => bounds,
        None => {
            return text;
        },
    };
    let columns: usize = snapshot.size.columns;
    proof {
        lemma_selected_cells_are_inside(*snapshot, selection);
        let cells = selected_cells(*snapshot, selection)->0;
        lemma_position_bounds(*snapshot, cells.0);
        lemma_position_bounds(*snapshot, cells.1 - 1);
        lemma_order(start, end, cells.0, cells.1 - 1, columns as int);
    }
    let mut row: i32 = start.row;
    while row <= end.row
        invariant
            snapshot.wf(),
            columns == snapshot.size.columns,
            columns > 0,
            start.row <= row <= end.row + 1,
            end.row < i32::MAX,
            start.column < columns,
            end.column < columns,
            at_or_before(start, end),
            text@ =~= copied_rows(*snapshot, start, end, row - 1),
        decreases end.row + 1 - row,
    {
        if let Some(cells) = snapshot.relative_row(row) {
            let from: usize = if row == start.row {
                start.column
            } else {
                0
            };
            let to: usize = if row == end.row {
                end.column + 1
            } else {
                columns
            };
            let mut line: Vec<char> = row_text(cells, from, to);
            trim_padding(&mut line);
            let ghost before = text@;
            let mut i: usize = 0;
            while i < line.len()
                invariant
                    i <= line.len(),
                    text@ =~= before + line@.take(i as int),
                decreases line.len() - i,
            {
                text.push(line[i]);
                i += 1;
                assert(line@.take(i as int) =~= line@.take(i - 1).push(line@[i - 1]));
            }
            assert(line@.take(i as int) =~= line@);
            let wrapped: bool = columns <= cells.len() && cells[columns - 1].flags.wrapline;
            if row != end.row && !wrapped {
                text.push('\n');
            }
        }
        assert(text@ =~= copied_rows(*snapshot, start, end, row - 1) + copied_row(
            *snapshot,
            start,
            end,
            row as int,
        ));
        row += 1;
    }
    text
}

proof fn lemma_skip_fillers_bounds(snapshot: TerminalSnapshot, start: int, end: int)
    requires
        start <= end,
    ensures
        start <= skip_fillers(snapshot, start, end) <= end,
        skip_fillers(snapshot, start, end) < end ==> !is_filler(
            snapshot,
            skip_fillers(snapshot, start, end),
        ),
    decreases end - start,
{
    if start < end && is_filler(snapshot, start) {
        lemma_skip_fillers_bounds(snapshot, start + 1, end);
    }
}

proof fn lemma_base_bounds(snapshot: TerminalSnapshot, index: int)
    ensures
        base_of(snapshot, index) <= index,
        !is_second_half(snapshot, base_of(snapshot, index)),
        first_cell(snapshot) <= index ==> first_cell(snapshot) <= base_of(snapshot, index),
        base_of(snapshot, index) == index || is_wide(snapshot, base_of(snapshot, index)),
    decreases index - first_cell(snapshot),
{
    if is_second_half(snapshot, index) {
        lemma_base_bounds(snapshot, index - 1);
    }
}

/// A selection covers cells at hand only, and its first cell comes before its
/// end.
pub proof fn lemma_selected_cells_are_inside(
    snapshot: TerminalSnapshot,
    selection: TerminalSelection,
)
    requires
        snapshot.wf(),
        selected_cells(snapshot, selection) is Some,
    ensures
        snapshot.size.columns > 0,
        ({
            let cells = selected_cells(snapshot, selection)->0;
            first_cell(snapshot) <= cells.0 < cells.1 <= end_cell(snapshot)
        }),
{
    lemma_cells_fit(snapshot);
    let columns = snapshot.size.columns as int;
    let anchor = boundary(selection.anchor, columns);
    let head = boundary(selection.head, columns);
    let low = if anchor <= head {
        anchor
    } else {
        head
    };
    let high = if anchor <= head {
        head
    } else {
        anchor
    };
    let start = crate::arith::clamped(low, first_cell(snapshot), end_cell(snapshot));
    let end = crate::arith::clamped(high, first_cell(snapshot), end_cell(snapshot));
    lemma_skip_fillers_bounds(snapshot, start, end);
    lemma_base_bounds(snapshot, skip_fillers(snapshot, start, end));
    if columns == 0 {
        assert(first_cell(snapshot) == 0 && end_cell(snapshot) == 0) by (nonlinear_arith)
            requires
                columns == 0,
                columns == snapshot.size.columns,
                first_cell(snapshot) == -(snapshot.rows_before.len() as int)
                    * snapshot.size.columns,
                end_cell(snapshot) == (snapshot.size.lines + snapshot.rows_after.len())
                    * snapshot.size.columns,
        ;
    }
}

/// Moves both ends of a selection by a number of rows.
pub fn shift_terminal_selection_rows(selection: &mut TerminalSelection, delta: i64)
    ensures
        *final(selection) == shifted(*old(selection), delta as int),
{
    let rows: i32 = clamp_to_i32(delta);
    selection.anchor.position.row = saturating_add_i32(selection.anchor.position.row, rows);
    selection.head.position.row = saturating_add_i32(selection.head.position.row, rows);
}

pub open spec fn shifted_endpoint(
    endpoint: TerminalSelectionEndpoint,
    delta: int,
) -> TerminalSelectionEndpoint {
    TerminalSelectionEndpoint {
        position: TerminalCellPosition {
            row: crate::arith::clamped_i32(
                endpoint.position.row + crate::arith::clamped_i32(delta),
            ) as i32,
            column: endpoint.position.column,
        },
        side: endpoint.side,
    }
}

/// A selection moved by a number of rows, as far as row coordinates go.
pub open spec fn shifted(selection: TerminalSelection, delta: int) -> TerminalSelection {
    TerminalSelection {
        terminal_id: selection.terminal_id,
        anchor: shifted_endpoint(selection.anchor, delta),
        head: shifted_endpoint(selection.head, delta),
    }
}

/// The selection after the viewport of a terminal moved: it stays on the same
/// rows of text, so it moves by as many rows as the viewport did.
pub open spec fn following_viewport(
    selection: Option<TerminalSelection>,
    terminal_id: TerminalId,
    previous: TerminalSnapshot,
    next: TerminalSnapshot,
) -> Option<TerminalSelection> {
    match selection {
        Some(selection) if selection.terminal_id == terminal_id => Some(
            shifted(
                selection,
                crate::arith::clamped_i64(next.viewport_position - previous.viewport_position),
            ),
        ),
        _ => selection,
    }
}

pub fn shift_selection_for_viewport(
    selection: &mut Option<TerminalSelection>,
    terminal_id: TerminalId,
    previous: &TerminalSnapshot,
    next: &TerminalSnapshot,
)
    ensures
        *final(selection) == following_viewport(*old(selection), terminal_id, *previous, *next),
{
    if let Some(current) = *selection {
        if current.terminal_id == terminal_id {
            let mut moved = current;
            let delta: i64 = saturating_sub_i64(next.viewport_position, previous.viewport_position);
            shift_terminal_selection_rows(&mut moved, delta);
            *selection = Some(moved);
        }
    }
}

/// It makes no difference from which end a selection was drawn.
pub proof fn law_direction_does_not_matter(
    snapshot: TerminalSnapshot,
    selection: TerminalSelection,
)
    ensures
        selected_cells(snapshot, selection) == selected_cells(
            snapshot,
            TerminalSelection { anchor: selection.head, head: selection.anchor, ..selection },
        ),
        selected_text(snapshot, selection) == selected_text(
            snapshot,
            TerminalSelection { anchor: selection.head, head: selection.anchor, ..selection },
        ),
{
}

/// A cell that holds a wide character is no spacer, unless it is the right half
/// of another.
pub open spec fn bases_are_no_fillers(snapshot: TerminalSnapshot) -> bool {
    forall|index: int| #[trigger] is_wide(snapshot, index) ==> !is_filler(snapshot, index)
}

/// The first selected cell, where it exists, holds the base of a character:
/// no spacer and no right half of a wide character.
pub proof fn law_selection_starts_on_a_character(
    snapshot: TerminalSnapshot,
    selection: TerminalSelection,
)
    requires
        snapshot.wf(),
        bases_are_no_fillers(snapshot),
        selected_cells(snapshot, selection) is Some,
    ensures
        ({
            let cells = selected_cells(snapshot, selection)->0;
            !is_spacer(snapshot, cells.0) && !is_leading_spacer(snapshot, cells.0)
        }),
{
    lemma_selected_cells_are_inside(snapshot, selection);
    let columns = snapshot.size.columns as int;
    let anchor = boundary(selection.anchor, columns);
    let head = boundary(selection.head, columns);
    let low = if anchor <= head {
        anchor
    } else {
        head
    };
    let high = if anchor <= head {
        head
    } else {
        anchor
    };
    lemma_cells_fit(snapshot);
    let start = crate::arith::clamped(low, first_cell(snapshot), end_cell(snapshot));
    let end = crate::arith::clamped(high, first_cell(snapshot), end_cell(snapshot));
    lemma_skip_fillers_bounds(snapshot, start, end);
    let kept = skip_fillers(snapshot, start, end);
    lemma_base_bounds(snapshot, kept);
    if kept >= end {
        assert(settled_end(snapshot, kept, end) <= kept);
    }
}

/// An edge selects nothing: a selection that ends where it starts is empty.
pub proof fn law_click_selects_nothing(
    snapshot: TerminalSnapshot,
    previous: Option<TerminalSelection>,
    terminal_id: TerminalId,
    endpoint: TerminalSelectionEndpoint,
)
    ensures
        selected_cells(
            snapshot,
            selection_after_click(previous, terminal_id, endpoint, false),
        ) is None,
        selected_text(
            snapshot,
            selection_after_click(previous, terminal_id, endpoint, false),
        ).len() == 0,
{
}

/// Scrolling there and back leaves a selection where it was, as long as its
/// rows stay addressable on the way.
pub proof fn law_scrolling_back_restores_the_selection(
    selection: TerminalSelection,
    previous: TerminalSnapshot,
    next: TerminalSnapshot,
)
    requires
        i32::MIN < next.viewport_position - previous.viewport_position <= i32::MAX,
        i32::MIN <= selection.anchor.position.row + next.viewport_position
            - previous.viewport_position <= i32::MAX,
        i32::MIN <= selection.head.position.row + next.viewport_position
            - previous.viewport_position <= i32::MAX,
    ensures
        following_viewport(
            following_viewport(Some(selection), selection.terminal_id, previous, next),
            selection.terminal_id,
            next,
            previous,
        ) == Some(selection),
{
}

/// Where no character is wide, a selection covers exactly the cells between its
/// two edges: a left side counts the cell in, a right side leaves it behind, and
/// cells that are not at hand do not count.
pub proof fn law_selections_cover_the_cells_between(
    snapshot: TerminalSnapshot,
    selection: TerminalSelection,
)
    requires
        snapshot.wf(),
        forall|index: int| #[trigger]
            cell_at(snapshot, index) is Some ==> !cell_at(snapshot, index)->0.flags.wide
                && !cell_at(snapshot, index)->0.flags.wide_spacer
                && !cell_at(snapshot, index)->0.flags.leading_wide_spacer,
    ensures
        ({
            let columns = snapshot.size.columns as int;
            let edge = |endpoint: TerminalSelectionEndpoint|
                endpoint.position.row * columns + endpoint.position.column + (if endpoint.side
                    == TerminalSelectionSide::Right {
                    1int
                } else {
                    0
                });
            let a = edge(selection.anchor);
            let b = edge(selection.head);
            let first = -(snapshot.rows_before.len() as int) * columns;
            let end = (snapshot.size.lines + snapshot.rows_after.len()) * columns;
            let inside = |index: int|
                if index < first {
                    first
                } else if index > end {
                    end
                } else {
                    index
                };
            let low = inside(if a <= b { a } else { b });
            let high = inside(if a <= b { b } else { a });
            selected_cells(snapshot, selection) == if low < high {
                Some((low, high))
            } else {
                None
            }
        }),
{
    lemma_cells_fit(snapshot);
}

/// A wide character is selected whole or not at all.
pub proof fn law_wide_characters_are_selected_whole(
    snapshot: TerminalSnapshot,
    selection: TerminalSelection,
    base: int,
)
    requires
        snapshot.wf(),
        selected_cells(snapshot, selection) is Some,
        first_cell(snapshot) <= base,
        base + 1 < end_cell(snapshot),
        is_wide(snapshot, base),
        !is_leading_spacer(snapshot, base),
        !is_wide(snapshot, base - 1),
        is_spacer(snapshot, base + 1),
        !is_leading_spacer(snapshot, base + 1),
    ensures
        ({
            let (first, past) = selected_cells(snapshot, selection)->0;
            first <= base < past <==> first <= base + 1 < past
        }),
{
    lemma_selected_cells_are_inside(snapshot, selection);
    lemma_cells_fit(snapshot);
    let columns = snapshot.size.columns as int;
    let anchor = boundary(selection.anchor, columns);
    let head = boundary(selection.head, columns);
    let low = if anchor <= head {
        anchor
    } else {
        head
    };
    let high = if anchor <= head {
        head
    } else {
        anchor
    };
    let start = crate::arith::clamped(low, first_cell(snapshot), end_cell(snapshot));
    let end = crate::arith::clamped(high, first_cell(snapshot), end_cell(snapshot));
    lemma_skip_fillers_bounds(snapshot, start, end);
    lemma_base_bounds(snapshot, skip_fillers(snapshot, start, end));
    assert(is_second_half(snapshot, base + 1));
}

/// The characters of the cells numbered from `from` up to `to`.
pub open spec fn text_between(snapshot: TerminalSnapshot, from: int, to: int) -> Seq<char>
    decreases to - from,
{
    if to <= from {
        Seq::empty()
    } else {
        text_between(snapshot, from, to - 1) + match cell_at(snapshot, to - 1) {
            Some(cell) => if cell.flags.wide_spacer || cell.flags.leading_wide_spacer {
                Seq::empty()
            } else {
                seq![cell.character] + cell.zerowidth@
            },
            None => Seq::empty(),
        }
    }
}

/// A row is full, runs on in the next, and ends in something else than a blank.
pub open spec fn runs_on(snapshot: TerminalSnapshot, row: int) -> bool {
    let columns = snapshot.size.columns as int;
    &&& snapshot.relative(row) is Some
    &&& snapshot.relative(row)->0.len() == columns
    &&& snapshot.relative(row)->0[columns - 1].flags.wrapline
    &&& ends_in_text(snapshot.relative(row)->0[columns - 1])
}

/// A cell holds a character that is no blank.
pub open spec fn ends_in_text(cell: TerminalCell) -> bool {
    &&& !cell.flags.wide_spacer
    &&& !cell.flags.leading_wide_spacer
    &&& cell.character != ' '
    &&& cell.zerowidth@.len() == 0
}

proof fn lemma_cell_numbers(snapshot: TerminalSnapshot, row: int, column: int)
    requires
        0 <= column < snapshot.size.columns,
    ensures
        ({
            let columns = snapshot.size.columns as int;
            &&& (row * columns + column) / columns == row
            &&& (row * columns + column) % columns == column
            &&& snapshot.relative(row) is Some && column < snapshot.relative(row)->0.len()
                ==> cell_at(snapshot, row * columns + column) == Some(
                snapshot.relative(row)->0[column],
            )
        }),
{
    let columns = snapshot.size.columns as int;
    vstd::arithmetic::div_mod::lemma_fundamental_div_mod_converse(
        row * columns + column,
        columns,
        row,
        column,
    );
}

proof fn lemma_row_is_linear(snapshot: TerminalSnapshot, row: int, from: int, to: int)
    requires
        snapshot.relative(row) is Some,
        snapshot.relative(row)->0.len() == snapshot.size.columns,
        0 <= from,
        to <= snapshot.size.columns,
    ensures
        copied_cells(snapshot.relative(row)->0, from, to) == text_between(
            snapshot,
            row * snapshot.size.columns + from,
            row * snapshot.size.columns + to,
        ),
    decreases to - from,
{
    if from < to {
        lemma_row_is_linear(snapshot, row, from, to - 1);
        lemma_cell_numbers(snapshot, row, to - 1);
    }
}

proof fn lemma_text_between_joins(snapshot: TerminalSnapshot, from: int, middle: int, to: int)
    requires
        from <= middle <= to,
    ensures
        text_between(snapshot, from, to) == text_between(snapshot, from, middle) + text_between(
            snapshot,
            middle,
            to,
        ),
    decreases to - middle,
{
    if middle < to {
        lemma_text_between_joins(snapshot, from, middle, to - 1);
        assert(text_between(snapshot, from, to) =~= text_between(snapshot, from, middle)
            + text_between(snapshot, middle, to));
    } else {
        assert(text_between(snapshot, from, to) =~= text_between(snapshot, from, middle)
            + text_between(snapshot, middle, to));
    }
}

proof fn lemma_text_needs_no_trimming(cells: Seq<TerminalCell>, from: int, to: int)
    requires
        from < to <= cells.len(),
        ends_in_text(cells[to - 1]),
    ensures
        without_padding(copied_cells(cells, from, to)) == copied_cells(cells, from, to),
{
    let cell = cells[to - 1];
    let text = copied_cells(cells, from, to);
    assert(copied(cell) =~= seq![cell.character]);
    assert(text.last() == cell.character);
}

proof fn lemma_rows_are_linear(
    snapshot: TerminalSnapshot,
    start: TerminalCellPosition,
    end: TerminalCellPosition,
    row: int,
)
    requires
        start.row <= row <= end.row,
        0 <= start.column < snapshot.size.columns,
        0 <= end.column < snapshot.size.columns,
        at_or_before(start, end),
        forall|r: int| start.row <= r < end.row ==> #[trigger] runs_on(snapshot, r),
        snapshot.relative(end.row as int) is Some,
        snapshot.relative(end.row as int)->0.len() == snapshot.size.columns,
        ends_in_text(snapshot.relative(end.row as int)->0[end.column as int]),
    ensures
        copied_rows(snapshot, start, end, row) == text_between(
            snapshot,
            start.row * snapshot.size.columns + start.column,
            if row == end.row {
                row * snapshot.size.columns + end.column + 1
            } else {
                (row + 1) * snapshot.size.columns
            },
        ),
    decreases row - start.row,
{
    let columns = snapshot.size.columns as int;
    let first = start.row * columns + start.column;
    let cells = snapshot.relative(row)->0;
    let from = if row == start.row {
        start.column as int
    } else {
        0
    };
    let to = if row == end.row {
        end.column + 1
    } else {
        columns
    };
    assert(row == end.row || runs_on(snapshot, row));
    lemma_row_is_linear(snapshot, row, from, to);
    lemma_text_needs_no_trimming(cells, from, to);
    assert(copied_row(snapshot, start, end, row) =~= copied_cells(cells, from, to));
    assert((row + 1) * columns == row * columns + columns) by (nonlinear_arith);
    if row == start.row {
        assert(copied_rows(snapshot, start, end, row - 1) =~= Seq::<char>::empty());
        assert(copied_rows(snapshot, start, end, row) =~= copied_cells(cells, from, to));
    } else {
        lemma_rows_are_linear(snapshot, start, end, row - 1);
        assert((row - 1 + 1) * columns == row * columns) by (nonlinear_arith);
        assert(start.row * columns + columns <= row * columns) by (nonlinear_arith)
            requires
                start.row < row,
                columns > 0,
        ;
        lemma_text_between_joins(snapshot, first, row * columns, row * columns + to);
    }
}

/// Where rows run on and have no blanks at their end, the copied text is the
/// text of all the selected cells, in order: each row from its first column on,
/// whatever the column that the selection starts in.
pub proof fn law_every_selected_cell_is_copied(
    snapshot: TerminalSnapshot,
    selection: TerminalSelection,
)
    requires
        snapshot.wf(),
        selected_cells(snapshot, selection) is Some,
        ({
            let (first, past) = selected_cells(snapshot, selection)->0;
            let columns = snapshot.size.columns as int;
            let last_row = (past - 1) / columns;
            &&& forall|row: int| first / columns <= row < last_row ==> #[trigger] runs_on(
                snapshot,
                row,
            )
            &&& snapshot.relative(last_row) is Some
            &&& snapshot.relative(last_row)->0.len() == columns
            &&& ends_in_text(snapshot.relative(last_row)->0[(past - 1) % columns])
        }),
    ensures
        ({
            let (first, past) = selected_cells(snapshot, selection)->0;
            selected_text(snapshot, selection) == text_between(snapshot, first, past)
        }),
{
    lemma_selected_cells_are_inside(snapshot, selection);
    let (first, past) = selected_cells(snapshot, selection)->0;
    let columns = snapshot.size.columns as int;
    lemma_position_bounds(snapshot, first);
    lemma_position_bounds(snapshot, past - 1);
    let start = position_at(first, columns);
    let end = position_at(past - 1, columns);
    assert(locates(start, first, columns) && locates(end, past - 1, columns));
    lemma_order(start, end, first, past - 1, columns);
    vstd::arithmetic::div_mod::lemma_fundamental_div_mod(first, columns);
    vstd::arithmetic::div_mod::lemma_fundamental_div_mod(past - 1, columns);
    assert(start.row * columns + start.column == first) by (nonlinear_arith)
        requires
            first == columns * (first / columns) + first % columns,
            start.row == first / columns,
            start.column == first % columns,
    ;
    assert(end.row * columns + end.column == past - 1) by (nonlinear_arith)
        requires
            past - 1 == columns * ((past - 1) / columns) + (past - 1) % columns,
            end.row == (past - 1) / columns,
            end.column == (past - 1) % columns,
    ;
    lemma_rows_are_linear(snapshot, start, end, end.row as int);
}

/// A row between the first and the last of a selection is copied from its first
/// column to its last: without the spaces at its end, and with a line break
/// behind it unless it runs on. The first row starts where the selection does,
/// the last one ends where it does and has no break.
pub proof fn law_rows_are_copied_without_padding(
    snapshot: TerminalSnapshot,
    start: TerminalCellPosition,
    end: TerminalCellPosition,
    row: int,
)
    requires
        snapshot.size.columns > 0,
        start.row <= row <= end.row,
        start.column < snapshot.size.columns,
        end.column < snapshot.size.columns,
        at_or_before(start, end),
        snapshot.relative(row) is Some,
        snapshot.relative(row)->0.len() == snapshot.size.columns,
    ensures
        ({
            let columns = snapshot.size.columns as int;
            let from = if row == start.row {
                row * columns + start.column
            } else {
                row * columns
            };
            let to = if row == end.row {
                row * columns + end.column + 1
            } else {
                row * columns + columns
            };
            let text = text_between(snapshot, from, to);
            let broken = row < end.row && !snapshot.relative(row)->0[columns - 1].flags.wrapline;
            let line = copied_row(snapshot, start, end, row);
            let kept = if broken {
                line.drop_last()
            } else {
                line
            };
            &&& broken ==> line.len() > 0 && line.last() == '\n'
            &&& kept.len() <= text.len()
            &&& kept == text.take(kept.len() as int)
            &&& forall|i: int| kept.len() <= i < text.len() ==> #[trigger] text[i] == ' '
            &&& kept.len() > 0 ==> kept.last() != ' '
        }),
{
    let columns = snapshot.size.columns as int;
    let cells = snapshot.relative(row)->0;
    let from = if row == start.row {
        start.column as int
    } else {
        0
    };
    let to = if row == end.row {
        end.column + 1
    } else {
        columns
    };
    lemma_row_is_linear(snapshot, row, from, to);
    let text = copied_cells(cells, from, to);
    lemma_padding(text);
    let line = copied_row(snapshot, start, end, row);
    let kept = without_padding(text);
    let broken = row < end.row && !cells[columns - 1].flags.wrapline;
    if broken {
        assert(line =~= kept.push('\n'));
        assert(line.drop_last() =~= kept);
    } else {
        assert(line =~= kept);
    }
}

proof fn lemma_padding(text: Seq<char>)
    ensures
        without_padding(text).len() <= text.len(),
        without_padding(text) == text.take(without_padding(text).len() as int),
        forall|i: int|
            without_padding(text).len() <= i < text.len() ==> #[trigger] text[i] == ' ',
        without_padding(text).len() > 0 ==> without_padding(text).last() != ' ',
    decreases text.len(),
{
    if text.len() > 0 && text.last() == ' ' {
        let shorter = text.drop_last();
        lemma_padding(shorter);
        let kept = without_padding(text);
        assert(kept =~= text.take(kept.len() as int));
        assert forall|i: int| kept.len() <= i < text.len() implies #[trigger] text[i] == ' ' by {
            if i < shorter.len() {
                assert(shorter[i] == ' ');
            }
        }
    } else {
        assert(text =~= text.take(text.len() as int));
    }
}

/// Nothing is copied where nothing is selected, and rows follow each other in
/// the order of the grid.
pub proof fn law_copied_rows_follow_each_other(
    snapshot: TerminalSnapshot,
    selection: TerminalSelection,
    start: TerminalCellPosition,
    end: TerminalCellPosition,
    row: int,
)
    requires
        start.row <= row,
    ensures
        selected_cells(snapshot, selection) is None ==> selected_text(snapshot, selection).len()
            == 0,
        copied_rows(snapshot, start, end, start.row - 1).len() == 0,
        copied_rows(snapshot, start, end, row) == copied_rows(snapshot, start, end, row - 1)
            + copied_row(snapshot, start, end, row),
{
}

/// A position lies in a selection exactly where the number of its cell does.
pub proof fn law_positions_are_selected_by_their_number(
    snapshot: TerminalSnapshot,
    selection: TerminalSelection,
    position: TerminalCellPosition,
)
    requires
        snapshot.wf(),
        selected_cells(snapshot, selection) is Some,
        position.column < snapshot.size.columns,
    ensures
        selected_positions(snapshot, selection) is Some,
        ({
            let (start, end) = selected_positions(snapshot, selection)->0;
            let (first, past) = selected_cells(snapshot, selection)->0;
            let number = position.row * snapshot.size.columns + position.column;
            at_or_before(start, position) && at_or_before(position, end) <==> first <= number
                < past
        }),
{
    lemma_selected_cells_are_inside(snapshot, selection);
    let (first, past) = selected_cells(snapshot, selection)->0;
    let columns = snapshot.size.columns as int;
    lemma_position_bounds(snapshot, first);
    lemma_position_bounds(snapshot, past - 1);
    let number = position.row * columns + position.column;
    lemma_order(position_at(first, columns), position, first, number, columns);
    lemma_order(position, position_at(past - 1, columns), number, past - 1, columns);
}

/// A click starts a selection where it lands; with shift it moves the head of
/// the selection in the same terminal and leaves its anchor.
pub proof fn law_clicks_start_or_extend(
    previous: TerminalSelection,
    terminal_id: TerminalId,
    endpoint: TerminalSelectionEndpoint,
)
    ensures
        selection_after_click(Some(previous), previous.terminal_id, endpoint, true) == (
        TerminalSelection {
            terminal_id: previous.terminal_id,
            anchor: previous.anchor,
            head: endpoint,
        }),
        selection_after_click(Some(previous), terminal_id, endpoint, false) == (
        TerminalSelection { terminal_id, anchor: endpoint, head: endpoint }),
        terminal_id != previous.terminal_id ==> selection_after_click(
            Some(previous),
            terminal_id,
            endpoint,
            true,
        ) == (TerminalSelection { terminal_id, anchor: endpoint, head: endpoint }),
        selection_after_click(None, terminal_id, endpoint, true) == (TerminalSelection {
            terminal_id,
            anchor: endpoint,
            head: endpoint,
        }),
{
}

/// A selection moves down by the rows that the viewport moved back into the
/// history, so that it stays on its text; its columns and sides stay, and so do
/// the selections of other terminals.
pub proof fn law_selections_stay_on_their_text(
    selection: TerminalSelection,
    terminal_id: TerminalId,
    previous: TerminalSnapshot,
    next: TerminalSnapshot,
)
    requires
        i32::MIN <= next.viewport_position - previous.viewport_position <= i32::MAX,
        i32::MIN <= selection.anchor.position.row + next.viewport_position
            - previous.viewport_position <= i32::MAX,
        i32::MIN <= selection.head.position.row + next.viewport_position
            - previous.viewport_position <= i32::MAX,
    ensures
        ({
            let moved = following_viewport(Some(selection), terminal_id, previous, next);
            let rows = next.viewport_position - previous.viewport_position;
            &&& moved is Some
            &&& selection.terminal_id != terminal_id ==> moved == Some(selection)
            &&& selection.terminal_id == terminal_id ==> {
                &&& moved->0.terminal_id == terminal_id
                &&& moved->0.anchor.position.row == selection.anchor.position.row + rows
                &&& moved->0.head.position.row == selection.head.position.row + rows
                &&& moved->0.anchor.position.column == selection.anchor.position.column
                &&& moved->0.head.position.column == selection.head.position.column
                &&& moved->0.anchor.side == selection.anchor.side
                &&& moved->0.head.side == selection.head.side
            }
        }),
        following_viewport(None, terminal_id, previous, next) is None,
{
}

/// Cells are numbered row by row.
pub proof fn law_cells_are_numbered_row_by_row(
    position: TerminalCellPosition,
    index: int,
    columns: int,
)
    requires
        columns > 0,
    ensures
        locates(position, index, columns) <==> position.row * columns + position.column == index
            && position.column < columns,
{
    vstd::arithmetic::div_mod::lemma_fundamental_div_mod(index, columns);
    vstd::arithmetic::div_mod::lemma_mod_bound(index, columns);
    assert(columns * (index / columns) == (index / columns) * columns) by (nonlinear_arith);
    if position.row * columns + position.column == index && position.column < columns {
        vstd::arithmetic::div_mod::lemma_fundamental_div_mod_converse(
            index,
            columns,
            position.row as int,
            position.column as int,
        );
    }
}

} // verus!
