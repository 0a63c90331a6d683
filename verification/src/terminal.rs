//! The grid of a terminal as one snapshot shows it.

use crate::ids::TerminalId;
use std::sync::Arc;
use vstd::prelude::*;

verus! {

/// `Arc::clone` hands out another pointer to the same value.
#[verifier::external_body]
pub(crate) fn share<T>(value: &Arc<T>) -> (other: Arc<T>)
    ensures
        other == *value,
{
    Arc::clone(value)
}

/// A colour as the terminal program chose it.
#[derive(Clone, Copy, PartialEq, Eq, Structural, Debug)]
pub enum TerminalColor {
    Rgb { red: u8, green: u8, blue: u8 },
    Named { value: u16 },
    Indexed { index: u8 },
}

/// The name of the default foreground colour.
pub const NAMED_FOREGROUND: u16 = 256;

/// The name of the default background colour.
pub const NAMED_BACKGROUND: u16 = 257;

/// How a cell is drawn and which part of a character it holds.
///
/// A wide character takes two cells: its base and, to the right, a spacer.
/// Where it would not fit at the end of a line, a leading spacer fills the
/// last cell and the character starts on the next line.
#[derive(Clone, Copy, PartialEq, Eq, Structural, Debug)]
pub struct TerminalCellFlags {
    pub wide: bool,
    pub wide_spacer: bool,
    pub leading_wide_spacer: bool,
    pub wrapline: bool,
    pub inverse: bool,
    pub dim: bool,
    pub italic: bool,
    pub bold: bool,
    pub underline: bool,
    pub strike: bool,
}

/// One cell of the grid.
#[derive(Clone, Debug)]
pub struct TerminalCell {
    pub character: char,
    /// Combining characters drawn over `character`.
    pub zerowidth: Vec<char>,
    pub fg: TerminalColor,
    pub bg: TerminalColor,
    pub flags: TerminalCellFlags,
}

/// The contents of a cell.
#[verifier::ext_equal]
pub struct CellContents {
    pub character: char,
    pub zerowidth: Seq<char>,
    pub fg: TerminalColor,
    pub bg: TerminalColor,
    pub flags: TerminalCellFlags,
}

impl View for TerminalCell {
    type V = CellContents;

    open spec fn view(&self) -> CellContents {
        CellContents {
            character: self.character,
            zerowidth: self.zerowidth@,
            fg: self.fg,
            bg: self.bg,
            flags: self.flags,
        }
    }
}

impl CellContents {
    /// The characters that the cell shows, base first.
    pub open spec fn text(self) -> Seq<char> {
        seq![self.character] + self.zerowidth
    }
}

/// One row of cells, shared between the snapshots that show it.
pub type TerminalRow = Arc<Vec<TerminalCell>>;

/// The contents of a row.
pub open spec fn row_contents(row: TerminalRow) -> Seq<CellContents> {
    row@.map_values(|cell: TerminalCell| cell@)
}

#[derive(Clone, Copy, PartialEq, Eq, Structural, Debug)]
pub struct TerminalSize {
    pub columns: usize,
    pub lines: usize,
}

#[derive(Clone, Copy, PartialEq, Eq, Structural, Debug)]
pub struct TerminalCursor {
    pub row: usize,
    pub column: usize,
    pub visible: bool,
}

/// The modes that the terminal program switched on.
#[derive(Clone, Copy, PartialEq, Eq, Structural, Debug)]
pub struct TerminalModes {
    pub application_cursor: bool,
    pub bracketed_paste: bool,
    pub mouse_reporting: bool,
    pub mouse_motion: bool,
    pub mouse_drag: bool,
    pub sgr_mouse: bool,
    pub utf8_mouse: bool,
    pub alternate_screen: bool,
    pub alternate_scroll: bool,
}

/// What a terminal shows at one moment: the visible grid, some rows around it
/// and where the window stands in the history.
#[derive(Clone, Debug)]
pub struct TerminalSnapshot {
    pub terminal_id: TerminalId,
    pub size: TerminalSize,
    pub revision: u64,
    /// Rows between the visible grid and the live bottom, as the reader
    /// scrolled.
    pub viewport_position: i64,
    /// Rows between the visible grid and the live bottom, as the emulator
    /// counts them.
    pub display_offset: i64,
    pub history_len: usize,
    /// Rows between the last visible row and the newest row at hand.
    pub last_source_row: i64,
    /// The visible rows, top first.
    pub rows: Vec<TerminalRow>,
    /// Rows above the visible grid, oldest first.
    pub rows_before: Vec<TerminalRow>,
    /// Rows below the visible grid, nearest first.
    pub rows_after: Vec<TerminalRow>,
    pub cursor: TerminalCursor,
    pub modes: TerminalModes,
}

impl TerminalCellFlags {
    pub open spec fn none_spec() -> Self {
        TerminalCellFlags {
            wide: false,
            wide_spacer: false,
            leading_wide_spacer: false,
            wrapline: false,
            inverse: false,
            dim: false,
            italic: false,
            bold: false,
            underline: false,
            strike: false,
        }
    }

    pub fn none() -> (flags: Self)
        ensures
            flags == Self::none_spec(),
    {
        TerminalCellFlags {
            wide: false,
            wide_spacer: false,
            leading_wide_spacer: false,
            wrapline: false,
            inverse: false,
            dim: false,
            italic: false,
            bold: false,
            underline: false,
            strike: false,
        }
    }
}

impl TerminalModes {
    pub open spec fn none_spec() -> Self {
        TerminalModes {
            application_cursor: false,
            bracketed_paste: false,
            mouse_reporting: false,
            mouse_motion: false,
            mouse_drag: false,
            sgr_mouse: false,
            utf8_mouse: false,
            alternate_screen: false,
            alternate_scroll: false,
        }
    }

    pub fn none() -> (modes: Self)
        ensures
            modes == Self::none_spec(),
    {
        TerminalModes {
            application_cursor: false,
            bracketed_paste: false,
            mouse_reporting: false,
            mouse_motion: false,
            mouse_drag: false,
            sgr_mouse: false,
            utf8_mouse: false,
            alternate_screen: false,
            alternate_scroll: false,
        }
    }
}

impl TerminalSize {
    pub fn new(columns: usize, lines: usize) -> (size: Self)
        ensures
            size == (TerminalSize { columns, lines }),
    {
        TerminalSize { columns, lines }
    }
}

/// An empty cell in the default colours.
pub open spec fn blank_contents() -> CellContents {
    CellContents {
        character: ' ',
        zerowidth: Seq::empty(),
        fg: TerminalColor::Named { value: NAMED_FOREGROUND },
        bg: TerminalColor::Named { value: NAMED_BACKGROUND },
        flags: TerminalCellFlags::none_spec(),
    }
}

impl TerminalCell {
    pub fn blank() -> (cell: Self)
        ensures
            cell@ == blank_contents(),
    {
        TerminalCell {
            character: ' ',
            zerowidth: Vec::new(),
            fg: TerminalColor::Named { value: NAMED_FOREGROUND },
            bg: TerminalColor::Named { value: NAMED_BACKGROUND },
            flags: TerminalCellFlags::none(),
        }
    }
}

/// Whether two sequences of characters are the same.
pub fn same_chars(a: &Vec<char>, b: &Vec<char>) -> (same: bool)
    ensures
        same == (a@ == b@),
{
    if a.len() != b.len() {
        return false;
    }
    let mut i: usize = 0;
    while i < a.len()
        invariant
            i <= a.len(),
            a.len() == b.len(),
            a@.take(i as int) =~= b@.take(i as int),
        decreases a.len() - i,
    {
        if a[i] != b[i] {
            assert(a@[i as int] != b@[i as int]);
            return false;
        }
        i += 1;
        assert(a@.take(i as int) =~= a@.take(i - 1).push(a@[i - 1]));
        assert(b@.take(i as int) =~= b@.take(i - 1).push(b@[i - 1]));
    }
    assert(a@.take(i as int) =~= a@);
    assert(b@.take(i as int) =~= b@);
    true
}

/// Whether two cells show the same.
pub fn same_cell(a: &TerminalCell, b: &TerminalCell) -> (same: bool)
    ensures
        same == (a@ == b@),
{
    a.character == b.character && a.fg == b.fg && a.bg == b.bg && a.flags == b.flags && same_chars(
        &a.zerowidth,
        &b.zerowidth,
    )
}

/// Whether two rows show the same.
pub fn same_row(a: &TerminalRow, b: &TerminalRow) -> (same: bool)
    ensures
        same == (row_contents(*a) == row_contents(*b)),
{
    if a.len() != b.len() {
        assert(row_contents(*a).len() != row_contents(*b).len());
        return false;
    }
    let mut i: usize = 0;
    while i < a.len()
        invariant
            i <= a.len(),
            a.len() == b.len(),
            forall|j: int| 0 <= j < i ==> a@[j]@ == b@[j]@,
        decreases a.len() - i,
    {
        if !same_cell(&a[i], &b[i]) {
            assert(row_contents(*a)[i as int] != row_contents(*b)[i as int]);
            return false;
        }
        i += 1;
    }
    assert(row_contents(*a) =~= row_contents(*b));
    true
}

impl TerminalSnapshot {
    /// Row counts and columns that the signed row coordinates can address.
    pub open spec fn wf(self) -> bool {
        &&& self.size.columns <= i32::MAX
        &&& self.rows_before.len() <= i32::MAX
        &&& self.size.lines + self.rows_after.len() <= i32::MAX
    }

    /// The row of cells at a row coordinate: the visible grid starts at zero,
    /// rows above it are negative.
    pub open spec fn relative_shared(self, row: int) -> Option<TerminalRow> {
        let before = self.rows_before.len() as int;
        let lines = self.size.lines as int;
        if -before <= row < 0 {
            Some(self.rows_before@[before + row])
        } else if 0 <= row < lines && row < self.rows.len() {
            Some(self.rows@[row])
        } else if lines <= row < lines + self.rows_after.len() {
            Some(self.rows_after@[row - lines])
        } else {
            None
        }
    }

    pub open spec fn relative(self, row: int) -> Option<Seq<TerminalCell>> {
        match self.relative_shared(row) {
            Some(cells) => Some(cells@),
            None => None,
        }
    }

    /// The shared row at a row coordinate.
    pub fn relative_row(&self, row: i32) -> (cells: Option<&TerminalRow>)
        requires
            self.wf(),
        ensures
            cells is Some <==> self.relative_shared(row as int) is Some,
            cells is Some ==> *cells->0 == self.relative_shared(row as int)->0,
    {
        if row < 0 {
            let depth: usize = (-(row as i64)) as usize;
            if depth <= self.rows_before.len() {
                return Some(&self.rows_before[self.rows_before.len() - depth]);
            }
            return None;
        }
        let index: usize = row as usize;
        if index < self.size.lines {
            if index < self.rows.len() {
                return Some(&self.rows[index]);
            }
            return None;
        }
        let below: usize = index - self.size.lines;
        if below < self.rows_after.len() {
            return Some(&self.rows_after[below]);
        }
        None
    }

    /// The cell of the visible grid at a row and column.
    pub open spec fn grid_cell(self, row: int, column: int) -> Option<TerminalCell> {
        if 0 <= row < self.rows.len() && 0 <= column < self.rows@[row].len() {
            Some(self.rows@[row]@[column])
        } else {
            None
        }
    }

    pub fn cell(&self, row: usize, column: usize) -> (cell: Option<&TerminalCell>)
        ensures
            cell is Some <==> self.grid_cell(row as int, column as int) is Some,
            cell is Some ==> *cell->0 == self.grid_cell(row as int, column as int)->0,
    {
        if row < self.rows.len() && column < self.rows[row].len() {
            Some(&self.rows[row][column])
        } else {
            None
        }
    }

    /// Where the cursor is drawn: inside the grid, and on the base of a wide
    /// character rather than on its spacer.
    pub open spec fn cursor_position(self) -> (nat, nat) {
        let row = if self.cursor.row < self.size.lines {
            self.cursor.row as int
        } else if self.size.lines > 0 {
            self.size.lines - 1
        } else {
            0
        };
        let column = if self.cursor.column < self.size.columns {
            self.cursor.column as int
        } else if self.size.columns > 0 {
            self.size.columns - 1
        } else {
            0
        };
        let on_spacer = match self.grid_cell(row, column) {
            Some(cell) => cell.flags.wide_spacer,
            None => false,
        };
        (
            row as nat,
            if on_spacer && column > 0 {
                (column - 1) as nat
            } else {
                column as nat
            },
        )
    }

    /// How many columns the cursor covers.
    pub open spec fn cursor_columns(self) -> nat {
        let position = self.cursor_position();
        match self.grid_cell(position.0 as int, position.1 as int) {
            Some(cell) => if cell.flags.wide {
                2
            } else {
                1
            },
            None => 1,
        }
    }

    /// A blank snapshot of a terminal.
    pub fn empty(terminal_id: TerminalId, size: TerminalSize) -> (snapshot: Self)
        ensures
            snapshot.terminal_id == terminal_id,
            snapshot.size == size,
            snapshot.revision == 0,
            snapshot.viewport_position == 0,
            snapshot.display_offset == 0,
            snapshot.history_len == 0,
            snapshot.last_source_row == 0,
            snapshot.rows_before.len() == 0,
            snapshot.rows_after.len() == 0,
            snapshot.rows.len() == size.lines,
            forall|row: int| #![trigger snapshot.rows@[row]]
                0 <= row < size.lines ==> row_contents(snapshot.rows@[row]) == Seq::new(
                    size.columns as nat,
                    |column: int| blank_contents(),
                ),
            snapshot.cursor == (TerminalCursor { row: 0, column: 0, visible: true }),
            snapshot.modes == TerminalModes::none_spec(),
    {
        let mut rows: Vec<TerminalRow> = Vec::new();
        let mut line: usize = 0;
        while line < size.lines
            invariant
                line <= size.lines,
                rows.len() == line,
                forall|row: int| #![trigger rows@[row]]
                    0 <= row < line ==> row_contents(rows@[row]) == Seq::new(
                        size.columns as nat,
                        |column: int| blank_contents(),
                    ),
            decreases size.lines - line,
        {
            let mut cells: Vec<TerminalCell> = Vec::new();
            let mut column: usize = 0;
            while column < size.columns
                invariant
                    column <= size.columns,
                    cells.len() == column,
                    forall|i: int| 0 <= i < column ==> #[trigger] cells@[i]@ == blank_contents(),
                decreases size.columns - column,
            {
                cells.push(TerminalCell::blank());
                column += 1;
            }
            let row = Arc::new(cells);
            assert(row_contents(row) =~= Seq::new(size.columns as nat, |column: int| blank_contents()));
            rows.push(row);
            line += 1;
        }
        TerminalSnapshot {
            terminal_id,
            size,
            revision: 0,
            viewport_position: 0,
            display_offset: 0,
            history_len: 0,
            last_source_row: 0,
            rows,
            rows_before: Vec::new(),
            rows_after: Vec::new(),
            cursor: TerminalCursor { row: 0, column: 0, visible: true },
            modes: TerminalModes::none(),
        }
    }
}

/// Where the cursor is drawn.
pub fn terminal_cursor_position(snapshot: &TerminalSnapshot) -> (position: (usize, usize))
    ensures
        (position.0 as nat, position.1 as nat) == snapshot.cursor_position(),
{
    let row: usize = if snapshot.cursor.row < snapshot.size.lines {
        snapshot.cursor.row
    } else {
        snapshot.size.lines.saturating_sub(1)
    };
    let mut column: usize = if snapshot.cursor.column < snapshot.size.columns {
        snapshot.cursor.column
    } else {
        snapshot.size.columns.saturating_sub(1)
    };
    if let Some(cell) = snapshot.cell(row, column) {
        if cell.flags.wide_spacer {
            column = column.saturating_sub(1);
        }
    }
    (row, column)
}

/// How many columns the cursor covers.
pub fn terminal_cursor_columns(snapshot: &TerminalSnapshot) -> (columns: usize)
    ensures
        columns == snapshot.cursor_columns(),
{
    let (row, column) = terminal_cursor_position(snapshot);
    match snapshot.cell(row, column) {
        Some(cell) => if cell.flags.wide {
            2
        } else {
            1
        },
        None => 1,
    }
}

/// The rows at hand are one list: those above the visible grid, then the grid,
/// then those below; the coordinate of the first visible row is zero.
pub proof fn law_rows_are_one_list(snapshot: TerminalSnapshot, row: int)
    requires
        snapshot.rows.len() == snapshot.size.lines,
    ensures
        ({
            let all = snapshot.rows_before@ + snapshot.rows@ + snapshot.rows_after@;
            let index = row + snapshot.rows_before.len();
            &&& 0 <= index < all.len() ==> snapshot.relative_shared(row) == Some(all[index])
                && snapshot.relative(row) == Some(all[index]@)
            &&& !(0 <= index < all.len()) ==> snapshot.relative_shared(row) is None
                && snapshot.relative(row) is None
        }),
{
}

/// The cursor is drawn where it is: inside the grid at its own cell, one to the
/// left where that cell is the spacer of a wide character, and at the last line
/// or column where it lies beyond.
pub proof fn law_the_cursor_is_drawn_where_it_is(snapshot: TerminalSnapshot)
    requires
        snapshot.size.lines > 0,
        snapshot.size.columns > 0,
        snapshot.rows.len() == snapshot.size.lines,
        forall|row: int| 0 <= row < snapshot.rows.len() ==> (#[trigger] snapshot.rows@[row]).len()
            == snapshot.size.columns,
    ensures
        ({
            let (row, column) = snapshot.cursor_position();
            let line = if snapshot.cursor.row < snapshot.size.lines {
                snapshot.cursor.row as int
            } else {
                snapshot.size.lines - 1
            };
            let place = if snapshot.cursor.column < snapshot.size.columns {
                snapshot.cursor.column as int
            } else {
                snapshot.size.columns - 1
            };
            let spacer = snapshot.rows@[line]@[place].flags.wide_spacer;
            &&& row == line
            &&& column == (if spacer && place > 0 { place - 1 } else { place })
            &&& snapshot.cursor_columns() == (if snapshot.rows@[line]@[column as int].flags.wide {
                2nat
            } else {
                1
            })
        }),
{
}

/// An empty cell is a space in the default colours with nothing marked on it.
pub proof fn law_empty_cells_are_spaces()
    ensures
        blank_contents().text() == seq![' '],
        blank_contents().fg == (TerminalColor::Named { value: 256 }),
        blank_contents().bg == (TerminalColor::Named { value: 257 }),
        !blank_contents().flags.bold && !blank_contents().flags.italic
            && !blank_contents().flags.dim && !blank_contents().flags.inverse
            && !blank_contents().flags.underline && !blank_contents().flags.strike
            && !blank_contents().flags.wide && !blank_contents().flags.wide_spacer
            && !blank_contents().flags.leading_wide_spacer,
{
    assert(blank_contents().text() =~= seq![' ']);
}

} // verus!
