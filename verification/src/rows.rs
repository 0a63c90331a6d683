//! Turning a row of cells into text to shape and backgrounds to fill.
//!
//! Neighbouring narrow ASCII cells are shaped together as one chunk. Any other
//! cell is a chunk of its own, so that a font with a wider glyph cannot push
//! its neighbours out of the grid.

use crate::color::color_to_rgb;
use crate::color::dim_terminal_color;
use crate::color::terminal_cell_colors;
use crate::color::theme_color;
use crate::color::ThemeColors;
use crate::selection::is_between;
use crate::selection::TerminalCellPosition;
use crate::terminal::terminal_cursor_position;
use crate::terminal::TerminalCell;
use crate::terminal::TerminalColor;
use crate::terminal::TerminalSnapshot;
use crate::text::text_byte_len;
use vstd::prelude::*;

verus! {

/// How a stretch of text is drawn.
#[derive(Clone, Copy, PartialEq, Eq, Structural, Debug)]
pub struct TextRun {
    /// Bytes of text.
    pub len: usize,
    pub bold: bool,
    pub italic: bool,
    /// Packed colour.
    pub color: u32,
    pub underline: bool,
    pub strikethrough: bool,
}

/// A stretch of cells filled with one colour.
#[derive(Clone, Copy, PartialEq, Eq, Structural, Debug)]
pub struct TerminalBackgroundSpan {
    pub start_column: usize,
    pub width_columns: usize,
    pub color: u32,
}

/// The text of one cell.
#[derive(Debug)]
pub struct TerminalTextCell {
    pub text: String,
    pub run: TextRun,
    pub width_columns: usize,
}

/// Text that is shaped together.
#[derive(Debug)]
pub struct TerminalTextChunk {
    pub start_column: usize,
    /// Columns that each character takes.
    pub width_columns: usize,
    /// Columns that the whole chunk takes.
    pub span_columns: usize,
    pub requires_cell_scaling: bool,
    pub text: String,
    pub runs: Vec<TextRun>,
    pub cells: Vec<TerminalTextCell>,
}

/// What a row is drawn with besides its cells.
#[derive(Clone, Copy, Debug)]
pub struct TerminalRenderOptions {
    pub theme: ThemeColors,
    pub cursor_focused: bool,
}

#[verifier::ext_equal]
pub struct TextCellModel {
    pub text: Seq<char>,
    pub run: TextRun,
    pub width_columns: nat,
}

#[verifier::ext_equal]
pub struct ChunkModel {
    pub start_column: nat,
    pub width_columns: nat,
    pub span_columns: nat,
    pub requires_cell_scaling: bool,
    pub text: Seq<char>,
    pub runs: Seq<TextRun>,
    pub cells: Seq<TextCellModel>,
}

impl View for TerminalTextCell {
    type V = TextCellModel;

    open spec fn view(&self) -> TextCellModel {
        TextCellModel {
            text: self.text@,
            run: self.run,
            width_columns: self.width_columns as nat,
        }
    }
}

impl View for TerminalTextChunk {
    type V = ChunkModel;

    open spec fn view(&self) -> ChunkModel {
        ChunkModel {
            start_column: self.start_column as nat,
            width_columns: self.width_columns as nat,
            span_columns: self.span_columns as nat,
            requires_cell_scaling: self.requires_cell_scaling,
            text: self.text@,
            runs: self.runs@,
            cells: self.cells@.map_values(|cell: TerminalTextCell| cell@),
        }
    }
}

/// A row to draw: which row it is, in which terminal, and what is marked.
pub struct RowContext {
    pub columns: nat,
    pub row: int,
    pub cursor: Option<(nat, nat)>,
    pub selected: Option<(TerminalCellPosition, TerminalCellPosition)>,
    pub theme: ThemeColors,
    pub cursor_focused: bool,
}

pub open spec fn row_context(
    snapshot: TerminalSnapshot,
    row: int,
    selected: Option<(TerminalCellPosition, TerminalCellPosition)>,
    options: TerminalRenderOptions,
) -> RowContext {
    RowContext {
        columns: snapshot.size.columns as nat,
        row,
        cursor: if snapshot.cursor.visible {
            Some(snapshot.cursor_position())
        } else {
            None
        },
        selected,
        theme: options.theme,
        cursor_focused: options.cursor_focused,
    }
}

impl RowContext {
    /// The cell lies inside the selection.
    pub open spec fn is_selected(self, column: int) -> bool {
        let position = TerminalCellPosition { row: self.row as i32, column: column as usize };
        self.selected is Some && {
            let bounds = self.selected->0;
            crate::selection::at_or_before(bounds.0, position) && crate::selection::at_or_before(
                position,
                bounds.1,
            )
        }
    }

    /// The cell shows the cursor of the focused pane.
    pub open spec fn shows_cursor(self, column: int) -> bool {
        self.cursor_focused && self.row >= 0 && self.cursor == Some((self.row as nat, column as nat))
    }

    /// The colours of the cell: those of the cursor, else the selection, else
    /// its own.
    pub open spec fn colors(self, cell: TerminalCell, column: int) -> (TerminalColor, TerminalColor) {
        let own = crate::color::cell_colors(cell.fg, cell.bg, cell.flags.inverse, self.theme);
        if self.shows_cursor(column) {
            (
                crate::color::unpacked(self.theme.cursor_foreground),
                crate::color::unpacked(self.theme.cursor_background),
            )
        } else if self.is_selected(column) {
            (own.0, crate::color::unpacked(self.theme.selection_background))
        } else {
            own
        }
    }

    pub open spec fn background(self, cell: TerminalCell, column: int) -> int {
        crate::color::resolved(self.colors(cell, column).1, false, self.theme)
    }

    /// The colour of the text: dim unless the cursor covers it.
    pub open spec fn foreground(self, cell: TerminalCell, column: int) -> int {
        let bright = crate::color::resolved(self.colors(cell, column).0, true, self.theme);
        if cell.flags.dim && !self.shows_cursor(column) {
            crate::color::dimmed(bright as u32)
        } else {
            bright % 0x1000000
        }
    }

    /// Columns that the cell takes; a wide character at the edge is cut.
    pub open spec fn width(self, cell: TerminalCell, column: int) -> nat {
        if cell.flags.wide && column + 1 < self.columns {
            2
        } else {
            1
        }
    }

    pub open spec fn text_cell(self, cell: TerminalCell, column: int) -> TextCellModel {
        TextCellModel {
            text: cell@.text(),
            run: TextRun {
                len: crate::text::byte_len(cell@.text()) as usize,
                bold: cell.flags.bold,
                italic: cell.flags.italic,
                color: self.foreground(cell, column) as u32,
                underline: cell.flags.underline,
                strikethrough: cell.flags.strike,
            },
            width_columns: self.width(cell, column),
        }
    }
}

pub open spec fn is_ascii_text(text: Seq<char>) -> bool {
    forall|i: int| 0 <= i < text.len() ==> #[trigger] text[i] as u32 <= 0x7f
}

/// The cell is shaped on its own.
pub open spec fn is_alone(cell: TerminalCell) -> bool {
    cell.flags.wide || !is_ascii_text(cell@.text())
}

/// The cell holds no text.
pub open spec fn is_gap(cell: TerminalCell) -> bool {
    cell.flags.wide_spacer || cell.flags.leading_wide_spacer
}

pub open spec fn same_style(a: TextRun, b: TextRun) -> bool {
    a.bold == b.bold && a.italic == b.italic && a.color == b.color && a.underline == b.underline
        && a.strikethrough == b.strikethrough
}

/// Runs with one more run at the end, joined with the last where they look the
/// same.
pub open spec fn with_run(runs: Seq<TextRun>, run: TextRun) -> Seq<TextRun> {
    if runs.len() > 0 && same_style(runs.last(), run) {
        runs.drop_last().push(TextRun { len: (runs.last().len + run.len) as usize, ..run })
    } else {
        runs.push(run)
    }
}

/// A chunk of one cell.
pub open spec fn single_chunk(cell: TextCellModel, column: nat, alone: bool) -> ChunkModel {
    ChunkModel {
        start_column: column,
        width_columns: cell.width_columns,
        span_columns: cell.width_columns,
        requires_cell_scaling: alone,
        text: cell.text,
        runs: seq![cell.run],
        cells: seq![cell],
    }
}

/// A chunk with one more cell at its end.
pub open spec fn extended_chunk(chunk: ChunkModel, cell: TextCellModel) -> ChunkModel {
    ChunkModel {
        span_columns: chunk.span_columns + cell.width_columns,
        text: chunk.text + cell.text,
        runs: with_run(chunk.runs, cell.run),
        cells: chunk.cells.push(cell),
        ..chunk
    }
}

/// The chunks of the first `count` cells, and whether the last chunk goes on.
pub open spec fn chunks_of(context: RowContext, cells: Seq<TerminalCell>, count: nat) -> (
    Seq<ChunkModel>,
    bool,
)
    decreases count,
{
    if count == 0 {
        (Seq::empty(), false)
    } else {
        let column = (count - 1) as nat;
        let cell = cells[column as int];
        let text_cell = context.text_cell(cell, column as int);
        let (chunks, open) = chunks_of(context, cells, column);
        if is_gap(cell) {
            (chunks, false)
        } else if is_alone(cell) {
            (chunks.push(single_chunk(text_cell, column, true)), false)
        } else if open {
            (chunks.drop_last().push(extended_chunk(chunks.last(), text_cell)), true)
        } else {
            (chunks.push(single_chunk(text_cell, column, false)), true)
        }
    }
}

/// Background spans with one more at the end, joined with the last where they
/// touch and have the same colour.
pub open spec fn with_span(
    spans: Seq<TerminalBackgroundSpan>,
    span: TerminalBackgroundSpan,
) -> Seq<TerminalBackgroundSpan> {
    if span.width_columns == 0 {
        spans
    } else if spans.len() > 0 && spans.last().color == span.color && spans.last().start_column
        + spans.last().width_columns == span.start_column {
        spans.drop_last().push(
            TerminalBackgroundSpan {
                width_columns: (spans.last().width_columns + span.width_columns) as usize,
                ..spans.last()
            },
        )
    } else {
        spans.push(span)
    }
}

/// The backgrounds of the first `count` cells that differ from that of the
/// terminal.
pub open spec fn backgrounds_of(context: RowContext, cells: Seq<TerminalCell>, count: nat) -> Seq<
    TerminalBackgroundSpan,
>
    decreases count,
{
    if count == 0 {
        Seq::empty()
    } else {
        let column = (count - 1) as nat;
        let cell = cells[column as int];
        let spans = backgrounds_of(context, cells, column);
        let color = context.background(cell, column as int);
        if cell.flags.wide_spacer || color == context.theme.terminal_background {
            spans
        } else {
            with_span(
                spans,
                TerminalBackgroundSpan {
                    start_column: column as usize,
                    width_columns: context.width(cell, column as int) as usize,
                    color: color as u32,
                },
            )
        }
    }
}

/// How many cells of a row are drawn.
pub open spec fn drawn_count(context: RowContext, cells: Seq<TerminalCell>) -> nat {
    if cells.len() < context.columns {
        cells.len()
    } else {
        context.columns
    }
}

/// The bytes that runs cover.
pub open spec fn runs_len(runs: Seq<TextRun>) -> nat
    decreases runs.len(),
{
    if runs.len() == 0 {
        0
    } else {
        runs_len(runs.drop_last()) + runs.last().len as nat
    }
}

/// Adds a run, joined with the last where they look the same.
pub fn append_terminal_text_run(runs: &mut Vec<TextRun>, run: TextRun)
    requires
        old(runs).len() > 0 ==> old(runs)@.last().len + run.len <= usize::MAX,
    ensures
        final(runs)@ == with_run(old(runs)@, run),
{
    if runs.len() > 0 {
        let last: usize = runs.len() - 1;
        let previous = runs[last];
        if previous.bold == run.bold && previous.italic == run.italic && previous.color == run.color
            && previous.underline == run.underline && previous.strikethrough
            == run.strikethrough {
            runs.pop();
            runs.push(TextRun { len: previous.len + run.len, ..run });
            return;
        }
    }
    runs.push(run);
}

/// Adds a background, joined with the last where they touch and have the same
/// colour.
pub fn push_terminal_background(
    backgrounds: &mut Vec<TerminalBackgroundSpan>,
    start_column: usize,
    width_columns: usize,
    color: u32,
)
    requires
        start_column + width_columns <= usize::MAX,
        old(backgrounds).len() > 0 ==> old(backgrounds)@.last().start_column
            + old(backgrounds)@.last().width_columns <= usize::MAX,
    ensures
        final(backgrounds)@ == with_span(
            old(backgrounds)@,
            TerminalBackgroundSpan { start_column, width_columns, color },
        ),
{
    if width_columns == 0 {
        return;
    }
    if backgrounds.len() > 0 {
        let last: usize = backgrounds.len() - 1;
        let previous = backgrounds[last];
        if previous.color == color && previous.start_column + previous.width_columns
            == start_column {
            backgrounds.pop();
            backgrounds.push(
                TerminalBackgroundSpan {
                    width_columns: previous.width_columns + width_columns,
                    ..previous
                },
            );
            return;
        }
    }
    backgrounds.push(TerminalBackgroundSpan { start_column, width_columns, color });
}

fn cell_text(cell: &TerminalCell) -> (text: String)
    ensures
        text@ == cell@.text(),
{
    let mut text: String = String::new();
    text.push(cell.character);
    let mut i: usize = 0;
    while i < cell.zerowidth.len()
        invariant
            i <= cell.zerowidth.len(),
            text@ =~= seq![cell.character] + cell.zerowidth@.take(i as int),
        decreases cell.zerowidth.len() - i,
    {
        text.push(cell.zerowidth[i]);
        i += 1;
        assert(cell.zerowidth@.take(i as int) =~= cell.zerowidth@.take(i - 1).push(
            cell.zerowidth@[i - 1],
        ));
    }
    assert(cell.zerowidth@.take(i as int) =~= cell.zerowidth@);
    text
}

fn cell_is_ascii(cell: &TerminalCell) -> (ascii: bool)
    ensures
        ascii == is_ascii_text(cell@.text()),
{
    let ghost text = cell@.text();
    if cell.character as u32 > 0x7f {
        assert(text[0] == cell.character);
        return false;
    }
    let mut i: usize = 0;
    while i < cell.zerowidth.len()
        invariant
            i <= cell.zerowidth.len(),
            text == cell@.text(),
            cell.character as u32 <= 0x7f,
            forall|j: int| 0 <= j < i ==> #[trigger] cell.zerowidth@[j] as u32 <= 0x7f,
        decreases cell.zerowidth.len() - i,
    {
        if cell.zerowidth[i] as u32 > 0x7f {
            assert(text[i + 1] == cell.zerowidth@[i as int]);
            return false;
        }
        i += 1;
    }
    assert forall|j: int| 0 <= j < text.len() implies #[trigger] text[j] as u32 <= 0x7f by {
        if j > 0 {
            assert(text[j] == cell.zerowidth@[j - 1]);
        }
    }
    true
}

proof fn lemma_last_run_is_covered(runs: Seq<TextRun>)
    ensures
        runs.len() > 0 ==> runs.last().len <= runs_len(runs),
{
}

proof fn lemma_with_run_len(runs: Seq<TextRun>, run: TextRun)
    requires
        runs.len() > 0 ==> runs.last().len + run.len <= usize::MAX,
    ensures
        runs_len(with_run(runs, run)) == runs_len(runs) + run.len,
{
    let joined = with_run(runs, run);
    if runs.len() > 0 && same_style(runs.last(), run) {
        assert(joined.drop_last() =~= runs.drop_last());
    } else {
        assert(joined.drop_last() =~= runs);
    }
}

/// The text chunks of a row of cells and the backgrounds behind it.
#[verifier::rlimit(60)]
pub fn terminal_row_data_for_cells(
    snapshot: &TerminalSnapshot,
    row: i32,
    cells: &Vec<TerminalCell>,
    selected_bounds: Option<(TerminalCellPosition, TerminalCellPosition)>,
    options: &TerminalRenderOptions,
) -> (data: (Vec<TerminalTextChunk>, Vec<TerminalBackgroundSpan>))
    ensures
        ({
            let context = row_context(*snapshot, row as int, selected_bounds, *options);
            let count = drawn_count(context, cells@);
            &&& data.0@.map_values(|chunk: TerminalTextChunk| chunk@) == chunks_of(
                context,
                cells@,
                count,
            ).0
            &&& data.1@ == backgrounds_of(context, cells@, count)
        }),
{
    let ghost context = row_context(*snapshot, row as int, selected_bounds, *options);
    let columns: usize = snapshot.size.columns;
    let count: usize = if cells.len() < columns {
        cells.len()
    } else {
        columns
    };
    let cursor: (usize, usize) = terminal_cursor_position(snapshot);
    let mut chunks: Vec<TerminalTextChunk> = Vec::new();
    let mut backgrounds: Vec<TerminalBackgroundSpan> = Vec::new();
    let mut current: Option<TerminalTextChunk> = None;
    let ghost view_of = |chunk: TerminalTextChunk| chunk@;
    let mut column: usize = 0;
    while column < count
        invariant
            context == row_context(*snapshot, row as int, selected_bounds, *options),
            columns == snapshot.size.columns,
            column <= count <= columns,
            count <= cells.len(),
            (cursor.0 as nat, cursor.1 as nat) == snapshot.cursor_position(),
            view_of == (|chunk: TerminalTextChunk| chunk@),
            chunks_of(context, cells@, column as nat).1 == (current is Some),
            chunks_of(context, cells@, column as nat).0 == (match current {
                Some(chunk) => chunks@.map_values(view_of).push(chunk@),
                None => chunks@.map_values(view_of),
            }),
            current matches Some(chunk) ==> {
                &&& chunk.start_column + chunk.span_columns == column
                &&& runs_len(chunk.runs@) == crate::text::byte_len(chunk.text@)
            },
            backgrounds@ == backgrounds_of(context, cells@, column as nat),
            backgrounds.len() > 0 ==> backgrounds@.last().start_column
                + backgrounds@.last().width_columns <= columns,
        decreases count - column,
    {
        let cell = &cells[column];
        let ghost before = chunks_of(context, cells@, column as nat);
        let ghost after = chunks_of(context, cells@, (column + 1) as nat);
        if cell.flags.wide_spacer {
            current = close_chunk(&mut chunks, current);
            column += 1;
            continue ;
        }
        let (mut foreground, mut background) = terminal_cell_colors(cell, &options.theme);
        let position = TerminalCellPosition { row, column };
        let selected: bool = match selected_bounds {
            Some((start, end)) => is_between(position, start, end),
            None => false,
        };
        if selected {
            background = theme_color(options.theme.selection_background);
        }
        let shows_cursor: bool = options.cursor_focused && row >= 0 && snapshot.cursor.visible
            && cursor.0 == row as usize && cursor.1 == column;
        if shows_cursor {
            foreground = theme_color(options.theme.cursor_foreground);
            background = theme_color(options.theme.cursor_background);
        }
        assert(shows_cursor == context.shows_cursor(column as int));
        assert((foreground, background) == context.colors(*cell, column as int));
        let width_columns: usize = if cell.flags.wide && column + 1 < columns {
            2
        } else {
            1
        };
        let background_color: u32 = color_to_rgb(background, false, &options.theme);
        if background_color != options.theme.terminal_background {
            push_terminal_background(&mut backgrounds, column, width_columns, background_color);
        }
        if cell.flags.leading_wide_spacer {
            current = close_chunk(&mut chunks, current);
            column += 1;
            continue ;
        }
        let text = cell_text(cell);
        let bright: u32 = color_to_rgb(foreground, true, &options.theme);
        let color: u32 = if cell.flags.dim && !shows_cursor {
            dim_terminal_color(bright)
        } else {
            bright % 0x1000000
        };
        let run = TextRun {
            len: text_byte_len(text.as_str()),
            bold: cell.flags.bold,
            italic: cell.flags.italic,
            color,
            underline: cell.flags.underline,
            strikethrough: cell.flags.strike,
        };
        let alone: bool = cell.flags.wide || !cell_is_ascii(cell);
        let text_cell = TerminalTextCell { text: text.clone(), run, width_columns };
        let ghost cell_model = context.text_cell(*cell, column as int);
        assert(text_cell@ == cell_model);
        if alone {
            close_chunk(&mut chunks, current);
            current = None;
            let chunk = new_chunk(column, text, text_cell, true);
            chunks.push(chunk);
            assert(chunks@.map_values(view_of) =~= after.0);
        } else {
            current = Some(
                match current {
                    Some(chunk) => {
                        let longer = extend_chunk(chunk, text, text_cell);
                        assert(chunks@.map_values(view_of).push(longer@) =~= after.0);
                        longer
                    },
                    None => {
                        let chunk = new_chunk(column, text, text_cell, false);
                        assert(chunks@.map_values(view_of).push(chunk@) =~= after.0);
                        chunk
                    },
                },
            );
        }
        column += 1;
    }
    close_chunk(&mut chunks, current);
    (chunks, backgrounds)
}

/// Puts a chunk that ends behind the others; none is open then.
fn close_chunk(
    chunks: &mut Vec<TerminalTextChunk>,
    current: Option<TerminalTextChunk>,
) -> (open: Option<TerminalTextChunk>)
    ensures
        open is None,
        final(chunks)@.map_values(|chunk: TerminalTextChunk| chunk@) == (match current {
            Some(chunk) => old(chunks)@.map_values(|chunk: TerminalTextChunk| chunk@).push(chunk@),
            None => old(chunks)@.map_values(|chunk: TerminalTextChunk| chunk@),
        }),
{
    if let Some(chunk) = current {
        chunks.push(chunk);
        assert(chunks@.map_values(|chunk: TerminalTextChunk| chunk@) =~= old(chunks)@.map_values(
            |chunk: TerminalTextChunk| chunk@,
        ).push(chunk@));
    }
    None
}

fn new_chunk(column: usize, text: String, cell: TerminalTextCell, alone: bool) -> (chunk:
    TerminalTextChunk)
    requires
        text@ == cell.text@,
        cell.run.len == crate::text::byte_len(text@),
    ensures
        chunk@ == single_chunk(cell@, column as nat, alone),
        runs_len(chunk.runs@) == crate::text::byte_len(chunk.text@),
{
    let width_columns: usize = cell.width_columns;
    let run = cell.run;
    let mut runs: Vec<TextRun> = Vec::new();
    runs.push(run);
    let mut cells: Vec<TerminalTextCell> = Vec::new();
    cells.push(cell);
    let chunk = TerminalTextChunk {
        start_column: column,
        width_columns,
        span_columns: width_columns,
        requires_cell_scaling: alone,
        text,
        runs,
        cells,
    };
    proof {
        assert(chunk.runs@.drop_last() =~= Seq::<TextRun>::empty());
        assert(runs_len(chunk.runs@.drop_last()) == 0);
        assert(chunk.runs@.last() == run);
        assert(chunk@.cells =~= seq![cell@]);
        assert(chunk@.runs =~= seq![cell@.run]);
    }
    chunk
}

fn extend_chunk(chunk: TerminalTextChunk, text: String, cell: TerminalTextCell) -> (longer:
    TerminalTextChunk)
    requires
        text@ == cell.text@,
        cell.run.len == crate::text::byte_len(text@),
        runs_len(chunk.runs@) == crate::text::byte_len(chunk.text@),
        chunk.span_columns + cell.width_columns <= usize::MAX,
    ensures
        longer@ == extended_chunk(chunk@, cell@),
        longer.start_column == chunk.start_column,
        longer.span_columns == chunk.span_columns + cell.width_columns,
        runs_len(longer.runs@) == crate::text::byte_len(longer.text@),
{
    let mut longer = chunk;
    let ghost previous = chunk.text@;
    longer.text.append(text.as_str());
    let total: usize = text_byte_len(longer.text.as_str());
    proof {
        crate::text::lemma_byte_len_concat(previous, text@);
        lemma_last_run_is_covered(longer.runs@);
        lemma_with_run_len(longer.runs@, cell.run);
        assert(total == crate::text::byte_len(previous) + cell.run.len);
    }
    append_terminal_text_run(&mut longer.runs, cell.run);
    longer.span_columns = longer.span_columns + cell.width_columns;
    let ghost model = cell@;
    longer.cells.push(cell);
    assert(longer@.cells =~= chunk@.cells.push(model));
    longer
}

/// The text chunks and backgrounds of a row of the visible grid; a row that
/// does not exist has none.
pub fn terminal_row_data(
    snapshot: &TerminalSnapshot,
    row: usize,
    selected_bounds: Option<(TerminalCellPosition, TerminalCellPosition)>,
    options: &TerminalRenderOptions,
) -> (data: (Vec<TerminalTextChunk>, Vec<TerminalBackgroundSpan>))
    requires
        snapshot.wf(),
        row <= i32::MAX,
    ensures
        ({
            let context = row_context(*snapshot, row as int, selected_bounds, *options);
            let cells = match snapshot.relative(row as int) {
                Some(cells) => cells,
                None => Seq::empty(),
            };
            let count = drawn_count(context, cells);
            &&& data.0@.map_values(|chunk: TerminalTextChunk| chunk@) == chunks_of(
                context,
                cells,
                count,
            ).0
            &&& data.1@ == backgrounds_of(context, cells, count)
        }),
{
    match snapshot.relative_row(row as i32) {
        Some(cells) => terminal_row_data_for_cells(
            snapshot,
            row as i32,
            cells,
            selected_bounds,
            options,
        ),
        None => {
            let cells: Vec<TerminalCell> = Vec::new();
            terminal_row_data_for_cells(snapshot, row as i32, &cells, selected_bounds, options)
        },
    }
}

/// What a chunk looks like: it holds a cell, its text is that of its cells,
/// its runs cover its text and its cells cover its columns.
pub open spec fn chunk_is_whole(chunk: ChunkModel) -> bool {
    &&& chunk.cells.len() > 0
    &&& chunk.text == cells_text(chunk.cells)
    &&& chunk.span_columns == cells_columns(chunk.cells)
    &&& runs_len(chunk.runs) == crate::text::byte_len(chunk.text)
}

pub open spec fn cells_text(cells: Seq<TextCellModel>) -> Seq<char>
    decreases cells.len(),
{
    if cells.len() == 0 {
        Seq::empty()
    } else {
        cells_text(cells.drop_last()) + cells.last().text
    }
}

pub open spec fn cells_columns(cells: Seq<TextCellModel>) -> nat
    decreases cells.len(),
{
    if cells.len() == 0 {
        0
    } else {
        cells_columns(cells.drop_last()) + cells.last().width_columns
    }
}

/// The text of all the chunks of a row, in order.
pub open spec fn chunks_text(chunks: Seq<ChunkModel>) -> Seq<char>
    decreases chunks.len(),
{
    if chunks.len() == 0 {
        Seq::empty()
    } else {
        chunks_text(chunks.drop_last()) + chunks.last().text
    }
}

/// The text of the first `count` cells of a row.
pub open spec fn row_text(cells: Seq<TerminalCell>, count: nat) -> Seq<char>
    decreases count,
{
    if count == 0 {
        Seq::empty()
    } else {
        let cell = cells[count - 1];
        row_text(cells, (count - 1) as nat) + (if is_gap(cell) {
            Seq::empty()
        } else {
            cell@.text()
        })
    }
}

/// Shaping loses nothing and adds nothing: the chunks of a row, read in order,
/// hold the text of its cells.
pub proof fn law_chunks_hold_the_row(context: RowContext, cells: Seq<TerminalCell>, count: nat)
    requires
        count <= cells.len(),
    ensures
        chunks_text(chunks_of(context, cells, count).0) == row_text(cells, count),
    decreases count,
{
    if count > 0 {
        let column = (count - 1) as nat;
        law_chunks_hold_the_row(context, cells, column);
        let cell = cells[column as int];
        let (chunks, open) = chunks_of(context, cells, column);
        let (after, _) = chunks_of(context, cells, count);
        lemma_open_chunk(context, cells, column);
        if is_gap(cell) {
            assert(row_text(cells, column) + Seq::<char>::empty() =~= row_text(cells, column));
        } else if is_alone(cell) || !open {
            assert(after.drop_last() =~= chunks);
        } else {
            assert(after.drop_last() =~= chunks.drop_last());
            assert(chunks_text(chunks) + cell@.text() =~= chunks_text(chunks.drop_last()) + (
            chunks.last().text + cell@.text()));
        }
    }
}

proof fn lemma_open_chunk(context: RowContext, cells: Seq<TerminalCell>, count: nat)
    requires
        count <= cells.len(),
    ensures
        chunks_of(context, cells, count).1 ==> chunks_of(context, cells, count).0.len() > 0,
    decreases count,
{
    if count > 0 {
        lemma_open_chunk(context, cells, (count - 1) as nat);
    }
}

/// Every chunk of a row is whole, and a chunk that is shaped together holds
/// narrow ASCII cells only; texts have to fit in memory.
pub proof fn law_chunks_are_whole(context: RowContext, cells: Seq<TerminalCell>, count: nat)
    requires
        count <= cells.len(),
        forall|i: int| 0 <= i < chunks_of(context, cells, count).0.len()
            ==> crate::text::byte_len(#[trigger] chunks_of(context, cells, count).0[i].text)
            <= usize::MAX,
    ensures
        forall|i: int| 0 <= i < chunks_of(context, cells, count).0.len() ==> chunk_is_whole(
            #[trigger] chunks_of(context, cells, count).0[i],
        ),
        forall|i: int| 0 <= i < chunks_of(context, cells, count).0.len()
            && !(#[trigger] chunks_of(context, cells, count).0[i]).requires_cell_scaling
            ==> chunks_of(context, cells, count).0[i].span_columns == chunks_of(
            context,
            cells,
            count,
        ).0[i].cells.len() && is_ascii_text(chunks_of(context, cells, count).0[i].text),
    decreases count,
{
    if count > 0 {
        let column = (count - 1) as nat;
        let cell = cells[column as int];
        let text_cell = context.text_cell(cell, column as int);
        let (chunks, open) = chunks_of(context, cells, column);
        let (after, _) = chunks_of(context, cells, count);
        lemma_open_chunk(context, cells, column);
        if is_gap(cell) {
            law_chunks_are_whole(context, cells, column);
        } else if is_alone(cell) || !open {
            assert(after.drop_last() =~= chunks);
            assert forall|i: int| 0 <= i < chunks.len() implies crate::text::byte_len(
                #[trigger] chunks[i].text,
            ) <= usize::MAX by {
                assert(chunks[i] == after[i]);
            }
            law_chunks_are_whole(context, cells, column);
            assert(after[chunks.len() as int] == single_chunk(text_cell, column, is_alone(cell)));
            assert(crate::text::byte_len(after[chunks.len() as int].text) <= usize::MAX);
            lemma_single_chunk_is_whole(text_cell, column, is_alone(cell));
            assert forall|i: int| 0 <= i < after.len() implies chunk_is_whole(
                #[trigger] after[i],
            ) && (!after[i].requires_cell_scaling ==> after[i].span_columns == after[i].cells.len()
                && is_ascii_text(after[i].text)) by {
                if i < chunks.len() {
                    assert(after[i] == chunks[i]);
                }
            }
        } else {
            let last = chunks.len() - 1;
            assert(after[last] == extended_chunk(chunks.last(), text_cell));
            assert(crate::text::byte_len(after[last].text) <= usize::MAX);
            crate::text::lemma_byte_len_concat(chunks.last().text, text_cell.text);
            assert forall|i: int| 0 <= i < chunks.len() implies crate::text::byte_len(
                #[trigger] chunks[i].text,
            ) <= usize::MAX by {
                if i < last {
                    assert(chunks[i] == after[i]);
                }
            }
            law_chunks_are_whole(context, cells, column);
            lemma_open_chunk_is_plain(context, cells, column);
            assert(chunk_is_whole(chunks[last]));
            lemma_extended_chunk_is_whole(chunks[last], text_cell);
            assert forall|i: int| 0 <= i < after.len() implies chunk_is_whole(
                #[trigger] after[i],
            ) && (!after[i].requires_cell_scaling ==> after[i].span_columns == after[i].cells.len()
                && is_ascii_text(after[i].text)) by {
                if i < last {
                    assert(after[i] == chunks[i]);
                }
            }
        }
    }
}

proof fn lemma_open_chunk_is_plain(context: RowContext, cells: Seq<TerminalCell>, count: nat)
    requires
        count <= cells.len(),
        chunks_of(context, cells, count).1,
    ensures
        chunks_of(context, cells, count).0.len() > 0,
        !chunks_of(context, cells, count).0.last().requires_cell_scaling,
    decreases count,
{
    if count > 0 {
        lemma_open_chunk(context, cells, (count - 1) as nat);
        if chunks_of(context, cells, (count - 1) as nat).1 {
            lemma_open_chunk_is_plain(context, cells, (count - 1) as nat);
        }
    }
}

proof fn lemma_single_chunk_is_whole(cell: TextCellModel, column: nat, alone: bool)
    requires
        cell.run.len == crate::text::byte_len(cell.text),
    ensures
        chunk_is_whole(single_chunk(cell, column, alone)),
{
    let chunk = single_chunk(cell, column, alone);
    assert(chunk.cells.drop_last() =~= Seq::<TextCellModel>::empty());
    assert(cells_text(chunk.cells.drop_last()) =~= Seq::<char>::empty());
    assert(cells_columns(chunk.cells.drop_last()) == 0);
    assert(chunk.runs.drop_last() =~= Seq::<TextRun>::empty());
    assert(runs_len(chunk.runs.drop_last()) == 0);
    assert(chunk.text =~= cells_text(chunk.cells));
}

proof fn lemma_extended_chunk_is_whole(chunk: ChunkModel, cell: TextCellModel)
    requires
        chunk_is_whole(chunk),
        cell.run.len == crate::text::byte_len(cell.text),
        crate::text::byte_len(chunk.text + cell.text) <= usize::MAX,
    ensures
        chunk_is_whole(extended_chunk(chunk, cell)),
{
    let longer = extended_chunk(chunk, cell);
    assert(longer.cells.drop_last() =~= chunk.cells);
    crate::text::lemma_byte_len_concat(chunk.text, cell.text);
    lemma_last_run_is_covered(chunk.runs);
    lemma_with_run_len(chunk.runs, cell.run);
}

/// No background is empty or reaches out of the row.
pub proof fn law_backgrounds_stay_in_the_row(
    context: RowContext,
    cells: Seq<TerminalCell>,
    count: nat,
)
    requires
        count <= cells.len(),
        count <= context.columns <= usize::MAX,
    ensures
        forall|i: int| 0 <= i < backgrounds_of(context, cells, count).len() ==> {
            let span = #[trigger] backgrounds_of(context, cells, count)[i];
            span.width_columns > 0 && span.start_column + span.width_columns <= context.columns
        },
    decreases count,
{
    if count > 0 {
        let column = (count - 1) as nat;
        law_backgrounds_stay_in_the_row(context, cells, column);
        let spans = backgrounds_of(context, cells, column);
        let after = backgrounds_of(context, cells, count);
        assert forall|i: int| 0 <= i < after.len() implies {
            let span = #[trigger] after[i];
            span.width_columns > 0 && span.start_column + span.width_columns <= context.columns
        } by {
            if i < spans.len() {
                assert(spans[i].width_columns > 0);
            }
        }
    }
}

/// A column is filled with a colour by one of several spans.
pub open spec fn is_filled(
    spans: Seq<TerminalBackgroundSpan>,
    column: int,
    color: int,
) -> bool {
    exists|k: int|
        0 <= k < spans.len() && (#[trigger] spans[k]).start_column <= column
            < spans[k].start_column + spans[k].width_columns && spans[k].color == color
}

/// The cell at a column, or the wide character before it, wants a colour there
/// that the terminal does not have by itself.
pub open spec fn wants_fill(
    context: RowContext,
    cells: Seq<TerminalCell>,
    count: int,
    column: int,
    color: int,
) -> bool {
    ||| 0 <= column < count && !cells[column].flags.wide_spacer && context.background(
        cells[column],
        column,
    ) == color && color != context.theme.terminal_background
    ||| 0 < column <= count && cells[column - 1].flags.wide && column < context.columns
        && !cells[column - 1].flags.wide_spacer && context.background(
        cells[column - 1],
        column - 1,
    ) == color && color != context.theme.terminal_background
}

proof fn lemma_with_span_fills(
    spans: Seq<TerminalBackgroundSpan>,
    span: TerminalBackgroundSpan,
    column: int,
    color: int,
)
    requires
        span.width_columns > 0,
        span.start_column + span.width_columns <= usize::MAX,
    ensures
        is_filled(with_span(spans, span), column, color) <==> is_filled(spans, column, color) || (
        span.start_column <= column < span.start_column + span.width_columns && span.color
            == color),
{
    let more = with_span(spans, span);
    if spans.len() > 0 && spans.last().color == span.color && spans.last().start_column
        + spans.last().width_columns == span.start_column {
        let last = spans.len() - 1;
        if is_filled(spans, column, color) {
            let k = choose|k: int|
                0 <= k < spans.len() && (#[trigger] spans[k]).start_column <= column
                    < spans[k].start_column + spans[k].width_columns && spans[k].color == color;
            assert(more[k].start_column <= column);
        }
        if span.start_column <= column < span.start_column + span.width_columns && span.color
            == color {
            assert(more[last].start_column <= column);
        }
        if is_filled(more, column, color) {
            let k = choose|k: int|
                0 <= k < more.len() && (#[trigger] more[k]).start_column <= column
                    < more[k].start_column + more[k].width_columns && more[k].color == color;
            if k < last {
                assert(spans[k] == more[k]);
            } else {
                assert(spans[last].start_column == more[last].start_column);
            }
        }
    } else {
        if is_filled(spans, column, color) {
            let k = choose|k: int|
                0 <= k < spans.len() && (#[trigger] spans[k]).start_column <= column
                    < spans[k].start_column + spans[k].width_columns && spans[k].color == color;
            assert(more[k] == spans[k]);
        }
        if span.start_column <= column < span.start_column + span.width_columns && span.color
            == color {
            assert(more[spans.len() as int] == span);
        }
        if is_filled(more, column, color) {
            let k = choose|k: int|
                0 <= k < more.len() && (#[trigger] more[k]).start_column <= column
                    < more[k].start_column + more[k].width_columns && more[k].color == color;
            if k < spans.len() {
                assert(spans[k] == more[k]);
            }
        }
    }
}

/// A column of a row is filled with exactly the colours that its cell, or the
/// wide character that reaches into it, has as background; the background of
/// the terminal is not filled.
pub proof fn law_backgrounds_are_filled_where_cells_have_them(
    context: RowContext,
    cells: Seq<TerminalCell>,
    count: nat,
    column: int,
    color: u32,
)
    requires
        count <= cells.len(),
        count <= context.columns <= usize::MAX,
    ensures
        is_filled(backgrounds_of(context, cells, count), column, color as int) <==> wants_fill(
            context,
            cells,
            count as int,
            column,
            color as int,
        ),
    decreases count,
{
    if count > 0 {
        let last = (count - 1) as nat;
        let cell = cells[last as int];
        law_backgrounds_are_filled_where_cells_have_them(context, cells, last, column, color);
        let background = context.background(cell, last as int);
        lemma_background_is_packed(context, cell, last as int);
        if !cell.flags.wide_spacer && background != context.theme.terminal_background {
            lemma_with_span_fills(
                backgrounds_of(context, cells, last),
                TerminalBackgroundSpan {
                    start_column: last as usize,
                    width_columns: context.width(cell, last as int) as usize,
                    color: background as u32,
                },
                column,
                color as int,
            );
        }
    }
}

proof fn lemma_background_is_packed(context: RowContext, cell: TerminalCell, column: int)
    ensures
        0 <= context.background(cell, column) <= u32::MAX,
{
    let color = context.colors(cell, column).1;
    match color {
        TerminalColor::Rgb { red, green, blue } => {},
        TerminalColor::Named { value } => {},
        TerminalColor::Indexed { index } => {
            if 16 <= index < 232 {
                let offset = index - 16;
                assert(offset / 36 <= 5 && (offset % 36) / 6 <= 5 && offset % 6 <= 5);
            }
        },
    }
}

/// The text of a cell has the colour that the cell asks for: that of its
/// channels as they are, or two thirds of each where the cell is dim. Neither
/// matters under the focused cursor, which has colours of its own.
#[verifier::rlimit(20)]
pub proof fn law_text_has_the_color_of_its_cell(
    context: RowContext,
    cell: TerminalCell,
    column: int,
    red: u8,
    green: u8,
    blue: u8,
)
    requires
        cell.fg == (TerminalColor::Rgb { red, green, blue }),
        !cell.flags.inverse,
    ensures
        ({
            let color = context.text_cell(cell, column).run.color;
            let covered = context.cursor_focused && context.row >= 0 && context.cursor == Some(
                (context.row as nat, column as nat),
            );
            &&& !covered && !cell.flags.dim ==> color == red * 0x10000 + green * 0x100 + blue
            &&& !covered && cell.flags.dim ==> {
                &&& 100 * (color as int / 0x10000) <= 66 * red + 50 < 100 * (color as int / 0x10000)
                    + 100
                &&& 100 * ((color as int / 0x100) % 256) <= 66 * green + 50 < 100 * ((color as int
                    / 0x100) % 256) + 100
                &&& 100 * (color as int % 256) <= 66 * blue + 50 < 100 * (color as int % 256) + 100
            }
            &&& covered ==> color == context.theme.cursor_foreground % 0x1000000
        }),
{
    let packed = (red * 0x10000 + green * 0x100 + blue) as u32;
    lemma_own_foreground(context, cell, column);
    if context.shows_cursor(column) {
        lemma_unpacked_again(context.theme.cursor_foreground, true, context.theme);
    } else if cell.flags.dim {
        crate::color::law_dimming_scales_each_channel(red as int, green as int, blue as int, packed);
    } else {
        crate::color::lemma_channels_of_packed(red as int, green as int, blue as int);
    }
}

/// Where the colour of the text of a cell comes from.
proof fn lemma_own_foreground(context: RowContext, cell: TerminalCell, column: int)
    ensures
        !cell.flags.inverse && !context.shows_cursor(column) ==> context.colors(cell, column).0
            == cell.fg,
        context.shows_cursor(column) ==> context.colors(cell, column).0 == crate::color::unpacked(
            context.theme.cursor_foreground,
        ),
{
}

/// A colour of the theme is drawn as its three bytes.
proof fn lemma_unpacked_again(color: u32, foreground: bool, theme: ThemeColors)
    ensures
        crate::color::resolved(crate::color::unpacked(color), foreground, theme) == color as int
            % 0x1000000,
{
    assert(color % 0x1000000u32 == ((color / 65536u32) % 256u32) * 65536 + ((color / 256u32)
        % 256u32) * 256 + color % 256u32) by (bit_vector);
}

/// A dim cell has the dim version of the colour that the same cell has when it
/// is not dim, unless the cursor covers it.
pub proof fn law_only_dim_cells_are_dimmed(
    context: RowContext,
    plain: TerminalCell,
    dim: TerminalCell,
    column: int,
)
    requires
        !plain.flags.dim,
        dim.flags == (crate::terminal::TerminalCellFlags { dim: true, ..plain.flags }),
        dim.fg == plain.fg,
        dim.bg == plain.bg,
    ensures
        0 <= context.foreground(plain, column) <= 0xffffff,
        ({
            let covered = context.cursor_focused && context.row >= 0 && context.cursor == Some(
                (context.row as nat, column as nat),
            );
            &&& covered ==> context.foreground(dim, column) == context.foreground(plain, column)
            &&& !covered ==> context.foreground(dim, column) == crate::color::dimmed(
                context.foreground(plain, column) as u32,
            )
        }),
        context.background(plain, column) == context.background(dim, column),
{
    assert(context.colors(plain, column) == context.colors(dim, column));
    lemma_dim_foreground(context, plain, dim, column);
}

proof fn lemma_dim_foreground(
    context: RowContext,
    plain: TerminalCell,
    dim: TerminalCell,
    column: int,
)
    requires
        !plain.flags.dim,
        dim.flags.dim,
        context.colors(plain, column) == context.colors(dim, column),
    ensures
        0 <= context.foreground(plain, column) <= 0xffffff,
        context.shows_cursor(column) ==> context.foreground(dim, column) == context.foreground(
            plain,
            column,
        ),
        !context.shows_cursor(column) ==> context.foreground(dim, column) == crate::color::dimmed(
            context.foreground(plain, column) as u32,
        ),
{
    lemma_foreground_is_packed(context, plain, column);
    let bright = crate::color::resolved(
        context.colors(plain, column).0,
        true,
        context.theme,
    ) as u32;
    let low = bright % 0x1000000;
    crate::color::lemma_channels_ignore_the_top(bright, low);
    assert(context.foreground(plain, column) == low);
}

proof fn lemma_foreground_is_packed(context: RowContext, cell: TerminalCell, column: int)
    ensures
        0 <= crate::color::resolved(context.colors(cell, column).0, true, context.theme)
            <= u32::MAX,
{
    let color = context.colors(cell, column).0;
    match color {
        TerminalColor::Rgb { red, green, blue } => {},
        TerminalColor::Named { value } => {},
        TerminalColor::Indexed { index } => {
            if 16 <= index < 232 {
                let offset = index - 16;
                assert(offset / 36 <= 5 && (offset % 36) / 6 <= 5 && offset % 6 <= 5);
            }
        },
    }
}

/// Behind a cell stands its own background, the colour of the selection where
/// it is selected, or that of the cursor where the focused cursor covers it.
/// Selecting a cell leaves the colour of its text alone.
pub proof fn law_cells_stand_on_their_background(
    context: RowContext,
    cell: TerminalCell,
    column: int,
    red: u8,
    green: u8,
    blue: u8,
)
    requires
        cell.bg == (TerminalColor::Rgb { red, green, blue }),
        !cell.flags.inverse,
        0 <= column <= usize::MAX,
        i32::MIN <= context.row <= i32::MAX,
    ensures
        ({
            let covered = context.cursor_focused && context.row >= 0 && context.cursor == Some(
                (context.row as nat, column as nat),
            );
            let selected = match context.selected {
                Some((start, end)) => (start.row < context.row || (start.row == context.row
                    && start.column <= column)) && (context.row < end.row || (context.row == end.row
                    && column <= end.column)),
                None => false,
            };
            let background = context.background(cell, column);
            &&& covered ==> background == context.theme.cursor_background % 0x1000000
            &&& !covered && selected ==> background == context.theme.selection_background
                % 0x1000000
            &&& !covered && !selected ==> background == red * 0x10000 + green * 0x100 + blue
            &&& context.text_cell(cell, column) == (RowContext {
                selected: None,
                ..context
            }).text_cell(cell, column)
        }),
{
    lemma_unpacked_again(context.theme.cursor_background, false, context.theme);
    lemma_unpacked_again(context.theme.selection_background, false, context.theme);
}

/// In inverse video a cell is drawn as the cell with its colours swapped, or in
/// the inverse colours of the theme where it has the default ones.
pub proof fn law_inverse_cells_are_drawn_swapped(
    context: RowContext,
    cell: TerminalCell,
    column: int,
)
    requires
        !cell.flags.inverse,
    ensures
        ({
            let inverse = TerminalCell {
                flags: crate::terminal::TerminalCellFlags { inverse: true, ..cell.flags },
                ..cell
            };
            let default = cell.fg == (TerminalColor::Named { value: 256 }) && cell.bg == (
            TerminalColor::Named { value: 257 });
            let swapped = if default {
                TerminalCell {
                    fg: crate::color::unpacked(context.theme.inverse_foreground),
                    bg: crate::color::unpacked(context.theme.inverse_background),
                    ..cell
                }
            } else {
                TerminalCell { fg: cell.bg, bg: cell.fg, ..cell }
            };
            &&& context.foreground(inverse, column) == context.foreground(swapped, column)
            &&& context.background(inverse, column) == context.background(swapped, column)
        }),
{
}

/// A cell stands in a chunk: behind the columns of those before it.
pub open spec fn stands_at(chunk: ChunkModel, place: int, column: int) -> bool {
    &&& 0 <= place < chunk.cells.len()
    &&& chunk.start_column + cells_columns(chunk.cells.take(place)) == column
}

proof fn lemma_open_chunk_ends(context: RowContext, cells: Seq<TerminalCell>, count: nat)
    requires
        count <= cells.len(),
        chunks_of(context, cells, count).1,
    ensures
        chunks_of(context, cells, count).0.len() > 0,
        ({
            let chunk = chunks_of(context, cells, count).0.last();
            chunk.start_column + cells_columns(chunk.cells) == count
        }),
    decreases count,
{
    if count > 0 {
        let column = (count - 1) as nat;
        let cell = cells[column as int];
        let text_cell = context.text_cell(cell, column as int);
        let (chunks, open) = chunks_of(context, cells, column);
        if open {
            lemma_open_chunk_ends(context, cells, column);
            let longer = extended_chunk(chunks.last(), text_cell);
            assert(longer.cells.drop_last() =~= chunks.last().cells);
        } else {
            let single = single_chunk(text_cell, column, false);
            assert(single.cells.drop_last() =~= Seq::<TextCellModel>::empty());
            assert(cells_columns(single.cells.drop_last()) == 0);
        }
    }
}

/// Every cell that is no spacer is drawn at its own column, with its own
/// characters, weight, slant, lines and width; a wide character takes two
/// columns unless the row ends.
pub proof fn law_cells_are_drawn_at_their_column(
    context: RowContext,
    cells: Seq<TerminalCell>,
    count: nat,
    column: int,
)
    requires
        count <= cells.len(),
        0 <= column < count,
        !cells[column].flags.wide_spacer,
        !cells[column].flags.leading_wide_spacer,
    ensures
        exists|i: int, place: int|
            0 <= i < chunks_of(context, cells, count).0.len() && #[trigger] stands_at(
                chunks_of(context, cells, count).0[i],
                place,
                column,
            ) && {
                let cell = cells[column];
                let drawn = chunks_of(context, cells, count).0[i].cells[place];
                &&& drawn.text == seq![cell.character] + cell.zerowidth@
                &&& drawn.run.len == crate::text::byte_len(drawn.text) as usize
                &&& drawn.run.bold == cell.flags.bold
                &&& drawn.run.italic == cell.flags.italic
                &&& drawn.run.underline == cell.flags.underline
                &&& drawn.run.strikethrough == cell.flags.strike
                &&& drawn.run.color == context.foreground(cell, column) as u32
                &&& drawn.width_columns == (if cell.flags.wide && column + 1 < context.columns {
                    2nat
                } else {
                    1
                })
            },
    decreases count,
{
    let last = (count - 1) as nat;
    let cell = cells[last as int];
    let text_cell = context.text_cell(cell, last as int);
    let (chunks, open) = chunks_of(context, cells, last);
    let (after, _) = chunks_of(context, cells, count);
    lemma_open_chunk(context, cells, last);
    if column == last {
        let i = after.len() - 1;
        if open && !is_alone(cell) {
            lemma_open_chunk_ends(context, cells, last);
            let place = chunks.last().cells.len() as int;
            assert(after[i].cells.take(place) =~= chunks.last().cells);
            assert(stands_at(after[i], place, column));
        } else {
            assert(after[i].cells.take(0) =~= Seq::<TextCellModel>::empty());
            assert(cells_columns(after[i].cells.take(0)) == 0);
            assert(stands_at(after[i], 0, column));
        }
    } else {
        law_cells_are_drawn_at_their_column(context, cells, last, column);
        let (i, place) = choose|i: int, place: int|
            0 <= i < chunks.len() && #[trigger] stands_at(chunks[i], place, column) && {
                let cell = cells[column];
                let drawn = chunks[i].cells[place];
                &&& drawn.text == seq![cell.character] + cell.zerowidth@
                &&& drawn.run.len == crate::text::byte_len(drawn.text) as usize
                &&& drawn.run.bold == cell.flags.bold
                &&& drawn.run.italic == cell.flags.italic
                &&& drawn.run.underline == cell.flags.underline
                &&& drawn.run.strikethrough == cell.flags.strike
                &&& drawn.run.color == context.foreground(cell, column) as u32
                &&& drawn.width_columns == (if cell.flags.wide && column + 1 < context.columns {
                    2nat
                } else {
                    1
                })
            };
        if !is_gap(cell) && !is_alone(cell) && open && i == chunks.len() - 1 {
            assert(after[i].cells.take(place) =~= chunks[i].cells.take(place));
        } else {
            assert(after[i] == chunks[i]);
        }
        assert(stands_at(after[i], place, column));
    }
}

/// The styles of runs, byte by byte.
pub open spec fn styles_of(runs: Seq<TextRun>) -> Seq<TextRun>
    decreases runs.len(),
{
    if runs.len() == 0 {
        Seq::empty()
    } else {
        let run = runs.last();
        styles_of(runs.drop_last()) + Seq::new(
            run.len as nat,
            |i: int| TextRun { len: 1, ..run },
        )
    }
}

/// The runs of the cells of a chunk, one for each cell.
pub open spec fn runs_of_cells(cells: Seq<TextCellModel>) -> Seq<TextRun> {
    cells.map_values(|cell: TextCellModel| cell.run)
}

proof fn lemma_joined_runs_keep_styles(runs: Seq<TextRun>, run: TextRun)
    requires
        runs.len() > 0 ==> runs.last().len + run.len <= usize::MAX,
    ensures
        styles_of(with_run(runs, run)) == styles_of(runs) + Seq::new(
            run.len as nat,
            |i: int| TextRun { len: 1, ..run },
        ),
{
    let more = with_run(runs, run);
    if runs.len() > 0 && same_style(runs.last(), run) {
        assert(more.drop_last() =~= runs.drop_last());
        assert(styles_of(more) =~= styles_of(runs) + Seq::new(
            run.len as nat,
            |i: int| TextRun { len: 1, ..run },
        ));
    } else {
        assert(more.drop_last() =~= runs);
    }
}

/// Joining runs that look the same changes nothing about the look: byte by
/// byte, the text of a chunk has the style of the cell it belongs to.
pub proof fn law_runs_look_like_their_cells(
    context: RowContext,
    cells: Seq<TerminalCell>,
    count: nat,
)
    requires
        count <= cells.len(),
        forall|i: int| 0 <= i < chunks_of(context, cells, count).0.len()
            ==> crate::text::byte_len(#[trigger] chunks_of(context, cells, count).0[i].text)
            <= usize::MAX,
    ensures
        forall|i: int| 0 <= i < chunks_of(context, cells, count).0.len() ==> styles_of(
            (#[trigger] chunks_of(context, cells, count).0[i]).runs,
        ) == styles_of(runs_of_cells(chunks_of(context, cells, count).0[i].cells)),
    decreases count,
{
    law_chunks_are_whole(context, cells, count);
    if count > 0 {
        let column = (count - 1) as nat;
        let cell = cells[column as int];
        let text_cell = context.text_cell(cell, column as int);
        let (chunks, open) = chunks_of(context, cells, column);
        let (after, _) = chunks_of(context, cells, count);
        lemma_open_chunk(context, cells, column);
        let last = chunks.len() - 1;
        let joins = !is_gap(cell) && !is_alone(cell) && open;
        if joins {
            assert(after[last] == extended_chunk(chunks.last(), text_cell));
            assert(crate::text::byte_len(after[last].text) <= usize::MAX);
            crate::text::lemma_byte_len_concat(chunks.last().text, text_cell.text);
        }
        assert forall|i: int| 0 <= i < chunks.len() implies crate::text::byte_len(
            #[trigger] chunks[i].text,
        ) <= usize::MAX by {
            if !(joins && i == last) {
                assert(chunks[i] == after[i]);
            }
        }
        law_runs_look_like_their_cells(context, cells, column);
        law_chunks_are_whole(context, cells, column);
        assert forall|i: int| 0 <= i < after.len() implies styles_of(
            (#[trigger] after[i]).runs,
        ) == styles_of(runs_of_cells(after[i].cells)) by {
            if joins && i == last {
                assert(chunk_is_whole(chunks[last]));
                lemma_last_run_is_covered(chunks[last].runs);
                lemma_joined_runs_keep_styles(chunks[last].runs, text_cell.run);
                let runs = runs_of_cells(after[i].cells);
                assert(runs.drop_last() =~= runs_of_cells(chunks[last].cells));
                assert(runs.last() == text_cell.run);
            } else if i < chunks.len() {
                assert(after[i] == chunks[i]);
            } else {
                assert(after[i].runs =~= runs_of_cells(after[i].cells));
            }
        }
    }
}

/// What is drawn of a row depends on the cursor of its terminal only where that
/// is visible, and on nothing else of the terminal but its width.
pub proof fn law_rows_are_drawn_in_their_context(
    snapshot: TerminalSnapshot,
    row: int,
    selected: Option<(TerminalCellPosition, TerminalCellPosition)>,
    options: TerminalRenderOptions,
)
    ensures
        ({
            let context = row_context(snapshot, row, selected, options);
            &&& context.columns == snapshot.size.columns
            &&& context.row == row
            &&& context.selected == selected
            &&& context.theme == options.theme
            &&& context.cursor_focused == options.cursor_focused
            &&& snapshot.cursor.visible ==> context.cursor == Some(snapshot.cursor_position())
            &&& !snapshot.cursor.visible ==> context.cursor is None
        }),
{
}

/// A narrow ASCII cell.
pub open spec fn is_plain(cell: TerminalCell) -> bool {
    &&& !cell.flags.wide
    &&& !cell.flags.wide_spacer
    &&& !cell.flags.leading_wide_spacer
    &&& cell.character as u32 <= 0x7f
    &&& cell.zerowidth@.len() == 0
}

/// Neighbouring plain cells are shaped together, and what is scaled to a cell is
/// a single cell.
pub proof fn law_plain_neighbours_are_shaped_together(
    context: RowContext,
    cells: Seq<TerminalCell>,
    count: nat,
    column: int,
)
    requires
        count <= cells.len(),
        0 <= column,
        column + 1 < count,
        is_plain(cells[column]),
        is_plain(cells[column + 1]),
    ensures
        exists|i: int, place: int|
            0 <= i < chunks_of(context, cells, count).0.len() && #[trigger] stands_at(
                chunks_of(context, cells, count).0[i],
                place,
                column,
            ) && place + 1 < chunks_of(context, cells, count).0[i].cells.len() && !chunks_of(
                context,
                cells,
                count,
            ).0[i].requires_cell_scaling,
        forall|i: int|
            0 <= i < chunks_of(context, cells, count).0.len() && (#[trigger] chunks_of(
                context,
                cells,
                count,
            ).0[i]).requires_cell_scaling ==> chunks_of(context, cells, count).0[i].cells.len()
                == 1,
    decreases count,
{
    let last = (count - 1) as nat;
    let cell = cells[last as int];
    let (chunks, open) = chunks_of(context, cells, last);
    let (after, _) = chunks_of(context, cells, count);
    lemma_scaled_chunks_are_single(context, cells, count);
    lemma_open_chunk(context, cells, last);
    if column + 1 == last {
        lemma_plain_cells_open(context, cells, last);
        lemma_plain_cells_open(context, cells, count);
        lemma_open_chunk_ends(context, cells, last);
        lemma_open_chunk_is_plain(context, cells, last);
        let i = after.len() - 1;
        let chunk = chunks.last();
        let place = chunk.cells.len() - 1;
        lemma_last_plain_cell(context, cells, last);
        assert(after[i].cells.take(place) =~= chunk.cells.drop_last());
        assert(stands_at(after[i], place, column));
    } else {
        law_plain_neighbours_are_shaped_together(context, cells, last, column);
        let (i, place) = choose|i: int, place: int|
            0 <= i < chunks.len() && #[trigger] stands_at(chunks[i], place, column) && place + 1
                < chunks[i].cells.len() && !chunks[i].requires_cell_scaling;
        if !is_gap(cell) && !is_alone(cell) && open && i == chunks.len() - 1 {
            assert(after[i].cells.take(place) =~= chunks[i].cells.take(place));
        } else {
            assert(after[i] == chunks[i]);
        }
        assert(stands_at(after[i], place, column));
    }
}

proof fn lemma_plain_cells_open(context: RowContext, cells: Seq<TerminalCell>, count: nat)
    requires
        0 < count <= cells.len(),
        is_plain(cells[count - 1]),
    ensures
        chunks_of(context, cells, count).1,
        !is_alone(cells[count - 1]),
{
    let cell = cells[count - 1];
    assert(cell@.text() =~= seq![cell.character]);
    assert(is_ascii_text(cell@.text()));
}

/// The last cell of an open chunk is the last cell of the row so far.
proof fn lemma_last_plain_cell(context: RowContext, cells: Seq<TerminalCell>, count: nat)
    requires
        0 < count <= cells.len(),
        is_plain(cells[count - 1]),
    ensures
        ({
            let chunk = chunks_of(context, cells, count).0.last();
            &&& chunk.cells.len() > 0
            &&& chunk.start_column + cells_columns(chunk.cells.drop_last()) == count - 1
        }),
{
    lemma_plain_cells_open(context, cells, count);
    let column = (count - 1) as nat;
    let cell = cells[column as int];
    let text_cell = context.text_cell(cell, column as int);
    let (chunks, open) = chunks_of(context, cells, column);
    if open {
        lemma_open_chunk_ends(context, cells, column);
        assert(extended_chunk(chunks.last(), text_cell).cells.drop_last()
            =~= chunks.last().cells);
    } else {
        assert(single_chunk(text_cell, column, false).cells.drop_last() =~= Seq::<
            TextCellModel,
        >::empty());
        assert(cells_columns(Seq::<TextCellModel>::empty()) == 0);
    }
}

proof fn lemma_scaled_chunks_are_single(
    context: RowContext,
    cells: Seq<TerminalCell>,
    count: nat,
)
    requires
        count <= cells.len(),
    ensures
        forall|i: int|
            0 <= i < chunks_of(context, cells, count).0.len() && (#[trigger] chunks_of(
                context,
                cells,
                count,
            ).0[i]).requires_cell_scaling ==> chunks_of(context, cells, count).0[i].cells.len()
                == 1,
    decreases count,
{
    if count > 0 {
        let column = (count - 1) as nat;
        let cell = cells[column as int];
        let (chunks, open) = chunks_of(context, cells, column);
        let (after, _) = chunks_of(context, cells, count);
        lemma_scaled_chunks_are_single(context, cells, column);
        lemma_open_chunk(context, cells, column);
        if open {
            lemma_open_chunk_is_plain(context, cells, column);
        }
        assert forall|i: int|
            0 <= i < after.len() && (#[trigger] after[i]).requires_cell_scaling implies after[i].cells.len()
            == 1 by {
            if i < chunks.len() && !(open && !is_gap(cell) && !is_alone(cell) && i == chunks.len()
                - 1) {
                assert(after[i] == chunks[i]);
            }
        }
    }
}

/// Whether runs next to each other look different.
pub open spec fn runs_differ(runs: Seq<TextRun>) -> bool {
    forall|k: int|
        0 < k < runs.len() ==> {
            let run = #[trigger] runs[k];
            let previous = runs[k - 1];
            !(run.bold == previous.bold && run.italic == previous.italic && run.color
                == previous.color && run.underline == previous.underline && run.strikethrough
                == previous.strikethrough)
        }
}

/// Neighbouring cells that look the same are one run: runs next to each other
/// look different.
pub proof fn law_neighbouring_runs_differ(
    context: RowContext,
    cells: Seq<TerminalCell>,
    count: nat,
    index: int,
)
    requires
        count <= cells.len(),
        0 <= index < chunks_of(context, cells, count).0.len(),
    ensures
        runs_differ(chunks_of(context, cells, count).0[index].runs),
    decreases count,
{
    if count > 0 {
        let column = (count - 1) as nat;
        let cell = cells[column as int];
        let text_cell = context.text_cell(cell, column as int);
        let (chunks, open) = chunks_of(context, cells, column);
        let (after, _) = chunks_of(context, cells, count);
        lemma_open_chunk(context, cells, column);
        if index < chunks.len() {
            law_neighbouring_runs_differ(context, cells, column, index);
        }
        if !is_gap(cell) && !is_alone(cell) && open && index == chunks.len() - 1 {
            lemma_joined_runs_differ(chunks.last().runs, text_cell.run);
        } else if index < chunks.len() {
            assert(after[index] == chunks[index]);
        }
    }
}

proof fn lemma_joined_runs_differ(runs: Seq<TextRun>, run: TextRun)
    requires
        runs_differ(runs),
    ensures
        runs_differ(with_run(runs, run)),
{
    let more = with_run(runs, run);
    assert forall|k: int| 0 < k < more.len() implies {
        let later = #[trigger] more[k];
        let previous = more[k - 1];
        !(later.bold == previous.bold && later.italic == previous.italic && later.color
            == previous.color && later.underline == previous.underline && later.strikethrough
            == previous.strikethrough)
    } by {
        if k < runs.len() {
            assert(runs[k] == runs[k]);
        }
    }
}

/// Neighbouring cells with the same background are one span: spans of one colour
/// do not touch.
pub proof fn law_neighbouring_spans_differ(
    context: RowContext,
    cells: Seq<TerminalCell>,
    count: nat,
    index: int,
)
    requires
        count <= cells.len(),
        0 < index < backgrounds_of(context, cells, count).len(),
    ensures
        ({
            let spans = backgrounds_of(context, cells, count);
            spans[index - 1].color == spans[index].color ==> spans[index - 1].start_column
                + spans[index - 1].width_columns != spans[index].start_column
        }),
    decreases count,
{
    if count > 0 {
        let column = (count - 1) as nat;
        let spans = backgrounds_of(context, cells, column);
        if index < spans.len() {
            law_neighbouring_spans_differ(context, cells, column, index);
        }
    }
}

/// A wide cell, and one whose character is not ASCII, is shaped by itself where
/// it stands and scaled to its cell.
pub proof fn law_other_cells_are_shaped_alone(
    context: RowContext,
    cells: Seq<TerminalCell>,
    count: nat,
    column: int,
)
    requires
        count <= cells.len(),
        0 <= column < count,
        cells[column].flags.wide || cells[column].character as u32 > 0x7f,
        !cells[column].flags.wide_spacer,
        !cells[column].flags.leading_wide_spacer,
    ensures
        exists|i: int|
            0 <= i < chunks_of(context, cells, count).0.len() && (#[trigger] chunks_of(
                context,
                cells,
                count,
            ).0[i]).start_column == column && chunks_of(context, cells, count).0[i].cells.len() == 1
                && chunks_of(context, cells, count).0[i].requires_cell_scaling,
    decreases count,
{
    let last = (count - 1) as nat;
    let cell = cells[last as int];
    let (chunks, open) = chunks_of(context, cells, last);
    let (after, _) = chunks_of(context, cells, count);
    lemma_open_chunk(context, cells, last);
    if column == last {
        assert(cell@.text()[0] == cell.character);
        assert(is_alone(cell));
        assert(after[chunks.len() as int] == single_chunk(
            context.text_cell(cell, last as int),
            last,
            true,
        ));
    } else {
        law_other_cells_are_shaped_alone(context, cells, last, column);
        let i = choose|i: int|
            0 <= i < chunks.len() && (#[trigger] chunks[i]).start_column == column
                && chunks[i].cells.len() == 1 && chunks[i].requires_cell_scaling;
        if open {
            lemma_open_chunk_is_plain(context, cells, last);
        }
        assert(after[i] == chunks[i]);
    }
}

/// As many cells of a row are drawn as the terminal has columns, or as the row
/// has cells where those are fewer.
pub proof fn law_cells_within_the_columns_are_drawn(
    context: RowContext,
    cells: Seq<TerminalCell>,
    column: nat,
)
    ensures
        column < drawn_count(context, cells) <==> column < cells.len() && column < context.columns,
{
}

} // verus!
