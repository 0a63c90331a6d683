//! Painted rows kept from one frame to the next.
//!
//! Shaping text is expensive, so a row that was painted stays painted until
//! its cells, or anything else that its picture depends on, change. When the
//! viewport moves, rows change their coordinates but not their pictures.

use crate::arith::saturating_add_i32;
use crate::arith::saturating_add_i64;
use crate::arith::saturating_sub_i64;
use crate::color::same_theme;
use crate::color::ThemeColors;
use crate::ids::TerminalId;
use crate::offset::equal_numbers;
use crate::selection::TerminalSelection;
use crate::terminal::same_chars;
use crate::terminal::same_row;
use crate::terminal::share;
use crate::terminal::TerminalRow;
use crate::terminal::TerminalSnapshot;
use crate::text::chars_of;
use core::ops::Range;
use std::collections::BTreeMap;
use std::sync::Arc;
use vstd::prelude::*;

verus! {

/// The measures of a cell, as the bits of the numbers they were measured in.
#[derive(Clone, Copy, Debug)]
pub struct CellMetrics {
    pub cell_width: u32,
    pub line_height: u32,
    pub scale_factor: u32,
}

impl CellMetrics {
    /// The measures are equal as numbers.
    pub open spec fn same_as(self, other: CellMetrics) -> bool {
        &&& crate::offset::same_number(self.cell_width, other.cell_width)
        &&& crate::offset::same_number(self.line_height, other.line_height)
        &&& crate::offset::same_number(self.scale_factor, other.scale_factor)
    }

    /// Whether the measures are equal as numbers.
    pub fn equals(&self, other: &Self) -> (same: bool)
        ensures
            same == self.same_as(*other),
    {
        equal_numbers(self.cell_width, other.cell_width) && equal_numbers(
            self.line_height,
            other.line_height,
        ) && equal_numbers(self.scale_factor, other.scale_factor)
    }
}

/// What the painted rows of a terminal depend on.
#[derive(Debug)]
pub struct TerminalRenderCacheKey {
    pub terminal_id: TerminalId,
    pub snapshot_revision: u64,
    pub viewport_position: i64,
    /// Where the focused cursor is drawn. It is part of the picture of its
    /// row, so only the rows it left and entered are painted anew.
    pub focused_cursor: Option<(usize, usize)>,
    pub font_family: String,
    pub font_size_bits: u32,
    pub metrics: CellMetrics,
    pub theme: ThemeColors,
    pub cursor_focused: bool,
    pub selection: Option<TerminalSelection>,
    pub bounds_origin_x_bits: u32,
    pub bounds_width_bits: u32,
}

/// A key with its text as a sequence of characters.
#[verifier::ext_equal]
pub struct KeyModel {
    pub terminal_id: TerminalId,
    pub snapshot_revision: u64,
    pub viewport_position: i64,
    pub focused_cursor: Option<(usize, usize)>,
    pub font_family: Seq<char>,
    pub font_size_bits: u32,
    pub metrics: CellMetrics,
    pub theme: ThemeColors,
    pub cursor_focused: bool,
    pub selection: Option<TerminalSelection>,
    pub bounds_origin_x_bits: u32,
    pub bounds_width_bits: u32,
}

impl View for TerminalRenderCacheKey {
    type V = KeyModel;

    open spec fn view(&self) -> KeyModel {
        KeyModel {
            terminal_id: self.terminal_id,
            snapshot_revision: self.snapshot_revision,
            viewport_position: self.viewport_position,
            focused_cursor: self.focused_cursor,
            font_family: self.font_family@,
            font_size_bits: self.font_size_bits,
            metrics: self.metrics,
            theme: self.theme,
            cursor_focused: self.cursor_focused,
            selection: self.selection,
            bounds_origin_x_bits: self.bounds_origin_x_bits,
            bounds_width_bits: self.bounds_width_bits,
        }
    }
}

impl KeyModel {
    /// Rows painted under one key can be used under the other: the keys differ
    /// at most in which cells there are and where the cursor is.
    pub open spec fn compatible(self, other: KeyModel) -> bool {
        &&& self.metrics.same_as(other.metrics)
        &&& self == (KeyModel {
            snapshot_revision: self.snapshot_revision,
            viewport_position: self.viewport_position,
            focused_cursor: self.focused_cursor,
            metrics: self.metrics,
            ..other
        })
    }

    /// Two keys are the same, with their measures taken as numbers.
    pub open spec fn same_as(self, other: KeyModel) -> bool {
        &&& self.metrics.same_as(other.metrics)
        &&& self == (KeyModel { metrics: self.metrics, ..other })
    }
}

/// Whether two optional selections are the same.
fn same_selection(a: &Option<TerminalSelection>, b: &Option<TerminalSelection>) -> (same: bool)
    ensures
        same == (*a == *b),
{
    match (a, b) {
        (Some(a), Some(b)) => *a == *b,
        (None, None) => true,
        _ => false,
    }
}

fn same_cursor(a: &Option<(usize, usize)>, b: &Option<(usize, usize)>) -> (same: bool)
    ensures
        same == (*a == *b),
{
    match (a, b) {
        (Some(a), Some(b)) => a.0 == b.0 && a.1 == b.1,
        (None, None) => true,
        _ => false,
    }
}

impl TerminalRenderCacheKey {
    pub fn rows_compatible_with(&self, other: &Self) -> (compatible: bool)
        ensures
            compatible == self@.compatible(other@),
    {
        self.terminal_id == other.terminal_id && same_chars(
            &chars_of(self.font_family.as_str()),
            &chars_of(other.font_family.as_str()),
        ) && self.font_size_bits == other.font_size_bits && self.metrics.equals(
            &other.metrics,
        ) && same_theme(&self.theme, &other.theme) && self.cursor_focused == other.cursor_focused
            && same_selection(&self.selection, &other.selection) && self.bounds_origin_x_bits
            == other.bounds_origin_x_bits && self.bounds_width_bits == other.bounds_width_bits
    }

    /// Whether two keys are the same.
    pub fn equals(&self, other: &Self) -> (same: bool)
        ensures
            same == self@.same_as(other@),
    {
        self.rows_compatible_with(other) && self.snapshot_revision == other.snapshot_revision
            && self.viewport_position == other.viewport_position && same_cursor(
            &self.focused_cursor,
            &other.focused_cursor,
        )
    }
}

/// A painted row: the cells it shows and its picture.
pub struct TerminalCachedRowPaint<P> {
    pub cells: TerminalRow,
    pub paint: Arc<P>,
}

/// The painted rows of one terminal, by row coordinate.
pub struct TerminalRenderCache<P> {
    pub key: Option<TerminalRenderCacheKey>,
    pub rows: BTreeMap<i32, TerminalCachedRowPaint<P>>,
}

/// A row to draw: where, and its picture.
pub struct PaintedRow<P> {
    pub row: i32,
    pub paint: Arc<P>,
}

/// The coordinate that a row had before the viewport moved.
pub open spec fn previous_row(row: int, position: int, previous_position: int) -> Option<int> {
    let previous = crate::arith::clamped_i64(
        crate::arith::clamped_i64(row - position) + previous_position,
    );
    if i32::MIN <= previous <= i32::MAX {
        Some(previous)
    } else {
        None
    }
}

pub fn previous_cached_source_row(
    source_row: i32,
    viewport_position: i64,
    previous_viewport_position: i64,
) -> (row: Option<i32>)
    ensures
        match row {
            Some(row) => previous_row(
                source_row as int,
                viewport_position as int,
                previous_viewport_position as int,
            ) == Some(row as int),
            None => previous_row(
                source_row as int,
                viewport_position as int,
                previous_viewport_position as int,
            ) is None,
        },
{
    let moved: i64 = saturating_sub_i64(source_row as i64, viewport_position);
    let previous: i64 = saturating_add_i64(moved, previous_viewport_position);
    if previous < i32::MIN as i64 || previous > i32::MAX as i64 {
        None
    } else {
        Some(previous as i32)
    }
}

/// The focused cursor is drawn in a row.
pub open spec fn cursor_is_in(cursor: Option<(usize, usize)>, row: int) -> bool {
    match cursor {
        Some((cursor_row, _)) => cursor_row <= i32::MAX && cursor_row == row,
        None => false,
    }
}

pub fn terminal_cached_row_cursor_compatible(
    previous_cursor: Option<(usize, usize)>,
    current_cursor: Option<(usize, usize)>,
    previous_source_row: i32,
    current_source_row: i32,
) -> (compatible: bool)
    ensures
        compatible == (!cursor_is_in(previous_cursor, previous_source_row as int) && !cursor_is_in(
            current_cursor,
            current_source_row as int,
        )),
{
    let left: bool = match previous_cursor {
        Some((row, _)) => row <= i32::MAX as usize && row as i64 == previous_source_row as i64,
        None => false,
    };
    let entered: bool = match current_cursor {
        Some((row, _)) => row <= i32::MAX as usize && row as i64 == current_source_row as i64,
        None => false,
    };
    !left && !entered
}

/// A change of key, seen from the painted rows.
pub struct Change {
    pub snapshot: TerminalSnapshot,
    pub key: KeyModel,
    pub previous: Option<KeyModel>,
}

impl Change {
    pub open spec fn previous_position(self) -> int {
        match self.previous {
            Some(key) => key.viewport_position as int,
            None => self.snapshot.viewport_position as int,
        }
    }

    pub open spec fn previous_cursor(self) -> Option<(usize, usize)> {
        match self.previous {
            Some(key) => key.focused_cursor,
            None => None,
        }
    }

    /// The coordinate of a row of the new snapshot before the change.
    pub open spec fn origin(self, row: int) -> Option<int> {
        previous_row(row, self.snapshot.viewport_position as int, self.previous_position())
    }

    /// A row of the new snapshot, up to `row`, takes the painted row `origin`.
    pub open spec fn is_claimed(self, origin: int, row: int) -> bool {
        exists|earlier: int|
            -(self.snapshot.rows_before.len() as int) <= earlier < row && (
            #[trigger] self.snapshot.relative_shared(earlier)) is Some && self.origin(earlier)
                == Some(origin)
    }

    /// The picture of a row survives: it was painted, nobody else takes it,
    /// its cells look the same and the cursor neither left nor entered it.
    pub open spec fn survives<P>(
        self,
        rows: Map<i32, TerminalCachedRowPaint<P>>,
        row: int,
    ) -> bool {
        &&& -(self.snapshot.rows_before.len() as int) <= row < self.snapshot.size.lines
            + self.snapshot.rows_after.len()
        &&& self.snapshot.relative_shared(row) is Some
        &&& self.origin(row) is Some
        &&& {
            let origin = self.origin(row)->0;
            &&& !self.is_claimed(origin, row)
            &&& rows.contains_key(origin as i32)
            &&& !cursor_is_in(self.previous_cursor(), origin)
            &&& !cursor_is_in(self.key.focused_cursor, row)
            &&& crate::terminal::row_contents(rows[origin as i32].cells)
                == crate::terminal::row_contents(self.snapshot.relative_shared(row)->0)
        }
    }

    /// The painted rows up to `end` after the change.
    pub open spec fn kept<P>(self, rows: Map<i32, TerminalCachedRowPaint<P>>, end: int) -> Map<
        i32,
        TerminalCachedRowPaint<P>,
    > {
        Map::new(
            |row: i32| row < end && self.survives(rows, row as int),
            |row: i32|
                TerminalCachedRowPaint {
                    cells: self.snapshot.relative_shared(row as int)->0,
                    paint: rows[self.origin(row as int)->0 as i32].paint,
                },
        )
    }
}

/// The key of a cache as a model.
pub open spec fn key_model(key: Option<TerminalRenderCacheKey>) -> Option<KeyModel> {
    match key {
        Some(key) => Some(key@),
        None => None,
    }
}

impl<P> TerminalRenderCache<P> {
    pub fn new() -> (cache: Self)
        ensures
            cache.key is None,
            cache.rows@ == Map::<i32, TerminalCachedRowPaint<P>>::empty(),
    {
        TerminalRenderCache { key: None, rows: BTreeMap::new() }
    }

    /// The key after a change: one that is the same as before stays.
    pub open spec fn key_after(self, key: KeyModel) -> KeyModel {
        match key_model(self.key) {
            Some(previous) => if previous.same_as(key) {
                previous
            } else {
                key
            },
            None => key,
        }
    }

    /// The painted rows after a change of key: none where the keys are not
    /// compatible, else those that survive.
    pub open spec fn rows_after(self, snapshot: TerminalSnapshot, key: KeyModel) -> Map<
        i32,
        TerminalCachedRowPaint<P>,
    > {
        let previous = key_model(self.key);
        if previous is Some && previous->0.same_as(key) {
            self.rows@
        } else if previous is Some && previous->0.compatible(key) {
            Change { snapshot, key, previous }.kept(
                self.rows@,
                snapshot.size.lines + snapshot.rows_after.len(),
            )
        } else {
            Map::empty()
        }
    }

    /// Takes over a snapshot: keeps the rows whose picture is still right.
    pub fn refresh(&mut self, snapshot: &TerminalSnapshot, key: TerminalRenderCacheKey)
        requires
            snapshot.wf(),
        ensures
            key_model(final(self).key) == Some(old(self).key_after(key@)),
            final(self).rows@ == old(self).rows_after(*snapshot, key@),
    {
        let unchanged: bool = match &self.key {
            Some(previous) => previous.equals(&key),
            None => false,
        };
        if unchanged {
            return;
        }
        let compatible: bool = match &self.key {
            Some(previous) => previous.rows_compatible_with(&key),
            None => false,
        };
        let mut previous_rows: BTreeMap<i32, TerminalCachedRowPaint<P>> = BTreeMap::new();
        std::mem::swap(&mut previous_rows, &mut self.rows);
        let mut rows: BTreeMap<i32, TerminalCachedRowPaint<P>> = BTreeMap::new();
        if compatible {
            let (previous_position, previous_cursor): (i64, Option<(usize, usize)>) = match &self.key {
                Some(previous) => (previous.viewport_position, previous.focused_cursor),
                None => (snapshot.viewport_position, None),
            };
            let ghost change = Change {
                snapshot: *snapshot,
                key: key@,
                previous: key_model(self.key),
            };
            let ghost painted = old(self).rows@;
            let first: i32 = -(snapshot.rows_before.len() as i32);
            let end: i32 = (snapshot.size.lines + snapshot.rows_after.len()) as i32;
            let mut source_row: i32 = first;
            assert(rows@ =~= change.kept(painted, first as int));
            while source_row < end
                invariant
                    snapshot.wf(),
                    change.snapshot == *snapshot,
                    change.key == key@,
                    change.previous_position() == previous_position,
                    change.previous_cursor() == previous_cursor,
                    first == -(snapshot.rows_before.len() as int),
                    end == snapshot.size.lines + snapshot.rows_after.len(),
                    first <= source_row <= end,
                    rows@ == change.kept(painted, source_row as int),
                    forall|row: i32| #[trigger]
                        previous_rows@.contains_key(row) <==> painted.contains_key(row)
                            && !change.is_claimed(row as int, source_row as int),
                    forall|row: i32| #[trigger]
                        previous_rows@.contains_key(row) ==> previous_rows@[row] == painted[row],
                decreases end - source_row,
            {
                let ghost claimed_before = previous_rows@;
                let cells: Option<&TerminalRow> = snapshot.relative_row(source_row);
                let origin: Option<i32> = previous_cached_source_row(
                    source_row,
                    snapshot.viewport_position,
                    previous_position,
                );
                assert(change.origin(source_row as int) == (match origin {
                    Some(row) => Some(row as int),
                    None => None,
                }));
                match (cells, origin) {
                    (Some(cells), Some(origin)) => {
                        let taken: Option<TerminalCachedRowPaint<P>> = previous_rows.remove(&origin);
                        if let Some(previous) = taken {
                            if terminal_cached_row_cursor_compatible(
                                previous_cursor,
                                key.focused_cursor,
                                origin,
                                source_row,
                            ) && same_row(&previous.cells, cells) {
                                rows.insert(
                                    source_row,
                                    TerminalCachedRowPaint {
                                        cells: share(cells),
                                        paint: previous.paint,
                                    },
                                );
                            }
                        }
                        proof {
                            assert(snapshot.relative_shared(source_row as int) is Some);
                            lemma_claims_grow(change, source_row as int, origin as int);
                        }
                    },
                    _ => {
                        proof {
                            lemma_claims_stay(change, source_row as int);
                        }
                    },
                }
                source_row += 1;
                assert(rows@ =~= change.kept(painted, source_row as int));
            }
        }
        self.rows = rows;
        self.key = Some(key);
    }

    /// The rows among `prepared` that the snapshot has and that are not
    /// painted yet, in order.
    pub fn missing_rows(&self, snapshot: &TerminalSnapshot, prepared: Range<i32>) -> (missing: Vec<i32>)
        requires
            snapshot.wf(),
        ensures
            missing@ == missing_between(
                self.rows@.dom(),
                *snapshot,
                prepared.start as int,
                prepared.end as int,
            ),
    {
        let mut missing: Vec<i32> = Vec::new();
        let mut row: i32 = prepared.start;
        while row < prepared.end
            invariant
                snapshot.wf(),
                prepared.start <= row,
                prepared.start <= prepared.end ==> row <= prepared.end,
                prepared.start > prepared.end ==> row == prepared.start,
                missing@ =~= missing_between(
                    self.rows@.dom(),
                    *snapshot,
                    prepared.start as int,
                    row as int,
                ),
            decreases prepared.end - row,
        {
            if !self.rows.contains_key(&row) && snapshot.relative_row(row).is_some() {
                missing.push(row);
            }
            row += 1;
        }
        missing
    }

    /// Puts the picture of a row.
    pub fn put(&mut self, row: i32, cells: &TerminalRow, paint: Arc<P>)
        ensures
            final(self).rows@ == old(self).rows@.insert(
                row,
                TerminalCachedRowPaint { cells: *cells, paint },
            ),
            final(self).key == old(self).key,
    {
        self.rows.insert(row, TerminalCachedRowPaint { cells: share(cells), paint });
    }

    /// The pictures of the visible rows, moved by whole rows.
    pub fn visible_rows(&self, source_rows: Range<i32>, whole: i32) -> (visible: Vec<PaintedRow<P>>)
        ensures
            visible@ == painted_between(
                self.rows@,
                source_rows.start as int,
                source_rows.end as int,
                whole as int,
            ),
    {
        let mut visible: Vec<PaintedRow<P>> = Vec::new();
        let mut row: i32 = source_rows.start;
        while row < source_rows.end
            invariant
                source_rows.start <= row,
                source_rows.start <= source_rows.end ==> row <= source_rows.end,
                source_rows.start > source_rows.end ==> row == source_rows.start,
                visible@ =~= painted_between(
                    self.rows@,
                    source_rows.start as int,
                    row as int,
                    whole as int,
                ),
            decreases source_rows.end - row,
        {
            if let Some(cached) = self.rows.get(&row) {
                visible.push(
                    PaintedRow { row: saturating_add_i32(row, whole), paint: share(&cached.paint) },
                );
            }
            row += 1;
        }
        visible
    }
}

/// The rows from `start` up to `end` that a snapshot has and that are not
/// painted.
pub open spec fn missing_between(
    painted: Set<i32>,
    snapshot: TerminalSnapshot,
    start: int,
    end: int,
) -> Seq<i32>
    decreases end - start,
{
    if end <= start {
        Seq::empty()
    } else {
        let rows = missing_between(painted, snapshot, start, end - 1);
        if !painted.contains((end - 1) as i32) && snapshot.relative_shared(end - 1) is Some {
            rows.push((end - 1) as i32)
        } else {
            rows
        }
    }
}

/// The pictures of the painted rows from `start` up to `end`, moved by whole
/// rows.
pub open spec fn painted_between<P>(
    rows: Map<i32, TerminalCachedRowPaint<P>>,
    start: int,
    end: int,
    whole: int,
) -> Seq<PaintedRow<P>>
    decreases end - start,
{
    if end <= start {
        Seq::empty()
    } else {
        let painted = painted_between(rows, start, end - 1, whole);
        if rows.contains_key((end - 1) as i32) {
            painted.push(
                PaintedRow {
                    row: crate::arith::clamped_i32(end - 1 + whole) as i32,
                    paint: rows[(end - 1) as i32].paint,
                },
            )
        } else {
            painted
        }
    }
}

proof fn lemma_claims_grow(change: Change, row: int, origin: int)
    requires
        -(change.snapshot.rows_before.len() as int) <= row,
        change.snapshot.relative_shared(row) is Some,
        change.origin(row) == Some(origin),
    ensures
        forall|other: int| #[trigger]
            change.is_claimed(other, row + 1) <==> change.is_claimed(other, row) || other == origin,
{
    assert forall|other: int| #[trigger]
        change.is_claimed(other, row + 1) <==> change.is_claimed(other, row) || other == origin by {
        if change.is_claimed(other, row) {
            let earlier = choose|earlier: int|
                -(change.snapshot.rows_before.len() as int) <= earlier < row && (
                #[trigger] change.snapshot.relative_shared(earlier)) is Some && change.origin(
                    earlier,
                ) == Some(other);
            assert(change.snapshot.relative_shared(earlier) is Some);
        }
        if change.is_claimed(other, row + 1) && !change.is_claimed(other, row) {
            let earlier = choose|earlier: int|
                -(change.snapshot.rows_before.len() as int) <= earlier < row + 1 && (
                #[trigger] change.snapshot.relative_shared(earlier)) is Some && change.origin(
                    earlier,
                ) == Some(other);
            assert(earlier == row);
        }
    }
}

proof fn lemma_claims_stay(change: Change, row: int)
    requires
        change.snapshot.relative_shared(row) is None || change.origin(row) is None,
    ensures
        forall|other: int| #[trigger]
            change.is_claimed(other, row + 1) <==> change.is_claimed(other, row),
{
    assert forall|other: int| #[trigger]
        change.is_claimed(other, row + 1) <==> change.is_claimed(other, row) by {
        if change.is_claimed(other, row + 1) {
            let earlier = choose|earlier: int|
                -(change.snapshot.rows_before.len() as int) <= earlier < row + 1 && (
                #[trigger] change.snapshot.relative_shared(earlier)) is Some && change.origin(
                    earlier,
                ) == Some(other);
            assert(change.snapshot.relative_shared(earlier) is Some);
        }
        if change.is_claimed(other, row) {
            let earlier = choose|earlier: int|
                -(change.snapshot.rows_before.len() as int) <= earlier < row && (
                #[trigger] change.snapshot.relative_shared(earlier)) is Some && change.origin(
                    earlier,
                ) == Some(other);
            assert(change.snapshot.relative_shared(earlier) is Some);
        }
    }
}

/// A row that stays painted after a change shows the cells of the new
/// snapshot, keeps its picture, and holds the cursor neither before nor after.
pub proof fn law_kept_rows_show_the_snapshot<P>(
    change: Change,
    rows: Map<i32, TerminalCachedRowPaint<P>>,
    end: int,
    row: i32,
)
    requires
        change.kept(rows, end).contains_key(row),
    ensures
        ({
            let origin = change.origin(row as int)->0 as i32;
            let kept = change.kept(rows, end)[row];
            &&& change.snapshot.relative_shared(row as int) == Some(kept.cells)
            &&& crate::terminal::row_contents(rows[origin].cells)
                == crate::terminal::row_contents(kept.cells)
            &&& kept.paint == rows[origin].paint
            &&& !cursor_is_in(change.key.focused_cursor, row as int)
        }),
{
}

/// A viewport that moves leaves the pictures alone: a painted row whose cells
/// did not change and that the cursor does not touch is found again under its
/// new coordinate.
pub proof fn law_moving_keeps_pictures<P>(
    change: Change,
    rows: Map<i32, TerminalCachedRowPaint<P>>,
    row: i32,
)
    requires
        change.snapshot.wf(),
        -0x4000_0000_0000_0000 <= change.snapshot.viewport_position <= 0x4000_0000_0000_0000,
        -0x4000_0000_0000_0000 <= change.previous_position() <= 0x4000_0000_0000_0000,
        -change.snapshot.rows_before.len() <= row < change.snapshot.size.lines
            + change.snapshot.rows_after.len(),
        change.snapshot.relative_shared(row as int) is Some,
        ({
            let origin = row - change.snapshot.viewport_position + change.previous_position();
            &&& i32::MIN <= origin <= i32::MAX
            &&& rows.contains_key(origin as i32)
            &&& crate::terminal::row_contents(rows[origin as i32].cells)
                == crate::terminal::row_contents(change.snapshot.relative_shared(row as int)->0)
            &&& !cursor_is_in(change.previous_cursor(), origin)
        }),
        !cursor_is_in(change.key.focused_cursor, row as int),
    ensures
        ({
            let origin = row - change.snapshot.viewport_position + change.previous_position();
            let kept = change.kept(
                rows,
                change.snapshot.size.lines + change.snapshot.rows_after.len(),
            );
            kept.contains_key(row) && kept[row].paint == rows[origin as i32].paint
        }),
{
    let origin = row - change.snapshot.viewport_position + change.previous_position();
    assert(change.origin(row as int) == Some(origin));
    assert(!change.is_claimed(origin, row as int)) by {
        if change.is_claimed(origin, row as int) {
            let earlier = choose|earlier: int|
                -(change.snapshot.rows_before.len() as int) <= earlier < row && (
                #[trigger] change.snapshot.relative_shared(earlier)) is Some && change.origin(
                    earlier,
                ) == Some(origin);
            assert(change.origin(earlier) == Some(
                earlier - change.snapshot.viewport_position + change.previous_position(),
            ) || change.origin(earlier) is None);
        }
    }
}

/// After the missing rows were painted, every visible row that the snapshot
/// has is drawn.
pub proof fn law_nothing_visible_is_missing(
    painted: Set<i32>,
    snapshot: TerminalSnapshot,
    start: int,
    end: int,
    row: i32,
)
    requires
        i32::MIN <= start,
        end <= i32::MAX,
        start <= row < end,
        snapshot.relative_shared(row as int) is Some,
    ensures
        painted.contains(row) || missing_between(painted, snapshot, start, end).contains(row),
    decreases end - start,
{
    let rows = missing_between(painted, snapshot, start, end - 1);
    let all = missing_between(painted, snapshot, start, end);
    if row < end - 1 {
        law_nothing_visible_is_missing(painted, snapshot, start, end - 1, row);
        if rows.contains(row) {
            let i = choose|i: int| 0 <= i < rows.len() && rows[i] == row;
            assert(all[i] == row);
        }
    } else if !painted.contains(row) {
        assert(all == rows.push(row));
        assert(all[rows.len() as int] == row);
    }
}

/// Rows stay painted while what they are painted with stays: terminal, font,
/// theme, selection, focus and place. Revision, position and cursor may differ.
pub proof fn law_rows_stay_while_their_look_does(key: KeyModel, other: KeyModel)
    ensures
        key.compatible(other) <==> key.terminal_id == other.terminal_id && key.font_family
            == other.font_family && key.font_size_bits == other.font_size_bits
            && key.metrics.same_as(other.metrics) && key.theme == other.theme && key.cursor_focused
            == other.cursor_focused && key.selection == other.selection && key.bounds_origin_x_bits
            == other.bounds_origin_x_bits && key.bounds_width_bits == other.bounds_width_bits,
        key.same_as(other) <==> key.compatible(other) && key.snapshot_revision
            == other.snapshot_revision && key.viewport_position == other.viewport_position
            && key.focused_cursor == other.focused_cursor,
        key.metrics.same_as(other.metrics) <==> crate::offset::same_number(
            key.metrics.cell_width,
            other.metrics.cell_width,
        ) && crate::offset::same_number(key.metrics.line_height, other.metrics.line_height)
            && crate::offset::same_number(key.metrics.scale_factor, other.metrics.scale_factor),
{
}

/// Nothing stays painted where the look changed; everything does where nothing
/// changed at all.
pub proof fn law_other_looks_are_painted_anew<P>(
    cache: TerminalRenderCache<P>,
    snapshot: TerminalSnapshot,
    previous: KeyModel,
    key: KeyModel,
)
    requires
        key_model(cache.key) == Some(previous),
    ensures
        !previous.compatible(key) ==> cache.rows_after(snapshot, key).dom() == Set::<i32>::empty(),
        previous.same_as(key) ==> cache.rows_after(snapshot, key) == cache.rows@,
        !previous.same_as(key) ==> cache.key_after(key) == key,
{
}

/// A row is found again where the viewport has moved it: down by the rows that
/// it went back into the history.
pub proof fn law_rows_move_with_the_viewport(row: i32, position: i64, previous: i64)
    requires
        -0x4000_0000_0000_0000 <= position <= 0x4000_0000_0000_0000,
        -0x4000_0000_0000_0000 <= previous <= 0x4000_0000_0000_0000,
    ensures
        i32::MIN <= row - (position - previous) <= i32::MAX ==> previous_row(
            row as int,
            position as int,
            previous as int,
        ) == Some(row - (position - previous)),
        !(i32::MIN <= row - (position - previous) <= i32::MAX) ==> previous_row(
            row as int,
            position as int,
            previous as int,
        ) is None,
{
}

/// Each painted row is drawn, moved by the whole rows of the picture, in order
/// from above.
pub proof fn law_painted_rows_are_drawn_moved<P>(
    rows: Map<i32, TerminalCachedRowPaint<P>>,
    start: int,
    end: int,
    whole: int,
    row: i32,
)
    requires
        i32::MIN <= start,
        end <= i32::MAX,
        start <= row < end,
        rows.contains_key(row),
        i32::MIN <= row + whole <= i32::MAX,
    ensures
        painted_between(rows, start, end, whole).contains(
            PaintedRow { row: (row + whole) as i32, paint: rows[row].paint },
        ),
    decreases end - start,
{
    let fewer = painted_between(rows, start, end - 1, whole);
    let all = painted_between(rows, start, end, whole);
    let wanted = PaintedRow { row: (row + whole) as i32, paint: rows[row].paint };
    if row < end - 1 {
        law_painted_rows_are_drawn_moved(rows, start, end - 1, whole, row);
        let i = choose|i: int| 0 <= i < fewer.len() && fewer[i] == wanted;
        assert(all[i] == wanted);
    } else {
        assert(all[fewer.len() as int] == wanted);
    }
}

/// What is drawn was painted, and what is painted anew was not and has cells.
pub proof fn law_only_painted_rows_are_drawn<P>(
    rows: Map<i32, TerminalCachedRowPaint<P>>,
    snapshot: TerminalSnapshot,
    start: int,
    end: int,
    whole: int,
    index: int,
)
    requires
        i32::MIN <= start,
        end <= i32::MAX,
    ensures
        painted_between(rows, start, end, whole).len() <= if start <= end {
            end - start
        } else {
            0
        },
        ({
            let missing = missing_between(rows.dom(), snapshot, start, end);
            0 <= index < missing.len() ==> start <= missing[index] < end && !rows.contains_key(
                missing[index],
            ) && snapshot.relative_shared(missing[index] as int) is Some
        }),
    decreases end - start,
{
    if start < end {
        law_only_painted_rows_are_drawn(rows, snapshot, start, end - 1, whole, index);
    }
}

} // verus!
