//! Text that an input method composes in a terminal.

use crate::ids::TerminalId;
use crate::text::char_index_covering;
use crate::text::char_index_within;
use crate::text::chars_of;
use crate::text::copy_chars;
use crate::text::normalize_utf16_range;
use crate::text::splice_chars;
use crate::text::text_of;
use crate::text::utf16_len;
use core::ops::Range;
use vstd::prelude::*;

verus! {

/// The composition of the input method: the terminal it belongs to, its text
/// and the part of it that is selected, in UTF-16 units.
#[derive(Debug)]
pub struct ImeState {
    pub terminal: Option<TerminalId>,
    pub marked_text: String,
    pub selected_range: Range<usize>,
}

#[verifier::ext_equal]
pub struct ImeModel {
    pub terminal: Option<TerminalId>,
    pub marked: Seq<char>,
    pub selected: (nat, nat),
}

impl View for ImeState {
    type V = ImeModel;

    open spec fn view(&self) -> ImeModel {
        ImeModel {
            terminal: self.terminal,
            marked: self.marked_text@,
            selected: (self.selected_range.start as nat, self.selected_range.end as nat),
        }
    }
}

/// The part of a text between two unit offsets, whole characters only.
pub open spec fn text_between(text: Seq<char>, start: nat, end: nat) -> Seq<char> {
    text.subrange(
        crate::text::chars_within_units(text, start) as int,
        crate::text::chars_covering_units(text, end) as int,
    )
}

/// A text with the part between two unit offsets replaced.
pub open spec fn text_replaced(text: Seq<char>, start: nat, end: nat, with: Seq<char>) -> Seq<
    char,
> {
    text.take(crate::text::chars_within_units(text, start) as int) + with + text.skip(
        crate::text::chars_covering_units(text, end) as int,
    )
}

/// An offset stopped at the largest that exists.
pub open spec fn capped(offset: nat) -> nat {
    if offset <= usize::MAX {
        offset
    } else {
        usize::MAX as nat
    }
}

impl ImeModel {
    /// Nothing is composed anywhere.
    pub open spec fn idle() -> Self {
        ImeModel { terminal: None, marked: Seq::empty(), selected: (0, 0) }
    }

    /// Nothing is composed, in the same terminal.
    pub open spec fn unmarked(self) -> Self {
        ImeModel { marked: Seq::empty(), selected: (0, 0), ..self }
    }

    pub open spec fn units(self) -> nat {
        crate::text::unit_len(self.marked)
    }

    /// The part to replace: the given range as far as there is text, or all.
    pub open spec fn replacement(self, range: Option<Range<usize>>) -> (nat, nat) {
        match range {
            Some(range) => crate::text::normalized_range(range, self.units()),
            None => (0, self.units()),
        }
    }

    /// With a part of the composition replaced. The selection given counts
    /// inside the new part; without one the caret stands behind it.
    pub open spec fn composed(
        self,
        terminal: TerminalId,
        range: Option<Range<usize>>,
        text: Seq<char>,
        selected: Option<Range<usize>>,
    ) -> Self {
        let (start, end) = self.replacement(range);
        let units = crate::text::unit_len(text);
        ImeModel {
            terminal: Some(terminal),
            marked: text_replaced(self.marked, start, end, text),
            selected: match selected {
                Some(selected) => {
                    let inner = crate::text::normalized_range(selected, units);
                    (capped(start + inner.0), capped(start + inner.1))
                },
                None => (capped(start + units), capped(start + units)),
            },
        }
    }
}

impl ImeState {
    pub fn new() -> (state: Self)
        ensures
            state@ == ImeModel::idle(),
    {
        ImeState { terminal: None, marked_text: String::new(), selected_range: 0..0 }
    }

    pub fn clear(&mut self)
        ensures
            final(self)@ == ImeModel::idle(),
    {
        self.terminal = None;
        self.marked_text = String::new();
        self.selected_range = 0..0;
    }

    pub fn reset_marked_text(&mut self)
        ensures
            final(self)@ == old(self)@.unmarked(),
    {
        self.marked_text = String::new();
        self.selected_range = 0..0;
    }

    /// The length of the composition.
    pub fn length(&self) -> (units: usize)
        ensures
            units == self@.units(),
    {
        utf16_len(self.marked_text.as_str())
    }

    /// The part of the composition in a range, and the range as far as there
    /// is text.
    pub fn text_for_range(&self, range: Range<usize>) -> (part: (String, Range<usize>))
        ensures
            ({
                let cut = crate::text::normalized_range(range, self@.units());
                &&& (part.1.start as nat, part.1.end as nat) == cut
                &&& part.0@ == text_between(self@.marked, cut.0, cut.1)
            }),
    {
        let cut = normalize_utf16_range(range, self.length());
        let chars = chars_of(self.marked_text.as_str());
        let start: usize = char_index_within(&chars, cut.start);
        let end: usize = char_index_covering(&chars, cut.end);
        proof {
            crate::text::law_normalized_ranges_are_readable(
                self@.marked,
                cut.start as nat,
                cut.end as nat,
            );
        }
        let part = copy_chars(&chars, start, end);
        (text_of(part.as_slice()), cut)
    }

    /// The selected part of the composition.
    pub fn selection(&self) -> (range: Range<usize>)
        ensures
            (range.start as nat, range.end as nat) == crate::text::normalized_range(
                self.selected_range,
                self@.units(),
            ),
    {
        normalize_utf16_range(self.selected_range.start..self.selected_range.end, self.length())
    }

    /// The range of the composition, where there is one.
    pub fn marked_range(&self) -> (range: Option<Range<usize>>)
        ensures
            match range {
                Some(range) => self@.marked.len() > 0 && self@.terminal is Some && range.start == 0
                    && range.end == self@.units(),
                None => self@.marked.len() == 0 || self@.terminal is None,
            },
    {
        if self.marked_text.as_str().is_empty() || self.terminal.is_none() {
            None
        } else {
            Some(0..self.length())
        }
    }

    pub fn select(&mut self, range: Range<usize>)
        ensures
            final(self)@ == (ImeModel {
                selected: crate::text::normalized_range(range, old(self)@.units()),
                ..old(self)@
            }),
    {
        self.selected_range = normalize_utf16_range(range, self.length());
    }

    /// Replaces a part of the composition.
    pub fn compose(
        &mut self,
        terminal_id: TerminalId,
        range: Option<Range<usize>>,
        text: &str,
        selected: Option<Range<usize>>,
    )
        ensures
            final(self)@ == old(self)@.composed(terminal_id, range, text@, selected),
    {
        let units: usize = self.length();
        let replacement: Range<usize> = match range {
            Some(range) => normalize_utf16_range(range, units),
            None => 0..units,
        };
        let chars = chars_of(self.marked_text.as_str());
        let start: usize = char_index_within(&chars, replacement.start);
        let end: usize = char_index_covering(&chars, replacement.end);
        let new_units: usize = utf16_len(text);
        proof {
            crate::text::law_normalized_ranges_are_readable(
                self@.marked,
                replacement.start as nat,
                replacement.end as nat,
            );
        }
        let updated = splice_chars(&chars, start, end, &chars_of(text));
        let marked = text_of(updated.as_slice());
        self.selected_range = match selected {
            Some(selected) => {
                let inner = normalize_utf16_range(selected, new_units);
                replacement.start.saturating_add(inner.start)..replacement.start.saturating_add(inner.end)
            },
            None => {
                let caret: usize = replacement.start.saturating_add(new_units);
                caret..caret
            },
        };
        self.marked_text = marked;
        self.terminal = Some(terminal_id);
    }
}

/// A new composition replaces the whole of the one before where no range is
/// given; the caret stands behind it unless a selection inside it is given.
pub proof fn law_compositions_replace_each_other(
    ime: ImeModel,
    terminal: TerminalId,
    text: Seq<char>,
    selected: Range<usize>,
)
    requires
        crate::text::unit_len(text) <= usize::MAX,
    ensures
        ({
            let next = ime.composed(terminal, None, text, None);
            let chosen = ime.composed(terminal, None, text, Some(selected));
            let units = crate::text::unit_len(text);
            &&& next.terminal == Some(terminal)
            &&& next.marked == text
            &&& next.selected == (units, units)
            &&& chosen.marked == text
            &&& selected.start <= selected.end <= units ==> chosen.selected == (
                selected.start as nat,
                selected.end as nat,
            )
        }),
{
    let marked = ime.marked;
    let units = crate::text::unit_len(marked);
    crate::text::law_offsets_lead_to_character_boundaries(marked, 0);
    crate::text::law_offsets_lead_to_character_boundaries(marked, units);
    let floor = crate::text::chars_within_units(marked, 0) as int;
    lemma_no_units_no_characters(marked, floor);
    let ceiling = crate::text::chars_covering_units(marked, units) as int;
    assert(marked.take(marked.len() as int) =~= marked);
    if ceiling < marked.len() {
        lemma_units_grow(marked, ceiling);
    }
    assert(marked.take(0) =~= Seq::<char>::empty());
    assert(marked.skip(marked.len() as int) =~= Seq::<char>::empty());
    assert(text_replaced(marked, 0, units, text) =~= text);
}

proof fn lemma_no_units_no_characters(text: Seq<char>, count: int)
    requires
        0 <= count <= text.len(),
        crate::text::unit_len(text.take(count)) <= 0,
    ensures
        count == 0,
{
    if count > 0 {
        let front = text.take(count);
        assert(front.len() > 0);
        assert(crate::text::unit_len(front) >= 1);
    }
}

proof fn lemma_units_grow(text: Seq<char>, count: int)
    requires
        0 <= count < text.len(),
    ensures
        crate::text::unit_len(text.take(count)) < crate::text::unit_len(text),
    decreases text.len(),
{
    let front = text.drop_last();
    if count == front.len() {
        assert(text.take(count) =~= front);
    } else {
        lemma_units_grow(front, count);
        assert(front.take(count) =~= text.take(count));
    }
}

/// Ending a composition leaves nothing marked; dropping it altogether also
/// leaves the terminal.
pub proof fn law_unmarking_leaves_nothing(ime: ImeModel)
    ensures
        ime.unmarked().marked.len() == 0,
        ime.unmarked().selected == (0nat, 0nat),
        ime.unmarked().terminal == ime.terminal,
        ImeModel::idle().marked.len() == 0,
        ImeModel::idle().terminal is None,
{
}

proof fn lemma_boundaries_are_found(before: Seq<char>, after: Seq<char>)
    ensures
        crate::text::chars_within_units(before + after, crate::text::unit_len(before))
            == before.len(),
        crate::text::chars_covering_units(before + after, crate::text::unit_len(before))
            == before.len(),
{
    let text = before + after;
    let offset = crate::text::unit_len(before);
    let place = before.len() as int;
    assert(text.take(place) =~= before);
    crate::text::law_offsets_lead_to_character_boundaries(text, offset);
    let floor = crate::text::chars_within_units(text, offset) as int;
    let ceiling = crate::text::chars_covering_units(text, offset) as int;
    if floor < place {
        if floor + 1 < place {
            crate::text::lemma_prefix_monotonic(text, floor + 1, place);
        }
    } else if floor > place {
        crate::text::lemma_prefix_monotonic(text, place, floor);
    }
    if ceiling < place {
        crate::text::lemma_prefix_monotonic(text, ceiling, place);
    } else if ceiling > place {
        if ceiling - 1 > place {
            crate::text::lemma_prefix_monotonic(text, place, ceiling - 1);
        }
    }
}

/// A range of a composition is replaced alone: what stands before and behind it
/// stays, and the caret stands behind what was put there.
pub proof fn law_ranges_of_compositions_are_replaced(
    ime: ImeModel,
    terminal: TerminalId,
    before: Seq<char>,
    replaced: Seq<char>,
    after: Seq<char>,
    text: Seq<char>,
    range: Range<usize>,
)
    requires
        ime.marked == before + replaced + after,
        range.start == crate::text::unit_len(before),
        range.end == crate::text::unit_len(before + replaced),
        crate::text::unit_len(before) + crate::text::unit_len(text) <= usize::MAX,
    ensures
        ({
            let next = ime.composed(terminal, Some(range), text, None);
            let caret = crate::text::unit_len(before) + crate::text::unit_len(text);
            &&& next.marked == before + text + after
            &&& next.selected == (caret, caret)
            &&& next.terminal == Some(terminal)
        }),
        text_between(ime.marked, range.start as nat, range.end as nat) == replaced,
{
    let head = before + replaced;
    assert(before + (replaced + after) =~= ime.marked);
    assert(head + after =~= ime.marked);
    lemma_boundaries_are_found(before, replaced + after);
    lemma_boundaries_are_found(head, after);
    crate::text::lemma_unit_len_concat(before, replaced);
    crate::text::lemma_unit_len_concat(head, after);
    assert(ime.marked.take(before.len() as int) =~= before);
    assert(ime.marked.skip(head.len() as int) =~= after);
    assert(ime.marked.subrange(before.len() as int, head.len() as int) =~= replaced);
}

} // verus!
