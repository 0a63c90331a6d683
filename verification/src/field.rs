//! The editable line of a dialog.

use crate::text::chars_of;
use crate::text::copy_chars;
use crate::text::splice_chars;
use crate::text::text_of;
use crate::text::trim_chars;
use vstd::prelude::*;

verus! {

/// A line of text with a caret. While an input method composes, the text
/// between `ime_base` and the caret is what it has composed so far. A base
/// behind the caret is left over from a text that is gone.
#[derive(Debug)]
pub struct TextField {
    pub chars: Vec<char>,
    /// Characters before the caret.
    pub caret: usize,
    /// Characters before the composition.
    pub ime_base: usize,
    pub caret_visible: bool,
}

#[verifier::ext_equal]
pub struct FieldModel {
    pub text: Seq<char>,
    pub caret: nat,
    pub ime_base: nat,
    pub caret_visible: bool,
}

impl View for TextField {
    type V = FieldModel;

    open spec fn view(&self) -> FieldModel {
        FieldModel {
            text: self.chars@,
            caret: self.caret as nat,
            ime_base: self.ime_base as nat,
            caret_visible: self.caret_visible,
        }
    }
}

impl FieldModel {
    /// The caret lies in the text.
    pub open spec fn wf(self) -> bool {
        self.caret <= self.text.len()
    }

    /// Where the composition starts: never behind the caret.
    pub open spec fn base(self) -> nat {
        if self.ime_base <= self.caret {
            self.ime_base
        } else {
            self.caret
        }
    }

    pub open spec fn before(self) -> Seq<char> {
        self.text.take(self.caret as int)
    }

    pub open spec fn after(self) -> Seq<char> {
        self.text.skip(self.caret as int)
    }

    /// A field that holds a text, with the caret at its end.
    pub open spec fn holding(text: Seq<char>) -> Self {
        FieldModel { text, caret: text.len(), ime_base: text.len(), caret_visible: true }
    }

    /// Emptied; what is left of the composition and the look of the caret are
    /// for the next text to set.
    pub open spec fn cleared(self) -> Self {
        FieldModel { text: Seq::empty(), caret: 0, ..self }
    }

    /// With the caret moved; a caret that stays where it is changes nothing.
    pub open spec fn with_caret(self, caret: nat) -> Self {
        let target = if caret <= self.text.len() {
            caret
        } else {
            self.text.len()
        };
        if target == self.caret {
            self
        } else {
            FieldModel { caret: target, ime_base: target, caret_visible: true, ..self }
        }
    }

    /// With the caret moved by characters, as far as the text goes.
    pub open spec fn with_caret_moved(self, delta: int) -> Self {
        self.with_caret(
            crate::arith::clamped(self.caret + delta, 0, self.text.len() as int) as nat,
        )
    }

    /// With a text typed at the caret.
    pub open spec fn with_typed(self, text: Seq<char>) -> Self {
        let caret = self.caret + text.len();
        FieldModel {
            text: self.before() + text + self.after(),
            caret,
            ime_base: caret,
            caret_visible: true,
        }
    }

    /// Without the character before the caret.
    pub open spec fn without_previous(self) -> Self {
        if self.caret == 0 {
            self
        } else {
            let caret = (self.caret - 1) as nat;
            FieldModel {
                text: self.text.take(caret as int) + self.after(),
                caret,
                ime_base: caret,
                caret_visible: true,
            }
        }
    }

    /// Without the character after the caret.
    pub open spec fn without_next(self) -> Self {
        if self.caret >= self.text.len() {
            self
        } else {
            FieldModel {
                text: self.before() + self.text.skip(self.caret as int + 1),
                caret: self.caret,
                ime_base: self.caret,
                caret_visible: true,
            }
        }
    }

    /// With the composition replaced by a text, the caret behind it.
    pub open spec fn with_composition(self, text: Seq<char>) -> Self {
        FieldModel {
            text: self.text.take(self.base() as int) + text + self.after(),
            caret: self.base() + text.len(),
            ..self
        }
    }

    /// With the composition ended by a text.
    pub open spec fn with_committed(self, text: Seq<char>) -> Self {
        let caret = self.base() + text.len();
        FieldModel { ime_base: caret, caret_visible: true, ..self.with_composition(text) }
    }
}

impl TextField {
    pub fn new() -> (field: Self)
        ensures
            field@ == FieldModel::holding(Seq::empty()),
            field@.wf(),
    {
        TextField { chars: Vec::new(), caret: 0, ime_base: 0, caret_visible: true }
    }

    /// The text of the field.
    pub fn text(&self) -> (text: String)
        ensures
            text@ == self@.text,
    {
        text_of(self.chars.as_slice())
    }

    /// The text before and after the caret.
    pub fn parts(&self) -> (parts: (String, String))
        requires
            self@.wf(),
        ensures
            parts.0@ == self@.before(),
            parts.1@ == self@.after(),
    {
        let before = copy_chars(&self.chars, 0, self.caret);
        let after = copy_chars(&self.chars, self.caret, self.chars.len());
        proof {
            assert(before@ =~= self@.before());
            assert(after@ =~= self@.after());
        }
        (text_of(before.as_slice()), text_of(after.as_slice()))
    }

    /// The text without the whitespace around it.
    pub fn trimmed(&self) -> (text: String)
        ensures
            text@ == crate::text::trimmed(self@.text),
    {
        text_of(trim_chars(&self.chars).as_slice())
    }

    /// Whether the field holds nothing but whitespace.
    pub fn is_blank(&self) -> (blank: bool)
        ensures
            blank == (crate::text::trimmed(self@.text).len() == 0),
    {
        trim_chars(&self.chars).len() == 0
    }

    pub fn set(&mut self, text: &str)
        ensures
            final(self)@ == FieldModel::holding(text@),
            final(self)@.wf(),
    {
        self.chars = chars_of(text);
        self.caret = self.chars.len();
        self.ime_base = self.caret;
        self.caret_visible = true;
    }

    pub fn clear(&mut self)
        ensures
            final(self)@ == old(self)@.cleared(),
            final(self)@.wf(),
    {
        self.chars = Vec::new();
        self.caret = 0;
    }

    /// Moves the caret; tells whether it moved.
    pub fn set_caret(&mut self, caret: usize) -> (moved: bool)
        requires
            old(self)@.wf(),
        ensures
            final(self)@ == old(self)@.with_caret(caret as nat),
            final(self)@.wf(),
            moved == (final(self)@ != old(self)@),
    {
        let target: usize = if caret <= self.chars.len() {
            caret
        } else {
            self.chars.len()
        };
        if target == self.caret {
            return false;
        }
        self.caret = target;
        self.ime_base = target;
        self.caret_visible = true;
        true
    }

    /// Moves the caret by characters; tells whether it moved.
    pub fn move_caret(&mut self, delta: isize) -> (moved: bool)
        requires
            old(self)@.wf(),
            delta > isize::MIN,
        ensures
            final(self)@ == old(self)@.with_caret_moved(delta as int),
            final(self)@.wf(),
            moved == (final(self)@ != old(self)@),
    {
        let target: usize = if delta < 0 {
            self.caret.saturating_sub((-delta) as usize)
        } else if delta as usize <= self.chars.len() - self.caret {
            self.caret + delta as usize
        } else {
            self.chars.len()
        };
        self.set_caret(target)
    }

    /// Types a text at the caret.
    pub fn insert(&mut self, text: &str)
        requires
            old(self)@.wf(),
        ensures
            final(self)@ == old(self)@.with_typed(text@),
            final(self)@.wf(),
    {
        let typed = chars_of(text);
        let ghost before = self@;
        self.chars = splice_chars(&self.chars, self.caret, self.caret, &typed);
        let length: usize = self.chars.len();
        assert(before.caret + typed.len() <= length);
        self.caret = self.caret + typed.len();
        self.ime_base = self.caret;
        self.caret_visible = true;
        assert(self@ =~= before.with_typed(text@));
    }

    /// Removes the character before the caret; tells whether there was one.
    pub fn delete_previous(&mut self) -> (deleted: bool)
        requires
            old(self)@.wf(),
        ensures
            final(self)@ == old(self)@.without_previous(),
            final(self)@.wf(),
            deleted == (old(self)@.caret > 0),
    {
        if self.caret == 0 {
            return false;
        }
        let ghost before = self@;
        let start: usize = self.caret - 1;
        let nothing: Vec<char> = Vec::new();
        self.chars = splice_chars(&self.chars, start, self.caret, &nothing);
        self.caret = start;
        self.ime_base = start;
        self.caret_visible = true;
        assert(self@ =~= before.without_previous());
        true
    }

    /// Removes the character after the caret; tells whether there was one.
    pub fn delete_next(&mut self) -> (deleted: bool)
        requires
            old(self)@.wf(),
        ensures
            final(self)@ == old(self)@.without_next(),
            final(self)@.wf(),
            deleted == (old(self)@.caret < old(self)@.text.len()),
    {
        if self.caret >= self.chars.len() {
            return false;
        }
        let ghost before = self@;
        let nothing: Vec<char> = Vec::new();
        self.chars = splice_chars(&self.chars, self.caret, self.caret + 1, &nothing);
        self.ime_base = self.caret;
        self.caret_visible = true;
        assert(self@ =~= before.without_next());
        true
    }

    /// Replaces the composition by a text.
    pub fn compose(&mut self, text: &str)
        requires
            old(self)@.wf(),
        ensures
            final(self)@ == old(self)@.with_composition(text@),
            final(self)@.wf(),
    {
        let composed = chars_of(text);
        let ghost before = self@;
        let base: usize = if self.ime_base <= self.caret {
            self.ime_base
        } else {
            self.caret
        };
        self.chars = splice_chars(&self.chars, base, self.caret, &composed);
        let length: usize = self.chars.len();
        assert(base + composed.len() <= length);
        self.caret = base + composed.len();
        assert(self@ =~= before.with_composition(text@));
    }
}

impl TextField {
    /// Ends the composition with a text.
    pub fn commit(&mut self, text: &str)
        requires
            old(self)@.wf(),
        ensures
            final(self)@ == old(self)@.with_committed(text@),
            final(self)@.wf(),
    {
        self.compose(text);
        self.ime_base = self.caret;
        self.caret_visible = true;
    }
}

/// What was typed comes out again: typing a character and deleting it leaves
/// the text and the caret as they were.
pub proof fn law_typing_and_deleting_cancel(field: FieldModel, c: char)
    requires
        field.wf(),
    ensures
        field.with_typed(seq![c]).without_previous().text == field.text,
        field.with_typed(seq![c]).without_previous().caret == field.caret,
{
    let typed = field.with_typed(seq![c]);
    assert(typed.without_previous().text =~= field.text);
}

/// Composing again replaces what was composed before: only the latest
/// composition is in the text.
pub proof fn law_composition_is_replaced(field: FieldModel, first: Seq<char>, second: Seq<char>)
    requires
        field.wf(),
        field.ime_base <= field.caret,
    ensures
        field.with_composition(first).with_composition(second) == field.with_composition(second),
{
    assert(field.with_composition(first).with_composition(second) =~= field.with_composition(
        second,
    ));
}

/// A composition that is ended by a text is what was typed in its place: what
/// was composed on the way leaves no trace.
pub proof fn law_commits_are_typed(field: FieldModel, composed: Seq<char>, text: Seq<char>)
    requires
        field.wf(),
        field.ime_base == field.caret,
    ensures
        field.with_composition(composed).with_committed(text) == field.with_typed(text),
{
    let during = field.with_composition(composed);
    assert(during.text.take(field.ime_base as int) =~= field.before());
    assert(during.after() =~= field.after());
}

/// Moving the caret never changes the text, and keeps it inside.
pub proof fn law_moving_keeps_the_text(field: FieldModel, delta: int)
    requires
        field.wf(),
    ensures
        field.with_caret_moved(delta).text == field.text,
        field.with_caret_moved(delta).wf(),
{
}

/// The text is what lies before the caret and what lies after it.
pub proof fn law_parts_make_the_text(field: FieldModel)
    requires
        field.wf(),
    ensures
        field.before() + field.after() == field.text,
{
    assert(field.before() + field.after() =~= field.text);
}

/// Typing puts the text at the caret and the caret behind it; deleting takes
/// away one character on its side of the caret.
pub proof fn law_edits_happen_at_the_caret(
    before: Seq<char>,
    after: Seq<char>,
    c: char,
    text: Seq<char>,
    ime_base: nat,
    caret_visible: bool,
)
    ensures
        ({
            let field = FieldModel {
                text: before + after,
                caret: before.len(),
                ime_base,
                caret_visible,
            };
            let typed = field.with_typed(text);
            let behind = FieldModel {
                text: before.push(c) + after,
                caret: before.len() + 1,
                ime_base,
                caret_visible,
            };
            let ahead = FieldModel {
                text: before + seq![c] + after,
                caret: before.len(),
                ime_base,
                caret_visible,
            };
            &&& typed.text == before + text + after
            &&& typed.caret == before.len() + text.len()
            &&& typed.ime_base == typed.caret
            &&& typed.caret_visible
            &&& behind.without_previous().text == before + after
            &&& behind.without_previous().caret == before.len()
            &&& ahead.without_next().text == before + after
            &&& ahead.without_next().caret == before.len()
            &&& field.cleared().text.len() == 0
            &&& field.cleared().caret == 0
        }),
{
    let field = FieldModel { text: before + after, caret: before.len(), ime_base, caret_visible };
    assert(field.before() =~= before);
    assert(field.after() =~= after);
    let behind = FieldModel {
        text: before.push(c) + after,
        caret: before.len() + 1,
        ime_base,
        caret_visible,
    };
    assert(behind.without_previous().text =~= before + after);
    let ahead = FieldModel {
        text: before + seq![c] + after,
        caret: before.len(),
        ime_base,
        caret_visible,
    };
    assert(ahead.without_next().text =~= before + after);
}

/// The caret moves by the characters asked for and stops at both ends; a move
/// ends what was being composed.
pub proof fn law_carets_move_by_characters(field: FieldModel, delta: int)
    requires
        field.wf(),
    ensures
        ({
            let moved = field.with_caret_moved(delta);
            &&& 0 <= field.caret + delta <= field.text.len() ==> moved.caret == field.caret + delta
            &&& field.caret + delta < 0 ==> moved.caret == 0
            &&& field.caret + delta > field.text.len() ==> moved.caret == field.text.len()
            &&& moved.caret != field.caret ==> moved.ime_base == moved.caret
                && moved.caret_visible
            &&& moved.caret == field.caret ==> moved == field
        }),
{
}

/// A composition stands between the text before it and the text behind the
/// caret; ending it leaves its text there.
pub proof fn law_compositions_stand_at_their_place(
    before: Seq<char>,
    composed: Seq<char>,
    after: Seq<char>,
    text: Seq<char>,
    caret_visible: bool,
)
    ensures
        ({
            let field = FieldModel {
                text: before + composed + after,
                caret: before.len() + composed.len(),
                ime_base: before.len(),
                caret_visible,
            };
            let next = field.with_composition(text);
            let ended = field.with_committed(text);
            &&& next.text == before + text + after
            &&& next.caret == before.len() + text.len()
            &&& next.ime_base == before.len()
            &&& ended.text == before + text + after
            &&& ended.caret == before.len() + text.len()
            &&& ended.ime_base == ended.caret
        }),
{
    let field = FieldModel {
        text: before + composed + after,
        caret: before.len() + composed.len(),
        ime_base: before.len(),
        caret_visible,
    };
    assert(field.text.take(before.len() as int) =~= before);
    assert(field.after() =~= after);
}

} // verus!
