//! How shortcuts are written for people to read.

use crate::keys::is_named;
use crate::text::chars_of;
use crate::text::copy_chars;
use crate::text::text_of;
use vstd::prelude::*;

verus! {

/// What `char::to_uppercase` makes of a character.
pub uninterp spec fn uppercase_of(c: char) -> Seq<char>;

/// `char::to_uppercase` gives the characters that a character has in upper
/// case; which ones is not said here.
#[verifier::external_body]
fn uppercase(c: char) -> (text: String)
    ensures
        text@ == uppercase_of(c),
{
    c.to_uppercase().to_string()
}

/// The words of a text: what stands between whitespace.
pub open spec fn words_of(text: Seq<char>) -> Seq<Seq<char>>
    decreases text.len(),
{
    if text.len() == 0 {
        Seq::empty()
    } else {
        let words = words_of(text.drop_last());
        if crate::text::is_whitespace(text.last()) {
            words
        } else if text.len() == 1 || crate::text::is_whitespace(text[text.len() - 2]) {
            words.push(seq![text.last()])
        } else {
            words.drop_last().push(words.last().push(text.last()))
        }
    }
}

/// The parts of a text between separators.
pub open spec fn parts_of(text: Seq<char>, separator: char) -> Seq<Seq<char>>
    decreases text.len(),
{
    if text.len() == 0 {
        seq![Seq::empty()]
    } else {
        let parts = parts_of(text.drop_last(), separator);
        if text.last() == separator {
            parts.push(Seq::empty())
        } else {
            parts.drop_last().push(parts.last().push(text.last()))
        }
    }
}

/// Texts put together with separators between them.
pub open spec fn joined(parts: Seq<Seq<char>>, separator: char) -> Seq<char>
    decreases parts.len(),
{
    if parts.len() == 0 {
        Seq::empty()
    } else if parts.len() == 1 {
        parts[0]
    } else {
        joined(parts.drop_last(), separator).push(separator) + parts.last()
    }
}

pub open spec fn ascii_lowercased(text: Seq<char>) -> Seq<char> {
    text.map_values(|c: char| crate::keys::ascii_lowercase(c))
}

/// How a key is written: modifiers by their names, others with a capital.
pub open spec fn key_label(part: Seq<char>) -> Seq<char> {
    let name = ascii_lowercased(part);
    if name == "cmd"@ {
        "Cmd"@
    } else if name == "ctrl"@ || name == "control"@ {
        "Ctrl"@
    } else if name == "shift"@ {
        "Shift"@
    } else if name == "alt"@ || name == "option"@ {
        "Alt"@
    } else if name == "fn"@ || name == "function"@ {
        "Fn"@
    } else if name.len() == 0 {
        name
    } else {
        uppercase_of(name[0]) + name.drop_first()
    }
}

/// How a keystroke is written.
pub open spec fn keystroke_label(keystroke: Seq<char>) -> Seq<char> {
    joined(parts_of(keystroke, '-').map_values(|part: Seq<char>| key_label(part)), '-')
}

/// The keystroke that a label shows: the first of a shortcut that can be
/// used, or the one that holds instead.
pub open spec fn labelled_keystroke(source: Seq<char>, fallback: Seq<char>, usable: bool) -> Seq<char> {
    if usable && words_of(source).len() > 0 {
        words_of(source)[0]
    } else {
        fallback
    }
}

fn lowercase(c: char) -> (lower: char)
    ensures
        lower == crate::keys::ascii_lowercase(c),
{
    if 'A' <= c && c <= 'Z' {
        let code: u8 = c as u8 + 32;
        code as char
    } else {
        c
    }
}

fn lowercased(text: &Vec<char>) -> (lower: Vec<char>)
    ensures
        lower@ == ascii_lowercased(text@),
{
    let mut lower: Vec<char> = Vec::new();
    let mut i: usize = 0;
    while i < text.len()
        invariant
            i <= text.len(),
            lower@ == ascii_lowercased(text@.take(i as int)),
        decreases text.len() - i,
    {
        lower.push(lowercase(text[i]));
        i += 1;
        assert(lower@ =~= ascii_lowercased(text@.take(i as int)));
    }
    assert(text@.take(i as int) =~= text@);
    lower
}

/// How a key is written.
fn label_of_key(part: &Vec<char>) -> (label: String)
    ensures
        label@ == key_label(part@),
{
    let name = lowercased(part);
    if is_named(&name, "cmd") {
        "Cmd".to_owned()
    } else if is_named(&name, "ctrl") || is_named(&name, "control") {
        "Ctrl".to_owned()
    } else if is_named(&name, "shift") {
        "Shift".to_owned()
    } else if is_named(&name, "alt") || is_named(&name, "option") {
        "Alt".to_owned()
    } else if is_named(&name, "fn") || is_named(&name, "function") {
        "Fn".to_owned()
    } else if name.len() == 0 {
        let label = String::new();
        assert(label@ =~= name@);
        label
    } else {
        let mut label = uppercase(name[0]);
        let rest = copy_chars(&name, 1, name.len());
        label.append(text_of(rest.as_slice()).as_str());
        assert(rest@ =~= name@.drop_first());
        label
    }
}

/// The parts of a text between dashes.
fn split_at_dashes(text: &Vec<char>) -> (parts: Vec<Vec<char>>)
    ensures
        parts@.map_values(|part: Vec<char>| part@) == parts_of(text@, '-'),
        parts.len() > 0,
{
    let ghost contents = |part: Vec<char>| part@;
    let mut parts: Vec<Vec<char>> = Vec::new();
    let mut current: Vec<char> = Vec::new();
    let mut i: usize = 0;
    assert(parts@.map_values(contents).push(current@) =~= parts_of(text@.take(0), '-'));
    while i < text.len()
        invariant
            i <= text.len(),
            contents == (|part: Vec<char>| part@),
            parts@.map_values(contents).push(current@) == parts_of(text@.take(i as int), '-'),
        decreases text.len() - i,
    {
        let c = text[i];
        let ghost seen = text@.take(i as int);
        let ghost known = parts@.map_values(contents);
        let ghost open = current@;
        proof {
            assert(text@.take(i + 1).drop_last() =~= seen);
            assert(known.push(open).drop_last() =~= known);
        }
        if c == '-' {
            parts.push(current);
            current = Vec::new();
            assert(parts@.map_values(contents) =~= known.push(open));
            assert(current@ =~= Seq::<char>::empty());
        } else {
            current.push(c);
        }
        i += 1;
    }
    assert(text@.take(i as int) =~= text@);
    let ghost known = parts@.map_values(contents);
    let ghost open = current@;
    parts.push(current);
    assert(parts@.map_values(contents) =~= known.push(open));
    parts
}

fn label_of_keystroke(keystroke: &Vec<char>) -> (label: String)
    ensures
        label@ == keystroke_label(keystroke@),
{
    let parts = split_at_dashes(keystroke);
    let ghost texts = parts@.map_values(|part: Vec<char>| part@);
    let ghost labels = texts.map_values(|part: Seq<char>| key_label(part));
    let mut label = label_of_key(&parts[0]);
    let mut i: usize = 1;
    assert(labels.take(1)[0] == key_label(parts@[0]@));
    while i < parts.len()
        invariant
            1 <= i <= parts.len(),
            texts == parts@.map_values(|part: Vec<char>| part@),
            labels == texts.map_values(|part: Seq<char>| key_label(part)),
            label@ == joined(labels.take(i as int), '-'),
        decreases parts.len() - i,
    {
        let next = label_of_key(&parts[i]);
        proof {
            assert(labels.take(i + 1).drop_last() =~= labels.take(i as int));
            assert(labels.take(i + 1).last() == key_label(parts@[i as int]@));
        }
        label.push('-');
        label.append(next.as_str());
        i += 1;
    }
    assert(labels.take(i as int) =~= labels);
    label
}

/// The words of a text.
fn split_at_whitespace(text: &Vec<char>) -> (words: Vec<Vec<char>>)
    ensures
        words@.map_values(|word: Vec<char>| word@) == words_of(text@),
{
    let ghost contents = |word: Vec<char>| word@;
    let mut words: Vec<Vec<char>> = Vec::new();
    let mut current: Vec<char> = Vec::new();
    let mut i: usize = 0;
    assert(words@.map_values(contents) =~= words_of(text@.take(0)));
    while i < text.len()
        invariant
            i <= text.len(),
            contents == (|word: Vec<char>| word@),
            (current.len() == 0) == (i == 0 || crate::text::is_whitespace(text@[i - 1])),
            words_of(text@.take(i as int)) == if current.len() == 0 {
                words@.map_values(contents)
            } else {
                words@.map_values(contents).push(current@)
            },
        decreases text.len() - i,
    {
        let c = text[i];
        let ghost seen = text@.take(i as int);
        let ghost known = words@.map_values(contents);
        let ghost open = current@;
        assert(text@.take(i + 1).drop_last() =~= seen);
        if c.is_whitespace() {
            if current.len() > 0 {
                words.push(current);
                current = Vec::new();
                assert(words@.map_values(contents) =~= known.push(open));
            }
        } else {
            current.push(c);
            proof {
                if open.len() == 0 {
                    assert(current@ =~= seq![c]);
                } else {
                    assert(known.push(open).drop_last() =~= known);
                }
            }
        }
        i += 1;
    }
    assert(text@.take(i as int) =~= text@);
    let ghost known = words@.map_values(contents);
    let ghost open = current@;
    if current.len() > 0 {
        words.push(current);
        assert(words@.map_values(contents) =~= known.push(open));
    }
    words
}

/// The keystrokes that a shortcut is made of: its words.
pub fn keystrokes_of(shortcut: &str) -> (words: Vec<String>)
    ensures
        words@.map_values(|word: String| word@) == words_of(shortcut@),
{
    let found = split_at_whitespace(&chars_of(shortcut));
    let ghost texts = found@.map_values(|word: Vec<char>| word@);
    let mut words: Vec<String> = Vec::new();
    let mut i: usize = 0;
    while i < found.len()
        invariant
            i <= found.len(),
            texts == found@.map_values(|word: Vec<char>| word@),
            words@.map_values(|word: String| word@) == texts.take(i as int),
        decreases found.len() - i,
    {
        let word = text_of(found[i].as_slice());
        let ghost before = words@.map_values(|word: String| word@);
        words.push(word);
        i += 1;
        assert(words@.map_values(|word: String| word@) =~= before.push(word@));
        assert(texts.take(i as int) =~= texts.take(i - 1).push(texts[i - 1]));
    }
    assert(texts.take(i as int) =~= texts);
    words
}

/// How a shortcut is written. `usable` tells that every keystroke of it is
/// one; otherwise the keystroke is shown that holds instead.
pub fn shortcut_label(source: &str, fallback: &str, usable: bool) -> (label: String)
    ensures
        label@ == keystroke_label(labelled_keystroke(source@, fallback@, usable)),
{
    let words = split_at_whitespace(&chars_of(source));
    if usable && words.len() > 0 {
        assert(words_of(source@)[0] == words@[0]@);
        label_of_keystroke(&words[0])
    } else {
        label_of_keystroke(&chars_of(fallback))
    }
}

/// What a window without a workspace tells.
pub fn empty_workspace_hint(shortcut: &str, usable: bool) -> (hint: String)
    ensures
        hint@ == "Press "@ + keystroke_label(
            labelled_keystroke(shortcut@, "cmd-shift-n"@, usable),
        ) + " to create a workspace"@,
{
    let mut hint = "Press ".to_owned();
    hint.append(shortcut_label(shortcut, "cmd-shift-n", usable).as_str());
    hint.append(" to create a workspace");
    hint
}

/// What a workspace without a tab tells.
pub fn empty_tab_hint(shortcut: &str, usable: bool) -> (hint: String)
    ensures
        hint@ == "Press "@ + keystroke_label(labelled_keystroke(shortcut@, "cmd-t"@, usable))
            + " to open a terminal tab"@,
{
    let mut hint = "Press ".to_owned();
    hint.append(shortcut_label(shortcut, "cmd-t", usable).as_str());
    hint.append(" to open a terminal tab");
    hint
}

/// Words put together without anything between them.
pub open spec fn run_together(words: Seq<Seq<char>>) -> Seq<char>
    decreases words.len(),
{
    if words.len() == 0 {
        Seq::empty()
    } else {
        run_together(words.drop_last()) + words.last()
    }
}

/// The words of a text hold everything in it but the whitespace, in order, and
/// none of them is empty.
pub proof fn law_words_hold_the_text(text: Seq<char>)
    ensures
        run_together(words_of(text)) == text.filter(|c: char| !crate::text::is_whitespace(c)),
        forall|i: int| 0 <= i < words_of(text).len() ==> (#[trigger] words_of(text)[i]).len() > 0,
        text.len() > 0 && !crate::text::is_whitespace(text.last()) ==> words_of(text).len() > 0,
    decreases text.len(),
{
    reveal(Seq::filter);
    let keeps = |c: char| !crate::text::is_whitespace(c);
    if text.len() > 0 {
        let shorter = text.drop_last();
        law_words_hold_the_text(shorter);
        let words = words_of(shorter);
        let c = text.last();
        if !crate::text::is_whitespace(c) {
            assert(text.filter(keeps) == shorter.filter(keeps).push(c));
            if text.len() == 1 || crate::text::is_whitespace(text[text.len() - 2]) {
                let more = words.push(seq![c]);
                assert(more.drop_last() =~= words);
                assert(run_together(more) =~= run_together(words).push(c));
            } else {
                assert(shorter.last() == text[text.len() - 2]);
                let grown = words.drop_last().push(words.last().push(c));
                assert(grown.drop_last() =~= words.drop_last());
                assert(run_together(grown) =~= run_together(words).push(c));
            }
        }
    }
}

/// Taking a text apart at separators loses nothing.
pub proof fn law_parts_make_the_text(text: Seq<char>, separator: char)
    ensures
        joined(parts_of(text, separator), separator) == text,
        parts_of(text, separator).len() > 0,
    decreases text.len(),
{
    if text.len() == 0 {
        assert(joined(parts_of(text, separator), separator) =~= text);
    } else {
        let shorter = text.drop_last();
        law_parts_make_the_text(shorter, separator);
        let parts = parts_of(shorter, separator);
        if text.last() == separator {
            let more = parts.push(Seq::empty());
            assert(more.drop_last() =~= parts);
            assert(joined(more, separator) =~= text);
        } else {
            let grown = parts.drop_last().push(parts.last().push(text.last()));
            assert(grown.drop_last() =~= parts.drop_last());
            if parts.len() == 1 {
                assert(joined(grown, separator) =~= text);
            } else {
                let front = joined(parts.drop_last(), separator).push(separator);
                assert(joined(parts, separator) == front + parts.last());
                assert(grown.len() == parts.len());
                assert(grown.last() == parts.last().push(text.last()));
                assert(joined(grown, separator) == front + parts.last().push(text.last()));
                assert(front + parts.last().push(text.last()) =~= shorter.push(text.last()));
                assert(shorter.push(text.last()) =~= text);
            }
        }
    }
}

/// Names of modifiers are written out, in whatever case they are given; two
/// names for the same modifier have one label.
pub proof fn law_modifiers_have_their_labels(part: Seq<char>)
    ensures
        ascii_lowercased(part) == "cmd"@ ==> key_label(part) == "Cmd"@,
        ascii_lowercased(part) == "ctrl"@ || ascii_lowercased(part) == "control"@ ==> key_label(part)
            == "Ctrl"@,
        ascii_lowercased(part) == "shift"@ ==> key_label(part) == "Shift"@,
        ascii_lowercased(part) == "alt"@ || ascii_lowercased(part) == "option"@ ==> key_label(part)
            == "Alt"@,
        ascii_lowercased(part) == "fn"@ || ascii_lowercased(part) == "function"@ ==> key_label(part)
            == "Fn"@,
        part.len() == 1 ==> key_label(part) == uppercase_of(
            crate::keys::ascii_lowercase(part[0]),
        ),
{
    reveal_strlit("cmd");
    reveal_strlit("ctrl");
    reveal_strlit("control");
    reveal_strlit("shift");
    reveal_strlit("alt");
    reveal_strlit("option");
    reveal_strlit("fn");
    reveal_strlit("function");
    assert("cmd"@.len() == 3 && "cmd"@[0] == 'c');
    assert("ctrl"@.len() == 4);
    assert("control"@.len() == 7);
    assert("shift"@.len() == 5);
    assert("alt"@.len() == 3 && "alt"@[0] == 'a');
    assert("option"@.len() == 6);
    assert("fn"@.len() == 2);
    assert("function"@.len() == 8);
    if part.len() == 1 {
        let name = ascii_lowercased(part);
        assert(name.len() == 1);
        assert(uppercase_of(name[0]) + name.drop_first() =~= uppercase_of(name[0]));
    }
}

/// A key that is no modifier keeps its letters in lower case but for the first.
pub proof fn law_keys_keep_their_letters(part: Seq<char>)
    requires
        part.len() > 8,
    ensures
        key_label(part) == uppercase_of(crate::keys::ascii_lowercase(part[0])) + ascii_lowercased(
            part.skip(1),
        ),
{
    reveal_strlit("cmd");
    reveal_strlit("ctrl");
    reveal_strlit("control");
    reveal_strlit("shift");
    reveal_strlit("alt");
    reveal_strlit("option");
    reveal_strlit("fn");
    reveal_strlit("function");
    let name = ascii_lowercased(part);
    assert("function"@.len() == 8);
    assert("control"@.len() == 7);
    assert(name.drop_first() =~= ascii_lowercased(part.skip(1)));
}

/// The first of the keystrokes of a binding is shown; without a usable one the
/// fallback is.
pub proof fn law_first_keystrokes_are_shown(
    source: Seq<char>,
    fallback: Seq<char>,
    first: Seq<char>,
    rest: Seq<Seq<char>>,
)
    requires
        words_of(source) == seq![first] + rest,
    ensures
        labelled_keystroke(source, fallback, true) == first,
        labelled_keystroke(source, fallback, false) == fallback,
{
}

/// A keystroke is labelled part by part, with the dashes between the parts kept.
pub proof fn law_keystrokes_are_labelled_part_by_part(modifier: Seq<char>, key: Seq<char>)
    requires
        !modifier.contains('-'),
        !key.contains('-'),
    ensures
        keystroke_label(key) == key_label(key),
        keystroke_label(modifier.push('-') + key) == key_label(modifier).push('-') + key_label(key),
{
    lemma_one_part(key);
    lemma_one_part(modifier);
    lemma_two_parts(modifier, key);
    let one = parts_of(key, '-').map_values(|part: Seq<char>| key_label(part));
    assert(one =~= seq![key_label(key)]);
    let two = parts_of(modifier.push('-') + key, '-').map_values(
        |part: Seq<char>| key_label(part),
    );
    assert(two =~= seq![key_label(modifier), key_label(key)]);
    assert(two.drop_last() =~= seq![key_label(modifier)]);
    assert(joined(seq![key_label(modifier)], '-') == key_label(modifier));
}

proof fn lemma_one_part(text: Seq<char>)
    requires
        !text.contains('-'),
    ensures
        parts_of(text, '-') == seq![text],
    decreases text.len(),
{
    if text.len() == 0 {
        assert(text =~= Seq::<char>::empty());
    } else {
        let fewer = text.drop_last();
        assert(!fewer.contains('-')) by {
            if fewer.contains('-') {
                let i = choose|i: int| 0 <= i < fewer.len() && fewer[i] == '-';
                assert(text[i] == '-');
            }
        }
        assert(text.contains(text.last()));
        lemma_one_part(fewer);
        assert(fewer.push(text.last()) =~= text);
        assert(seq![fewer].drop_last().push(text) =~= seq![text]);
    }
}

proof fn lemma_two_parts(modifier: Seq<char>, key: Seq<char>)
    requires
        !modifier.contains('-'),
        !key.contains('-'),
    ensures
        parts_of(modifier.push('-') + key, '-') == seq![modifier, key],
    decreases key.len(),
{
    let text = modifier.push('-') + key;
    if key.len() == 0 {
        assert(text =~= modifier.push('-'));
        assert(text.drop_last() =~= modifier);
        lemma_one_part(modifier);
        assert(key =~= Seq::<char>::empty());
        assert(seq![modifier].push(Seq::<char>::empty()) =~= seq![modifier, key]);
    } else {
        let fewer = key.drop_last();
        assert(!fewer.contains('-')) by {
            if fewer.contains('-') {
                let i = choose|i: int| 0 <= i < fewer.len() && fewer[i] == '-';
                assert(key[i] == '-');
            }
        }
        assert(key.contains(key.last()));
        lemma_two_parts(modifier, fewer);
        assert(text.drop_last() =~= modifier.push('-') + fewer);
        assert(fewer.push(key.last()) =~= key);
        assert(seq![modifier, fewer].drop_last().push(key) =~= seq![modifier, key]);
    }
}

} // verus!
