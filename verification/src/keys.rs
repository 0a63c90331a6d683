//! Keys as the bytes that a terminal program expects for them.

use crate::terminal::same_chars;
use crate::terminal::TerminalModes;
use crate::text::chars_of;
use crate::text::text_of;
use vstd::prelude::*;

verus! {

/// The modifier keys held down.
#[derive(Clone, Copy, PartialEq, Eq, Structural, Debug)]
pub struct Modifiers {
    pub control: bool,
    pub alt: bool,
    pub shift: bool,
    pub platform: bool,
    pub function: bool,
}

/// A key press: the name of the key, the text it types, the modifiers.
#[derive(Debug)]
pub struct Keystroke {
    pub key: String,
    pub key_char: Option<String>,
    pub modifiers: Modifiers,
}

impl Modifiers {
    pub open spec fn none_spec() -> Self {
        Modifiers { control: false, alt: false, shift: false, platform: false, function: false }
    }

    pub fn none() -> (modifiers: Self)
        ensures
            modifiers == Self::none_spec(),
    {
        Modifiers { control: false, alt: false, shift: false, platform: false, function: false }
    }
}

/// What a keystroke is, with its texts as sequences of characters.
pub struct KeystrokeModel {
    pub key: Seq<char>,
    pub key_char: Option<Seq<char>>,
    pub modifiers: Modifiers,
}

impl View for Keystroke {
    type V = KeystrokeModel;

    open spec fn view(&self) -> KeystrokeModel {
        KeystrokeModel {
            key: self.key@,
            key_char: match self.key_char {
                Some(text) => Some(text@),
                None => None,
            },
            modifiers: self.modifiers,
        }
    }
}

/// A key that has an encoding of its own.
#[derive(Clone, Copy, PartialEq, Eq, Structural, Debug)]
pub enum SpecialKey {
    Enter,
    Backspace,
    Tab,
    Escape,
    /// A cursor key, with the character that ends its sequence.
    Cursor(char),
    /// A key with a number in its sequence.
    Numbered(u8),
    /// One of the first four function keys, with the character that ends its
    /// sequence.
    Function(char),
}

/// The special key with a given name.
pub open spec fn special_key(name: Seq<char>) -> Option<SpecialKey> {
    if name == "enter"@ || name == "return"@ {
        Some(SpecialKey::Enter)
    } else if name == "backspace"@ {
        Some(SpecialKey::Backspace)
    } else if name == "tab"@ {
        Some(SpecialKey::Tab)
    } else if name == "escape"@ {
        Some(SpecialKey::Escape)
    } else if name == "left"@ {
        Some(SpecialKey::Cursor('D'))
    } else if name == "right"@ {
        Some(SpecialKey::Cursor('C'))
    } else if name == "up"@ {
        Some(SpecialKey::Cursor('A'))
    } else if name == "down"@ {
        Some(SpecialKey::Cursor('B'))
    } else if name == "home"@ {
        Some(SpecialKey::Cursor('H'))
    } else if name == "end"@ {
        Some(SpecialKey::Cursor('F'))
    } else if name == "insert"@ {
        Some(SpecialKey::Numbered(2))
    } else if name == "delete"@ {
        Some(SpecialKey::Numbered(3))
    } else if name == "pageup"@ {
        Some(SpecialKey::Numbered(5))
    } else if name == "pagedown"@ {
        Some(SpecialKey::Numbered(6))
    } else if name == "f1"@ {
        Some(SpecialKey::Function('P'))
    } else if name == "f2"@ {
        Some(SpecialKey::Function('Q'))
    } else if name == "f3"@ {
        Some(SpecialKey::Function('R'))
    } else if name == "f4"@ {
        Some(SpecialKey::Function('S'))
    } else if name == "f5"@ {
        Some(SpecialKey::Numbered(15))
    } else if name == "f6"@ {
        Some(SpecialKey::Numbered(17))
    } else if name == "f7"@ {
        Some(SpecialKey::Numbered(18))
    } else if name == "f8"@ {
        Some(SpecialKey::Numbered(19))
    } else if name == "f9"@ {
        Some(SpecialKey::Numbered(20))
    } else if name == "f10"@ {
        Some(SpecialKey::Numbered(21))
    } else if name == "f11"@ {
        Some(SpecialKey::Numbered(23))
    } else if name == "f12"@ {
        Some(SpecialKey::Numbered(24))
    } else {
        None
    }
}

/// The parameter that stands for the modifiers in a sequence; one for none.
pub open spec fn modifier_parameter(modifiers: Modifiers) -> int {
    1 + (if modifiers.shift {
        1int
    } else {
        0
    }) + (if modifiers.alt {
        2int
    } else {
        0
    }) + (if modifiers.control {
        4int
    } else {
        0
    })
}

pub open spec fn digit(value: int) -> char {
    (48 + value) as char
}

/// A number below one hundred in decimal.
pub open spec fn short_decimal(value: int) -> Seq<char> {
    if value < 10 {
        seq![digit(value)]
    } else {
        seq![digit(value / 10), digit(value % 10)]
    }
}

/// The sequence of a cursor key. Programs that asked for application cursor
/// keys get the short form unless modifiers are held.
pub open spec fn cursor_text(last: char, modifier: int, application_cursor: bool) -> Seq<char> {
    if modifier != 1 {
        seq!['\u{1b}', '[', '1', ';', digit(modifier), last]
    } else if application_cursor {
        seq!['\u{1b}', 'O', last]
    } else {
        seq!['\u{1b}', '[', last]
    }
}

pub open spec fn numbered_text(number: int, modifier: int) -> Seq<char> {
    if modifier == 1 {
        seq!['\u{1b}', '['] + short_decimal(number) + seq!['~']
    } else {
        seq!['\u{1b}', '['] + short_decimal(number) + seq![';', digit(modifier), '~']
    }
}

pub open spec fn function_text(last: char, modifier: int) -> Seq<char> {
    if modifier == 1 {
        seq!['\u{1b}', 'O', last]
    } else {
        seq!['\u{1b}', '[', '1', ';', digit(modifier), last]
    }
}

/// The input for a key that has an encoding of its own.
pub open spec fn special_text(
    key: SpecialKey,
    modifiers: Modifiers,
    modes: TerminalModes,
) -> Seq<char> {
    let modifier = modifier_parameter(modifiers);
    match key {
        SpecialKey::Enter => seq!['\r'],
        SpecialKey::Backspace => if modifiers.alt {
            seq!['\u{1b}', '\u{7f}']
        } else if modifiers.control {
            seq!['\u{8}']
        } else {
            seq!['\u{7f}']
        },
        SpecialKey::Tab => if modifiers.shift && !modifiers.control && !modifiers.alt {
            seq!['\u{1b}', '[', 'Z']
        } else {
            seq!['\t']
        },
        SpecialKey::Escape => seq!['\u{1b}'],
        SpecialKey::Cursor(last) => cursor_text(last, modifier, modes.application_cursor),
        SpecialKey::Numbered(number) => numbered_text(number as int, modifier),
        SpecialKey::Function(last) => function_text(last, modifier),
    }
}

pub open spec fn special_input(
    name: Seq<char>,
    modifiers: Modifiers,
    modes: TerminalModes,
) -> Option<Seq<char>> {
    match special_key(name) {
        Some(key) => Some(special_text(key, modifiers, modes)),
        None => None,
    }
}

pub open spec fn ascii_lowercase(c: char) -> char {
    if 'A' <= c && c <= 'Z' {
        (c as int + 32) as char
    } else {
        c
    }
}

/// The control character that a character stands for.
pub open spec fn control_character(c: char) -> Option<char> {
    if 'a' <= c && c <= 'z' {
        Some((c as int - 96) as char)
    } else if c == '@' || c == '2' || c == ' ' {
        Some('\u{0}')
    } else if c == '[' || c == '3' {
        Some('\u{1b}')
    } else if c == '\\' || c == '4' {
        Some('\u{1c}')
    } else if c == ']' || c == '5' {
        Some('\u{1d}')
    } else if c == '^' || c == '6' {
        Some('\u{1e}')
    } else if c == '_' || c == '7' {
        Some('\u{1f}')
    } else if c == '?' || c == '8' {
        Some('\u{7f}')
    } else {
        None
    }
}

/// The character that a key types, or else that it is named by.
pub open spec fn typed_character(name: Seq<char>, typed: Option<Seq<char>>) -> Option<char> {
    if name == "space"@ {
        Some(' ')
    } else if typed is Some && typed->0.len() > 0 {
        Some(typed->0[0])
    } else if name.len() > 0 {
        Some(name[0])
    } else {
        None
    }
}

/// The input for a key held with control.
pub open spec fn control_input(name: Seq<char>, typed: Option<Seq<char>>) -> Option<Seq<char>> {
    match typed_character(name, typed) {
        Some(c) => match control_character(ascii_lowercase(c)) {
            Some(control) => Some(seq![control]),
            None => None,
        },
        None => None,
    }
}

/// The text that a plain key types.
pub open spec fn typed_text(name: Seq<char>, typed: Option<Seq<char>>) -> Option<Seq<char>> {
    if typed is Some && typed->0.len() > 0 {
        typed
    } else if name.len() == 1 {
        Some(name)
    } else if name == "space"@ {
        Some(seq![' '])
    } else {
        None
    }
}

/// The input that a keystroke sends to a terminal.
pub open spec fn keystroke_input(keystroke: KeystrokeModel, modes: TerminalModes) -> Option<
    Seq<char>,
> {
    let modifiers = keystroke.modifiers;
    if modifiers.platform || modifiers.function {
        None
    } else if special_key(keystroke.key) is Some {
        special_input(keystroke.key, modifiers, modes)
    } else if modifiers.control {
        control_input(keystroke.key, keystroke.key_char)
    } else {
        match typed_text(keystroke.key, keystroke.key_char) {
            Some(text) => Some(
                if modifiers.alt {
                    seq!['\u{1b}'] + text
                } else {
                    text
                },
            ),
            None => None,
        }
    }
}

/// A control character of Unicode.
pub open spec fn is_control(c: char) -> bool {
    c as u32 <= 0x1f || 0x7f <= c as u32 <= 0x9f
}

pub open spec fn is_printable(text: Seq<char>) -> bool {
    forall|i: int| 0 <= i < text.len() ==> !is_control(#[trigger] text[i])
}

/// The keystroke types text, so the text input handler delivers it.
pub open spec fn types_text(keystroke: KeystrokeModel) -> bool {
    &&& special_key(keystroke.key) is None
    &&& {
        ||| keystroke.key_char is Some && keystroke.key_char->0.len() > 0 && is_printable(
            keystroke.key_char->0,
        )
        ||| keystroke.key.len() == 1
        ||| keystroke.key == "space"@
    }
    &&& !keystroke.modifiers.control
    &&& !keystroke.modifiers.alt
    &&& !keystroke.modifiers.platform
    &&& !keystroke.modifiers.function
}

pub fn is_named(name: &Vec<char>, text: &str) -> (same: bool)
    ensures
        same == (name@ == text@),
{
    same_chars(name, &chars_of(text))
}

/// The special key with a given name.
pub fn named_key(name: &str) -> (key: Option<SpecialKey>)
    ensures
        key == special_key(name@),
{
    let name = chars_of(name);
    if is_named(&name, "enter") || is_named(&name, "return") {
        Some(SpecialKey::Enter)
    } else if is_named(&name, "backspace") {
        Some(SpecialKey::Backspace)
    } else if is_named(&name, "tab") {
        Some(SpecialKey::Tab)
    } else if is_named(&name, "escape") {
        Some(SpecialKey::Escape)
    } else if is_named(&name, "left") {
        Some(SpecialKey::Cursor('D'))
    } else if is_named(&name, "right") {
        Some(SpecialKey::Cursor('C'))
    } else if is_named(&name, "up") {
        Some(SpecialKey::Cursor('A'))
    } else if is_named(&name, "down") {
        Some(SpecialKey::Cursor('B'))
    } else if is_named(&name, "home") {
        Some(SpecialKey::Cursor('H'))
    } else if is_named(&name, "end") {
        Some(SpecialKey::Cursor('F'))
    } else if is_named(&name, "insert") {
        Some(SpecialKey::Numbered(2))
    } else if is_named(&name, "delete") {
        Some(SpecialKey::Numbered(3))
    } else if is_named(&name, "pageup") {
        Some(SpecialKey::Numbered(5))
    } else if is_named(&name, "pagedown") {
        Some(SpecialKey::Numbered(6))
    } else if is_named(&name, "f1") {
        Some(SpecialKey::Function('P'))
    } else if is_named(&name, "f2") {
        Some(SpecialKey::Function('Q'))
    } else if is_named(&name, "f3") {
        Some(SpecialKey::Function('R'))
    } else if is_named(&name, "f4") {
        Some(SpecialKey::Function('S'))
    } else if is_named(&name, "f5") {
        Some(SpecialKey::Numbered(15))
    } else if is_named(&name, "f6") {
        Some(SpecialKey::Numbered(17))
    } else if is_named(&name, "f7") {
        Some(SpecialKey::Numbered(18))
    } else if is_named(&name, "f8") {
        Some(SpecialKey::Numbered(19))
    } else if is_named(&name, "f9") {
        Some(SpecialKey::Numbered(20))
    } else if is_named(&name, "f10") {
        Some(SpecialKey::Numbered(21))
    } else if is_named(&name, "f11") {
        Some(SpecialKey::Numbered(23))
    } else if is_named(&name, "f12") {
        Some(SpecialKey::Numbered(24))
    } else {
        None
    }
}

pub fn terminal_modifier_parameter(modifiers: Modifiers) -> (parameter: u8)
    ensures
        parameter == modifier_parameter(modifiers),
        1 <= parameter <= 8,
{
    let shift: u8 = if modifiers.shift { 1 } else { 0 };
    let alt: u8 = if modifiers.alt { 2 } else { 0 };
    let control: u8 = if modifiers.control { 4 } else { 0 };
    1 + shift + alt + control
}

fn digit_char(value: u8) -> (c: char)
    requires
        value <= 9,
    ensures
        c == digit(value as int),
{
    (48 + value) as char
}

/// The sequence of a cursor key.
pub fn cursor_sequence(final_character: char, modifier: u8, application_cursor: bool) -> (sequence:
    Vec<char>)
    requires
        1 <= modifier <= 8,
    ensures
        sequence@ == cursor_text(final_character, modifier as int, application_cursor),
{
    let mut sequence: Vec<char> = Vec::new();
    sequence.push('\u{1b}');
    if modifier != 1 {
        sequence.push('[');
        sequence.push('1');
        sequence.push(';');
        sequence.push(digit_char(modifier));
    } else if application_cursor {
        sequence.push('O');
    } else {
        sequence.push('[');
    }
    sequence.push(final_character);
    assert(sequence@ =~= cursor_text(final_character, modifier as int, application_cursor));
    sequence
}

/// The sequence of a key with a number.
pub fn numbered_sequence(number: u8, modifier: u8) -> (sequence: Vec<char>)
    requires
        number < 100,
        1 <= modifier <= 8,
    ensures
        sequence@ == numbered_text(number as int, modifier as int),
{
    let mut sequence: Vec<char> = Vec::new();
    sequence.push('\u{1b}');
    sequence.push('[');
    if number >= 10 {
        sequence.push(digit_char(number / 10));
    }
    sequence.push(digit_char(number % 10));
    if modifier != 1 {
        sequence.push(';');
        sequence.push(digit_char(modifier));
    }
    sequence.push('~');
    assert(sequence@ =~= numbered_text(number as int, modifier as int));
    sequence
}

/// The sequence of one of the first four function keys.
pub fn function_key_sequence(final_character: char, modifier: u8) -> (sequence: Vec<char>)
    requires
        1 <= modifier <= 8,
    ensures
        sequence@ == function_text(final_character, modifier as int),
{
    let mut sequence: Vec<char> = Vec::new();
    sequence.push('\u{1b}');
    if modifier == 1 {
        sequence.push('O');
    } else {
        sequence.push('[');
        sequence.push('1');
        sequence.push(';');
        sequence.push(digit_char(modifier));
    }
    sequence.push(final_character);
    assert(sequence@ =~= function_text(final_character, modifier as int));
    sequence
}

fn special_sequence(key: SpecialKey, modifiers: Modifiers, modes: TerminalModes) -> (sequence: Vec<
    char,
>)
    requires
        key matches SpecialKey::Numbered(number) ==> number < 100,
    ensures
        sequence@ == special_text(key, modifiers, modes),
{
    let modifier: u8 = terminal_modifier_parameter(modifiers);
    let mut sequence: Vec<char> = Vec::new();
    match key {
        SpecialKey::Enter => {
            sequence.push('\r');
        },
        SpecialKey::Backspace => {
            if modifiers.alt {
                sequence.push('\u{1b}');
                sequence.push('\u{7f}');
            } else if modifiers.control {
                sequence.push('\u{8}');
            } else {
                sequence.push('\u{7f}');
            }
        },
        SpecialKey::Tab => {
            if modifiers.shift && !modifiers.control && !modifiers.alt {
                sequence.push('\u{1b}');
                sequence.push('[');
                sequence.push('Z');
            } else {
                sequence.push('\t');
            }
        },
        SpecialKey::Escape => {
            sequence.push('\u{1b}');
        },
        SpecialKey::Cursor(last) => {
            return cursor_sequence(last, modifier, modes.application_cursor);
        },
        SpecialKey::Numbered(number) => {
            return numbered_sequence(number, modifier);
        },
        SpecialKey::Function(last) => {
            return function_key_sequence(last, modifier);
        },
    }
    assert(sequence@ =~= special_text(key, modifiers, modes));
    sequence
}

/// The input for a key that has an encoding of its own.
pub fn terminal_special_key_input_with_modes(
    key: &str,
    modifiers: Modifiers,
    modes: TerminalModes,
) -> (input: Option<String>)
    ensures
        match input {
            Some(text) => special_input(key@, modifiers, modes) == Some(text@),
            None => special_input(key@, modifiers, modes) is None,
        },
{
    match named_key(key) {
        Some(special) => Some(text_of(special_sequence(special, modifiers, modes).as_slice())),
        None => None,
    }
}

/// The input for a key held with control.
pub fn terminal_control_input(key: &str, key_char: Option<&str>) -> (input: Option<String>)
    ensures
        ({
            let typed = match key_char {
                Some(text) => Some(text@),
                None => None,
            };
            match input {
                Some(text) => control_input(key@, typed) == Some(text@),
                None => control_input(key@, typed) is None,
            }
        }),
{
    let name = chars_of(key);
    let typed: Vec<char> = match key_char {
        Some(text) => chars_of(text),
        None => Vec::new(),
    };
    let character: char = if is_named(&name, "space") {
        ' '
    } else if typed.len() > 0 {
        typed[0]
    } else if name.len() > 0 {
        name[0]
    } else {
        return None;
    };
    let lower: char = if 'A' <= character && character <= 'Z' {
        (character as u8 + 32) as char
    } else {
        character
    };
    let control: char = if 'a' <= lower && lower <= 'z' {
        (lower as u8 - 96) as char
    } else if lower == '@' || lower == '2' || lower == ' ' {
        '\u{0}'
    } else if lower == '[' || lower == '3' {
        '\u{1b}'
    } else if lower == '\\' || lower == '4' {
        '\u{1c}'
    } else if lower == ']' || lower == '5' {
        '\u{1d}'
    } else if lower == '^' || lower == '6' {
        '\u{1e}'
    } else if lower == '_' || lower == '7' {
        '\u{1f}'
    } else if lower == '?' || lower == '8' {
        '\u{7f}'
    } else {
        return None;
    };
    let mut text: String = String::new();
    text.push(control);
    assert(text@ =~= seq![control]);
    Some(text)
}

/// The input that a keystroke sends to a terminal.
pub fn terminal_input_for_keystroke_with_modes(keystroke: &Keystroke, modes: TerminalModes) -> (input:
    Option<String>)
    ensures
        match input {
            Some(text) => keystroke_input(keystroke@, modes) == Some(text@),
            None => keystroke_input(keystroke@, modes) is None,
        },
{
    let modifiers = keystroke.modifiers;
    if modifiers.platform || modifiers.function {
        return None;
    }
    let key: &str = keystroke.key.as_str();
    if let Some(input) = terminal_special_key_input_with_modes(key, modifiers, modes) {
        return Some(input);
    }
    if modifiers.control {
        return match &keystroke.key_char {
            Some(text) => terminal_control_input(key, Some(text.as_str())),
            None => terminal_control_input(key, None),
        };
    }
    let name = chars_of(key);
    let typed: Vec<char> = match &keystroke.key_char {
        Some(text) => chars_of(text.as_str()),
        None => Vec::new(),
    };
    let text: Vec<char> = if typed.len() > 0 {
        typed
    } else if name.len() == 1 {
        name
    } else if is_named(&name, "space") {
        let mut space: Vec<char> = Vec::new();
        space.push(' ');
        assert(space@ =~= seq![' ']);
        space
    } else {
        return None;
    };
    if modifiers.alt {
        let mut input: String = String::new();
        input.push('\u{1b}');
        input.append(text_of(text.as_slice()).as_str());
        assert(input@ =~= seq!['\u{1b}'] + text@);
        Some(input)
    } else {
        Some(text_of(text.as_slice()))
    }
}

fn all_printable(text: &Vec<char>) -> (printable: bool)
    ensures
        printable == is_printable(text@),
{
    let mut i: usize = 0;
    while i < text.len()
        invariant
            i <= text.len(),
            forall|j: int| 0 <= j < i ==> !is_control(#[trigger] text@[j]),
        decreases text.len() - i,
    {
        let code: u32 = text[i] as u32;
        if code <= 0x1f || (0x7f <= code && code <= 0x9f) {
            assert(is_control(text@[i as int]));
            return false;
        }
        i += 1;
    }
    true
}

/// Whether the text input handler delivers a keystroke, so that the key press
/// itself must not.
pub fn terminal_key_uses_text_input_handler(keystroke: &Keystroke) -> (delivers: bool)
    ensures
        delivers == types_text(keystroke@),
{
    if named_key(keystroke.key.as_str()).is_some() {
        return false;
    }
    let name = chars_of(keystroke.key.as_str());
    let types: bool = match &keystroke.key_char {
        Some(text) => {
            let typed = chars_of(text.as_str());
            typed.len() > 0 && all_printable(&typed)
        },
        None => false,
    };
    (types || name.len() == 1 || is_named(&name, "space")) && !keystroke.modifiers.control
        && !keystroke.modifiers.alt && !keystroke.modifiers.platform
        && !keystroke.modifiers.function
}

/// A text a number of times over.
pub open spec fn repeated(text: Seq<char>, count: nat) -> Seq<char>
    decreases count,
{
    if count == 0 {
        Seq::empty()
    } else {
        repeated(text, (count - 1) as nat) + text
    }
}

/// The cursor keys that scroll a full screen program by a number of lines: up
/// for positive numbers, down for the others.
pub open spec fn alternate_scroll_text(lines: int, modes: TerminalModes) -> Seq<char> {
    let count = if lines >= 0 {
        lines
    } else {
        -lines
    };
    repeated(
        cursor_text(
            if lines > 0 {
                'A'
            } else {
                'B'
            },
            1,
            modes.application_cursor,
        ),
        if count < 100 {
            count as nat
        } else {
            100
        },
    )
}

pub fn terminal_alternate_scroll_input(lines: i32, modes: TerminalModes) -> (input: String)
    ensures
        input@ == alternate_scroll_text(lines as int, modes),
{
    let last: char = if lines > 0 { 'A' } else { 'B' };
    let sequence = text_of(cursor_sequence(last, 1, modes.application_cursor).as_slice());
    let distance: i64 = if lines >= 0 { lines as i64 } else { -(lines as i64) };
    let count: i64 = if distance < 100 { distance } else { 100 };
    let mut input: String = String::new();
    let mut i: i64 = 0;
    while i < count
        invariant
            0 <= i <= count,
            input@ =~= repeated(sequence@, i as nat),
        decreases count - i,
    {
        input.append(sequence.as_str());
        i += 1;
    }
    input
}

/// A keystroke that the text input handler delivers would type that very text,
/// so suppressing one of the two sends the text once.
pub proof fn law_text_is_typed_once(keystroke: KeystrokeModel, modes: TerminalModes)
    requires
        types_text(keystroke),
    ensures
        keystroke_input(keystroke, modes) == typed_text(keystroke.key, keystroke.key_char),
        keystroke_input(keystroke, modes) is Some,
{
}

/// A key with an encoding of its own never reaches the text input handler.
pub proof fn law_special_keys_are_not_typed(keystroke: KeystrokeModel, modes: TerminalModes)
    requires
        special_input(keystroke.key, keystroke.modifiers, modes) is Some,
    ensures
        !types_text(keystroke),
{
}

/// Keys held with the platform or function modifier belong to the window and
/// send nothing.
pub proof fn law_window_shortcuts_send_nothing(keystroke: KeystrokeModel, modes: TerminalModes)
    requires
        keystroke.modifiers.platform || keystroke.modifiers.function,
    ensures
        keystroke_input(keystroke, modes) is None,
{
}

/// What a key with a name sends, whatever text comes with it.
pub open spec fn sent_by(
    name: Seq<char>,
    key_char: Option<Seq<char>>,
    modifiers: Modifiers,
    modes: TerminalModes,
) -> Option<Seq<char>> {
    keystroke_input(KeystrokeModel { key: name, key_char, modifiers }, modes)
}

/// The letters that tell the names of keys apart.
proof fn lemma_key_letters()
    ensures
        "enter"@.len() == 5 && "enter"@[0] == 'e' && "enter"@[1] == 'n' && "enter"@[4] == 'r',
        "return"@.len() == 6 && "return"@[0] == 'r' && "return"@[1] == 'e' && "return"@[5] == 'n',
        "backspace"@.len() == 9 && "backspace"@[0] == 'b' && "backspace"@[1] == 'a' && "backspace"@[8] == 'e',
        "tab"@.len() == 3 && "tab"@[0] == 't' && "tab"@[1] == 'a' && "tab"@[2] == 'b',
        "escape"@.len() == 6 && "escape"@[0] == 'e' && "escape"@[1] == 's' && "escape"@[5] == 'e',
        "left"@.len() == 4 && "left"@[0] == 'l' && "left"@[1] == 'e' && "left"@[3] == 't',
        "right"@.len() == 5 && "right"@[0] == 'r' && "right"@[1] == 'i' && "right"@[4] == 't',
        "up"@.len() == 2 && "up"@[0] == 'u' && "up"@[1] == 'p' && "up"@[1] == 'p',
        "down"@.len() == 4 && "down"@[0] == 'd' && "down"@[1] == 'o' && "down"@[3] == 'n',
        "home"@.len() == 4 && "home"@[0] == 'h' && "home"@[1] == 'o' && "home"@[3] == 'e',
        "end"@.len() == 3 && "end"@[0] == 'e' && "end"@[1] == 'n' && "end"@[2] == 'd',
        "insert"@.len() == 6 && "insert"@[0] == 'i' && "insert"@[1] == 'n' && "insert"@[5] == 't',
        "delete"@.len() == 6 && "delete"@[0] == 'd' && "delete"@[1] == 'e' && "delete"@[5] == 'e',
        "pageup"@.len() == 6 && "pageup"@[0] == 'p' && "pageup"@[1] == 'a' && "pageup"@[5] == 'p',
        "pagedown"@.len() == 8 && "pagedown"@[0] == 'p' && "pagedown"@[1] == 'a' && "pagedown"@[7] == 'n',
        "f1"@.len() == 2 && "f1"@[0] == 'f' && "f1"@[1] == '1' && "f1"@[1] == '1',
        "f2"@.len() == 2 && "f2"@[0] == 'f' && "f2"@[1] == '2' && "f2"@[1] == '2',
        "f3"@.len() == 2 && "f3"@[0] == 'f' && "f3"@[1] == '3' && "f3"@[1] == '3',
        "f4"@.len() == 2 && "f4"@[0] == 'f' && "f4"@[1] == '4' && "f4"@[1] == '4',
        "f5"@.len() == 2 && "f5"@[0] == 'f' && "f5"@[1] == '5' && "f5"@[1] == '5',
        "f6"@.len() == 2 && "f6"@[0] == 'f' && "f6"@[1] == '6' && "f6"@[1] == '6',
        "f7"@.len() == 2 && "f7"@[0] == 'f' && "f7"@[1] == '7' && "f7"@[1] == '7',
        "f8"@.len() == 2 && "f8"@[0] == 'f' && "f8"@[1] == '8' && "f8"@[1] == '8',
        "f9"@.len() == 2 && "f9"@[0] == 'f' && "f9"@[1] == '9' && "f9"@[1] == '9',
        "f10"@.len() == 3 && "f10"@[0] == 'f' && "f10"@[1] == '1' && "f10"@[2] == '0',
        "f11"@.len() == 3 && "f11"@[0] == 'f' && "f11"@[1] == '1' && "f11"@[2] == '1',
        "f12"@.len() == 3 && "f12"@[0] == 'f' && "f12"@[1] == '1' && "f12"@[2] == '2',
        "space"@.len() == 5 && "space"@[0] == 's' && "space"@[1] == 'p' && "space"@[4] == 'e',
{
    reveal_strlit("enter");
    reveal_strlit("return");
    reveal_strlit("backspace");
    reveal_strlit("tab");
    reveal_strlit("escape");
    reveal_strlit("left");
    reveal_strlit("right");
    reveal_strlit("up");
    reveal_strlit("down");
    reveal_strlit("home");
    reveal_strlit("end");
    reveal_strlit("insert");
    reveal_strlit("delete");
    reveal_strlit("pageup");
    reveal_strlit("pagedown");
    reveal_strlit("f1");
    reveal_strlit("f2");
    reveal_strlit("f3");
    reveal_strlit("f4");
    reveal_strlit("f5");
    reveal_strlit("f6");
    reveal_strlit("f7");
    reveal_strlit("f8");
    reveal_strlit("f9");
    reveal_strlit("f10");
    reveal_strlit("f11");
    reveal_strlit("f12");
    reveal_strlit("space");
}

/// The names of keys that have an encoding of their own are all different.
proof fn lemma_key_names()
    ensures
        special_key("enter"@) == Some(SpecialKey::Enter),
        special_key("return"@) == Some(SpecialKey::Enter),
        special_key("backspace"@) == Some(SpecialKey::Backspace),
        special_key("tab"@) == Some(SpecialKey::Tab),
        special_key("escape"@) == Some(SpecialKey::Escape),
        special_key("left"@) == Some(SpecialKey::Cursor('D')),
        special_key("right"@) == Some(SpecialKey::Cursor('C')),
        special_key("up"@) == Some(SpecialKey::Cursor('A')),
        special_key("down"@) == Some(SpecialKey::Cursor('B')),
        special_key("home"@) == Some(SpecialKey::Cursor('H')),
        special_key("end"@) == Some(SpecialKey::Cursor('F')),
        special_key("insert"@) == Some(SpecialKey::Numbered(2)),
        special_key("delete"@) == Some(SpecialKey::Numbered(3)),
        special_key("pageup"@) == Some(SpecialKey::Numbered(5)),
        special_key("pagedown"@) == Some(SpecialKey::Numbered(6)),
        special_key("f1"@) == Some(SpecialKey::Function('P')),
        special_key("f2"@) == Some(SpecialKey::Function('Q')),
        special_key("f3"@) == Some(SpecialKey::Function('R')),
        special_key("f4"@) == Some(SpecialKey::Function('S')),
        special_key("f5"@) == Some(SpecialKey::Numbered(15)),
        special_key("f6"@) == Some(SpecialKey::Numbered(17)),
        special_key("f7"@) == Some(SpecialKey::Numbered(18)),
        special_key("f8"@) == Some(SpecialKey::Numbered(19)),
        special_key("f9"@) == Some(SpecialKey::Numbered(20)),
        special_key("f10"@) == Some(SpecialKey::Numbered(21)),
        special_key("f11"@) == Some(SpecialKey::Numbered(23)),
        special_key("f12"@) == Some(SpecialKey::Numbered(24)),
{
    lemma_key_letters();
}

/// The cursor keys send the letter of their direction: after the introducer by
/// themselves, in application mode after its own, and behind the number of the
/// modifiers where some are held.
pub proof fn law_cursor_keys_send_their_direction(
    key_char: Option<Seq<char>>,
    modifiers: Modifiers,
    modes: TerminalModes,
)
    requires
        !modifiers.platform,
        !modifiers.function,
    ensures
        !modifiers.shift && !modifiers.alt && !modifiers.control && !modes.application_cursor ==> {
            &&& sent_by("left"@, key_char, modifiers, modes) == Some(seq!['\u{1b}', '[', 'D'])
            &&& sent_by("right"@, key_char, modifiers, modes) == Some(seq!['\u{1b}', '[', 'C'])
            &&& sent_by("up"@, key_char, modifiers, modes) == Some(seq!['\u{1b}', '[', 'A'])
            &&& sent_by("down"@, key_char, modifiers, modes) == Some(seq!['\u{1b}', '[', 'B'])
            &&& sent_by("home"@, key_char, modifiers, modes) == Some(seq!['\u{1b}', '[', 'H'])
            &&& sent_by("end"@, key_char, modifiers, modes) == Some(seq!['\u{1b}', '[', 'F'])
        },
        !modifiers.shift && !modifiers.alt && !modifiers.control && modes.application_cursor ==> {
            &&& sent_by("left"@, key_char, modifiers, modes) == Some(seq!['\u{1b}', 'O', 'D'])
            &&& sent_by("right"@, key_char, modifiers, modes) == Some(seq!['\u{1b}', 'O', 'C'])
            &&& sent_by("up"@, key_char, modifiers, modes) == Some(seq!['\u{1b}', 'O', 'A'])
            &&& sent_by("down"@, key_char, modifiers, modes) == Some(seq!['\u{1b}', 'O', 'B'])
            &&& sent_by("home"@, key_char, modifiers, modes) == Some(seq!['\u{1b}', 'O', 'H'])
            &&& sent_by("end"@, key_char, modifiers, modes) == Some(seq!['\u{1b}', 'O', 'F'])
        },
        modifiers.shift || modifiers.alt || modifiers.control ==> {
            let held = (49 + (if modifiers.shift { 1int } else { 0 }) + (if modifiers.alt {
                2int
            } else {
                0
            }) + (if modifiers.control { 4int } else { 0 })) as char;
            &&& sent_by("left"@, key_char, modifiers, modes) == Some(
                seq!['\u{1b}', '[', '1', ';', held, 'D'],
            )
            &&& sent_by("right"@, key_char, modifiers, modes) == Some(
                seq!['\u{1b}', '[', '1', ';', held, 'C'],
            )
            &&& sent_by("up"@, key_char, modifiers, modes) == Some(
                seq!['\u{1b}', '[', '1', ';', held, 'A'],
            )
            &&& sent_by("down"@, key_char, modifiers, modes) == Some(
                seq!['\u{1b}', '[', '1', ';', held, 'B'],
            )
            &&& sent_by("home"@, key_char, modifiers, modes) == Some(
                seq!['\u{1b}', '[', '1', ';', held, 'H'],
            )
            &&& sent_by("end"@, key_char, modifiers, modes) == Some(
                seq!['\u{1b}', '[', '1', ';', held, 'F'],
            )
        },
{
    lemma_key_names();
}

/// The keys with numbers send them in decimal before a tilde, with the number
/// of the modifiers between where some are held.
pub proof fn law_numbered_keys_send_their_number(
    key_char: Option<Seq<char>>,
    modifiers: Modifiers,
    modes: TerminalModes,
)
    requires
        !modifiers.platform,
        !modifiers.function,
    ensures
        ({
            let held = (49 + (if modifiers.shift { 1int } else { 0 }) + (if modifiers.alt {
                2int
            } else {
                0
            }) + (if modifiers.control { 4int } else { 0 })) as char;
            let end = if modifiers.shift || modifiers.alt || modifiers.control {
                seq![';', held, '~']
            } else {
                seq!['~']
            };
            &&& sent_by("insert"@, key_char, modifiers, modes) == Some(seq!['\u{1b}', '[', '2'] + end)
            &&& sent_by("delete"@, key_char, modifiers, modes) == Some(seq!['\u{1b}', '[', '3'] + end)
            &&& sent_by("pageup"@, key_char, modifiers, modes) == Some(seq!['\u{1b}', '[', '5'] + end)
            &&& sent_by("pagedown"@, key_char, modifiers, modes) == Some(seq!['\u{1b}', '[', '6'] + end)
            &&& sent_by("f5"@, key_char, modifiers, modes) == Some(seq!['\u{1b}', '[', '1', '5'] + end)
            &&& sent_by("f6"@, key_char, modifiers, modes) == Some(seq!['\u{1b}', '[', '1', '7'] + end)
            &&& sent_by("f7"@, key_char, modifiers, modes) == Some(seq!['\u{1b}', '[', '1', '8'] + end)
            &&& sent_by("f8"@, key_char, modifiers, modes) == Some(seq!['\u{1b}', '[', '1', '9'] + end)
            &&& sent_by("f9"@, key_char, modifiers, modes) == Some(seq!['\u{1b}', '[', '2', '0'] + end)
            &&& sent_by("f10"@, key_char, modifiers, modes) == Some(seq!['\u{1b}', '[', '2', '1'] + end)
            &&& sent_by("f11"@, key_char, modifiers, modes) == Some(seq!['\u{1b}', '[', '2', '3'] + end)
            &&& sent_by("f12"@, key_char, modifiers, modes) == Some(seq!['\u{1b}', '[', '2', '4'] + end)
        }),
{
    lemma_key_names();
    assert(seq!['\u{1b}', '['] + short_decimal(2) =~= seq!['\u{1b}', '[', '2']);
    assert(seq!['\u{1b}', '['] + short_decimal(3) =~= seq!['\u{1b}', '[', '3']);
    assert(seq!['\u{1b}', '['] + short_decimal(5) =~= seq!['\u{1b}', '[', '5']);
    assert(seq!['\u{1b}', '['] + short_decimal(6) =~= seq!['\u{1b}', '[', '6']);
    assert(seq!['\u{1b}', '['] + short_decimal(15) =~= seq!['\u{1b}', '[', '1', '5']);
    assert(seq!['\u{1b}', '['] + short_decimal(17) =~= seq!['\u{1b}', '[', '1', '7']);
    assert(seq!['\u{1b}', '['] + short_decimal(18) =~= seq!['\u{1b}', '[', '1', '8']);
    assert(seq!['\u{1b}', '['] + short_decimal(19) =~= seq!['\u{1b}', '[', '1', '9']);
    assert(seq!['\u{1b}', '['] + short_decimal(20) =~= seq!['\u{1b}', '[', '2', '0']);
    assert(seq!['\u{1b}', '['] + short_decimal(21) =~= seq!['\u{1b}', '[', '2', '1']);
    assert(seq!['\u{1b}', '['] + short_decimal(23) =~= seq!['\u{1b}', '[', '2', '3']);
    assert(seq!['\u{1b}', '['] + short_decimal(24) =~= seq!['\u{1b}', '[', '2', '4']);
}

/// The first four function keys have letters, which follow the modifiers where
/// some are held.
pub proof fn law_function_keys_send_their_letter(
    key_char: Option<Seq<char>>,
    modifiers: Modifiers,
    modes: TerminalModes,
)
    requires
        !modifiers.platform,
        !modifiers.function,
    ensures
        ({
            let held = (49 + (if modifiers.shift { 1int } else { 0 }) + (if modifiers.alt {
                2int
            } else {
                0
            }) + (if modifiers.control { 4int } else { 0 })) as char;
            let start = if modifiers.shift || modifiers.alt || modifiers.control {
                seq!['\u{1b}', '[', '1', ';', held]
            } else {
                seq!['\u{1b}', 'O']
            };
            &&& sent_by("f1"@, key_char, modifiers, modes) == Some(start.push('P'))
            &&& sent_by("f2"@, key_char, modifiers, modes) == Some(start.push('Q'))
            &&& sent_by("f3"@, key_char, modifiers, modes) == Some(start.push('R'))
            &&& sent_by("f4"@, key_char, modifiers, modes) == Some(start.push('S'))
        }),
{
    lemma_key_names();
    let modifier = modifier_parameter(modifiers);
    assert(function_text('P', modifier) =~= (if modifier == 1 {
        seq!['\u{1b}', 'O']
    } else {
        seq!['\u{1b}', '[', '1', ';', digit(modifier)]
    }).push('P'));
    assert(function_text('Q', modifier) =~= (if modifier == 1 {
        seq!['\u{1b}', 'O']
    } else {
        seq!['\u{1b}', '[', '1', ';', digit(modifier)]
    }).push('Q'));
    assert(function_text('R', modifier) =~= (if modifier == 1 {
        seq!['\u{1b}', 'O']
    } else {
        seq!['\u{1b}', '[', '1', ';', digit(modifier)]
    }).push('R'));
    assert(function_text('S', modifier) =~= (if modifier == 1 {
        seq!['\u{1b}', 'O']
    } else {
        seq!['\u{1b}', '[', '1', ';', digit(modifier)]
    }).push('S'));
}

/// The keys of a typewriter send their control characters.
pub proof fn law_editing_keys_send_control_characters(
    key_char: Option<Seq<char>>,
    modifiers: Modifiers,
    modes: TerminalModes,
)
    requires
        !modifiers.platform,
        !modifiers.function,
    ensures
        sent_by("enter"@, key_char, modifiers, modes) == Some(seq!['\r']),
        sent_by("return"@, key_char, modifiers, modes) == Some(seq!['\r']),
        sent_by("escape"@, key_char, modifiers, modes) == Some(seq!['\u{1b}']),
        sent_by("backspace"@, key_char, modifiers, modes) == Some(
            if modifiers.alt {
                seq!['\u{1b}', '\u{7f}']
            } else if modifiers.control {
                seq!['\u{8}']
            } else {
                seq!['\u{7f}']
            },
        ),
        modifiers.shift && !modifiers.control && !modifiers.alt ==> sent_by(
            "tab"@,
            key_char,
            modifiers,
            modes,
        ) == Some(seq!['\u{1b}', '[', 'Z']),
        !modifiers.shift || modifiers.control || modifiers.alt ==> sent_by(
            "tab"@,
            key_char,
            modifiers,
            modes,
        ) == Some(seq!['\t']),
{
    lemma_key_names();
}

/// Keys that have an encoding of their own can be told apart by what they send
/// under the same modifiers; only the two names of the enter key share theirs.
pub proof fn law_special_keys_are_told_apart(
    first: Seq<char>,
    second: Seq<char>,
    modifiers: Modifiers,
    modes: TerminalModes,
)
    requires
        special_input(first, modifiers, modes) is Some,
        special_input(first, modifiers, modes) == special_input(second, modifiers, modes),
    ensures
        first == second || ((first == "enter"@ || first == "return"@) && (second == "enter"@
            || second == "return"@)),
{
    let a = special_key(first)->0;
    let b = special_key(second)->0;
    let sent = special_text(a, modifiers, modes);
    assert(sent == special_text(b, modifiers, modes));
    lemma_last_and_length(a, modifiers, modes);
    lemma_last_and_length(b, modifiers, modes);
    assert(a == b);
}

/// What tells the sequences of special keys apart.
proof fn lemma_last_and_length(key: SpecialKey, modifiers: Modifiers, modes: TerminalModes)
    requires
        key matches SpecialKey::Numbered(number) ==> number < 100,
    ensures
        ({
            let sent = special_text(key, modifiers, modes);
            match key {
                SpecialKey::Enter => sent.len() == 1 && sent[0] == '\r',
                SpecialKey::Backspace => sent.last() == '\u{7f}' || sent.last() == '\u{8}',
                SpecialKey::Tab => sent.last() == '\t' || (sent.last() == 'Z' && sent.len() == 3),
                SpecialKey::Escape => sent.len() == 1 && sent[0] == '\u{1b}',
                SpecialKey::Cursor(last) => sent.len() > 1 && sent.last() == last,
                SpecialKey::Function(last) => sent.len() > 1 && sent.last() == last,
                SpecialKey::Numbered(number) => {
                    &&& sent.len() > 3
                    &&& sent.last() == '~'
                    &&& number < 10 ==> sent[2] == (48 + number) as char && (sent[3] == '~'
                        || sent[3] == ';')
                    &&& number >= 10 ==> sent[2] == (48 + number / 10) as char && sent[3] == (48
                        + number % 10) as char
                },
            }
        }),
{
}

/// A letter held with control sends its place in the alphabet, whatever its
/// case; the signs around the letters go on below and above, and digits stand
/// in for them.
pub proof fn law_control_characters_count_from_the_alphabet(c: char, modifiers: Modifiers, modes: TerminalModes)
    requires
        modifiers.control,
        !modifiers.platform,
        !modifiers.function,
    ensures
        ({
            let sent = sent_by(seq![c], None, modifiers, modes);
            let code = c as int;
            &&& 97 <= code <= 122 ==> sent == Some(seq![(code - 96) as char])
            &&& 65 <= code <= 90 ==> sent == Some(seq![(code - 64) as char])
            &&& (code == 64 || 91 <= code <= 95) ==> sent == Some(seq![(code - 64) as char])
            &&& code == 32 || code == 50 ==> sent == Some(seq!['\u{0}'])
            &&& 51 <= code <= 55 ==> sent == Some(seq![(code - 24) as char])
            &&& code == 63 || code == 56 ==> sent == Some(seq!['\u{7f}'])
            &&& sent is None <==> !(97 <= code <= 122 || 63 <= code <= 95 || code == 32 || 50
                <= code <= 56)
        }),
{
    lemma_single_characters_are_no_names(c);
    lemma_key_letters();
}

proof fn lemma_single_characters_are_no_names(c: char)
    ensures
        special_key(seq![c]) is None,
{
    lemma_key_letters();
    assert(seq![c].len() == 1);
}

/// A key that types a character sends that very character, with an escape
/// before it where alt is held; a text that comes with the key goes before its
/// name.
pub proof fn law_plain_keys_send_their_text(
    c: char,
    typed: Seq<char>,
    modifiers: Modifiers,
    modes: TerminalModes,
)
    requires
        !modifiers.control,
        !modifiers.platform,
        !modifiers.function,
        typed.len() > 0,
    ensures
        !modifiers.alt ==> {
            &&& sent_by(seq![c], None, modifiers, modes) == Some(seq![c])
            &&& sent_by(seq![c], Some(typed), modifiers, modes) == Some(typed)
            &&& sent_by("space"@, None, modifiers, modes) == Some(seq![' '])
        },
        modifiers.alt ==> {
            &&& sent_by(seq![c], None, modifiers, modes) == Some(seq!['\u{1b}', c])
            &&& sent_by(seq![c], Some(typed), modifiers, modes) == Some(seq!['\u{1b}'] + typed)
            &&& sent_by("space"@, None, modifiers, modes) == Some(seq!['\u{1b}', ' '])
        },
{
    lemma_single_characters_are_no_names(c);
    lemma_key_letters();
    assert(special_key("space"@) is None);
    assert("space"@.len() == 5);
    assert(seq!['\u{1b}'] + seq![c] =~= seq!['\u{1b}', c]);
    assert(seq!['\u{1b}'] + seq![' '] =~= seq!['\u{1b}', ' ']);
}

/// A full screen program gets one cursor key for each line that the wheel
/// turns, up to a hundred: up for a turn back, down for a turn forward.
pub proof fn law_wheels_turn_cursor_keys(lines: int, modes: TerminalModes, i: int)
    requires
        0 <= i < lines || 0 <= i < -lines,
        i < 100,
    ensures
        ({
            let sent = alternate_scroll_text(lines, modes);
            &&& sent.len() == 3 * (if -100 < lines < 100 {
                if lines >= 0 { lines } else { -lines }
            } else {
                100int
            })
            &&& sent[3 * i] == '\u{1b}'
            &&& sent[3 * i + 1] == (if modes.application_cursor { 'O' } else { '[' })
            &&& sent[3 * i + 2] == (if lines > 0 { 'A' } else { 'B' })
        }),
{
    let text = cursor_text(
        if lines > 0 {
            'A'
        } else {
            'B'
        },
        1,
        modes.application_cursor,
    );
    let distance = if lines >= 0 {
        lines
    } else {
        -lines
    };
    let count = if distance < 100 {
        distance as nat
    } else {
        100
    };
    lemma_repeated(text, count, i);
}

proof fn lemma_repeated(text: Seq<char>, count: nat, i: int)
    requires
        text.len() == 3,
    ensures
        repeated(text, count).len() == 3 * count,
        0 <= i < count ==> repeated(text, count)[3 * i] == text[0] && repeated(text, count)[3 * i
            + 1] == text[1] && repeated(text, count)[3 * i + 2] == text[2],
    decreases count,
{
    if count > 0 {
        lemma_repeated(text, (count - 1) as nat, i);
    }
}

/// A key without modifiers that types something printable, or is named by one
/// character, is left to the input method; one with a modifier that changes
/// what it means never is.
pub proof fn law_printable_keys_are_left_to_the_input_method(
    c: char,
    typed: Seq<char>,
    modifiers: Modifiers,
)
    requires
        typed.len() > 0,
        forall|i: int| 0 <= i < typed.len() ==> #[trigger] typed[i] as u32 >= 0x20 && !(0x7f
            <= typed[i] as u32 <= 0x9f),
    ensures
        ({
            let plain = !modifiers.control && !modifiers.alt && !modifiers.platform
                && !modifiers.function;
            &&& types_text(KeystrokeModel { key: seq![c], key_char: None, modifiers }) == plain
            &&& types_text(KeystrokeModel { key: seq![c], key_char: Some(typed), modifiers })
                == plain
            &&& types_text(KeystrokeModel { key: "space"@, key_char: None, modifiers }) == plain
            &&& types_text(
                KeystrokeModel { key: "dead"@, key_char: Some(typed), modifiers },
            ) == plain
            &&& !types_text(KeystrokeModel { key: "dead"@, key_char: None, modifiers })
            &&& !types_text(KeystrokeModel { key: "tab"@, key_char: Some(typed), modifiers })
        }),
{
    lemma_single_characters_are_no_names(c);
    lemma_key_letters();
    lemma_key_names();
    reveal_strlit("dead");
    assert("dead"@[0] == 'd' && "dead"@[1] == 'e' && "dead"@.len() == 4);
    assert(special_key("space"@) is None);
    assert(special_key("dead"@) is None);
    assert("dead"@ != "space"@);
}

} // verus!
