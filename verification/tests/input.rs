//! Keys, wheel and buttons, and the text of input methods.

use water_workspace::ime::ImeState;
use water_workspace::ids::TerminalId;
use water_workspace::keyboard::pasted_text;
use water_workspace::keyboard::Shortcut;
use water_workspace::keys::named_key;
use water_workspace::keys::terminal_alternate_scroll_input;
use water_workspace::keys::terminal_input_for_keystroke_with_modes;
use water_workspace::keys::terminal_key_uses_text_input_handler;
use water_workspace::keys::terminal_modifier_parameter;
use water_workspace::keys::Keystroke;
use water_workspace::keys::Modifiers;
use water_workspace::keys::SpecialKey;
use water_workspace::mouse::mouse_button_code;
use water_workspace::mouse::terminal_mouse_button_input;
use water_workspace::mouse::terminal_mouse_input;
use water_workspace::mouse::terminal_selection_autoscroll_direction;
use water_workspace::mouse::MouseButton;
use water_workspace::mouse::TerminalMousePosition;
use water_workspace::selection::TerminalSelectionSide;
use water_workspace::shortcuts::empty_tab_hint;
use water_workspace::shortcuts::empty_workspace_hint;
use water_workspace::shortcuts::keystrokes_of;
use water_workspace::shortcuts::shortcut_label;
use water_workspace::terminal::TerminalModes;
use water_workspace::text::chars_of;
use water_workspace::text::decimal_text;
use water_workspace::text::normalize_utf16_range;
use water_workspace::text::text_byte_len;
use water_workspace::text::text_of;
use water_workspace::text::trim_chars;
use water_workspace::text::utf16_len;
use water_workspace::text::utf16_offset_to_byte;
use water_workspace::text::utf16_offset_to_byte_end;

fn keystroke(key: &str, key_char: Option<&str>, modifiers: Modifiers) -> Keystroke {
    Keystroke { key: key.to_owned(), key_char: key_char.map(str::to_owned), modifiers }
}

fn control() -> Modifiers {
    Modifiers { control: true, ..Modifiers::none() }
}

fn shift() -> Modifiers {
    Modifiers { shift: true, ..Modifiers::none() }
}

fn typed(key: &str, key_char: Option<&str>, modifiers: Modifiers) -> Option<String> {
    terminal_input_for_keystroke_with_modes(
        &keystroke(key, key_char, modifiers),
        TerminalModes::none(),
    )
}

fn at(column: usize, row: usize) -> TerminalMousePosition {
    TerminalMousePosition { column, row, side: TerminalSelectionSide::Left }
}

#[test]
fn terminal_input_preserves_printable_text_and_control_bytes() {
    assert!(terminal_key_uses_text_input_handler(&keystroke("a", Some("a"), Modifiers::none())));
    assert!(!terminal_key_uses_text_input_handler(&keystroke(
        "enter",
        Some("\r"),
        Modifiers::none(),
    )));
    assert!(!terminal_key_uses_text_input_handler(&keystroke("return", None, Modifiers::none())));
    assert_eq!(typed("a", Some("a"), Modifiers::none()), Some("a".to_owned()));
    assert_eq!(typed("c", Some("c"), control()), Some("\u{3}".to_owned()));
    assert_eq!(typed("backspace", None, Modifiers::none()), Some("\u{7f}".to_owned()));
    assert_eq!(typed("enter", None, Modifiers::none()), Some("\r".to_owned()));
}

#[test]
fn terminal_home_and_end_use_standard_and_application_sequences() {
    let normal = TerminalModes::none();
    let input = |key: &str, modifiers: Modifiers, modes: TerminalModes| {
        terminal_input_for_keystroke_with_modes(&keystroke(key, None, modifiers), modes)
    };
    assert_eq!(input("home", Modifiers::none(), normal), Some("\u{1b}[H".to_owned()));
    assert_eq!(input("end", Modifiers::none(), normal), Some("\u{1b}[F".to_owned()));

    let application = TerminalModes { application_cursor: true, ..normal };
    assert_eq!(input("home", Modifiers::none(), application), Some("\u{1b}OH".to_owned()));
    assert_eq!(input("end", Modifiers::none(), application), Some("\u{1b}OF".to_owned()));
    assert_eq!(input("home", shift(), application), Some("\u{1b}[1;2H".to_owned()));
}

#[test]
fn terminal_input_honors_application_cursor_and_mouse_reporting_modes() {
    assert_eq!(
        terminal_input_for_keystroke_with_modes(
            &keystroke("up", None, Modifiers::none()),
            TerminalModes { application_cursor: true, ..TerminalModes::none() },
        ),
        Some("\u{1b}OA".to_owned())
    );
    assert_eq!(
        terminal_mouse_input(
            1,
            at(1, 1),
            Modifiers::none(),
            TerminalModes { mouse_reporting: true, sgr_mouse: true, ..TerminalModes::none() },
        ),
        Some(b"\x1b[<64;1;1M".to_vec())
    );
}

#[test]
fn terminal_input_encodes_navigation_and_alt_sequences() {
    assert_eq!(typed("up", None, Modifiers::none()), Some("\u{1b}[A".to_owned()));
    assert_eq!(typed("left", None, control()), Some("\u{1b}[1;5D".to_owned()));
    assert_eq!(
        typed("x", Some("x"), Modifiers { alt: true, ..Modifiers::none() }),
        Some("\u{1b}x".to_owned())
    );
    assert_eq!(typed("tab", None, shift()), Some("\u{1b}[Z".to_owned()));
}

#[test]
fn function_keys_use_their_own_sequences() {
    assert_eq!(typed("f1", None, Modifiers::none()), Some("\u{1b}OP".to_owned()));
    assert_eq!(typed("f5", None, Modifiers::none()), Some("\u{1b}[15~".to_owned()));
    assert_eq!(typed("delete", None, Modifiers::none()), Some("\u{1b}[3~".to_owned()));
    assert_eq!(typed("pageup", None, shift()), Some("\u{1b}[5;2~".to_owned()));
    assert_eq!(named_key("escape"), Some(SpecialKey::Escape));
    assert_eq!(named_key("nothing"), None);
    assert_eq!(terminal_modifier_parameter(Modifiers::none()), 1);
    assert_eq!(terminal_modifier_parameter(shift()), 2);
    assert_eq!(terminal_modifier_parameter(control()), 5);
}

#[test]
fn window_shortcuts_type_nothing() {
    let platform = Modifiers { platform: true, ..Modifiers::none() };
    assert_eq!(typed("k", Some("k"), platform), None);
    assert!(!terminal_key_uses_text_input_handler(&keystroke("k", Some("k"), platform)));
}

#[test]
fn alternate_screens_scroll_by_cursor_keys() {
    let normal = TerminalModes::none();
    assert_eq!(terminal_alternate_scroll_input(2, normal), "\u{1b}[A\u{1b}[A");
    assert_eq!(terminal_alternate_scroll_input(-1, normal), "\u{1b}[B");
    assert_eq!(
        terminal_alternate_scroll_input(
            1,
            TerminalModes { application_cursor: true, ..normal },
        ),
        "\u{1b}OA"
    );
    assert_eq!(terminal_alternate_scroll_input(0, normal), "");
}

#[test]
fn wheels_report_once_for_each_line() {
    let sgr = TerminalModes { mouse_reporting: true, sgr_mouse: true, ..TerminalModes::none() };
    assert_eq!(
        terminal_mouse_input(-2, at(3, 4), Modifiers::none(), sgr),
        Some(b"\x1b[<65;3;4M\x1b[<65;3;4M".to_vec())
    );
    assert_eq!(terminal_mouse_input(0, at(3, 4), Modifiers::none(), sgr), None);
    assert_eq!(
        terminal_mouse_input(1, at(3, 4), Modifiers::none(), TerminalModes::none()),
        Some(vec![0x1b, b'[', b'M', 96, 35, 36])
    );
}

#[test]
fn buttons_report_presses_releases_and_motion() {
    let sgr = TerminalModes {
        mouse_reporting: true,
        mouse_drag: true,
        sgr_mouse: true,
        ..TerminalModes::none()
    };
    let report = |button: MouseButton, pressed: bool, motion: bool, modes: TerminalModes| {
        terminal_mouse_button_input(at(2, 5), button, pressed, motion, Modifiers::none(), modes)
    };
    assert_eq!(report(MouseButton::Left, true, false, sgr), Some(b"\x1b[<0;2;5M".to_vec()));
    assert_eq!(report(MouseButton::Left, false, false, sgr), Some(b"\x1b[<3;2;5m".to_vec()));
    assert_eq!(report(MouseButton::Right, true, true, sgr), Some(b"\x1b[<34;2;5M".to_vec()));
    assert_eq!(report(MouseButton::Navigate, true, false, sgr), None);
    let plain = TerminalModes { mouse_reporting: true, ..TerminalModes::none() };
    assert_eq!(
        report(MouseButton::Left, true, false, plain),
        Some(vec![0x1b, b'[', b'M', 32, 34, 37])
    );
    assert_eq!(mouse_button_code(MouseButton::Middle), Some(1));
    assert_eq!(mouse_button_code(MouseButton::Navigate), None);
}

#[test]
fn selection_autoscroll_direction_is_edge_triggered() {
    let direction = |y: f32, height: f32| {
        terminal_selection_autoscroll_direction(height > 0.0, y < 24.0, y > height - 24.0)
    };
    assert_eq!(direction(4.0, 200.0), Some(3));
    assert_eq!(direction(198.0, 200.0), Some(-3));
    assert_eq!(direction(100.0, 200.0), None);
    assert_eq!(direction(0.0, 0.0), None);
}

#[test]
fn utf16_ime_offsets_follow_unicode_scalar_boundaries() {
    let text = "a界😀";
    assert_eq!(utf16_len(text), 4);
    assert_eq!(utf16_offset_to_byte(text, 0), 0);
    assert_eq!(utf16_offset_to_byte(text, 1), 1);
    assert_eq!(utf16_offset_to_byte(text, 2), 4);
    assert_eq!(utf16_offset_to_byte(text, 3), 4);
    assert_eq!(utf16_offset_to_byte(text, 4), text.len());
    assert_eq!(normalize_utf16_range(0..99, 4), 0..4);
    assert_eq!(normalize_utf16_range(std::ops::Range { start: 3, end: 1 }, 4), 1..1);
}

#[test]
fn ends_of_ranges_take_in_whole_characters() {
    let text = "a界😀";
    assert_eq!(utf16_offset_to_byte_end(text, 3), text.len());
    assert_eq!(utf16_offset_to_byte_end(text, 2), 4);
    assert_eq!(text_byte_len(text), text.len());
}

#[test]
fn whitespace_around_a_text_is_dropped() {
    let trimmed = |text: &str| text_of(&trim_chars(&chars_of(text)));
    assert_eq!(trimmed("  a b\t"), "a b");
    assert_eq!(trimmed("\u{3000}界\u{a0}"), "界");
    assert_eq!(trimmed(" \n "), "");
    assert_eq!(decimal_text(0), "0");
    assert_eq!(decimal_text(1204), "1204");
}

#[test]
fn compositions_replace_their_range() {
    let mut state = ImeState::new();
    state.compose(TerminalId::new(1), None, "拼音", Some(2..2));
    assert_eq!(state.marked_text, "拼音");
    assert_eq!(state.selected_range, 2..2);
    assert_eq!(state.marked_range(), Some(0..2));
    assert_eq!(state.text_for_range(1..9), ("音".to_owned(), 1..2));
    state.compose(TerminalId::new(1), Some(1..2), "y", None);
    assert_eq!(state.marked_text, "拼y");
    state.clear();
    assert_eq!(state.marked_text, "");
    assert_eq!(state.marked_range(), None);
}

#[test]
fn pasted_text_is_bracketed_where_the_program_asks() {
    assert_eq!(pasted_text("ls".to_owned(), false), "ls");
    assert_eq!(pasted_text("ls".to_owned(), true), "\u{1b}[200~ls\u{1b}[201~");
}

#[test]
fn shortcuts_fall_back_to_their_keystrokes() {
    let expected = [
        (Shortcut::FocusLeft, "cmd-h"),
        (Shortcut::FocusRight, "cmd-l"),
        (Shortcut::FocusUp, "cmd-k"),
        (Shortcut::FocusDown, "cmd-j"),
        (Shortcut::ClosePane, "cmd-shift-w"),
        (Shortcut::Paste, "cmd-v"),
        (Shortcut::CopyOrInterrupt, "cmd-c"),
        (Shortcut::Eof, "cmd-d"),
        (Shortcut::ScrollPageUp, "shift-pageup"),
        (Shortcut::ScrollPageDown, "shift-pagedown"),
    ];
    for (shortcut, text) in expected {
        assert_eq!(shortcut.fallback(), text);
    }
}

#[test]
fn shortcuts_are_made_of_words() {
    assert_eq!(keystrokes_of(" cmd-k\tcmd-t \u{3000}x "), vec!["cmd-k", "cmd-t", "x"]);
    assert_eq!(keystrokes_of("cmd-k"), vec!["cmd-k"]);
    assert!(keystrokes_of("").is_empty());
    assert!(keystrokes_of(" \n").is_empty());
    assert_eq!(shortcut_label("  cmd-k cmd-t ", "cmd-n", true), "Cmd-K");
    assert_eq!(shortcut_label("   ", "cmd-n", true), "Cmd-N");
}

#[test]
fn whitespace_is_what_unicode_lists() {
    let listed = [
        0x9, 0xa, 0xb, 0xc, 0xd, 0x20, 0x85, 0xa0, 0x1680, 0x2000, 0x2001, 0x2002, 0x2003, 0x2004,
        0x2005, 0x2006, 0x2007, 0x2008, 0x2009, 0x200a, 0x2028, 0x2029, 0x202f, 0x205f, 0x3000,
    ];
    for code in 0..=0x10ffff_u32 {
        if let Some(character) = char::from_u32(code) {
            assert_eq!(trim_chars(&vec![character]).is_empty(), listed.contains(&code));
        }
    }
}

#[test]
fn shortcuts_are_shown_in_capitals() {
    assert_eq!(shortcut_label("cmd-t", "cmd-n", true), "Cmd-T");
    assert_eq!(shortcut_label("cmd-t", "cmd-n", false), "Cmd-N");
    assert_eq!(shortcut_label("ß", "x", true), "SS");
    assert_eq!(shortcut_label("ctrl-ALT-fn-x cmd-y", "x", true), "Ctrl-Alt-Fn-X");
    assert_eq!(empty_workspace_hint("cmd-n", true), "Press Cmd-N to create a workspace");
    assert_eq!(
        empty_workspace_hint("", true),
        "Press Cmd-Shift-N to create a workspace"
    );
    assert_eq!(empty_tab_hint("??", false), "Press Cmd-T to open a terminal tab");
}
