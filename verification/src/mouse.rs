//! Mouse events as the bytes that a terminal program expects for them.

use crate::keys::Modifiers;
use crate::selection::TerminalSelectionSide;
use crate::terminal::TerminalModes;
use vstd::prelude::*;

verus! {

#[derive(Clone, Copy, PartialEq, Eq, Structural, Debug)]
pub enum MouseButton {
    Left,
    Middle,
    Right,
    /// A button that moves through a history; terminals do not report it.
    Navigate,
}

/// Where the pointer stands in the grid of a terminal; columns and rows count
/// from one.
#[derive(Clone, Copy, PartialEq, Eq, Structural, Debug)]
pub struct TerminalMousePosition {
    pub column: usize,
    pub row: usize,
    pub side: TerminalSelectionSide,
}

#[derive(Clone, Copy, PartialEq, Eq, Structural, Debug)]
pub enum TerminalMouseReportKind {
    Press,
    Release,
    Motion,
}

/// The code of a wheel that turns up.
pub const WHEEL_UP: u16 = 64;

/// The code of a wheel that turns down.
pub const WHEEL_DOWN: u16 = 65;

/// How far the longest report scrolls.
pub const LONGEST_SCROLL: i32 = 100;

pub open spec fn button_code(button: MouseButton) -> Option<u16> {
    match button {
        MouseButton::Left => Some(0),
        MouseButton::Middle => Some(1),
        MouseButton::Right => Some(2),
        MouseButton::Navigate => None,
    }
}

/// The number that stands for button, movement and modifiers in a report. A
/// release does not say which button it was.
pub open spec fn report_code(button: int, modifiers: Modifiers, kind: TerminalMouseReportKind) -> int {
    (match kind {
        TerminalMouseReportKind::Press => button,
        TerminalMouseReportKind::Motion => button + 32,
        TerminalMouseReportKind::Release => 3,
    }) + (if modifiers.shift {
        4int
    } else {
        0
    }) + (if modifiers.alt {
        8int
    } else {
        0
    }) + (if modifiers.control {
        16int
    } else {
        0
    })
}

/// A number in decimal.
pub open spec fn decimal(value: nat) -> Seq<u8>
    decreases value,
{
    if value < 10 {
        seq![(48 + value) as u8]
    } else {
        decimal(value / 10).push((48 + value % 10) as u8)
    }
}

/// A code point in UTF-8, for code points below the supplementary planes.
pub open spec fn utf8_bytes(value: int) -> Seq<u8> {
    if value < 0x80 {
        seq![value as u8]
    } else if value < 0x800 {
        seq![(0xc0 + value / 64) as u8, (0x80 + value % 64) as u8]
    } else {
        seq![
            (0xe0 + value / 4096) as u8,
            (0x80 + (value / 64) % 64) as u8,
            (0x80 + value % 64) as u8,
        ]
    }
}

/// A coordinate in a report: a character where the program reads UTF-8, else a
/// byte.
pub open spec fn coordinate_bytes(value: int, utf8: bool) -> Seq<u8> {
    if utf8 {
        utf8_bytes(value)
    } else {
        seq![(value % 256) as u8]
    }
}

/// The largest coordinate that a report without SGR encoding can hold.
pub open spec fn largest_coordinate(utf8: bool) -> int {
    if utf8 {
        2047
    } else {
        223
    }
}

pub open spec fn at_most(value: int, limit: int) -> int {
    if value <= limit {
        value
    } else {
        limit
    }
}

/// One mouse report.
pub open spec fn report_bytes(
    code: int,
    position: TerminalMousePosition,
    modes: TerminalModes,
    release: bool,
) -> Seq<u8> {
    if modes.sgr_mouse {
        seq![0x1bu8, 0x5bu8, 0x3cu8] + decimal(code as nat) + seq![0x3bu8] + decimal(
            position.column as nat,
        ) + seq![0x3bu8] + decimal(position.row as nat) + seq![
            if release {
                0x6du8
            } else {
                0x4du8
            },
        ]
    } else {
        let limit = largest_coordinate(modes.utf8_mouse);
        seq![0x1bu8, 0x5bu8, 0x4du8] + coordinate_bytes(32 + code, modes.utf8_mouse)
            + coordinate_bytes(32 + at_most(position.column as int, limit), modes.utf8_mouse)
            + coordinate_bytes(32 + at_most(position.row as int, limit), modes.utf8_mouse)
    }
}

/// Bytes a number of times over.
pub open spec fn repeated_bytes(bytes: Seq<u8>, count: nat) -> Seq<u8>
    decreases count,
{
    if count == 0 {
        Seq::empty()
    } else {
        repeated_bytes(bytes, (count - 1) as nat) + bytes
    }
}

/// A report code can be written: it fits, and in UTF-8 it is a character.
pub open spec fn is_reportable(code: int, modes: TerminalModes) -> bool {
    &&& 0 <= code <= u16::MAX
    &&& !modes.sgr_mouse ==> 32 + code <= u16::MAX
    &&& !modes.sgr_mouse && modes.utf8_mouse ==> !(0xd800 <= 32 + code <= 0xdfff)
}

fn push_decimal(bytes: &mut Vec<u8>, value: usize)
    ensures
        final(bytes)@ == old(bytes)@ + decimal(value as nat),
    decreases value,
{
    if value < 10 {
        bytes.push(48 + value as u8);
        assert(bytes@ =~= old(bytes)@ + decimal(value as nat));
    } else {
        push_decimal(bytes, value / 10);
        let digit: u8 = (value % 10) as u8;
        bytes.push(48 + digit);
        assert(bytes@ =~= old(bytes)@ + decimal(value as nat));
    }
}

/// Appends one coordinate of a report.
pub fn push_mouse_coordinate(input: &mut Vec<u8>, value: u16, utf8: bool)
    requires
        utf8 ==> !(0xd800 <= value <= 0xdfff),
    ensures
        final(input)@ == old(input)@ + coordinate_bytes(value as int, utf8),
{
    if !utf8 {
        input.push((value % 256) as u8);
    } else if value < 0x80 {
        input.push(value as u8);
    } else if value < 0x800 {
        input.push((0xc0 + value / 64) as u8);
        input.push((0x80 + value % 64) as u8);
    } else {
        input.push((0xe0 + value / 4096) as u8);
        input.push((0x80 + (value / 64) % 64) as u8);
        input.push((0x80 + value % 64) as u8);
    }
    assert(input@ =~= old(input)@ + coordinate_bytes(value as int, utf8));
}

pub fn mouse_button_code(button: MouseButton) -> (code: Option<u16>)
    ensures
        code == button_code(button),
{
    match button {
        MouseButton::Left => Some(0),
        MouseButton::Middle => Some(1),
        MouseButton::Right => Some(2),
        MouseButton::Navigate => None,
    }
}

fn push_report(
    input: &mut Vec<u8>,
    code: u16,
    position: TerminalMousePosition,
    modes: TerminalModes,
    release: bool,
)
    requires
        is_reportable(code as int, modes),
    ensures
        final(input)@ == old(input)@ + report_bytes(code as int, position, modes, release),
{
    input.push(0x1b);
    input.push(0x5b);
    if modes.sgr_mouse {
        input.push(0x3c);
        push_decimal(input, code as usize);
        input.push(0x3b);
        push_decimal(input, position.column);
        input.push(0x3b);
        push_decimal(input, position.row);
        input.push(if release { 0x6d } else { 0x4d });
    } else {
        let limit: usize = if modes.utf8_mouse { 2047 } else { 223 };
        let column: usize = if position.column <= limit { position.column } else { limit };
        let row: usize = if position.row <= limit { position.row } else { limit };
        input.push(0x4d);
        push_mouse_coordinate(input, 32 + code, modes.utf8_mouse);
        push_mouse_coordinate(input, 32 + column as u16, modes.utf8_mouse);
        push_mouse_coordinate(input, 32 + row as u16, modes.utf8_mouse);
    }
    assert(input@ =~= old(input)@ + report_bytes(code as int, position, modes, release));
}

/// The same report a number of times over.
pub fn terminal_mouse_sequence(
    button: u16,
    count: usize,
    position: TerminalMousePosition,
    modifiers: Modifiers,
    modes: TerminalModes,
    kind: TerminalMouseReportKind,
) -> (input: Vec<u8>)
    requires
        is_reportable(report_code(button as int, modifiers, kind), modes),
    ensures
        input@ == repeated_bytes(
            report_bytes(
                report_code(button as int, modifiers, kind),
                position,
                modes,
                kind == TerminalMouseReportKind::Release,
            ),
            count as nat,
        ),
{
    let release: bool = kind == TerminalMouseReportKind::Release;
    let shift: u16 = if modifiers.shift { 4 } else { 0 };
    let alt: u16 = if modifiers.alt { 8 } else { 0 };
    let control: u16 = if modifiers.control { 16 } else { 0 };
    let base: u16 = match kind {
        TerminalMouseReportKind::Press => button,
        TerminalMouseReportKind::Motion => button + 32,
        TerminalMouseReportKind::Release => 3,
    };
    let code: u16 = base + shift + alt + control;
    let mut input: Vec<u8> = Vec::new();
    let mut i: usize = 0;
    while i < count
        invariant
            i <= count,
            is_reportable(code as int, modes),
            input@ =~= repeated_bytes(
                report_bytes(code as int, position, modes, release),
                i as nat,
            ),
        decreases count - i,
    {
        push_report(&mut input, code, position, modes, release);
        i += 1;
    }
    input
}

/// The report of a wheel that turned by a number of lines; nothing where it
/// did not turn.
pub open spec fn wheel_report(
    lines: int,
    position: TerminalMousePosition,
    modifiers: Modifiers,
    modes: TerminalModes,
) -> Option<Seq<u8>> {
    if lines == 0 {
        None
    } else {
        let count = at_most(
            if lines > 0 {
                lines
            } else {
                -lines
            },
            LONGEST_SCROLL as int,
        );
        Some(
            repeated_bytes(
                report_bytes(
                    report_code(
                        if lines > 0 {
                            WHEEL_UP as int
                        } else {
                            WHEEL_DOWN as int
                        },
                        modifiers,
                        TerminalMouseReportKind::Press,
                    ),
                    position,
                    modes,
                    false,
                ),
                count as nat,
            ),
        )
    }
}

pub fn terminal_mouse_input(
    lines: i32,
    position: TerminalMousePosition,
    modifiers: Modifiers,
    modes: TerminalModes,
) -> (input: Option<Vec<u8>>)
    ensures
        match input {
            Some(bytes) => wheel_report(lines as int, position, modifiers, modes) == Some(bytes@),
            None => wheel_report(lines as int, position, modifiers, modes) is None,
        },
{
    if lines == 0 {
        return None;
    }
    let button: u16 = if lines > 0 { WHEEL_UP } else { WHEEL_DOWN };
    let distance: i64 = if lines > 0 { lines as i64 } else { -(lines as i64) };
    let count: i64 = if distance <= LONGEST_SCROLL as i64 { distance } else { LONGEST_SCROLL as i64 };
    Some(
        terminal_mouse_sequence(
            button,
            count as usize,
            position,
            modifiers,
            modes,
            TerminalMouseReportKind::Press,
        ),
    )
}

pub open spec fn report_kind(pressed: bool, motion: bool) -> TerminalMouseReportKind {
    if !pressed {
        TerminalMouseReportKind::Release
    } else if motion {
        TerminalMouseReportKind::Motion
    } else {
        TerminalMouseReportKind::Press
    }
}

/// The report of a button; nothing where terminals do not report it.
pub open spec fn button_report(
    position: TerminalMousePosition,
    button: MouseButton,
    pressed: bool,
    motion: bool,
    modifiers: Modifiers,
    modes: TerminalModes,
) -> Option<Seq<u8>> {
    match button_code(button) {
        Some(code) => Some(
            report_bytes(
                report_code(code as int, modifiers, report_kind(pressed, motion)),
                position,
                modes,
                !pressed,
            ),
        ),
        None => None,
    }
}

pub fn terminal_mouse_button_input(
    position: TerminalMousePosition,
    button: MouseButton,
    pressed: bool,
    motion: bool,
    modifiers: Modifiers,
    modes: TerminalModes,
) -> (input: Option<Vec<u8>>)
    ensures
        match input {
            Some(bytes) => button_report(position, button, pressed, motion, modifiers, modes)
                == Some(bytes@),
            None => button_report(position, button, pressed, motion, modifiers, modes) is None,
        },
{
    let code: u16 = match mouse_button_code(button) {
        Some(code) => code,
        None => {
            return None;
        },
    };
    let kind: TerminalMouseReportKind = if !pressed {
        TerminalMouseReportKind::Release
    } else if motion {
        TerminalMouseReportKind::Motion
    } else {
        TerminalMouseReportKind::Press
    };
    let input = terminal_mouse_sequence(code, 1, position, modifiers, modes, kind);
    proof {
        let report = report_bytes(
            report_code(code as int, modifiers, kind),
            position,
            modes,
            kind == TerminalMouseReportKind::Release,
        );
        assert(repeated_bytes(report, 0) =~= Seq::<u8>::empty());
        assert(repeated_bytes(report, 1) =~= report);
    }
    Some(input)
}

/// Whether the wheel gesture comes from a trackpad.
#[derive(Clone, Copy, PartialEq, Eq, Structural, Debug)]
pub enum TerminalScrollInputKind {
    TrackpadGesture,
    MouseWheel,
}

/// The phase of a scroll gesture.
#[derive(Clone, Copy, PartialEq, Eq, Structural, Debug)]
pub enum TouchPhase {
    Started,
    Moved,
    Ended,
    Cancelled,
}

/// Scrolling by lines comes from a wheel. Scrolling by pixels comes from a
/// trackpad where the gesture says so or is already under way.
pub open spec fn scroll_input_kind(
    in_pixels: bool,
    phase: TouchPhase,
    gesture_active: bool,
) -> TerminalScrollInputKind {
    if in_pixels && (phase != TouchPhase::Moved || gesture_active) {
        TerminalScrollInputKind::TrackpadGesture
    } else {
        TerminalScrollInputKind::MouseWheel
    }
}

pub fn terminal_scroll_input_kind(
    in_pixels: bool,
    phase: TouchPhase,
    trackpad_gesture_active: bool,
) -> (kind: TerminalScrollInputKind)
    ensures
        kind == scroll_input_kind(in_pixels, phase, trackpad_gesture_active),
{
    if !in_pixels {
        return TerminalScrollInputKind::MouseWheel;
    }
    match phase {
        TouchPhase::Started | TouchPhase::Ended | TouchPhase::Cancelled => {
            TerminalScrollInputKind::TrackpadGesture
        },
        TouchPhase::Moved => if trackpad_gesture_active {
            TerminalScrollInputKind::TrackpadGesture
        } else {
            TerminalScrollInputKind::MouseWheel
        },
    }
}

/// Rows by which a selection dragged to the edge scrolls at a time.
pub const SELECTION_AUTOSCROLL_STEP_ROWS: i64 = 3;

/// Rows to scroll for a pointer near the edge of a pane; positive numbers go
/// back into the history. A pane without height does not scroll.
pub open spec fn autoscroll_direction(has_height: bool, near_top: bool, near_bottom: bool) -> Option<
    i64,
> {
    if !has_height {
        None
    } else if near_top {
        Some(SELECTION_AUTOSCROLL_STEP_ROWS)
    } else if near_bottom {
        Some((-SELECTION_AUTOSCROLL_STEP_ROWS) as i64)
    } else {
        None
    }
}

pub fn terminal_selection_autoscroll_direction(
    has_height: bool,
    near_top: bool,
    near_bottom: bool,
) -> (rows: Option<i64>)
    ensures
        rows == autoscroll_direction(has_height, near_top, near_bottom),
{
    if !has_height {
        None
    } else if near_top {
        Some(SELECTION_AUTOSCROLL_STEP_ROWS)
    } else if near_bottom {
        Some(-SELECTION_AUTOSCROLL_STEP_ROWS)
    } else {
        None
    }
}

/// Every byte of a coordinate without UTF-8 is at least a space, so a report
/// never holds a stray control byte.
pub proof fn law_coordinates_are_printable(position: TerminalMousePosition)
    requires
        position.column >= 1,
        position.row >= 1,
    ensures
        32 < 32 + at_most(position.column as int, largest_coordinate(false)) <= 255,
        32 < 32 + at_most(position.row as int, largest_coordinate(false)) <= 255,
        coordinate_bytes(
            32 + at_most(position.column as int, largest_coordinate(false)),
            false,
        ).len() == 1,
{
}

/// Decimal numbers are never empty and have no leading zero.
pub proof fn law_decimals_are_canonical(value: nat)
    ensures
        decimal(value).len() > 0,
        value > 0 ==> decimal(value)[0] != 48u8,
        forall|i: int| 0 <= i < decimal(value).len() ==> 48u8 <= #[trigger] decimal(value)[i]
            <= 57u8,
    decreases value,
{
    if value >= 10 {
        law_decimals_are_canonical(value / 10);
    }
}

/// The number that decimal digits stand for.
pub open spec fn number_of(digits: Seq<u8>) -> int
    decreases digits.len(),
{
    if digits.len() == 0 {
        0
    } else {
        10 * number_of(digits.drop_last()) + (digits.last() - 48)
    }
}

/// The digits of a number read as that number, so different numbers have
/// different digits.
pub proof fn law_decimals_read_as_their_number(value: nat)
    ensures
        number_of(decimal(value)) == value,
    decreases value,
{
    let digits = decimal(value);
    if value < 10 {
        assert(digits.drop_last() =~= Seq::<u8>::empty());
        assert(number_of(digits.drop_last()) == 0);
    } else {
        law_decimals_read_as_their_number(value / 10);
        assert(digits.drop_last() =~= decimal(value / 10));
    }
}

/// The end of the digits that start a text.
proof fn lemma_digits_end(value: nat, other: nat, rest: Seq<u8>, other_rest: Seq<u8>)
    requires
        rest.len() > 0,
        other_rest.len() > 0,
        rest[0] < 48 || rest[0] > 57,
        other_rest[0] < 48 || other_rest[0] > 57,
        decimal(value) + rest == decimal(other) + other_rest,
    ensures
        value == other,
        rest == other_rest,
{
    let a = decimal(value);
    let b = decimal(other);
    let whole = a + rest;
    law_decimals_are_canonical(value);
    law_decimals_are_canonical(other);
    if a.len() < b.len() {
        assert(whole[a.len() as int] == rest[0]);
        assert((b + other_rest)[a.len() as int] == b[a.len() as int]);
    } else if b.len() < a.len() {
        assert((b + other_rest)[b.len() as int] == other_rest[0]);
        assert(whole[b.len() as int] == a[b.len() as int]);
    }
    assert(a =~= b) by {
        assert forall|i: int| 0 <= i < a.len() implies a[i] == b[i] by {
            assert(whole[i] == a[i]);
            assert((b + other_rest)[i] == b[i]);
        }
    }
    assert(rest =~= other_rest) by {
        assert(whole.len() == (b + other_rest).len());
        assert forall|i: int| 0 <= i < rest.len() implies rest[i] == other_rest[i] by {
            assert(whole[a.len() + i] == rest[i]);
            assert((b + other_rest)[b.len() + i] == other_rest[i]);
        }
    }
    law_decimals_read_as_their_number(value);
    law_decimals_read_as_their_number(other);
}

/// An SGR report can be read: it starts with its introducer, holds code, column
/// and row as numbers in that order with semicolons between, and ends in `M`
/// for a press and `m` for a release.
pub proof fn law_reports_can_be_read(
    code: nat,
    position: TerminalMousePosition,
    modes: TerminalModes,
    release: bool,
)
    requires
        modes.sgr_mouse,
    ensures
        ({
            let report = report_bytes(code as int, position, modes, release);
            &&& report.len() > 8
            &&& report[0] == 0x1b && report[1] == 0x5b && report[2] == 0x3c
            &&& report.last() == (if release { 0x6du8 } else { 0x4du8 })
            &&& exists|a: int, b: int|
                3 < a < b < report.len() - 2 && #[trigger] report[a] == 0x3b && #[trigger] report[b]
                    == 0x3b && number_of(report.subrange(3, a)) == code && number_of(
                    report.subrange(a + 1, b),
                ) == position.column && number_of(report.subrange(b + 1, report.len() - 1))
                    == position.row
        }),
{
    let c = decimal(code);
    let x = decimal(position.column as nat);
    let y = decimal(position.row as nat);
    let report = report_bytes(code as int, position, modes, release);
    law_decimals_are_canonical(code);
    law_decimals_are_canonical(position.column as nat);
    law_decimals_are_canonical(position.row as nat);
    law_decimals_read_as_their_number(code);
    law_decimals_read_as_their_number(position.column as nat);
    law_decimals_read_as_their_number(position.row as nat);
    let a = 3 + c.len() as int;
    let b = a + 1 + x.len() as int;
    assert(report.len() == b + 1 + y.len() + 1);
    assert(report.subrange(3, a) =~= c);
    assert(report.subrange(a + 1, b) =~= x);
    assert(report.subrange(b + 1, report.len() - 1) =~= y);
    assert(report[a] == 0x3b && report[b] == 0x3b);
}

/// An SGR report behind its introducer: numbers with semicolons between.
pub open spec fn report_tail(code: nat, column: nat, row: nat, release: bool) -> Seq<u8> {
    decimal(code) + (seq![0x3bu8] + (decimal(column) + (seq![0x3bu8] + (decimal(row) + seq![
        if release {
            0x6du8
        } else {
            0x4du8
        },
    ]))))
}

proof fn lemma_report_tail(
    code: nat,
    position: TerminalMousePosition,
    modes: TerminalModes,
    release: bool,
)
    requires
        modes.sgr_mouse,
    ensures
        report_bytes(code as int, position, modes, release).skip(3) == report_tail(
            code,
            position.column as nat,
            position.row as nat,
            release,
        ),
{
    assert(report_bytes(code as int, position, modes, release).skip(3) =~= report_tail(
        code,
        position.column as nat,
        position.row as nat,
        release,
    ));
}

proof fn lemma_semicolons(first: Seq<u8>, second: Seq<u8>)
    requires
        seq![0x3bu8] + first == seq![0x3bu8] + second,
    ensures
        first == second,
{
    assert((seq![0x3bu8] + first).skip(1) =~= first);
    assert((seq![0x3bu8] + second).skip(1) =~= second);
}

/// Two events with the same SGR report are the same.
pub proof fn law_reports_tell_events_apart(
    code: nat,
    other_code: nat,
    position: TerminalMousePosition,
    other: TerminalMousePosition,
    modes: TerminalModes,
    release: bool,
    other_release: bool,
)
    requires
        modes.sgr_mouse,
        report_bytes(code as int, position, modes, release) == report_bytes(
            other_code as int,
            other,
            modes,
            other_release,
        ),
    ensures
        code == other_code,
        position.column == other.column,
        position.row == other.row,
        release == other_release,
{
    let end = seq![
        if release {
            0x6du8
        } else {
            0x4du8
        },
    ];
    let other_end = seq![
        if other_release {
            0x6du8
        } else {
            0x4du8
        },
    ];
    let semicolon = seq![0x3bu8];
    let x = decimal(position.column as nat);
    let ox = decimal(other.column as nat);
    let y = decimal(position.row as nat);
    let oy = decimal(other.row as nat);
    lemma_report_tail(code, position, modes, release);
    lemma_report_tail(other_code, other, modes, other_release);
    let rest = x + (semicolon + (y + end));
    let other_rest = ox + (semicolon + (oy + other_end));
    lemma_digits_end(code, other_code, semicolon + rest, semicolon + other_rest);
    lemma_semicolons(rest, other_rest);
    lemma_digits_end(
        position.column as nat,
        other.column as nat,
        semicolon + (y + end),
        semicolon + (oy + other_end),
    );
    lemma_semicolons(y + end, oy + other_end);
    lemma_digits_end(position.row as nat, other.row as nat, end, other_end);
    assert(end[0] == other_end[0]);
}

/// The character that the bytes of one in UTF-8 stand for.
pub open spec fn utf8_value(bytes: Seq<u8>) -> int {
    if bytes.len() == 1 {
        bytes[0] as int
    } else if bytes.len() == 2 {
        (bytes[0] - 0xc0) * 64 + (bytes[1] - 0x80)
    } else {
        (bytes[0] - 0xe0) * 4096 + (bytes[1] - 0x80) * 64 + (bytes[2] - 0x80)
    }
}

/// A report without SGR holds code, column and row, each raised by a space, as
/// bytes or as characters in UTF-8; columns and rows stop at the largest
/// coordinate.
pub proof fn law_short_reports_can_be_read_back(
    code: int,
    position: TerminalMousePosition,
    modes: TerminalModes,
    release: bool,
)
    requires
        !modes.sgr_mouse,
        0 <= code < 0xd800 - 32,
        !modes.utf8_mouse ==> code <= 223,
    ensures
        ({
            let report = report_bytes(code, position, modes, release);
            let x = 32 + (if position.column <= (if modes.utf8_mouse { 2047int } else { 223 }) {
                position.column as int
            } else if modes.utf8_mouse {
                2047
            } else {
                223
            });
            let y = 32 + (if position.row <= (if modes.utf8_mouse { 2047int } else { 223 }) {
                position.row as int
            } else if modes.utf8_mouse {
                2047
            } else {
                223
            });
            &&& report.len() >= 6
            &&& report[0] == 0x1b && report[1] == 0x5b && report[2] == 0x4d
            &&& !modes.utf8_mouse ==> report == seq![
                0x1bu8,
                0x5bu8,
                0x4du8,
                (32 + code) as u8,
                x as u8,
                y as u8,
            ]
            &&& modes.utf8_mouse ==> exists|a: int, b: int|
                3 < a < b < report.len() && #[trigger] utf8_value(report.subrange(3, a)) == 32
                    + code && utf8_value(report.subrange(a, b)) == x && #[trigger] utf8_value(
                    report.subrange(b, report.len() as int),
                ) == y
        }),
{
    let report = report_bytes(code, position, modes, release);
    let limit = largest_coordinate(modes.utf8_mouse);
    let c = coordinate_bytes(32 + code, modes.utf8_mouse);
    let x = coordinate_bytes(32 + at_most(position.column as int, limit), modes.utf8_mouse);
    let y = coordinate_bytes(32 + at_most(position.row as int, limit), modes.utf8_mouse);
    let a = 3 + c.len() as int;
    let b = a + x.len() as int;
    assert(report.len() == b + y.len());
    assert(report.subrange(3, a) =~= c);
    assert(report.subrange(a, b) =~= x);
    assert(report.subrange(b, report.len() as int) =~= y);
    if modes.utf8_mouse {
        lemma_utf8_value(32 + code);
        lemma_utf8_value(32 + at_most(position.column as int, limit));
        lemma_utf8_value(32 + at_most(position.row as int, limit));
        assert(utf8_value(report.subrange(3, a)) == 32 + code);
        assert(utf8_value(report.subrange(b, report.len() as int)) == 32 + at_most(
            position.row as int,
            limit,
        ));
    } else {
        assert(report =~= seq![0x1bu8, 0x5bu8, 0x4du8, c[0], x[0], y[0]]);
    }
}

proof fn lemma_utf8_value(value: int)
    requires
        0 <= value < 0xd800,
    ensures
        utf8_value(utf8_bytes(value)) == value,
{
    if value >= 0x800 {
        assert(value == (value / 4096) * 4096 + ((value / 64) % 64) * 64 + value % 64) by {
            assert(value / 64 == (value / 4096) * 64 + (value / 64) % 64);
            assert(value == (value / 64) * 64 + value % 64);
        }
    }
}

/// The buttons are numbered from the left; a release says none of them, a
/// movement adds thirty-two, and shift, alt and control add four, eight and
/// sixteen. Each event is sent once.
pub proof fn law_buttons_have_their_numbers(
    position: TerminalMousePosition,
    pressed: bool,
    motion: bool,
    modifiers: Modifiers,
    modes: TerminalModes,
)
    ensures
        ({
            let held = (if modifiers.shift { 4int } else { 0 }) + (if modifiers.alt {
                8int
            } else {
                0
            }) + (if modifiers.control { 16int } else { 0 });
            let moved = if motion { 32int } else { 0 };
            let sent = |button: MouseButton|
                button_report(position, button, pressed, motion, modifiers, modes);
            &&& pressed ==> sent(MouseButton::Left) == Some(
                report_bytes(held + moved, position, modes, false),
            )
            &&& pressed ==> sent(MouseButton::Middle) == Some(
                report_bytes(1 + held + moved, position, modes, false),
            )
            &&& pressed ==> sent(MouseButton::Right) == Some(
                report_bytes(2 + held + moved, position, modes, false),
            )
            &&& !pressed ==> {
                &&& sent(MouseButton::Left) == Some(
                    report_bytes(3 + held, position, modes, true),
                )
                &&& sent(MouseButton::Middle) == sent(MouseButton::Left)
                &&& sent(MouseButton::Right) == sent(MouseButton::Left)
            }
            &&& sent(MouseButton::Navigate) is None
        }),
{
}

/// A wheel sends one report for each line it turned, up to a hundred, as a
/// press of the button for its direction.
pub proof fn law_wheels_report_each_line(
    lines: int,
    position: TerminalMousePosition,
    modifiers: Modifiers,
    modes: TerminalModes,
)
    ensures
        ({
            let held = (if modifiers.shift { 4int } else { 0 }) + (if modifiers.alt {
                8int
            } else {
                0
            }) + (if modifiers.control { 16int } else { 0 });
            let up = report_bytes(64 + held, position, modes, false);
            let down = report_bytes(65 + held, position, modes, false);
            let sent = wheel_report(lines, position, modifiers, modes);
            &&& lines == 0 <==> sent is None
            &&& 0 < lines <= 100 ==> is_run_of(sent->0, up, lines)
            &&& lines > 100 ==> is_run_of(sent->0, up, 100)
            &&& -100 <= lines < 0 ==> is_run_of(sent->0, down, -lines)
            &&& lines < -100 ==> is_run_of(sent->0, down, 100)
        }),
{
    let held = (if modifiers.shift {
        4int
    } else {
        0
    }) + (if modifiers.alt {
        8int
    } else {
        0
    }) + (if modifiers.control {
        16int
    } else {
        0
    });
    let report = report_bytes(
        (if lines > 0 {
            64int
        } else {
            65
        }) + held,
        position,
        modes,
        false,
    );
    if lines != 0 {
        let distance = if lines > 0 {
            lines
        } else {
            -lines
        };
        lemma_repeated_bytes(
            report,
            if distance <= 100 {
                distance as nat
            } else {
                100
            },
        );
    }
}

/// Bytes are others a number of times over, one copy behind the other.
pub open spec fn is_run_of(bytes: Seq<u8>, piece: Seq<u8>, count: int) -> bool {
    &&& bytes.len() == count * piece.len()
    &&& forall|i: int, j: int|
        0 <= i < count && 0 <= j < piece.len() ==> bytes[i * piece.len() + j] == #[trigger] (
        copy_of(piece, i)[j])
}

/// One of several copies.
pub open spec fn copy_of(piece: Seq<u8>, number: int) -> Seq<u8> {
    piece
}

proof fn lemma_repeated_bytes(piece: Seq<u8>, count: nat)
    ensures
        is_run_of(repeated_bytes(piece, count), piece, count as int),
    decreases count,
{
    let width = piece.len() as int;
    if count == 0 {
        assert(0 * width == 0) by (nonlinear_arith);
    } else {
        let fewer = repeated_bytes(piece, (count - 1) as nat);
        let bytes = repeated_bytes(piece, count);
        lemma_repeated_bytes(piece, (count - 1) as nat);
        assert(count * width == (count - 1) * width + width) by (nonlinear_arith);
        assert forall|i: int, j: int| 0 <= i < count && 0 <= j < piece.len() implies bytes[i
            * piece.len() + j] == #[trigger] (copy_of(piece, i)[j]) by {
            if i < count - 1 {
                assert(0 <= i * width && i * width + width <= (count - 1) * width)
                    by (nonlinear_arith)
                    requires
                        0 <= i < count - 1,
                        width >= 0,
                ;
                assert(fewer[i * piece.len() + j] == copy_of(piece, i)[j]);
            }
        }
    }
}

/// A selection dragged beyond the top goes back into the history, one dragged
/// beyond the bottom forward by as much; in between, nothing scrolls.
pub proof fn law_edges_scroll_their_way(near_top: bool, near_bottom: bool)
    ensures
        near_top ==> autoscroll_direction(true, near_top, near_bottom) == Some(3i64),
        !near_top && near_bottom ==> autoscroll_direction(true, near_top, near_bottom) == Some(
            -3i64,
        ),
        !near_top && !near_bottom ==> autoscroll_direction(true, near_top, near_bottom) is None,
        autoscroll_direction(false, near_top, near_bottom) is None,
{
}

/// A movement by lines is always a wheel. A movement by pixels is a trackpad
/// where its gesture starts, ends or is under way, and a wheel otherwise.
pub proof fn law_gestures_tell_trackpads(phase: TouchPhase, active: bool)
    ensures
        scroll_input_kind(false, phase, active) == TerminalScrollInputKind::MouseWheel,
        scroll_input_kind(true, TouchPhase::Started, active)
            == TerminalScrollInputKind::TrackpadGesture,
        scroll_input_kind(true, TouchPhase::Ended, active)
            == TerminalScrollInputKind::TrackpadGesture,
        scroll_input_kind(true, TouchPhase::Cancelled, active)
            == TerminalScrollInputKind::TrackpadGesture,
        scroll_input_kind(true, TouchPhase::Moved, true)
            == TerminalScrollInputKind::TrackpadGesture,
        scroll_input_kind(true, TouchPhase::Moved, false) == TerminalScrollInputKind::MouseWheel,
{
}

} // verus!
