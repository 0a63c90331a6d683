//! Colours: the palette of the terminal and those of the window.
//!
//! A packed colour holds red, green and blue in its three low bytes.

use crate::terminal::TerminalCell;
use crate::terminal::TerminalColor;
use crate::terminal::NAMED_BACKGROUND;
use crate::terminal::NAMED_FOREGROUND;
use vstd::prelude::*;

verus! {

/// How many kinds of agents have a colour of their own.
pub const AGENT_COLOR_COUNT: usize = 13;

/// The colours of the window, packed.
#[derive(Clone, Copy, Debug)]
pub struct ThemeColors {
    pub terminal_background: u32,
    pub terminal_foreground: u32,
    pub selection_background: u32,
    pub cursor_foreground: u32,
    pub cursor_background: u32,
    pub inactive_cursor: u32,
    pub inverse_foreground: u32,
    pub inverse_background: u32,
    pub pane_background: u32,
    pub active_pane_border: u32,
    pub inactive_pane_border: u32,
    pub accent: u32,
    pub accent_foreground: u32,
    pub chrome_background: u32,
    pub tab_active_background: u32,
    pub tab_inactive_background: u32,
    pub tab_add_background: u32,
    pub ui_foreground: u32,
    pub sidebar_background: u32,
    pub sidebar_connection_background: u32,
    pub sidebar_connection_active_background: u32,
    pub sidebar_workspace_background: u32,
    pub sidebar_agent_background: u32,
    pub sidebar_drag_indicator: u32,
    pub sidebar_workspace_active_background: u32,
    pub sidebar_agent_active_background: u32,
    pub agent_colors: [u32; AGENT_COLOR_COUNT],
}

/// The packed colour of three channels.
pub open spec fn pack(red: int, green: int, blue: int) -> int {
    red * 65536 + green * 256 + blue
}

pub open spec fn red_of(color: u32) -> int {
    (color as int / 65536) % 256
}

pub open spec fn green_of(color: u32) -> int {
    (color as int / 256) % 256
}

pub open spec fn blue_of(color: u32) -> int {
    color as int % 256
}

/// Two thirds, near enough: how bright a dim colour is, rounded to the nearest
/// level.
pub open spec fn dimmed_channel(channel: int) -> int {
    (66 * channel + 50) / 100
}

pub open spec fn dimmed(color: u32) -> int {
    pack(
        dimmed_channel(red_of(color)),
        dimmed_channel(green_of(color)),
        dimmed_channel(blue_of(color)),
    )
}

/// The sixteen basic colours.
pub open spec fn palette() -> Seq<u32> {
    seq![
        0x000000u32,
        0xaa0000u32,
        0x00aa00u32,
        0xf57900u32,
        0x1e8acbu32,
        0xaa00aau32,
        0x00aaaau32,
        0xaaaaaau32,
        0x555555u32,
        0xff5555u32,
        0x339966u32,
        0xffff55u32,
        0x729fcfu32,
        0xd530c6u32,
        0x55ffffu32,
        0xffffffu32,
    ]
}

/// A level of the colour cube.
pub open spec fn cube_level(value: int) -> int {
    if value == 0 {
        0
    } else {
        55 + 40 * value
    }
}

/// The 256 indexed colours: the basic ones, a cube of six levels per channel
/// and a ramp of grays.
pub open spec fn indexed(index: u8) -> int {
    if index < 16 {
        palette()[index as int] as int
    } else if index < 232 {
        let offset = index - 16;
        pack(cube_level(offset / 36), cube_level((offset % 36) / 6), cube_level(offset % 6))
    } else {
        let gray = 8 + 10 * (index - 232);
        pack(gray, gray, gray)
    }
}

/// The packed colour that a terminal colour stands for.
pub open spec fn resolved(color: TerminalColor, foreground: bool, theme: ThemeColors) -> int {
    match color {
        TerminalColor::Rgb { red, green, blue } => pack(red as int, green as int, blue as int),
        TerminalColor::Named { value } => if value <= 15 {
            palette()[value as int] as int
        } else if value == 256 && foreground {
            theme.terminal_foreground as int
        } else if value == 257 && !foreground {
            theme.terminal_background as int
        } else if value == 258 {
            theme.terminal_foreground as int
        } else if value == 259 {
            theme.terminal_background as int
        } else {
            theme.ui_foreground as int
        },
        TerminalColor::Indexed { index } => indexed(index),
    }
}

/// A packed colour as a terminal colour.
pub open spec fn unpacked(value: u32) -> TerminalColor {
    TerminalColor::Rgb {
        red: red_of(value) as u8,
        green: green_of(value) as u8,
        blue: blue_of(value) as u8,
    }
}

/// The foreground and background of a cell. Inverse video swaps them; a cell
/// in the default colours gets the inverse colours of the theme instead.
pub open spec fn cell_colors(
    fg: TerminalColor,
    bg: TerminalColor,
    inverse: bool,
    theme: ThemeColors,
) -> (TerminalColor, TerminalColor) {
    if !inverse {
        (fg, bg)
    } else if fg == (TerminalColor::Named { value: NAMED_FOREGROUND }) && bg == (
    TerminalColor::Named { value: NAMED_BACKGROUND }) {
        (unpacked(theme.inverse_foreground), unpacked(theme.inverse_background))
    } else {
        (bg, fg)
    }
}

fn pack_channels(red: u32, green: u32, blue: u32) -> (color: u32)
    requires
        red <= 255,
        green <= 255,
        blue <= 255,
    ensures
        color == pack(red as int, green as int, blue as int),
        color <= 0xffffff,
{
    assert((red << 16u32) | (green << 8u32) | blue == red * 65536 + green * 256 + blue)
        by (bit_vector)
        requires
            red <= 255,
            green <= 255,
            blue <= 255,
    ;
    (red << 16u32) | (green << 8u32) | blue
}

fn channels_of(color: u32) -> (channels: (u32, u32, u32))
    ensures
        channels.0 == red_of(color),
        channels.1 == green_of(color),
        channels.2 == blue_of(color),
        channels.0 <= 255,
        channels.1 <= 255,
        channels.2 <= 255,
{
    assert((color >> 16u32) & 0xff == (color / 65536u32) % 256u32) by (bit_vector);
    assert((color >> 8u32) & 0xff == (color / 256u32) % 256u32) by (bit_vector);
    assert(color & 0xff == color % 256u32) by (bit_vector);
    ((color >> 16u32) & 0xff, (color >> 8u32) & 0xff, color & 0xff)
}

/// One of the sixteen basic colours; a larger index gives the last.
pub fn basic_color(index: usize) -> (color: u32)
    ensures
        color == palette()[if index < 16 { index as int } else { 15 }],
{
    let colors: [u32; 16] = [
        0x000000,
        0xaa0000,
        0x00aa00,
        0xf57900,
        0x1e8acb,
        0xaa00aa,
        0x00aaaa,
        0xaaaaaa,
        0x555555,
        0xff5555,
        0x339966,
        0xffff55,
        0x729fcf,
        0xd530c6,
        0x55ffff,
        0xffffff,
    ];
    assert(colors@ =~= palette());
    if index < 16 {
        colors[index]
    } else {
        colors[15]
    }
}

pub fn indexed_color(index: u8) -> (color: u32)
    ensures
        color == indexed(index),
{
    if index < 16 {
        return basic_color(index as usize);
    }
    if index < 232 {
        let offset: u32 = index as u32 - 16;
        let red: u32 = offset / 36;
        let green: u32 = (offset % 36) / 6;
        let blue: u32 = offset % 6;
        return pack_channels(cube_channel(red), cube_channel(green), cube_channel(blue));
    }
    let gray: u32 = 8 + 10 * (index as u32 - 232);
    pack_channels(gray, gray, gray)
}

fn cube_channel(value: u32) -> (level: u32)
    requires
        value <= 5,
    ensures
        level == cube_level(value as int),
        level <= 255,
{
    if value == 0 {
        0
    } else {
        55 + 40 * value
    }
}

pub fn color_to_rgb(color: TerminalColor, foreground: bool, theme: &ThemeColors) -> (rgb: u32)
    ensures
        rgb == resolved(color, foreground, *theme),
{
    match color {
        TerminalColor::Rgb { red, green, blue } => pack_channels(
            red as u32,
            green as u32,
            blue as u32,
        ),
        TerminalColor::Named { value } => if value <= 15 {
            basic_color(value as usize)
        } else if value == 256 && foreground {
            theme.terminal_foreground
        } else if value == 257 && !foreground {
            theme.terminal_background
        } else if value == 258 {
            theme.terminal_foreground
        } else if value == 259 {
            theme.terminal_background
        } else {
            theme.ui_foreground
        },
        TerminalColor::Indexed { index } => indexed_color(index),
    }
}

pub fn theme_color(value: u32) -> (color: TerminalColor)
    ensures
        color == unpacked(value),
{
    let (red, green, blue) = channels_of(value);
    TerminalColor::Rgb { red: red as u8, green: green as u8, blue: blue as u8 }
}

pub fn terminal_cell_colors(cell: &TerminalCell, theme: &ThemeColors) -> (colors: (
    TerminalColor,
    TerminalColor,
))
    ensures
        colors == cell_colors(cell.fg, cell.bg, cell.flags.inverse, *theme),
{
    if !cell.flags.inverse {
        return (cell.fg, cell.bg);
    }
    if cell.fg == (TerminalColor::Named { value: NAMED_FOREGROUND }) && cell.bg == (
    TerminalColor::Named { value: NAMED_BACKGROUND }) {
        (theme_color(theme.inverse_foreground), theme_color(theme.inverse_background))
    } else {
        (cell.bg, cell.fg)
    }
}

pub fn dim_terminal_color(color: u32) -> (dim: u32)
    ensures
        dim == dimmed(color),
        dim <= 0xffffff,
{
    let (red, green, blue) = channels_of(color);
    pack_channels((66 * red + 50) / 100, (66 * green + 50) / 100, (66 * blue + 50) / 100)
}

pub open spec fn gap(a: int, b: int) -> int {
    if a >= b {
        a - b
    } else {
        b - a
    }
}

pub open spec fn larger(a: int, b: int) -> int {
    if a >= b {
        a
    } else {
        b
    }
}

/// The largest difference between two colours in any channel.
pub open spec fn largest_gap(a: u32, b: u32) -> int {
    larger(
        larger(gap(red_of(a), red_of(b)), gap(green_of(a), green_of(b))),
        gap(blue_of(a), blue_of(b)),
    )
}

pub fn channel_distance(a: u32, b: u32) -> (distance: u32)
    ensures
        distance == largest_gap(a, b),
        distance <= 255,
{
    let (ra, ga, ba) = channels_of(a);
    let (rb, gb, bb) = channels_of(b);
    let red: u32 = if ra >= rb { ra - rb } else { rb - ra };
    let green: u32 = if ga >= gb { ga - gb } else { gb - ga };
    let blue: u32 = if ba >= bb { ba - bb } else { bb - ba };
    let first: u32 = if red >= green { red } else { green };
    if first >= blue {
        first
    } else {
        blue
    }
}

/// Whether two themes hold the same colours.
pub fn same_theme(a: &ThemeColors, b: &ThemeColors) -> (same: bool)
    ensures
        same == (*a == *b),
{
    let mut i: usize = 0;
    while i < AGENT_COLOR_COUNT
        invariant
            i <= AGENT_COLOR_COUNT,
            forall|j: int| 0 <= j < i ==> a.agent_colors@[j] == b.agent_colors@[j],
        decreases AGENT_COLOR_COUNT - i,
    {
        if a.agent_colors[i] != b.agent_colors[i] {
            return false;
        }
        i += 1;
    }
    assert(a.agent_colors@ =~= b.agent_colors@);
    assert(a.agent_colors =~= b.agent_colors);
    a.terminal_background == b.terminal_background && a.terminal_foreground
        == b.terminal_foreground && a.selection_background == b.selection_background
        && a.cursor_foreground == b.cursor_foreground && a.cursor_background
        == b.cursor_background && a.inactive_cursor == b.inactive_cursor && a.inverse_foreground
        == b.inverse_foreground && a.inverse_background == b.inverse_background
        && a.pane_background == b.pane_background && a.active_pane_border == b.active_pane_border
        && a.inactive_pane_border == b.inactive_pane_border && a.accent == b.accent
        && a.accent_foreground == b.accent_foreground && a.chrome_background
        == b.chrome_background && a.tab_active_background == b.tab_active_background
        && a.tab_inactive_background == b.tab_inactive_background && a.tab_add_background
        == b.tab_add_background && a.ui_foreground == b.ui_foreground && a.sidebar_background
        == b.sidebar_background && a.sidebar_connection_background
        == b.sidebar_connection_background && a.sidebar_connection_active_background
        == b.sidebar_connection_active_background && a.sidebar_workspace_background
        == b.sidebar_workspace_background && a.sidebar_agent_background
        == b.sidebar_agent_background && a.sidebar_drag_indicator == b.sidebar_drag_indicator
        && a.sidebar_workspace_active_background == b.sidebar_workspace_active_background
        && a.sidebar_agent_active_background == b.sidebar_agent_active_background
}

/// Packing a colour and taking it apart again gives it back, as long as it
/// holds nothing above its three bytes.
pub proof fn law_packed_colors_survive(color: u32, foreground: bool, theme: ThemeColors)
    requires
        color <= 0xffffff,
    ensures
        resolved(unpacked(color), foreground, theme) == color,
{
}

/// A dim colour is never brighter than the colour itself, in any channel.
pub proof fn law_dimming_never_brightens(color: u32)
    ensures
        dimmed_channel(red_of(color)) <= red_of(color),
        dimmed_channel(green_of(color)) <= green_of(color),
        dimmed_channel(blue_of(color)) <= blue_of(color),
{
}

/// The distance of two colours is the same both ways, and zero exactly where
/// they agree in all three channels.
pub proof fn law_distance_is_symmetric(a: u32, b: u32)
    ensures
        largest_gap(a, b) == largest_gap(b, a),
        largest_gap(a, b) == 0 <==> red_of(a) == red_of(b) && green_of(a) == green_of(b) && blue_of(
            a,
        ) == blue_of(b),
{
}

/// A colour given by its channels is packed red first, whatever the theme and
/// wherever it is used; packed colours fall apart into the same channels.
pub proof fn law_channels_are_packed_in_order(
    red: u8,
    green: u8,
    blue: u8,
    foreground: bool,
    theme: ThemeColors,
    packed: u32,
)
    ensures
        resolved(TerminalColor::Rgb { red, green, blue }, foreground, theme) == red * 0x10000
            + green * 0x100 + blue,
        packed == red * 0x10000 + green * 0x100 + blue ==> unpacked(packed)
            == (TerminalColor::Rgb { red, green, blue }),
{
}

/// The sixteen basic colours, whether they are named or indexed.
pub proof fn law_basic_colors(foreground: bool, theme: ThemeColors)
    ensures
        forall|value: u16|
            value < 16 ==> #[trigger] resolved(TerminalColor::Named { value }, foreground, theme)
                == resolved(TerminalColor::Indexed { index: value as u8 }, !foreground, theme),
        resolved(TerminalColor::Named { value: 0 }, foreground, theme) == 0x000000,
        resolved(TerminalColor::Named { value: 1 }, foreground, theme) == 0xaa0000,
        resolved(TerminalColor::Named { value: 2 }, foreground, theme) == 0x00aa00,
        resolved(TerminalColor::Named { value: 3 }, foreground, theme) == 0xf57900,
        resolved(TerminalColor::Named { value: 4 }, foreground, theme) == 0x1e8acb,
        resolved(TerminalColor::Named { value: 5 }, foreground, theme) == 0xaa00aa,
        resolved(TerminalColor::Named { value: 6 }, foreground, theme) == 0x00aaaa,
        resolved(TerminalColor::Named { value: 7 }, foreground, theme) == 0xaaaaaa,
        resolved(TerminalColor::Named { value: 8 }, foreground, theme) == 0x555555,
        resolved(TerminalColor::Named { value: 9 }, foreground, theme) == 0xff5555,
        resolved(TerminalColor::Named { value: 10 }, foreground, theme) == 0x339966,
        resolved(TerminalColor::Named { value: 11 }, foreground, theme) == 0xffff55,
        resolved(TerminalColor::Named { value: 12 }, foreground, theme) == 0x729fcf,
        resolved(TerminalColor::Named { value: 13 }, foreground, theme) == 0xd530c6,
        resolved(TerminalColor::Named { value: 14 }, foreground, theme) == 0x55ffff,
        resolved(TerminalColor::Named { value: 15 }, foreground, theme) == 0xffffff,
{
}

/// Beside the basic ones, names stand for the colours of the theme: the default
/// foreground and background where they belong, also under their other names,
/// and the colour of the window for anything else.
pub proof fn law_names_follow_the_theme(value: u16, theme: ThemeColors)
    ensures
        resolved(TerminalColor::Named { value: 256 }, true, theme) == theme.terminal_foreground,
        resolved(TerminalColor::Named { value: 257 }, false, theme) == theme.terminal_background,
        resolved(TerminalColor::Named { value: 258 }, true, theme) == theme.terminal_foreground,
        resolved(TerminalColor::Named { value: 258 }, false, theme) == theme.terminal_foreground,
        resolved(TerminalColor::Named { value: 259 }, true, theme) == theme.terminal_background,
        resolved(TerminalColor::Named { value: 259 }, false, theme) == theme.terminal_background,
        resolved(TerminalColor::Named { value: 256 }, false, theme) == theme.ui_foreground,
        resolved(TerminalColor::Named { value: 257 }, true, theme) == theme.ui_foreground,
        (15 < value < 256 || value > 259) ==> resolved(
            TerminalColor::Named { value },
            true,
            theme,
        ) == theme.ui_foreground && resolved(TerminalColor::Named { value }, false, theme)
            == theme.ui_foreground,
{
}

/// The indexed colours behind the basic ones: a cube with six levels of red,
/// green and blue, blue counting fastest, and then grays from dark to light.
pub proof fn law_indexed_colors(
    red: int,
    green: int,
    blue: int,
    step: int,
    foreground: bool,
    theme: ThemeColors,
)
    requires
        0 <= red < 6,
        0 <= green < 6,
        0 <= blue < 6,
        0 <= step < 24,
    ensures
        ({
            let level = |n: int| if n == 0 { 0 } else { 55 + 40 * n };
            let cube = TerminalColor::Indexed { index: (16 + 36 * red + 6 * green + blue) as u8 };
            let gray = TerminalColor::Indexed { index: (232 + step) as u8 };
            &&& resolved(cube, foreground, theme) == level(red) * 0x10000 + level(green) * 0x100
                + level(blue)
            &&& resolved(gray, foreground, theme) == (8 + 10 * step) * 0x10101
        }),
{
    let offset = 36 * red + 6 * green + blue;
    assert(offset / 36 == red);
    assert(offset % 36 == 6 * green + blue);
    assert((6 * green + blue) / 6 == green);
    assert(offset % 6 == blue);
}

/// The channels of a packed colour are those that it was packed from.
pub proof fn lemma_channels_of_packed(red: int, green: int, blue: int)
    requires
        0 <= red <= 255,
        0 <= green <= 255,
        0 <= blue <= 255,
    ensures
        ({
            let packed = red * 0x10000 + green * 0x100 + blue;
            &&& packed / 0x10000 == red
            &&& (packed / 0x100) % 256 == green
            &&& packed % 256 == blue
            &&& 0 <= packed <= 0xffffff
        }),
{
    let packed = red * 0x10000 + green * 0x100 + blue;
    assert(packed / 0x100 == red * 0x100 + green);
}

/// A dim colour has sixty-six hundredths of each channel, rounded to the
/// nearest level, a half up.
pub proof fn law_dimming_scales_each_channel(red: int, green: int, blue: int, color: u32)
    requires
        0 <= red <= 255,
        0 <= green <= 255,
        0 <= blue <= 255,
        color == red * 0x10000 + green * 0x100 + blue,
    ensures
        ({
            let dim = dimmed(color);
            &&& 100 * (dim / 0x10000) <= 66 * red + 50 < 100 * (dim / 0x10000) + 100
            &&& 100 * ((dim / 0x100) % 256) <= 66 * green + 50 < 100 * ((dim / 0x100) % 256) + 100
            &&& 100 * (dim % 256) <= 66 * blue + 50 < 100 * (dim % 256) + 100
            &&& 0 <= dim <= 0xffffff
        }),
{
    lemma_channels_of_packed(red, green, blue);
    assert(red_of(color) == red && green_of(color) == green && blue_of(color) == blue);
    lemma_channels_of_packed(dimmed_channel(red), dimmed_channel(green), dimmed_channel(blue));
}

/// What lies above the three bytes of a colour does not matter for dimming.
pub proof fn lemma_channels_ignore_the_top(color: u32, low: u32)
    requires
        low == color % 0x1000000,
    ensures
        dimmed(color) == dimmed(low),
{
    assert((color / 65536u32) % 256u32 == (low / 65536u32) % 256u32) by (bit_vector)
        requires
            low == color % 0x1000000u32,
    ;
    assert((color / 256u32) % 256u32 == (low / 256u32) % 256u32) by (bit_vector)
        requires
            low == color % 0x1000000u32,
    ;
    assert(color % 256u32 == low % 256u32) by (bit_vector)
        requires
            low == color % 0x1000000u32,
    ;
    assert(red_of(color) == red_of(low));
    assert(green_of(color) == green_of(low));
    assert(blue_of(color) == blue_of(low));
}

/// Inverse video swaps text and background; in the default colours it takes
/// the inverse colours of the theme.
pub proof fn law_inverse_swaps_the_colors(
    fg: TerminalColor,
    bg: TerminalColor,
    theme: ThemeColors,
)
    ensures
        cell_colors(fg, bg, false, theme) == (fg, bg),
        fg != (TerminalColor::Named { value: 256 }) || bg != (TerminalColor::Named { value: 257 })
            ==> cell_colors(fg, bg, true, theme) == (bg, fg),
        cell_colors(
            TerminalColor::Named { value: 256 },
            TerminalColor::Named { value: 257 },
            true,
            theme,
        ) == (unpacked(theme.inverse_foreground), unpacked(theme.inverse_background)),
{
}

/// The distance of two colours is at least that of each channel, and that of
/// one of them.
pub proof fn law_distance_is_the_largest_channel(a: u32, b: u32)
    ensures
        ({
            let red = (a as int / 0x10000) % 256 - (b as int / 0x10000) % 256;
            let green = (a as int / 0x100) % 256 - (b as int / 0x100) % 256;
            let blue = a as int % 256 - b as int % 256;
            let distance = largest_gap(a, b);
            &&& -distance <= red <= distance
            &&& -distance <= green <= distance
            &&& -distance <= blue <= distance
            &&& distance == red || distance == -red || distance == green || distance == -green
                || distance == blue || distance == -blue
        }),
{
}

} // verus!
