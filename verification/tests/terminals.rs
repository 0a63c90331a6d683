//! Selections, rows and colours of one terminal grid.

use std::sync::Arc;
use water_workspace::cache::previous_cached_source_row;
use water_workspace::cache::terminal_cached_row_cursor_compatible;
use water_workspace::cache::CellMetrics;
use water_workspace::cache::TerminalRenderCache;
use water_workspace::cache::TerminalRenderCacheKey;
use water_workspace::color::channel_distance;
use water_workspace::color::color_to_rgb;
use water_workspace::color::dim_terminal_color;
use water_workspace::color::indexed_color;
use water_workspace::color::same_theme;
use water_workspace::color::terminal_cell_colors;
use water_workspace::color::theme_color;
use water_workspace::color::ThemeColors;
use water_workspace::ids::TerminalId;
use water_workspace::rows::terminal_row_data;
use water_workspace::rows::TerminalRenderOptions;
use water_workspace::selection::is_terminal_cell_selected;
use water_workspace::selection::selected_terminal_text;
use water_workspace::selection::selection_bounds;
use water_workspace::selection::shift_selection_for_viewport;
use water_workspace::selection::terminal_selection_after_click;
use water_workspace::selection::TerminalCellPosition;
use water_workspace::selection::TerminalSelection;
use water_workspace::selection::TerminalSelectionEndpoint;
use water_workspace::selection::TerminalSelectionSide;
use water_workspace::terminal::terminal_cursor_columns;
use water_workspace::terminal::terminal_cursor_position;
use water_workspace::terminal::TerminalCell;
use water_workspace::terminal::TerminalColor;
use water_workspace::terminal::TerminalCursor;
use water_workspace::terminal::TerminalSize;
use water_workspace::terminal::TerminalSnapshot;

fn endpoint(row: i32, column: usize, side: TerminalSelectionSide) -> TerminalSelectionEndpoint {
    TerminalSelectionEndpoint { position: TerminalCellPosition { row, column }, side }
}

fn cell_mut(snapshot: &mut TerminalSnapshot, row: usize, column: usize) -> &mut TerminalCell {
    &mut Arc::make_mut(&mut snapshot.rows[row])[column]
}

fn write(snapshot: &mut TerminalSnapshot, row: usize, text: &str) {
    for (column, character) in text.chars().enumerate() {
        cell_mut(snapshot, row, column).character = character;
    }
}

fn theme() -> ThemeColors {
    ThemeColors {
        terminal_background: 0,
        terminal_foreground: 1,
        selection_background: 2,
        cursor_foreground: 3,
        cursor_background: 4,
        inactive_cursor: 5,
        inverse_foreground: 6,
        inverse_background: 7,
        pane_background: 8,
        active_pane_border: 9,
        inactive_pane_border: 10,
        accent: 9,
        accent_foreground: 11,
        chrome_background: 11,
        tab_active_background: 12,
        tab_inactive_background: 13,
        tab_add_background: 14,
        ui_foreground: 15,
        sidebar_background: 16,
        sidebar_connection_background: 16,
        sidebar_connection_active_background: 16,
        sidebar_workspace_background: 17,
        sidebar_agent_background: 18,
        sidebar_drag_indicator: 19,
        sidebar_workspace_active_background: 19,
        sidebar_agent_active_background: 20,
        agent_colors: [21; 13],
    }
}

#[test]
fn terminal_selection_extracts_text_without_wide_spacers_or_padding() {
    let terminal_id = TerminalId::new(1);
    let mut snapshot = TerminalSnapshot::empty(terminal_id, TerminalSize::new(8, 2));
    write(&mut snapshot, 0, "hello");
    write(&mut snapshot, 1, "world");
    cell_mut(&mut snapshot, 0, 5).flags.wide_spacer = true;
    cell_mut(&mut snapshot, 0, 4).character = '界';
    cell_mut(&mut snapshot, 0, 4).flags.wide = true;
    let selection = TerminalSelection {
        terminal_id,
        anchor: endpoint(0, 0, TerminalSelectionSide::Left),
        head: endpoint(1, 7, TerminalSelectionSide::Right),
    };
    assert_eq!(selected_terminal_text(&snapshot, selection), "hell界\nworld");
}

#[test]
fn terminal_selection_includes_painted_scrollback_rows() {
    let terminal_id = TerminalId::new(1);
    let mut snapshot = TerminalSnapshot::empty(terminal_id, TerminalSize::new(4, 2));
    let history_row = "hist"
        .chars()
        .map(|character| TerminalCell { character, ..TerminalCell::blank() })
        .collect::<Vec<_>>();
    snapshot.rows_before.push(Arc::new(history_row));
    let selection = TerminalSelection {
        terminal_id,
        anchor: endpoint(-1, 0, TerminalSelectionSide::Left),
        head: endpoint(-1, 3, TerminalSelectionSide::Right),
    };

    let (start, end) = selection_bounds(&snapshot, selection).unwrap();
    assert_eq!((start.row, end.row), (-1, -1));
    assert_eq!(selected_terminal_text(&snapshot, selection), "hist");
}

#[test]
fn shift_click_extends_the_previous_selection_anchor() {
    let terminal_id = TerminalId::new(1);
    let other_terminal_id = TerminalId::new(2);
    let previous = TerminalSelection {
        terminal_id,
        anchor: endpoint(1, 2, TerminalSelectionSide::Left),
        head: endpoint(2, 3, TerminalSelectionSide::Right),
    };
    let extended = terminal_selection_after_click(
        Some(previous),
        terminal_id,
        endpoint(5, 1, TerminalSelectionSide::Left),
        true,
    );
    assert_eq!(extended.anchor, previous.anchor);
    assert_eq!(extended.head.position, TerminalCellPosition { row: 5, column: 1 });

    let new_selection = terminal_selection_after_click(
        Some(previous),
        other_terminal_id,
        endpoint(4, 0, TerminalSelectionSide::Left),
        true,
    );
    assert_eq!(new_selection.anchor, new_selection.head);
    assert_eq!(new_selection.terminal_id, other_terminal_id);
}

#[test]
fn selection_sides_choose_only_fully_covered_cells() {
    let terminal_id = TerminalId::new(1);
    let mut snapshot = TerminalSnapshot::empty(terminal_id, TerminalSize::new(4, 1));
    write(&mut snapshot, 0, "abcd");

    let first_cell = TerminalSelection {
        terminal_id,
        anchor: endpoint(0, 0, TerminalSelectionSide::Left),
        head: endpoint(0, 1, TerminalSelectionSide::Left),
    };
    assert_eq!(selection_bounds(&snapshot, first_cell).unwrap().1.column, 0);

    let boundary_only = TerminalSelection {
        terminal_id,
        anchor: endpoint(0, 0, TerminalSelectionSide::Right),
        head: endpoint(0, 1, TerminalSelectionSide::Left),
    };
    assert!(selection_bounds(&snapshot, boundary_only).is_none());

    let second_cell = TerminalSelection {
        terminal_id,
        anchor: endpoint(0, 0, TerminalSelectionSide::Right),
        head: endpoint(0, 1, TerminalSelectionSide::Right),
    };
    let (start, end) = selection_bounds(&snapshot, second_cell).unwrap();
    assert_eq!((start.column, end.column), (1, 1));
}

#[test]
fn selection_follows_user_viewport_scroll() {
    let terminal_id = TerminalId::new(1);
    let mut previous = TerminalSnapshot::empty(terminal_id, TerminalSize::new(8, 4));
    previous.display_offset = 2;
    previous.viewport_position = 2;
    let mut next = previous.clone();
    next.display_offset = 6;
    next.viewport_position = 6;

    let selection = TerminalSelection {
        terminal_id,
        anchor: endpoint(1, 2, TerminalSelectionSide::Left),
        head: endpoint(2, 4, TerminalSelectionSide::Right),
    };
    let mut wrapped = Some(selection);
    shift_selection_for_viewport(&mut wrapped, terminal_id, &previous, &next);
    let selection = wrapped.expect("selection remains present");

    assert_eq!(selection.anchor.position.row, 5);
    assert_eq!(selection.head.position.row, 6);
}

#[test]
fn output_growth_does_not_move_selection_in_a_pinned_viewport() {
    let terminal_id = TerminalId::new(1);
    let mut previous = TerminalSnapshot::empty(terminal_id, TerminalSize::new(8, 4));
    previous.display_offset = 2;
    previous.viewport_position = 2;
    let mut next = previous.clone();
    next.display_offset = 6;
    // Output moves the tail away while the pinned viewport stays on the same
    // cells, and the selection with it.
    next.viewport_position = previous.viewport_position;

    let selection = TerminalSelection {
        terminal_id,
        anchor: endpoint(1, 2, TerminalSelectionSide::Left),
        head: endpoint(2, 4, TerminalSelectionSide::Right),
    };
    let mut wrapped = Some(selection);
    shift_selection_for_viewport(&mut wrapped, terminal_id, &previous, &next);
    let selection = wrapped.expect("selection remains present");

    assert_eq!(selection.anchor.position.row, 1);
    assert_eq!(selection.head.position.row, 2);
}

#[test]
fn wide_character_selection_expands_to_both_grid_cells() {
    let terminal_id = TerminalId::new(1);
    let mut snapshot = TerminalSnapshot::empty(terminal_id, TerminalSize::new(5, 1));
    cell_mut(&mut snapshot, 0, 1).character = '界';
    cell_mut(&mut snapshot, 0, 1).flags.wide = true;
    cell_mut(&mut snapshot, 0, 2).flags.wide_spacer = true;
    let selection = TerminalSelection {
        terminal_id,
        anchor: endpoint(0, 0, TerminalSelectionSide::Left),
        head: endpoint(0, 1, TerminalSelectionSide::Right),
    };

    let (_, end) = selection_bounds(&snapshot, selection).unwrap();
    assert_eq!(end.column, 2);
    assert!(is_terminal_cell_selected(&snapshot, Some(selection), terminal_id, 0, 1));
    assert!(is_terminal_cell_selected(&snapshot, Some(selection), terminal_id, 0, 2));

    let half_cell_drag = TerminalSelection {
        terminal_id,
        anchor: endpoint(0, 1, TerminalSelectionSide::Left),
        head: endpoint(0, 2, TerminalSelectionSide::Right),
    };
    assert!(is_terminal_cell_selected(&snapshot, Some(half_cell_drag), terminal_id, 0, 1));
    assert!(is_terminal_cell_selected(&snapshot, Some(half_cell_drag), terminal_id, 0, 2));
}

#[test]
fn chained_right_halves_lead_to_the_first_base() {
    let terminal_id = TerminalId::new(1);
    let mut snapshot = TerminalSnapshot::empty(terminal_id, TerminalSize::new(4, 1));
    write(&mut snapshot, 0, "abcd");
    cell_mut(&mut snapshot, 0, 0).flags.wide = true;
    cell_mut(&mut snapshot, 0, 1).flags.wide = true;
    cell_mut(&mut snapshot, 0, 1).flags.wide_spacer = true;
    cell_mut(&mut snapshot, 0, 2).flags.wide_spacer = true;
    let selection = TerminalSelection {
        terminal_id,
        anchor: endpoint(0, 2, TerminalSelectionSide::Left),
        head: endpoint(0, 3, TerminalSelectionSide::Right),
    };
    let (start, end) = selection_bounds(&snapshot, selection).unwrap();
    assert_eq!((start.row, start.column), (0, 0));
    assert_eq!((end.row, end.column), (0, 3));
    assert_eq!(selected_terminal_text(&snapshot, selection), "ad");
}

#[test]
fn positions_are_selected_in_reading_order() {
    let terminal_id = TerminalId::new(1);
    let snapshot = TerminalSnapshot::empty(terminal_id, TerminalSize::new(4, 3));
    let selection = TerminalSelection {
        terminal_id,
        anchor: endpoint(0, 2, TerminalSelectionSide::Left),
        head: endpoint(1, 1, TerminalSelectionSide::Right),
    };
    let selected = |row: usize, column: usize| {
        is_terminal_cell_selected(&snapshot, Some(selection), terminal_id, row, column)
    };
    assert!(!selected(0, 1));
    assert!(selected(0, 2));
    assert!(selected(0, 9));
    assert!(selected(1, 1));
    assert!(!selected(1, 2));
    assert!(!selected(1, 9));
    assert!(!selected(2, 0));
}

#[test]
fn leading_wide_placeholders_do_not_become_a_second_character() {
    let terminal_id = TerminalId::new(1);
    let mut snapshot = TerminalSnapshot::empty(terminal_id, TerminalSize::new(4, 2));
    cell_mut(&mut snapshot, 0, 3).flags.leading_wide_spacer = true;
    cell_mut(&mut snapshot, 1, 0).character = '界';
    cell_mut(&mut snapshot, 1, 0).flags.wide = true;
    cell_mut(&mut snapshot, 1, 1).flags.wide_spacer = true;

    let wrapped_wide_character = TerminalSelection {
        terminal_id,
        anchor: endpoint(0, 3, TerminalSelectionSide::Left),
        head: endpoint(1, 0, TerminalSelectionSide::Right),
    };
    let (start, end) = selection_bounds(&snapshot, wrapped_wide_character).unwrap();
    assert_eq!((start.row, start.column), (1, 0));
    assert_eq!((end.row, end.column), (1, 1));
    assert_eq!(selected_terminal_text(&snapshot, wrapped_wide_character), "界");

    let placeholder_only = TerminalSelection {
        terminal_id,
        anchor: endpoint(0, 3, TerminalSelectionSide::Left),
        head: endpoint(0, 3, TerminalSelectionSide::Right),
    };
    assert!(selection_bounds(&snapshot, placeholder_only).is_none());
}

#[test]
fn selections_of_other_terminals_show_nothing() {
    let snapshot = TerminalSnapshot::empty(TerminalId::new(1), TerminalSize::new(4, 1));
    let selection = TerminalSelection {
        terminal_id: TerminalId::new(2),
        anchor: endpoint(0, 0, TerminalSelectionSide::Left),
        head: endpoint(0, 3, TerminalSelectionSide::Right),
    };
    assert!(!is_terminal_cell_selected(
        &snapshot,
        Some(selection),
        TerminalId::new(1),
        0,
        1,
    ));
    assert!(!is_terminal_cell_selected(&snapshot, None, TerminalId::new(1), 0, 1));
}

#[test]
fn wrapped_lines_are_joined() {
    let terminal_id = TerminalId::new(1);
    let mut snapshot = TerminalSnapshot::empty(terminal_id, TerminalSize::new(3, 2));
    write(&mut snapshot, 0, "abc");
    write(&mut snapshot, 1, "de");
    cell_mut(&mut snapshot, 0, 2).flags.wrapline = true;
    cell_mut(&mut snapshot, 1, 1).zerowidth.push('\u{301}');
    let selection = TerminalSelection {
        terminal_id,
        anchor: endpoint(1, 2, TerminalSelectionSide::Right),
        head: endpoint(0, 0, TerminalSelectionSide::Left),
    };
    assert_eq!(selected_terminal_text(&snapshot, selection), "abcde\u{301}");
}

#[test]
fn terminal_rows_shape_wide_cells_with_two_cell_advances() {
    let terminal_id = TerminalId::new(1);
    let mut snapshot = TerminalSnapshot::empty(terminal_id, TerminalSize::new(5, 1));
    cell_mut(&mut snapshot, 0, 0).character = 'a';
    cell_mut(&mut snapshot, 0, 1).character = '界';
    cell_mut(&mut snapshot, 0, 1).flags.wide = true;
    cell_mut(&mut snapshot, 0, 2).flags.wide_spacer = true;
    cell_mut(&mut snapshot, 0, 3).character = 'b';
    let options = TerminalRenderOptions { theme: theme(), cursor_focused: false };
    let (chunks, _) = terminal_row_data(&snapshot, 0, None, &options);
    assert_eq!(
        chunks
            .iter()
            .map(|chunk| (chunk.start_column, chunk.width_columns, chunk.text.as_str()))
            .collect::<Vec<_>>(),
        vec![(0, 1, "a"), (1, 2, "界"), (3, 1, "b ")]
    );
}

#[test]
fn isolated_unicode_does_not_force_ascii_neighbors_into_per_cell_shaping() {
    let terminal_id = TerminalId::new(1);
    let mut snapshot = TerminalSnapshot::empty(terminal_id, TerminalSize::new(6, 1));
    for (column, character) in ['a', 'b', '·', 'c', 'd'].into_iter().enumerate() {
        cell_mut(&mut snapshot, 0, column).character = character;
    }
    let options = TerminalRenderOptions { theme: theme(), cursor_focused: false };

    let (chunks, _) = terminal_row_data(&snapshot, 0, None, &options);
    assert_eq!(chunks.len(), 3);
    assert_eq!(chunks[0].text, "ab");
    assert!(!chunks[0].requires_cell_scaling);
    assert_eq!(chunks[1].text, "·");
    assert!(chunks[1].requires_cell_scaling);
    assert_eq!(chunks[2].text, "cd ");
    assert!(!chunks[2].requires_cell_scaling);
}

#[test]
fn selected_cells_get_the_selection_background() {
    let terminal_id = TerminalId::new(1);
    let mut snapshot = TerminalSnapshot::empty(terminal_id, TerminalSize::new(4, 1));
    snapshot.cursor = TerminalCursor { row: 0, column: 3, visible: false };
    write(&mut snapshot, 0, "abcd");
    let bounds = (
        TerminalCellPosition { row: 0, column: 1 },
        TerminalCellPosition { row: 0, column: 2 },
    );
    let options = TerminalRenderOptions { theme: theme(), cursor_focused: true };
    let (_, backgrounds) = terminal_row_data(&snapshot, 0, Some(bounds), &options);
    assert_eq!(
        backgrounds
            .iter()
            .map(|span| (span.start_column, span.width_columns, span.color))
            .filter(|(_, _, color)| *color == 2)
            .collect::<Vec<_>>(),
        vec![(1, 2, 2)]
    );
}

#[test]
fn rows_beyond_the_grid_hold_nothing() {
    let snapshot = TerminalSnapshot::empty(TerminalId::new(1), TerminalSize::new(4, 1));
    let options = TerminalRenderOptions { theme: theme(), cursor_focused: true };
    let (chunks, backgrounds) = terminal_row_data(&snapshot, 9, None, &options);
    assert!(chunks.is_empty());
    assert!(backgrounds.is_empty());
}

#[test]
fn dim_terminal_colors_match_alacritty_intensity() {
    assert_eq!(dim_terminal_color(0xffffff), 0xa8a8a8);
    assert_eq!(dim_terminal_color(0x804020), 0x542a15);
}

#[test]
fn palette_colors_are_those_of_a_terminal() {
    assert_eq!(indexed_color(16), 0x000000);
    assert_eq!(indexed_color(231), 0xffffff);
    assert_eq!(indexed_color(196), 0xff0000);
    assert_eq!(indexed_color(232), 0x080808);
    assert_eq!(indexed_color(255), 0xeeeeee);
    let rgb = TerminalColor::Rgb { red: 0x12, green: 0x34, blue: 0x56 };
    assert_eq!(color_to_rgb(rgb, true, &theme()), 0x123456);
    assert_eq!(color_to_rgb(theme_color(0x0a0b0c), false, &theme()), 0x0a0b0c);
    assert!(same_theme(&theme(), &theme()));
    assert!(!same_theme(&theme(), &ThemeColors { accent: 99, ..theme() }));
}

#[test]
fn inverse_cells_swap_their_colors() {
    let plain = TerminalCell {
        fg: TerminalColor::Rgb { red: 1, green: 2, blue: 3 },
        bg: TerminalColor::Rgb { red: 4, green: 5, blue: 6 },
        ..TerminalCell::blank()
    };
    let mut inverse = plain.clone();
    inverse.flags.inverse = true;
    assert_eq!(terminal_cell_colors(&plain, &theme()), (plain.fg, plain.bg));
    assert_eq!(terminal_cell_colors(&inverse, &theme()), (plain.bg, plain.fg));
}

#[test]
fn channel_distance_is_the_largest_difference() {
    assert_eq!(channel_distance(0x102030, 0x102030), 0);
    assert_eq!(channel_distance(0x00ff00, 0x000000), 0xff);
    assert_eq!(channel_distance(0x0a141e, 0x000000), 0x1e);
}

#[test]
fn cursors_stand_on_the_base_of_a_wide_character() {
    let mut snapshot = TerminalSnapshot::empty(TerminalId::new(1), TerminalSize::new(5, 1));
    cell_mut(&mut snapshot, 0, 1).flags.wide = true;
    cell_mut(&mut snapshot, 0, 2).flags.wide_spacer = true;
    snapshot.cursor = TerminalCursor { row: 0, column: 2, visible: true };
    assert_eq!(terminal_cursor_position(&snapshot), (0, 1));
    assert_eq!(terminal_cursor_columns(&snapshot), 2);
    snapshot.cursor.column = 4;
    assert_eq!(terminal_cursor_position(&snapshot), (0, 4));
    assert_eq!(terminal_cursor_columns(&snapshot), 1);
}

#[test]
fn viewport_ack_reuses_the_same_physical_cached_row() {
    assert_eq!(previous_cached_source_row(0, 11, 10), Some(-1));
    assert_eq!(previous_cached_source_row(5, 11, 10), Some(4));
    assert_eq!(previous_cached_source_row(-2, 9, 10), Some(-1));
}

#[test]
fn cached_rows_rebuild_only_where_the_focused_cursor_was_or_is() {
    assert!(!terminal_cached_row_cursor_compatible(Some((2, 7)), Some((3, 0)), 2, 2));
    assert!(!terminal_cached_row_cursor_compatible(Some((2, 7)), Some((3, 0)), 3, 3));
    assert!(terminal_cached_row_cursor_compatible(Some((2, 7)), Some((3, 0)), 1, 1));
    assert!(!terminal_cached_row_cursor_compatible(Some((4, 5)), Some((4, 6)), 4, 4));
    assert!(terminal_cached_row_cursor_compatible(None, None, 4, 4));
}

fn cache_key(snapshot: &TerminalSnapshot) -> TerminalRenderCacheKey {
    TerminalRenderCacheKey {
        terminal_id: snapshot.terminal_id,
        snapshot_revision: snapshot.revision,
        viewport_position: snapshot.viewport_position,
        focused_cursor: None,
        font_family: "monospace".to_owned(),
        font_size_bits: 14.0_f32.to_bits(),
        metrics: CellMetrics {
            cell_width: 8.4_f32.to_bits(),
            line_height: 17.0_f32.to_bits(),
            scale_factor: 1.0_f32.to_bits(),
        },
        theme: theme(),
        cursor_focused: false,
        selection: None,
        bounds_origin_x_bits: 0.0_f32.to_bits(),
        bounds_width_bits: 80.0_f32.to_bits(),
    }
}

fn fill(cache: &mut TerminalRenderCache<String>, snapshot: &TerminalSnapshot, name: &str) {
    for row in cache.missing_rows(snapshot, 0..snapshot.size.lines as i32) {
        let cells = snapshot.relative_row(row).unwrap().clone();
        cache.put(row, &cells, Arc::new(format!("{name}{row}")));
    }
}

fn painted(cache: &TerminalRenderCache<String>, lines: i32) -> Vec<(i32, String)> {
    cache
        .visible_rows(0..lines, 0)
        .iter()
        .map(|row| (row.row, row.paint.as_str().to_owned()))
        .collect()
}

#[test]
fn caches_paint_each_row_once() {
    let mut snapshot = TerminalSnapshot::empty(TerminalId::new(1), TerminalSize::new(4, 3));
    write(&mut snapshot, 0, "one");
    write(&mut snapshot, 1, "two");
    let mut cache: TerminalRenderCache<String> = TerminalRenderCache::new();
    cache.refresh(&snapshot, cache_key(&snapshot));
    assert_eq!(cache.missing_rows(&snapshot, 0..3), vec![0, 1, 2]);
    fill(&mut cache, &snapshot, "a");
    assert_eq!(cache.missing_rows(&snapshot, 0..3), Vec::<i32>::new());

    // A changed row is painted again, the others keep their pictures.
    let mut next = snapshot.clone();
    next.revision = 1;
    write(&mut next, 1, "TWO");
    cache.refresh(&next, cache_key(&next));
    assert_eq!(cache.missing_rows(&next, 0..3), vec![1]);
    fill(&mut cache, &next, "b");
    assert_eq!(
        painted(&cache, 3),
        vec![(0, "a0".to_owned()), (1, "b1".to_owned()), (2, "a2".to_owned())]
    );

    // Another theme: everything is painted again.
    let mut other = cache_key(&next);
    other.theme = ThemeColors { accent: 1, ..theme() };
    cache.refresh(&next, other);
    assert_eq!(cache.missing_rows(&next, 0..3), vec![0, 1, 2]);
}

#[test]
fn measures_are_compared_as_numbers() {
    let snapshot = TerminalSnapshot::empty(TerminalId::new(1), TerminalSize::new(4, 2));
    let scaled = |scale_factor: f32| {
        let mut key = cache_key(&snapshot);
        key.metrics.scale_factor = scale_factor.to_bits();
        key
    };
    for (before, after) in [(0.0, -0.0), (1.0, 1.0), (1.0, 2.0), (f32::NAN, f32::NAN), (1.0, -1.0)]
    {
        let equal = before == after;
        assert_eq!(scaled(before).rows_compatible_with(&scaled(after)), equal);
        assert_eq!(scaled(before).equals(&scaled(after)), equal);
        let mut cache: TerminalRenderCache<String> = TerminalRenderCache::new();
        cache.refresh(&snapshot, scaled(before));
        fill(&mut cache, &snapshot, "a");
        cache.refresh(&snapshot, scaled(after));
        assert_eq!(cache.missing_rows(&snapshot, 0..2).is_empty(), equal);
    }
    let mut wider = cache_key(&snapshot);
    wider.metrics.cell_width = 9.0_f32.to_bits();
    assert!(!wider.rows_compatible_with(&cache_key(&snapshot)));
    let mut taller = cache_key(&snapshot);
    taller.metrics.line_height = f32::INFINITY.to_bits();
    assert!(!taller.rows_compatible_with(&cache_key(&snapshot)));
    assert!(taller.rows_compatible_with(&taller));
}

#[test]
fn caches_follow_the_viewport() {
    let mut snapshot = TerminalSnapshot::empty(TerminalId::new(1), TerminalSize::new(4, 3));
    write(&mut snapshot, 0, "one");
    write(&mut snapshot, 1, "two");
    write(&mut snapshot, 2, "tri");
    let mut cache: TerminalRenderCache<String> = TerminalRenderCache::new();
    cache.refresh(&snapshot, cache_key(&snapshot));
    fill(&mut cache, &snapshot, "a");

    // Scrolled up by one row: what was row 0 is row 1 now.
    let mut next = snapshot.clone();
    next.revision = 1;
    next.viewport_position = 1;
    next.rows = vec![
        Arc::new(vec![TerminalCell::blank(); 4]),
        snapshot.rows[0].clone(),
        snapshot.rows[1].clone(),
    ];
    cache.refresh(&next, cache_key(&next));
    assert_eq!(cache.missing_rows(&next, 0..3), vec![0]);
    assert_eq!(painted(&cache, 3), vec![(1, "a0".to_owned()), (2, "a1".to_owned())]);
}
