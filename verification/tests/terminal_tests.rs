use monoterminal_master::glyph_cache::{GlyphCache, GlyphKey, GuillotineAllocator};
use monoterminal_master::terminal_grid::{DirtyRegion, TerminalGrid};
use monoterminal_master::vt_parser::{CellStyle, Color, GridChange, VtParser};

#[test]
fn test_grid_print() {
    let mut grid = TerminalGrid::new(24, 80);
    grid.apply_changes(vec![GridChange::PrintChar('H'), GridChange::PrintChar('i')]);

    assert_eq!(grid.get_cell(0, 0).unwrap().ch, 'H');
    assert_eq!(grid.get_cell(0, 1).unwrap().ch, 'i');
    assert_eq!(grid.cursor_position(), (0, 2));
}

#[test]
fn test_grid_newline() {
    let mut grid = TerminalGrid::new(24, 80);
    grid.apply_changes(vec![GridChange::PrintChar('A'), GridChange::Newline]);

    assert_eq!(grid.cursor_position(), (1, 0));
}

#[test]
fn test_dirty_tracking() {
    let mut grid = TerminalGrid::new(24, 80);
    grid.clear_dirty();

    grid.apply_changes(vec![GridChange::PrintChar('X')]);

    assert!(grid.dirty_region().is_dirty(0, 0));
    assert!(!grid.dirty_region().is_dirty(0, 1));
}

#[test]
fn test_parser_basic() {
    let mut parser = VtParser::new();
    parser.feed(b"Hello\n");

    let changes = parser.drain_changes();
    assert_eq!(changes.len(), 6); // H, e, l, l, o, \n
    assert_eq!(changes[0], GridChange::PrintChar('H'));
    assert_eq!(changes[5], GridChange::Newline);
}

#[test]
fn test_parser_escape() {
    let mut parser = VtParser::new();
    parser.feed(b"\x1B[2J"); // Clear screen

    let changes = parser.drain_changes();
    assert!(changes.contains(&GridChange::ClearScreen));
}

#[test]
fn parser_chunks_give_the_same_changes() {
    let mut whole = VtParser::new();
    whole.feed(b"ab\x1B[1;31mc\x1B[2J");
    let mut split = VtParser::new();
    split.feed(b"ab\x1B[1;3");
    split.feed(b"1mc\x1B[2");
    split.feed(b"J");
    assert_eq!(whole.drain_changes(), split.drain_changes());
}

#[test]
fn parser_reset_forgets_a_partial_sequence() {
    let mut parser = VtParser::new();
    parser.feed(b"\x1B[3");
    parser.reset();
    parser.feed(b"x");
    assert_eq!(parser.drain_changes(), vec![GridChange::PrintChar('x')]);
    assert_eq!(Color::rgb(1, 2, 3), Color { r: 1, g: 2, b: 3 });
}

#[test]
fn test_vt_parser_to_grid_pipeline() {
    // Test VT parser → terminal grid pipeline
    let mut parser = VtParser::new();
    let mut grid = TerminalGrid::new(24, 80);

    // Feed test data
    parser.feed(b"Hello, World!\n");

    // Apply changes to grid
    let changes = parser.drain_changes();
    grid.apply_changes(changes);

    // Verify grid state
    assert_eq!(grid.get_cell(0, 0).unwrap().ch, 'H');
    assert_eq!(grid.get_cell(0, 6).unwrap().ch, ' ');
    assert_eq!(grid.get_cell(0, 7).unwrap().ch, 'W');

    // Cursor should be at row 1 after newline
    assert_eq!(grid.cursor_position(), (1, 0));
}

#[test]
fn test_glyph_cache_pipeline() {
    let mut cache = GlyphCache::new();

    // Insert glyphs
    let key_a = GlyphKey { ch: 'A', bold: false, italic: false };
    let key_b = GlyphKey { ch: 'B', bold: true, italic: false };

    cache.insert(key_a, 16, 16);
    cache.insert(key_b, 16, 16);

    // Lookup should succeed
    assert!(cache.lookup(key_a).is_some());
    assert!(cache.lookup(key_b).is_some());

    // Different styles should be different keys
    let key_a_bold = GlyphKey { ch: 'A', bold: true, italic: false };
    assert!(cache.lookup(key_a_bold).is_none());
}

#[test]
fn test_dirty_tracking_performance() {
    let mut grid = TerminalGrid::new(24, 80);

    // Clear initial dirty state
    grid.clear_dirty();

    // Print single character
    let start = std::time::Instant::now();
    grid.apply_changes(vec![GridChange::PrintChar('X')]);
    let elapsed = start.elapsed();

    // Should be < 0.5ms (dirty tracking budget)
    assert!(elapsed.as_micros() < 500, "Dirty tracking took {:?}", elapsed);

    // Only (0, 0) should be dirty
    assert!(grid.dirty_region().is_dirty(0, 0));
    assert!(!grid.dirty_region().is_dirty(0, 1));
}

#[test]
fn test_mock_pty_channel() {
    // Parse mock PTY data
    let data: &[u8] = b"test\n";
    let mut parser = VtParser::new();
    parser.feed(data);

    let changes = parser.drain_changes();
    assert_eq!(changes.len(), 5); // t, e, s, t, \n
}

#[test]
fn test_60fps_frame_budget() {
    // Validate frame budget targets
    const FRAME_BUDGET_MS: f32 = 16.67;
    const PTY_PARSE_BUDGET_MS: f32 = 2.0;
    const DIRTY_TRACK_BUDGET_MS: f32 = 0.5;
    const GLYPH_LOOKUP_BUDGET_MS: f32 = 1.0;
    const GPU_RENDER_BUDGET_MS: f32 = 8.0;
    const VSYNC_BUDGET_MS: f32 = 5.0;

    // Total should be ≤ frame budget
    let total = PTY_PARSE_BUDGET_MS
        + DIRTY_TRACK_BUDGET_MS
        + GLYPH_LOOKUP_BUDGET_MS
        + GPU_RENDER_BUDGET_MS
        + VSYNC_BUDGET_MS;

    assert!(
        total <= FRAME_BUDGET_MS,
        "Budget total {:.2}ms exceeds {:.2}ms frame budget",
        total,
        FRAME_BUDGET_MS
    );
}

#[test]
fn test_guillotine_allocate() {
    let mut allocator = GuillotineAllocator::new(256, 256);

    let rect1 = allocator.allocate(64, 64).unwrap();
    assert_eq!(rect1.x, 0);
    assert_eq!(rect1.y, 0);

    let rect2 = allocator.allocate(64, 64).unwrap();
    // Should allocate next to first rect
    assert!(rect2.x == 64 || rect2.y == 64);
}

#[test]
fn guillotine_refuses_what_does_not_fit() {
    let mut allocator = GuillotineAllocator::new(32, 32);
    assert!(allocator.allocate(33, 1).is_none());
    assert!(allocator.allocate(32, 32).is_some());
    assert!(allocator.allocate(1, 1).is_none());
    assert_eq!(allocator.free_area(), 0);
}

#[test]
fn test_glyph_cache_insert() {
    let mut cache = GlyphCache::new();
    let key = GlyphKey { ch: 'A', bold: false, italic: false };

    // Insert glyph
    let info = cache.insert(key, 16, 16).unwrap();
    assert!(info.rect.width > 0);

    // Lookup should succeed
    assert!(cache.lookup(key).is_some());
}

#[test]
fn test_lru_eviction() {
    let mut cache = GlyphCache::with_max_size(2); // Small cache for testing

    let key1 = GlyphKey { ch: 'A', bold: false, italic: false };
    let key2 = GlyphKey { ch: 'B', bold: false, italic: false };
    let key3 = GlyphKey { ch: 'C', bold: false, italic: false };

    cache.insert(key1, 16, 16);
    cache.insert(key2, 16, 16);
    cache.insert(key3, 16, 16); // Should evict key1

    assert!(cache.lookup(key1).is_none()); // Evicted
    assert!(cache.lookup(key2).is_some());
    assert!(cache.lookup(key3).is_some());
}

#[test]
fn grid_resize_and_clear() {
    let mut grid = TerminalGrid::new(2, 3);
    grid.apply_changes(vec![GridChange::PrintChar('a'), GridChange::PrintChar('b')]);
    grid.resize(4, 5);
    assert_eq!(grid.dimensions(), (4, 5));
    assert_eq!(grid.get_cell(0, 1).unwrap().ch, 'b');
    assert!(grid.get_cell(4, 0).is_none());
    grid.clear();
    assert_eq!(grid.get_cell(0, 0).unwrap().ch, ' ');
    assert_eq!(grid.cursor_position(), (0, 0));
}

#[test]
fn an_sgr_run_appends_exactly_one_style_change() {
    let mut p = VtParser::new();
    p.feed(b"\x1b[m");
    assert_eq!(p.drain_changes(), vec![GridChange::StyleChange(CellStyle::default_style())]);
    p.feed(b"\x1b[0m");
    assert_eq!(p.drain_changes(), vec![GridChange::StyleChange(CellStyle::default_style())]);
    p.feed(b"\x1b[1;2;5;50;38;5m");
    let changes = p.drain_changes();
    assert_eq!(changes.len(), 1);
    match changes[0] {
        GridChange::StyleChange(s) => {
            assert!(s.bold);
            assert_eq!(s.fg, CellStyle::default_style().fg);
            assert_eq!(s.bg, CellStyle::default_style().bg);
        }
        other => panic!("unexpected {:?}", other),
    }
}

#[test]
fn dirty_cells_follow_the_marks_since_the_last_clear() {
    let mut d = DirtyRegion::new(3, 4);
    assert!(d.is_dirty(2, 3));
    assert!(d.is_dirty(9, 9));
    d.clear();
    assert!(!d.is_dirty(0, 0));
    d.mark_cell(1, 2);
    d.mark_row(2);
    d.mark_cell(7, 7);
    assert!(d.is_dirty(1, 2));
    assert!(!d.is_dirty(1, 1));
    assert!(d.is_dirty(2, 0) && d.is_dirty(2, 3));
    assert!(!d.is_dirty(7, 7));
    d.mark_all();
    assert!(d.is_dirty(0, 0) && d.is_dirty(9, 9));
    d.clear();
    assert!(!d.is_dirty(1, 2) && !d.is_dirty(2, 0));
}

#[test]
fn any_change_sequence_keeps_dimensions_and_cursor_in_range() {
    let mut grid = TerminalGrid::new(3, 5);
    let mut changes = Vec::new();
    for i in 0..40u16 {
        changes.push(match i % 8 {
            0 => GridChange::PrintChar('x'),
            1 => GridChange::Tab,
            2 => GridChange::Newline,
            3 => GridChange::CursorMove { row: i, col: i * 3 },
            4 => GridChange::Backspace,
            5 => GridChange::ScrollDown,
            6 => GridChange::ScrollUp,
            _ => GridChange::CarriageReturn,
        });
        grid.apply_changes(changes.clone());
        let (r, c) = grid.cursor_position();
        assert_eq!(grid.dimensions(), (3, 5));
        assert!(r < 3 && c < 5);
    }
}
