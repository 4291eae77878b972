use crossterm::console::{Console, DEFAULT_ATTRIBUTE};
use crossterm::geometry::{clear_span, BufferGeometry, ClearRegion, ClearSpan, Position, Rect};
use crossterm::manager::{ScreenManager, WinApiScreenManager};
use crossterm::state::Context;
use crossterm::terminal::{clear_before_cursor, TerminalError, WinApiTerminal};

fn native_context(width: u16, height: u16, max_width: u16, max_height: u16) -> Context {
    let console = Console::new(width, height, max_width, max_height, false);
    Context::new(console, ScreenManager::WinApi(WinApiScreenManager::new()))
}

/// An 80 x 24 console full of 'x', cursor at column 10, row 5.
fn filled_context() -> Context {
    let mut ctx = native_context(80, 24, 200, 60);
    let c = &mut ctx.session.console;
    assert_eq!(c.fill_output_character(Position { col: 0, row: 0 }, 1920, 'x'), Some(1920));
    assert_eq!(c.fill_output_attribute(Position { col: 0, row: 0 }, 1920, 0x1f), Some(1920));
    assert!(c.set_cursor_position(Position { col: 10, row: 5 }));
    ctx
}

fn blank_indices(ctx: &Context) -> Vec<usize> {
    let c = &ctx.session.console;
    (0..c.chars.len()).filter(|&i| c.chars[i] == ' ' && c.attrs[i] == DEFAULT_ATTRIBUTE).collect()
}

fn geometry_80x24() -> BufferGeometry {
    BufferGeometry { width: 80, height: 24, viewport: Rect { left: 0, top: 0, right: 79, bottom: 23 } }
}

#[test]
fn span_of_current_line() {
    let s = clear_span(ClearRegion::CurrentLine, geometry_80x24(), Position { col: 10, row: 5 });
    assert_eq!(s, ClearSpan { start: Position { col: 0, row: 5 }, cells: 80 });
}

#[test]
fn span_from_cursor_up() {
    let s = clear_span(ClearRegion::FromCursorUp, geometry_80x24(), Position { col: 10, row: 5 });
    assert_eq!(s, ClearSpan { start: Position { col: 0, row: 0 }, cells: 411 });
}

#[test]
fn span_of_entire_screen() {
    let s = clear_span(ClearRegion::EntireScreen, geometry_80x24(), Position { col: 10, row: 5 });
    assert_eq!(s, ClearSpan { start: Position { col: 0, row: 0 }, cells: 1920 });
}

#[test]
fn span_to_line_end_and_down() {
    let pos = Position { col: 10, row: 5 };
    assert_eq!(clear_span(ClearRegion::ToLineEnd, geometry_80x24(), pos), ClearSpan { start: pos, cells: 70 });
    assert_eq!(clear_span(ClearRegion::FromCursorDown, geometry_80x24(), pos), ClearSpan { start: pos, cells: 1920 });
}

#[test]
fn span_from_cursor_down_past_row_end() {
    let s = clear_span(ClearRegion::FromCursorDown, geometry_80x24(), Position { col: 80, row: 5 });
    assert_eq!(s.start, Position { col: 0, row: 6 });
}

#[test]
fn clear_current_line_blanks_the_row_and_moves_cursor() {
    let mut ctx = filled_context();
    let t = WinApiTerminal::new();
    assert_eq!(t.clear(&mut ctx, ClearRegion::CurrentLine), Ok(()));
    assert_eq!(blank_indices(&ctx), (400..480).collect::<Vec<usize>>());
    assert_eq!(ctx.session.console.cursor, Position { col: 0, row: 5 });
}

#[test]
fn clear_from_cursor_up_blanks_411_cells() {
    let mut ctx = filled_context();
    let t = WinApiTerminal::new();
    assert_eq!(t.clear(&mut ctx, ClearRegion::FromCursorUp), Ok(()));
    assert_eq!(blank_indices(&ctx), (0..411).collect::<Vec<usize>>());
    assert_eq!(ctx.session.console.cursor, Position { col: 10, row: 5 });
}

#[test]
fn clear_entire_screen_blanks_all_and_homes_cursor() {
    let mut ctx = filled_context();
    let t = WinApiTerminal::new();
    assert_eq!(t.clear(&mut ctx, ClearRegion::EntireScreen), Ok(()));
    assert_eq!(blank_indices(&ctx).len(), 1920);
    assert_eq!(ctx.session.console.cursor, Position { col: 0, row: 0 });
}

#[test]
fn clear_to_line_end_blanks_rest_of_row() {
    let mut ctx = filled_context();
    let t = WinApiTerminal::new();
    assert_eq!(t.clear(&mut ctx, ClearRegion::ToLineEnd), Ok(()));
    assert_eq!(blank_indices(&ctx), (410..480).collect::<Vec<usize>>());
    assert_eq!(ctx.session.console.cursor, Position { col: 10, row: 5 });
}

#[test]
fn clear_from_cursor_down_stops_at_buffer_end() {
    let mut ctx = filled_context();
    let t = WinApiTerminal::new();
    assert_eq!(t.clear(&mut ctx, ClearRegion::FromCursorDown), Ok(()));
    assert_eq!(blank_indices(&ctx), (410..1920).collect::<Vec<usize>>());
}

#[test]
fn clear_before_cursor_free_function() {
    let mut ctx = filled_context();
    let geom = ctx.session.console.geometry();
    let pos = ctx.session.console.cursor_position();
    assert_eq!(clear_before_cursor(pos, geom, &mut ctx), Ok(()));
    assert_eq!(blank_indices(&ctx).len(), 411);
}

#[test]
fn fill_outside_buffer_is_refused() {
    let mut ctx = filled_context();
    let c = &mut ctx.session.console;
    assert_eq!(c.fill_output_character(Position { col: 0, row: 24 }, 5, ' '), None);
    assert_eq!(c.fill_output_character(Position { col: 78, row: 23 }, 5, ' '), Some(2));
}

/// 80 x 100 buffer showing rows 10 to 33.
fn scrolled_context() -> Context {
    let mut ctx = native_context(80, 100, 200, 60);
    assert!(ctx.session.console.set_window_info(Rect { left: 0, top: 10, right: 79, bottom: 33 }));
    ctx
}

#[test]
fn scroll_up_moves_both_edges() {
    let mut ctx = scrolled_context();
    assert!(WinApiTerminal::new().scroll_up(&mut ctx, 4));
    assert_eq!(ctx.session.console.viewport, Rect { left: 0, top: 6, right: 79, bottom: 29 });
}

#[test]
fn scroll_up_to_the_top_exactly() {
    let mut ctx = scrolled_context();
    assert!(WinApiTerminal::new().scroll_up(&mut ctx, 10));
    assert_eq!(ctx.session.console.viewport, Rect { left: 0, top: 0, right: 79, bottom: 23 });
}

#[test]
fn scroll_up_past_the_top_is_a_no_op() {
    let mut ctx = scrolled_context();
    assert!(!WinApiTerminal::new().scroll_up(&mut ctx, 11));
    assert_eq!(ctx.session.console.viewport, Rect { left: 0, top: 10, right: 79, bottom: 33 });
    assert!(!WinApiTerminal::new().scroll_up(&mut ctx, -1));
    assert_eq!(ctx.session.console.viewport, Rect { left: 0, top: 10, right: 79, bottom: 33 });
}

#[test]
fn scroll_down_moves_and_stops_at_buffer_end() {
    let mut ctx = scrolled_context();
    let t = WinApiTerminal::new();
    assert!(t.scroll_down(&mut ctx, 66));
    assert_eq!(ctx.session.console.viewport, Rect { left: 0, top: 76, right: 79, bottom: 99 });
    assert!(!t.scroll_down(&mut ctx, 1));
    assert_eq!(ctx.session.console.viewport, Rect { left: 0, top: 76, right: 79, bottom: 99 });
}

#[test]
fn terminal_size_comes_from_viewport() {
    let ctx = scrolled_context();
    assert_eq!(WinApiTerminal::new().terminal_size(&ctx), (80, 24));
}

#[test]
fn set_size_rejects_zero_width_and_height() {
    let mut ctx = scrolled_context();
    let t = WinApiTerminal::new();
    assert_eq!(t.set_size(&mut ctx, 0, 10), Err(TerminalError::InvalidWidth));
    assert_eq!(t.set_size(&mut ctx, 10, 0), Err(TerminalError::InvalidHeight));
    assert_eq!(t.set_size(&mut ctx, -3, 10), Err(TerminalError::InvalidWidth));
    let c = &ctx.session.console;
    assert_eq!((c.width, c.height), (80, 100));
    assert_eq!(c.viewport, Rect { left: 0, top: 10, right: 79, bottom: 33 });
}

#[test]
fn set_size_rejects_sizes_beyond_the_display() {
    let mut ctx = scrolled_context();
    let t = WinApiTerminal::new();
    assert_eq!(t.set_size(&mut ctx, 201, 10), Err(TerminalError::WidthOutOfRange));
    assert_eq!(t.set_size(&mut ctx, 10, 61), Err(TerminalError::HeightOutOfRange));
    assert_eq!(ctx.session.console.viewport, Rect { left: 0, top: 10, right: 79, bottom: 33 });
}

#[test]
fn set_size_within_buffer_keeps_buffer() {
    let mut ctx = scrolled_context();
    let t = WinApiTerminal::new();
    assert_eq!(t.set_size(&mut ctx, 40, 12), Ok(()));
    let c = &ctx.session.console;
    assert_eq!(c.viewport, Rect { left: 0, top: 10, right: 39, bottom: 21 });
    assert_eq!((c.width, c.height), (80, 100));
    assert_eq!(t.terminal_size(&ctx), (40, 12));
}

#[test]
fn set_size_grows_buffer_when_needed() {
    let mut ctx = scrolled_context();
    let t = WinApiTerminal::new();
    assert_eq!(t.set_size(&mut ctx, 120, 50), Ok(()));
    let c = &ctx.session.console;
    assert_eq!(c.viewport, Rect { left: 0, top: 10, right: 119, bottom: 59 });
    assert_eq!((c.width, c.height), (120, 100));
    assert_eq!(t.terminal_size(&ctx), (120, 50));
}

#[test]
fn set_size_growth_keeps_cells_in_place() {
    let mut ctx = scrolled_context();
    assert_eq!(ctx.session.console.fill_output_character(Position { col: 5, row: 2 }, 1, 'q'), Some(1));
    assert_eq!(WinApiTerminal::new().set_size(&mut ctx, 120, 50), Ok(()));
    let c = &ctx.session.console;
    assert_eq!(c.chars[2 * 120 + 5], 'q');
    assert_eq!(c.chars.iter().filter(|&&ch| ch == 'q').count(), 1);
}

#[test]
fn buffer_cannot_shrink_below_viewport() {
    let mut ctx = scrolled_context();
    let c = &mut ctx.session.console;
    assert!(!c.set_buffer_size(80, 30));
    assert_eq!((c.width, c.height), (80, 100));
    assert!(c.set_cursor_position(Position { col: 3, row: 90 }));
    assert!(!c.set_buffer_size(70, 40));
    assert!(c.set_buffer_size(90, 40));
    assert_eq!((c.width, c.height), (90, 40));
    assert_eq!(c.cursor, Position { col: 3, row: 39 });
    assert_eq!(c.chars.len(), 3600);
}
