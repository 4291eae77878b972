//! The native-console terminal backend: clearing, scrolling and resizing
//! expressed as cell ranges and viewport rectangles over the console buffer.

use vstd::prelude::*;
use crate::console::{cell_index, fill_outcome, filled, grid_index, kept_cell, Console, DEFAULT_ATTRIBUTE, MAX_SIDE};
use crate::geometry::{clear_span, spec_clear_span, spec_cursor_after_clear, BufferGeometry, ClearRegion, Position, Rect};
use crate::state::{lemma_consistent_after, Context};

verus! {

/// Why a terminal operation failed.
#[derive(Clone, Copy, Debug, PartialEq, Eq, Structural)]
pub enum TerminalError {
    /// The cells to clear start outside the buffer.
    ClearFailed,
    /// A requested width below 1.
    InvalidWidth,
    /// A requested height below 1.
    InvalidHeight,
    /// A requested width beyond what the display or the buffer allows.
    WidthOutOfRange,
    /// A requested height beyond what the display or the buffer allows.
    HeightOutOfRange,
    /// The console refused the new buffer size.
    ResizeFailed,
    /// The console refused the new viewport.
    WindowFailed,
}

/// Only the console changed between `c0` and `c1`, and only in what the
/// terminal operations touch: cells, cursor, buffer size and viewport.
pub open spec fn console_only(c0: &Context, c1: &Context) -> bool {
    &&& c1.state_manager == c0.state_manager
    &&& c1.session.screen_manager == c0.session.screen_manager
    &&& c1.session.ansi == c0.session.ansi
    &&& c1.session.console.same_setup(&c0.session.console)
}

/// `c1` is `c0` with `n` cells from `start` on blanked, characters and attributes.
pub open spec fn cleared(c0: &Console, c1: &Console, start: Position, n: int) -> bool {
    &&& c1.chars@ == filled(c0.chars@, cell_index(c0.width as nat, start), n, ' ')
    &&& c1.attrs@ == filled(c0.attrs@, cell_index(c0.width as nat, start), n, DEFAULT_ATTRIBUTE)
}

/// What a clear of `region` did, from console `c0` (its cursor deciding
/// where the region lies) to `c1`, returning `r`.
pub open spec fn clear_done(region: ClearRegion, c0: &Console, c1: &Console, r: Result<(), TerminalError>) -> bool {
    let (start, n) = spec_clear_span(region, c0.width as nat, c0.height as nat, c0.cursor);
    let outcome = fill_outcome(c0.width as nat, c0.height as nat, start, n);
    &&& c1.spec_geometry() == c0.spec_geometry()
    &&& (r is Ok <==> outcome is Some)
    &&& r is Ok ==> cleared(c0, c1, start, outcome->0 as int)
        && c1.cursor == spec_cursor_after_clear(region, c0.cursor)
    &&& r is Err ==> r == Err::<(), TerminalError>(TerminalError::ClearFailed)
        && c1.chars@ == c0.chars@ && c1.attrs@ == c0.attrs@ && c1.cursor == c0.cursor
}

/// Blanks `cells` cells from `start` on: characters to spaces, then
/// attributes to the default; both must succeed.
fn clear_cells(start: Position, cells: u32, context: &mut Context) -> (r: Result<(), TerminalError>)
    requires
        old(context).wf(),
    ensures
        final(context).wf(),
        console_only(old(context), final(context)),
        final(context).session.console.spec_geometry() == old(context).session.console.spec_geometry(),
        final(context).session.console.cursor == old(context).session.console.cursor,
        ({
            let c0 = &old(context).session.console;
            let outcome = fill_outcome(c0.width as nat, c0.height as nat, start, cells as nat);
            &&& (r is Ok <==> outcome is Some)
            &&& r is Ok ==> cleared(c0, &final(context).session.console, start, outcome->0 as int)
            &&& r is Err ==> r == Err::<(), TerminalError>(TerminalError::ClearFailed)
                && final(context).session.console.chars@ == c0.chars@
                && final(context).session.console.attrs@ == c0.attrs@
        }),
{
    let ghost s0 = context.session;
    let written = context.session.console.fill_output_character(start, cells, ' ');
    proof {
        lemma_consistent_after(&context.state_manager, &s0, &context.session);
    }
    if written.is_none() {
        return Err(TerminalError::ClearFailed);
    }
    let written = context.session.console.fill_output_attribute(start, cells, DEFAULT_ATTRIBUTE);
    proof {
        lemma_consistent_after(&context.state_manager, &s0, &context.session);
    }
    if written.is_none() {
        return Err(TerminalError::ClearFailed);
    }
    Ok(())
}

/// Clears `region`, given the fresh buffer snapshot `geom` and cursor `pos`.
fn clear_region(region: ClearRegion, pos: Position, geom: BufferGeometry, context: &mut Context) -> (r: Result<(), TerminalError>)
    requires
        old(context).wf(),
        geom == old(context).session.console.spec_geometry(),
        pos == old(context).session.console.cursor,
    ensures
        final(context).wf(),
        console_only(old(context), final(context)),
        clear_done(region, &old(context).session.console, &final(context).session.console, r),
{
    let span = clear_span(region, geom, pos);
    let r = clear_cells(span.start, span.cells, context);
    if r.is_ok() {
        let ghost s0 = context.session;
        match region {
            ClearRegion::EntireScreen => {
                context.session.console.set_cursor_position(Position { col: 0, row: 0 });
            },
            ClearRegion::CurrentLine => {
                context.session.console.set_cursor_position(Position { col: 0, row: pos.row });
            },
            _ => {},
        }
        proof {
            lemma_consistent_after(&context.state_manager, &s0, &context.session);
        }
    }
    r
}

/// Clears from the cursor to the end of the buffer.
pub fn clear_after_cursor(pos: Position, geom: BufferGeometry, context: &mut Context) -> (r: Result<(), TerminalError>)
    requires
        old(context).wf(),
        geom == old(context).session.console.spec_geometry(),
        pos == old(context).session.console.cursor,
    ensures
        final(context).wf(),
        console_only(old(context), final(context)),
        clear_done(ClearRegion::FromCursorDown, &old(context).session.console, &final(context).session.console, r),
{
    clear_region(ClearRegion::FromCursorDown, pos, geom, context)
}

/// Clears from the start of the buffer up to and including the cursor.
pub fn clear_before_cursor(pos: Position, geom: BufferGeometry, context: &mut Context) -> (r: Result<(), TerminalError>)
    requires
        old(context).wf(),
        geom == old(context).session.console.spec_geometry(),
        pos == old(context).session.console.cursor,
    ensures
        final(context).wf(),
        console_only(old(context), final(context)),
        clear_done(ClearRegion::FromCursorUp, &old(context).session.console, &final(context).session.console, r),
{
    clear_region(ClearRegion::FromCursorUp, pos, geom, context)
}

/// Clears the whole buffer and puts the cursor at the origin.
pub fn clear_entire_screen(geom: BufferGeometry, context: &mut Context) -> (r: Result<(), TerminalError>)
    requires
        old(context).wf(),
        geom == old(context).session.console.spec_geometry(),
    ensures
        final(context).wf(),
        console_only(old(context), final(context)),
        clear_done(ClearRegion::EntireScreen, &old(context).session.console, &final(context).session.console, r),
{
    let pos = context.session.console.cursor_position();
    clear_region(ClearRegion::EntireScreen, pos, geom, context)
}

/// Clears the cursor's row and puts the cursor at its start.
pub fn clear_current_line(pos: Position, geom: BufferGeometry, context: &mut Context) -> (r: Result<(), TerminalError>)
    requires
        old(context).wf(),
        geom == old(context).session.console.spec_geometry(),
        pos == old(context).session.console.cursor,
    ensures
        final(context).wf(),
        console_only(old(context), final(context)),
        clear_done(ClearRegion::CurrentLine, &old(context).session.console, &final(context).session.console, r),
{
    clear_region(ClearRegion::CurrentLine, pos, geom, context)
}

/// Clears from the cursor to the end of its row.
pub fn clear_until_line(pos: Position, geom: BufferGeometry, context: &mut Context) -> (r: Result<(), TerminalError>)
    requires
        old(context).wf(),
        geom == old(context).session.console.spec_geometry(),
        pos == old(context).session.console.cursor,
    ensures
        final(context).wf(),
        console_only(old(context), final(context)),
        clear_done(ClearRegion::ToLineEnd, &old(context).session.console, &final(context).session.console, r),
{
    clear_region(ClearRegion::ToLineEnd, pos, geom, context)
}

} // verus!

verus! {

/// Why `set_size(width, height)` on console `c` fails, if it does: sizes
/// below 1 first, then sizes beyond the display, then a viewport that would
/// reach past the largest buffer.
pub open spec fn size_error(c: &Console, width: i16, height: i16) -> Option<TerminalError> {
    if width <= 0 {
        Some(TerminalError::InvalidWidth)
    } else if height <= 0 {
        Some(TerminalError::InvalidHeight)
    } else if width > c.max_width {
        Some(TerminalError::WidthOutOfRange)
    } else if height > c.max_height {
        Some(TerminalError::HeightOutOfRange)
    } else if c.viewport.left + width > MAX_SIDE {
        Some(TerminalError::WidthOutOfRange)
    } else if c.viewport.top + height > MAX_SIDE {
        Some(TerminalError::HeightOutOfRange)
    } else {
        None
    }
}

pub open spec fn max_of(a: int, b: int) -> int {
    if a >= b { a } else { b }
}

/// The native-console terminal backend; it acts on the context it is given.
pub struct WinApiTerminal {}

impl WinApiTerminal {
    pub fn new() -> (r: WinApiTerminal) {
        WinApiTerminal {}
    }

    /// Clears `region` of the buffer, reading size and cursor fresh.
    pub fn clear(&self, context: &mut Context, region: ClearRegion) -> (r: Result<(), TerminalError>)
        requires
            old(context).wf(),
        ensures
            final(context).wf(),
            console_only(old(context), final(context)),
            clear_done(region, &old(context).session.console, &final(context).session.console, r),
    {
        let geom = context.session.console.geometry();
        let pos = context.session.console.cursor_position();
        match region {
            ClearRegion::EntireScreen => clear_entire_screen(geom, context),
            ClearRegion::FromCursorDown => clear_after_cursor(pos, geom, context),
            ClearRegion::FromCursorUp => clear_before_cursor(pos, geom, context),
            ClearRegion::CurrentLine => clear_current_line(pos, geom, context),
            ClearRegion::ToLineEnd => clear_until_line(pos, geom, context),
        }
    }

    /// The visible size, columns and rows, from the viewport.
    pub fn terminal_size(&self, context: &Context) -> (r: (u16, u16))
        requires
            context.wf(),
        ensures
            ({
                let v = context.session.console.viewport;
                r == ((v.right - v.left + 1) as u16, (v.bottom - v.top + 1) as u16)
            }),
    {
        let v = context.session.console.geometry().viewport;
        ((v.right - v.left + 1) as u16, (v.bottom - v.top + 1) as u16)
    }

    /// Moves the viewport `count` rows up. A move past the top of the
    /// buffer, or by a negative count, does nothing. Returns whether it moved.
    pub fn scroll_up(&self, context: &mut Context, count: i16) -> (moved: bool)
        requires
            old(context).wf(),
        ensures
            final(context).wf(),
            console_only(old(context), final(context)),
            ({
                let c0 = &old(context).session.console;
                let c1 = &final(context).session.console;
                let v = c0.viewport;
                &&& moved == (0 <= count <= v.top)
                &&& c1.width == c0.width && c1.height == c0.height && c1.cursor == c0.cursor
                &&& c1.chars@ == c0.chars@ && c1.attrs@ == c0.attrs@
                &&& c1.viewport == (if moved {
                    Rect { top: (v.top - count) as i16, bottom: (v.bottom - count) as i16, ..v }
                } else {
                    v
                })
            }),
    {
        let v = context.session.console.geometry().viewport;
        if 0 <= count && count <= v.top {
            let ghost s0 = context.session;
            let rect = Rect { top: v.top - count, bottom: v.bottom - count, ..v };
            let ok = context.session.console.set_window_info(rect);
            proof {
                lemma_consistent_after(&context.state_manager, &s0, &context.session);
            }
            ok
        } else {
            false
        }
    }

    /// Moves the viewport `count` rows down. A move past the end of the
    /// buffer, or by a negative count, does nothing. Returns whether it moved.
    pub fn scroll_down(&self, context: &mut Context, count: i16) -> (moved: bool)
        requires
            old(context).wf(),
        ensures
            final(context).wf(),
            console_only(old(context), final(context)),
            ({
                let c0 = &old(context).session.console;
                let c1 = &final(context).session.console;
                let v = c0.viewport;
                &&& moved == (0 <= count && v.bottom < c0.height - count)
                &&& c1.width == c0.width && c1.height == c0.height && c1.cursor == c0.cursor
                &&& c1.chars@ == c0.chars@ && c1.attrs@ == c0.attrs@
                &&& c1.viewport == (if moved {
                    Rect { top: (v.top + count) as i16, bottom: (v.bottom + count) as i16, ..v }
                } else {
                    v
                })
            }),
    {
        let geom = context.session.console.geometry();
        let v = geom.viewport;
        if 0 <= count && (v.bottom as i32) < (geom.height as i32) - (count as i32) {
            let ghost s0 = context.session;
            let rect = Rect { top: v.top + count, bottom: v.bottom + count, ..v };
            let ok = context.session.console.set_window_info(rect);
            proof {
                lemma_consistent_after(&context.state_manager, &s0, &context.session);
            }
            ok
        } else {
            false
        }
    }

    /// Makes the viewport `width` columns by `height` rows, keeping its top
    /// left corner. The buffer grows first where the viewport would not fit
    /// in it, then the viewport is set, then the old buffer size is asked
    /// for again. The console refuses that shrink whenever the buffer had to
    /// grow, since the new viewport no longer fits the old size; so a grown
    /// buffer stays grown, cells and cursor in place.
    pub fn set_size(&self, context: &mut Context, width: i16, height: i16) -> (r: Result<(), TerminalError>)
        requires
            old(context).wf(),
        ensures
            final(context).wf(),
            console_only(old(context), final(context)),
            ({
                let c0 = &old(context).session.console;
                let c1 = &final(context).session.console;
                let v = c0.viewport;
                &&& size_error(c0, width, height) is Some ==> r == Err::<(), TerminalError>(size_error(c0, width, height)->0)
                    && *final(context) == *old(context)
                &&& size_error(c0, width, height) is None ==> {
                    &&& r is Ok
                    &&& c1.viewport == (Rect {
                        right: (v.left + width - 1) as i16,
                        bottom: (v.top + height - 1) as i16,
                        ..v
                    })
                    &&& c1.width == max_of(c0.width as int, v.left + width)
                    &&& c1.height == max_of(c0.height as int, v.top + height)
                    &&& (c1.width > c0.width || c1.height > c0.height)
                        ==> !c1.viewport.fits_in(c0.width as int, c0.height as int)
                    &&& c1.cursor == c0.cursor
                    &&& forall|row: int, col: int| 0 <= row < c0.height && 0 <= col < c0.width ==>
                        #[trigger] c1.chars@[grid_index(c1.width as int, row, col)]
                            == c0.chars@[grid_index(c0.width as int, row, col)]
                    &&& forall|row: int, col: int| 0 <= row < c0.height && 0 <= col < c0.width ==>
                        #[trigger] c1.attrs@[grid_index(c1.width as int, row, col)]
                            == c0.attrs@[grid_index(c0.width as int, row, col)]
                }
            }),
    {
        if width <= 0 {
            return Err(TerminalError::InvalidWidth);
        }
        if height <= 0 {
            return Err(TerminalError::InvalidHeight);
        }
        let (max_width, max_height) = context.session.console.largest_window_size();
        if width as i32 > max_width as i32 {
            return Err(TerminalError::WidthOutOfRange);
        }
        if height as i32 > max_height as i32 {
            return Err(TerminalError::HeightOutOfRange);
        }
        let geom = context.session.console.geometry();
        let v = geom.viewport;
        let need_width: i32 = v.left as i32 + width as i32;
        let need_height: i32 = v.top as i32 + height as i32;
        if need_width > MAX_SIDE as i32 {
            return Err(TerminalError::WidthOutOfRange);
        }
        if need_height > MAX_SIDE as i32 {
            return Err(TerminalError::HeightOutOfRange);
        }
        let ghost s0 = context.session;
        let old_width = geom.width as i16;
        let old_height = geom.height as i16;
        let buffer_width: i16 = if need_width > geom.width as i32 { need_width as i16 } else { old_width };
        let buffer_height: i16 = if need_height > geom.height as i32 { need_height as i16 } else { old_height };
        let grow = buffer_width != old_width || buffer_height != old_height;
        if grow {
            if !context.session.console.set_buffer_size(buffer_width, buffer_height) {
                proof {
                    lemma_consistent_after(&context.state_manager, &s0, &context.session);
                }
                return Err(TerminalError::ResizeFailed);
            }
        }
        let rect = Rect { right: (need_width - 1) as i16, bottom: (need_height - 1) as i16, ..v };
        if !context.session.console.set_window_info(rect) {
            proof {
                lemma_consistent_after(&context.state_manager, &s0, &context.session);
            }
            return Err(TerminalError::WindowFailed);
        }
        let ghost c_set = context.session.console;
        if grow {
            context.session.console.set_buffer_size(old_width, old_height);
        }
        proof {
            lemma_consistent_after(&context.state_manager, &s0, &context.session);
            let c0 = s0.console;
            let c1 = context.session.console;
            assert(c1.chars@ == c_set.chars@ && c1.attrs@ == c_set.attrs@ && c1.width == c_set.width);
            assert forall|row: int, col: int| 0 <= row < c0.height && 0 <= col < c0.width implies
                #[trigger] c1.chars@[grid_index(c1.width as int, row, col)]
                    == c0.chars@[grid_index(c0.width as int, row, col)] by {
                if grow {
                    assert(c_set.chars@[grid_index(c_set.width as int, row, col)]
                        == kept_cell(c0.chars@, c0.width as int, c0.height as int, row, col, ' '));
                }
            }
            assert forall|row: int, col: int| 0 <= row < c0.height && 0 <= col < c0.width implies
                #[trigger] c1.attrs@[grid_index(c1.width as int, row, col)]
                    == c0.attrs@[grid_index(c0.width as int, row, col)] by {
                if grow {
                    assert(c_set.chars@[grid_index(c_set.width as int, row, col)]
                        == kept_cell(c0.chars@, c0.width as int, c0.height as int, row, col, ' '));
                }
            }
        }
        Ok(())
    }

    /// Puts the terminal back as it was: undoes every recorded change.
    /// Returns how many undos failed.
    pub fn exit(&self, context: &mut Context) -> (failures: usize)
        requires
            old(context).wf(),
        ensures
            final(context).wf(),
            failures == 0,
            final(context).state_manager.changes@.len() == 0,
            final(context).session.modes() == old(context).state_manager.restored_modes(&old(context).session),
            final(context).session.alternate_view() == old(context).state_manager.restored_view(&old(context).session),
            old(context).state_manager.changes@.len() == 0 ==> final(context).session == old(context).session,
    {
        context.undo_all()
    }
}

} // verus!
