//! The native console as the library sees it: input and output mode words,
//! a row-major cell buffer with a visible viewport, a cursor, and screen
//! buffer handles. Every console operation the backends need is a method
//! here, with the outcome the console reports.

use vstd::prelude::*;
use crate::geometry::{BufferGeometry, Position, Rect};

verus! {

/// Input mode bit: Ctrl+C and similar keys are processed by the system.
pub const ENABLE_PROCESSED_INPUT: u32 = 0x0001;

/// Input mode bit: reads return only when a whole line has been typed.
pub const ENABLE_LINE_INPUT: u32 = 0x0002;

/// Input mode bit: typed characters are echoed to the screen.
pub const ENABLE_ECHO_INPUT: u32 = 0x0004;

/// Output mode bit: escape sequences written to the console are interpreted.
pub const ENABLE_VIRTUAL_TERMINAL_PROCESSING: u32 = 0x0004;

/// Output mode bits that every console starts with.
pub const DEFAULT_OUTPUT_MODE: u32 = 0x0003;

/// The largest buffer side a console accepts.
pub const MAX_SIDE: u16 = 32767;

/// The attribute of a blank cell: light grey on black.
pub const DEFAULT_ATTRIBUTE: u16 = 0x0007;

/// The handle of the screen buffer a console starts with.
pub const PRIMARY_HANDLE: u32 = 0;

/// `s` with the `n` entries from index `from` on replaced by `v`.
pub open spec fn filled<A>(s: Seq<A>, from: int, n: int, v: A) -> Seq<A> {
    Seq::new(s.len(), |j: int| if from <= j < from + n { v } else { s[j] })
}

/// A cell's index in a row-major buffer of `width` columns.
pub open spec fn cell_index(width: nat, pos: Position) -> int {
    width * pos.row + pos.col
}

pub struct Console {
    pub input_mode: u32,
    pub output_mode: u32,
    /// Whether the console accepts `ENABLE_VIRTUAL_TERMINAL_PROCESSING`.
    pub vt_supported: bool,
    pub width: u16,
    pub height: u16,
    pub viewport: Rect,
    pub cursor: Position,
    /// The largest window the display can show, in columns and rows.
    pub max_width: u16,
    pub max_height: u16,
    pub chars: Vec<char>,
    pub attrs: Vec<u16>,
    /// The screen buffer that output goes to.
    pub active: u32,
    /// The handle the next created screen buffer gets.
    pub next_handle: u32,
}

impl Console {
    pub open spec fn wf(&self) -> bool {
        &&& 0 < self.width <= MAX_SIDE
        &&& 0 < self.height <= MAX_SIDE
        &&& self.viewport.fits_in(self.width as int, self.height as int)
        &&& self.cursor.col < self.width
        &&& self.cursor.row < self.height
        &&& self.chars@.len() == self.width * self.height
        &&& self.attrs@.len() == self.width * self.height
        &&& self.active < self.next_handle
        &&& self.vt_supported || self.output_mode & ENABLE_VIRTUAL_TERMINAL_PROCESSING == 0
    }

    pub open spec fn spec_geometry(&self) -> BufferGeometry {
        BufferGeometry { width: self.width, height: self.height, viewport: self.viewport }
    }

    /// Everything but the cell contents, the cursor and the buffer size and viewport.
    pub open spec fn same_setup(&self, other: &Console) -> bool {
        &&& self.input_mode == other.input_mode
        &&& self.output_mode == other.output_mode
        &&& self.vt_supported == other.vt_supported
        &&& self.max_width == other.max_width
        &&& self.max_height == other.max_height
        &&& self.active == other.active
        &&& self.next_handle == other.next_handle
    }

    /// A console of `width` x `height` blank cells, all of it visible, with
    /// the cursor at the origin and line-buffered, echoing input.
    pub fn new(width: u16, height: u16, max_width: u16, max_height: u16, vt_supported: bool) -> (r: Console)
        requires
            0 < width <= MAX_SIDE,
            0 < height <= MAX_SIDE,
        ensures
            r.wf(),
            r.width == width,
            r.height == height,
            r.viewport == (Rect { left: 0, top: 0, right: (width - 1) as i16, bottom: (height - 1) as i16 }),
            r.cursor == (Position { col: 0, row: 0 }),
            r.max_width == max_width,
            r.max_height == max_height,
            r.vt_supported == vt_supported,
            r.input_mode == ENABLE_PROCESSED_INPUT | ENABLE_LINE_INPUT | ENABLE_ECHO_INPUT,
            r.output_mode == DEFAULT_OUTPUT_MODE,
            r.active == PRIMARY_HANDLE,
            r.next_handle == PRIMARY_HANDLE + 1,
            forall|j: int| 0 <= j < r.chars@.len() ==> r.chars@[j] == ' ' && r.attrs@[j] == DEFAULT_ATTRIBUTE,
    {
        let (chars, attrs) = blank_cells(width, height);
        assert(DEFAULT_OUTPUT_MODE & ENABLE_VIRTUAL_TERMINAL_PROCESSING == 0) by (bit_vector);
        Console {
            input_mode: ENABLE_PROCESSED_INPUT | ENABLE_LINE_INPUT | ENABLE_ECHO_INPUT,
            output_mode: DEFAULT_OUTPUT_MODE,
            vt_supported,
            width,
            height,
            viewport: Rect { left: 0, top: 0, right: (width - 1) as i16, bottom: (height - 1) as i16 },
            cursor: Position { col: 0, row: 0 },
            max_width,
            max_height,
            chars,
            attrs,
            active: PRIMARY_HANDLE,
            next_handle: PRIMARY_HANDLE + 1,
        }
    }

    /// The buffer size and viewport, read fresh.
    pub fn geometry(&self) -> (r: BufferGeometry)
        ensures
            r == self.spec_geometry(),
    {
        BufferGeometry { width: self.width, height: self.height, viewport: self.viewport }
    }

    pub fn cursor_position(&self) -> (r: Position)
        ensures
            r == self.cursor,
    {
        self.cursor
    }

    /// Moves the cursor; refused when `pos` lies outside the buffer.
    pub fn set_cursor_position(&mut self, pos: Position) -> (ok: bool)
        requires
            old(self).wf(),
        ensures
            final(self).wf(),
            ok == (pos.col < old(self).width && pos.row < old(self).height),
            final(self).cursor == (if ok { pos } else { old(self).cursor }),
            final(self).same_setup(old(self)),
            final(self).spec_geometry() == old(self).spec_geometry(),
            final(self).chars@ == old(self).chars@,
            final(self).attrs@ == old(self).attrs@,
    {
        if pos.col < self.width && pos.row < self.height {
            self.cursor = pos;
            true
        } else {
            false
        }
    }

    pub fn get_input_mode(&self) -> (r: u32)
        ensures
            r == self.input_mode,
    {
        self.input_mode
    }

    pub fn get_output_mode(&self) -> (r: u32)
        ensures
            r == self.output_mode,
    {
        self.output_mode
    }

    pub fn set_input_mode(&mut self, mode: u32)
        requires
            old(self).wf(),
        ensures
            final(self).wf(),
            *final(self) == (Console { input_mode: mode, ..*old(self) }),
    {
        self.input_mode = mode;
    }

    /// Sets the output mode word; a console without escape-sequence support
    /// refuses a word that asks for it.
    pub fn set_output_mode(&mut self, mode: u32) -> (ok: bool)
        requires
            old(self).wf(),
        ensures
            final(self).wf(),
            ok == (old(self).vt_supported || mode & ENABLE_VIRTUAL_TERMINAL_PROCESSING == 0),
            *final(self) == (if ok { Console { output_mode: mode, ..*old(self) } } else { *old(self) }),
    {
        if self.vt_supported || mode & ENABLE_VIRTUAL_TERMINAL_PROCESSING == 0 {
            self.output_mode = mode;
            true
        } else {
            false
        }
    }

    /// Moves or resizes the viewport; refused unless `rect` lies inside the buffer.
    pub fn set_window_info(&mut self, rect: Rect) -> (ok: bool)
        requires
            old(self).wf(),
        ensures
            final(self).wf(),
            ok == rect.fits_in(old(self).width as int, old(self).height as int),
            *final(self) == (if ok { Console { viewport: rect, ..*old(self) } } else { *old(self) }),
    {
        if rect.left <= rect.right && rect.top <= rect.bottom && 0 <= rect.left && 0 <= rect.top
            && (rect.right as i32) < (self.width as i32) && (rect.bottom as i32) < (self.height as i32) {
            self.viewport = rect;
            true
        } else {
            false
        }
    }

    /// Resizes the buffer; refused unless the size is positive, at most
    /// `MAX_SIDE`, and still holds the viewport. Each cell keeps its row and
    /// column; added cells are blank. The cursor is pulled inside.
    pub fn set_buffer_size(&mut self, width: i16, height: i16) -> (ok: bool)
        requires
            old(self).wf(),
        ensures
            final(self).wf(),
            ok == (0 < width && 0 < height && old(self).viewport.fits_in(width as int, height as int)),
            ok ==> final(self).width == width && final(self).height == height
                && final(self).viewport == old(self).viewport,
            ok ==> final(self).cursor == (Position {
                col: if old(self).cursor.col < width { old(self).cursor.col } else { (width - 1) as u16 },
                row: if old(self).cursor.row < height { old(self).cursor.row } else { (height - 1) as u16 },
            }),
            ok ==> forall|row: int, col: int| 0 <= row < height && 0 <= col < width ==> {
                &&& #[trigger] final(self).chars@[grid_index(width as int, row, col)] == kept_cell(old(self).chars@,
                    old(self).width as int, old(self).height as int, row, col, ' ')
                &&& final(self).attrs@[grid_index(width as int, row, col)] == kept_cell(old(self).attrs@,
                    old(self).width as int, old(self).height as int, row, col, DEFAULT_ATTRIBUTE)
            },
            !ok ==> *final(self) == *old(self),
            final(self).same_setup(old(self)),
    {
        if 0 < width && 0 < height && (self.viewport.right as i32) < (width as i32)
            && (self.viewport.bottom as i32) < (height as i32) {
            let w = width as u16;
            let h = height as u16;
            let chars = resize_cells(&self.chars, self.width, self.height, w, h, ' ');
            let attrs = resize_cells(&self.attrs, self.width, self.height, w, h, DEFAULT_ATTRIBUTE);
            self.width = w;
            self.height = h;
            self.chars = chars;
            self.attrs = attrs;
            if self.cursor.col >= w {
                self.cursor.col = w - 1;
            }
            if self.cursor.row >= h {
                self.cursor.row = h - 1;
            }
            true
        } else {
            false
        }
    }

    /// The largest window the display can show.
    pub fn largest_window_size(&self) -> (r: (u16, u16))
        ensures
            r == (self.max_width, self.max_height),
    {
        (self.max_width, self.max_height)
    }

    /// Allocates a new screen buffer handle; `None` once handles run out.
    pub fn create_screen_buffer(&mut self) -> (r: Option<u32>)
        requires
            old(self).wf(),
        ensures
            final(self).wf(),
            r == (if old(self).next_handle < u32::MAX { Some(old(self).next_handle) } else { None }),
            *final(self) == (if r is Some {
                Console { next_handle: (old(self).next_handle + 1) as u32, ..*old(self) }
            } else {
                *old(self)
            }),
    {
        if self.next_handle < u32::MAX {
            let h = self.next_handle;
            self.next_handle = h + 1;
            Some(h)
        } else {
            None
        }
    }

    /// Makes `handle` the buffer output goes to; refused for a handle never created.
    pub fn set_active_screen_buffer(&mut self, handle: u32) -> (ok: bool)
        requires
            old(self).wf(),
        ensures
            final(self).wf(),
            ok == (handle < old(self).next_handle),
            *final(self) == (if ok { Console { active: handle, ..*old(self) } } else { *old(self) }),
    {
        if handle < self.next_handle {
            self.active = handle;
            true
        } else {
            false
        }
    }

    /// Writes `ch` into `count` cells from `start` on, row after row, stopping
    /// at the end of the buffer. Returns the number of cells written, or
    /// `None` when `start` lies outside the buffer.
    pub fn fill_output_character(&mut self, start: Position, count: u32, ch: char) -> (r: Option<u32>)
        requires
            old(self).wf(),
        ensures
            final(self).wf(),
            r == fill_outcome(old(self).width as nat, old(self).height as nat, start, count as nat),
            r is Some ==> final(self).chars@ == filled(old(self).chars@,
                cell_index(old(self).width as nat, start), r->0 as int, ch),
            r is None ==> final(self).chars@ == old(self).chars@,
            final(self).attrs@ == old(self).attrs@,
            final(self).same_setup(old(self)),
            final(self).spec_geometry() == old(self).spec_geometry(),
            final(self).cursor == old(self).cursor,
    {
        if start.col >= self.width || start.row >= self.height {
            return None;
        }
        let (from, n) = fill_range(self.width, self.height, start, count);
        let ghost before = self.chars@;
        let ghost start_state = *self;
        let end = from + n;
        let mut k: usize = from;
        while k < end
            invariant
                end == from + n,
                from <= k <= end <= self.chars@.len(),
                self.wf(),
                self.same_setup(&start_state),
                self.spec_geometry() == start_state.spec_geometry(),
                self.cursor == start_state.cursor,
                self.attrs@ == start_state.attrs@,
                self.chars@.len() == before.len(),
                forall|j: int| 0 <= j < before.len() ==> self.chars@[j] == (if from <= j < k { ch } else { before[j] }),
            decreases end - k,
        {
            self.chars.set(k, ch);
            k = k + 1;
        }
        assert(self.chars@ =~= filled(before, from as int, n as int, ch));
        Some(n as u32)
    }

    /// As `fill_output_character`, for the cells' attributes.
    pub fn fill_output_attribute(&mut self, start: Position, count: u32, attr: u16) -> (r: Option<u32>)
        requires
            old(self).wf(),
        ensures
            final(self).wf(),
            r == fill_outcome(old(self).width as nat, old(self).height as nat, start, count as nat),
            r is Some ==> final(self).attrs@ == filled(old(self).attrs@,
                cell_index(old(self).width as nat, start), r->0 as int, attr),
            r is None ==> final(self).attrs@ == old(self).attrs@,
            final(self).chars@ == old(self).chars@,
            final(self).same_setup(old(self)),
            final(self).spec_geometry() == old(self).spec_geometry(),
            final(self).cursor == old(self).cursor,
    {
        if start.col >= self.width || start.row >= self.height {
            return None;
        }
        let (from, n) = fill_range(self.width, self.height, start, count);
        let ghost before = self.attrs@;
        let ghost start_state = *self;
        let end = from + n;
        let mut k: usize = from;
        while k < end
            invariant
                end == from + n,
                from <= k <= end <= self.attrs@.len(),
                self.wf(),
                self.same_setup(&start_state),
                self.spec_geometry() == start_state.spec_geometry(),
                self.cursor == start_state.cursor,
                self.chars@ == start_state.chars@,
                self.attrs@.len() == before.len(),
                forall|j: int| 0 <= j < before.len() ==> self.attrs@[j] == (if from <= j < k { attr } else { before[j] }),
            decreases end - k,
        {
            self.attrs.set(k, attr);
            k = k + 1;
        }
        assert(self.attrs@ =~= filled(before, from as int, n as int, attr));
        Some(n as u32)
    }
}

/// What a fill of `count` cells from `start` reports: `None` for a start
/// outside the buffer, else the cells written before the buffer ends.
pub open spec fn fill_outcome(width: nat, height: nat, start: Position, count: nat) -> Option<u32> {
    if start.col >= width || start.row >= height {
        None
    } else {
        let left = width * height - cell_index(width, start);
        Some((if count <= left { count as int } else { left }) as u32)
    }
}

proof fn lemma_area(width: u16, height: u16, start: Position)
    requires
        0 < width <= MAX_SIDE,
        0 < height <= MAX_SIDE,
        start.col < width,
        start.row < height,
    ensures
        (width as nat) * (height as nat) <= (MAX_SIDE as nat) * (MAX_SIDE as nat),
        0 <= cell_index(width as nat, start) < (width as nat) * (height as nat),
{
    assert((width as nat) * (height as nat) <= (MAX_SIDE as nat) * (MAX_SIDE as nat)) by (nonlinear_arith)
        requires width <= MAX_SIDE, height <= MAX_SIDE;
    assert((width as nat) * (start.row as nat) + (width as nat) <= (width as nat) * (height as nat)) by (nonlinear_arith)
        requires start.row < height;
}

/// The index of `start` and the number of cells a fill of `count` covers.
fn fill_range(width: u16, height: u16, start: Position, count: u32) -> (r: (usize, usize))
    requires
        0 < width <= MAX_SIDE,
        0 < height <= MAX_SIDE,
        start.col < width,
        start.row < height,
    ensures
        r.0 == cell_index(width as nat, start),
        fill_outcome(width as nat, height as nat, start, count as nat) == Some(r.1 as u32),
        r.1 as nat <= count,
        r.0 + r.1 <= (width as nat) * (height as nat),
        r.0 + r.1 <= (MAX_SIDE as nat) * (MAX_SIDE as nat),
{
    proof {
        lemma_area(width, height, start);
    }
    let total = (width as usize) * (height as usize);
    let from = (width as usize) * (start.row as usize) + start.col as usize;
    let left = total - from;
    let n = if (count as usize) <= left { count as usize } else { left };
    (from, n)
}

/// The index of column `col` of row `row` in a row-major grid `width` wide.
pub open spec fn grid_index(width: int, row: int, col: int) -> int {
    width * row + col
}

/// The cell at `row`, `col` of a buffer resized from `old_width` x
/// `old_height` cells `s`: the old cell where there was one, else `blank`.
pub open spec fn kept_cell<A>(s: Seq<A>, old_width: int, old_height: int, row: int, col: int, blank: A) -> A {
    if row < old_height && col < old_width { s[grid_index(old_width, row, col)] } else { blank }
}

proof fn lemma_grid_before(width: int, r: int, c: int, row: int)
    requires
        0 <= r < row,
        0 <= c < width,
    ensures
        0 <= grid_index(width, r, c) < width * row,
{
    assert(width * r + c < width * row) by (nonlinear_arith)
        requires 0 <= r < row, 0 <= c < width;
    assert(0 <= width * r) by (nonlinear_arith)
        requires 0 <= r, 0 <= width;
}

/// The cells of a buffer resized from `old_width` x `old_height` to
/// `width` x `height`: each keeps its row and column, new cells are `blank`.
fn resize_cells<A: Copy>(cells: &Vec<A>, old_width: u16, old_height: u16, width: u16, height: u16, blank: A) -> (r: Vec<A>)
    requires
        0 < old_width <= MAX_SIDE,
        0 < old_height <= MAX_SIDE,
        0 < width <= MAX_SIDE,
        0 < height <= MAX_SIDE,
        cells@.len() == old_width * old_height,
    ensures
        r@.len() == width * height,
        forall|row: int, col: int| 0 <= row < height && 0 <= col < width ==>
            #[trigger] r@[grid_index(width as int, row, col)]
                == kept_cell(cells@, old_width as int, old_height as int, row, col, blank),
{
    proof {
        lemma_area(width, height, Position { col: 0, row: 0 });
        lemma_area(old_width, old_height, Position { col: 0, row: 0 });
    }
    let mut out: Vec<A> = Vec::new();
    let mut row: u16 = 0;
    while row < height
        invariant
            row <= height <= MAX_SIDE,
            0 < width <= MAX_SIDE,
            0 < old_width <= MAX_SIDE,
            0 < old_height <= MAX_SIDE,
            (old_width as int) * (old_height as int) <= (MAX_SIDE as int) * (MAX_SIDE as int),
            cells@.len() == old_width * old_height,
            out@.len() == width * row,
            width * row <= width * height,
            forall|r: int, c: int| 0 <= r < row && 0 <= c < width ==>
                #[trigger] out@[grid_index(width as int, r, c)]
                    == kept_cell(cells@, old_width as int, old_height as int, r, c, blank),
        decreases height - row,
    {
        assert(width * row + width <= width * height) by (nonlinear_arith)
            requires row < height, 0 < width;
        let mut col: u16 = 0;
        while col < width
            invariant
                row < height <= MAX_SIDE,
                col <= width <= MAX_SIDE,
                0 < old_width <= MAX_SIDE,
                0 < old_height <= MAX_SIDE,
                (old_width as int) * (old_height as int) <= (MAX_SIDE as int) * (MAX_SIDE as int),
                cells@.len() == old_width * old_height,
                out@.len() == width * row + col,
                width * row + width <= width * height,
                forall|r: int, c: int| 0 <= r < row && 0 <= c < width ==>
                    #[trigger] out@[grid_index(width as int, r, c)]
                        == kept_cell(cells@, old_width as int, old_height as int, r, c, blank),
                forall|c: int| 0 <= c < col ==>
                    #[trigger] out@[grid_index(width as int, row as int, c)]
                        == kept_cell(cells@, old_width as int, old_height as int, row as int, c, blank),
            decreases width - col,
        {
            let v = if row < old_height && col < old_width {
                proof {
                    lemma_grid_before(old_width as int, row as int, col as int, old_height as int);
                }
                cells[(old_width as usize) * (row as usize) + col as usize]
            } else {
                blank
            };
            let ghost before = out@;
            out.push(v);
            proof {
                assert forall|r: int, c: int| 0 <= r < row && 0 <= c < width implies
                    #[trigger] out@[grid_index(width as int, r, c)]
                        == kept_cell(cells@, old_width as int, old_height as int, r, c, blank) by {
                    lemma_grid_before(width as int, r, c, row as int);
                    assert(before[grid_index(width as int, r, c)]
                        == kept_cell(cells@, old_width as int, old_height as int, r, c, blank));
                }
                assert forall|c: int| 0 <= c < col + 1 implies
                    #[trigger] out@[grid_index(width as int, row as int, c)]
                        == kept_cell(cells@, old_width as int, old_height as int, row as int, c, blank) by {
                    if c < col {
                        assert(before[grid_index(width as int, row as int, c)]
                            == kept_cell(cells@, old_width as int, old_height as int, row as int, c, blank));
                    }
                }
            }
            col = col + 1;
        }
        assert(width * (row + 1) == width * row + width) by (nonlinear_arith);
        assert(width * (row + 1) <= width * height) by (nonlinear_arith)
            requires row + 1 <= height, 0 < width;
        row = row + 1;
    }
    out
}

/// `width * height` blank cells with the default attribute.
fn blank_cells(width: u16, height: u16) -> (r: (Vec<char>, Vec<u16>))
    requires
        0 < width <= MAX_SIDE,
        0 < height <= MAX_SIDE,
    ensures
        r.0@.len() == width * height,
        r.1@.len() == width * height,
        forall|j: int| 0 <= j < r.0@.len() ==> r.0@[j] == ' ' && r.1@[j] == DEFAULT_ATTRIBUTE,
{
    proof {
        lemma_area(width, height, Position { col: 0, row: 0 });
    }
    let total = (width as usize) * (height as usize);
    let mut chars: Vec<char> = Vec::new();
    let mut attrs: Vec<u16> = Vec::new();
    let mut k: usize = 0;
    while k < total
        invariant
            k <= total,
            total == width * height,
            chars@.len() == k,
            attrs@.len() == k,
            forall|j: int| 0 <= j < k ==> chars@[j] == ' ' && attrs@[j] == DEFAULT_ATTRIBUTE,
        decreases total - k,
    {
        chars.push(' ');
        attrs.push(DEFAULT_ATTRIBUTE);
        k = k + 1;
    }
    (chars, attrs)
}

} // verus!
