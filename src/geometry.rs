//! Plain geometric values: positions, viewport rectangles, buffer snapshots,
//! and the cell ranges that clearing a region covers.

use vstd::prelude::*;

verus! {

/// A cell of the buffer, 0-based.
#[derive(Clone, Copy, Debug, PartialEq, Eq, Structural)]
pub struct Position {
    pub col: u16,
    pub row: u16,
}

/// A viewport in buffer coordinates; both bounds are inclusive.
#[derive(Clone, Copy, Debug, PartialEq, Eq, Structural)]
pub struct Rect {
    pub left: i16,
    pub top: i16,
    pub right: i16,
    pub bottom: i16,
}

impl Rect {
    pub open spec fn wf(self) -> bool {
        self.left <= self.right && self.top <= self.bottom
    }

    /// The rectangle lies inside a buffer of `width` columns and `height` rows.
    pub open spec fn fits_in(self, width: int, height: int) -> bool {
        &&& self.wf()
        &&& 0 <= self.left
        &&& 0 <= self.top
        &&& self.right < width
        &&& self.bottom < height
    }
}

/// A snapshot of the full buffer size and of the visible part of it.
#[derive(Clone, Copy, Debug, PartialEq, Eq, Structural)]
pub struct BufferGeometry {
    pub width: u16,
    pub height: u16,
    pub viewport: Rect,
}

impl BufferGeometry {
    pub open spec fn wf(self) -> bool {
        &&& 0 < self.width
        &&& 0 < self.height
        &&& self.viewport.fits_in(self.width as int, self.height as int)
    }

    /// The cursor lies on a row of the buffer, at most one column past its end.
    pub open spec fn holds_cursor(self, pos: Position) -> bool {
        pos.col <= self.width && pos.row < self.height
    }
}

/// Which part of the screen a clear covers.
#[derive(Clone, Copy, Debug, PartialEq, Eq, Structural)]
pub enum ClearRegion {
    EntireScreen,
    FromCursorDown,
    FromCursorUp,
    CurrentLine,
    ToLineEnd,
}

/// Where a clear starts and how many cells, counted row-major, it covers.
#[derive(Clone, Copy, Debug, PartialEq, Eq, Structural)]
pub struct ClearSpan {
    pub start: Position,
    pub cells: u32,
}

/// The start and the cell count of a clear of `region`, with the cursor at `pos`.
pub open spec fn spec_clear_span(region: ClearRegion, width: nat, height: nat, pos: Position) -> (Position, nat) {
    match region {
        ClearRegion::EntireScreen => (Position { col: 0, row: 0 }, width * height),
        ClearRegion::FromCursorDown => (
            if pos.col >= width {
                Position { col: 0, row: (pos.row + 1) as u16 }
            } else {
                pos
            },
            width * height,
        ),
        ClearRegion::FromCursorUp => (Position { col: 0, row: 0 }, (width * pos.row + pos.col + 1) as nat),
        ClearRegion::CurrentLine => (Position { col: 0, row: pos.row }, width),
        ClearRegion::ToLineEnd => (pos, (width - pos.col) as nat),
    }
}

/// Where the cursor stands after a clear of `region`: clearing the whole
/// screen or a line moves it to the region's origin; the others leave it.
pub open spec fn spec_cursor_after_clear(region: ClearRegion, pos: Position) -> Position {
    match region {
        ClearRegion::EntireScreen => Position { col: 0, row: 0 },
        ClearRegion::CurrentLine => Position { col: 0, row: pos.row },
        _ => pos,
    }
}

proof fn lemma_cells_fit(width: u16, height: u16, row: u16, col: u16)
    requires
        row < height,
        col <= width,
    ensures
        (width as nat) * (height as nat) <= u32::MAX,
        (width as nat) * (row as nat) + col + 1 <= (width as nat) * (height as nat) + 1,
        (width as nat) * (height as nat) <= 65535 * 65535,
{
    assert((width as nat) * (height as nat) <= 65535 * 65535) by (nonlinear_arith)
        requires width <= 65535, height <= 65535;
    assert((width as nat) * (row as nat) + (width as nat) <= (width as nat) * (height as nat)) by (nonlinear_arith)
        requires row < height;
}

/// Computes the cell range that a clear of `region` covers in a buffer of
/// `geom`'s size, with the cursor at `pos`.
pub fn clear_span(region: ClearRegion, geom: BufferGeometry, pos: Position) -> (r: ClearSpan)
    requires
        geom.holds_cursor(pos),
    ensures
        (r.start, r.cells as nat) == spec_clear_span(region, geom.width as nat, geom.height as nat, pos),
{
    proof {
        lemma_cells_fit(geom.width, geom.height, pos.row, pos.col);
    }
    let w = geom.width as u32;
    let h = geom.height as u32;
    match region {
        ClearRegion::EntireScreen => ClearSpan { start: Position { col: 0, row: 0 }, cells: w * h },
        ClearRegion::FromCursorDown => {
            let start = if pos.col >= geom.width {
                Position { col: 0, row: pos.row + 1 }
            } else {
                pos
            };
            ClearSpan { start, cells: w * h }
        },
        ClearRegion::FromCursorUp => {
            let before = w * (pos.row as u32);
            ClearSpan { start: Position { col: 0, row: 0 }, cells: before + pos.col as u32 + 1 }
        },
        ClearRegion::CurrentLine => ClearSpan { start: Position { col: 0, row: pos.row }, cells: w },
        ClearRegion::ToLineEnd => ClearSpan { start: pos, cells: (geom.width - pos.col) as u32 },
    }
}

} // verus!
