//! Rect/Point math, 3x3 sector picking, resize math.
//!
//! The split of a rectangle into nine sectors depends on a fractional center
//! size; the fractional part (the width of the outer bands) is computed by the
//! adapter, and `pick_sector_in_bands` makes the integer decision from it.

use vstd::prelude::*;

verus! {

/// A point in virtual-screen pixels.
#[derive(Debug, Clone, Copy, PartialEq, Eq, Structural)]
pub struct Point {
    pub x: i32,
    pub y: i32,
}

impl Point {
    /// The origin.
    pub fn zero() -> (r: Point)
        ensures
            r.x == 0 && r.y == 0,
    {
        Point { x: 0, y: 0 }
    }

    /// Component-wise difference `self - other`.
    pub fn delta(self, other: Point) -> (r: Point)
        requires
            i32::MIN <= self.x - other.x <= i32::MAX,
            i32::MIN <= self.y - other.y <= i32::MAX,
        ensures
            r.x == self.x - other.x,
            r.y == self.y - other.y,
    {
        Point { x: self.x - other.x, y: self.y - other.y }
    }
}

/// Fits a mathematical integer in `i32`.
pub open spec fn fits_i32(v: int) -> bool {
    i32::MIN <= v <= i32::MAX
}

/// A rectangle given by its four edges; `left`/`top` inclusive,
/// `right`/`bottom` exclusive.
#[derive(Debug, Clone, Copy, PartialEq, Eq, Structural)]
pub struct Rect {
    pub left: i32,
    pub top: i32,
    pub right: i32,
    pub bottom: i32,
}

impl Rect {
    pub fn width(self) -> (r: i32)
        requires
            fits_i32(self.right - self.left),
        ensures
            r == self.right - self.left,
    {
        self.right - self.left
    }

    pub fn height(self) -> (r: i32)
        requires
            fits_i32(self.bottom - self.top),
        ensures
            r == self.bottom - self.top,
    {
        self.bottom - self.top
    }

    /// Whether translating by `d` stays within `i32`.
    pub open spec fn can_translate(self, d: Point) -> bool {
        &&& fits_i32(self.left + d.x)
        &&& fits_i32(self.top + d.y)
        &&& fits_i32(self.right + d.x)
        &&& fits_i32(self.bottom + d.y)
    }

    /// The rectangle shifted by `d`.
    pub open spec fn translated(self, d: Point) -> Rect {
        Rect {
            left: (self.left + d.x) as i32,
            top: (self.top + d.y) as i32,
            right: (self.right + d.x) as i32,
            bottom: (self.bottom + d.y) as i32,
        }
    }

    pub fn translate_by(self, d: Point) -> (r: Rect)
        requires
            self.can_translate(d),
        ensures
            r == self.translated(d),
    {
        Rect {
            left: self.left + d.x,
            top: self.top + d.y,
            right: self.right + d.x,
            bottom: self.bottom + d.y,
        }
    }

    /// Half-open containment: left/top inclusive, right/bottom exclusive.
    pub open spec fn spec_contains(self, p: Point) -> bool {
        self.left <= p.x < self.right && self.top <= p.y < self.bottom
    }

    pub fn contains(self, p: Point) -> (r: bool)
        ensures
            r == self.spec_contains(p),
    {
        p.x >= self.left && p.x < self.right && p.y >= self.top && p.y < self.bottom
    }

    pub fn center(self) -> (r: Point)
        requires
            fits_i32(self.left + self.right),
            fits_i32(self.top + self.bottom),
        ensures
            r.x as int == trunc_div2(self.left + self.right),
            r.y as int == trunc_div2(self.top + self.bottom),
    {
        Point { x: (self.left + self.right) / 2, y: (self.top + self.bottom) / 2 }
    }
}

/// Division by two rounding toward zero, as Rust's `/` does on integers.
pub open spec fn trunc_div2(v: int) -> int {
    if v >= 0 { v / 2 } else { -((-v) / 2) }
}

/// One of the nine cells of a rectangle's 3x3 grid.
#[derive(Debug, Clone, Copy, PartialEq, Eq, Structural)]
pub enum Sector {
    TopLeft,
    Top,
    TopRight,
    Left,
    Center,
    Right,
    BottomLeft,
    Bottom,
    BottomRight,
}

/// Which edges of a rectangle a resize drag moves.
#[derive(Debug, Clone, Copy, PartialEq, Eq, Structural)]
pub enum ResizeAnchor {
    TopLeft,
    Top,
    TopRight,
    Left,
    Right,
    BottomLeft,
    Bottom,
    BottomRight,
    CenterSymmetric,
}

/// Column (0, 1, 2) of a coordinate given the two band edges.
pub open spec fn band_index(v: int, low_edge: int, high_edge: int) -> int {
    if v < low_edge { 0 } else if v >= high_edge { 2 } else { 1 }
}

/// The sector for a row and a column, each in 0..=2.
pub open spec fn sector_of(row: int, col: int) -> Sector {
    if row == 0 {
        if col == 0 { Sector::TopLeft } else if col == 1 { Sector::Top } else { Sector::TopRight }
    } else if row == 1 {
        if col == 0 { Sector::Left } else if col == 1 { Sector::Center } else { Sector::Right }
    } else {
        if col == 0 {
            Sector::BottomLeft
        } else if col == 1 {
            Sector::Bottom
        } else {
            Sector::BottomRight
        }
    }
}

/// The sector of `cursor` in `rect` when the outer bands are `side_width`
/// wide (left and right) and `side_height` high (top and bottom).
/// Cursors outside the rectangle fall in the nearest sector.
pub open spec fn sector_in_bands(rect: Rect, cursor: Point, side_width: int, side_height: int) -> Sector {
    sector_of(
        band_index(cursor.y as int, rect.top + side_height, rect.bottom - side_height),
        band_index(cursor.x as int, rect.left + side_width, rect.right - side_width),
    )
}

/// Classify `cursor` into one of the nine sectors of `rect`, given the widths
/// of the outer bands. The column is 0 left of `left + side_width`, 2 at or
/// right of `right - side_width`, else 1; rows likewise.
pub fn pick_sector_in_bands(rect: Rect, cursor: Point, side_width: i32, side_height: i32) -> (s: Sector)
    requires
        fits_i32(rect.left + side_width),
        fits_i32(rect.right - side_width),
        fits_i32(rect.top + side_height),
        fits_i32(rect.bottom - side_height),
    ensures
        s == sector_in_bands(rect, cursor, side_width as int, side_height as int),
{
    let left_edge = rect.left + side_width;
    let right_edge = rect.right - side_width;
    let top_edge = rect.top + side_height;
    let bottom_edge = rect.bottom - side_height;

    let col: u8 = if cursor.x < left_edge {
        0
    } else if cursor.x >= right_edge {
        2
    } else {
        1
    };
    let row: u8 = if cursor.y < top_edge {
        0
    } else if cursor.y >= bottom_edge {
        2
    } else {
        1
    };

    if row == 0 {
        if col == 0 {
            Sector::TopLeft
        } else if col == 1 {
            Sector::Top
        } else {
            Sector::TopRight
        }
    } else if row == 1 {
        if col == 0 {
            Sector::Left
        } else if col == 1 {
            Sector::Center
        } else {
            Sector::Right
        }
    } else {
        if col == 0 {
            Sector::BottomLeft
        } else if col == 1 {
            Sector::Bottom
        } else {
            Sector::BottomRight
        }
    }
}

/// The rectangle after a resize drag of `d` from `anchor`.
pub open spec fn resized(r: Rect, anchor: ResizeAnchor, d: Point) -> Rect {
    let dx = d.x as int;
    let dy = d.y as int;
    match anchor {
        ResizeAnchor::TopLeft => Rect { left: (r.left + dx) as i32, top: (r.top + dy) as i32, ..r },
        ResizeAnchor::Top => Rect { top: (r.top + dy) as i32, ..r },
        ResizeAnchor::TopRight => Rect { right: (r.right + dx) as i32, top: (r.top + dy) as i32, ..r },
        ResizeAnchor::Left => Rect { left: (r.left + dx) as i32, ..r },
        ResizeAnchor::Right => Rect { right: (r.right + dx) as i32, ..r },
        ResizeAnchor::BottomLeft => Rect {
            left: (r.left + dx) as i32,
            bottom: (r.bottom + dy) as i32,
            ..r
        },
        ResizeAnchor::Bottom => Rect { bottom: (r.bottom + dy) as i32, ..r },
        ResizeAnchor::BottomRight => Rect {
            right: (r.right + dx) as i32,
            bottom: (r.bottom + dy) as i32,
            ..r
        },
        ResizeAnchor::CenterSymmetric => Rect {
            left: (r.left - dx) as i32,
            top: (r.top - dy) as i32,
            right: (r.right + dx) as i32,
            bottom: (r.bottom + dy) as i32,
        },
    }
}

/// Whether resizing `r` from `anchor` by `d` stays within `i32`.
pub open spec fn can_resize(r: Rect, anchor: ResizeAnchor, d: Point) -> bool {
    let dx = d.x as int;
    let dy = d.y as int;
    match anchor {
        ResizeAnchor::TopLeft => fits_i32(r.left + dx) && fits_i32(r.top + dy),
        ResizeAnchor::Top => fits_i32(r.top + dy),
        ResizeAnchor::TopRight => fits_i32(r.right + dx) && fits_i32(r.top + dy),
        ResizeAnchor::Left => fits_i32(r.left + dx),
        ResizeAnchor::Right => fits_i32(r.right + dx),
        ResizeAnchor::BottomLeft => fits_i32(r.left + dx) && fits_i32(r.bottom + dy),
        ResizeAnchor::Bottom => fits_i32(r.bottom + dy),
        ResizeAnchor::BottomRight => fits_i32(r.right + dx) && fits_i32(r.bottom + dy),
        ResizeAnchor::CenterSymmetric => {
            &&& fits_i32(r.left - dx)
            &&& fits_i32(r.top - dy)
            &&& fits_i32(r.right + dx)
            &&& fits_i32(r.bottom + dy)
        },
    }
}

/// Resize `r` by the cursor delta `d`: the edges named by `anchor` follow the
/// cursor; `CenterSymmetric` moves each pair of opposite edges by `±d`, so the
/// window's center stays fixed.
pub fn apply_resize(r: Rect, anchor: ResizeAnchor, d: Point) -> (out: Rect)
    requires
        can_resize(r, anchor, d),
    ensures
        out == resized(r, anchor, d),
{
    match anchor {
        ResizeAnchor::TopLeft => Rect { left: r.left + d.x, top: r.top + d.y, ..r },
        ResizeAnchor::Top => Rect { top: r.top + d.y, ..r },
        ResizeAnchor::TopRight => Rect { right: r.right + d.x, top: r.top + d.y, ..r },
        ResizeAnchor::Left => Rect { left: r.left + d.x, ..r },
        ResizeAnchor::Right => Rect { right: r.right + d.x, ..r },
        ResizeAnchor::BottomLeft => Rect { left: r.left + d.x, bottom: r.bottom + d.y, ..r },
        ResizeAnchor::Bottom => Rect { bottom: r.bottom + d.y, ..r },
        ResizeAnchor::BottomRight => Rect { right: r.right + d.x, bottom: r.bottom + d.y, ..r },
        ResizeAnchor::CenterSymmetric => Rect {
            left: r.left - d.x,
            top: r.top - d.y,
            right: r.right + d.x,
            bottom: r.bottom + d.y,
        },
    }
}

/// Translating a rectangle keeps its width and height, and translating by
/// the opposite offset (when it fits in `i32`) gives the rectangle back.
pub proof fn lemma_translate_keeps_size(r: Rect, d: Point)
    requires
        r.can_translate(d),
    ensures
        r.translated(d).right - r.translated(d).left == r.right - r.left,
        r.translated(d).bottom - r.translated(d).top == r.bottom - r.top,
        d.x != i32::MIN && d.y != i32::MIN ==> r.translated(d).can_translate(Point { x: -d.x as i32, y: -d.y as i32 }),
        d.x != i32::MIN && d.y != i32::MIN ==> r.translated(d).translated(Point { x: -d.x as i32, y: -d.y as i32 }) == r,
{
}

/// A center-symmetric resize keeps the window's center fixed: the sums
/// `left + right` and `top + bottom` do not change.
pub proof fn lemma_center_symmetric_keeps_center(r: Rect, d: Point)
    requires
        can_resize(r, ResizeAnchor::CenterSymmetric, d),
    ensures
        resized(r, ResizeAnchor::CenterSymmetric, d).left + resized(r, ResizeAnchor::CenterSymmetric, d).right
            == r.left + r.right,
        resized(r, ResizeAnchor::CenterSymmetric, d).top + resized(r, ResizeAnchor::CenterSymmetric, d).bottom
            == r.top + r.bottom,
{
}

/// A resize leaves the edges opposite to the grabbed ones in place: the
/// right/bottom edges for the top-left anchor, the left/top edges for the
/// bottom-right anchor, and every edge but the one named for a side anchor.
pub proof fn lemma_resize_fixes_opposite_edges(r: Rect, anchor: ResizeAnchor, d: Point)
    requires
        can_resize(r, anchor, d),
    ensures
        anchor == ResizeAnchor::TopLeft ==> resized(r, anchor, d).right == r.right
            && resized(r, anchor, d).bottom == r.bottom,
        anchor == ResizeAnchor::BottomRight ==> resized(r, anchor, d).left == r.left
            && resized(r, anchor, d).top == r.top,
        anchor == ResizeAnchor::Left ==> resized(r, anchor, d) == (Rect { left: (r.left + d.x) as i32, ..r }),
        anchor == ResizeAnchor::Right ==> resized(r, anchor, d) == (Rect { right: (r.right + d.x) as i32, ..r }),
        anchor == ResizeAnchor::Top ==> resized(r, anchor, d) == (Rect { top: (r.top + d.y) as i32, ..r }),
        anchor == ResizeAnchor::Bottom ==> resized(r, anchor, d) == (Rect { bottom: (r.bottom + d.y) as i32, ..r }),
{
}

/// A cursor inside the central band of both axes picks `Center`; one left of
/// the left band edge and above the top band edge picks `TopLeft`.
pub proof fn lemma_sector_bands(rect: Rect, cursor: Point, side_width: int, side_height: int)
    ensures
        rect.left + side_width <= cursor.x < rect.right - side_width
            && rect.top + side_height <= cursor.y < rect.bottom - side_height
            ==> sector_in_bands(rect, cursor, side_width, side_height) == Sector::Center,
        cursor.x < rect.left + side_width && cursor.y < rect.top + side_height
            ==> sector_in_bands(rect, cursor, side_width, side_height) == Sector::TopLeft,
        cursor.x >= rect.right - side_width && cursor.y >= rect.bottom - side_height
            && rect.left + side_width <= rect.right - side_width
            && rect.top + side_height <= rect.bottom - side_height
            ==> sector_in_bands(rect, cursor, side_width, side_height) == Sector::BottomRight,
{
}

} // verus!
