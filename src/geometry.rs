use vstd::prelude::*;

verus! {

/// A position in logical pixels.
#[derive(Clone, Copy, Debug, PartialEq, Eq, Structural)]
pub struct Point {
    pub x: i32,
    pub y: i32,
}

/// A width and a height in logical pixels.
#[derive(Clone, Copy, Debug, PartialEq, Eq, Structural)]
pub struct Size {
    pub w: i32,
    pub h: i32,
}

/// An axis-aligned rectangle: its top-left corner and its size.
#[derive(Clone, Copy, Debug, PartialEq, Eq, Structural)]
pub struct Rect {
    pub loc: Point,
    pub size: Size,
}

/// Number of sub-pixel steps in one logical pixel (the resolution of the
/// protocol's fixed-point numbers).
pub const SUBPIXEL: i64 = 256;

/// A pointer position in sub-pixel units (`SUBPIXEL` of them per logical pixel).
#[derive(Clone, Copy, Debug, PartialEq, Eq, Structural)]
pub struct Position {
    pub x: i64,
    pub y: i64,
}

/// Bound on sub-pixel coordinates, chosen so that sums of a position and a
/// motion delta never overflow.
pub const POS_LIMIT: i64 = 0x1000_0000_0000;

impl Size {
    pub open spec fn wf(self) -> bool {
        self.w >= 0 && self.h >= 0
    }
}

impl Rect {
    pub open spec fn wf(self) -> bool {
        self.size.wf()
    }

    pub open spec fn right(self) -> int {
        self.loc.x + self.size.w
    }

    pub open spec fn bottom(self) -> int {
        self.loc.y + self.size.h
    }

    /// Whether the pixel `p` lies inside the rectangle.
    pub open spec fn contains_spec(self, p: Point) -> bool {
        self.loc.x <= p.x < self.right() && self.loc.y <= p.y < self.bottom()
    }

    /// Whether the sub-pixel position `p` lies inside the rectangle.
    pub open spec fn contains_pos_spec(self, p: Position) -> bool {
        self.loc.x * SUBPIXEL <= p.x < self.right() * SUBPIXEL && self.loc.y * SUBPIXEL <= p.y
            < self.bottom() * SUBPIXEL
    }

    /// The overlap of two rectangles, or `None` where it has no area.
    pub open spec fn intersection_spec(self, o: Rect) -> Option<Rect> {
        let x0 = max_int(self.loc.x as int, o.loc.x as int);
        let y0 = max_int(self.loc.y as int, o.loc.y as int);
        let x1 = min_int(self.right(), o.right());
        let y1 = min_int(self.bottom(), o.bottom());
        if x0 < x1 && y0 < y1 {
            Some(
                Rect {
                    loc: Point { x: x0 as i32, y: y0 as i32 },
                    size: Size { w: (x1 - x0) as i32, h: (y1 - y0) as i32 },
                },
            )
        } else {
            None
        }
    }

    pub fn from_size(size: Size) -> (r: Rect)
        ensures
            r == (Rect { loc: Point { x: 0, y: 0 }, size }),
    {
        Rect { loc: Point { x: 0, y: 0 }, size }
    }

    pub fn contains(&self, p: Point) -> (r: bool)
        ensures
            r == self.contains_spec(p),
    {
        let right = self.loc.x as i64 + self.size.w as i64;
        let bottom = self.loc.y as i64 + self.size.h as i64;
        self.loc.x <= p.x && (p.x as i64) < right && self.loc.y <= p.y && (p.y as i64) < bottom
    }

    pub fn contains_pos(&self, p: Position) -> (r: bool)
        ensures
            r == self.contains_pos_spec(p),
    {
        let x0 = self.loc.x as i64 * SUBPIXEL;
        let y0 = self.loc.y as i64 * SUBPIXEL;
        let x1 = (self.loc.x as i64 + self.size.w as i64) * SUBPIXEL;
        let y1 = (self.loc.y as i64 + self.size.h as i64) * SUBPIXEL;
        x0 <= p.x && p.x < x1 && y0 <= p.y && p.y < y1
    }

    pub fn intersection(&self, o: &Rect) -> (r: Option<Rect>)
        requires
            self.wf(),
            o.wf(),
        ensures
            r == self.intersection_spec(*o),
            r matches Some(i) ==> i.wf() && i.size.w <= self.size.w && i.size.h <= self.size.h,
    {
        let x0: i64 = if self.loc.x >= o.loc.x { self.loc.x as i64 } else { o.loc.x as i64 };
        let y0: i64 = if self.loc.y >= o.loc.y { self.loc.y as i64 } else { o.loc.y as i64 };
        let r0 = self.loc.x as i64 + self.size.w as i64;
        let r1 = o.loc.x as i64 + o.size.w as i64;
        let b0 = self.loc.y as i64 + self.size.h as i64;
        let b1 = o.loc.y as i64 + o.size.h as i64;
        let x1: i64 = if r0 <= r1 { r0 } else { r1 };
        let y1: i64 = if b0 <= b1 { b0 } else { b1 };
        if x0 < x1 && y0 < y1 {
            Some(
                Rect {
                    loc: Point { x: x0 as i32, y: y0 as i32 },
                    size: Size { w: (x1 - x0) as i32, h: (y1 - y0) as i32 },
                },
            )
        } else {
            None
        }
    }
}

pub open spec fn max_int(a: int, b: int) -> int {
    if a >= b { a } else { b }
}

pub open spec fn min_int(a: int, b: int) -> int {
    if a <= b { a } else { b }
}

/// Half of `outer - inner`, rounded toward zero.
pub open spec fn center_coord(outer: int, inner: int) -> int {
    if outer >= inner {
        (outer - inner) / 2
    } else {
        -((inner - outer) / 2)
    }
}

/// The place of a window of size `inner` centered on an output of size `outer`.
pub open spec fn centered_spec(outer: Size, inner: Size) -> Point {
    Point { x: center_coord(outer.w as int, inner.w as int) as i32, y: center_coord(outer.h as int, inner.h as int) as i32 }
}

fn center_axis(outer: i32, inner: i32) -> (r: i32)
    requires
        outer >= 0,
        inner >= 0,
    ensures
        r == center_coord(outer as int, inner as int),
{
    if outer >= inner {
        (outer - inner) / 2
    } else {
        -((inner - outer) / 2)
    }
}

/// Places a window of size `inner` at the center of an output of size `outer`:
/// `((W - w) / 2, (H - h) / 2)`, each half rounded toward zero.
pub fn centered(outer: Size, inner: Size) -> (r: Point)
    requires
        outer.wf(),
        inner.wf(),
    ensures
        r == centered_spec(outer, inner),
{
    Point { x: center_axis(outer.w, inner.w), y: center_axis(outer.h, inner.h) }
}

/// The size of the overlap of two rectangles anchored at the origin: the
/// component-wise minimum of the two sizes.
pub open spec fn fit_size_spec(max: Size, outer: Size) -> Size {
    Size { w: min_int(max.w as int, outer.w as int) as i32, h: min_int(max.h as int, outer.h as int) as i32 }
}

pub fn fit_size(max: Size, outer: Size) -> (r: Size)
    ensures
        r == fit_size_spec(max, outer),
{
    Size { w: if max.w <= outer.w { max.w } else { outer.w }, h: if max.h <= outer.h { max.h } else { outer.h } }
}

/// `v` sub-pixel units rounded to the nearest pixel, halves away from zero.
pub open spec fn round_subpixel(v: int) -> int {
    if v >= 0 {
        (v + SUBPIXEL as int / 2) / SUBPIXEL as int
    } else {
        -((-v + SUBPIXEL as int / 2) / SUBPIXEL as int)
    }
}

pub open spec fn pos_wf(p: Position) -> bool {
    -POS_LIMIT <= p.x <= POS_LIMIT && -POS_LIMIT <= p.y <= POS_LIMIT
}

fn round_axis(v: i64) -> (r: i64)
    requires
        -POS_LIMIT <= v <= POS_LIMIT,
    ensures
        r == round_subpixel(v as int),
{
    if v >= 0 {
        (v + SUBPIXEL / 2) / SUBPIXEL
    } else {
        -((-v + SUBPIXEL / 2) / SUBPIXEL)
    }
}

/// The pixel nearest to a sub-pixel position, relative to `origin`.
pub open spec fn pixel_relative_spec(p: Position, origin: Point) -> Point {
    Point { x: (round_subpixel(p.x as int) - origin.x) as i32, y: (round_subpixel(p.y as int) - origin.y) as i32 }
}

pub open spec fn pixel_relative_fits(p: Position, origin: Point) -> bool {
    i32::MIN <= round_subpixel(p.x as int) - origin.x <= i32::MAX && i32::MIN <= round_subpixel(
        p.y as int,
    ) - origin.y <= i32::MAX
}

/// Rounds `p` to whole pixels and subtracts `origin`, or `None` where the result
/// does not fit in a pixel coordinate.
pub fn pixel_relative(p: Position, origin: Point) -> (r: Option<Point>)
    requires
        pos_wf(p),
    ensures
        r == (if pixel_relative_fits(p, origin) {
            Some(pixel_relative_spec(p, origin))
        } else {
            None
        }),
{
    let x = round_axis(p.x) - origin.x as i64;
    let y = round_axis(p.y) - origin.y as i64;
    if i32::MIN as i64 <= x && x <= i32::MAX as i64 && i32::MIN as i64 <= y && y <= i32::MAX as i64 {
        Some(Point { x: x as i32, y: y as i32 })
    } else {
        None
    }
}

} // verus!
