//! Window geometry: initial size, the aspect-preserving span of the plane that
//! the pixel grid shows, and the map from pixels to points of the plane, all in
//! exact fractions.
use vstd::prelude::*;

verus! {

pub const INITIAL_WIDTH: usize = 1000;

pub const INITIAL_HEIGHT: usize = 800;

/// Smallest horizontal span of the plane that a window shows, in tenths.
pub const MIN_X_RANGE_TENTHS: u64 = 42;

/// Vertical span of the plane that a window shows unless that would make the
/// horizontal span fall below its floor, in tenths.
pub const MIN_Y_RANGE_TENTHS: u64 = 36;

/// Numeric span of the plane mapped onto a pixel grid, as exact fractions over
/// one denominator: the horizontal span is `x_num / den`, the vertical one
/// `y_num / den`.
#[derive(Clone, Copy, Debug, PartialEq, Eq)]
pub struct Extent {
    pub x_num: u128,
    pub y_num: u128,
    pub den: u128,
}

impl Extent {
    /// `x_num / den == a / b`, for `b > 0`.
    pub open spec fn x_range_is(self, a: int, b: int) -> bool {
        self.x_num * b == a * self.den
    }

    /// `y_num / den == a / b`, for `b > 0`.
    pub open spec fn y_range_is(self, a: int, b: int) -> bool {
        self.y_num * b == a * self.den
    }

    /// Neither span falls below its floor: `x_range >= min_x / unit` and
    /// `y_range >= min_y / unit`.
    pub open spec fn reaches(self, min_x: int, min_y: int, unit: int) -> bool {
        &&& self.x_num * unit >= min_x * self.den
        &&& self.y_num * unit >= min_y * self.den
    }

    /// The span has the grid's aspect ratio: `x_range / y_range == width / height`.
    pub open spec fn has_aspect(self, width: int, height: int) -> bool {
        self.x_num * height == self.y_num * width
    }

    /// The span of a `width` x `height` grid under the aspect rule with floors
    /// `min_x / unit` and `min_y / unit`: it has the grid's aspect ratio, keeps
    /// the vertical span `min_y / unit` when the horizontal span that follows
    /// reaches its floor, and else has the horizontal span `min_x / unit`.
    pub open spec fn fits(self, min_x: int, min_y: int, unit: int, width: int, height: int) -> bool {
        &&& self.den > 0
        &&& self.has_aspect(width, height)
        &&& self.reaches(min_x, min_y, unit)
        &&& min_y * width >= min_x * height ==> self.y_range_is(min_y, unit)
        &&& min_y * width < min_x * height ==> self.x_range_is(min_x, unit)
    }
}

/// The span that a `width` x `height` grid shows when the vertical span is
/// `min_y / unit` and the horizontal one at least `min_x / unit`: the vertical
/// span is kept when the horizontal span that the aspect ratio gives reaches the
/// floor; otherwise the horizontal span is the floor and the vertical one
/// follows from the aspect ratio. `None` when a dimension or `unit` is zero.
pub fn fit_extent(min_x: u64, min_y: u64, unit: u64, width: usize, height: usize) -> (r: Option<
    Extent,
>)
    ensures
        r is None <==> (unit == 0 || width == 0 || height == 0),
        r matches Some(e) ==> {
            &&& e.fits(min_x as int, min_y as int, unit as int, width as int, height as int)
            &&& e.x_num <= (min_x + min_y) * width
            &&& e.y_num <= (min_x + min_y) * height
            &&& e.den <= unit * (width + height)
        },
{
    if unit == 0 || width == 0 || height == 0 {
        return None;
    }
    let (mx, my, u, w, h) = (min_x as u128, min_y as u128, unit as u128, width as u128, height as u128);
    assert(mx * w <= u128::MAX && my * w <= u128::MAX && mx * h <= u128::MAX && my * h
        <= u128::MAX && u * w <= u128::MAX && u * h <= u128::MAX) by (nonlinear_arith)
        requires
            mx < 0x1_0000_0000_0000_0000,
            my < 0x1_0000_0000_0000_0000,
            u < 0x1_0000_0000_0000_0000,
            w < 0x1_0000_0000_0000_0000,
            h < 0x1_0000_0000_0000_0000,
    ;
    if my * w >= mx * h {
        let e = Extent { x_num: my * w, y_num: my * h, den: u * h };
        assert(e.has_aspect(w as int, h as int) && e.y_range_is(my as int, u as int) && e.den > 0
            && e.reaches(mx as int, my as int, u as int)) by (nonlinear_arith)
            requires
                my * w >= mx * h,
                e.x_num == my * w,
                e.y_num == my * h,
                e.den == u * h,
                u > 0,
                h > 0,
        ;
        assert(e.x_num <= (mx + my) * w && e.y_num <= (mx + my) * h && e.den <= u * (w + h))
            by (nonlinear_arith)
            requires
                e.x_num == my * w,
                e.y_num == my * h,
                e.den == u * h,
                mx >= 0,
                w >= 0,
                u >= 0,
        ;
        Some(e)
    } else {
        let e = Extent { x_num: mx * w, y_num: mx * h, den: u * w };
        assert(e.has_aspect(w as int, h as int) && e.x_range_is(mx as int, u as int) && e.den > 0
            && e.reaches(mx as int, my as int, u as int)) by (nonlinear_arith)
            requires
                my * w < mx * h,
                e.x_num == mx * w,
                e.y_num == mx * h,
                e.den == u * w,
                u > 0,
                w > 0,
        ;
        assert(e.x_num <= (mx + my) * w && e.y_num <= (mx + my) * h && e.den <= u * (w + h))
            by (nonlinear_arith)
            requires
                e.x_num == mx * w,
                e.y_num == mx * h,
                e.den == u * w,
                my >= 0,
                h >= 0,
                u >= 0,
        ;
        Some(e)
    }
}

/// The span of the plane that a `width` x `height` window shows: 3.6 high,
/// unless the width would then fall below 4.2.
pub fn x_y_ranges(width: usize, height: usize) -> (r: Option<Extent>)
    ensures
        r is None <==> (width == 0 || height == 0),
        r matches Some(e) ==> {
            &&& e.fits(
                MIN_X_RANGE_TENTHS as int,
                MIN_Y_RANGE_TENTHS as int,
                10,
                width as int,
                height as int,
            )
            &&& e.x_num <= (MIN_X_RANGE_TENTHS + MIN_Y_RANGE_TENTHS) * width
            &&& e.y_num <= (MIN_X_RANGE_TENTHS + MIN_Y_RANGE_TENTHS) * height
            &&& e.den <= 10 * (width + height)
        },
{
    fit_extent(MIN_X_RANGE_TENTHS, MIN_Y_RANGE_TENTHS, 10, width, height)
}

/// Denominator of the vertical nudge of a Mandelbrot field with an odd number
/// of rows: its top edge is raised by `1 / VERTICAL_NUDGE_DEN`, so that no row
/// lies on the real axis.
pub const VERTICAL_NUDGE_DEN: u64 = 1000;

/// An exact coordinate of the plane, `num / den`.
#[derive(Clone, Copy, Debug, PartialEq, Eq)]
pub struct Fraction {
    pub num: i128,
    pub den: u128,
}

impl Fraction {
    /// The fraction is `a / b`, for `b > 0`.
    pub open spec fn equals(self, a: int, b: int) -> bool {
        self.den > 0 && self.num * b == a * self.den
    }
}

/// The affine map from a pixel grid onto the plane: pixel `(col, row)` stands
/// for the point `(col * x_step + x_min, row * y_step + y_max)`. Rows grow
/// downwards and the imaginary axis upwards, so `y_step` is not positive.
#[derive(Clone, Copy, Debug, PartialEq, Eq)]
pub struct Viewport {
    pub x_step: Fraction,
    pub x_min: Fraction,
    pub y_step: Fraction,
    pub y_max: Fraction,
}

impl Viewport {
    /// The map of a `width` x `height` grid onto `extent`, centered on the
    /// origin: the first and last column lie on the left and right edges of the
    /// span, the first and last row on its top and bottom edges. A dimension of
    /// a single pixel has step 0 on its axis. With `vertical_offset` the top
    /// edge is raised by `1 / VERTICAL_NUDGE_DEN`.
    pub open spec fn maps(self, extent: Extent, width: int, height: int, vertical_offset: bool) -> bool {
        &&& width > 1 ==> self.x_step.equals(extent.x_num as int, extent.den * (width - 1))
        &&& width <= 1 ==> self.x_step.equals(0, 1)
        &&& self.x_min.equals(-extent.x_num, 2 * extent.den)
        &&& height > 1 ==> self.y_step.equals(-extent.y_num, extent.den * (height - 1))
        &&& height <= 1 ==> self.y_step.equals(0, 1)
        &&& !vertical_offset ==> self.y_max.equals(extent.y_num as int, 2 * extent.den)
        &&& vertical_offset ==> self.y_max.equals(
            VERTICAL_NUDGE_DEN * extent.y_num + 2 * extent.den,
            2 * VERTICAL_NUDGE_DEN * extent.den,
        )
    }

    /// The map of a `width` x `height` grid onto the span that the aspect rule
    /// gives it (see `x_y_ranges`).
    pub open spec fn maps_window(self, width: int, height: int, vertical_offset: bool) -> bool {
        exists|e: Extent|
            e.fits(MIN_X_RANGE_TENTHS as int, MIN_Y_RANGE_TENTHS as int, 10, width, height)
                && #[trigger] self.maps(e, width, height, vertical_offset)
    }
}

/// The map of a `width` x `height` grid onto `extent`, centered on the
/// origin (see `Viewport::maps`).
pub fn viewport_of(extent: Extent, width: usize, height: usize, vertical_offset: bool) -> (v:
    Viewport)
    requires
        extent.den > 0,
        extent.x_num < 0x1_0000_0000_0000_0000,
        extent.y_num < 0x1_0000_0000_0000_0000,
        extent.den < 0x1_0000_0000_0000_0000,
        width <= u32::MAX,
        height <= u32::MAX,
    ensures
        v.maps(extent, width as int, height as int, vertical_offset),
{
    let (xn, yn, d) = (extent.x_num, extent.y_num, extent.den);
    let x_step = if width > 1 {
        assert(0 < d * (width - 1) < 0x1_0000_0000_0000_0000_0000_0000) by (nonlinear_arith)
            requires
                0 < d < 0x1_0000_0000_0000_0000,
                width <= u32::MAX,
                width > 1,
        ;
        Fraction { num: xn as i128, den: d * (width as u128 - 1) }
    } else {
        Fraction { num: 0, den: 1 }
    };
    let y_step = if height > 1 {
        assert(0 < d * (height - 1) < 0x1_0000_0000_0000_0000_0000_0000) by (nonlinear_arith)
            requires
                0 < d < 0x1_0000_0000_0000_0000,
                height <= u32::MAX,
                height > 1,
        ;
        Fraction { num: -(yn as i128), den: d * (height as u128 - 1) }
    } else {
        Fraction { num: 0, den: 1 }
    };
    let x_min = Fraction { num: -(xn as i128), den: 2 * d };
    let nudge = VERTICAL_NUDGE_DEN as u128;
    let y_max = if vertical_offset {
        assert(nudge * yn + 2 * d < 0x1_0000_0000_0000_0000_0000_0000 && 2 * nudge * d
            < 0x1_0000_0000_0000_0000_0000_0000) by (nonlinear_arith)
            requires
                nudge == 1000,
                yn < 0x1_0000_0000_0000_0000,
                d < 0x1_0000_0000_0000_0000,
        ;
        Fraction { num: (nudge * yn + 2 * d) as i128, den: 2 * nudge * d }
    } else {
        Fraction { num: yn as i128, den: 2 * d }
    };
    let v = Viewport { x_step, x_min, y_step, y_max };
    v
}

/// A Julia field's map of a `width` x `height` grid onto the span that the
/// aspect rule gives it (see `x_y_ranges`); `None` when a dimension is zero.
pub fn julia_viewport(width: usize, height: usize) -> (r: Option<Viewport>)
    requires
        width <= u32::MAX,
        height <= u32::MAX,
    ensures
        r is None <==> (width == 0 || height == 0),
        r matches Some(v) ==> v.maps_window(width as int, height as int, false),
{
    field_viewport(width, height, false)
}

/// A Mandelbrot field's map, as `julia_viewport`, but raised by the vertical
/// nudge when the number of rows is odd.
pub fn mandelbrot_viewport(width: usize, height: usize) -> (r: Option<Viewport>)
    requires
        width <= u32::MAX,
        height <= u32::MAX,
    ensures
        r is None <==> (width == 0 || height == 0),
        r matches Some(v) ==> v.maps_window(width as int, height as int, height % 2 == 1),
{
    field_viewport(width, height, height % 2 == 1)
}

fn field_viewport(width: usize, height: usize, vertical_offset: bool) -> (r: Option<Viewport>)
    requires
        width <= u32::MAX,
        height <= u32::MAX,
    ensures
        r is None <==> (width == 0 || height == 0),
        r matches Some(v) ==> v.maps_window(width as int, height as int, vertical_offset),
{
    match x_y_ranges(width, height) {
        Some(e) => {
            let v = viewport_of(e, width, height, vertical_offset);
            assert(v.maps_window(width as int, height as int, vertical_offset));
            Some(v)
        },
        None => None,
    }
}

} // verus!
