//! Immutable millimetre/pixel transforms built on one calibration snapshot.
use vstd::prelude::*;

verus! {

/// US Letter page width, in micrometres (215.9 mm).
pub const US_LETTER_WIDTH_UM: i64 = 215_900;

/// US Letter page height, in micrometres (279.4 mm).
pub const US_LETTER_HEIGHT_UM: i64 = 279_400;

/// Largest scale factor a calibration may carry, in micropixels per millimetre (20 px/mm).
pub const MAX_SCALE_FACTOR: u64 = 20_000_000;

/// Largest magnitude of a length that can be converted to pixels, in micrometres (100 km).
pub const MAX_ABS_LENGTH_UM: i64 = 100_000_000_000;

/// Full confidence, in parts per million.
pub const CONFIDENCE_ONE: u64 = 1_000_000;

/// A point on the page, in micrometres from the top-left corner.
#[derive(Debug, Clone, Copy, PartialEq, Eq, Structural)]
pub struct PhysicalCoord {
    pub x: i64,
    pub y: i64,
}

/// A point on the screen, in nanopixels from the top-left corner of the viewport.
#[derive(Debug, Clone, Copy, PartialEq, Eq, Structural)]
pub struct ScreenCoord {
    pub x: i64,
    pub y: i64,
}

impl PhysicalCoord {
    /// Both axes are small enough to be converted to pixels.
    pub open spec fn in_range(self) -> bool {
        -MAX_ABS_LENGTH_UM <= self.x <= MAX_ABS_LENGTH_UM && -MAX_ABS_LENGTH_UM <= self.y
            <= MAX_ABS_LENGTH_UM
    }
}

/// One completed calibration of a display.
#[derive(Debug, Clone, Copy, PartialEq, Eq, Structural)]
pub struct DeviceCalibration {
    /// Micropixels per millimetre.
    pub scale_factor: u64,
    /// Parts per million.
    pub confidence: u64,
    /// Milliseconds since the Unix epoch.
    pub timestamp: u64,
    /// Device pixels per CSS pixel, in thousandths.
    pub device_pixel_ratio: u64,
    /// CSS pixels.
    pub viewport_width: u64,
    /// CSS pixels.
    pub viewport_height: u64,
}

impl DeviceCalibration {
    /// Every field lies in the range a completed calibration can produce.
    pub open spec fn wf(self) -> bool {
        &&& 0 < self.scale_factor <= MAX_SCALE_FACTOR
        &&& self.confidence <= CONFIDENCE_ONE
        &&& self.device_pixel_ratio > 0
        &&& self.viewport_width > 0
        &&& self.viewport_height > 0
    }

    pub fn is_valid(&self) -> (r: bool)
        ensures
            r == self.wf(),
    {
        0 < self.scale_factor && self.scale_factor <= MAX_SCALE_FACTOR && self.confidence
            <= CONFIDENCE_ONE && self.device_pixel_ratio > 0 && self.viewport_width > 0
            && self.viewport_height > 0
    }
}

impl Default for DeviceCalibration {
    /// The 96 DPI assumption on a 1920x1080 viewport, at half confidence.
    fn default() -> (r: Self)
        ensures
            r.scale_factor == 3_779_528,
            r.confidence == 500_000,
            r.timestamp == 0,
            r.device_pixel_ratio == 1_000,
            r.viewport_width == 1920,
            r.viewport_height == 1080,
            r.wf(),
    {
        DeviceCalibration {
            scale_factor: 3_779_528,
            confidence: 500_000,
            timestamp: 0,
            device_pixel_ratio: 1_000,
            viewport_width: 1920,
            viewport_height: 1080,
        }
    }
}

/// Pixels for a length: exact, since the units multiply to nanopixels.
pub open spec fn mm_to_px_spec(scale: int, mm: int) -> int {
    mm * scale
}

/// Micrometres for a pixel length, rounded down.
pub open spec fn px_to_mm_spec(scale: int, px: int) -> int {
    px / scale
}

/// The multiple of `grid` nearest to `v`; a tie goes away from zero.
pub open spec fn nearest_multiple(v: int, grid: int) -> int {
    let r = v % grid;
    if 2 * r < grid {
        v - r
    } else if 2 * r > grid {
        v - r + grid
    } else if v >= 0 {
        v - r + grid
    } else {
        v - r
    }
}

pub open spec fn abs_diff(a: int, b: int) -> int {
    if a >= b {
        a - b
    } else {
        b - a
    }
}

/// What snapping `c` gives: both axes snapped, or `c` itself.
pub open spec fn snap_spec(c: PhysicalCoord, grid: int, tolerance: int) -> PhysicalCoord {
    if grid <= 0 {
        c
    } else {
        let sx = nearest_multiple(c.x as int, grid);
        let sy = nearest_multiple(c.y as int, grid);
        if abs_diff(c.x as int, sx) <= tolerance && abs_diff(c.y as int, sy) <= tolerance {
            PhysicalCoord { x: sx as i64, y: sy as i64 }
        } else {
            c
        }
    }
}

pub open spec fn within_page(c: PhysicalCoord) -> bool {
    0 <= c.x <= US_LETTER_WIDTH_UM && 0 <= c.y <= US_LETTER_HEIGHT_UM
}

/// `a / d` rounded toward negative infinity.
pub fn floor_div(a: i64, d: u64) -> (q: i64)
    requires
        d > 0,
    ensures
        q == a as int / d as int,
{
    let dd = d as i128;
    let aa = a as i128;
    if aa >= 0 {
        let q = aa / dd;
        assert(q == a as int / d as int);
        assert(q <= aa) by (nonlinear_arith)
            requires
                q == aa / dd,
                aa >= 0,
                dd > 0,
        ;
        q as i64
    } else {
        let n = -aa;
        let t = (n + dd - 1) / dd;
        assert(-t == aa as int / dd as int && 0 <= t <= n) by (nonlinear_arith)
            requires
                t == (n + dd - 1) as int / dd as int,
                n == -aa,
                n > 0,
                dd > 0,
        {
            let qq = aa as int / dd as int;
            let rr = aa as int % dd as int;
            assert(aa == qq * dd + rr && 0 <= rr < dd);
        };
        (-t) as i64
    }
}

/// Millimetre/pixel transforms over one calibration.
#[derive(Debug, Clone, Copy)]
pub struct CoordinateSystem {
    calibration: DeviceCalibration,
}

impl View for CoordinateSystem {
    type V = DeviceCalibration;

    closed spec fn view(&self) -> DeviceCalibration {
        self.calibration
    }
}

impl CoordinateSystem {
    #[verifier::type_invariant]
    spec fn inv(self) -> bool {
        self.calibration.wf()
    }

    pub fn new(calibration: DeviceCalibration) -> (r: Self)
        requires
            calibration.wf(),
        ensures
            r@ == calibration,
    {
        CoordinateSystem { calibration }
    }

    pub fn get_calibration(&self) -> (r: &DeviceCalibration)
        ensures
            *r == self@,
            r.wf(),
    {
        proof {
            use_type_invariant(self);
        }
        &self.calibration
    }

    /// Nanopixels spanned by `mm` micrometres.
    pub fn mm_to_px(&self, mm: i64) -> (r: i64)
        requires
            -MAX_ABS_LENGTH_UM <= mm <= MAX_ABS_LENGTH_UM,
        ensures
            r == mm_to_px_spec(self@.scale_factor as int, mm as int),
    {
        proof {
            use_type_invariant(self);
        }
        let s = self.calibration.scale_factor as i64;
        assert(-2_000_000_000_000_000_000 <= mm * s <= 2_000_000_000_000_000_000) by (nonlinear_arith)
            requires
                -MAX_ABS_LENGTH_UM <= mm <= MAX_ABS_LENGTH_UM,
                0 < s <= MAX_SCALE_FACTOR,
        ;
        mm * s
    }

    /// Micrometres spanned by `px` nanopixels, rounded down.
    pub fn px_to_mm(&self, px: i64) -> (r: i64)
        ensures
            r == px_to_mm_spec(self@.scale_factor as int, px as int),
    {
        proof {
            use_type_invariant(self);
        }
        floor_div(px, self.calibration.scale_factor)
    }

    pub fn physical_to_screen(&self, coord: PhysicalCoord) -> (r: ScreenCoord)
        requires
            coord.in_range(),
        ensures
            r.x == mm_to_px_spec(self@.scale_factor as int, coord.x as int),
            r.y == mm_to_px_spec(self@.scale_factor as int, coord.y as int),
    {
        ScreenCoord { x: self.mm_to_px(coord.x), y: self.mm_to_px(coord.y) }
    }

    /// Whether `coord` lies on the US Letter page, edges included.
    pub fn validate_physical_bounds(&self, coord: PhysicalCoord) -> (r: bool)
        ensures
            r == within_page(coord),
    {
        coord.x >= 0 && coord.x <= US_LETTER_WIDTH_UM && coord.y >= 0 && coord.y
            <= US_LETTER_HEIGHT_UM
    }

    /// Snaps both axes to the nearest multiple of `grid_size_um` when both lie within
    /// `tolerance_um` of it; otherwise, or for a grid size that is not positive,
    /// returns `coord` unchanged.
    pub fn snap_to_grid(&self, coord: PhysicalCoord, grid_size_um: i64, tolerance_um: i64) -> (r:
        PhysicalCoord)
        requires
            coord.in_range(),
        ensures
            r == snap_spec(coord, grid_size_um as int, tolerance_um as int),
    {
        if grid_size_um <= 0 {
            return coord;
        }
        let sx = nearest_grid_point(coord.x, grid_size_um);
        let sy = nearest_grid_point(coord.y, grid_size_um);
        let dx = if sx >= coord.x as i128 {
            sx - coord.x as i128
        } else {
            coord.x as i128 - sx
        };
        let dy = if sy >= coord.y as i128 {
            sy - coord.y as i128
        } else {
            coord.y as i128 - sy
        };
        if dx <= tolerance_um as i128 && dy <= tolerance_um as i128 {
            PhysicalCoord { x: sx as i64, y: sy as i64 }
        } else {
            coord
        }
    }
}

/// `v mod grid`, in `[0, grid)`.
fn euclid_rem(v: i64, grid: i64) -> (r: i128)
    requires
        grid > 0,
    ensures
        r == v as int % grid as int,
        0 <= r < grid,
{
    let g = grid as i128;
    let vv = v as i128;
    if vv >= 0 {
        vv % g
    } else {
        let m = (-vv) % g;
        proof {
            let q = (-vv) as int / g as int;
            vstd::arithmetic::div_mod::lemma_fundamental_div_mod(-vv as int, g as int);
            vstd::arithmetic::mul::lemma_mul_unary_negation(q, g as int);
            vstd::arithmetic::mul::lemma_mul_unary_negation(q + 1, g as int);
            vstd::arithmetic::mul::lemma_mul_is_distributive_add_other_way(g as int, q, 1);
            if m == 0 {
                vstd::arithmetic::div_mod::lemma_fundamental_div_mod_converse(
                    vv as int,
                    g as int,
                    -q,
                    0,
                );
            } else {
                vstd::arithmetic::div_mod::lemma_fundamental_div_mod_converse(
                    vv as int,
                    g as int,
                    -(q + 1),
                    g - m,
                );
            }
        }
        if m == 0 {
            0
        } else {
            g - m
        }
    }
}

/// The nearest multiple of `grid` to `v`, ties away from zero.
fn nearest_grid_point(v: i64, grid: i64) -> (r: i128)
    requires
        grid > 0,
        -MAX_ABS_LENGTH_UM <= v <= MAX_ABS_LENGTH_UM,
    ensures
        r == nearest_multiple(v as int, grid as int),
        i64::MIN <= r <= i64::MAX,
{
    let rem = euclid_rem(v, grid);
    let g = grid as i128;
    let base = v as i128 - rem;
    if 2 * rem < g {
        base
    } else if 2 * rem > g {
        base + g
    } else if v >= 0 {
        base + g
    } else {
        base
    }
}

/// A pixel length converted back to millimetres gives the length that was converted,
/// exactly, for every length and every valid calibration.
pub proof fn lemma_px_mm_round_trip(calibration: DeviceCalibration, x: int)
    requires
        calibration.wf(),
    ensures
        px_to_mm_spec(
            calibration.scale_factor as int,
            mm_to_px_spec(calibration.scale_factor as int, x),
        ) == x,
{
    let s = calibration.scale_factor as int;
    vstd::arithmetic::div_mod::lemma_div_multiples_vanish(x, s);
    vstd::arithmetic::mul::lemma_mul_is_commutative(x, s);
}

/// `nearest_multiple(v, grid)` is a multiple of `grid`, and no multiple of `grid` lies
/// closer to `v`.
pub proof fn lemma_nearest_multiple(v: int, grid: int)
    requires
        grid > 0,
    ensures
        nearest_multiple(v, grid) % grid == 0,
        forall|k: int|
            abs_diff(v, nearest_multiple(v, grid)) <= #[trigger] abs_diff(v, k * grid),
{
    let q = v / grid;
    let r = v % grid;
    assert(v == q * grid + r && 0 <= r < grid) by {
        vstd::arithmetic::div_mod::lemma_fundamental_div_mod(v, grid);
    }
    let n = nearest_multiple(v, grid);
    assert(v - r == q * grid);
    assert(v - r + grid == (q + 1) * grid) by (nonlinear_arith)
        requires
            v - r == q * grid,
    ;
    vstd::arithmetic::div_mod::lemma_mod_multiples_basic(q, grid);
    vstd::arithmetic::div_mod::lemma_mod_multiples_basic(q + 1, grid);
    assert forall|k: int| abs_diff(v, n) <= #[trigger] abs_diff(v, k * grid) by {
        if k <= q {
            assert((q - k) * grid >= 0) by (nonlinear_arith)
                requires
                    k <= q,
                    grid > 0,
            ;
            assert(v - k * grid == (q - k) * grid + r) by (nonlinear_arith)
                requires
                    v == q * grid + r,
            ;
        } else {
            assert((k - q - 1) * grid >= 0) by (nonlinear_arith)
                requires
                    k > q,
                    grid > 0,
            ;
            assert(k * grid - v == (k - q - 1) * grid + (grid - r)) by (nonlinear_arith)
                requires
                    v == q * grid + r,
            ;
        }
    }
}

/// Snapping is all or nothing: when both axes lie within the tolerance of their
/// nearest grid multiples the result is that grid point, and otherwise it is the
/// input unchanged.
pub proof fn lemma_snap_all_or_nothing(c: PhysicalCoord, grid: i64, tolerance: i64)
    requires
        grid > 0,
        c.in_range(),
    ensures
        ({
            let nx = nearest_multiple(c.x as int, grid as int);
            let ny = nearest_multiple(c.y as int, grid as int);
            let r = snap_spec(c, grid as int, tolerance as int);
            if abs_diff(c.x as int, nx) <= tolerance && abs_diff(c.y as int, ny) <= tolerance {
                &&& r.x == nx
                &&& r.y == ny
                &&& r.x as int % grid as int == 0
                &&& r.y as int % grid as int == 0
            } else {
                r == c
            }
        }),
{
    lemma_nearest_multiple(c.x as int, grid as int);
    lemma_nearest_multiple(c.y as int, grid as int);
    lemma_nearest_multiple_bounded(c.x as int, grid as int);
    lemma_nearest_multiple_bounded(c.y as int, grid as int);
}

proof fn lemma_nearest_multiple_bounded(v: int, grid: int)
    requires
        grid > 0,
        -MAX_ABS_LENGTH_UM <= v <= MAX_ABS_LENGTH_UM,
        grid <= i64::MAX,
    ensures
        i64::MIN <= nearest_multiple(v, grid) <= i64::MAX,
{
    vstd::arithmetic::div_mod::lemma_fundamental_div_mod(v, grid);
}

} // verus!
