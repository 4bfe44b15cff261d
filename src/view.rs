use vstd::prelude::*;

verus! {

/// Zoom units in one fractal-plane unit per screen unit: `zoom` is held as a
/// binary fixed-point number with 40 fractional bits.
pub const ZOOM_ONE: u64 = 1099511627776;

/// The smallest zoom that can be held (one zoom unit, about 9.1e-13).
pub const ZOOM_MIN: u64 = 1;

/// The largest zoom that can be held (256 fractal-plane units per screen unit).
pub const ZOOM_MAX: u64 = 281474976710656;

/// The zoom a new view starts at, 0.005 in fixed point.
pub const ZOOM_START: u64 = 5497558139;

/// The shader's detail parameter; held constant.
pub const EPSILON_START: u32 = 1000;

/// Center units in one fractal-plane unit are `ZOOM_ONE * CENTER_PER_ZOOM_ONE`.
/// With this scale, a pan of `speed * zoom * dt` (speed in screen units per
/// second, `dt` in microseconds) is the exact integer `speed / 100 * zoom * dt`.
pub const CENTER_PER_ZOOM_ONE: u64 = 10000;

/// Largest magnitude of a relative zoom change's numerator.
pub const ZOOM_NUM_LIMIT: i128 = 18446744073709551616;

/// A point of the fractal plane, in center units.
#[derive(Clone, Copy, Debug, PartialEq, Eq, Structural)]
pub struct PlanePoint {
    pub x: i128,
    pub y: i128,
}

/// The view of the fractal plane that the shader renders: its scale, the
/// point at the middle of the screen, and the shader's detail parameter.
#[derive(Clone, Copy, Debug, PartialEq, Eq, Structural)]
pub struct CustomMaterial {
    /// Fractal-plane units per screen unit, in units of `1 / ZOOM_ONE`.
    pub zoom: u64,
    /// The fractal-plane point at the screen center.
    pub center: PlanePoint,
    pub epsilon: u32,
}

/// `v` limited to what an `i128` holds.
pub open spec fn clamp_i128(v: int) -> int {
    if v < i128::MIN {
        i128::MIN as int
    } else if v > i128::MAX {
        i128::MAX as int
    } else {
        v
    }
}

/// `z` limited to the zoom range.
pub open spec fn clamp_zoom(z: int) -> int {
    if z < ZOOM_MIN {
        ZOOM_MIN as int
    } else if z > ZOOM_MAX {
        ZOOM_MAX as int
    } else {
        z
    }
}

/// `z * num / den`, rounded toward zero.
pub open spec fn zoom_change(z: int, num: int, den: int) -> int {
    if num >= 0 {
        (z * num) / den
    } else {
        -((z * (-num)) / den)
    }
}

impl CustomMaterial {
    /// The zoom lies in its range.
    pub open spec fn wf(self) -> bool {
        ZOOM_MIN <= self.zoom <= ZOOM_MAX
    }

    /// The view moved by `(dx, dy)` center units, each coordinate saturating.
    pub open spec fn panned(self, dx: int, dy: int) -> CustomMaterial {
        CustomMaterial {
            zoom: self.zoom,
            center: PlanePoint {
                x: clamp_i128(self.center.x + dx) as i128,
                y: clamp_i128(self.center.y + dy) as i128,
            },
            epsilon: self.epsilon,
        }
    }

    /// The view after `zoom += zoom * num / den`, kept in the zoom range.
    pub open spec fn zoomed(self, num: int, den: int) -> CustomMaterial {
        CustomMaterial {
            zoom: clamp_zoom(self.zoom + zoom_change(self.zoom as int, num, den)) as u64,
            center: self.center,
            epsilon: self.epsilon,
        }
    }

    /// The starting view: zoom 0.005 centered on the origin.
    pub fn new() -> (r: CustomMaterial)
        ensures
            r.wf(),
            r.zoom == ZOOM_START,
            r.center == (PlanePoint { x: 0, y: 0 }),
            r.epsilon == EPSILON_START,
    {
        CustomMaterial { zoom: ZOOM_START, center: PlanePoint { x: 0, y: 0 }, epsilon: EPSILON_START }
    }

    /// Moves the center by `(dx, dy)` center units (already scaled by zoom).
    pub fn pan(&mut self, dx: i128, dy: i128)
        ensures
            *final(self) == old(self).panned(dx as int, dy as int),
    {
        self.center.x = saturating_add(self.center.x, dx);
        self.center.y = saturating_add(self.center.y, dy);
    }

    /// Multiplies the zoom by `1 + num / den`: `zoom += zoom * num / den`.
    pub fn zoom_by(&mut self, num: i128, den: i128)
        requires
            old(self).wf(),
            den > 0,
            -ZOOM_NUM_LIMIT <= num <= ZOOM_NUM_LIMIT,
        ensures
            final(self).wf(),
            *final(self) == old(self).zoomed(num as int, den as int),
    {
        let z: u128 = self.zoom as u128;
        let mag: u128 = if num >= 0 {
            num as u128
        } else {
            (-num) as u128
        };
        assert(z * mag <= (ZOOM_MAX as int) * (ZOOM_NUM_LIMIT as int)) by (nonlinear_arith)
            requires
                z <= ZOOM_MAX,
                mag <= ZOOM_NUM_LIMIT,
        ;
        let q: u128 = (z * mag) / (den as u128);
        assert(q <= z * mag) by (nonlinear_arith)
            requires
                q == (z * mag) / (den as int),
                den >= 1,
                z * mag >= 0,
        ;
        let next: i128 = if num >= 0 {
            z as i128 + q as i128
        } else {
            z as i128 - q as i128
        };
        self.zoom = if next < ZOOM_MIN as i128 {
            ZOOM_MIN
        } else if next > ZOOM_MAX as i128 {
            ZOOM_MAX
        } else {
            next as u64
        };
    }
}

/// `a + b`, saturating at the bounds of `i128`.
pub fn saturating_add(a: i128, b: i128) -> (r: i128)
    ensures
        r == clamp_i128(a + b),
{
    if b >= 0 {
        if a > i128::MAX - b {
            i128::MAX
        } else {
            a + b
        }
    } else {
        if a < i128::MIN - b {
            i128::MIN
        } else {
            a + b
        }
    }
}

} // verus!
