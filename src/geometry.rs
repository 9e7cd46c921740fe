use vstd::prelude::*;

verus! {

/// Where the content view is drawn and at which pixel density.
///
/// Sizes and margins are in logical pixels; `hidpi_factor` is the number of
/// device pixels per logical pixel, as a whole number.
#[derive(Clone, Copy, Debug, PartialEq, Eq)]
pub struct DrawableGeometry {
    pub view_size: (u32, u32),
    /// (top, right, bottom, left), taken up by the window chrome.
    pub margins: (u32, u32, u32, u32),
    pub position: (i32, i32),
    pub hidpi_factor: u32,
}

/// `v` brought into the range of `u32`.
pub open spec fn clamp_u32(v: int) -> int {
    if v < 0 {
        0
    } else if v > u32::MAX {
        u32::MAX as int
    } else {
        v
    }
}

/// `v` brought into the range of `i32`.
pub open spec fn clamp_i32(v: int) -> int {
    if v < i32::MIN {
        i32::MIN as int
    } else if v > i32::MAX {
        i32::MAX as int
    } else {
        v
    }
}

/// `a * b` in device pixels, saturated at `u32::MAX`.
pub open spec fn scaled(a: u32, factor: u32) -> int {
    clamp_u32(a * factor)
}

fn scale(a: u32, factor: u32) -> (r: u32)
    ensures
        r == scaled(a, factor),
{
    proof {
        assert(0 <= a * factor <= u32::MAX * u32::MAX) by (nonlinear_arith)
            requires
                0 <= a <= u32::MAX,
                0 <= factor <= u32::MAX,
        ;
    }
    let p: u64 = (a as u64) * (factor as u64);
    if p > u32::MAX as u64 {
        u32::MAX
    } else {
        p as u32
    }
}

impl DrawableGeometry {
    /// A pointer coordinate in the window, moved so that (0, 0) is the
    /// top-left corner of the content area.
    pub open spec fn content_point(self, x: i32, y: i32) -> (i32, i32) {
        (
            clamp_i32(x - self.margins.3 * self.hidpi_factor) as i32,
            clamp_i32(y - self.margins.0 * self.hidpi_factor) as i32,
        )
    }

    /// Size of the whole view in device pixels.
    pub open spec fn framebuffer_spec(self) -> (int, int) {
        (
            scaled(self.view_size.0, self.hidpi_factor),
            scaled(self.view_size.1, self.hidpi_factor),
        )
    }

    /// The content rectangle (x, y, width, height) in device pixels: the
    /// framebuffer without the margins.
    pub open spec fn content_rect_spec(self) -> (int, int, int, int) {
        let f = self.hidpi_factor;
        let (top, right, bottom, left) = self.margins;
        let (w, h) = self.framebuffer_spec();
        (
            scaled(left, f),
            scaled(top, f),
            clamp_u32(w - scaled(left, f) - scaled(right, f)),
            clamp_u32(h - scaled(top, f) - scaled(bottom, f)),
        )
    }

    pub fn content_point_of(&self, x: i32, y: i32) -> (r: (i32, i32))
        ensures
            r == self.content_point(x, y),
    {
        let f: i128 = self.hidpi_factor as i128;
        let left: i128 = self.margins.3 as i128;
        let top: i128 = self.margins.0 as i128;
        proof {
            assert(0 <= left * f <= u32::MAX * u32::MAX) by (nonlinear_arith)
                requires
                    0 <= left <= u32::MAX,
                    0 <= f <= u32::MAX,
            ;
            assert(0 <= top * f <= u32::MAX * u32::MAX) by (nonlinear_arith)
                requires
                    0 <= top <= u32::MAX,
                    0 <= f <= u32::MAX,
            ;
        }
        let cx: i128 = x as i128 - left * f;
        let cy: i128 = y as i128 - top * f;
        (clamp_to_i32(cx), clamp_to_i32(cy))
    }

    pub fn framebuffer(&self) -> (r: (u32, u32))
        ensures
            (r.0 as int, r.1 as int) == self.framebuffer_spec(),
    {
        (scale(self.view_size.0, self.hidpi_factor), scale(self.view_size.1, self.hidpi_factor))
    }

    pub fn content_rect(&self) -> (r: (u32, u32, u32, u32))
        ensures
            (r.0 as int, r.1 as int, r.2 as int, r.3 as int) == self.content_rect_spec(),
    {
        let f = self.hidpi_factor;
        let (top, right, bottom, left) = self.margins;
        let (w, h) = self.framebuffer();
        let left = scale(left, f);
        let right = scale(right, f);
        let top = scale(top, f);
        let bottom = scale(bottom, f);
        let width = w.saturating_sub(left).saturating_sub(right);
        let height = h.saturating_sub(top).saturating_sub(bottom);
        (left, top, width, height)
    }
}

fn clamp_to_i32(v: i128) -> (r: i32)
    ensures
        r == clamp_i32(v as int),
{
    if v < i32::MIN as i128 {
        i32::MIN
    } else if v > i32::MAX as i128 {
        i32::MAX
    } else {
        v as i32
    }
}

} // verus!
