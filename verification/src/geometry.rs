//! Letterboxed scaling of the control's rectangle against a reference
//! resolution, with the zoom factor kept as an exact ratio.

use vstd::prelude::*;

verus! {

/// An absolute pixel rectangle in the caller's coordinate space.
#[derive(Clone, Copy, PartialEq, Eq, Structural, Debug)]
pub struct Rect {
    pub left: i32,
    pub top: i32,
    pub right: i32,
    pub bottom: i32,
}

impl Rect {
    /// Builds a rectangle from an origin and a size, as the ABI hands them in.
    pub fn from_origin_size(left: i32, top: i32, width: i32, height: i32) -> (r: Rect)
        requires
            left + width <= i32::MAX,
            top + height <= i32::MAX,
            left + width >= i32::MIN,
            top + height >= i32::MIN,
        ensures
            r.left == left,
            r.top == top,
            r.right == left + width,
            r.bottom == top + height,
    {
        Rect { left, top, right: left + width, bottom: top + height }
    }

    pub open spec fn width(self) -> int {
        self.right - self.left
    }

    pub open spec fn height(self) -> int {
        self.bottom - self.top
    }
}

/// A zoom factor as the exact fraction `num / den`, normalized so that a
/// control at 96 dpi showing the reference size at full scale has zoom 1.
#[derive(Clone, Copy, PartialEq, Eq, Structural, Debug)]
pub struct Zoom {
    pub num: i64,
    pub den: i64,
}

/// True when the width is the constraining side: `w / rw <= h / rh`,
/// compared without division.
pub open spec fn width_constrained(w: int, h: int, rw: int, rh: int) -> bool {
    w * rh <= h * rw
}

/// Numerator of the scale ratio `min(w / rw, h / rh)`.
pub open spec fn scale_num(w: int, h: int, rw: int, rh: int) -> int {
    if width_constrained(w, h, rw, rh) {
        w
    } else {
        h
    }
}

/// Denominator of the scale ratio `min(w / rw, h / rh)`.
pub open spec fn scale_den(w: int, h: int, rw: int, rh: int) -> int {
    if width_constrained(w, h, rw, rh) {
        rw
    } else {
        rh
    }
}

/// The symmetric margin left of the scaled content:
/// `floor((w - rw * ratio) / 2)` written over the exact ratio.
pub open spec fn margin_left(w: int, h: int, rw: int, rh: int) -> int {
    (w * scale_den(w, h, rw, rh) - rw * scale_num(w, h, rw, rh)) / (2 * scale_den(w, h, rw, rh))
}

/// The symmetric margin above the scaled content:
/// `floor((h - rh * ratio) / 2)` written over the exact ratio.
pub open spec fn margin_top(w: int, h: int, rw: int, rh: int) -> int {
    (h * scale_den(w, h, rw, rh) - rh * scale_num(w, h, rw, rh)) / (2 * scale_den(w, h, rw, rh))
}

/// The rectangle that `calculate_bounds` owes for an input rectangle `r`.
pub open spec fn letterboxed(r: Rect, rw: int, rh: int) -> Rect {
    let w = r.width();
    let h = r.height();
    let ml = margin_left(w, h, rw, rh);
    let mt = margin_top(w, h, rw, rh);
    Rect {
        left: (r.left + ml) as i32,
        top: (r.top + mt) as i32,
        right: (r.left + w - ml) as i32,
        bottom: (r.top + h - mt) as i32,
    }
}

/// The zoom that `calculate_bounds` owes: the scale ratio divided by
/// `dpi / 96`, kept exact.
pub open spec fn scaled_zoom(w: int, h: int, rw: int, rh: int, dpi: int) -> Zoom {
    Zoom {
        num: (96 * scale_num(w, h, rw, rh)) as i64,
        den: (scale_den(w, h, rw, rh) * dpi) as i64,
    }
}

/// Scales `rect` to the reference aspect ratio `ref_width : ref_height`,
/// letterboxing symmetric margins on the side that is not constraining,
/// and derives the zoom factor normalized by the control's dpi.
/// Returns `None` exactly when the rectangle has no area.
pub fn calculate_bounds(rect: Rect, ref_width: i32, ref_height: i32, dpi: u32) -> (r: Option<
    (Rect, Zoom),
>)
    requires
        ref_width > 0,
        ref_height > 0,
        dpi >= 1,
    ensures
        r is Some <==> rect.width() > 0 && rect.height() > 0,
        r matches Some((out, zoom)) ==> {
            &&& out == letterboxed(rect, ref_width as int, ref_height as int)
            &&& zoom == scaled_zoom(
                rect.width(),
                rect.height(),
                ref_width as int,
                ref_height as int,
                dpi as int,
            )
            &&& zoom.den > 0
        },
{
    let width: i64 = rect.right as i64 - rect.left as i64;
    let height: i64 = rect.bottom as i64 - rect.top as i64;
    if width <= 0 || height <= 0 {
        return None;
    }
    let rw: i64 = ref_width as i64;
    let rh: i64 = ref_height as i64;

    proof {
        assert(0 <= width * rh < 0x7fff_ffff_ffff_ffff && 0 <= height * rw
            < 0x7fff_ffff_ffff_ffff && 0 <= width * rw < 0x7fff_ffff_ffff_ffff && 0 <= height * rh
            < 0x7fff_ffff_ffff_ffff && 0 <= rw * width < 0x7fff_ffff_ffff_ffff && 0 <= rw * height
            < 0x7fff_ffff_ffff_ffff && 0 <= rh * width < 0x7fff_ffff_ffff_ffff && 0 <= rh * height
            < 0x7fff_ffff_ffff_ffff) by (nonlinear_arith)
            requires
                0 < width < 0x1_0000_0000,
                0 < height < 0x1_0000_0000,
                0 < rw < 0x8000_0000,
                0 < rh < 0x8000_0000,
        ;
    }
    let wc: bool = width * rh <= height * rw;
    let num: i64 = if wc {
        width
    } else {
        height
    };
    let den: i64 = if wc {
        rw
    } else {
        rh
    };
    let ml_num: i64 = width * den - rw * num;
    let mt_num: i64 = height * den - rh * num;
    proof {
        if wc {
            assert(ml_num == 0 && 0 <= mt_num <= height * den) by (nonlinear_arith)
                requires
                    ml_num == width * den - rw * num,
                    mt_num == height * den - rh * num,
                    num == width,
                    den == rw,
                    width * rh <= height * rw,
                    rh > 0,
                    width > 0,
            ;
        } else {
            assert(mt_num == 0 && 0 <= ml_num <= width * den) by (nonlinear_arith)
                requires
                    ml_num == width * den - rw * num,
                    mt_num == height * den - rh * num,
                    num == height,
                    den == rh,
                    !(width * rh <= height * rw),
                    rw > 0,
                    height > 0,
            ;
        }
    }
    let ml: i64 = ml_num / (2 * den);
    let mt: i64 = mt_num / (2 * den);
    proof {
        lemma_half_margin_bound(ml_num as int, width as int, den as int);
        lemma_half_margin_bound(mt_num as int, height as int, den as int);
    }
    let out = Rect {
        left: (rect.left as i64 + ml) as i32,
        top: (rect.top as i64 + mt) as i32,
        right: (rect.left as i64 + width - ml) as i32,
        bottom: (rect.top as i64 + height - mt) as i32,
    };
    proof {
        assert(0 < den * dpi < 0x7fff_ffff_ffff_ffff) by (nonlinear_arith)
            requires
                0 < den <= 0x7fff_ffff,
                1 <= dpi <= 0xffff_ffff,
        ;
    }
    let zoom = Zoom { num: 96 * num, den: den * dpi as i64 };
    Some((out, zoom))
}

/// For `0 <= n <= side * den` and `den > 0`, the margin `n / (2 * den)`
/// lies between 0 and `side / 2`, so adding it to one edge of the
/// rectangle and subtracting it from the other stays inside the input.
proof fn lemma_half_margin_bound(n: int, side: int, den: int)
    requires
        0 <= n,
        den > 0,
        n <= side * den,
    ensures
        0 <= n / (2 * den),
        2 * (n / (2 * den)) <= side,
{
    assert(0 <= n / (2 * den)) by (nonlinear_arith)
        requires
            0 <= n,
            den > 0,
    ;
    assert(n / (2 * den) * (2 * den) <= n) by (nonlinear_arith)
        requires
            0 <= n,
            den > 0,
    ;
    assert(2 * (n / (2 * den)) <= side) by (nonlinear_arith)
        requires
            n / (2 * den) * (2 * den) <= n,
            n <= side * den,
            den > 0,
    ;
}

} // verus!

