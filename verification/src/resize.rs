use vstd::prelude::*;

verus! {

/// Default edge length of the thumbnail box, in pixels.
pub const DEFAULT_THUMBNAIL_SIZE: u32 = 200;

/// Length of the short side after fitting an image whose long side is `long`
/// and short side is `short` into a square box of edge `thumb`: the long side
/// is mapped to exactly `thumb` and the short side is scaled proportionally,
/// rounding down, but never below one pixel.
pub open spec fn scaled_short_side(long: int, short: int, thumb: int) -> int {
    let s = (thumb * short) / long;
    if s < 1 {
        1
    } else {
        s
    }
}

/// Target box for a thumbnail of a `w` by `h` image in a square of edge
/// `thumb`: the longer source side becomes `thumb`, the shorter is scaled by
/// the same factor (rounding down, floor at one). Width ties count as
/// width-is-longer.
pub open spec fn fit_size(w: int, h: int, thumb: int) -> (int, int) {
    if w >= h {
        (thumb, scaled_short_side(w, h, thumb))
    } else {
        (scaled_short_side(h, w, thumb), thumb)
    }
}

proof fn lemma_scaled_short_side_bounds(long: int, short: int, thumb: int)
    requires
        1 <= short <= long,
        1 <= thumb,
    ensures
        1 <= scaled_short_side(long, short, thumb) <= thumb,
{
    assert(thumb * short <= thumb * long) by (nonlinear_arith)
        requires
            short <= long,
            thumb >= 1,
    ;
    vstd::arithmetic::div_mod::lemma_div_is_ordered(thumb * short, thumb * long, long);
    vstd::arithmetic::div_mod::lemma_div_multiples_vanish(thumb, long);
    vstd::arithmetic::mul::lemma_mul_is_commutative(thumb, long);
}

proof fn lemma_u32_product_fits_u64(a: int, b: int)
    requires
        0 <= a <= u32::MAX,
        0 <= b <= u32::MAX,
    ensures
        a * b <= u64::MAX,
{
    assert(a * b <= 0xffff_ffff * 0xffff_ffff) by (nonlinear_arith)
        requires
            0 <= a <= 0xffff_ffffint,
            0 <= b <= 0xffff_ffffint,
    ;
}

/// Aspect-preserving thumbnail dimensions: the longer of `f_width`/`f_height`
/// is mapped to exactly `thumb`, the shorter side is scaled by the same
/// factor, rounding down (floor), but never below one pixel.
pub fn calculate_size(f_width: u32, f_height: u32, thumb: u32) -> (r: (u32, u32))
    requires
        f_width >= 1,
        f_height >= 1,
        thumb >= 1,
    ensures
        (r.0 as int, r.1 as int) == fit_size(f_width as int, f_height as int, thumb as int),
        1 <= r.0 <= thumb,
        1 <= r.1 <= thumb,
        f_width >= f_height ==> r.0 == thumb,
        f_width < f_height ==> r.1 == thumb,
{
    proof {
        if f_width >= f_height {
            lemma_scaled_short_side_bounds(f_width as int, f_height as int, thumb as int);
            lemma_u32_product_fits_u64(thumb as int, f_height as int);
        } else {
            lemma_scaled_short_side_bounds(f_height as int, f_width as int, thumb as int);
            lemma_u32_product_fits_u64(thumb as int, f_width as int);
        }
    }
    if f_width >= f_height {
        let s: u64 = (thumb as u64) * (f_height as u64) / (f_width as u64);
        let short: u32 = if s < 1 {
            1
        } else {
            s as u32
        };
        (thumb, short)
    } else {
        let s: u64 = (thumb as u64) * (f_width as u64) / (f_height as u64);
        let short: u32 = if s < 1 {
            1
        } else {
            s as u32
        };
        (short, thumb)
    }
}

} // verus!
