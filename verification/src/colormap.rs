//! Escape count to ARGB colour: a cyclic, piecewise-linear gradient over a
//! fixed palette of eight colours.

use vstd::prelude::*;
use vstd::arithmetic::div_mod::lemma_fundamental_div_mod_converse;

verus! {

/// Number of iteration counts that one band of the gradient spans.
pub const COLOR_WIDTH: u32 = 50;

/// Number of colours in the palette; the gradient wraps after the last one.
pub const MAP_LEN: u32 = 8;

/// Opaque black, the colour of points that never escaped.
pub const BLACK: u32 = 0xff00_0000;

/// An opaque colour, one byte per channel.
#[derive(Clone, Copy, Debug, PartialEq, Eq, Structural)]
pub struct Rgb {
    pub r: u8,
    pub g: u8,
    pub b: u8,
}

/// The palette entry at `index`, taken cyclically.
pub open spec fn palette_entry(index: int) -> Rgb {
    let i = index % 8;
    if i == 0 {
        Rgb { r: 0, g: 0, b: 0 }
    } else if i == 1 {
        Rgb { r: 0, g: 0, b: 255 }
    } else if i == 2 {
        Rgb { r: 0, g: 128, b: 255 }
    } else if i == 3 {
        Rgb { r: 0, g: 255, b: 128 }
    } else if i == 4 {
        Rgb { r: 128, g: 128, b: 0 }
    } else if i == 5 {
        Rgb { r: 255, g: 128, b: 0 }
    } else if i == 6 {
        Rgb { r: 255, g: 255, b: 128 }
    } else {
        Rgb { r: 255, g: 255, b: 255 }
    }
}

/// The ARGB word of an opaque colour: alpha `0xff` in the top byte, then red,
/// green and blue.
pub open spec fn argb(r: u8, g: u8, b: u8) -> u32 {
    (0xff00_0000 + r as int * 0x1_0000 + g as int * 0x100 + b as int) as u32
}

/// The affine blend `lower + (higher - lower) * num / den`, truncated to an
/// integer. Meaningful for `0 <= num <= den` and `den > 0`, where it lies
/// between `lower` and `higher`.
pub open spec fn blend(lower: int, higher: int, num: int, den: int) -> int {
    (lower * den + (higher - lower) * num) / den
}

/// One channel of the gradient at the fraction `num / den` of the way from
/// `lower` to `higher`: `lower` at fraction zero, `higher` from fraction one
/// on, the truncated blend in between.
pub open spec fn interpolated(lower: u8, higher: u8, num: u32, den: u32) -> u8 {
    if num == 0 {
        lower
    } else if num >= den {
        higher
    } else {
        blend(lower as int, higher as int, num as int, den as int) as u8
    }
}

/// The colour of a point whose orbit took `iteration` steps under a cap of
/// `max_iteration`: black when the cap was reached (or is zero), otherwise the
/// gradient between the palette entries of the band that `iteration` falls in.
pub open spec fn color_for(iteration: u32, max_iteration: u32) -> u32 {
    if max_iteration == 0 || iteration >= max_iteration {
        BLACK
    } else {
        let band = iteration as int / 50;
        let step = (iteration % 50) as u32;
        let from = palette_entry(band);
        let to = palette_entry(band + 1);
        argb(
            interpolated(from.r, to.r, step, 50),
            interpolated(from.g, to.g, step, 50),
            interpolated(from.b, to.b, step, 50),
        )
    }
}

/// The palette entry at `index`, taken cyclically.
pub fn palette(index: u32) -> (entry: Rgb)
    ensures
        entry == palette_entry(index as int),
{
    let i: u32 = index % MAP_LEN;
    if i == 0 {
        Rgb { r: 0, g: 0, b: 0 }
    } else if i == 1 {
        Rgb { r: 0, g: 0, b: 255 }
    } else if i == 2 {
        Rgb { r: 0, g: 128, b: 255 }
    } else if i == 3 {
        Rgb { r: 0, g: 255, b: 128 }
    } else if i == 4 {
        Rgb { r: 128, g: 128, b: 0 }
    } else if i == 5 {
        Rgb { r: 255, g: 128, b: 0 }
    } else if i == 6 {
        Rgb { r: 255, g: 255, b: 128 }
    } else {
        Rgb { r: 255, g: 255, b: 255 }
    }
}

/// Packs three channels into an opaque ARGB word.
pub fn pack_argb(r: u8, g: u8, b: u8) -> (color: u32)
    ensures
        color == argb(r, g, b),
        color >= BLACK,
{
    let color: u32 = 0xff_u32 << 24 | (r as u32) << 16 | (g as u32) << 8 | b as u32;
    assert(color == 0xff00_0000u32 + (r as u32) * 0x1_0000u32 + (g as u32) * 0x100u32 + (b as u32))
        by (bit_vector)
        requires
            color == 0xff_u32 << 24 | (r as u32) << 16 | (g as u32) << 8 | b as u32,
    ;
    color
}

/// The blend of two channel values at a proper fraction lies between them.
pub proof fn lemma_blend_between(lower: int, higher: int, num: int, den: int)
    requires
        0 <= num <= den,
        0 < den,
    ensures
        lower <= higher ==> lower <= blend(lower, higher, num, den) <= higher,
        higher <= lower ==> higher <= blend(lower, higher, num, den) <= lower,
        num == 0 ==> blend(lower, higher, num, den) == lower,
        num == den ==> blend(lower, higher, num, den) == higher,
{
    let n = lower * den + (higher - lower) * num;
    assert(n == lower * den + (higher - lower) * num);
    if lower <= higher {
        assert(lower * den <= n <= higher * den) by (nonlinear_arith)
            requires
                n == lower * den + (higher - lower) * num,
                0 <= num <= den,
                lower <= higher,
        ;
    } else {
        assert(higher * den <= n <= lower * den) by (nonlinear_arith)
            requires
                n == lower * den + (higher - lower) * num,
                0 <= num <= den,
                higher <= lower,
        ;
    }
    assert(lower * den <= n ==> lower <= n / den) by (nonlinear_arith)
        requires
            0 < den,
    ;
    assert(n <= lower * den ==> n / den <= lower) by (nonlinear_arith)
        requires
            0 < den,
    ;
    assert(higher * den <= n ==> higher <= n / den) by (nonlinear_arith)
        requires
            0 < den,
    ;
    assert(n <= higher * den ==> n / den <= higher) by (nonlinear_arith)
        requires
            0 < den,
    ;
    if num == 0 {
        assert(n == lower * den) by (nonlinear_arith)
            requires
                n == lower * den + (higher - lower) * num,
                num == 0,
        ;
    }
    if num == den {
        assert(n == higher * den) by (nonlinear_arith)
            requires
                n == lower * den + (higher - lower) * num,
                num == den,
        ;
    }
}

/// One channel of the gradient at the fraction `num / den` of the way from
/// `lower` to `higher`. The blend is computed exactly and truncated, so the
/// result never leaves the range that the two ends span.
pub fn clamped_interpolation(lower: u8, higher: u8, num: u32, den: u32) -> (value: u8)
    ensures
        value == interpolated(lower, higher, num, den),
        lower <= higher ==> lower <= value <= higher,
        higher <= lower ==> higher <= value <= lower,
{
    if num == 0 {
        return lower;
    }
    if num >= den {
        return higher;
    }
    proof {
        lemma_blend_between(lower as int, higher as int, num as int, den as int);
    }
    assert(forall|a: int, n: int|
        0 <= a <= 0xff && 0 <= n <= 0xffff_ffff ==> 0 <= #[trigger] (a * n) <= 0xff * 0xffff_ffff)
        by (nonlinear_arith);
    let base: u64 = (lower as u64) * (den as u64);
    if higher >= lower {
        let rise: u64 = ((higher - lower) as u64) * (num as u64);
        assert(base + rise == lower as int * den as int + (higher as int - lower as int) * num as int)
            by (nonlinear_arith)
            requires
                base == (lower as int) * (den as int),
                rise == (higher as int - lower as int) * (num as int),
        ;
        ((base + rise) / (den as u64)) as u8
    } else {
        let fall: u64 = ((lower - higher) as u64) * (num as u64);
        assert(fall <= base) by (nonlinear_arith)
            requires
                base == (lower as int) * (den as int),
                fall == (lower as int - higher as int) * (num as int),
                0 <= higher < lower,
                0 < num < den,
        ;
        assert(base - fall == lower as int * den as int + (higher as int - lower as int) * num as int)
            by (nonlinear_arith)
            requires
                base == (lower as int) * (den as int),
                fall == (lower as int - higher as int) * (num as int),
        ;
        ((base - fall) / (den as u64)) as u8
    }
}

/// The colour of a point whose orbit took `iteration` steps under a cap of
/// `max_iteration`. Points that reached the cap are opaque black; every other
/// point gets an opaque colour of the cyclic gradient.
pub fn get_color(iteration: u32, max_iteration: u32) -> (color: u32)
    ensures
        color == color_for(iteration, max_iteration),
        color >= BLACK,
        (max_iteration == 0 || iteration >= max_iteration) ==> color == BLACK,
{
    if max_iteration == 0 || iteration >= max_iteration {
        return BLACK;
    }
    let band: u32 = iteration / COLOR_WIDTH;
    let step: u32 = iteration % COLOR_WIDTH;
    let from = palette(band);
    let to = palette(band + 1);
    pack_argb(
        clamped_interpolation(from.r, to.r, step, COLOR_WIDTH),
        clamped_interpolation(from.g, to.g, step, COLOR_WIDTH),
        clamped_interpolation(from.b, to.b, step, COLOR_WIDTH),
    )
}

/// The alpha channel of an ARGB word.
pub open spec fn alpha_of(color: u32) -> int {
    color as int / 0x100_0000
}

/// The red channel of an ARGB word.
pub open spec fn red_of(color: u32) -> int {
    (color as int / 0x1_0000) % 0x100
}

/// The green channel of an ARGB word.
pub open spec fn green_of(color: u32) -> int {
    (color as int / 0x100) % 0x100
}

/// The blue channel of an ARGB word.
pub open spec fn blue_of(color: u32) -> int {
    color as int % 0x100
}

/// Packing keeps each channel, and the alpha channel is fully opaque.
pub proof fn lemma_argb_channels(r: u8, g: u8, b: u8)
    ensures
        alpha_of(argb(r, g, b)) == 0xff,
        red_of(argb(r, g, b)) == r,
        green_of(argb(r, g, b)) == g,
        blue_of(argb(r, g, b)) == b,
{
    let color = 0xff00_0000 + r as int * 0x1_0000 + g as int * 0x100 + b as int;
    assert(argb(r, g, b) == color);
    lemma_fundamental_div_mod_converse(
        color,
        0x100_0000,
        0xff,
        r as int * 0x1_0000 + g as int * 0x100 + b as int,
    );
    lemma_fundamental_div_mod_converse(color, 0x1_0000, 0xff00 + r as int, g as int * 0x100 + b as int);
    lemma_fundamental_div_mod_converse(0xff00 + r as int, 0x100, 0xff, r as int);
    lemma_fundamental_div_mod_converse(
        color,
        0x100,
        0xff_0000 + r as int * 0x100 + g as int,
        b as int,
    );
    lemma_fundamental_div_mod_converse(
        0xff_0000 + r as int * 0x100 + g as int,
        0x100,
        0xff00 + r as int,
        g as int,
    );
}

/// Every colour is fully opaque.
pub proof fn lemma_color_is_opaque(iteration: u32, max_iteration: u32)
    ensures
        alpha_of(color_for(iteration, max_iteration)) == 0xff,
{
    if !(max_iteration == 0 || iteration >= max_iteration) {
        let band = iteration as int / 50;
        let step = (iteration % 50) as u32;
        let from = palette_entry(band);
        let to = palette_entry(band + 1);
        lemma_argb_channels(
            interpolated(from.r, to.r, step, 50),
            interpolated(from.g, to.g, step, 50),
            interpolated(from.b, to.b, step, 50),
        );
    }
}

/// At the first count of a band an escaped point has the band's own palette
/// colour, exactly.
pub proof fn lemma_band_start_is_exact(iteration: u32, max_iteration: u32)
    requires
        iteration < max_iteration,
        iteration % 50 == 0,
    ensures
        color_for(iteration, max_iteration) == argb(
            palette_entry(iteration as int / 50).r,
            palette_entry(iteration as int / 50).g,
            palette_entry(iteration as int / 50).b,
        ),
{
}

/// Inside a band every channel of an escaped point's colour lies between the
/// channel of the band's palette colour and that of the next one.
pub proof fn lemma_color_within_band(iteration: u32, max_iteration: u32)
    requires
        iteration < max_iteration,
    ensures
        ({
            let from = palette_entry(iteration as int / 50);
            let to = palette_entry(iteration as int / 50 + 1);
            let color = color_for(iteration, max_iteration);
            &&& from.r <= to.r ==> from.r <= red_of(color) <= to.r
            &&& to.r <= from.r ==> to.r <= red_of(color) <= from.r
            &&& from.g <= to.g ==> from.g <= green_of(color) <= to.g
            &&& to.g <= from.g ==> to.g <= green_of(color) <= from.g
            &&& from.b <= to.b ==> from.b <= blue_of(color) <= to.b
            &&& to.b <= from.b ==> to.b <= blue_of(color) <= from.b
        }),
{
    let band = iteration as int / 50;
    let step = (iteration % 50) as u32;
    let from = palette_entry(band);
    let to = palette_entry(band + 1);
    lemma_blend_between(from.r as int, to.r as int, step as int, 50);
    lemma_blend_between(from.g as int, to.g as int, step as int, 50);
    lemma_blend_between(from.b as int, to.b as int, step as int, 50);
    lemma_argb_channels(
        interpolated(from.r, to.r, step, 50),
        interpolated(from.g, to.g, step, 50),
        interpolated(from.b, to.b, step, 50),
    );
}

/// The gradient repeats after eight bands: escaped points whose counts lie
/// four hundred apart have the same colour.
pub proof fn lemma_gradient_is_cyclic(iteration: u32, max_iteration: u32)
    requires
        iteration + 400 < max_iteration,
    ensures
        color_for((iteration + 400) as u32, max_iteration) == color_for(iteration, max_iteration),
{
    let later = (iteration + 400) as u32;
    assert(later as int / 50 == iteration as int / 50 + 8);
    assert(later % 50 == iteration % 50);
    let band = iteration as int / 50;
    assert((band + 8) % 8 == band % 8);
    assert((band + 9) % 8 == (band + 1) % 8);
}

} // verus!
