//! The background composer: where each sprite stands on screen at a given
//! moment (wind drift wrapped round a band wider than the viewport, scroll
//! parallax, depth-weighted fade), and the scroll-driven day/night colour.
use vstd::prelude::*;
use vstd::arithmetic::div_mod::{lemma_fundamental_div_mod, lemma_fundamental_div_mod_converse_mod, lemma_mod_add_multiples_vanish};
use crate::layout::{Sprite, padding_mpx, COORD_BOUND};

verus! {

/// Horizontal wind speed at full depth factor, in pixels per second.
pub const WIND_SPEED_PX_PER_S: u64 = 12;
/// Scale of depth factors and opacities: 100_000_000 stands for 1.
pub const FACTOR_SCALE: u64 = 100_000_000;
/// Scroll progress is in parts per million: 1_000_000 is the bottom of the page.
pub const PROGRESS_SCALE: u32 = 1_000_000;

/// Depth factor `0.35 + 0.65 depth`, scaled by `FACTOR_SCALE`.
pub open spec fn depth_factor(depth_ppm: int) -> int {
    35_000_000 + 65 * depth_ppm
}

/// Opacity `0.35 + 0.45 depth`, scaled by `FACTOR_SCALE`.
pub open spec fn opacity(depth_ppm: int) -> int {
    35_000_000 + 45 * depth_ppm
}

/// Wind drift after `elapsed_us`, in milli-pixels (rounded down):
/// `elapsed * 12 px/s * depth factor`.
pub open spec fn drift_mpx(elapsed_us: int, depth_ppm: int) -> int {
    elapsed_us * WIND_SPEED_PX_PER_S * depth_factor(depth_ppm) / 100_000_000_000
}

/// Period of the horizontal wrap for a sprite of side `size` on a viewport:
/// the viewport width plus the padding on both sides plus the sprite itself.
pub open spec fn wrap_span(width_px: int, height_px: int, size: int) -> int {
    width_px * 1000 + 2 * padding_mpx(height_px) + size
}

/// Left edge after drifting by `drift` from `x`, wrapped round a band of
/// length `span` that starts `pad + size` left of the viewport.
pub open spec fn wrapped_x(x: int, drift: int, pad: int, size: int, span: int) -> int {
    (x + drift + pad + size) % span - pad - size
}

/// Where a sprite stands on screen in one frame.
#[derive(Clone, Copy, Debug, PartialEq, Eq, Structural)]
pub struct SpriteFrame {
    /// Left edge, in milli-pixels.
    pub x_mpx: i128,
    /// Top edge, in milli-pixels.
    pub y_mpx: i128,
    /// Side length, in milli-pixels.
    pub size_mpx: i64,
    /// Opacity, scaled by `FACTOR_SCALE`.
    pub opacity: u64,
}

/// The frame of sprite `sp` after `elapsed_us` of animation, on a viewport of
/// the given size scrolled by `scroll_mpx`.
pub open spec fn frame_of(sp: Sprite, elapsed_us: int, width_px: int, height_px: int, scroll_mpx: int) -> SpriteFrame {
    let pad = padding_mpx(height_px);
    SpriteFrame {
        x_mpx: wrapped_x(
            sp.x_mpx as int,
            drift_mpx(elapsed_us, sp.depth_ppm as int),
            pad,
            sp.size_mpx as int,
            wrap_span(width_px, height_px, sp.size_mpx as int),
        ) as i128,
        y_mpx: (sp.y_mpx - scroll_mpx) as i128,
        size_mpx: sp.size_mpx,
        opacity: opacity(sp.depth_ppm as int) as u64,
    }
}

/// `v % span` (never negative) computed on machine integers.
fn wrap_mod(v: i128, span: i128) -> (u: i128)
    requires
        0 < span,
        i128::MIN < v,
    ensures
        u == v % span,
        0 <= u < span,
{
    if v >= 0 {
        ((v as u128) % (span as u128)) as i128
    } else {
        let a: u128 = (-v) as u128;
        let m = (a % (span as u128)) as i128;
        proof {
            let q = a as int / span as int;
            lemma_fundamental_div_mod(a as int, span as int);
            assert(a == span * q + m);
            if m == 0 {
                assert(v == (-q) * span + 0) by (nonlinear_arith)
                    requires
                        a == span * q + m,
                        m == 0,
                        v == -a,
                ;
                lemma_fundamental_div_mod_converse_mod(v as int, span as int, -q, 0);
            } else {
                assert(v == (-q - 1) * span + (span - m)) by (nonlinear_arith)
                    requires
                        a == span * q + m,
                        v == -a,
                ;
                lemma_fundamental_div_mod_converse_mod(v as int, span as int, -q - 1, span - m);
            }
        }
        if m == 0 {
            0
        } else {
            span - m
        }
    }
}

/// Left edge after drifting by `drift_mpx` from `x_mpx`, wrapped round a band
/// of length `span_mpx` that starts `padding_mpx + size_mpx` left of the
/// viewport, as `wrapped_x` states.
pub fn wrap_position(x_mpx: i64, drift_mpx: i64, padding_mpx: i64, size_mpx: i64, span_mpx: i64) -> (x: i128)
    requires
        0 < span_mpx,
    ensures
        x == wrapped_x(x_mpx as int, drift_mpx as int, padding_mpx as int, size_mpx as int, span_mpx as int),
        -padding_mpx - size_mpx <= x < span_mpx - padding_mpx - size_mpx,
{
    let u = wrap_mod(x_mpx as i128 + drift_mpx as i128 + padding_mpx as i128 + size_mpx as i128, span_mpx as i128);
    u - padding_mpx as i128 - size_mpx as i128
}

/// Where sprite `sp` stands on screen after `elapsed_us` of animation, on a
/// viewport of `width_px` by `height_px` scrolled down by `scroll_mpx`:
/// drifted right by the wind and wrapped, raised by the scroll, faded by depth.
pub fn sprite_frame(sp: &Sprite, elapsed_us: u64, width_px: u32, height_px: u32, scroll_mpx: i64) -> (f: SpriteFrame)
    requires
        0 < sp.size_mpx <= COORD_BOUND,
        sp.depth_ppm <= 1_000_000,
    ensures
        f == frame_of(*sp, elapsed_us as int, width_px as int, height_px as int, scroll_mpx as int),
        -padding_mpx(height_px as int) - sp.size_mpx <= f.x_mpx < width_px * 1000 + padding_mpx(height_px as int),
{
    let factor: u64 = 35_000_000 + 65 * (sp.depth_ppm as u64);
    assert((elapsed_us as int) * 12 * (factor as int) <= 0xFFFF_FFFF_FFFF_FFFF * 12 * 100_000_000) by (nonlinear_arith)
        requires
            factor <= 100_000_000,
            elapsed_us <= 0xFFFF_FFFF_FFFF_FFFF,
    ;
    let drift: u128 = (elapsed_us as u128) * (WIND_SPEED_PX_PER_S as u128) * (factor as u128) / 100_000_000_000;
    assert(drift <= 300_000_000_000_000_000) by {
        vstd::arithmetic::div_mod::lemma_div_is_ordered(
            elapsed_us * 12 * factor,
            30_000_000_000_000_000_000_000_000_000int,
            100_000_000_000int,
        );
    }
    let pad: i64 = (height_px as i64) * 350;
    let span: i64 = (width_px as i64) * 1000 + 2 * pad + sp.size_mpx;
    SpriteFrame {
        x_mpx: wrap_position(sp.x_mpx, drift as i64, pad, sp.size_mpx, span),
        y_mpx: sp.y_mpx as i128 - scroll_mpx as i128,
        size_mpx: sp.size_mpx,
        opacity: 35_000_000 + 45 * (sp.depth_ppm as u64),
    }
}

/// The frames of a whole batch of sprites at one moment, in batch order.
pub fn sprite_frames(sprites: &Vec<Sprite>, elapsed_us: u64, width_px: u32, height_px: u32, scroll_mpx: i64) -> (r: Vec<
    SpriteFrame,
>)
    requires
        forall|i: int|
            0 <= i < sprites@.len() ==> 0 < (#[trigger] sprites@[i]).size_mpx <= COORD_BOUND && sprites@[i].depth_ppm
                <= 1_000_000,
    ensures
        r@.len() == sprites@.len(),
        forall|i: int|
            0 <= i < r@.len() ==> #[trigger] r@[i] == frame_of(
                sprites@[i],
                elapsed_us as int,
                width_px as int,
                height_px as int,
                scroll_mpx as int,
            ),
{
    let mut r: Vec<SpriteFrame> = Vec::new();
    let mut k: usize = 0;
    while k < sprites.len()
        invariant
            k <= sprites@.len(),
            r@.len() == k,
            forall|i: int|
                0 <= i < sprites@.len() ==> 0 < (#[trigger] sprites@[i]).size_mpx <= COORD_BOUND && sprites@[i].depth_ppm
                    <= 1_000_000,
            forall|i: int|
                0 <= i < k ==> #[trigger] r@[i] == frame_of(
                    sprites@[i],
                    elapsed_us as int,
                    width_px as int,
                    height_px as int,
                    scroll_mpx as int,
                ),
        decreases sprites@.len() - k,
    {
        let f = sprite_frame(&sprites[k], elapsed_us, width_px, height_px, scroll_mpx);
        r.push(f);
        k += 1;
    }
    r
}

/// Drifting one whole wrap period further brings a sprite back to exactly
/// where it was: the wrap is exact, with no creep.
pub proof fn lemma_wrap_period(x: int, drift: int, pad: int, size: int, span: int)
    requires
        0 < span,
    ensures
        wrapped_x(x, drift + span, pad, size, span) == wrapped_x(x, drift, pad, size, span),
{
    lemma_mod_add_multiples_vanish(x + drift + pad + size, span);
    assert(x + (drift + span) + pad + size == span + (x + drift + pad + size));
}

/// Scrollable height in milli-pixels: document height less viewport height,
/// at least one pixel.
pub open spec fn scrollable_mpx(scroll_height_px: int, view_height_px: int) -> int {
    if scroll_height_px - view_height_px > 1 {
        (scroll_height_px - view_height_px) * 1000
    } else {
        1000
    }
}

/// Scroll progress in parts per million: `scroll / scrollable`, clamped to `[0, 1]`.
pub open spec fn scroll_progress(scroll_mpx: int, scroll_height_px: int, view_height_px: int) -> int {
    let d = scrollable_mpx(scroll_height_px, view_height_px);
    if scroll_mpx <= 0 {
        0
    } else if scroll_mpx >= d {
        PROGRESS_SCALE as int
    } else {
        scroll_mpx * PROGRESS_SCALE / d
    }
}

/// How far down the page is scrolled, in parts per million, given the scroll
/// offset, the document's full height and the viewport's height.
pub fn scroll_progress_ppm(scroll_mpx: i64, scroll_height_px: i32, view_height_px: i32) -> (p: u32)
    ensures
        p == scroll_progress(scroll_mpx as int, scroll_height_px as int, view_height_px as int),
        p <= PROGRESS_SCALE,
{
    let diff: i64 = scroll_height_px as i64 - view_height_px as i64;
    let d: i64 = if diff > 1 { diff * 1000 } else { 1000 };
    if scroll_mpx <= 0 {
        0
    } else if scroll_mpx >= d {
        PROGRESS_SCALE
    } else {
        assert((scroll_mpx as int) * PROGRESS_SCALE < (d as int) * PROGRESS_SCALE) by (nonlinear_arith)
            requires
                scroll_mpx < d,
        ;
        let p: i128 = (scroll_mpx as i128) * (PROGRESS_SCALE as i128) / (d as i128);
        assert(p <= PROGRESS_SCALE) by {
            vstd::arithmetic::div_mod::lemma_div_is_ordered(
                scroll_mpx * PROGRESS_SCALE,
                d * PROGRESS_SCALE,
                d as int,
            );
            vstd::arithmetic::div_mod::lemma_div_multiples_vanish(PROGRESS_SCALE as int, d as int);
            assert(d * PROGRESS_SCALE == PROGRESS_SCALE * d) by (nonlinear_arith);
        }
        p as u32
    }
}

/// A background colour in HSL: hue in millionths of a degree, saturation and
/// lightness in millionths of a percent.
#[derive(Clone, Copy, Debug, PartialEq, Eq, Structural)]
pub struct DaytimeColor {
    pub hue_micro: u32,
    pub saturation_micro: u32,
    pub lightness_micro: u32,
}

/// The day-to-night ramp at progress `p` (ppm): hue 205 to 230 degrees,
/// saturation 90% to 40%, lightness 65% to 8%, each linear in `p`.
pub open spec fn daytime_color_at(p: int) -> DaytimeColor {
    DaytimeColor {
        hue_micro: (205_000_000 + 25 * p) as u32,
        saturation_micro: (90_000_000 - 50 * p) as u32,
        lightness_micro: (65_000_000 - 57 * p) as u32,
    }
}

/// The background colour for scroll progress `p_ppm`, as `daytime_color_at` states.
pub fn daytime_color(p_ppm: u32) -> (c: DaytimeColor)
    requires
        p_ppm <= PROGRESS_SCALE,
    ensures
        c == daytime_color_at(p_ppm as int),
        c.hue_micro == 205_000_000 + 25 * p_ppm,
        c.saturation_micro == 90_000_000 - 50 * p_ppm,
        c.lightness_micro == 65_000_000 - 57 * p_ppm,
{
    DaytimeColor {
        hue_micro: 205_000_000 + 25 * p_ppm,
        saturation_micro: 90_000_000 - 50 * p_ppm,
        lightness_micro: 65_000_000 - 57 * p_ppm,
    }
}

} // verus!
