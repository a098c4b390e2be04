//! The layout generator: a randomized, collision-avoiding placement of sprites
//! over a region that extends past the viewport on every side.
use vstd::prelude::*;
use vstd::arithmetic::div_mod::{lemma_div_is_ordered, lemma_div_multiples_vanish, lemma_div_pos_is_pos};
use vstd::arithmetic::mul::{lemma_mul_inequality, lemma_mul_nonnegative};
use crate::random::{RandomSource, next_state, draw_of, DRAW_SCALE};

verus! {

/// Below this width or height (in pixels) no sprites are generated.
pub const MIN_VIEWPORT_PX: u32 = 200;
/// Viewport area (in square pixels) that calls for one sprite.
pub const AREA_PER_SPRITE: u64 = 250_000;
/// Fewest sprites aimed for on a viewport large enough to hold any.
pub const MIN_SPRITES: u64 = 5;
/// Most sprites ever placed.
pub const MAX_SPRITES: u64 = 8;
/// Placement attempts allowed per sprite aimed for, over the whole batch.
pub const ATTEMPTS_PER_SPRITE: u64 = 120;
/// Padding around the viewport, in thousandths of the viewport height.
pub const PADDING_PM: i64 = 350;
/// Smallest sprite side, in milli-pixels.
pub const MIN_SIZE_MPX: i64 = 50_000;
/// Spread of sprite sides above the smallest, in pixels.
pub const SIZE_SPREAD_PX: i64 = 180;
/// Largest coordinate magnitude that a placement can reach, in milli-pixels.
pub const COORD_BOUND: i64 = 0x2000_0000_0000;

/// One drifting background decoration, as generated (before drift and scroll).
#[derive(Clone, Copy, Debug, PartialEq, Eq, Structural)]
pub struct Sprite {
    /// Position in its batch; stable for the sprite's lifetime.
    pub id: u32,
    /// Left edge, in milli-pixels from the viewport's left edge.
    pub x_mpx: i64,
    /// Top edge, in milli-pixels from the viewport's top edge.
    pub y_mpx: i64,
    /// Side length, in milli-pixels.
    pub size_mpx: i64,
    /// Depth in parts per million: 0 is farthest, 1_000_000 nearest.
    pub depth_ppm: u32,
    /// Per-instance shader seed, in thousandths (`[0, 1000)` as a real value).
    pub seed_milli: u32,
}

/// Number of sprites aimed for: area / 250_000 rounded half up, clamped to `[5, 8]`.
pub open spec fn target_count(width_px: int, height_px: int) -> int {
    let n = (width_px * height_px + AREA_PER_SPRITE / 2) / (AREA_PER_SPRITE as int);
    if n < MIN_SPRITES {
        MIN_SPRITES as int
    } else if n > MAX_SPRITES {
        MAX_SPRITES as int
    } else {
        n
    }
}

/// Whether a viewport is too small to hold any sprite.
pub open spec fn degenerate(width_px: int, height_px: int) -> bool {
    width_px < MIN_VIEWPORT_PX || height_px < MIN_VIEWPORT_PX
}

/// Padding around the viewport, in milli-pixels: 0.35 of its height.
pub open spec fn padding_mpx(height_px: int) -> int {
    height_px * PADDING_PM
}

/// Depth for a uniform draw `r / DRAW_SCALE`: its square, biased toward 0.
pub open spec fn depth_from_draw(r: int) -> int {
    r * r / (DRAW_SCALE as int)
}

/// Side length for a uniform draw: 50 px plus up to 180 px.
pub open spec fn size_from_draw(r: int) -> int {
    MIN_SIZE_MPX + r * SIZE_SPREAD_PX / 1000
}

/// Coordinate for a uniform draw: from `lo`, across the part of an `extent`
/// wide band that keeps a sprite of side `size` inside it.
pub open spec fn coord_from_draw(lo: int, extent: int, size: int, r: int) -> int {
    let room = if extent - size > 0 { extent - size } else { 0 };
    lo + r * room / (DRAW_SCALE as int)
}

/// Twice a footprint's centre coordinate along one axis.
pub open spec fn centre2(pos: int, size: int) -> int {
    2 * pos + size
}

/// Whether a footprint at `(x, y)` of side `size` comes too near sprite `o`.
/// Footprints are circles of radius 0.45 side about the square's centre; two
/// are too near when their centres are closer than 0.95 of the summed radii,
/// i.e. when `|2 (c - c_o)| < 0.855 (size + size_o)`, compared here squared.
pub open spec fn too_close(x: int, y: int, size: int, o: Sprite) -> bool {
    let dx = centre2(x, size) - centre2(o.x_mpx as int, o.size_mpx as int);
    let dy = centre2(y, size) - centre2(o.y_mpx as int, o.size_mpx as int);
    let s = size + o.size_mpx;
    1_000_000 * (dx * dx + dy * dy) < 731_025 * (s * s)
}

/// Two sprites whose footprints keep their distance.
pub open spec fn separated(a: Sprite, b: Sprite) -> bool {
    !too_close(a.x_mpx as int, a.y_mpx as int, a.size_mpx as int, b)
}

/// A candidate keeps its distance from every sprite already placed.
pub open spec fn fits_among(c: Sprite, placed: Seq<Sprite>) -> bool {
    forall|i: int| 0 <= i < placed.len() ==> separated(c, #[trigger] placed[i])
}

/// The sprite proposed by one attempt from generator state `s`, given the
/// position `id` it would take: draws for depth, size, x, y and seed, in order.
pub open spec fn candidate_at(width_px: int, height_px: int, s: u64, id: int) -> Sprite {
    let s1 = next_state(s);
    let s2 = next_state(s1);
    let s3 = next_state(s2);
    let s4 = next_state(s3);
    let s5 = next_state(s4);
    let pad = padding_mpx(height_px);
    let size = size_from_draw(draw_of(s2));
    Sprite {
        id: id as u32,
        x_mpx: coord_from_draw(-pad, width_px * 1000 + 2 * pad, size, draw_of(s3)) as i64,
        y_mpx: coord_from_draw(-pad, height_px * 1000 + 2 * pad, size, draw_of(s4)) as i64,
        size_mpx: size as i64,
        depth_ppm: depth_from_draw(draw_of(s1)) as u32,
        seed_milli: draw_of(s5) as u32,
    }
}

/// Generator state after `n` draws from `s`.
pub open spec fn state_after(s: u64, n: nat) -> u64
    decreases n,
{
    if n == 0 {
        s
    } else {
        next_state(state_after(s, (n - 1) as nat))
    }
}

/// Rejection sampling from state `s` with `attempts_left` attempts, on top of
/// `placed`: the sprites placed and the generator state afterwards. A rejected
/// attempt spends four draws; an accepted one five (the fifth is its seed).
pub open spec fn placement_run(
    width_px: int,
    height_px: int,
    s: u64,
    placed: Seq<Sprite>,
    attempts_left: nat,
) -> (Seq<Sprite>, u64)
    decreases attempts_left,
{
    if attempts_left == 0 || placed.len() >= target_count(width_px, height_px) {
        (placed, s)
    } else {
        let c = candidate_at(width_px, height_px, s, placed.len() as int);
        if fits_among(c, placed) {
            placement_run(width_px, height_px, state_after(s, 5), placed.push(c), (attempts_left - 1) as nat)
        } else {
            placement_run(width_px, height_px, state_after(s, 4), placed, (attempts_left - 1) as nat)
        }
    }
}

/// The whole batch for a viewport: nothing on a degenerate viewport, else
/// rejection sampling with a budget of 120 attempts per sprite aimed for.
pub open spec fn layout(width_px: int, height_px: int, s: u64) -> (Seq<Sprite>, u64) {
    if degenerate(width_px, height_px) {
        (Seq::empty(), s)
    } else {
        placement_run(
            width_px,
            height_px,
            s,
            Seq::empty(),
            (ATTEMPTS_PER_SPRITE * target_count(width_px, height_px)) as nat,
        )
    }
}

/// A sprite of batch position `i` lies wholly inside the padded region of the
/// viewport and has its drawn attributes in range.
pub open spec fn placed_well(sp: Sprite, i: int, width_px: int, height_px: int) -> bool {
    let pad = padding_mpx(height_px);
    &&& sp.id == i
    &&& MIN_SIZE_MPX <= sp.size_mpx < MIN_SIZE_MPX + SIZE_SPREAD_PX * 1000
    &&& -pad <= sp.x_mpx && sp.x_mpx + sp.size_mpx <= width_px * 1000 + pad
    &&& -pad <= sp.y_mpx && sp.y_mpx + sp.size_mpx <= height_px * 1000 + pad
    &&& sp.depth_ppm < DRAW_SCALE
    &&& sp.seed_milli < DRAW_SCALE
}

/// Every two sprites of `v` keep their distance.
pub open spec fn pairwise_separated(v: Seq<Sprite>) -> bool {
    forall|i: int, j: int|
        0 <= i < v.len() && 0 <= j < v.len() && i != j ==> separated(#[trigger] v[i], #[trigger] v[j])
}

/// Keeping one's distance is symmetric.
pub proof fn lemma_separated_symmetric(a: Sprite, b: Sprite)
    ensures
        separated(a, b) == separated(b, a),
{
    let dx = centre2(a.x_mpx as int, a.size_mpx as int) - centre2(b.x_mpx as int, b.size_mpx as int);
    let dy = centre2(a.y_mpx as int, a.size_mpx as int) - centre2(b.y_mpx as int, b.size_mpx as int);
    assert(dx * dx == (-dx) * (-dx)) by (nonlinear_arith);
    assert(dy * dy == (-dy) * (-dy)) by (nonlinear_arith);
    assert((a.size_mpx + b.size_mpx) * (a.size_mpx + b.size_mpx) == (b.size_mpx + a.size_mpx) * (
    b.size_mpx + a.size_mpx));
}

/// Number of sprites aimed for on a viewport, as `target_count` states.
pub fn target_sprite_count(width_px: u32, height_px: u32) -> (n: u64)
    ensures
        n == target_count(width_px as int, height_px as int),
{
    assert((width_px as int) * (height_px as int) <= 0xFFFF_FFFF * 0xFFFF_FFFF) by (nonlinear_arith)
        requires
            width_px <= 0xFFFF_FFFF,
            height_px <= 0xFFFF_FFFF,
    ;
    let area: u128 = (width_px as u128) * (height_px as u128);
    let n: u128 = (area + (AREA_PER_SPRITE / 2) as u128) / (AREA_PER_SPRITE as u128);
    if n < MIN_SPRITES as u128 {
        MIN_SPRITES
    } else if n > MAX_SPRITES as u128 {
        MAX_SPRITES
    } else {
        n as u64
    }
}

proof fn lemma_scaled_draw(r: int, room: int)
    requires
        0 <= r < DRAW_SCALE,
        0 <= room,
    ensures
        0 <= r * room / (DRAW_SCALE as int) <= room,
{
    lemma_mul_nonnegative(r, room);
    lemma_div_pos_is_pos(r * room, DRAW_SCALE as int);
    lemma_mul_inequality(r, DRAW_SCALE as int, room);
    assert(r * room <= room * DRAW_SCALE) by (nonlinear_arith)
        requires
            r * room <= DRAW_SCALE * room,
    ;
    lemma_div_is_ordered(r * room, room * DRAW_SCALE, DRAW_SCALE as int);
    lemma_div_multiples_vanish(room, DRAW_SCALE as int);
    assert(DRAW_SCALE * room == room * DRAW_SCALE) by (nonlinear_arith);
}

/// Coordinate for a draw, as `coord_from_draw` states, inside `[lo, lo + extent - size]`.
fn coord_for(lo: i64, extent: i64, size: i64, r: u32) -> (c: i64)
    requires
        -COORD_BOUND <= lo <= 0,
        0 <= extent <= COORD_BOUND,
        0 <= size <= extent,
        r < DRAW_SCALE,
    ensures
        c == coord_from_draw(lo as int, extent as int, size as int, r as int),
        lo <= c,
        c + size <= lo + extent,
{
    let room: i64 = extent - size;
    proof {
        lemma_scaled_draw(r as int, room as int);
    }
    let off: i128 = (r as i128) * (room as i128) / (DRAW_SCALE as i128);
    lo + (off as i64)
}

/// Squared-distance test of a footprint against one sprite, as `too_close` states.
fn too_close_to(x: i64, y: i64, size: i64, o: &Sprite) -> (r: bool)
    requires
        -COORD_BOUND <= x <= COORD_BOUND,
        -COORD_BOUND <= y <= COORD_BOUND,
        0 <= size <= COORD_BOUND,
        -COORD_BOUND <= o.x_mpx <= COORD_BOUND,
        -COORD_BOUND <= o.y_mpx <= COORD_BOUND,
        0 <= o.size_mpx <= COORD_BOUND,
    ensures
        r == too_close(x as int, y as int, size as int, *o),
{
    let dx: i128 = (2 * (x as i128) + size as i128) - (2 * (o.x_mpx as i128) + o.size_mpx as i128);
    let dy: i128 = (2 * (y as i128) + size as i128) - (2 * (o.y_mpx as i128) + o.size_mpx as i128);
    let s: i128 = size as i128 + o.size_mpx as i128;
    assert(dx * dx <= 0x100_0000_0000_0000_0000_0000_0000) by (nonlinear_arith)
        requires
            -0x10_0000_0000_0000 <= dx <= 0x10_0000_0000_0000,
    ;
    assert(dy * dy <= 0x100_0000_0000_0000_0000_0000_0000) by (nonlinear_arith)
        requires
            -0x10_0000_0000_0000 <= dy <= 0x10_0000_0000_0000,
    ;
    assert(0 <= s * s <= 0x100_0000_0000_0000_0000_0000_0000) by (nonlinear_arith)
        requires
            0 <= s <= 0x10_0000_0000_0000,
    ;
    assert(0 <= dx * dx && 0 <= dy * dy) by (nonlinear_arith);
    let d2: i128 = dx * dx + dy * dy;
    1_000_000 * d2 < 731_025 * (s * s)
}

/// Whether a footprint comes too near any sprite of `placed`.
fn too_close_to_any(x: i64, y: i64, size: i64, placed: &Vec<Sprite>) -> (r: bool)
    requires
        -COORD_BOUND <= x <= COORD_BOUND,
        -COORD_BOUND <= y <= COORD_BOUND,
        0 <= size <= COORD_BOUND,
        forall|i: int|
            0 <= i < placed@.len() ==> {
                &&& -COORD_BOUND <= #[trigger] placed@[i].x_mpx <= COORD_BOUND
                &&& -COORD_BOUND <= placed@[i].y_mpx <= COORD_BOUND
                &&& 0 <= placed@[i].size_mpx <= COORD_BOUND
            },
    ensures
        r == exists|i: int|
            0 <= i < placed@.len() && too_close(x as int, y as int, size as int, #[trigger] placed@[i]),
{
    let mut k: usize = 0;
    while k < placed.len()
        invariant
            k <= placed@.len(),
            -COORD_BOUND <= x <= COORD_BOUND,
            -COORD_BOUND <= y <= COORD_BOUND,
            0 <= size <= COORD_BOUND,
            forall|i: int|
                0 <= i < placed@.len() ==> {
                    &&& -COORD_BOUND <= #[trigger] placed@[i].x_mpx <= COORD_BOUND
                    &&& -COORD_BOUND <= placed@[i].y_mpx <= COORD_BOUND
                    &&& 0 <= placed@[i].size_mpx <= COORD_BOUND
                },
            forall|i: int| 0 <= i < k ==> !too_close(x as int, y as int, size as int, #[trigger] placed@[i]),
        decreases placed@.len() - k,
    {
        if too_close_to(x, y, size, &placed[k]) {
            return true;
        }
        k += 1;
    }
    false
}

/// Places the sprites for a viewport, drawing from `rng`: exactly the batch
/// that `layout` describes. On a viewport under 200 px either way the batch is
/// empty; otherwise it holds at most `target_count` sprites, each inside the
/// padded region, no two closer than their footprints allow. When the attempt
/// budget runs out first, the sprites placed so far are the batch.
pub fn generate(width_px: u32, height_px: u32, rng: &mut RandomSource) -> (sprites: Vec<Sprite>)
    ensures
        (sprites@, final(rng).state) == layout(width_px as int, height_px as int, old(rng).state),
        degenerate(width_px as int, height_px as int) ==> sprites@.len() == 0,
        sprites@.len() <= target_count(width_px as int, height_px as int),
        forall|i: int|
            0 <= i < sprites@.len() ==> placed_well(
                #[trigger] sprites@[i],
                i,
                width_px as int,
                height_px as int,
            ),
        pairwise_separated(sprites@),
{
    if width_px < MIN_VIEWPORT_PX || height_px < MIN_VIEWPORT_PX {
        return Vec::new();
    }
    let ghost w = width_px as int;
    let ghost h = height_px as int;
    let ghost start = rng.state;
    let count = target_sprite_count(width_px, height_px);
    let budget: u64 = ATTEMPTS_PER_SPRITE * count;
    let pad: i64 = (height_px as i64) * PADDING_PM;
    let ext_x: i64 = (width_px as i64) * 1000 + 2 * pad;
    let ext_y: i64 = (height_px as i64) * 1000 + 2 * pad;
    let mut v: Vec<Sprite> = Vec::new();
    let mut attempts: u64 = 0;
    while (v.len() as u64) < count && attempts < budget
        invariant
            !degenerate(w, h),
            w == width_px,
            h == height_px,
            count == target_count(w, h),
            MIN_SPRITES <= count <= MAX_SPRITES,
            budget == ATTEMPTS_PER_SPRITE * count,
            attempts <= budget,
            v@.len() <= count,
            pad == padding_mpx(h),
            ext_x == w * 1000 + 2 * pad,
            ext_y == h * 1000 + 2 * pad,
            placement_run(w, h, rng.state, v@, (budget - attempts) as nat) == layout(w, h, start),
            forall|i: int| 0 <= i < v@.len() ==> placed_well(#[trigger] v@[i], i, w, h),
            pairwise_separated(v@),
        decreases budget - attempts,
    {
        let ghost s0 = rng.state;
        let ghost left = (budget - attempts) as nat;
        attempts += 1;
        let r_depth = rng.next_draw();
        let r_size = rng.next_draw();
        let r_x = rng.next_draw();
        let r_y = rng.next_draw();
        proof {
            reveal_with_fuel(state_after, 6);
            assert(state_after(s0, 4) == rng.state);
            assert((r_depth as int) * (r_depth as int) < DRAW_SCALE * DRAW_SCALE) by (nonlinear_arith)
                requires
                    r_depth < DRAW_SCALE,
            ;
            lemma_scaled_draw(r_depth as int, r_depth as int);
            lemma_scaled_draw(r_size as int, SIZE_SPREAD_PX * 1000);
        }
        let depth: u32 = ((r_depth as u64) * (r_depth as u64) / (DRAW_SCALE as u64)) as u32;
        let size: i64 = MIN_SIZE_MPX + (r_size as i64) * SIZE_SPREAD_PX / 1000;
        let x = coord_for(-pad, ext_x, size, r_x);
        let y = coord_for(-pad, ext_y, size, r_y);
        let ghost c = candidate_at(w, h, s0, v@.len() as int);
        assert(c.x_mpx == x && c.y_mpx == y && c.size_mpx == size && c.depth_ppm == depth);
        assert forall|i: int| 0 <= i < v@.len() implies {
            &&& -COORD_BOUND <= #[trigger] v@[i].x_mpx <= COORD_BOUND
            &&& -COORD_BOUND <= v@[i].y_mpx <= COORD_BOUND
            &&& 0 <= v@[i].size_mpx <= COORD_BOUND
        } by {
            assert(placed_well(v@[i], i, w, h));
        }
        if too_close_to_any(x, y, size, &v) {
            proof {
                let i = choose|i: int| 0 <= i < v@.len() && too_close(x as int, y as int, size as int, #[trigger] v@[i]);
                assert(!separated(c, v@[i]));
                assert(!fits_among(c, v@));
            }
            continue;
        }
        let seed = rng.next_draw();
        let sp = Sprite {
            id: v.len() as u32,
            x_mpx: x,
            y_mpx: y,
            size_mpx: size,
            depth_ppm: depth,
            seed_milli: seed,
        };
        proof {
            reveal_with_fuel(state_after, 6);
            assert(state_after(s0, 5) == rng.state);
            assert(sp == c);
            assert(fits_among(c, v@));
        }
        let ghost before = v@;
        v.push(sp);
        proof {
            assert forall|i: int, j: int|
                0 <= i < v@.len() && 0 <= j < v@.len() && i != j implies separated(
                #[trigger] v@[i],
                #[trigger] v@[j],
            ) by {
                if i < before.len() && j < before.len() {
                    assert(v@[j] == before[j] && v@[i] == before[i]);
                } else if i == before.len() {
                    assert(v@[i] == sp && v@[j] == before[j]);
                } else {
                    assert(v@[j] == sp && v@[i] == before[i]);
                    lemma_separated_symmetric(before[i], sp);
                }
            }
            assert forall|i: int| 0 <= i < v@.len() implies placed_well(#[trigger] v@[i], i, w, h) by {
                if i < before.len() {
                    assert(v@[i] == before[i]);
                }
            }
        }
    }
    v
}

/// On a viewport of at least 200 px either way, between 5 and 8 sprites are
/// aimed for; and a larger area never calls for fewer than a smaller one.
pub proof fn lemma_target_count_clamped_monotone(w1: int, h1: int, w2: int, h2: int)
    requires
        !degenerate(w1, h1),
        !degenerate(w2, h2),
        w1 * h1 <= w2 * h2,
    ensures
        MIN_SPRITES <= target_count(w1, h1) <= MAX_SPRITES,
        MIN_SPRITES <= target_count(w2, h2) <= MAX_SPRITES,
        target_count(w1, h1) <= target_count(w2, h2),
{
    lemma_div_is_ordered(
        w1 * h1 + AREA_PER_SPRITE / 2,
        w2 * h2 + AREA_PER_SPRITE / 2,
        AREA_PER_SPRITE as int,
    );
}

/// A depth never exceeds the draw it was made from, so depths lean toward 0.
pub proof fn lemma_depth_below_draw(r: int)
    requires
        0 <= r < DRAW_SCALE,
    ensures
        0 <= depth_from_draw(r) <= r,
{
    lemma_scaled_draw(r, r);
}

/// Width (in pixels) from which the sprite field is shown at all.
pub const FIELD_MIN_WIDTH_PX: u32 = 768;

/// Whether a viewport this wide shows the sprite field.
pub fn field_shown(width_px: u32) -> (r: bool)
    ensures
        r == (width_px >= FIELD_MIN_WIDTH_PX),
{
    width_px >= FIELD_MIN_WIDTH_PX
}

/// The sprite batch of the last viewport seen, regenerated only when the
/// viewport's dimensions change.
pub struct LayoutCache {
    /// Dimensions (width, height) in pixels that `sprites` was made for.
    pub viewport: Option<(u32, u32)>,
    pub sprites: Vec<Sprite>,
}

impl LayoutCache {
    /// A cache that has seen no viewport yet.
    pub fn new() -> (c: Self)
        ensures
            c.viewport is None,
            c.sprites@.len() == 0,
    {
        LayoutCache { viewport: None, sprites: Vec::new() }
    }

    /// The batch for a viewport: the cached one, untouched, when the
    /// dimensions are those last seen; else a fresh batch from `rng`, which
    /// replaces the old one.
    pub fn sprites_for(&mut self, width_px: u32, height_px: u32, rng: &mut RandomSource) -> (r: Vec<Sprite>)
        ensures
            old(self).viewport == Some((width_px, height_px)) ==> {
                &&& r@ == old(self).sprites@
                &&& final(self).sprites@ == old(self).sprites@
                &&& final(rng).state == old(rng).state
            },
            old(self).viewport != Some((width_px, height_px)) ==> {
                &&& (r@, final(rng).state) == layout(width_px as int, height_px as int, old(rng).state)
                &&& final(self).sprites@ == r@
            },
            final(self).viewport == Some((width_px, height_px)),
    {
        let same = match self.viewport {
            Some((w, h)) => w == width_px && h == height_px,
            None => false,
        };
        if !same {
            self.sprites = generate(width_px, height_px, rng);
            self.viewport = Some((width_px, height_px));
        }
        let r = self.sprites.clone();
        assert(r@ =~= self.sprites@);
        r
    }
}

} // verus!
