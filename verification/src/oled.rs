//! Stars engine: a flocking particle animation rendered into a 32 x 128
//! monochrome framebuffer in saturating 16.16 fixed-point arithmetic, plus
//! sprite compositing over the rendered frame.
use vstd::prelude::*;

use crate::frames::Frame;
use crate::fx::{
    fx_div, fx_mul, fx_saturating_abs, fx_saturating_add, fx_saturating_div, fx_saturating_mul,
    fx_saturating_sub, fx_sqrt, fx_from_int, fx_to_int, is_isqrt, sat32, FX_ONE,
};

verus! {

/// Number of slots in the star pool.
pub const STAR_TOTAL: usize = 64;

/// Below this many live stars a trickle of new ones is spawned.
pub const MIN_STARS: usize = 3;

/// Frames over which a dying star flickers out.
pub const DEATH_TIME: u16 = 60;

/// Smallest and largest lifetime a fresh star is drawn with.
pub const MIN_LIFETIME: u16 = 100;

/// One past the largest lifetime a fresh star is drawn with.
pub const MAX_LIFETIME: u16 = 500;

/// Bytes in one framebuffer (32 x 128 pixels, one bit each).
pub const FRAME_SZ: usize = 512;

// Flocking model constants, as 16.16 bit patterns.
/// Velocity bias applied near an edge (0.2).
pub const TURN_FACTOR: i32 = 13107;

/// Distance under which another star is a neighbor (10.0).
pub const VISUAL_RANGE: i32 = 655360;

/// Distance under which another star is avoided (4.0).
pub const PROTECTED_RANGE: i32 = 262144;

/// Pull toward the neighbors' average position (0.0005).
pub const CENTERING_FACTOR: i32 = 33;

/// Push away from stars in the protected range (0.05).
pub const AVOID_FACTOR: i32 = 3277;

/// Pull toward the neighbors' average velocity (0.03).
pub const MATCHING_FACTOR: i32 = 1966;

/// Upper speed bound (2.0).
pub const MAX_SPEED: i32 = 131072;

/// Lower speed bound (0.4).
pub const MIN_SPEED: i32 = 26214;

/// Display width in pixels, as a 16.16 value (32.0).
pub const WIDTH_FX: i32 = 2097152;

/// Display height in pixels, as a 16.16 value (128.0).
pub const HEIGHT_FX: i32 = 8388608;

/// Margin from the walls where the edge bias starts (2.0).
pub const PADDING_FX: i32 = 131072;

#[verifier::external_type_specification]
#[verifier::external_body]
pub struct ExSmallRng(rand::rngs::SmallRng);

/// Relies on rand::SeedableRng::seed_from_u64 for SmallRng: builds a
/// deterministic generator from a seed. Nothing is assumed of its output.
#[verifier::external_body]
pub(crate) fn rng_from_seed(seed: u64) -> rand::rngs::SmallRng {
    <rand::rngs::SmallRng as rand::SeedableRng>::seed_from_u64(seed)
}

/// Relies on rand::Rng::gen_range over an i32 half-open range: it panics only
/// on an empty range (excluded here) and returns a value inside the range.
#[verifier::external_body]
pub(crate) fn rng_range_i32(rng: &mut rand::rngs::SmallRng, lo: i32, hi: i32) -> (r: i32)
    requires
        lo < hi,
    ensures
        lo <= r < hi,
{
    rand::Rng::gen_range(rng, lo..hi)
}

/// Relies on rand::Rng::gen_range over a u16 half-open range: it panics only
/// on an empty range (excluded here) and returns a value inside the range.
#[verifier::external_body]
pub(crate) fn rng_range_u16(rng: &mut rand::rngs::SmallRng, lo: u16, hi: u16) -> (r: u16)
    requires
        lo < hi,
    ensures
        lo <= r < hi,
{
    rand::Rng::gen_range(rng, lo..hi)
}

/// One star: position and velocity as 16.16 bit patterns in display
/// coordinates (x across the 32-pixel width, y along the 128-pixel height),
/// and the frames it has left to live.
#[derive(Clone, Copy, PartialEq, Eq, Structural, Debug)]
pub struct Star {
    pub x: i32,
    pub y: i32,
    pub vx: i32,
    pub vy: i32,
    pub lifetime: u16,
}

/// Accumulators gathered over a star's neighbors in one frame.
#[derive(Clone, Copy, PartialEq, Eq, Structural, Debug)]
pub struct Flock {
    pub xpos_avg: i32,
    pub ypos_avg: i32,
    pub xvel_avg: i32,
    pub yvel_avg: i32,
    /// Number of stars in visual range, as a 16.16 value.
    pub neighbors: i32,
    pub close_dx: i32,
    pub close_dy: i32,
}

/// Accumulators before any neighbor has been seen.
pub open spec fn empty_flock() -> Flock {
    Flock {
        xpos_avg: 0,
        ypos_avg: 0,
        xvel_avg: 0,
        yvel_avg: 0,
        neighbors: 0,
        close_dx: 0,
        close_dy: 0,
    }
}

/// Folds one other star into the accumulators: within the protected range its
/// offset feeds the separation sums, within the visual range its position and
/// velocity feed the cohesion and alignment sums.
pub open spec fn spec_scan_step(f: Flock, me: Star, other: Star) -> Flock {
    let dx = sat32(me.x - other.x);
    let dy = sat32(me.y - other.y);
    if sat32(vstd::math::abs(dx) as int) < VISUAL_RANGE && sat32(vstd::math::abs(dy) as int)
        < VISUAL_RANGE {
        let d2 = sat32(fx_mul(dx, dx) + fx_mul(dy, dy));
        if d2 < fx_mul(PROTECTED_RANGE as int, PROTECTED_RANGE as int) {
            Flock {
                close_dx: sat32(f.close_dx + dx) as i32,
                close_dy: sat32(f.close_dy + dy) as i32,
                ..f
            }
        } else if d2 < fx_mul(VISUAL_RANGE as int, VISUAL_RANGE as int) {
            Flock {
                xpos_avg: sat32(f.xpos_avg + other.x) as i32,
                ypos_avg: sat32(f.ypos_avg + other.y) as i32,
                xvel_avg: sat32(f.xvel_avg + other.vx) as i32,
                yvel_avg: sat32(f.yvel_avg + other.vy) as i32,
                neighbors: sat32(f.neighbors + FX_ONE) as i32,
                ..f
            }
        } else {
            f
        }
    } else {
        f
    }
}

/// The accumulators after folding the first `i` pool slots, skipping the
/// star's own slot and empty slots.
pub open spec fn spec_scan(stars: Seq<Option<Star>>, our_idx: int, me: Star, i: int) -> Flock
    decreases i,
{
    if i <= 0 {
        empty_flock()
    } else {
        let prev = spec_scan(stars, our_idx, me, i - 1);
        if i - 1 != our_idx {
            match stars[i - 1] {
                Some(other) => spec_scan_step(prev, me, other),
                None => prev,
            }
        } else {
            prev
        }
    }
}

/// Gathers the flocking accumulators for the star in slot `our_idx` over the
/// whole pool.
pub fn scan_neighbors(stars: &[Option<Star>; 64], our_idx: usize, me: Star) -> (f: Flock)
    ensures
        f == spec_scan(stars@, our_idx as int, me, 64),
{
    let mut f = Flock {
        xpos_avg: 0,
        ypos_avg: 0,
        xvel_avg: 0,
        yvel_avg: 0,
        neighbors: 0,
        close_dx: 0,
        close_dy: 0,
    };
    let protected_range_squared = fx_saturating_mul(PROTECTED_RANGE, PROTECTED_RANGE);
    let visual_range_squared = fx_saturating_mul(VISUAL_RANGE, VISUAL_RANGE);
    let mut i: usize = 0;
    while i < 64
        invariant
            i <= 64,
            f == spec_scan(stars@, our_idx as int, me, i as int),
            protected_range_squared as int == fx_mul(PROTECTED_RANGE as int, PROTECTED_RANGE as int),
            visual_range_squared as int == fx_mul(VISUAL_RANGE as int, VISUAL_RANGE as int),
        decreases 64 - i,
    {
        if i != our_idx {
            match stars[i] {
                Some(other) => {
                    let dx = fx_saturating_sub(me.x, other.x);
                    let dy = fx_saturating_sub(me.y, other.y);
                    if fx_saturating_abs(dx) < VISUAL_RANGE && fx_saturating_abs(dy)
                        < VISUAL_RANGE {
                        let squared_distance = fx_saturating_add(
                            fx_saturating_mul(dx, dx),
                            fx_saturating_mul(dy, dy),
                        );
                        if squared_distance < protected_range_squared {
                            f.close_dx = fx_saturating_add(f.close_dx, dx);
                            f.close_dy = fx_saturating_add(f.close_dy, dy);
                        } else if squared_distance < visual_range_squared {
                            f.xpos_avg = fx_saturating_add(f.xpos_avg, other.x);
                            f.ypos_avg = fx_saturating_add(f.ypos_avg, other.y);
                            f.xvel_avg = fx_saturating_add(f.xvel_avg, other.vx);
                            f.yvel_avg = fx_saturating_add(f.yvel_avg, other.vy);
                            f.neighbors = fx_saturating_add(f.neighbors, FX_ONE);
                        }
                    }
                }
                None => {}
            }
        }
        i = i + 1;
    }
    f
}

} // verus!

verus! {

/// Velocity after the cohesion and alignment pull toward the neighbors'
/// averages; unchanged when there is no neighbor.
pub open spec fn spec_flock_velocity(me: Star, f: Flock) -> (int, int) {
    if f.neighbors != 0 {
        let xa = fx_div(f.xpos_avg as int, f.neighbors as int);
        let ya = fx_div(f.ypos_avg as int, f.neighbors as int);
        let xva = fx_div(f.xvel_avg as int, f.neighbors as int);
        let yva = fx_div(f.yvel_avg as int, f.neighbors as int);
        (
            sat32(
                me.vx + sat32(
                    fx_mul(sat32(xa - me.x), CENTERING_FACTOR as int) + fx_mul(
                        sat32(xva - me.vx),
                        MATCHING_FACTOR as int,
                    ),
                ),
            ),
            sat32(
                me.vy + sat32(
                    fx_mul(sat32(ya - me.y), CENTERING_FACTOR as int) + fx_mul(
                        sat32(yva - me.vy),
                        MATCHING_FACTOR as int,
                    ),
                ),
            ),
        )
    } else {
        (me.vx as int, me.vy as int)
    }
}

/// Velocity after the separation push away from too-close stars.
pub open spec fn spec_avoid(vx: int, vy: int, f: Flock) -> (int, int) {
    (
        sat32(vx + fx_mul(f.close_dx as int, AVOID_FACTOR as int)),
        sat32(vy + fx_mul(f.close_dy as int, AVOID_FACTOR as int)),
    )
}

/// Velocity after the bias that turns a star near a wall back toward the
/// interior.
pub open spec fn spec_edge_bias(me: Star, vx: int, vy: int) -> (int, int) {
    let vy1 = if me.y < PADDING_FX {
        sat32(vy + TURN_FACTOR)
    } else {
        vy
    };
    let vx1 = if me.x > WIDTH_FX - PADDING_FX {
        sat32(vx - TURN_FACTOR)
    } else {
        vx
    };
    let vx2 = if me.x < PADDING_FX {
        sat32(vx1 + TURN_FACTOR)
    } else {
        vx1
    };
    let vy2 = if me.y > HEIGHT_FX - PADDING_FX {
        sat32(vy1 - TURN_FACTOR)
    } else {
        vy1
    };
    (vx2, vy2)
}

/// Velocity before the speed limits: flocking pull, separation push, then
/// edge bias.
pub open spec fn spec_pre_speed(me: Star, f: Flock) -> (int, int) {
    let (vx0, vy0) = spec_flock_velocity(me, f);
    let (vx1, vy1) = spec_avoid(vx0, vy0, f);
    spec_edge_bias(me, vx1, vy1)
}

/// Velocity rescaled onto the allowed speed band, given the current speed:
/// too slow is scaled up to the minimum (with a one-bit floor against
/// dividing by zero), too fast is scaled down to the maximum.
pub open spec fn spec_limit(vx: int, vy: int, speed: int) -> (int, int) {
    if speed < MIN_SPEED {
        let sp = if speed >= 1 {
            speed
        } else {
            1int
        };
        (
            fx_mul(fx_div(vx, sp), MIN_SPEED as int),
            fx_mul(fx_div(vy, sp), MIN_SPEED as int),
        )
    } else if speed > MAX_SPEED {
        (
            fx_mul(fx_div(vx, speed), MAX_SPEED as int),
            fx_mul(fx_div(vy, speed), MAX_SPEED as int),
        )
    } else {
        (vx, vy)
    }
}

/// Computes a star's new velocity for one frame from its neighbor
/// accumulators: flocking forces, edge bias, then the speed limits, where the
/// speed is the integer square root of the squared-velocity sum in 16.16.
pub fn steer(me: Star, f: Flock) -> (v: (i32, i32))
    ensures
        ({
            let (vx3, vy3) = spec_pre_speed(me, f);
            exists|speed: int|
                #[trigger] is_isqrt(
                    sat32(fx_mul(vx3, vx3) + fx_mul(vy3, vy3)) * (FX_ONE as int),
                    speed,
                ) && (v.0 as int, v.1 as int) == spec_limit(vx3, vy3, speed)
        }),
{
    let mut vx = me.vx;
    let mut vy = me.vy;
    if f.neighbors != 0 {
        let xpos_avg = fx_saturating_div(f.xpos_avg, f.neighbors);
        let ypos_avg = fx_saturating_div(f.ypos_avg, f.neighbors);
        let xvel_avg = fx_saturating_div(f.xvel_avg, f.neighbors);
        let yvel_avg = fx_saturating_div(f.yvel_avg, f.neighbors);
        vx = fx_saturating_add(
            vx,
            fx_saturating_add(
                fx_saturating_mul(fx_saturating_sub(xpos_avg, me.x), CENTERING_FACTOR),
                fx_saturating_mul(fx_saturating_sub(xvel_avg, vx), MATCHING_FACTOR),
            ),
        );
        vy = fx_saturating_add(
            vy,
            fx_saturating_add(
                fx_saturating_mul(fx_saturating_sub(ypos_avg, me.y), CENTERING_FACTOR),
                fx_saturating_mul(fx_saturating_sub(yvel_avg, me.vy), MATCHING_FACTOR),
            ),
        );
    }
    vx = fx_saturating_add(vx, fx_saturating_mul(f.close_dx, AVOID_FACTOR));
    vy = fx_saturating_add(vy, fx_saturating_mul(f.close_dy, AVOID_FACTOR));
    if me.y < PADDING_FX {
        vy = fx_saturating_add(vy, TURN_FACTOR);
    }
    if me.x > WIDTH_FX - PADDING_FX {
        vx = fx_saturating_sub(vx, TURN_FACTOR);
    }
    if me.x < PADDING_FX {
        vx = fx_saturating_add(vx, TURN_FACTOR);
    }
    if me.y > HEIGHT_FX - PADDING_FX {
        vy = fx_saturating_sub(vy, TURN_FACTOR);
    }
    proof {
        assert(vx as int * vx as int >= 0) by (nonlinear_arith);
        assert(vy as int * vy as int >= 0) by (nonlinear_arith);
    }
    let sumsq = fx_saturating_add(fx_saturating_mul(vx, vx), fx_saturating_mul(vy, vy));
    let speed = fx_sqrt(sumsq);
    let r = if speed < MIN_SPEED {
        let sp = if speed >= 1 {
            speed
        } else {
            1
        };
        let rx = fx_saturating_mul(fx_saturating_div(vx, sp), MIN_SPEED);
        let ry = fx_saturating_mul(fx_saturating_div(vy, sp), MIN_SPEED);
        (rx, ry)
    } else if speed > MAX_SPEED {
        let rx = fx_saturating_mul(fx_saturating_div(vx, speed), MAX_SPEED);
        let ry = fx_saturating_mul(fx_saturating_div(vy, speed), MAX_SPEED);
        (rx, ry)
    } else {
        (vx, vy)
    };
    proof {
        let (vx3, vy3) = spec_pre_speed(me, f);
        assert(vx as int == vx3);
        assert(vy as int == vy3);
        assert(is_isqrt(sat32(fx_mul(vx3, vx3) + fx_mul(vy3, vy3)) * (FX_ONE as int), speed as int));
        assert((r.0 as int, r.1 as int) == spec_limit(vx3, vy3, speed as int));
    }
    r
}

/// A star one frame later: the position advanced by the velocity (saturating)
/// and the velocity stored; the lifetime is handled by the caller.
pub fn integrate(me: Star, vx: i32, vy: i32) -> (s: Star)
    ensures
        s.x as int == sat32(me.x + vx),
        s.y as int == sat32(me.y + vy),
        s.vx == vx,
        s.vy == vy,
        s.lifetime == me.lifetime,
{
    Star {
        x: fx_saturating_add(me.x, vx),
        y: fx_saturating_add(me.y, vy),
        vx,
        vy,
        lifetime: me.lifetime,
    }
}

/// Whether a star shows on frame `fc`: a dying star flickers, shown in a
/// share of frames proportional to its remaining lifetime.
pub open spec fn spec_visible(fc: int, lifetime: u16) -> bool {
    fc % (DEATH_TIME as int) < (if lifetime < DEATH_TIME {
        lifetime
    } else {
        DEATH_TIME
    }) as int
}

/// Whether a star shows this frame: a dying star flickers, shown in a share
/// of frames proportional to its remaining lifetime.
pub fn star_visible(frame_counter: usize, lifetime: u16) -> (r: bool)
    ensures
        r == spec_visible(frame_counter as int, lifetime),
{
    let show_chance = if lifetime < DEATH_TIME {
        lifetime
    } else {
        DEATH_TIME
    };
    frame_counter % (DEATH_TIME as usize) < (show_chance as usize)
}

/// The framebuffer with the bit for pixel (px, py) set; coordinates off the
/// display leave it unchanged. Pixels are packed row-major, eight per byte,
/// lowest bit first.
pub open spec fn spec_plot(buffer: Seq<u8>, px: int, py: int) -> Seq<u8> {
    if 0 <= px < 32 && 0 <= py < 128 {
        let idx = py * 32 + px;
        let byte = idx / 8;
        let bit = idx % 8;
        buffer.update(byte, buffer[byte] | (1u8 << (bit as u8)))
    } else {
        buffer
    }
}

/// Sets the framebuffer bit for pixel (px, py); coordinates off the display
/// leave the buffer unchanged.
pub fn plot_pixel(buffer: &mut Vec<u8>, px: i32, py: i32)
    requires
        old(buffer)@.len() == FRAME_SZ,
    ensures
        final(buffer)@ == spec_plot(old(buffer)@, px as int, py as int),
{
    if 0 <= px && px < 32 && 0 <= py && py < 128 {
        let idx = (py as usize) * 32 + (px as usize);
        let byte = idx / 8;
        let bit = (idx % 8) as u8;
        assert(bit < 8);
        let mask: u8 = 1u8 << bit;
        let b = buffer[byte];
        buffer[byte] = b | mask;
    }
}

} // verus!

verus! {

/// The bits of a byte in reverse order: sprite assets store the leftmost
/// pixel in the highest bit, the framebuffer in the lowest.
pub open spec fn spec_rev8(b: u8) -> u8 {
    ((b >> 7) & 1) | (((b >> 6) & 1) << 1) | (((b >> 5) & 1) << 2) | (((b >> 4) & 1) << 3) | (((b
        >> 3) & 1) << 4) | (((b >> 2) & 1) << 5) | (((b >> 1) & 1) << 6) | ((b & 1) << 7)
}

/// Reverses the bit order of a byte.
pub fn rev8(b: u8) -> (r: u8)
    ensures
        r == spec_rev8(b),
{
    ((b >> 7) & 1) | (((b >> 6) & 1) << 1) | (((b >> 5) & 1) << 2) | (((b >> 4) & 1) << 3) | (((b
        >> 3) & 1) << 4) | (((b >> 2) & 1) << 5) | (((b >> 1) & 1) << 6) | ((b & 1) << 7)
}

/// Byte column where a sprite at horizontal pixel position `pos_x` lands,
/// clamped so the sprite stays on the display.
pub open spec fn spec_ox(frame: &Frame, pos_x: int) -> int {
    (if pos_x < 32 - frame.width {
        pos_x
    } else {
        32 - frame.width
    }) / 8
}

/// Row where a sprite at vertical pixel position `pos_y` lands, clamped so
/// the sprite stays on the display.
pub open spec fn spec_oy(frame: &Frame, pos_y: int) -> int {
    if pos_y < 128 - frame.height {
        pos_y
    } else {
        128 - frame.height
    }
}

/// The framebuffer byte at `idx` after compositing `frame` at (ox, oy): bytes
/// under the sprite have the (bit-reversed) mask bits cleared and add bits
/// set; all other bytes are untouched.
pub open spec fn spec_masked_byte(buffer: Seq<u8>, frame: &Frame, ox: int, oy: int, idx: int) -> u8
    recommends
        0 <= idx < buffer.len(),
{
    let y = idx / 4;
    let x = idx % 4;
    let w = frame.spec_row_bytes();
    if ox <= x < ox + w && oy <= y < oy + frame.height {
        let m = spec_rev8(frame.mask@[(y - oy) * w + (x - ox)]);
        let a = spec_rev8(frame.add@[(y - oy) * w + (x - ox)]);
        (buffer[idx] & !m) | a
    } else {
        buffer[idx]
    }
}

/// Composites a sprite over the framebuffer at pixel position
/// (pos_x, pos_y), byte-column aligned: each covered byte keeps only the bits
/// outside the sprite's mask and gains the sprite's add bits.
pub fn apply_mask(buffer: &mut Vec<u8>, frame: &Frame, pos_x: usize, pos_y: usize)
    requires
        old(buffer)@.len() == FRAME_SZ,
        frame.wf(),
    ensures
        final(buffer)@.len() == FRAME_SZ,
        forall|idx: int|
            0 <= idx < FRAME_SZ ==> #[trigger] final(buffer)@[idx] == spec_masked_byte(
                old(buffer)@,
                frame,
                spec_ox(frame, pos_x as int),
                spec_oy(frame, pos_y as int),
                idx,
            ),
{
    let ox = (if pos_x < 32 - frame.width {
        pos_x
    } else {
        32 - frame.width
    }) / 8;
    let oy = if pos_y < 128 - frame.height {
        pos_y
    } else {
        128 - frame.height
    };
    let w = (frame.width + 7) / 8;
    let h = frame.height;
    assert(ox + w <= 4 && oy + h <= 128) by (nonlinear_arith)
        requires
            ox == (if pos_x < 32 - frame.width {
                pos_x as int
            } else {
                32 - frame.width
            }) / 8,
            oy == spec_oy(frame, pos_y as int),
            w == (frame.width + 7) / 8,
            h == frame.height,
            0 < frame.width <= 32,
            0 < frame.height <= 128,
    ;
    let mut x = ox;
    while x < ox + w
        invariant
            old(buffer)@.len() == FRAME_SZ,
            buffer@.len() == FRAME_SZ,
            frame.wf(),
            ox == spec_ox(frame, pos_x as int),
            oy == spec_oy(frame, pos_y as int),
            w == frame.spec_row_bytes(),
            h == frame.height,
            ox + w <= 4,
            oy + h <= 128,
            ox <= x <= ox + w,
            forall|idx: int|
                0 <= idx < FRAME_SZ ==> #[trigger] buffer@[idx] == (if ox <= idx % 4 < x {
                    spec_masked_byte(old(buffer)@, frame, ox as int, oy as int, idx)
                } else {
                    old(buffer)@[idx]
                }),
        decreases ox + w - x,
    {
        let mut y = oy;
        while y < oy + h
            invariant
                old(buffer)@.len() == FRAME_SZ,
                buffer@.len() == FRAME_SZ,
                frame.wf(),
                ox == spec_ox(frame, pos_x as int),
                oy == spec_oy(frame, pos_y as int),
                w == frame.spec_row_bytes(),
                h == frame.height,
                ox + w <= 4,
                oy + h <= 128,
                ox <= x < ox + w,
                oy <= y <= oy + h,
                forall|idx: int|
                    0 <= idx < FRAME_SZ ==> #[trigger] buffer@[idx] == (if ox <= idx % 4 < x || (
                    idx % 4 == x && oy <= idx / 4 < y) {
                        spec_masked_byte(old(buffer)@, frame, ox as int, oy as int, idx)
                    } else {
                        old(buffer)@[idx]
                    }),
            decreases oy + h - y,
        {
            proof {
                assert((y - oy) * w + (x - ox) < h * w && 0 <= (y - oy) * w && h * w
                    <= 512) by (nonlinear_arith)
                    requires
                        oy <= y < oy + h,
                        ox <= x < ox + w,
                        0 < w <= 4,
                        0 < h <= 128,
                ;
                assert(frame.mask@.len() == w * h);
                assert(h * w == w * h) by (nonlinear_arith);
            }
            let pidx = (y - oy) * w + (x - ox);
            let m = rev8(frame.mask[pidx]);
            let a = rev8(frame.add[pidx]);
            let bidx = y * 4 + x;
            let b = buffer[bidx];
            buffer[bidx] = (b & !m) | a;
            proof {
                assert(bidx as int % 4 == x as int && bidx as int / 4 == y as int) by (nonlinear_arith)
                    requires
                        bidx == y * 4 + x,
                        0 <= x < 4,
                        0 <= y,
                ;
            }
            y = y + 1;
        }
        x = x + 1;
    }
}

} // verus!

verus! {

/// The values one spawned star draws from the generator, as plain integers:
/// a position on the display, a velocity in pixels per frame, and a lifetime
/// in frames.
#[derive(Clone, Copy, PartialEq, Eq, Structural, Debug)]
pub struct SpawnDraw {
    pub x: i32,
    pub y: i32,
    pub vx: i32,
    pub vy: i32,
    pub lifetime: u16,
}

/// The documented ranges a fresh star is drawn from.
pub open spec fn spawn_draw_in_range(d: SpawnDraw) -> bool {
    &&& 0 <= d.x < 32
    &&& 0 <= d.y < 128
    &&& -2 <= d.vx < 2
    &&& -2 <= d.vy < 2
    &&& MIN_LIFETIME <= d.lifetime < MAX_LIFETIME
}

/// The star a draw creates: the drawn position and velocity scaled to 16.16.
pub open spec fn spec_fresh_star(d: SpawnDraw) -> Star {
    Star {
        x: (d.x * FX_ONE) as i32,
        y: (d.y * FX_ONE) as i32,
        vx: (d.vx * FX_ONE) as i32,
        vy: (d.vy * FX_ONE) as i32,
        lifetime: d.lifetime,
    }
}

/// Number of empty slots among the first `j` pool slots.
pub open spec fn empty_count(stars: Seq<Option<Star>>, j: int) -> int
    decreases j,
{
    if j <= 0 {
        0
    } else {
        empty_count(stars, j - 1) + if stars[j - 1] is None {
            1int
        } else {
            0int
        }
    }
}

/// The pending-spawn budget one frame works with: the count clamped to the
/// pool size.
pub open spec fn spec_budget(pending: int) -> int {
    if pending > STAR_TOTAL as int {
        STAR_TOTAL as int
    } else {
        pending
    }
}

/// The draws one frame uses: exactly the empty slots whose ordinal is inside
/// the budget get one, and every draw is in the documented ranges.
pub open spec fn draws_follow_policy(
    stars: Seq<Option<Star>>,
    budget: int,
    draws: Seq<Option<SpawnDraw>>,
) -> bool {
    &&& draws.len() == 64
    &&& forall|j: int|
        0 <= j < 64 ==> ((#[trigger] draws[j]) is Some <==> (stars[j] is None && empty_count(
            stars,
            j,
        ) < budget))
    &&& forall|j: int|
        0 <= j < 64 ==> ((#[trigger] draws[j]) matches Some(d) ==> spawn_draw_in_range(d))
}

/// The star slot `j` works on this frame: its own star, or the fresh star of
/// its draw when the slot is empty and a draw is supplied.
pub open spec fn slot_occupant(stars: Seq<Option<Star>>, draw: Option<SpawnDraw>, j: int) -> Option<
    Star,
> {
    if stars[j] is Some {
        stars[j]
    } else {
        match draw {
            Some(d) => Some(spec_fresh_star(d)),
            None => None,
        }
    }
}

/// The pool the slot's neighbor scan sees: the fresh star already stands in
/// its slot.
pub open spec fn slot_pool(stars: Seq<Option<Star>>, draw: Option<SpawnDraw>, j: int) -> Seq<
    Option<Star>,
> {
    if stars[j] is Some {
        stars
    } else {
        match draw {
            Some(d) => stars.update(j, Some(spec_fresh_star(d))),
            None => stars,
        }
    }
}

/// One star advanced by one frame against a pool, given its speed: steered by
/// its neighbors, moved, the new velocity stored; the lifetime is aged by the
/// caller.
pub open spec fn spec_advance_star(stars: Seq<Option<Star>>, j: int, me: Star, speed: int) -> Star {
    let f = spec_scan(stars, j, me, 64);
    let pre = spec_pre_speed(me, f);
    let v = spec_limit(pre.0, pre.1, speed);
    Star {
        x: sat32(me.x + v.0) as i32,
        y: sat32(me.y + v.1) as i32,
        vx: v.0 as i32,
        vy: v.1 as i32,
        lifetime: me.lifetime,
    }
}

/// `speed` is the right speed for that advance: the integer square root of
/// the star's squared-velocity sum before the limits.
pub open spec fn advance_speed_ok(stars: Seq<Option<Star>>, j: int, me: Star, speed: int) -> bool {
    let f = spec_scan(stars, j, me, 64);
    let pre = spec_pre_speed(me, f);
    is_isqrt(sat32(fx_mul(pre.0, pre.0) + fx_mul(pre.1, pre.1)) * (FX_ONE as int), speed)
}

/// The integer part of a 16.16 value, rounding toward minus infinity.
pub open spec fn fx_floor(a: int) -> int {
    a / (FX_ONE as int)
}

/// One frame slot processed: the slot's star (old or freshly drawn) is
/// advanced against the current pool, plotted unless its fade-out flicker
/// hides it on frame `fc`, and aged, freeing the slot when the lifetime runs
/// out; an empty slot without a draw changes nothing.
pub open spec fn spec_frame_step(
    stars: Seq<Option<Star>>,
    buffer: Seq<u8>,
    draw: Option<SpawnDraw>,
    speed: int,
    j: int,
    fc: int,
) -> (Seq<Option<Star>>, Seq<u8>) {
    match slot_occupant(stars, draw, j) {
        None => (stars, buffer),
        Some(me) => {
            let pool = slot_pool(stars, draw, j);
            let moved = spec_advance_star(pool, j, me, speed);
            let buffer2 = if spec_visible(fc, moved.lifetime) {
                spec_plot(buffer, fx_floor(moved.x as int), fx_floor(moved.y as int))
            } else {
                buffer
            };
            let slot = if me.lifetime == 1 {
                None
            } else {
                Some(Star { lifetime: (me.lifetime - 1) as u16, ..moved })
            };
            (pool.update(j, slot), buffer2)
        },
    }
}

/// The pool and framebuffer after the first `j` slots of one frame, given the
/// spawn draws and the per-slot speeds.
pub open spec fn spec_frame(
    stars: Seq<Option<Star>>,
    buffer: Seq<u8>,
    draws: Seq<Option<SpawnDraw>>,
    speeds: Seq<int>,
    fc: int,
    j: int,
) -> (Seq<Option<Star>>, Seq<u8>)
    decreases j,
{
    if j <= 0 {
        (stars, buffer)
    } else {
        let prev = spec_frame(stars, buffer, draws, speeds, fc, j - 1);
        spec_frame_step(prev.0, prev.1, draws[j - 1], speeds[j - 1], j - 1, fc)
    }
}

/// The speed supplied for slot `j` fits the pool state that slot sees.
pub open spec fn slot_speed_ok(
    stars: Seq<Option<Star>>,
    buffer: Seq<u8>,
    draws: Seq<Option<SpawnDraw>>,
    speeds: Seq<int>,
    fc: int,
    j: int,
) -> bool {
    let cur = spec_frame(stars, buffer, draws, speeds, fc, j).0;
    match slot_occupant(cur, draws[j], j) {
        None => true,
        Some(me) => advance_speed_ok(slot_pool(cur, draws[j], j), j, me, speeds[j]),
    }
}

/// A frame run reads only the slots already processed: draws and speeds that
/// agree below `j` give the same run.
pub proof fn lemma_frame_prefix(
    stars: Seq<Option<Star>>,
    buffer: Seq<u8>,
    d1: Seq<Option<SpawnDraw>>,
    s1: Seq<int>,
    d2: Seq<Option<SpawnDraw>>,
    s2: Seq<int>,
    fc: int,
    j: int,
)
    requires
        forall|k: int| 0 <= k < j ==> d1[k] == d2[k] && s1[k] == s2[k],
    ensures
        spec_frame(stars, buffer, d1, s1, fc, j) == spec_frame(stars, buffer, d2, s2, fc, j),
    decreases j,
{
    if j > 0 {
        lemma_frame_prefix(stars, buffer, d1, s1, d2, s2, fc, j - 1);
    }
}

/// Whether a slot's speed fits depends only on the draws and speeds up to and
/// including that slot.
pub proof fn lemma_slot_speed_prefix(
    stars: Seq<Option<Star>>,
    buffer: Seq<u8>,
    d1: Seq<Option<SpawnDraw>>,
    s1: Seq<int>,
    d2: Seq<Option<SpawnDraw>>,
    s2: Seq<int>,
    fc: int,
    j: int,
)
    requires
        0 <= j,
        forall|k: int| 0 <= k <= j ==> d1[k] == d2[k] && s1[k] == s2[k],
    ensures
        slot_speed_ok(stars, buffer, d1, s1, fc, j) == slot_speed_ok(stars, buffer, d2, s2, fc, j),
{
    lemma_frame_prefix(stars, buffer, d1, s1, d2, s2, fc, j);
}

/// The all-dark framebuffer a frame starts from.
pub open spec fn zero_frame() -> Seq<u8> {
    Seq::new(FRAME_SZ as nat, |i: int| 0u8)
}

/// Number of live stars among the first `i` pool slots.
pub open spec fn live_count(stars: Seq<Option<Star>>, i: int) -> int
    decreases i,
{
    if i <= 0 {
        0
    } else {
        live_count(stars, i - 1) + if stars[i - 1] is Some {
            1int
        } else {
            0int
        }
    }
}

/// At most one live star per slot.
pub proof fn lemma_live_count_bound(stars: Seq<Option<Star>>, i: int)
    requires
        i >= 0,
    ensures
        0 <= live_count(stars, i) <= i,
    decreases i,
{
    if i > 0 {
        lemma_live_count_bound(stars, i - 1);
    }
}

/// The flocking animation: a fixed pool of stars, a counter of stars waiting
/// to be spawned, the frame counter that paces the fade-out flicker, and the
/// generator for spawn positions.
pub struct StarsEngine {
    stars: [Option<Star>; 64],
    spawn_count: usize,
    frame_counter: usize,
    rng: rand::rngs::SmallRng,
}

impl StarsEngine {
    /// The star pool as a sequence of slots.
    pub closed spec fn spec_stars(&self) -> Seq<Option<Star>> {
        self.stars@
    }

    /// How many stars wait to be spawned.
    pub closed spec fn spec_spawn_count(&self) -> int {
        self.spawn_count as int
    }

    /// The frame counter that paces the fade-out flicker.
    pub closed spec fn spec_frame_counter(&self) -> int {
        self.frame_counter as int
    }

    /// Every live star has at least one frame to live: no slot holds a dead
    /// star.
    pub open spec fn wf(&self) -> bool {
        forall|j: int|
            0 <= j < 64 ==> (#[trigger] self.spec_stars()[j] matches Some(s) ==> s.lifetime >= 1)
    }

    /// An empty engine with a seeded spawn-position generator.
    pub fn new(seed: u64) -> (r: Self)
        ensures
            r.wf(),
            r.spec_spawn_count() == 0,
            live_count(r.spec_stars(), 64) == 0,
    {
        let stars: [Option<Star>; 64] = [None;64];
        let r = StarsEngine { stars, spawn_count: 0, frame_counter: 0, rng: rng_from_seed(seed) };
        proof {
            lemma_live_zero(r.spec_stars(), 64);
        }
        r
    }

    /// Asks the engine to spawn one star on a coming frame (one per key or
    /// link event); the pending count saturates rather than wraps.
    pub fn spawn_star(&mut self)
        ensures
            final(self).spec_spawn_count() == (if old(self).spec_spawn_count() == usize::MAX as int {
                old(self).spec_spawn_count()
            } else {
                old(self).spec_spawn_count() + 1
            }),
            final(self).spec_stars() == old(self).spec_stars(),
            old(self).wf() ==> final(self).wf(),
    {
        self.spawn_count = self.spawn_count.saturating_add(1);
    }

    /// How many stars wait to be spawned.
    pub fn pending_spawns(&self) -> (r: usize)
        ensures
            r as int == self.spec_spawn_count(),
    {
        self.spawn_count
    }

    /// Counts the live stars.
    pub fn live_stars(&self) -> (r: usize)
        ensures
            r as int == live_count(self.spec_stars(), 64),
    {
        let mut n: usize = 0;
        let mut i: usize = 0;
        while i < 64
            invariant
                i <= 64,
                n as int == live_count(self.spec_stars(), i as int),
                n <= i,
            decreases 64 - i,
        {
            match self.stars[i] {
                Some(_) => {
                    n = n + 1;
                }
                None => {}
            }
            i = i + 1;
        }
        n
    }

    /// Position (in 16.16 bits) and remaining lifetime of every live star, in
    /// slot order.
    pub fn star_info(&self) -> (r: Vec<(i32, i32, u16)>)
        requires
            self.wf(),
        ensures
            r@.len() == live_count(self.spec_stars(), 64),
            forall|k: int| 0 <= k < r@.len() ==> (#[trigger] r@[k]).2 >= 1,
    {
        let mut r: Vec<(i32, i32, u16)> = Vec::new();
        let mut i: usize = 0;
        while i < 64
            invariant
                self.wf(),
                i <= 64,
                r@.len() == live_count(self.spec_stars(), i as int),
                forall|k: int| 0 <= k < r@.len() ==> (#[trigger] r@[k]).2 >= 1,
            decreases 64 - i,
        {
            match self.stars[i] {
                Some(s) => {
                    r.push((s.x, s.y, s.lifetime));
                }
                None => {}
            }
            i = i + 1;
        }
        r
    }

    /// Advances the animation one frame and renders it: pending spawns fill
    /// the first empty slots while the (clamped) budget lasts, every live
    /// star is steered by its neighbors, moved, plotted unless its fade-out
    /// flicker hides it, and aged; stars out of lifetime free their slot, and
    /// a trickle keeps a minimum of the pool alive. The contract fixes the
    /// whole frame: which slots die, which are filled and with what ranges,
    /// the exact pending-count accounting, and — up to the drawn values and
    /// the measured speeds — the new pool and framebuffer themselves.
    #[verifier::rlimit(100)]
    pub fn step_frame(&mut self) -> (buffer: Vec<u8>)
        requires
            old(self).wf(),
        ensures
            final(self).wf(),
            buffer@.len() == FRAME_SZ,
            final(self).spec_spawn_count() <= STAR_TOTAL as int,
            0 <= live_count(final(self).spec_stars(), 64) <= STAR_TOTAL as int,
            // the fade clock advances one frame, wrapping
            final(self).spec_frame_counter() == (if old(self).spec_frame_counter()
                == usize::MAX as int {
                0int
            } else {
                old(self).spec_frame_counter() + 1
            }),
            // aging and death: every star alive at frame start loses one
            // frame of lifetime; a star on its last frame frees its slot
            forall|j: int|
                0 <= j < 64 ==> ((#[trigger] old(self).spec_stars()[j]) matches Some(s) ==> {
                    &&& (s.lifetime == 1 ==> final(self).spec_stars()[j] is None)
                    &&& (s.lifetime >= 2 ==> {
                        &&& final(self).spec_stars()[j] matches Some(t)
                        &&& t.lifetime == s.lifetime - 1
                    })
                }),
            // spawning: exactly the empty slots whose ordinal is inside the
            // budget are filled; a fresh star's lifetime is drawn from
            // [MIN_LIFETIME, MAX_LIFETIME) and aged once this same frame
            forall|j: int|
                0 <= j < 64 ==> (old(self).spec_stars()[j] is None ==> {
                    &&& ((#[trigger] final(self).spec_stars()[j]) is Some <==> empty_count(
                        old(self).spec_stars(),
                        j,
                    ) < spec_budget(old(self).spec_spawn_count()))
                    &&& (final(self).spec_stars()[j] matches Some(t) ==> MIN_LIFETIME - 1
                        <= t.lifetime < MAX_LIFETIME)
                }),
            // pending-count accounting: one spent per star created; the
            // trickle can add one back, and only on a frame that worked on
            // fewer than the minimum population
            ({
                let budget = spec_budget(old(self).spec_spawn_count());
                let filled = vstd::math::min(budget, empty_count(old(self).spec_stars(), 64));
                let worked = live_count(old(self).spec_stars(), 64) + filled;
                &&& (final(self).spec_spawn_count() == budget - filled
                    || final(self).spec_spawn_count() == budget - filled + 1)
                &&& (worked >= MIN_STARS as int ==> final(self).spec_spawn_count() == budget
                    - filled)
            }),
            // the frame's work in full: some in-range draws and per-slot star
            // speeds produce exactly this pool and framebuffer
            exists|draws: Seq<Option<SpawnDraw>>, speeds: Seq<int>|
                {
                    &&& draws_follow_policy(
                        old(self).spec_stars(),
                        spec_budget(old(self).spec_spawn_count()),
                        draws,
                    )
                    &&& speeds.len() == 64
                    &&& (forall|j: int|
                        0 <= j < 64 ==> slot_speed_ok(
                            old(self).spec_stars(),
                            zero_frame(),
                            draws,
                            speeds,
                            final(self).spec_frame_counter(),
                            j,
                        ))
                    &&& (final(self).spec_stars(), buffer@) == #[trigger] spec_frame(
                        old(self).spec_stars(),
                        zero_frame(),
                        draws,
                        speeds,
                        final(self).spec_frame_counter(),
                        64,
                    )
                },
    {
        let ghost stars0 = old(self).spec_stars();
        if self.spawn_count > STAR_TOTAL {
            self.spawn_count = STAR_TOTAL;
        }
        let ghost budget = spec_budget(old(self).spec_spawn_count());
        self.frame_counter = self.frame_counter.wrapping_add(1);
        let fc = self.frame_counter;
        let mut buffer: Vec<u8> = Vec::new();
        let mut k: usize = 0;
        while k < FRAME_SZ
            invariant
                buffer@.len() == k,
                k <= FRAME_SZ,
                forall|m: int| 0 <= m < k ==> buffer@[m] == 0u8,
            decreases FRAME_SZ - k,
        {
            buffer.push(0);
            k = k + 1;
        }
        proof {
            assert(buffer@ =~= zero_frame());
        }
        let ghost mut draws: Seq<Option<SpawnDraw>> = Seq::empty();
        let ghost mut speeds: Seq<int> = Seq::empty();
        let mut total_found: usize = 0;
        let mut our_idx: usize = 0;
        while our_idx < 64
            invariant
                our_idx <= 64,
                total_found <= our_idx,
                buffer@.len() == FRAME_SZ,
                self.frame_counter == fc,
                self.wf(),
                budget == spec_budget(old(self).spec_spawn_count()),
                0 <= budget <= 64,
                stars0 == old(self).spec_stars(),
                stars0.len() == 64,
                draws.len() == our_idx,
                speeds.len() == our_idx,
                self.spawn_count as int == budget - vstd::math::min(
                    budget,
                    empty_count(stars0, our_idx as int),
                ),
                total_found as int == live_count(stars0, our_idx as int) + vstd::math::min(
                    budget,
                    empty_count(stars0, our_idx as int),
                ),
                forall|j: int| our_idx <= j < 64 ==> self.spec_stars()[j] == stars0[j],
                forall|j: int|
                    0 <= j < 64 ==> ((#[trigger] stars0[j]) matches Some(s) ==> s.lifetime >= 1),
                forall|j: int|
                    0 <= j < our_idx ==> ((#[trigger] stars0[j]) matches Some(s) ==> {
                        &&& (s.lifetime == 1 ==> self.spec_stars()[j] is None)
                        &&& (s.lifetime >= 2 ==> {
                            &&& self.spec_stars()[j] matches Some(t)
                            &&& t.lifetime == s.lifetime - 1
                        })
                    }),
                forall|j: int|
                    0 <= j < our_idx ==> (stars0[j] is None ==> {
                        &&& ((#[trigger] self.spec_stars()[j]) is Some <==> empty_count(stars0, j)
                            < budget)
                        &&& (self.spec_stars()[j] matches Some(t) ==> MIN_LIFETIME - 1
                            <= t.lifetime < MAX_LIFETIME)
                    }),
                forall|j: int|
                    0 <= j < our_idx ==> ((#[trigger] draws[j]) is Some <==> (stars0[j] is None
                        && empty_count(stars0, j) < budget)),
                forall|j: int|
                    0 <= j < our_idx ==> ((#[trigger] draws[j]) matches Some(d)
                        ==> spawn_draw_in_range(d)),
                forall|j: int|
                    0 <= j < our_idx ==> #[trigger] slot_speed_ok(
                        stars0,
                        zero_frame(),
                        draws,
                        speeds,
                        fc as int,
                        j,
                    ),
                (self.spec_stars(), buffer@) == spec_frame(
                    stars0,
                    zero_frame(),
                    draws,
                    speeds,
                    fc as int,
                    our_idx as int,
                ),
            decreases 64 - our_idx,
        {
            let ghost cur = self.spec_stars();
            let ghost buf_cur = buffer@;
            let ghost draws_old = draws;
            let ghost speeds_old = speeds;
            let ghost i = our_idx as int;
            let empty = match self.stars[our_idx] {
                None => true,
                Some(_) => false,
            };
            let ghost mut this_draw: Option<SpawnDraw> = None;
            if empty && self.spawn_count > 0 {
                self.spawn_count = self.spawn_count - 1;
                let xr = rng_range_i32(&mut self.rng, 0, 32);
                let yr = rng_range_i32(&mut self.rng, 0, 128);
                let vxr = rng_range_i32(&mut self.rng, -2, 2);
                let vyr = rng_range_i32(&mut self.rng, -2, 2);
                let lt = rng_range_u16(&mut self.rng, MIN_LIFETIME, MAX_LIFETIME);
                proof {
                    this_draw = Some(SpawnDraw { x: xr, y: yr, vx: vxr, vy: vyr, lifetime: lt });
                }
                self.stars[our_idx] = Some(
                    Star {
                        x: fx_from_int(xr),
                        y: fx_from_int(yr),
                        vx: fx_from_int(vxr),
                        vy: fx_from_int(vyr),
                        lifetime: lt,
                    },
                );
            }
            proof {
                draws = draws.push(this_draw);
                assert(self.spec_stars() =~= slot_pool(cur, this_draw, i));
            }
            match self.stars[our_idx] {
                None => {
                    proof {
                        speeds = speeds.push(0);
                        lemma_frame_prefix(
                            stars0,
                            zero_frame(),
                            draws,
                            speeds,
                            draws_old,
                            speeds_old,
                            fc as int,
                            i,
                        );
                        assert(slot_occupant(cur, this_draw, i) is None);
                        assert((self.spec_stars(), buffer@) == spec_frame_step(
                            cur,
                            buf_cur,
                            this_draw,
                            0,
                            i,
                            fc as int,
                        ));
                        assert(slot_speed_ok(stars0, zero_frame(), draws, speeds, fc as int, i));
                    }
                }
                Some(star) => {
                    total_found = total_found + 1;
                    let f = scan_neighbors(&self.stars, our_idx, star);
                    let (vx, vy) = steer(star, f);
                    let ghost pre = spec_pre_speed(star, f);
                    let ghost sp: int = choose|s: int|
                        is_isqrt(
                            sat32(fx_mul(pre.0, pre.0) + fx_mul(pre.1, pre.1)) * (FX_ONE as int),
                            s,
                        ) && (vx as int, vy as int) == spec_limit(pre.0, pre.1, s);
                    proof {
                        speeds = speeds.push(sp);
                    }
                    let moved = integrate(star, vx, vy);
                    if star_visible(self.frame_counter, moved.lifetime) {
                        let px = fx_to_int(moved.x);
                        let py = fx_to_int(moved.y);
                        proof {
                            assert(px as int == fx_floor(moved.x as int));
                            assert(py as int == fx_floor(moved.y as int));
                        }
                        plot_pixel(&mut buffer, px, py);
                    }
                    let aged = moved.lifetime - 1;
                    if aged == 0 {
                        self.stars[our_idx] = None;
                    } else {
                        self.stars[our_idx] = Some(Star { lifetime: aged, ..moved });
                    }
                    proof {
                        lemma_frame_prefix(
                            stars0,
                            zero_frame(),
                            draws,
                            speeds,
                            draws_old,
                            speeds_old,
                            fc as int,
                            i,
                        );
                        let pool = slot_pool(cur, this_draw, i);
                        assert(slot_occupant(cur, this_draw, i) == Some(star));
                        assert(moved == spec_advance_star(pool, i, star, sp));
                        assert((self.spec_stars(), buffer@) == spec_frame_step(
                            cur,
                            buf_cur,
                            this_draw,
                            sp,
                            i,
                            fc as int,
                        ));
                        assert(slot_speed_ok(stars0, zero_frame(), draws, speeds, fc as int, i));
                    }
                }
            }
            proof {
                assert forall|j: int| 0 <= j < i implies #[trigger] slot_speed_ok(
                    stars0,
                    zero_frame(),
                    draws,
                    speeds,
                    fc as int,
                    j,
                ) by {
                    lemma_slot_speed_prefix(
                        stars0,
                        zero_frame(),
                        draws,
                        speeds,
                        draws_old,
                        speeds_old,
                        fc as int,
                        j,
                    );
                }
                assert((self.spec_stars(), buffer@) == spec_frame(
                    stars0,
                    zero_frame(),
                    draws,
                    speeds,
                    fc as int,
                    i + 1,
                ));
                assert(empty_count(stars0, i + 1) == empty_count(stars0, i) + (if stars0[i]
                    is None {
                    1int
                } else {
                    0int
                }));
                assert(live_count(stars0, i + 1) == live_count(stars0, i) + (if stars0[i]
                    is Some {
                    1int
                } else {
                    0int
                }));
            }
            our_idx = our_idx + 1;
        }
        // Keep a minimum population alive with an occasional trickle spawn.
        if total_found < MIN_STARS {
            let roll = rng_range_i32(&mut self.rng, 0, 10);
            if roll == 0 {
                proof {
                    // Fewer than the minimum worked on means every pending
                    // spawn found an empty slot: the count is zero here.
                    lemma_pool_counts(stars0, 64);
                    assert(self.spawn_count == 0);
                }
                self.spawn_count = self.spawn_count + 1;
            }
        }
        proof {
            lemma_live_count_bound(self.spec_stars(), 64);
            lemma_empty_count_bound(stars0, 64);
            assert(fc as int == self.spec_frame_counter());
            assert(draws_follow_policy(stars0, budget, draws));
            assert((self.spec_stars(), buffer@) == spec_frame(
                stars0,
                zero_frame(),
                draws,
                speeds,
                fc as int,
                64,
            ));
        }
        buffer
    }
}

/// At most one empty slot per pool slot.
proof fn lemma_empty_count_bound(stars: Seq<Option<Star>>, i: int)
    requires
        i >= 0,
    ensures
        0 <= empty_count(stars, i) <= i,
    decreases i,
{
    if i > 0 {
        lemma_empty_count_bound(stars, i - 1);
    }
}

/// Every slot is live or empty: the two counts split the prefix.
proof fn lemma_pool_counts(stars: Seq<Option<Star>>, i: int)
    requires
        i >= 0,
    ensures
        live_count(stars, i) + empty_count(stars, i) == i,
    decreases i,
{
    if i > 0 {
        lemma_pool_counts(stars, i - 1);
    }
}

/// An empty pool has no live star in any prefix.
proof fn lemma_live_zero(stars: Seq<Option<Star>>, i: int)
    requires
        i >= 0,
        forall|j: int| 0 <= j < i ==> stars[j] is None,
    ensures
        live_count(stars, i) == 0,
    decreases i,
{
    if i > 0 {
        lemma_live_zero(stars, i - 1);
    }
}

} // verus!
