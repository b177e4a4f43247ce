use alchemist::frames::Frame;
use alchemist::oled::{
    apply_mask, integrate, plot_pixel, rev8, scan_neighbors, star_visible, steer, Flock, Star,
    StarsEngine,
};

fn zero_flock() -> Flock {
    Flock {
        xpos_avg: 0,
        ypos_avg: 0,
        xvel_avg: 0,
        yvel_avg: 0,
        neighbors: 0,
        close_dx: 0,
        close_dy: 0,
    }
}

fn fx(n: i32) -> i32 {
    n * 65536
}

#[test]
fn spawned_stars_come_alive_with_sane_lifetimes() {
    let mut e = StarsEngine::new(7);
    assert_eq!(e.live_stars(), 0);
    for _ in 0..5 {
        e.spawn_star();
    }
    assert_eq!(e.pending_spawns(), 5);
    let frame = e.step_frame();
    assert_eq!(frame.len(), 512);
    assert_eq!(e.live_stars(), 5);
    assert_eq!(e.pending_spawns(), 0);
    for (_, _, lifetime) in e.star_info() {
        // Drawn from 100..500, aged once.
        assert!(lifetime >= 99 && lifetime < 500);
    }
}

#[test]
fn spawning_fills_min_of_budget_and_empties() {
    // Budget larger than the pool: one frame fills all 64 slots and the
    // pending count drops by exactly the number created.
    let mut e = StarsEngine::new(3);
    for _ in 0..70 {
        e.spawn_star();
    }
    assert_eq!(e.pending_spawns(), 70);
    let _ = e.step_frame();
    assert_eq!(e.live_stars(), 64);
    // Clamped to 64, all spent on the 64 empty slots.
    assert_eq!(e.pending_spawns(), 0);

    // Budget smaller than the empties: exactly the budget is created.
    let mut e = StarsEngine::new(4);
    for _ in 0..10 {
        e.spawn_star();
    }
    let _ = e.step_frame();
    assert_eq!(e.live_stars(), 10);
    assert_eq!(e.pending_spawns(), 0);
}

#[test]
fn stars_age_one_frame_per_frame() {
    let mut e = StarsEngine::new(11);
    e.spawn_star();
    let _ = e.step_frame();
    let first = e.star_info();
    assert_eq!(first.len(), 1);
    let lt0 = first[0].2;
    let _ = e.step_frame();
    let lt1 = e.star_info()[0].2;
    assert_eq!(lt1, lt0 - 1);
}

#[test]
fn pool_never_overflows() {
    let mut e = StarsEngine::new(1);
    for _ in 0..200 {
        e.spawn_star();
    }
    let _ = e.step_frame();
    assert!(e.live_stars() <= 64);
    assert!(e.pending_spawns() <= 64);
    for _ in 0..50 {
        let f = e.step_frame();
        assert_eq!(f.len(), 512);
        assert!(e.live_stars() <= 64);
        assert!(e.pending_spawns() <= 64);
        for (_, _, lifetime) in e.star_info() {
            assert!(lifetime >= 1);
        }
    }
}

#[test]
fn close_star_feeds_separation_sums() {
    let mut stars: [Option<Star>; 64] = [None; 64];
    let me = Star { x: fx(17), y: fx(64), vx: 0, vy: 0, lifetime: 10 };
    stars[0] = Some(me);
    stars[1] = Some(Star { x: fx(16), y: fx(64), vx: 0, vy: 0, lifetime: 10 });
    let f = scan_neighbors(&stars, 0, me);
    assert_eq!(f.close_dx, fx(1));
    assert_eq!(f.close_dy, 0);
    assert_eq!(f.neighbors, 0);
}

#[test]
fn visual_star_feeds_cohesion_sums() {
    let mut stars: [Option<Star>; 64] = [None; 64];
    let me = Star { x: fx(10), y: fx(64), vx: 0, vy: 0, lifetime: 10 };
    stars[3] = Some(me);
    // Five pixels away: outside the protected range, inside the visual range.
    stars[7] = Some(Star { x: fx(15), y: fx(64), vx: fx(1), vy: -fx(1), lifetime: 10 });
    let f = scan_neighbors(&stars, 3, me);
    assert_eq!(f.close_dx, 0);
    assert_eq!(f.neighbors, fx(1));
    assert_eq!(f.xpos_avg, fx(15));
    assert_eq!(f.ypos_avg, fx(64));
    assert_eq!(f.xvel_avg, fx(1));
    assert_eq!(f.yvel_avg, -fx(1));
}

#[test]
fn far_star_is_invisible() {
    let mut stars: [Option<Star>; 64] = [None; 64];
    let me = Star { x: fx(2), y: fx(10), vx: 0, vy: 0, lifetime: 10 };
    stars[0] = Some(me);
    stars[1] = Some(Star { x: fx(30), y: fx(120), vx: fx(1), vy: fx(1), lifetime: 10 });
    let f = scan_neighbors(&stars, 0, me);
    assert_eq!(f, zero_flock());
}

#[test]
fn steer_caps_speed_at_maximum() {
    // 3.0 pixels per frame straight along x, no neighbors, mid-display: the
    // speed cap scales it to exactly 2.0.
    let me = Star { x: fx(16), y: fx(64), vx: fx(3), vy: 0, lifetime: 10 };
    let (vx, vy) = steer(me, zero_flock());
    assert_eq!(vx, fx(2));
    assert_eq!(vy, 0);
}

#[test]
fn steer_raises_speed_to_minimum() {
    // 0.25 pixels per frame: scaled up to the minimum speed 0.4 (26214 bits).
    let me = Star { x: fx(16), y: fx(64), vx: 16384, vy: 0, lifetime: 10 };
    let (vx, vy) = steer(me, zero_flock());
    assert_eq!(vx, 26214);
    assert_eq!(vy, 0);
}

#[test]
fn steer_turns_back_from_the_walls() {
    // At the top wall with a legal speed: only the turn bias applies.
    let me = Star { x: fx(16), y: fx(1), vx: fx(1), vy: 0, lifetime: 10 };
    let (vx, vy) = steer(me, zero_flock());
    assert_eq!(vx, fx(1));
    assert_eq!(vy, 13107);
}

#[test]
fn integrate_moves_by_velocity() {
    let s = Star { x: fx(1), y: fx(2), vx: 0, vy: 0, lifetime: 9 };
    let moved = integrate(s, fx(1) / 2, -fx(1));
    assert_eq!(moved.x, 98304);
    assert_eq!(moved.y, fx(1));
    assert_eq!(moved.vx, 32768);
    assert_eq!(moved.vy, -65536);
    assert_eq!(moved.lifetime, 9);
}

#[test]
fn fading_star_flickers_by_lifetime() {
    // Plenty of lifetime: always shown.
    assert!(star_visible(0, 500));
    assert!(star_visible(59, 500));
    // Lifetime 30: shown in the first half of the fade period only.
    assert!(star_visible(29, 30));
    assert!(!star_visible(30, 30));
    assert!(!star_visible(59, 30));
    // Dead-end lifetime 0 is never shown.
    assert!(!star_visible(0, 0));
}

#[test]
fn plot_sets_the_expected_bits() {
    let mut buf = vec![0u8; 512];
    plot_pixel(&mut buf, 0, 0);
    assert_eq!(buf[0], 0x01);
    plot_pixel(&mut buf, 7, 0);
    assert_eq!(buf[0], 0x81);
    plot_pixel(&mut buf, 31, 127);
    assert_eq!(buf[511], 0x80);
    // Off-display pixels change nothing.
    let before = buf.clone();
    plot_pixel(&mut buf, 32, 0);
    plot_pixel(&mut buf, -1, 5);
    plot_pixel(&mut buf, 0, 128);
    assert_eq!(buf, before);
}

#[test]
fn rev8_reverses_bit_order() {
    assert_eq!(rev8(0x80), 0x01);
    assert_eq!(rev8(0x01), 0x80);
    assert_eq!(rev8(0xF0), 0x0F);
    assert_eq!(rev8(0xA5), 0xA5);
    assert_eq!(rev8(0x00), 0x00);
    assert_eq!(rev8(0xFF), 0xFF);
}

#[test]
fn sprite_composites_mask_and_add() {
    let mut buf = vec![0xFFu8; 512];
    // An 8 x 1 sprite: mask everything, add the asset's highest bit, which
    // lands in the framebuffer's lowest.
    let frame = Frame::new(8, 1, vec![0xFF], vec![0x80]);
    apply_mask(&mut buf, &frame, 0, 0);
    assert_eq!(buf[0], 0x01);
    for i in 1..512 {
        assert_eq!(buf[i], 0xFF);
    }
}

#[test]
fn sprite_position_is_clamped_to_the_display() {
    let mut buf = vec![0u8; 512];
    let frame = Frame::new(8, 2, vec![0x00, 0x00], vec![0xFF, 0x0F]);
    // Far beyond the bottom-right corner: clamped to the last rows.
    apply_mask(&mut buf, &frame, 1000, 1000);
    // Clamped x: (32 - 8) / 8 = byte column 3; clamped y: 126.
    assert_eq!(buf[126 * 4 + 3], 0xFF);
    assert_eq!(buf[127 * 4 + 3], 0xF0);
    assert_eq!(buf[125 * 4 + 3], 0x00);
    assert_eq!(buf[126 * 4 + 2], 0x00);
}
