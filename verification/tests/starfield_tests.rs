use livestar::rng::Rng;
use livestar::starfield::{base_star_count, draw_star, generate_star_draws, StarDraw};

#[test]
fn base_count_is_area_over_4000() {
    assert_eq!(base_star_count(1080, 2400), 648);
    assert_eq!(base_star_count(2000, 2000), 1000);
}

#[test]
fn base_count_is_clamped() {
    assert_eq!(base_star_count(100, 100), 120);
    assert_eq!(base_star_count(1, 1), 120);
    assert_eq!(base_star_count(0, 0), 120);
    assert_eq!(base_star_count(4000, 4000), 1500);
    assert_eq!(base_star_count(u32::MAX, u32::MAX), 1500);
    assert_eq!(base_star_count(1000, 480), 120);
    assert_eq!(base_star_count(1000, 1500 * 4), 1500);
}

#[test]
fn star_uses_draws_in_order() {
    let mut reference = Rng::new(9);
    let expected: Vec<u32> = (0..9).map(|_| reference.next_mantissa()).collect();
    let mut rng = Rng::new(9);
    let s = draw_star(&mut rng, 1 << 24);
    assert_eq!(
        s,
        StarDraw {
            center_x: expected[0],
            center_y: expected[1],
            size: expected[2],
            brightness: expected[3],
            twinkles: true,
            speed: expected[5],
            amp: expected[6],
            curve: expected[7] >> 22,
            phase: expected[8],
        }
    );
    assert_eq!(rng.next_mantissa(), reference.next_mantissa());
}

#[test]
fn quiet_star_takes_five_draws() {
    let mut reference = Rng::new(9);
    let expected: Vec<u32> = (0..5).map(|_| reference.next_mantissa()).collect();
    let mut rng = Rng::new(9);
    let s = draw_star(&mut rng, 0);
    assert!(!s.twinkles);
    assert_eq!((s.center_x, s.center_y, s.size, s.brightness), (expected[0], expected[1], expected[2], expected[3]));
    assert_eq!((s.speed, s.amp, s.curve, s.phase), (0, 0, 0, 0));
    assert_eq!(rng.next_mantissa(), reference.next_mantissa());
}

#[test]
fn twinkle_follows_threshold() {
    let mut probe = Rng::new(77);
    for _ in 0..4 {
        probe.next_mantissa();
    }
    let test = probe.next_mantissa();
    let mut a = Rng::new(77);
    assert!(!draw_star(&mut a, test).twinkles);
    let mut b = Rng::new(77);
    assert!(draw_star(&mut b, test + 1).twinkles);
}

#[test]
fn generated_field_has_count_and_bounds() {
    let mut rng = Rng::new(123);
    let stars = generate_star_draws(&mut rng, 500, 1 << 23);
    assert_eq!(stars.len(), 500);
    let mut twinkling = 0;
    for s in &stars {
        for v in [s.center_x, s.center_y, s.size, s.brightness, s.speed, s.amp, s.phase] {
            assert!(v < (1 << 24));
        }
        assert!(s.curve < 4);
        if s.twinkles {
            twinkling += 1;
        } else {
            assert_eq!((s.speed, s.amp, s.curve, s.phase), (0, 0, 0, 0));
        }
    }
    assert!(twinkling > 150 && twinkling < 350);
}

#[test]
fn generated_field_matches_star_by_star() {
    let mut a = Rng::new(5);
    let stars = generate_star_draws(&mut a, 20, 1 << 22);
    let mut b = Rng::new(5);
    for s in &stars {
        assert_eq!(*s, draw_star(&mut b, 1 << 22));
    }
    assert_eq!(a.next_u64(), b.next_u64());
}

#[test]
fn twinkle_extremes() {
    let mut a = Rng::new(31);
    assert!(generate_star_draws(&mut a, 200, 0).iter().all(|s| !s.twinkles));
    let mut b = Rng::new(31);
    assert!(generate_star_draws(&mut b, 200, 1 << 24).iter().all(|s| s.twinkles));
    let mut c = Rng::new(31);
    assert!(generate_star_draws(&mut c, 200, u32::MAX).iter().all(|s| s.twinkles));
}

#[test]
fn empty_field_draws_nothing() {
    let mut a = Rng::new(8);
    assert!(generate_star_draws(&mut a, 0, 1 << 23).is_empty());
    let mut b = Rng::new(8);
    assert_eq!(a.next_u64(), b.next_u64());
}
