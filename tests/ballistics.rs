use bumper_defense::{flight_time_span, isqrt, launch_velocity, Vec2};

#[test]
fn isqrt_rounds_down() {
    assert_eq!(isqrt(0), 0);
    assert_eq!(isqrt(1), 1);
    assert_eq!(isqrt(15), 3);
    assert_eq!(isqrt(16), 4);
    assert_eq!(isqrt(160_000_000_000), 400_000);
    assert_eq!(isqrt(u64::MAX), 4_294_967_295);
}

#[test]
fn flight_time_matches_closed_form() {
    // h = 100, g = 600, v = 200: t = (200 + sqrt(200^2 + 2*600*100)) / 600 = 1 s.
    assert_eq!(flight_time_span(100_000, 600_000, 200_000), 600_000);
    // h = 0: t = 2 v / g.
    assert_eq!(flight_time_span(0, 600_000, 200_000), 400_000);
    // h = 250, g = 450, v = 300: sqrt(90000 + 225000) = 561.24...
    assert_eq!(flight_time_span(250_000, 450_000, 300_000), 300_000 + 561_248);
}

#[test]
fn launch_velocity_reaches_target() {
    let v = launch_velocity(Vec2::new(0, 100_000), 500_000, 600_000, 200_000);
    assert_eq!(v, Vec2::new(500_000, 200_000));
    // From x = 800 the target lies behind: the speed is negative.
    let w = launch_velocity(Vec2::new(800_000, 100_000), 500_000, 600_000, 200_000);
    assert_eq!(w, Vec2::new(-300_000, 200_000));
    // h = 0: t = 2 v / g = 2/3 s, dx = 500 -> 750 per second.
    let z = launch_velocity(Vec2::new(0, 0), 500_000, 600_000, 200_000);
    assert_eq!(z, Vec2::new(750_000, 200_000));
}
