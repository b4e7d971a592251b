use window_chrome::geometry::{
    plan, ScreenDescriptor, SizeLimits, WindowPlacement, MAX_INIT_HEIGHT, MAX_INIT_WIDTH,
};

fn screen(width: u32, height: u32, origin_x: i32, origin_y: i32) -> ScreenDescriptor {
    ScreenDescriptor { width, height, origin_x, origin_y }
}

fn default_limits() -> SizeLimits {
    SizeLimits { max_width: MAX_INIT_WIDTH, max_height: MAX_INIT_HEIGHT }
}

#[test]
fn plan_full_hd_at_eighty_percent() {
    let limits = SizeLimits { max_width: 2800, max_height: MAX_INIT_HEIGHT };
    let p = plan(screen(1920, 1200, 0, 0), 800, limits);
    assert_eq!(p, WindowPlacement { width: 1536, height: 960, x: 192, y: 120 });
}

#[test]
fn plan_with_default_limits() {
    let p = plan(screen(1920, 1200, 0, 0), 800, default_limits());
    assert_eq!(p, WindowPlacement { width: 1536, height: 960, x: 192, y: 120 });
}

#[test]
fn ratio_zero_clamps_to_a_tenth() {
    let low = plan(screen(1920, 1200, 0, 0), 0, default_limits());
    let tenth = plan(screen(1920, 1200, 0, 0), 100, default_limits());
    assert_eq!(low, tenth);
    assert_eq!(low, WindowPlacement { width: 192, height: 120, x: 864, y: 540 });
}

#[test]
fn ratio_five_clamps_to_one() {
    let high = plan(screen(1920, 1200, 0, 0), 5000, default_limits());
    let whole = plan(screen(1920, 1200, 0, 0), 1000, default_limits());
    assert_eq!(high, whole);
    assert_eq!(high, WindowPlacement { width: 1728, height: 1080, x: 96, y: 60 });
}

#[test]
fn platform_width_limit_applies() {
    let p = plan(screen(3840, 2160, 0, 0), 800, default_limits());
    assert_eq!(p, WindowPlacement { width: 1980, height: 1238, x: 930, y: 461 });
}

#[test]
fn screen_height_limit_applies() {
    let p = plan(screen(1920, 600, 0, 0), 1000, default_limits());
    assert_eq!(p, WindowPlacement { width: 1728, height: 540, x: 96, y: 30 });
}

#[test]
fn platform_height_limit_applies() {
    let limits = SizeLimits { max_width: 4000, max_height: 1000 };
    let p = plan(screen(3000, 3000, 0, 0), 1000, limits);
    assert_eq!(p, WindowPlacement { width: 2700, height: 1000, x: 150, y: 1000 });
}

#[test]
fn position_follows_screen_origin() {
    let p = plan(screen(1920, 1200, -1920, 100), 800, default_limits());
    assert_eq!(p, WindowPlacement { width: 1536, height: 960, x: -1728, y: 220 });
}

#[test]
fn plan_is_deterministic_and_bounded() {
    let cases = [
        (screen(5, 7, 0, 0), 1000u32),
        (screen(1366, 768, 0, 0), 650),
        (screen(2560, 1440, 10, 20), 999),
        (screen(0, 0, 0, 0), 800),
    ];
    for (s, ratio) in cases {
        let a = plan(s, ratio, default_limits());
        let b = plan(s, ratio, default_limits());
        assert_eq!(a, b);
        assert!(a.width <= MAX_INIT_WIDTH && a.height <= MAX_INIT_HEIGHT);
        assert!(10 * a.width as u64 <= 9 * s.width as u64 + 5);
        assert!(10 * a.height as u64 <= 9 * s.height as u64 + 5);
    }
}

#[test]
fn tiny_screen_rounds_half_up() {
    let p = plan(screen(5, 7, 0, 0), 1000, default_limits());
    assert_eq!(p, WindowPlacement { width: 5, height: 3, x: 0, y: 2 });
}
