//! Initial window size and centred position, computed from the screen's
//! geometry in whole physical pixels.
use vstd::prelude::*;

verus! {

/// Largest initial width the platform allows, in physical pixels.
pub const MAX_INIT_WIDTH: u32 = 1980;

/// Largest initial height the platform allows, in physical pixels.
pub const MAX_INIT_HEIGHT: u32 = 1280;

/// Smallest accepted width ratio, in thousandths of the screen width.
pub const MIN_WIDTH_RATIO_PERMILLE: u32 = 100;

/// Largest accepted width ratio, in thousandths of the screen width.
pub const MAX_WIDTH_RATIO_PERMILLE: u32 = 1000;

/// Size and origin of a screen, in physical pixels.
#[derive(Clone, Copy, Debug, PartialEq, Eq, Structural)]
pub struct ScreenDescriptor {
    pub width: u32,
    pub height: u32,
    pub origin_x: i32,
    pub origin_y: i32,
}

/// Upper bounds that the platform puts on the initial window size.
#[derive(Clone, Copy, Debug, PartialEq, Eq, Structural)]
pub struct SizeLimits {
    pub max_width: u32,
    pub max_height: u32,
}

/// The planned window: its size and the position of its top-left corner.
#[derive(Clone, Copy, Debug, PartialEq, Eq, Structural)]
pub struct WindowPlacement {
    pub width: u32,
    pub height: u32,
    pub x: i64,
    pub y: i64,
}

/// `n / d` rounded to the nearest integer, halves rounded up.
pub open spec fn round_div(n: nat, d: nat) -> nat
    recommends
        d > 0,
{
    ((2 * n + d) / (2 * d)) as nat
}

pub open spec fn min_nat(a: nat, b: nat) -> nat {
    if a <= b {
        a
    } else {
        b
    }
}

/// The width ratio in thousandths, clamped to `[0.1, 1.0]`.
pub open spec fn clamp_ratio(permille: nat) -> nat {
    if permille < MIN_WIDTH_RATIO_PERMILLE {
        MIN_WIDTH_RATIO_PERMILLE as nat
    } else if permille > MAX_WIDTH_RATIO_PERMILLE {
        MAX_WIDTH_RATIO_PERMILLE as nat
    } else {
        permille
    }
}

/// `round(screen_width * 0.9)`.
pub open spec fn max_width_by_screen(screen_width: nat) -> nat {
    round_div(9 * screen_width, 10)
}

/// `round(screen_height * 0.9)`.
pub open spec fn max_height_by_screen(screen_height: nat) -> nat {
    round_div(9 * screen_height, 10)
}

pub open spec fn target_width(screen: ScreenDescriptor, permille: nat, limits: SizeLimits) -> nat {
    let by_ratio = round_div((screen.width * clamp_ratio(permille)) as nat, 1000);
    min_nat(min_nat(by_ratio, max_width_by_screen(screen.width as nat)), limits.max_width as nat)
}

/// `round(width * 10 / 16)`: the default aspect ratio.
pub open spec fn height_for_width(width: nat) -> nat {
    round_div(10 * width, 16)
}

pub open spec fn target_height(screen: ScreenDescriptor, permille: nat, limits: SizeLimits) -> nat {
    let max_height = min_nat(max_height_by_screen(screen.height as nat), limits.max_height as nat);
    min_nat(height_for_width(target_width(screen, permille, limits)), max_height)
}

/// Offset that centres `inner` within `outer`, never negative.
pub open spec fn centre_offset(outer: nat, inner: nat) -> nat {
    if outer >= inner {
        ((outer - inner) as nat / 2) as nat
    } else {
        0
    }
}

/// The placement of a window whose width is `permille` thousandths of the
/// screen width, within the limits, with the default aspect ratio, centred.
pub open spec fn plan_spec(screen: ScreenDescriptor, permille: nat, limits: SizeLimits) -> WindowPlacement {
    let w = target_width(screen, permille, limits);
    let h = target_height(screen, permille, limits);
    WindowPlacement {
        width: w as u32,
        height: h as u32,
        x: (screen.origin_x + centre_offset(screen.width as nat, w)) as i64,
        y: (screen.origin_y + centre_offset(screen.height as nat, h)) as i64,
    }
}

fn round_div_exec(n: u64, d: u64) -> (r: u64)
    requires
        0 < d <= 1000,
        n <= 0xffff_ffff * 1000,
    ensures
        r as nat == round_div(n as nat, d as nat),
{
    (2 * n + d) / (2 * d)
}

proof fn lemma_round_div_le(n: nat, d: nat, m: nat)
    requires
        d > 0,
        n <= m * d,
    ensures
        round_div(n, d) <= m,
{
    assert(2 * n + d < (2 * m + 2) * d) by (nonlinear_arith)
        requires
            n <= m * d,
            d > 0,
    ;
    assert((2 * n + d) / (2 * d) <= m) by (nonlinear_arith)
        requires
            2 * n + d < (2 * m + 2) * d,
            d > 0,
    ;
}

/// Plans the initial window: the width is `width_ratio_permille` thousandths
/// of the screen width (clamped to `[100, 1000]`), at most 90% of the screen
/// and at most `limits.max_width`; the height follows the 10:16 aspect ratio,
/// at most 90% of the screen and `limits.max_height`; the window is centred.
pub fn plan(screen: ScreenDescriptor, width_ratio_permille: u32, limits: SizeLimits) -> (r: WindowPlacement)
    ensures
        r == plan_spec(screen, width_ratio_permille as nat, limits),
{
    let ratio: u64 = if width_ratio_permille < MIN_WIDTH_RATIO_PERMILLE {
        MIN_WIDTH_RATIO_PERMILLE as u64
    } else if width_ratio_permille > MAX_WIDTH_RATIO_PERMILLE {
        MAX_WIDTH_RATIO_PERMILLE as u64
    } else {
        width_ratio_permille as u64
    };
    let sw: u64 = screen.width as u64;
    let sh: u64 = screen.height as u64;
    assert(sw * ratio <= 0xffff_ffff * 1000) by (nonlinear_arith)
        requires
            sw <= 0xffff_ffff,
            ratio <= 1000,
    ;
    let by_ratio = round_div_exec(sw * ratio, 1000);
    let by_screen = round_div_exec(9 * sw, 10);
    let mut width: u64 = if by_ratio <= by_screen {
        by_ratio
    } else {
        by_screen
    };
    if width > limits.max_width as u64 {
        width = limits.max_width as u64;
    }
    let max_by_screen = round_div_exec(9 * sh, 10);
    let max_height: u64 = if max_by_screen <= limits.max_height as u64 {
        max_by_screen
    } else {
        limits.max_height as u64
    };
    let mut height = round_div_exec(10 * width, 16);
    if height > max_height {
        height = max_height;
    }
    let dx: u64 = if sw >= width {
        (sw - width) / 2
    } else {
        0
    };
    let dy: u64 = if sh >= height {
        (sh - height) / 2
    } else {
        0
    };
    WindowPlacement {
        width: width as u32,
        height: height as u32,
        x: screen.origin_x as i64 + dx as i64,
        y: screen.origin_y as i64 + dy as i64,
    }
}

/// The planned size never exceeds the rounded 90% of the screen nor the
/// platform limits, in either dimension.
pub proof fn lemma_plan_within_bounds(screen: ScreenDescriptor, permille: nat, limits: SizeLimits)
    ensures
        plan_spec(screen, permille, limits).width <= max_width_by_screen(screen.width as nat),
        plan_spec(screen, permille, limits).width <= limits.max_width,
        10 * plan_spec(screen, permille, limits).width <= 9 * screen.width + 5,
        plan_spec(screen, permille, limits).height <= max_height_by_screen(screen.height as nat),
        plan_spec(screen, permille, limits).height <= limits.max_height,
        10 * plan_spec(screen, permille, limits).height <= 9 * screen.height + 5,
{
    let w = target_width(screen, permille, limits);
    let h = target_height(screen, permille, limits);
    assert(w <= limits.max_width);
    assert(h <= limits.max_height);
    lemma_tenfold_of_ninety_percent(screen.width as nat);
    lemma_tenfold_of_ninety_percent(screen.height as nat);
}

proof fn lemma_tenfold_of_ninety_percent(n: nat)
    ensures
        10 * round_div(9 * n, 10) <= 9 * n + 5,
{
    let q = (2 * (9 * n) + 10) / 20;
    assert(20 * q <= 18 * n + 10) by (nonlinear_arith)
        requires
            q == (2 * (9 * n) + 10) / 20,
    ;
}

} // verus!
