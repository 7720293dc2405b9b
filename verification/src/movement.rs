//! The movement controller: held keys and elapsed time in, a new clamped
//! position and flip flag out.
//!
//! Each frame, the four held directional keys give a direction on each axis.
//! A single held axis moves the cat at full speed along that axis; a diagonal
//! is normalized so that the overall displacement per frame keeps the same
//! magnitude instead of growing by a factor of sqrt(2). The new position is
//! clamped on each axis so the rendered sprite never leaves the window.
//!
//! Positions are in microunits (1_000_000 microunits per world unit) and
//! elapsed time is in microseconds, so an axis-aligned step is exactly
//! `CAT_SPEED * dt` microunits with no rounding. The diagonal per-axis step
//! uses the fixed-point ratio 7071 / 10000 for 1/sqrt(2).

use vstd::prelude::*;

verus! {

/// Movement speed in world units per second; equivalently, in microunits per
/// microsecond.
pub const CAT_SPEED: u64 = 250;

/// Half the rendered sprite's size, in microunits (the 320-pixel sprite at
/// half scale spans 160 units, so 80 units to each side).
pub const HALF_SPRITE_MICRO: i64 = 80_000_000;

/// Numerator and denominator of the fixed-point approximation of 1/sqrt(2)
/// used for diagonal movement. 7071/10000 is just below the real value, so a
/// diagonal step is never faster than an axis-aligned one.
pub const INV_SQRT2_NUM: u64 = 7071;
pub const INV_SQRT2_DEN: u64 = 10000;

/// Which directional keys are held this frame.
#[derive(Clone, Copy, PartialEq, Eq, Structural, Debug)]
pub struct KeyState {
    pub up: bool,
    pub down: bool,
    pub left: bool,
    pub right: bool,
}

/// A 2D position in microunits.
#[derive(Clone, Copy, PartialEq, Eq, Structural, Debug)]
pub struct Position {
    pub x: i64,
    pub y: i64,
}

/// Horizontal direction from the held keys: right counts +1, left counts -1.
pub open spec fn dir_x(k: KeyState) -> int {
    (if k.right { 1int } else { 0int }) - (if k.left { 1int } else { 0int })
}

/// Vertical direction from the held keys: up counts +1, down counts -1.
pub open spec fn dir_y(k: KeyState) -> int {
    (if k.up { 1int } else { 0int }) - (if k.down { 1int } else { 0int })
}

/// The flip flag after one frame: the left key sets it, then the right key
/// clears it, so with both held the right key's branch wins; with neither
/// held the flag keeps its old value.
pub open spec fn flip_after(k: KeyState, flip_before: bool) -> bool {
    if k.right {
        false
    } else if k.left {
        true
    } else {
        flip_before
    }
}

/// Displacement along one axis when only that axis is held, in microunits:
/// full speed for the whole elapsed time.
pub open spec fn axis_step_micro(dt: int) -> int {
    CAT_SPEED * dt
}

/// Displacement along one axis when both axes are held, in microunits: the
/// axis-aligned step scaled by the fixed-point 1/sqrt(2).
pub open spec fn diag_step_micro(dt: int) -> int {
    (CAT_SPEED * dt * INV_SQRT2_NUM) / (INV_SQRT2_DEN as int)
}

/// Signed displacement along one axis, given this axis' direction `d` and the
/// other axis' direction `other`.
pub open spec fn step_component(d: int, other: int, dt: int) -> int {
    if d == 0 {
        0
    } else if other == 0 {
        d * axis_step_micro(dt)
    } else {
        d * diag_step_micro(dt)
    }
}

/// `v` forced into the interval `[lo, hi]`.
pub open spec fn clamp_int(v: int, lo: int, hi: int) -> int {
    if v < lo {
        lo
    } else if v > hi {
        hi
    } else {
        v
    }
}

/// Lowest coordinate the sprite's centre may take in a window `win_units`
/// world units wide (or tall), in microunits.
pub open spec fn low_bound_micro(win_units: int) -> int {
    -(win_units * 500_000) + HALF_SPRITE_MICRO
}

/// Highest coordinate the sprite's centre may take in a window `win_units`
/// world units wide (or tall), in microunits.
pub open spec fn high_bound_micro(win_units: int) -> int {
    win_units * 500_000 - HALF_SPRITE_MICRO
}

/// The X coordinate after one frame: unchanged when no key is held, otherwise
/// stepped and clamped to the window's interior.
pub open spec fn moved_x(k: KeyState, x: int, dt: int, win_w: int) -> int {
    if dir_x(k) == 0 && dir_y(k) == 0 {
        x
    } else {
        clamp_int(
            x + step_component(dir_x(k), dir_y(k), dt),
            low_bound_micro(win_w),
            high_bound_micro(win_w),
        )
    }
}

/// The Y coordinate after one frame: unchanged when no key is held, otherwise
/// stepped and clamped to the window's interior.
pub open spec fn moved_y(k: KeyState, y: int, dt: int, win_h: int) -> int {
    if dir_x(k) == 0 && dir_y(k) == 0 {
        y
    } else {
        clamp_int(
            y + step_component(dir_y(k), dir_x(k), dt),
            low_bound_micro(win_h),
            high_bound_micro(win_h),
        )
    }
}

fn clamp_i64(v: i64, lo: i64, hi: i64) -> (r: i64)
    requires
        lo <= hi,
    ensures
        r == clamp_int(v as int, lo as int, hi as int),
{
    if v < lo {
        lo
    } else if v > hi {
        hi
    } else {
        v
    }
}

/// One frame of the movement controller.
///
/// Reads the held keys, updates the horizontal-flip flag (left sets it, right
/// clears it, the right key's branch evaluated last), and, when any direction
/// is held, moves the position by the speed-scaled, normalized displacement
/// and clamps each axis to the window's interior. With no direction held the
/// position is untouched.
///
/// The bounds on `dt_micros` and on the incoming position only keep the
/// arithmetic inside `i64`; they allow frames over a quarter of an hour long
/// and positions far outside any window that fits the sprite.
pub fn move_cat(
    keys: &KeyState,
    position: &mut Position,
    flip_x: &mut bool,
    dt_micros: u64,
    win_width: u32,
    win_height: u32,
)
    requires
        dt_micros <= 1_000_000_000,
        win_width >= 160,
        win_height >= 160,
        -3_000_000_000_000_000 <= old(position).x <= 3_000_000_000_000_000,
        -3_000_000_000_000_000 <= old(position).y <= 3_000_000_000_000_000,
    ensures
        *final(flip_x) == flip_after(*keys, *old(flip_x)),
        final(position).x == moved_x(*keys, old(position).x as int, dt_micros as int, win_width as int),
        final(position).y == moved_y(*keys, old(position).y as int, dt_micros as int, win_height as int),
{
    let mut direction_x: i64 = 0;
    let mut direction_y: i64 = 0;

    if keys.up {
        direction_y = direction_y + 1;
    }
    if keys.down {
        direction_y = direction_y - 1;
    }
    if keys.left {
        direction_x = direction_x - 1;
        *flip_x = true;
    }
    if keys.right {
        direction_x = direction_x + 1;
        *flip_x = false;
    }

    if direction_x == 0 && direction_y == 0 {
        return;
    }

    let axis_step: i64 = (CAT_SPEED * dt_micros) as i64;
    let diag_step: i64 = ((CAT_SPEED * dt_micros * INV_SQRT2_NUM) / INV_SQRT2_DEN) as i64;

    let step_x: i64 = if direction_x == 0 {
        0
    } else if direction_y == 0 {
        direction_x * axis_step
    } else {
        direction_x * diag_step
    };
    let step_y: i64 = if direction_y == 0 {
        0
    } else if direction_x == 0 {
        direction_y * axis_step
    } else {
        direction_y * diag_step
    };

    let half_w_micro: i64 = (win_width as i64) * 500_000;
    let half_h_micro: i64 = (win_height as i64) * 500_000;
    let left_bound: i64 = -half_w_micro + HALF_SPRITE_MICRO;
    let right_bound: i64 = half_w_micro - HALF_SPRITE_MICRO;
    let bottom_bound: i64 = -half_h_micro + HALF_SPRITE_MICRO;
    let top_bound: i64 = half_h_micro - HALF_SPRITE_MICRO;

    position.x = clamp_i64(position.x + step_x, left_bound, right_bound);
    position.y = clamp_i64(position.y + step_y, bottom_bound, top_bound);
}

/// A frame with no held direction leaves the position unchanged, whatever the
/// elapsed time and window.
pub proof fn lemma_no_input_no_motion(k: KeyState, x: int, y: int, dt: int, win_w: int, win_h: int)
    requires
        dir_x(k) == 0,
        dir_y(k) == 0,
    ensures
        moved_x(k, x, dt, win_w) == x,
        moved_y(k, y, dt, win_h) == y,
{
}

/// A frame with only a horizontal direction held displaces the position by
/// exactly `CAT_SPEED * dt` microunits along X — no normalization — and
/// leaves Y unchanged, as long as clamping does not cut the step short.
pub proof fn lemma_horizontal_only_displacement(
    k: KeyState,
    x: int,
    y: int,
    dt: int,
    win_w: int,
    win_h: int,
)
    requires
        dir_x(k) != 0,
        dir_y(k) == 0,
        low_bound_micro(win_w) <= x + dir_x(k) * axis_step_micro(dt) <= high_bound_micro(win_w),
        low_bound_micro(win_h) <= y <= high_bound_micro(win_h),
    ensures
        moved_x(k, x, dt, win_w) - x == dir_x(k) * axis_step_micro(dt),
        moved_y(k, y, dt, win_h) == y,
{
}

/// A frame with only a vertical direction held displaces the position by
/// exactly `CAT_SPEED * dt` microunits along Y — no normalization — and
/// leaves X unchanged, as long as clamping does not cut the step short.
pub proof fn lemma_vertical_only_displacement(
    k: KeyState,
    x: int,
    y: int,
    dt: int,
    win_w: int,
    win_h: int,
)
    requires
        dir_x(k) == 0,
        dir_y(k) != 0,
        low_bound_micro(win_h) <= y + dir_y(k) * axis_step_micro(dt) <= high_bound_micro(win_h),
        low_bound_micro(win_w) <= x <= high_bound_micro(win_w),
    ensures
        moved_y(k, y, dt, win_h) - y == dir_y(k) * axis_step_micro(dt),
        moved_x(k, x, dt, win_w) == x,
{
}

/// With the left and right keys held together, the right key's branch is
/// evaluated last and wins: the flip flag ends up cleared (and the horizontal
/// directions cancel).
pub proof fn lemma_opposed_horizontal_keys(k: KeyState, flip_before: bool)
    requires
        k.left,
        k.right,
    ensures
        !flip_after(k, flip_before),
        dir_x(k) == 0,
{
}

/// One axis of one frame keeps the sprite's centre inside a window that is at
/// least as wide as the sprite: a coordinate already in bounds is either left
/// alone or clamped back into them.
pub proof fn lemma_frame_stays_in_bounds(k: KeyState, x: int, y: int, dt: int, win_w: int, win_h: int)
    requires
        win_w >= 160,
        win_h >= 160,
        low_bound_micro(win_w) <= x <= high_bound_micro(win_w),
        low_bound_micro(win_h) <= y <= high_bound_micro(win_h),
    ensures
        low_bound_micro(win_w) <= moved_x(k, x, dt, win_w) <= high_bound_micro(win_w),
        low_bound_micro(win_h) <= moved_y(k, y, dt, win_h) <= high_bound_micro(win_h),
{
}

/// The position reached from `(x, y)` after a whole sequence of frames, each
/// a held-key set together with its elapsed time in microseconds.
pub open spec fn run_moves(
    frames: Seq<(KeyState, int)>,
    x: int,
    y: int,
    win_w: int,
    win_h: int,
) -> (int, int)
    decreases frames.len(),
{
    if frames.len() == 0 {
        (x, y)
    } else {
        run_moves(
            frames.drop_first(),
            moved_x(frames[0].0, x, frames[0].1, win_w),
            moved_y(frames[0].0, y, frames[0].1, win_h),
            win_w,
            win_h,
        )
    }
}

/// In the fixed 1024x1024 window, both coordinates stay within
/// [-432, 432] world units — here in microunits — after any sequence of
/// frames whatsoever, starting anywhere inside those bounds (the cat starts
/// at the origin).
pub proof fn lemma_position_always_in_bounds(frames: Seq<(KeyState, int)>, x: int, y: int)
    requires
        -432_000_000 <= x <= 432_000_000,
        -432_000_000 <= y <= 432_000_000,
    ensures
        -432_000_000 <= run_moves(frames, x, y, 1024, 1024).0 <= 432_000_000,
        -432_000_000 <= run_moves(frames, x, y, 1024, 1024).1 <= 432_000_000,
    decreases frames.len(),
{
    if frames.len() == 0 {
    } else {
        lemma_frame_stays_in_bounds(frames[0].0, x, y, frames[0].1, 1024, 1024);
        lemma_position_always_in_bounds(
            frames.drop_first(),
            moved_x(frames[0].0, x, frames[0].1, 1024),
            moved_y(frames[0].0, y, frames[0].1, 1024),
        );
    }
}

/// With both axes held, each axis steps by the fixed-point scaled
/// `diag_step_micro`, so the squared magnitude of the frame's displacement is
/// `2 * diag^2`. That squared magnitude never exceeds the squared
/// axis-aligned displacement `(CAT_SPEED * dt)^2` — a diagonal frame is never
/// faster than an axis-aligned one — and it undershoots it by at most one
/// part in 50000 plus three steps' worth, the rounding loss of the
/// 7071/10000 approximation of 1/sqrt(2).
pub proof fn lemma_diagonal_magnitude(dt: int)
    requires
        dt >= 0,
    ensures
        2 * (diag_step_micro(dt) * diag_step_micro(dt))
            <= axis_step_micro(dt) * axis_step_micro(dt),
        50000 * (axis_step_micro(dt) * axis_step_micro(dt)
            - 2 * (diag_step_micro(dt) * diag_step_micro(dt)))
            <= axis_step_micro(dt) * axis_step_micro(dt) + 150000 * axis_step_micro(dt),
{
    let s = axis_step_micro(dt);
    let d = diag_step_micro(dt);
    assert(s == 250 * dt);
    assert(d == (s * 7071) / 10000);
    vstd::arithmetic::div_mod::lemma_fundamental_div_mod(s * 7071, 10000);
    vstd::arithmetic::div_mod::lemma_mod_division_less_than_divisor(s * 7071, 10000);
    assert(s * 7071 == 10000 * d + (s * 7071) % 10000);
    assert(10000 * d <= s * 7071 < 10000 * d + 10000);
    assert(d >= 0);
    assert((10000 * d) * (10000 * d) <= (s * 7071) * (s * 7071)) by (nonlinear_arith)
        requires
            0 <= 10000 * d,
            10000 * d <= s * 7071,
    ;
    assert(100000000 * (2 * (d * d)) <= 99998082 * (s * s)) by (nonlinear_arith)
        requires
            (10000 * d) * (10000 * d) <= (s * 7071) * (s * 7071),
    ;
    assert(s * s >= 0) by (nonlinear_arith);
    assert(2 * (d * d) <= s * s);
    if s == 0 {
        assert(d == 0);
    } else {
        assert(s >= 250);
        assert(7071 * s - 9999 <= 10000 * d);
        assert(0 <= 7071 * s - 9999);
        assert((7071 * s - 9999) * (7071 * s - 9999) <= (10000 * d) * (10000 * d))
            by (nonlinear_arith)
            requires
                0 <= 7071 * s - 9999,
                7071 * s - 9999 <= 10000 * d,
        ;
        assert(49999041 * (s * s) - 141405858 * s + 99980001 <= 100000000 * (d * d))
            by (nonlinear_arith)
            requires
                (7071 * s - 9999) * (7071 * s - 9999) <= (10000 * d) * (10000 * d),
        ;
        assert(100000000 * (s * s - 2 * (d * d)) <= 1918 * (s * s) + 282811716 * s);
        assert(50000 * (s * s - 2 * (d * d)) <= s * s + 150000 * s) by (nonlinear_arith)
            requires
                100000000 * (s * s - 2 * (d * d)) <= 1918 * (s * s) + 282811716 * s,
                s >= 250,
                s * s >= 0,
        ;
    }
}

} // verus!
