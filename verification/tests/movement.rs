use uia_cat::movement::{move_cat, KeyState, Position};

const NONE: KeyState = KeyState { up: false, down: false, left: false, right: false };

fn held(up: bool, down: bool, left: bool, right: bool) -> KeyState {
    KeyState { up, down, left, right }
}

#[test]
fn no_input_position_unchanged() {
    let keys = NONE;
    let mut pos = Position { x: 123_456, y: -987_654 };
    let mut flip = true;
    move_cat(&keys, &mut pos, &mut flip, 16_666, 1024, 1024);
    assert_eq!(pos, Position { x: 123_456, y: -987_654 });
    assert!(flip);

    let mut flip2 = false;
    move_cat(&keys, &mut pos, &mut flip2, 16_666, 1024, 1024);
    assert_eq!(pos, Position { x: 123_456, y: -987_654 });
    assert!(!flip2);
}

#[test]
fn single_axis_exact_displacement() {
    // 250 microunits per microsecond, 16_666 microseconds: exactly 4_166_500.
    let mut pos = Position { x: 0, y: 0 };
    let mut flip = true;
    move_cat(&held(false, false, false, true), &mut pos, &mut flip, 16_666, 1024, 1024);
    assert_eq!(pos, Position { x: 4_166_500, y: 0 });

    move_cat(&held(false, false, true, false), &mut pos, &mut flip, 16_666, 1024, 1024);
    assert_eq!(pos, Position { x: 0, y: 0 });

    move_cat(&held(true, false, false, false), &mut pos, &mut flip, 16_666, 1024, 1024);
    assert_eq!(pos, Position { x: 0, y: 4_166_500 });

    move_cat(&held(false, true, false, false), &mut pos, &mut flip, 16_666, 1024, 1024);
    assert_eq!(pos, Position { x: 0, y: 0 });
}

#[test]
fn opposed_keys_on_one_axis_cancel() {
    // Left and right cancel; a held vertical key then moves at full axis
    // speed, exactly as if the horizontal keys were untouched.
    let mut pos = Position { x: 0, y: 0 };
    let mut flip = true;
    move_cat(&held(true, false, true, true), &mut pos, &mut flip, 16_666, 1024, 1024);
    assert_eq!(pos, Position { x: 0, y: 4_166_500 });
    // ... and the right key still cleared the flip flag.
    assert!(!flip);
}

#[test]
fn diagonal_displacement_is_normalized() {
    // Both axes held: each axis steps by 250 * dt * 7071 / 10000.
    let mut pos = Position { x: 0, y: 0 };
    let mut flip = false;
    move_cat(&held(true, false, false, true), &mut pos, &mut flip, 16_666, 1024, 1024);
    assert_eq!(pos, Position { x: 2_946_132, y: 2_946_132 });

    // The magnitude of the frame's displacement is speed * dt, not
    // speed * dt * sqrt(2): 2 * d^2 never exceeds s^2 and comes close to it.
    let s = 250_i64 * 16_666;
    let d = pos.x;
    assert!(2 * d * d <= s * s);
    let magnitude = ((2 * d * d) as f64).sqrt();
    let relative_error = (s as f64 - magnitude) / (s as f64);
    assert!(relative_error >= 0.0 && relative_error < 1e-4);

    // Down-left diagonal mirrors it.
    let mut pos2 = Position { x: 0, y: 0 };
    move_cat(&held(false, true, true, false), &mut pos2, &mut flip, 16_666, 1024, 1024);
    assert_eq!(pos2, Position { x: -2_946_132, y: -2_946_132 });
}

#[test]
fn position_clamped_to_window_bounds() {
    // 1024x1024 window, 80-unit half sprite: bounds are +-432 units,
    // that is +-432_000_000 microunits.
    let mut pos = Position { x: 0, y: 0 };
    let mut flip = false;
    for _ in 0..300 {
        move_cat(&held(true, false, false, true), &mut pos, &mut flip, 100_000, 1024, 1024);
        assert!(-432_000_000 <= pos.x && pos.x <= 432_000_000);
        assert!(-432_000_000 <= pos.y && pos.y <= 432_000_000);
    }
    assert_eq!(pos, Position { x: 432_000_000, y: 432_000_000 });

    for _ in 0..300 {
        move_cat(&held(false, true, true, false), &mut pos, &mut flip, 100_000, 1024, 1024);
        assert!(-432_000_000 <= pos.x && pos.x <= 432_000_000);
        assert!(-432_000_000 <= pos.y && pos.y <= 432_000_000);
    }
    assert_eq!(pos, Position { x: -432_000_000, y: -432_000_000 });
}

#[test]
fn position_stays_in_bounds_for_arbitrary_input_sequences() {
    // A deterministic pseudo-random walk over key sets and frame times.
    let mut state: u64 = 0x2545_f491_4f6c_dd1d;
    let mut pos = Position { x: 0, y: 0 };
    let mut flip = false;
    for _ in 0..2000 {
        state = state.wrapping_mul(6364136223846793005).wrapping_add(1442695040888963407);
        let keys = held(state & 1 != 0, state & 2 != 0, state & 4 != 0, state & 8 != 0);
        let dt = (state >> 8) % 1_000_000;
        move_cat(&keys, &mut pos, &mut flip, dt, 1024, 1024);
        assert!(-432_000_000 <= pos.x && pos.x <= 432_000_000);
        assert!(-432_000_000 <= pos.y && pos.y <= 432_000_000);
    }
}

#[test]
fn flip_follows_last_horizontal_key() {
    let mut pos = Position { x: 0, y: 0 };

    let mut flip = false;
    move_cat(&held(false, false, true, false), &mut pos, &mut flip, 1000, 1024, 1024);
    assert!(flip);

    move_cat(&held(false, false, false, true), &mut pos, &mut flip, 1000, 1024, 1024);
    assert!(!flip);

    // Neither horizontal key: the flag keeps its value.
    flip = true;
    move_cat(&held(true, false, false, false), &mut pos, &mut flip, 1000, 1024, 1024);
    assert!(flip);
}

#[test]
fn both_horizontal_keys_clear_flip() {
    // With left and right held together the right key's branch is evaluated
    // last: the flip flag ends up cleared, and the position does not move.
    let mut pos = Position { x: 5_000, y: -5_000 };
    let mut flip = true;
    move_cat(&held(false, false, true, true), &mut pos, &mut flip, 16_666, 1024, 1024);
    assert!(!flip);
    assert_eq!(pos, Position { x: 5_000, y: -5_000 });
}

#[test]
fn clamping_still_applies_to_the_still_axis() {
    // Moving only horizontally still clamps the vertical coordinate: a
    // position seeded outside the window is pulled back in.
    let mut pos = Position { x: 0, y: 500_000_000 };
    let mut flip = false;
    move_cat(&held(false, false, false, true), &mut pos, &mut flip, 1000, 1024, 1024);
    assert_eq!(pos, Position { x: 250_000, y: 432_000_000 });
}

#[test]
fn smallest_window_pins_the_sprite() {
    // A 160x160 window exactly fits the sprite: the only allowed position is
    // the centre.
    let mut pos = Position { x: 3_000_000, y: -3_000_000 };
    let mut flip = false;
    move_cat(&held(true, false, false, true), &mut pos, &mut flip, 16_666, 160, 160);
    assert_eq!(pos, Position { x: 0, y: 0 });
}
