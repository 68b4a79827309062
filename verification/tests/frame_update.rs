use ball_demo::state::{BallState, KeysHeld, Rgba, Viewport};
use ball_demo::update::{apply_input, apply_input_random, clamp_to_bounds};

fn red() -> Rgba {
    Rgba { r: 230, g: 41, b: 55, a: 255 }
}

fn start_state() -> BallState {
    BallState { x: 400, y: 300, radius: 50, speed: 5, color: red() }
}

fn viewport() -> Viewport {
    Viewport { width: 800, height: 600 }
}

fn keys(left: bool, right: bool, up: bool, down: bool) -> KeysHeld {
    KeysHeld {
        left,
        right,
        up,
        down,
        grow: false,
        shrink: false,
        faster: false,
        slower: false,
        recolor: false,
    }
}

#[test]
fn initial_state_matches_startup_defaults() {
    let s = BallState::initial();
    assert_eq!(s, start_state());
    let v = Viewport::initial();
    assert_eq!(v, viewport());
}

#[test]
fn clamp_keeps_position_within_adjusted_bounds() {
    // radius 50 is at most half of both viewport dimensions, so both
    // coordinates end in [radius, dimension - radius].
    let s = BallState { x: 10, y: 700, ..start_state() };
    let c = clamp_to_bounds(s, viewport());
    assert_eq!(c.x, 50);
    assert_eq!(c.y, 550);
    assert_eq!(c.radius, 50);
    assert_eq!(c.speed, 5);
    assert_eq!(c.color, red());
}

#[test]
fn clamp_after_shrinking_resize() {
    // A resize shrank the viewport since the last frame; the clamp that
    // runs before input pulls the ball back inside.
    let s = start_state();
    let small = Viewport { width: 300, height: 200 };
    let c = clamp_to_bounds(s, small);
    assert_eq!((c.x, c.y), (250, 150));
}

#[test]
fn clamp_inside_bounds_is_identity() {
    let s = start_state();
    let c = clamp_to_bounds(s, viewport());
    assert_eq!(c, s);
}

#[test]
fn clamp_degenerate_range_takes_upper_bound() {
    // radius larger than half the viewport: the lower clamp raises x to
    // the radius, then the upper clamp caps it at width - radius, which
    // wins because it runs last.
    let s = BallState { x: 10, y: 60, radius: 60, ..start_state() };
    let small = Viewport { width: 100, height: 120 };
    let c = clamp_to_bounds(s, small);
    assert_eq!(c.x, 40);
    assert_eq!(c.y, 60);
}

#[test]
fn no_keys_held_is_identity() {
    let s = start_state();
    let next = apply_input(s, KeysHeld::none(), viewport(), 0, 7, 7, 7);
    assert_eq!(next, s);
}

#[test]
fn no_keys_held_random_is_identity() {
    let s = start_state();
    let next = apply_input_random(s, KeysHeld::none(), viewport());
    assert_eq!(next, s);
}

#[test]
fn left_and_up_move_both_axes() {
    let s = start_state();
    let next = apply_input(s, keys(true, false, true, false), viewport(), 1, 0, 0, 0);
    assert_eq!(next.x, 395);
    assert_eq!(next.y, 295);
}

#[test]
fn hold_left_ten_frames_moves_fifty() {
    let mut s = start_state();
    let held = keys(true, false, false, false);
    for _ in 0..10 {
        s = clamp_to_bounds(s, viewport());
        s = apply_input(s, held, viewport(), 1, 0, 0, 0);
    }
    assert_eq!(s.x, 350);
    assert_eq!(s.y, 300);
}

#[test]
fn left_clamps_at_radius() {
    // From x = 52 the unclamped move would land at 47 < radius 50, so the
    // move stops at the radius.
    let s = BallState { x: 52, ..start_state() };
    let next = apply_input(s, keys(true, false, false, false), viewport(), 1, 0, 0, 0);
    assert_eq!(next.x, 50);
}

#[test]
fn right_clamps_at_width_minus_radius() {
    let s = BallState { x: 748, ..start_state() };
    let next = apply_input(s, keys(false, true, false, false), viewport(), 1, 0, 0, 0);
    assert_eq!(next.x, 750);
}

#[test]
fn movement_stops_once_at_bound() {
    // Already at the lower bound: the held-direction guard fails and the
    // coordinate stays put.
    let s = BallState { x: 50, ..start_state() };
    let next = apply_input(s, keys(true, false, false, false), viewport(), 1, 0, 0, 0);
    assert_eq!(next.x, 50);
}

#[test]
fn speed_saturates_at_255() {
    let mut s = BallState { speed: 250, ..start_state() };
    let held = KeysHeld { faster: true, ..KeysHeld::none() };
    for _ in 0..7 {
        s = apply_input(s, held, viewport(), 1, 0, 0, 0);
    }
    assert_eq!(s.speed, 255);
}

#[test]
fn speed_saturates_at_0() {
    let mut s = BallState { speed: 3, ..start_state() };
    let held = KeysHeld { slower: true, ..KeysHeld::none() };
    for _ in 0..5 {
        s = apply_input(s, held, viewport(), 1, 0, 0, 0);
    }
    assert_eq!(s.speed, 0);
}

#[test]
fn radius_grows_by_exactly_1000() {
    let mut s = start_state();
    let held = KeysHeld { grow: true, ..KeysHeld::none() };
    for _ in 0..1000 {
        s = apply_input(s, held, viewport(), 1, 0, 0, 0);
    }
    assert_eq!(s.radius, 1050);
}

#[test]
fn radius_shrinks_below_zero() {
    // The decrement is deliberately unguarded: from 0 it goes to -1.
    let s = BallState { radius: 0, ..start_state() };
    let held = KeysHeld { shrink: true, ..KeysHeld::none() };
    let next = apply_input(s, held, viewport(), 1, 0, 0, 0);
    assert_eq!(next.radius, -1);
}

#[test]
fn recolor_triggers_on_four_of_eleven_rolls() {
    let s = start_state();
    let held = KeysHeld { recolor: true, ..KeysHeld::none() };
    let mut changed: u32 = 0;
    for roll in 0u8..=10 {
        let next = apply_input(s, held, viewport(), roll, 1, 2, 3);
        if next.color != s.color {
            changed += 1;
            assert_eq!(next.color, Rgba { r: 1, g: 2, b: 3, a: 255 });
            assert!(roll % 3 == 0);
        } else {
            assert!(roll % 3 != 0);
        }
    }
    assert_eq!(changed, 4);
}

#[test]
fn recolor_keeps_alpha() {
    let s = start_state();
    let held = KeysHeld { recolor: true, ..KeysHeld::none() };
    let next = apply_input(s, held, viewport(), 9, 0, 0, 0);
    assert_eq!(next.color, Rgba { r: 0, g: 0, b: 0, a: 255 });
}

#[test]
fn recolor_without_key_ignores_roll() {
    let s = start_state();
    let next = apply_input(s, KeysHeld::none(), viewport(), 0, 1, 2, 3);
    assert_eq!(next.color, red());
}

#[test]
fn random_recolor_keeps_alpha_and_rest_of_state() {
    let s = start_state();
    let held = KeysHeld { recolor: true, ..KeysHeld::none() };
    for _ in 0..200 {
        let next = apply_input_random(s, held, viewport());
        assert_eq!(next.color.a, 255);
        assert_eq!((next.x, next.y, next.radius, next.speed), (400, 300, 50, 5));
    }
}

#[test]
fn random_recolor_eventually_changes_color() {
    // Each held frame changes the color with probability 4/11, and a fresh
    // draw of three bytes almost never reproduces the old channels, so a
    // run of 400 frames with no change ever seen would be a broken draw.
    let s = start_state();
    let held = KeysHeld { recolor: true, ..KeysHeld::none() };
    let mut changed = false;
    for _ in 0..400 {
        let next = apply_input_random(s, held, viewport());
        if next.color != s.color {
            changed = true;
        }
    }
    assert!(changed);
}

#[test]
fn grow_and_move_combine_in_one_frame() {
    let s = start_state();
    let held = KeysHeld { grow: true, ..keys(true, false, false, false) };
    let next = apply_input(s, held, viewport(), 1, 0, 0, 0);
    assert_eq!(next.x, 395);
    assert_eq!(next.radius, 51);
    assert_eq!(next.speed, 5);
}
