use vstd::prelude::*;

use crate::state::{BallState, KeysHeld, Rgba, Viewport};

verus! {

/// What clamping one coordinate means: raise it to `lo` first, then cap it
/// at `hi`. When `lo <= hi` this is the usual clamp to `[lo, hi]`; when the
/// range is degenerate (`lo > hi`, a radius larger than half the viewport)
/// the later cap wins and the result is `hi`.
pub open spec fn clamped(x: int, lo: int, hi: int) -> int {
    let raised = if x < lo { lo } else { x };
    if raised > hi { hi } else { raised }
}

/// What one frame of held arrow keys does to one coordinate. `lo` and `hi`
/// are the bounds that the radius leaves inside the viewport; `step` is the
/// current speed. Movement toward `lo` happens first and only while the
/// coordinate is strictly inside its bound, and each move re-clamps at the
/// bound it approaches, so a single frame never oversteps.
pub open spec fn moved_axis(x: int, lo: int, hi: int, step: int, toward_lo: bool, toward_hi: bool) -> int {
    let after_lo = if toward_lo && x > lo {
        if x - step > lo { x - step } else { lo }
    } else {
        x
    };
    if toward_hi && after_lo < hi {
        if after_lo + step < hi { after_lo + step } else { hi }
    } else {
        after_lo
    }
}

/// What one frame of the grow and shrink keys does to the radius: plus one
/// for grow, minus one for shrink, with no bound in either direction.
pub open spec fn stepped_radius(radius: int, grow: bool, shrink: bool) -> int {
    let grown = if grow { radius + 1 } else { radius };
    if shrink { grown - 1 } else { grown }
}

/// What one frame of the faster and slower keys does to the speed: plus one
/// saturating at 255, then minus one saturating at 0.
pub open spec fn stepped_speed(speed: int, faster: bool, slower: bool) -> int {
    let raised = if faster {
        if speed >= 255 { 255 } else { speed + 1 }
    } else {
        speed
    };
    if slower {
        if raised <= 0 { 0 } else { raised - 1 }
    } else {
        raised
    }
}

/// Whether a roll of the eleven-sided die triggers the color change: the
/// roll must be divisible by three.
pub open spec fn triggers_recolor(roll: u8) -> bool {
    roll % 3 == 0
}

/// What one frame of the recolor key does to the color: when the key is
/// held and the roll triggers, the three channels are replaced by the three
/// fresh bytes and the alpha channel is kept; otherwise the color stays.
pub open spec fn stepped_color(color: Rgba, recolor: bool, roll: u8, fresh_r: u8, fresh_g: u8, fresh_b: u8) -> Rgba {
    if recolor && triggers_recolor(roll) {
        Rgba { r: fresh_r, g: fresh_g, b: fresh_b, a: color.a }
    } else {
        color
    }
}

/// The machine-width side condition every frame operation needs: the bounds
/// `width - radius` and `height - radius` must themselves be representable,
/// since the update writes them back into the state.
pub open spec fn bounds_fit(state: BallState, viewport: Viewport) -> bool {
    &&& i32::MIN <= viewport.width - state.radius <= i32::MAX
    &&& i32::MIN <= viewport.height - state.radius <= i32::MAX
}

/// Clamp the ball's position back into the viewport, radius respected.
///
/// Runs once per frame before input is applied, so that a resize that
/// shrank the viewport since the last frame cannot leave the ball outside.
/// Each coordinate is raised to `radius` first and then capped at
/// `width - radius` (or `height - radius`), so whenever the radius is at
/// most half the smaller viewport dimension the position ends inside the
/// adjusted bounds; a larger radius gets no error, only the degenerate
/// result of the same two steps.
pub fn clamp_to_bounds(state: BallState, viewport: Viewport) -> (result: BallState)
    requires
        bounds_fit(state, viewport),
    ensures
        result.x == clamped(state.x as int, state.radius as int, viewport.width - state.radius),
        result.y == clamped(state.y as int, state.radius as int, viewport.height - state.radius),
        result.radius == state.radius,
        result.speed == state.speed,
        result.color == state.color,
        2 * state.radius <= viewport.width && 2 * state.radius <= viewport.height ==> {
            &&& state.radius <= result.x <= viewport.width - state.radius
            &&& state.radius <= result.y <= viewport.height - state.radius
        },
{
    let max_x: i32 = viewport.width - state.radius;
    let max_y: i32 = viewport.height - state.radius;
    let mut x = state.x;
    let mut y = state.y;
    if x < state.radius {
        x = state.radius;
    }
    if y < state.radius {
        y = state.radius;
    }
    if x > max_x {
        x = max_x;
    }
    if y > max_y {
        y = max_y;
    }
    BallState { x, y, ..state }
}

/// Apply one frame of held keys to the ball state, with the frame's random
/// draws passed in as plain values.
///
/// `roll` is the frame's roll of the eleven-sided die and `fresh_r`,
/// `fresh_g`, `fresh_b` are the frame's fresh color bytes; they only matter
/// while the recolor key is held. Taking them as arguments keeps the whole
/// transition a function of its inputs: every clause below pins the result
/// exactly, one component at a time. Movement bounds are computed from the
/// radius the frame starts with, and the two keys of one axis apply in
/// order within the same frame, exactly as the per-component specs say.
pub fn apply_input(
    state: BallState,
    keys: KeysHeld,
    viewport: Viewport,
    roll: u8,
    fresh_r: u8,
    fresh_g: u8,
    fresh_b: u8,
) -> (result: BallState)
    requires
        bounds_fit(state, viewport),
        keys.grow ==> state.radius < i32::MAX,
        keys.shrink && !keys.grow ==> state.radius > i32::MIN,
    ensures
        result.x == moved_axis(
            state.x as int,
            state.radius as int,
            viewport.width - state.radius,
            state.speed as int,
            keys.left,
            keys.right,
        ),
        result.y == moved_axis(
            state.y as int,
            state.radius as int,
            viewport.height - state.radius,
            state.speed as int,
            keys.up,
            keys.down,
        ),
        result.radius == stepped_radius(state.radius as int, keys.grow, keys.shrink),
        result.speed == stepped_speed(state.speed as int, keys.faster, keys.slower),
        result.color == stepped_color(state.color, keys.recolor, roll, fresh_r, fresh_g, fresh_b),
{
    let min_x: i32 = state.radius;
    let min_y: i32 = state.radius;
    let max_x: i32 = viewport.width - state.radius;
    let max_y: i32 = viewport.height - state.radius;
    let step: i32 = state.speed as i32;

    let mut x = state.x;
    let mut y = state.y;
    if keys.left && x > min_x {
        let unclamped: i64 = x as i64 - step as i64;
        x = if unclamped > min_x as i64 { x - step } else { min_x };
    }
    if keys.right && x < max_x {
        let unclamped: i64 = x as i64 + step as i64;
        x = if unclamped < max_x as i64 { x + step } else { max_x };
    }
    if keys.up && y > min_y {
        let unclamped: i64 = y as i64 - step as i64;
        y = if unclamped > min_y as i64 { y - step } else { min_y };
    }
    if keys.down && y < max_y {
        let unclamped: i64 = y as i64 + step as i64;
        y = if unclamped < max_y as i64 { y + step } else { max_y };
    }

    let mut radius = state.radius;
    if keys.grow {
        radius = radius + 1;
    }
    if keys.shrink {
        radius = radius - 1;
    }

    let mut speed = state.speed;
    if keys.faster {
        speed = if speed == 255 { 255 } else { speed + 1 };
    }
    if keys.slower {
        speed = if speed == 0 { 0 } else { speed - 1 };
    }

    let mut color = state.color;
    if keys.recolor && roll % 3 == 0 {
        color = Rgba { r: fresh_r, g: fresh_g, b: fresh_b, a: state.color.a };
    }

    BallState { x, y, radius, speed, color }
}

/// Apply one frame of held keys with the random draws taken from the
/// thread-local generator, as the render loop does.
///
/// Position, radius and speed do not depend on the draws, so those clauses
/// are as exact as in `apply_input`. Of the color only what holds of every
/// outcome is stated: the alpha channel is kept, nothing changes while the
/// recolor key is up, and while it is held the new color is what some roll
/// of the eleven-sided die and some three fresh bytes produce.
pub fn apply_input_random(state: BallState, keys: KeysHeld, viewport: Viewport) -> (result: BallState)
    requires
        bounds_fit(state, viewport),
        keys.grow ==> state.radius < i32::MAX,
        keys.shrink && !keys.grow ==> state.radius > i32::MIN,
    ensures
        result.x == moved_axis(
            state.x as int,
            state.radius as int,
            viewport.width - state.radius,
            state.speed as int,
            keys.left,
            keys.right,
        ),
        result.y == moved_axis(
            state.y as int,
            state.radius as int,
            viewport.height - state.radius,
            state.speed as int,
            keys.up,
            keys.down,
        ),
        result.radius == stepped_radius(state.radius as int, keys.grow, keys.shrink),
        result.speed == stepped_speed(state.speed as int, keys.faster, keys.slower),
        result.color.a == state.color.a,
        !keys.recolor ==> result.color == state.color,
        keys.recolor ==> exists|roll: u8, fresh_r: u8, fresh_g: u8, fresh_b: u8|
            roll <= 10 && result.color == stepped_color(state.color, true, roll, fresh_r, fresh_g, fresh_b),
{
    if keys.recolor {
        let mut generator = crate::rng::new_thread_rng();
        let roll = crate::rng::roll_up_to_10(&mut generator);
        let mut fresh_r: u8 = 0;
        let mut fresh_g: u8 = 0;
        let mut fresh_b: u8 = 0;
        if roll % 3 == 0 {
            fresh_r = crate::rng::random_byte(&mut generator);
            fresh_g = crate::rng::random_byte(&mut generator);
            fresh_b = crate::rng::random_byte(&mut generator);
        }
        let result = apply_input(state, keys, viewport, roll, fresh_r, fresh_g, fresh_b);
        proof {
            assert(result.color == stepped_color(state.color, true, roll, fresh_r, fresh_g, fresh_b));
        }
        result
    } else {
        apply_input(state, keys, viewport, 1, 0, 0, 0)
    }
}

} // verus!
