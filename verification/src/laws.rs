use vstd::prelude::*;

use vstd::set_lib::{lemma_int_range, set_int_range};

use crate::state::{BallState, KeysHeld, Viewport};
use crate::update::{moved_axis, stepped_color, stepped_radius, stepped_speed, triggers_recolor};

verus! {

/// The frame update is the identity under no-key-held input: with every
/// key up, each component of the next state that `apply_input` promises
/// equals the old one, whatever the frame's random draws were.
pub proof fn lemma_no_keys_identity(
    state: BallState,
    keys: KeysHeld,
    viewport: Viewport,
    roll: u8,
    fresh_r: u8,
    fresh_g: u8,
    fresh_b: u8,
)
    requires
        !keys.left,
        !keys.right,
        !keys.up,
        !keys.down,
        !keys.grow,
        !keys.shrink,
        !keys.faster,
        !keys.slower,
        !keys.recolor,
    ensures
        moved_axis(
            state.x as int,
            state.radius as int,
            viewport.width - state.radius,
            state.speed as int,
            keys.left,
            keys.right,
        ) == state.x,
        moved_axis(
            state.y as int,
            state.radius as int,
            viewport.height - state.radius,
            state.speed as int,
            keys.up,
            keys.down,
        ) == state.y,
        stepped_radius(state.radius as int, keys.grow, keys.shrink) == state.radius,
        stepped_speed(state.speed as int, keys.faster, keys.slower) == state.speed,
        stepped_color(state.color, keys.recolor, roll, fresh_r, fresh_g, fresh_b) == state.color,
{
}

/// The two axes are independent within one call: holding Left and Up in
/// the same frame, with room to move on both axes and a nonzero speed,
/// strictly decreases both x and y at once.
pub proof fn lemma_axes_independent(state: BallState, keys: KeysHeld, viewport: Viewport)
    requires
        keys.left,
        keys.up,
        !keys.right,
        !keys.down,
        state.speed >= 1,
        state.x > state.radius,
        state.y > state.radius,
    ensures
        moved_axis(
            state.x as int,
            state.radius as int,
            viewport.width - state.radius,
            state.speed as int,
            keys.left,
            keys.right,
        ) < state.x,
        moved_axis(
            state.y as int,
            state.radius as int,
            viewport.height - state.radius,
            state.speed as int,
            keys.up,
            keys.down,
        ) < state.y,
{
}

/// Speed saturates instead of wrapping: one frame of the faster and slower
/// keys keeps a speed that starts in the byte range inside the byte range,
/// pins it at 255 when raised from the top, and pins it at 0 when lowered
/// from the bottom.
pub proof fn lemma_speed_saturates(speed: int, faster: bool, slower: bool)
    requires
        0 <= speed <= 255,
    ensures
        0 <= stepped_speed(speed, faster, slower) <= 255,
        speed == 255 && faster && !slower ==> stepped_speed(speed, faster, slower) == 255,
        speed == 0 && slower && !faster ==> stepped_speed(speed, faster, slower) == 0,
{
}

/// The radius after `frames` frames in which only the grow key is held.
pub open spec fn radius_after_growing(radius: int, frames: nat) -> int
    decreases frames,
{
    if frames == 0 {
        radius
    } else {
        stepped_radius(radius_after_growing(radius, (frames - 1) as nat), true, false)
    }
}

/// Radius growth is unbounded by design: holding the grow key for any
/// number of frames adds exactly that number to the radius, with no upper
/// clamp anywhere along the way.
pub proof fn lemma_radius_grows_linearly(radius: int, frames: nat)
    ensures
        radius_after_growing(radius, frames) == radius + frames,
    decreases frames,
{
    if frames > 0 {
        lemma_radius_grows_linearly(radius, (frames - 1) as nat);
    }
}

/// The recolor roll triggers on exactly four of its eleven equally likely
/// values: 0, 3, 6 and 9, so a fair generator triggers a color change with
/// probability 4/11.
pub proof fn lemma_recolor_odds()
    ensures
        forall|roll: u8|
            roll <= 10 ==> (#[trigger] triggers_recolor(roll) <==> (roll == 0 || roll == 3
                || roll == 6 || roll == 9)),
        set_int_range(0, 11).len() == 11,
        set_int_range(0, 11).filter(|i: int| i % 3 == 0).len() == 4,
{
    lemma_int_range(0, 11);
    let winners = set_int_range(0, 11).filter(|i: int| i % 3 == 0);
    assert(winners =~= Set::empty().insert(0int).insert(3int).insert(6int).insert(9int));
    assert(Set::<int>::empty().insert(0int).len() == 1);
    assert(Set::<int>::empty().insert(0int).insert(3int).len() == 2);
    assert(Set::<int>::empty().insert(0int).insert(3int).insert(6int).len() == 3);
    assert(Set::<int>::empty().insert(0int).insert(3int).insert(6int).insert(9int).len() == 4);
}

} // verus!
