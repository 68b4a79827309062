use vstd::prelude::*;

verus! {

/// The width of the window at startup.
pub const START_WIDTH: i32 = 800;

/// The height of the window at startup.
pub const START_HEIGHT: i32 = 600;

/// A color with three independent 8-bit channels and an alpha channel.
/// Only the random-color effect ever rewrites the three channels; the
/// alpha channel is never touched after startup.
#[derive(Clone, Copy, PartialEq, Eq, Structural, Debug)]
pub struct Rgba {
    pub r: u8,
    pub g: u8,
    pub b: u8,
    pub a: u8,
}

/// The state of the ball that the render loop owns and updates each frame:
/// center position, radius, per-frame step size, and fill color.
///
/// Position and radius are whole-number pixel coordinates. The radius is
/// deliberately unclamped: the grow and shrink keys may push it past the
/// viewport or below zero, and the update rules leave it there.
#[derive(Clone, Copy, PartialEq, Eq, Structural, Debug)]
pub struct BallState {
    pub x: i32,
    pub y: i32,
    pub radius: i32,
    pub speed: u8,
    pub color: Rgba,
}

/// The drawable window dimensions, read from the window each frame.
#[derive(Clone, Copy, PartialEq, Eq, Structural, Debug)]
pub struct Viewport {
    pub width: i32,
    pub height: i32,
}

/// A snapshot of which keys are held down during the current frame.
/// Held is level-triggered: every field is re-read once per frame.
#[derive(Clone, Copy, PartialEq, Eq, Structural, Debug)]
pub struct KeysHeld {
    /// Left arrow: move toward smaller x.
    pub left: bool,
    /// Right arrow: move toward larger x.
    pub right: bool,
    /// Up arrow: move toward smaller y.
    pub up: bool,
    /// Down arrow: move toward larger y.
    pub down: bool,
    /// The R key: radius grows by one.
    pub grow: bool,
    /// The E key: radius shrinks by one.
    pub shrink: bool,
    /// The F key: speed rises by one, saturating at 255.
    pub faster: bool,
    /// The D key: speed falls by one, saturating at 0.
    pub slower: bool,
    /// The C key: roll for a random color change.
    pub recolor: bool,
}

impl Rgba {
    /// The fixed startup color of the ball: an opaque red.
    pub fn red() -> (c: Rgba)
        ensures
            c == (Rgba { r: 230, g: 41, b: 55, a: 255 }),
    {
        Rgba { r: 230, g: 41, b: 55, a: 255 }
    }
}

impl KeysHeld {
    /// A snapshot with no key held at all.
    pub fn none() -> (k: KeysHeld)
        ensures
            k == (KeysHeld {
                left: false,
                right: false,
                up: false,
                down: false,
                grow: false,
                shrink: false,
                faster: false,
                slower: false,
                recolor: false,
            }),
    {
        KeysHeld {
            left: false,
            right: false,
            up: false,
            down: false,
            grow: false,
            shrink: false,
            faster: false,
            slower: false,
            recolor: false,
        }
    }
}

impl Viewport {
    /// The viewport at startup, before any resize.
    pub fn initial() -> (v: Viewport)
        ensures
            v == (Viewport { width: START_WIDTH, height: START_HEIGHT }),
    {
        Viewport { width: START_WIDTH, height: START_HEIGHT }
    }
}

impl BallState {
    /// The state at startup: centered in the startup viewport, radius 50,
    /// speed 5, opaque red.
    pub fn initial() -> (s: BallState)
        ensures
            s.x == 400,
            s.y == 300,
            s.radius == 50,
            s.speed == 5,
            s.color == (Rgba { r: 230, g: 41, b: 55, a: 255 }),
    {
        BallState { x: 400, y: 300, radius: 50, speed: 5, color: Rgba::red() }
    }
}

} // verus!
