use vstd::prelude::*;

verus! {

/// Downward acceleration: velocity change per millisecond, in thousandths of
/// a pixel per second. Numerically equal to -650 pixels per second squared.
pub const GRAVITY: i64 = -650;

/// Upward impulse a flap sets the velocity to: 150 pixels per second, in
/// thousandths of a pixel per second.
pub const JUMP_VELOCITY: i64 = 150000;

/// Screen height: 200 pixels, in millionths of a pixel.
pub const SCREEN_HEIGHT: i64 = 200000000;

/// Half the player sprite's height: 12 pixels, in millionths of a pixel.
/// The clamp margin: the sprite may overhang the screen edge by this much.
pub const PLAYER_HALF_HEIGHT: i64 = 12000000;

/// The fixed world configuration, passed explicitly to each tick rather than
/// read from engine-owned globals. Units are those of the crate root: gravity
/// per millisecond, velocity in thousandths of a pixel per second, lengths in
/// millionths of a pixel.
#[derive(Clone, Copy, Debug, PartialEq, Eq, Structural)]
pub struct Config {
    pub gravity: i64,
    pub jump_velocity: i64,
    pub screen_height: i64,
    pub player_half_height: i64,
}

impl Config {
    /// Well-formedness: lengths are non-negative and the upper clamp bound
    /// fits the machine word.
    pub open spec fn wf(self) -> bool {
        &&& 0 <= self.screen_height
        &&& 0 <= self.player_half_height
        &&& self.screen_height + self.player_half_height <= i64::MAX
    }

    /// Lower clamp bound on the vertical position: minus the clamp margin.
    pub open spec fn lower_spec(self) -> int {
        -(self.player_half_height as int)
    }

    /// Upper clamp bound on the vertical position: screen height plus margin.
    pub open spec fn upper_spec(self) -> int {
        self.screen_height + self.player_half_height
    }

    pub fn lower_bound(&self) -> (r: i64)
        requires
            self.wf(),
        ensures
            r as int == self.lower_spec(),
    {
        -self.player_half_height
    }

    pub fn upper_bound(&self) -> (r: i64)
        requires
            self.wf(),
        ensures
            r as int == self.upper_spec(),
    {
        self.screen_height + self.player_half_height
    }

    /// The game's stock configuration: gravity -650 px/s², jump impulse
    /// 150 px/s, a 200 px tall screen and a 12 px clamp margin, which give
    /// the clamp interval [-12 px, 212 px].
    pub fn standard() -> (r: Config)
        ensures
            r == (Config {
                gravity: GRAVITY,
                jump_velocity: JUMP_VELOCITY,
                screen_height: SCREEN_HEIGHT,
                player_half_height: PLAYER_HALF_HEIGHT,
            }),
            r.wf(),
    {
        Config {
            gravity: GRAVITY,
            jump_velocity: JUMP_VELOCITY,
            screen_height: SCREEN_HEIGHT,
            player_half_height: PLAYER_HALF_HEIGHT,
        }
    }
}

} // verus!
