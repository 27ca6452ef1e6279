//! The numbers of the game as it was built: four lights, four buttons, ten
//! rounds, and the few waits that pace it. No other setting exists.

use vstd::prelude::*;

verus! {

/// Number of lights.
pub const ACTUATORS: usize = 4;

/// Number of buttons. Button `k` stands for light `k`.
pub const SENSORS: usize = 4;

/// Length of the sequence that wins the game.
pub const MAX_SEQUENCE: usize = 10;

/// Time that one frame of the start-up display stays, in milliseconds.
pub const STARTUP_FRAME_MS: u32 = 100;

/// Time that a light stays on, and then off, in a replay, in milliseconds.
pub const PLAYBACK_MS: u32 = 500;

/// Time to let pass after a choice before the next is asked for, in
/// milliseconds, so that one press is not read twice.
pub const SETTLE_MS: u32 = 50;

/// Length of one idle wait once the game is lost, in milliseconds.
pub const IDLE_MS: u32 = 1000;

} // verus!
