use vstd::prelude::*;

verus! {

/// Key code that pauses and resumes the game when released.
pub const KEY_RETURN: u32 = 0x0D;

/// Key code that hands control to the next player when pressed.
pub const KEY_F1: u32 = 0x4000_003A;

/// Phase of the game loop.
#[derive(Clone, Copy, Debug, PartialEq, Eq, Structural)]
pub enum GameState {
    Init,
    Loading,
    Run,
    Pause,
    Stop,
}

/// A sound the presentation layer should play in response to the simulation.
#[derive(Clone, Copy, Debug, PartialEq, Eq, Structural)]
pub enum SoundEffect {
    Jump,
    Brick,
    Coin,
}

impl GameState {
    /// The phase after `key` went down (`pressed`) or up: releasing the pause
    /// key pauses a running game and runs any other.
    pub open spec fn after_key(self, key: u32, pressed: bool) -> GameState {
        if !pressed && key == KEY_RETURN {
            if self == GameState::Run {
                GameState::Pause
            } else {
                GameState::Run
            }
        } else {
            self
        }
    }

    pub fn on_key(self, key: u32, pressed: bool) -> (r: GameState)
        ensures
            r == self.after_key(key, pressed),
    {
        if !pressed && key == KEY_RETURN {
            if self == GameState::Run {
                GameState::Pause
            } else {
                GameState::Run
            }
        } else {
            self
        }
    }

    /// Whether the loading phase is over: loading runs until its progress,
    /// in microseconds, has passed one second.
    pub fn loading_done(progress: u64) -> (r: bool)
        ensures
            r == (progress > 1_000_000),
    {
        progress > 1_000_000
    }
}

/// Index of the player that takes control after `current` among `count`.
pub fn next_player(current: usize, count: usize) -> (r: usize)
    requires
        current < count,
    ensures
        r == (current + 1) % (count as int),
        r < count,
{
    (current + 1) % count
}

/// Whether `key` going down (`pressed`) or up hands control to the next
/// player.
pub fn switches_player(key: u32, pressed: bool) -> (r: bool)
    ensures
        r == (pressed && key == KEY_F1),
{
    pressed && key == KEY_F1
}

} // verus!
