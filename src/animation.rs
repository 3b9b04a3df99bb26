use vstd::prelude::*;
use crate::units::RATE_LIMIT;

verus! {

/// Most tiles one animation can hold.
pub const TILE_LIMIT: usize = 1_000_000;

/// Default advance per update: a fifth of a tile, in thousandths.
pub const DEFAULT_SPEED: i64 = 200;

/// Whether an animation starts over after its last tile.
#[derive(Clone, Copy, Debug, PartialEq, Eq, Structural)]
pub enum AnimationRepeat {
    Forever,
    Once,
}

#[derive(Clone, Copy, Debug, PartialEq, Eq, Structural)]
pub enum AnimationState {
    Idle,
    Running,
}

/// A sequence of sprite-sheet tiles `[row, column]` and a clock over them.
///
/// `animation_lt` is the position in the sequence in thousandths of a tile.
/// `speed` is how far one update moves it, in thousandths of a tile; with a
/// speed of zero an update moves it by the elapsed time instead, one tile per
/// second.
pub struct SpriteSheetAnimation {
    pub animations: Vec<[usize; 2]>,
    pub speed: i64,
    pub state: AnimationState,
    pub repeat: AnimationRepeat,
    pub current_index: usize,
    pub animation_lt: i64,
}

/// Index of the tile shown at position `lt` in a sequence of `len` tiles:
/// the position rounded up to whole tiles, wrapped around.
pub open spec fn tile_at(lt: int, len: int) -> int {
    if len == 0 {
        0
    } else {
        ((lt + 999) / 1000) % len
    }
}

impl SpriteSheetAnimation {
    pub open spec fn wf(&self) -> bool {
        &&& self.animations@.len() <= TILE_LIMIT
        &&& 0 <= self.speed <= RATE_LIMIT
        &&& 0 <= self.animation_lt <= self.duration() + 2 * RATE_LIMIT
    }

    /// Length of the sequence, in thousandths of a tile.
    pub open spec fn duration(&self) -> int {
        self.animations@.len() as int * 1000
    }

    /// How far one update of `dt` microseconds moves the clock.
    pub open spec fn advance(&self, dt: int) -> int {
        if self.speed > 0 {
            self.speed as int
        } else {
            dt / 1000
        }
    }

    /// The clock after an update of `dt` microseconds, its state and the
    /// tile it shows. A running animation that repeats starts over once past
    /// its end; one that plays once stops when its tile index has run past
    /// the end. The clock only moves while short of the end.
    pub open spec fn updated(self, dt: int) -> (AnimationState, int, int) {
        if self.state != AnimationState::Running {
            (self.state, self.animation_lt as int, self.current_index as int)
        } else {
            let len = self.animations@.len() as int;
            let state = if self.repeat == AnimationRepeat::Once && self.current_index >= len {
                AnimationState::Idle
            } else {
                self.state
            };
            let lt = if self.repeat == AnimationRepeat::Forever && self.animation_lt
                >= self.duration() {
                0
            } else {
                self.animation_lt as int
            };
            let lt2 = if lt < self.duration() {
                lt + self.advance(dt)
            } else {
                lt
            };
            (state, lt2, tile_at(lt2, len))
        }
    }

    /// A stopped animation over `animations`, at its first tile.
    pub fn new(animations: Vec<[usize; 2]>, repeat: AnimationRepeat) -> (r: SpriteSheetAnimation)
        requires
            animations@.len() <= TILE_LIMIT,
        ensures
            r.wf(),
            r.animations == animations,
            r.speed == DEFAULT_SPEED,
            r.state == AnimationState::Idle,
            r.repeat == repeat,
            r.current_index == 0,
            r.animation_lt == 0,
    {
        SpriteSheetAnimation {
            animations,
            speed: DEFAULT_SPEED,
            state: AnimationState::Idle,
            repeat,
            current_index: 0,
            animation_lt: 0,
        }
    }

    pub fn set_animation_speed(&mut self, speed: i64)
        requires
            0 <= speed <= RATE_LIMIT,
        ensures
            final(self).speed == speed,
            final(self).animations == old(self).animations,
            final(self).state == old(self).state,
            final(self).repeat == old(self).repeat,
            final(self).current_index == old(self).current_index,
            final(self).animation_lt == old(self).animation_lt,
    {
        self.speed = speed;
    }

    /// Starts a stopped animation from its first tile; a running one goes on.
    pub fn play(&mut self)
        ensures
            final(self).state == AnimationState::Running,
            old(self).state == AnimationState::Idle ==> final(self).current_index == 0
                && final(self).animation_lt == 0,
            old(self).state == AnimationState::Running ==> final(self).current_index == old(
                self,
            ).current_index && final(self).animation_lt == old(self).animation_lt,
            final(self).animations == old(self).animations,
            final(self).speed == old(self).speed,
            final(self).repeat == old(self).repeat,
    {
        if self.state == AnimationState::Idle {
            self.current_index = 0;
            self.animation_lt = 0;
            self.state = AnimationState::Running;
        }
    }

    /// Stops the animation where it is.
    pub fn stop(&mut self)
        ensures
            final(self).state == AnimationState::Idle,
            final(self).animations == old(self).animations,
            final(self).speed == old(self).speed,
            final(self).repeat == old(self).repeat,
            final(self).current_index == old(self).current_index,
            final(self).animation_lt == old(self).animation_lt,
    {
        if self.state == AnimationState::Running {
            self.state = AnimationState::Idle;
        }
    }

    /// Moves the clock by one update of `dt` microseconds.
    pub fn update(&mut self, dt: u32)
        requires
            old(self).wf(),
        ensures
            final(self).wf(),
            (final(self).state, final(self).animation_lt as int, final(self).current_index as int)
                == old(self).updated(dt as int),
            final(self).animations == old(self).animations,
            final(self).speed == old(self).speed,
            final(self).repeat == old(self).repeat,
    {
        if self.is_playing() {
            let len = self.animations.len();
            let duration = (len as i64) * 1000;
            match self.repeat {
                AnimationRepeat::Forever => {
                    if self.animation_lt >= duration {
                        self.animation_lt = 0;
                    }
                },
                AnimationRepeat::Once => {
                    if self.current_index >= len {
                        self.stop();
                    }
                },
            }
            if self.animation_lt < duration {
                let step = if self.speed > 0 {
                    self.speed
                } else {
                    (dt / 1000) as i64
                };
                self.animation_lt = self.animation_lt + step;
            }
            self.current_index = if len == 0 {
                0
            } else {
                (((self.animation_lt + 999) / 1000) as usize) % len
            };
        }
    }

    pub fn is_playing(&self) -> (r: bool)
        ensures
            r == (self.state == AnimationState::Running),
    {
        self.state == AnimationState::Running
    }

    /// The tile shown now, if the index lies within the sequence.
    pub fn get_current_animation(&self) -> (r: Option<&[usize; 2]>)
        ensures
            self.current_index < self.animations@.len() ==> r == Some(
                &self.animations@[self.current_index as int],
            ),
            self.current_index >= self.animations@.len() ==> r.is_none(),
    {
        if self.current_index < self.animations.len() {
            Some(&self.animations[self.current_index])
        } else {
            None
        }
    }
}

} // verus!
