use vstd::prelude::*;
use crate::collider::{contact_side, Side};
use crate::controller::Controller;
use crate::geometry::Vec2;
use crate::physics::{opposes, resolvable, Physics, RUN_SPEED, WALK_SPEED};
use crate::transform::{in_coord_range, Transform};
use crate::units::{abs, per_dt, rate_times_dt, RATE_LIMIT};

verus! {

/// Below this horizontal speed a grounded player stands still.
pub const IDLE_SPEED: i64 = 100;

/// Where a player starts, and where it comes back after falling out of the
/// world: twenty pixels from the top-left corner.
pub const SPAWN_X: i64 = 20_000;

pub const SPAWN_Y: i64 = 20_000;

#[derive(Clone, Copy, Debug, PartialEq, Eq, Structural)]
pub enum PlayerDirection {
    Left,
    Right,
}

#[derive(Clone, Copy, Debug, PartialEq, Eq, Structural)]
pub enum PlayerState {
    Idle,
    Walk,
    Run,
    Jump,
    Crouch,
    Fall,
    Skid,
    Push,
}

/// Which animation clip a player's state calls for.
#[derive(Clone, Copy, Debug, PartialEq, Eq, Structural)]
pub enum Clip {
    Idle,
    Skid,
    Walk,
    Run,
    Jump,
    JumpRight,
    Fall,
    Push,
}

/// The controllable character: its body, discrete state, facing and input.
pub struct Player {
    pub physics: Physics,
    pub state: PlayerState,
    pub direction: PlayerDirection,
    pub input: Controller,
}

/// States in which horizontal motion keeps the player out of `Idle`.
pub open spec fn is_moving(s: PlayerState) -> bool {
    s == PlayerState::Walk || s == PlayerState::Run || s == PlayerState::Skid || s == PlayerState::Push
}

/// States that a directional key turns into `Walk` or `Skid`.
pub open spec fn is_steerable(s: PlayerState) -> bool {
    s == PlayerState::Walk || s == PlayerState::Run || s == PlayerState::Idle || s == PlayerState::Skid
}

/// The state derived from the body after a step: an airborne player moving
/// down falls; a grounded one that is not moving, or that walks, runs or skids
/// at almost no speed, is idle.
pub open spec fn settled_state(state: PlayerState, physics: Physics) -> PlayerState {
    let s = if physics.velocity.y > 0 && !physics.on_ground {
        PlayerState::Fall
    } else {
        state
    };
    if physics.on_ground && (!is_moving(s) || (s != PlayerState::Push && abs(
        physics.velocity.x as int,
    ) < IDLE_SPEED)) {
        PlayerState::Idle
    } else {
        s
    }
}

pub open spec fn direction_sign(d: PlayerDirection) -> i64 {
    if d == PlayerDirection::Left {
        -1i64
    } else {
        1i64
    }
}

impl Player {
    pub open spec fn wf(&self) -> bool {
        self.physics.wf()
    }

    pub open spec fn with_physics(self, physics: Physics) -> Player {
        Player { physics, ..self }
    }

    /// A directional key held: the player faces `d` and pushes that way; a
    /// walking, running, idle or skidding player walks, or skids while still
    /// moving the other way.
    pub open spec fn moved(self, d: PlayerDirection) -> Player {
        let f = direction_sign(d);
        let state = if is_steerable(self.state) {
            if opposes(f as int, self.physics.velocity.x as int) {
                PlayerState::Skid
            } else {
                PlayerState::Walk
            }
        } else {
            self.state
        };
        Player {
            physics: Physics { force: Vec2 { x: f, y: 0 }, ..self.physics },
            state,
            direction: d,
            ..self
        }
    }

    /// Input phase: directional keys, facing, the running limit, and no
    /// intent when neither direction is held.
    pub open spec fn steered(self) -> Player {
        let p1 = if self.input.left {
            self.moved(PlayerDirection::Left)
        } else {
            self
        };
        let p2 = if self.input.right {
            p1.moved(PlayerDirection::Right)
        } else {
            p1
        };
        let p3 = p2.with_physics(
            Physics {
                transform: Transform {
                    flip_x: p2.direction == PlayerDirection::Left,
                    ..p2.physics.transform
                },
                ..p2.physics
            },
        );
        let runs = self.input.run && p3.state != PlayerState::Push && p3.state
            != PlayerState::Skid && p3.physics.on_ground;
        let p4 = if runs {
            Player {
                physics: Physics {
                    max_velocity: Vec2 { x: RUN_SPEED, y: p3.physics.max_velocity.y },
                    ..p3.physics
                },
                state: PlayerState::Run,
                ..p3
            }
        } else {
            p3.with_physics(
                Physics {
                    max_velocity: Vec2 { x: WALK_SPEED, y: p3.physics.max_velocity.y },
                    ..p3.physics
                },
            )
        };
        if !self.input.right && !self.input.left {
            p4.with_physics(Physics { force: Vec2 { x: 0, y: 0 }, ..p4.physics })
        } else {
            p4
        }
    }

    /// Jump phase: holding jump asks the body for a jump and shows the jump
    /// state; releasing it ends any jump in progress.
    pub open spec fn jumped(self) -> Player {
        if self.input.jump {
            Player { state: PlayerState::Jump, physics: self.physics.jump_requested(), ..self }
        } else {
            self.with_physics(Physics { can_jump: false, ..self.physics })
        }
    }

    /// A jump leaves the ground in this frame.
    pub open spec fn takes_off(self) -> bool {
        self.input.jump && self.physics.jump_requested().on_ground
            && self.physics.jump_requested().can_jump
    }

    /// Integration phase: the body steps, which uses up its ground contact,
    /// and the box moves by the velocity.
    pub open spec fn integrated(self, dt: int) -> Player {
        let ph = self.physics.stepped(dt);
        let moved = Physics {
            transform: ph.transform.translated(
                per_dt(ph.velocity.x as int, dt),
                per_dt(ph.velocity.y as int, dt),
            ),
            ..ph
        };
        self.with_physics(moved)
    }

    /// The player with its state derived from its body, once the frame's
    /// collisions are resolved.
    pub open spec fn settled(self) -> Player {
        Player { state: settled_state(self.state, self.physics), ..self }
    }

    /// A player below `max_y` is back at the spawn point with no vertical
    /// speed and off the ground; any other is unchanged.
    pub open spec fn respawned(self, max_y: int) -> Player {
        if self.physics.transform.pos.y > max_y {
            self.with_physics(
                Physics {
                    transform: Transform {
                        pos: Vec2 { x: SPAWN_X, y: SPAWN_Y },
                        ..self.physics.transform
                    },
                    velocity: Vec2 { x: self.physics.velocity.x, y: 0 },
                    on_ground: false,
                    ..self.physics
                },
            )
        } else {
            self
        }
    }

    /// One frame of `dt` microseconds.
    pub open spec fn advanced(self, dt: int) -> Player {
        self.steered().jumped().integrated(dt)
    }

    /// The player after colliding with `other`: a side hit while grounded,
    /// facing and holding toward that side (and not jumping) is a push;
    /// any other side hit is idle.
    pub open spec fn collided(self, other: Transform) -> Player {
        let physics = self.physics.collided(other);
        let pushing = |d: PlayerDirection, held: bool|
            self.state != PlayerState::Jump && held && physics.on_ground && self.direction == d;
        let state = match contact_side(self.physics.transform, other) {
            Some(Side::Right) => if pushing(PlayerDirection::Right, self.input.right) {
                PlayerState::Push
            } else {
                PlayerState::Idle
            },
            Some(Side::Left) => if pushing(PlayerDirection::Left, self.input.left) {
                PlayerState::Push
            } else {
                PlayerState::Idle
            },
            _ => self.state,
        };
        Player { physics, state, ..self }
    }

    /// The clip to show, or `None` to keep the current one (a walk in the
    /// air, a crouch).
    pub open spec fn clip(&self) -> Option<Clip> {
        match self.state {
            PlayerState::Idle => Some(Clip::Idle),
            PlayerState::Skid => Some(Clip::Skid),
            PlayerState::Walk => if self.physics.on_ground {
                Some(Clip::Walk)
            } else {
                None
            },
            PlayerState::Run => Some(Clip::Run),
            PlayerState::Jump => if self.input.right || self.input.left {
                Some(Clip::JumpRight)
            } else {
                Some(Clip::Jump)
            },
            PlayerState::Fall => Some(Clip::Fall),
            PlayerState::Push => Some(Clip::Push),
            PlayerState::Crouch => None,
        }
    }

    /// A player at the spawn point, facing right, in the air.
    pub fn new() -> (r: Player)
        ensures
            r.wf(),
            r.physics == Physics::initial(
                Transform { pos: Vec2 { x: SPAWN_X, y: SPAWN_Y }, ..Transform::initial() },
            ),
            r.state == PlayerState::Jump,
            r.direction == PlayerDirection::Right,
            r.input.idle(),
            r.input.bindings() == crate::controller::default_bindings(),
    {
        let mut transform = Transform::new();
        transform.set_position(SPAWN_X, SPAWN_Y);
        let physics = Physics::new(transform);
        Player {
            physics,
            state: PlayerState::Jump,
            direction: PlayerDirection::Right,
            input: Controller::new(),
        }
    }

    /// The clip the animation component should play for this frame.
    pub fn animation_clip(&self) -> (r: Option<Clip>)
        ensures
            r == self.clip(),
    {
        match self.state {
            PlayerState::Idle => Some(Clip::Idle),
            PlayerState::Skid => Some(Clip::Skid),
            PlayerState::Walk => if self.physics.on_ground {
                Some(Clip::Walk)
            } else {
                None
            },
            PlayerState::Run => Some(Clip::Run),
            PlayerState::Jump => if self.input.right || self.input.left {
                Some(Clip::JumpRight)
            } else {
                Some(Clip::Jump)
            },
            PlayerState::Fall => Some(Clip::Fall),
            PlayerState::Push => Some(Clip::Push),
            PlayerState::Crouch => None,
        }
    }

    /// A key went down (`pressed`) or up.
    pub fn update_input(&mut self, key: u32, pressed: bool)
        ensures
            final(self).physics == old(self).physics,
            final(self).state == old(self).state,
            final(self).direction == old(self).direction,
            final(self).input.bindings() == old(self).input.bindings(),
            final(self).input.left == old(self).input.flag_after(
                key,
                pressed,
                crate::controller::KeyAction::MoveLeft,
                old(self).input.left,
            ),
            final(self).input.right == old(self).input.flag_after(
                key,
                pressed,
                crate::controller::KeyAction::MoveRight,
                old(self).input.right,
            ),
            final(self).input.jump == old(self).input.flag_after(
                key,
                pressed,
                crate::controller::KeyAction::Jump,
                old(self).input.jump,
            ),
            final(self).input.run == old(self).input.flag_after(
                key,
                pressed,
                crate::controller::KeyAction::Run,
                old(self).input.run,
            ),
            final(self).input.crouch == old(self).input.crouch,
            final(self).input.shoot == old(self).input.shoot,
    {
        self.input.keyboard_event(key, pressed);
    }

    /// Releases every held intent.
    pub fn reset_input(&mut self)
        ensures
            final(self).physics == old(self).physics,
            final(self).state == old(self).state,
            final(self).direction == old(self).direction,
            final(self).input.bindings() == old(self).input.bindings(),
            final(self).input.idle(),
    {
        self.input.reset();
    }

    fn move_left(&mut self)
        requires
            old(self).wf(),
        ensures
            *final(self) == old(self).moved(PlayerDirection::Left),
    {
        self.direction = PlayerDirection::Left;
        self.physics.set_force(-1, 0);
        if self.state == PlayerState::Walk || self.state == PlayerState::Run || self.state
            == PlayerState::Idle || self.state == PlayerState::Skid {
            self.state = PlayerState::Walk;
            if self.physics.velocity.x > 0 {
                self.state = PlayerState::Skid;
            }
        }
    }

    fn move_right(&mut self)
        requires
            old(self).wf(),
        ensures
            *final(self) == old(self).moved(PlayerDirection::Right),
    {
        self.direction = PlayerDirection::Right;
        self.physics.set_force(1, 0);
        if self.state == PlayerState::Walk || self.state == PlayerState::Run || self.state
            == PlayerState::Idle || self.state == PlayerState::Skid {
            self.state = PlayerState::Walk;
            if self.physics.velocity.x < 0 {
                self.state = PlayerState::Skid;
            }
        }
    }

    fn stop(&mut self)
        ensures
            *final(self) == old(self).with_physics(
                Physics { force: Vec2 { x: 0, y: 0 }, ..old(self).physics },
            ),
    {
        self.physics.set_force(0, 0);
    }

    /// Holding jump: returns whether the jump leaves the ground now.
    fn jump(&mut self) -> (took_off: bool)
        requires
            old(self).wf(),
            old(self).input.jump,
        ensures
            *final(self) == old(self).jumped(),
            took_off == old(self).takes_off(),
    {
        self.state = PlayerState::Jump;
        self.physics.jump();
        self.physics.on_ground && self.physics.can_jump
    }

    /// Derives the state from the body: called once per frame, after every
    /// `collide_with` of the frame. An airborne player moving down falls; a
    /// grounded one that is not moving, or that walks, runs or skids at
    /// almost no speed, is idle; otherwise the state stays.
    pub fn settle_state(&mut self)
        ensures
            *final(self) == old(self).settled(),
    {
        if self.physics.velocity.y > 0 && !self.physics.on_ground {
            self.state = PlayerState::Fall;
        }
        let moving = self.state == PlayerState::Walk || self.state == PlayerState::Run
            || self.state == PlayerState::Skid || self.state == PlayerState::Push;
        if self.physics.on_ground && (!moving || (self.state != PlayerState::Push
            && self.physics.vel_x_is_almost_zero(IDLE_SPEED - 1))) {
            self.state = PlayerState::Idle;
        }
    }

    /// Input phase of a frame.
    fn steer(&mut self)
        requires
            old(self).wf(),
        ensures
            *final(self) == old(self).steered(),
            final(self).wf(),
    {
        if self.input.left {
            self.move_left();
        }
        if self.input.right {
            self.move_right();
        }
        let facing_left = self.direction == PlayerDirection::Left;
        self.physics.transform.set_flip_x(facing_left);
        if self.input.run && self.state != PlayerState::Push && self.state != PlayerState::Skid
            && self.physics.on_ground {
            self.physics.run();
            self.state = PlayerState::Run;
        } else {
            self.physics.walk();
        }
        if !self.input.right && !self.input.left {
            self.stop();
        }
    }

    /// Jump phase of a frame.
    fn handle_jump(&mut self) -> (took_off: bool)
        requires
            old(self).wf(),
        ensures
            *final(self) == old(self).jumped(),
            final(self).wf(),
            took_off == old(self).takes_off(),
    {
        if self.input.jump {
            self.jump()
        } else {
            self.physics.can_jump = false;
            false
        }
    }

    /// Integration phase of a frame.
    fn integrate(&mut self, dt: u32)
        requires
            old(self).wf(),
        ensures
            *final(self) == old(self).integrated(dt as int),
            final(self).wf(),
    {
        self.physics.update(dt);
        let dx = rate_times_dt(self.physics.velocity.x as i128, dt);
        let dy = rate_times_dt(self.physics.velocity.y as i128, dt);
        self.physics.transform.translate(dx as i64, dy as i64);
    }

    /// The movement of one frame of `dt` microseconds: input is turned into
    /// intent, the body is integrated, and the box moves by the velocity.
    /// Ground contact must then be re-established by `collide_with`, after
    /// which `settle_state` derives the state. Returns whether a jump left
    /// the ground.
    pub fn update(&mut self, dt: u32) -> (took_off: bool)
        requires
            old(self).wf(),
        ensures
            *final(self) == old(self).advanced(dt as int),
            final(self).wf(),
            took_off == old(self).steered().takes_off(),
            !final(self).physics.on_ground,
    {
        self.steer();
        let took_off = self.handle_jump();
        self.integrate(dt);
        took_off
    }

    /// Resolves a collision with the static box `transform`, reports the side
    /// of the player that met it, and applies the push rule.
    pub fn collide_with(&mut self, transform: &Transform) -> (r: Option<Side>)
        requires
            old(self).wf(),
            transform.wf(),
        ensures
            r == contact_side(old(self).physics.transform, *transform),
            *final(self) == old(self).collided(*transform),
            final(self).wf(),
    {
        let side = self.physics.collide_with(transform);
        match side {
            Some(Side::Right) => {
                if self.state != PlayerState::Jump && self.input.right && self.physics.on_ground
                    && self.direction == PlayerDirection::Right {
                    self.state = PlayerState::Push;
                } else {
                    self.state = PlayerState::Idle;
                }
            },
            Some(Side::Left) => {
                if self.state != PlayerState::Jump && self.input.left && self.physics.on_ground
                    && self.direction == PlayerDirection::Left {
                    self.state = PlayerState::Push;
                } else {
                    self.state = PlayerState::Idle;
                }
            },
            _ => {},
        }
        side
    }

    /// A player that fell below `max_y` goes back to the spawn point with no
    /// vertical speed and off the ground.
    pub fn respawn_player_if_overflow(&mut self, max_y: i64)
        requires
            old(self).wf(),
        ensures
            final(self).wf(),
            *final(self) == old(self).respawned(max_y as int),
    {
        if self.physics.transform.pos.y > max_y {
            self.physics.transform.set_position(SPAWN_X, SPAWN_Y);
            self.physics.velocity.y = 0;
            self.physics.on_ground = false;
        }
    }

    /// Faces the player toward `dir`.
    pub fn set_dir(&mut self, dir: PlayerDirection)
        ensures
            *final(self) == old(self).with_physics(
                Physics {
                    transform: Transform {
                        flip_x: dir == PlayerDirection::Left,
                        ..old(self).physics.transform
                    },
                    ..old(self).physics
                },
            ),
    {
        self.physics.transform.set_flip_x(dir == PlayerDirection::Left);
    }

    /// Whether the player faces right.
    pub fn dir_right(&self) -> (r: bool)
        ensures
            r == !self.physics.transform.flip_x,
    {
        !self.physics.transform.flip_x
    }

    pub fn set_scale(&mut self, x: i64, y: i64)
        requires
            0 <= x <= crate::transform::SCALE_LIMIT,
            0 <= y <= crate::transform::SCALE_LIMIT,
        ensures
            *final(self) == old(self).with_physics(
                Physics {
                    transform: Transform { scale: Vec2 { x, y }, ..old(self).physics.transform },
                    ..old(self).physics
                },
            ),
    {
        self.physics.transform.set_scale(x, y);
    }

    pub fn set_position(&mut self, x: i64, y: i64)
        requires
            in_coord_range(x as int),
            in_coord_range(y as int),
        ensures
            *final(self) == old(self).with_physics(
                Physics {
                    transform: Transform { pos: Vec2 { x, y }, ..old(self).physics.transform },
                    ..old(self).physics
                },
            ),
    {
        self.physics.transform.set_position(x, y);
    }

    /// The horizontal speed.
    pub fn get_vel_x(&self) -> (r: i64)
        ensures
            r == self.physics.velocity.x,
    {
        self.physics.velocity.x
    }

    /// Keeps the player horizontally inside a window of `size`: its left edge
    /// not before zero, then its right edge not past the window's width.
    pub fn set_inside_window(&mut self, size: crate::geometry::Size)
        requires
            old(self).wf(),
            0 <= size.width <= crate::transform::SIZE_LIMIT,
        ensures
            final(self).wf(),
            final(self).physics.transform.pos.x == ({
                let t = old(self).physics.transform;
                let x = if t.pos.x < 0 {
                    0
                } else {
                    t.pos.x as int
                };
                if x + t.width_spec() > size.width {
                    size.width - t.width_spec()
                } else {
                    x
                }
            }),
            final(self).physics.transform.pos.y == old(self).physics.transform.pos.y,
            final(self).physics.transform.size == old(self).physics.transform.size,
            final(self).physics.transform.scale == old(self).physics.transform.scale,
            final(self).state == old(self).state,
    {
        proof {
            self.physics.transform.lemma_extent_bounds();
        }
        if self.physics.transform.x() < 0 {
            self.physics.transform.set_position_x(0);
        }
        if self.physics.transform.xw() > size.width {
            let x = size.width - self.physics.transform.w();
            self.physics.transform.set_position_x(x);
        }
    }

    /// The player's box, for the camera and the orchestrator.
    pub fn get_transform(&self) -> (r: &Transform)
        ensures
            *r == self.physics.transform,
    {
        &self.physics.transform
    }

    /// The discrete state, for the animation component.
    pub fn current_state(&self) -> (r: PlayerState)
        ensures
            r == self.state,
    {
        self.state
    }

    /// Whether the sprite is mirrored (the player faces left).
    pub fn facing_flipped(&self) -> (r: bool)
        ensures
            r == self.physics.transform.flip_x,
    {
        self.physics.transform.flip_x
    }
}

impl Player {
    /// `n` calls of `collide_with` against the same box.
    pub open spec fn collided_times(self, other: Transform, n: nat) -> Player
        decreases n,
    {
        if n == 0 {
            self
        } else {
            self.collided_times(other, (n - 1) as nat).collided(other)
        }
    }

    /// `n` frames in which the player moves, meets `floor`, and settles its
    /// state.
    pub open spec fn frames_on(self, floor: Transform, dt: int, n: nat) -> Player
        decreases n,
    {
        if n == 0 {
            self
        } else {
            self.frames_on(floor, dt, (n - 1) as nat).advanced(dt).collided(floor).settled()
        }
    }

    /// The player stands still on top of `floor`, within its width, with no
    /// directional or jump key held.
    pub open spec fn rests_on(&self, floor: Transform) -> bool {
        let t = self.physics.transform;
        &&& t.bottom() == floor.top()
        &&& floor.left() < t.left()
        &&& t.right() < floor.right()
        &&& self.physics.velocity.x == 0
        &&& self.physics.velocity.y == 0
        &&& !self.input.left
        &&& !self.input.right
        &&& !self.input.jump
    }

    /// How far a resting player sinks under gravity in one frame.
    pub open spec fn sink(&self, dt: int) -> int {
        per_dt(
            crate::units::clamp(
                self.physics.gravity_gain(dt),
                -(self.physics.max_velocity.y as int),
                self.physics.max_velocity.y as int,
            ),
            dt,
        )
    }
}

/// Without a jump key held, a player's downward speed grows strictly every
/// frame until it reaches the vertical limit.
pub proof fn lemma_player_gravity_monotone(p: Player, dt: int)
    requires
        p.wf(),
        !p.physics.on_ground,
        !p.input.jump,
        0 <= dt <= u32::MAX,
        p.physics.gravity_gain(dt) > 0,
        p.physics.velocity.y <= p.physics.max_velocity.y,
    ensures
        p.advanced(dt).physics.velocity.y > p.physics.velocity.y
            || p.advanced(dt).physics.velocity.y == p.physics.max_velocity.y,
{
    let q = p.steered().jumped();
    assert(q.physics.velocity == p.physics.velocity);
    assert(q.physics.max_velocity.y == p.physics.max_velocity.y);
    assert(q.physics.gravity_gain(dt) == p.physics.gravity_gain(dt));
    crate::physics::lemma_gravity_monotone(q.physics, dt);
}

/// Once a collision is resolved the pair no longer overlaps: `collide_with`
/// against the same box then reports nothing and changes nothing, however
/// often it is called.
pub proof fn lemma_collision_idempotent(p: Player, other: Transform, n: nat)
    requires
        p.wf(),
        other.wf(),
        resolvable(p.physics.transform, other),
    ensures
        contact_side(p.collided(other).physics.transform, other) is None,
        p.collided(other).collided_times(other, n) == p.collided(other),
    decreases n,
{
    let t = p.physics.transform;
    t.lemma_extent_bounds();
    other.lemma_extent_bounds();
    if n > 0 {
        lemma_collision_idempotent(p, other, (n - 1) as nat);
    }
}

/// A pair that does not overlap is left alone by `collide_with`, which reports
/// nothing, however often it is called.
pub proof fn lemma_apart_stays_apart(p: Player, other: Transform, n: nat)
    requires
        !crate::collider::overlaps(p.physics.transform, other),
    ensures
        p.collided_times(other, n) == p,
        contact_side(p.physics.transform, other) is None,
    decreases n,
{
    if n > 0 {
        lemma_apart_stays_apart(p, other, (n - 1) as nat);
    }
}

/// A player resting on a floor that meets it through `collide_with` every
/// frame is on the ground after every frame and keeps resting; a frame
/// without that call leaves it off the ground. This holds while a frame's fall
/// is shorter than the player's width and height and than the floor's height.
pub proof fn lemma_ground_contact_every_frame(p: Player, floor: Transform, dt: int, n: nat)
    requires
        p.wf(),
        floor.wf(),
        p.rests_on(floor),
        0 <= dt <= u32::MAX,
        0 < p.sink(dt),
        p.sink(dt) < p.physics.transform.width_spec(),
        p.sink(dt) < p.physics.transform.height_spec(),
        p.sink(dt) < floor.height_spec(),
    ensures
        p.frames_on(floor, dt, n).wf(),
        p.frames_on(floor, dt, n).rests_on(floor),
        p.frames_on(floor, dt, n).sink(dt) == p.sink(dt),
        p.frames_on(floor, dt, n).physics.transform.size == p.physics.transform.size,
        p.frames_on(floor, dt, n).physics.transform.scale == p.physics.transform.scale,
        n > 0 ==> p.frames_on(floor, dt, n).physics.on_ground,
        !p.frames_on(floor, dt, n).advanced(dt).physics.on_ground,
    decreases n,
{
    if n > 0 {
        let m = (n - 1) as nat;
        lemma_ground_contact_every_frame(p, floor, dt, m);
        let q = p.frames_on(floor, dt, m);
        lemma_frame_on_floor(q, floor, dt);
    }
}

proof fn lemma_frame_on_floor(q: Player, floor: Transform, dt: int)
    requires
        q.wf(),
        floor.wf(),
        q.rests_on(floor),
        0 <= dt <= u32::MAX,
        0 < q.sink(dt),
        q.sink(dt) < q.physics.transform.width_spec(),
        q.sink(dt) < q.physics.transform.height_spec(),
        q.sink(dt) < floor.height_spec(),
    ensures
        q.advanced(dt).collided(floor).wf(),
        q.advanced(dt).collided(floor).rests_on(floor),
        q.advanced(dt).collided(floor).physics.on_ground,
        q.advanced(dt).collided(floor).sink(dt) == q.sink(dt),
        q.advanced(dt).collided(floor).physics.transform.size == q.physics.transform.size,
        q.advanced(dt).collided(floor).physics.transform.scale == q.physics.transform.scale,
{
    let s = q.steered().jumped();
    s.physics.lemma_stepped_wf(dt);
    let a = q.advanced(dt);
    let t = q.physics.transform;
    t.lemma_extent_bounds();
    floor.lemma_extent_bounds();
    assert(s.physics.velocity == q.physics.velocity);
    assert(s.physics.force.x == 0);
    assert(!s.physics.can_jump);
    let ph = s.physics.stepped(dt);
    assert(ph.velocity.x == 0);
    assert(ph.velocity.y == crate::units::clamp(
        q.physics.gravity_gain(dt),
        -(q.physics.max_velocity.y as int),
        q.physics.max_velocity.y as int,
    ));
    assert(crate::units::per_dt(0, dt) == 0);
    let at = a.physics.transform;
    assert(at.pos.x == t.pos.x);
    assert(at.pos.y == t.pos.y + q.sink(dt));
    assert(at.width_spec() == t.width_spec());
    assert(at.height_spec() == t.height_spec());
    let d = q.sink(dt);
    assert(crate::collider::overlaps(at, floor));
    assert(crate::collider::depth_bottom(at, floor) == d);
    assert(crate::collider::depth_left(at, floor) > d);
    assert(crate::collider::depth_right(at, floor) > d);
    assert(crate::collider::depth_top(at, floor) > d);
    assert(contact_side(at, floor) == Some(Side::Bottom));
    q.advanced(dt).physics.transform.lemma_extent_bounds();
}

/// Upward speed the held jump asks for, before the vertical limit.
pub open spec fn lift(p: Physics) -> int {
    (p.jump_power * (p.jump_max_duration - p.jump_duration)) / (p.jump_max_duration as int)
}

/// The jump's lift fades by less than gravity adds in one frame.
pub open spec fn lift_fades_slower_than_gravity(p: Physics, dt: int) -> bool {
    (p.jump_power * dt) / (p.jump_max_duration as int) + 1 <= p.gravity_gain(dt)
}

/// If `held` goes on jumping in its next frame, the speed it asks for is no
/// faster downward than what gravity gives `released`.
pub open spec fn hold_keeps_up(held: Player, released: Player, dt: int) -> bool {
    let q = held.physics.jump_requested();
    q.can_jump && q.jump_duration < q.jump_max_duration ==> -lift(q)
        <= released.physics.velocity.y + released.physics.gravity_gain(dt)
}

/// Two airborne copies of a player, one holding jump and one not, with the
/// holder at least as high and moving up at least as fast.
pub open spec fn rises_with(held: Player, released: Player, dt: int) -> bool {
    let a = held.physics;
    let b = released.physics;
    &&& held.wf()
    &&& released.wf()
    &&& held.input.jump
    &&& !released.input.jump
    &&& !held.input.left && !held.input.right
    &&& !released.input.left && !released.input.right
    &&& a.gravity == b.gravity
    &&& a.mass == b.mass
    &&& a.max_velocity.y == b.max_velocity.y
    &&& a.jump_power == b.jump_power
    &&& a.jump_max_duration == b.jump_max_duration
    &&& lift_fades_slower_than_gravity(a, dt)
    &&& a.velocity.y <= b.velocity.y
    &&& a.transform.pos.y <= b.transform.pos.y
    &&& hold_keeps_up(held, released, dt)
}

impl Player {
    /// The player with the jump key held or not.
    pub open spec fn with_jump_key(self, held: bool) -> Player {
        Player { input: Controller { jump: held, ..self.input }, ..self }
    }

    /// `n` frames without collisions.
    pub open spec fn frames(self, dt: int, n: nat) -> Player
        decreases n,
    {
        if n == 0 {
            self
        } else {
            self.frames(dt, (n - 1) as nat).advanced(dt)
        }
    }

    /// The least y (the highest point, the y axis pointing down) reached over
    /// the first `n` frames without collisions, the start included.
    pub open spec fn summit(self, dt: int, n: nat) -> int
        decreases n,
    {
        if n == 0 {
            self.physics.transform.pos.y as int
        } else {
            crate::collider::min(
                self.summit(dt, (n - 1) as nat),
                self.frames(dt, n).physics.transform.pos.y as int,
            )
        }
    }
}

proof fn lemma_per_dt_monotone(u: int, v: int, dt: int)
    requires
        u <= v,
        0 <= dt,
    ensures
        per_dt(u, dt) <= per_dt(v, dt),
{
    assert(u * dt <= v * dt) by (nonlinear_arith)
        requires
            u <= v,
            0 <= dt,
    ;
    let x = u * dt;
    let y = v * dt;
    if x >= 0 {
        assert(x / 1_000_000 <= y / 1_000_000) by (nonlinear_arith)
            requires
                0 <= x <= y,
        ;
    } else if y >= 0 {
        assert(-((-x) / 1_000_000) <= 0);
    } else {
        assert((-y) / 1_000_000 <= (-x) / 1_000_000) by (nonlinear_arith)
            requires
                0 <= -y <= -x,
        ;
    }
}

proof fn lemma_lift_fades(p: Physics, dt: int)
    requires
        p.wf(),
        0 <= dt,
        p.jump_duration + dt < p.jump_max_duration,
    ensures
        lift(p) - lift(Physics { jump_duration: (p.jump_duration + dt) as i64, ..p })
            <= (p.jump_power * dt) / (p.jump_max_duration as int) + 1,
        lift(Physics { jump_duration: (p.jump_duration + dt) as i64, ..p }) >= 0,
{
    let c = p.jump_max_duration as int;
    let jp = p.jump_power as int;
    let rest = c - p.jump_duration - dt;
    let b = jp * rest;
    let e = jp * dt;
    assert(jp * (c - p.jump_duration) == b + e) by (nonlinear_arith)
        requires
            b == jp * rest,
            e == jp * dt,
            rest == c - p.jump_duration - dt,
    ;
    assert(b >= 0 && e >= 0) by (nonlinear_arith)
        requires
            jp >= 0,
            rest >= 0,
            dt >= 0,
            b == jp * rest,
            e == jp * dt,
    ;
    assert((b + e) / c <= b / c + e / c + 1 && b / c >= 0) by (nonlinear_arith)
        requires
            c > 0,
            b >= 0,
            e >= 0,
    ;
}

proof fn lemma_rises_with_step(held: Player, released: Player, dt: int)
    requires
        rises_with(held, released, dt),
        0 <= dt <= u32::MAX,
    ensures
        rises_with(held.advanced(dt), released.advanced(dt), dt),
        !held.advanced(dt).physics.on_ground,
{
    let sa = held.steered().jumped();
    let sb = released.steered().jumped();
    sa.physics.lemma_stepped_wf(dt);
    sb.physics.lemma_stepped_wf(dt);
    let q = held.physics.jump_requested();
    assert(sa.physics == Physics {
        force: sa.physics.force,
        max_velocity: sa.physics.max_velocity,
        transform: sa.physics.transform,
        ..q
    });
    assert(!sb.physics.can_jump);
    assert(sb.physics.velocity == released.physics.velocity);
    let pa = sa.physics.stepped(dt);
    let pb = sb.physics.stepped(dt);
    let g = released.physics.gravity_gain(dt);
    let my = released.physics.max_velocity.y as int;
    assert(pb.velocity.y == crate::units::clamp(released.physics.velocity.y + g, -my, my));
    if q.can_jump && q.jump_duration < q.jump_max_duration {
        crate::units::lemma_mul_le(
            q.jump_power as int,
            (q.jump_max_duration - q.jump_duration) as int,
            RATE_LIMIT as int,
            2 * crate::physics::DURATION_LIMIT,
        );
        assert(lift(q) >= 0) by (nonlinear_arith)
            requires
                q.jump_power * (q.jump_max_duration - q.jump_duration) >= 0,
                q.jump_max_duration > 0,
                lift(q) == (q.jump_power * (q.jump_max_duration - q.jump_duration)) / (
                q.jump_max_duration as int),
        ;
        assert(pa.velocity.y == sa.physics.jump_speed());
        assert(pa.velocity.y <= pb.velocity.y);
        let na = held.advanced(dt);
        let qn = na.physics.jump_requested();
        if qn.can_jump && qn.jump_duration < qn.jump_max_duration {
            assert(qn.jump_duration == q.jump_duration + dt);
            lemma_lift_fades(q, dt);
            assert(lift(qn) == lift(Physics { jump_duration: (q.jump_duration + dt) as i64, ..q }));
        }
    } else {
        assert(pa.velocity.y == crate::units::clamp(held.physics.velocity.y + g, -my, my));
    }
    lemma_per_dt_monotone(pa.velocity.y as int, pb.velocity.y as int, dt);
}

/// Holding jump never leaves a player lower than letting go at the same
/// moment: in every later frame without collisions the holder is at least as
/// high and moves up at least as fast, so its highest point is at least as
/// high. This holds while the jump's lift fades by less than gravity adds in a
/// frame, and the first frame's lift is no weaker than gravity's pull.
pub proof fn lemma_held_jump_rises_at_least_as_high(p: Player, dt: int, n: nat)
    requires
        p.wf(),
        !p.input.left,
        !p.input.right,
        0 <= dt <= u32::MAX,
        lift_fades_slower_than_gravity(p.physics, dt),
        hold_keeps_up(p.with_jump_key(true), p.with_jump_key(false), dt),
    ensures
        rises_with(p.with_jump_key(true).frames(dt, n), p.with_jump_key(false).frames(dt, n), dt),
        p.with_jump_key(true).frames(dt, n).physics.transform.pos.y <= p.with_jump_key(
            false,
        ).frames(dt, n).physics.transform.pos.y,
        p.with_jump_key(true).summit(dt, n) <= p.with_jump_key(false).summit(dt, n),
    decreases n,
{
    if n > 0 {
        let m = (n - 1) as nat;
        lemma_held_jump_rises_at_least_as_high(p, dt, m);
        lemma_rises_with_step(
            p.with_jump_key(true).frames(dt, m),
            p.with_jump_key(false).frames(dt, m),
            dt,
        );
    }
}

/// Holding the key against the current motion turns a walking, running,
/// idle or skidding player into a skid within the frame: it faces and pushes
/// the new way at once, and on the ground the skid outlasts the frame's
/// collisions while the player still moves faster than standing still.
pub proof fn lemma_reversal_skids(p: Player, floor: Transform, dt: int)
    requires
        p.wf(),
        is_steerable(p.state),
        p.physics.velocity.x > 0,
        p.input.left,
        !p.input.right,
        !p.input.jump,
        0 <= dt <= u32::MAX,
    ensures
        p.advanced(dt).state == PlayerState::Skid,
        p.advanced(dt).direction == PlayerDirection::Left,
        p.advanced(dt).physics.force.x == -1,
        p.advanced(dt).physics.transform.flip_x,
        contact_side(p.advanced(dt).physics.transform, floor) == Some(Side::Bottom) && abs(
            p.advanced(dt).physics.velocity.x as int,
        ) >= IDLE_SPEED ==> p.advanced(dt).collided(floor).settled().state == PlayerState::Skid,
{
}

} // verus!
