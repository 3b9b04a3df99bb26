use vstd::prelude::*;
use crate::collider::{contact_side, Collider, Side};
use crate::geometry::Vec2;
use crate::transform::{in_coord_range, Transform};
use crate::units::{
    abs, clamp, clamp_i128, div_toward_zero, per_dt, rate_times_dt, scale_per_mille, FACTOR_LIMIT,
    RATE_LIMIT,
};

verus! {

/// Horizontal speed limit while walking: one hundred pixels per second.
pub const WALK_SPEED: i64 = 100_000;

/// Horizontal speed limit while running.
pub const RUN_SPEED: i64 = 120_000;

/// Vertical speed limit.
pub const FALL_SPEED: i64 = 400_000;

/// Longest jump hold, and more generally longest duration a body tracks.
pub const DURATION_LIMIT: i64 = 1_099_511_627_776;

/// Kinematic state of a body: velocity, limits, control intent, jump timing
/// and the box it moves.
///
/// `force.x` is the horizontal intent (-1 left, 0 none, 1 right). `gravity`
/// times `mass` is the downward acceleration. `friction` and `skid_factor`
/// are in thousandths.
#[derive(Clone, Copy, Debug, PartialEq, Eq, Structural)]
pub struct Physics {
    pub velocity: Vec2,
    pub max_velocity: Vec2,
    pub on_ground: bool,
    pub movement_speed: i64,
    pub gravity: i64,
    pub friction: i64,
    pub jump_power: i64,
    pub jump_duration: i64,
    pub jump_max_duration: i64,
    pub can_jump: bool,
    pub force: Vec2,
    pub mass: i64,
    pub deceleration: i64,
    pub skid_factor: i64,
    pub transform: Transform,
}

pub open spec fn in_rate_range(v: int) -> bool {
    -RATE_LIMIT <= v <= RATE_LIMIT
}

/// `amount` in the direction of the sign of `f`.
pub open spec fn directed(f: int, amount: int) -> int {
    if f > 0 {
        amount
    } else if f < 0 {
        -amount
    } else {
        0
    }
}

/// The intent `f` points against the motion `v`.
pub open spec fn opposes(f: int, v: int) -> bool {
    (f > 0 && v < 0) || (f < 0 && v > 0)
}

/// `v` moved toward zero by `dec`, stopping at zero.
pub open spec fn decelerated(v: int, dec: int) -> int {
    if v > 0 {
        if v - dec > 0 {
            v - dec
        } else {
            0
        }
    } else if v < 0 {
        if v + dec < 0 {
            v + dec
        } else {
            0
        }
    } else {
        0
    }
}

/// Speed lost to friction over `dt`: proportional to the speed and applied
/// over the step twice, each time rounded down.
pub open spec fn friction_loss(friction: int, speed: int, dt: int) -> int {
    per_dt(per_dt(friction * speed, dt) / 1000, dt)
}

impl Physics {
    pub open spec fn wf(&self) -> bool {
        &&& in_rate_range(self.velocity.x as int)
        &&& in_rate_range(self.velocity.y as int)
        &&& 0 <= self.max_velocity.x <= RATE_LIMIT
        &&& 0 <= self.max_velocity.y <= RATE_LIMIT
        &&& 0 <= self.movement_speed <= RATE_LIMIT
        &&& 0 <= self.deceleration <= RATE_LIMIT
        &&& 0 <= self.jump_power <= RATE_LIMIT
        &&& 0 <= self.gravity <= FACTOR_LIMIT
        &&& 0 <= self.mass <= FACTOR_LIMIT
        &&& 0 <= self.friction <= FACTOR_LIMIT
        &&& 0 <= self.skid_factor <= FACTOR_LIMIT
        &&& 0 <= self.jump_duration <= 2 * DURATION_LIMIT
        &&& 0 < self.jump_max_duration <= DURATION_LIMIT
        &&& -1 <= self.force.x <= 1
        &&& -1 <= self.force.y <= 1
        &&& self.transform.wf()
    }

    /// Velocity within the body's limits on both axes.
    pub open spec fn within_limits(&self) -> bool {
        &&& abs(self.velocity.x as int) <= self.max_velocity.x
        &&& abs(self.velocity.y as int) <= self.max_velocity.y
    }

    /// Speed gained from gravity over `dt`.
    pub open spec fn gravity_gain(&self, dt: int) -> int {
        per_dt(self.gravity * self.mass, dt)
    }

    /// Speed gained from the movement intent over `dt`.
    pub open spec fn push_gain(&self, dt: int) -> int {
        per_dt(self.movement_speed as int, dt)
    }

    /// Speed lost to deceleration over `dt` when there is no intent.
    pub open spec fn deceleration_loss(&self, dt: int) -> int {
        per_dt(self.deceleration as int, dt)
    }

    pub open spec fn with_velocity(self, x: int, y: int) -> Physics {
        Physics { velocity: Vec2 { x: x as i64, y: y as i64 }, ..self }
    }

    /// Gravity step: vertical speed grows by the gravity gain, held within the
    /// vertical limit.
    pub open spec fn after_gravity(self, dt: int) -> Physics {
        let my = self.max_velocity.y as int;
        self.with_velocity(
            self.velocity.x as int,
            clamp(self.velocity.y + self.gravity_gain(dt), -my, my),
        )
    }

    /// Horizontal speed after the movement step.
    pub open spec fn horizontal_speed(self, dt: int) -> int {
        let fx = self.force.x as int;
        let push = self.push_gain(dt);
        let mx = self.max_velocity.x as int;
        let v1 = self.velocity.x + directed(fx, push);
        let v2 = if fx == 0 {
            decelerated(v1, self.deceleration_loss(dt))
        } else {
            v1 - directed(fx, friction_loss(self.friction as int, abs(v1), dt))
        };
        let v3 = clamp(v2, -mx, mx);
        if opposes(fx, v3) {
            clamp(
                div_toward_zero(v3 * self.skid_factor, 1000) + directed(fx, push),
                -mx,
                mx,
            )
        } else {
            v3
        }
    }

    /// Horizontal step: intent, then deceleration (no intent) or friction
    /// (intent), then the speed limit, then skid damping when the intent
    /// points against the motion.
    pub open spec fn after_horizontal(self, dt: int) -> Physics {
        self.with_velocity(self.horizontal_speed(dt), self.velocity.y as int)
    }

    /// Upward speed while the jump is held, `jump_duration` into it: full
    /// power at first, decaying linearly to nothing at `jump_max_duration`,
    /// never beyond the vertical limit.
    pub open spec fn jump_speed(&self) -> int {
        let lift = (self.jump_power * (self.jump_max_duration - self.jump_duration))
            / (self.jump_max_duration as int);
        if -lift >= -(self.max_velocity.y as int) {
            -lift
        } else {
            -(self.max_velocity.y as int)
        }
    }

    /// Jump step: while a jump may continue, the vertical speed is the jump
    /// speed, the hold time advances and the body leaves the ground.
    pub open spec fn after_jump(self, dt: int) -> Physics {
        if self.can_jump && self.jump_duration < self.jump_max_duration {
            Physics {
                velocity: Vec2 { x: self.velocity.x, y: self.jump_speed() as i64 },
                jump_duration: (self.jump_duration + dt) as i64,
                on_ground: false,
                ..self
            }
        } else {
            self
        }
    }

    /// One integration step, in order: gravity, horizontal movement, jump.
    /// The step uses up the ground contact: only a collision through the
    /// bottom after the step grounds the body again.
    pub open spec fn stepped(self, dt: int) -> Physics {
        Physics { on_ground: false, ..self.after_gravity(dt).after_horizontal(dt).after_jump(dt) }
    }

    /// A jump request: on the ground it starts a new jump; a body that
    /// already falls, or has held the jump to its end, can jump no further.
    pub open spec fn jump_requested(self) -> Physics {
        let p = if self.on_ground {
            Physics { jump_duration: 0, can_jump: true, ..self }
        } else {
            self
        };
        if p.velocity.y > 0 || p.jump_duration >= p.jump_max_duration {
            Physics { can_jump: false, ..p }
        } else {
            p
        }
    }

    /// Collision response against `other`: the body is moved out through the
    /// reported side and the velocity along that axis is zeroed. A ceiling ends
    /// the jump; a floor grounds the body.
    pub open spec fn collided(self, other: Transform) -> Physics {
        let t = self.transform;
        match contact_side(t, other) {
            Some(Side::Right) => Physics {
                transform: t.translated(other.left() - t.right(), 0),
                velocity: Vec2 { x: 0, y: self.velocity.y },
                ..self
            },
            Some(Side::Left) => Physics {
                transform: t.translated(other.right() - t.left(), 0),
                velocity: Vec2 { x: 0, y: self.velocity.y },
                ..self
            },
            Some(Side::Top) => Physics {
                transform: t.translated(0, other.bottom() - t.top()),
                velocity: Vec2 { x: self.velocity.x, y: 0 },
                can_jump: false,
                ..self
            },
            Some(Side::Bottom) => Physics {
                transform: t.translated(0, other.top() - t.bottom()),
                velocity: Vec2 { x: self.velocity.x, y: 0 },
                on_ground: true,
                ..self
            },
            None => self,
        }
    }

    /// A body at rest, in the air, with the default tuning.
    pub open spec fn initial(transform: Transform) -> Physics {
        Physics {
            velocity: Vec2 { x: 0, y: 0 },
            max_velocity: Vec2 { x: WALK_SPEED, y: FALL_SPEED },
            on_ground: false,
            movement_speed: 500_000,
            gravity: 1_200,
            friction: 600,
            jump_power: 200_000,
            jump_duration: 0,
            jump_max_duration: 700_000,
            can_jump: false,
            force: Vec2 { x: 0, y: 0 },
            mass: 450,
            deceleration: 120_000,
            skid_factor: 1_080,
            transform,
        }
    }

    /// A body at rest with the default tuning, moving `transform`.
    pub fn new(transform: Transform) -> (r: Physics)
        requires
            transform.wf(),
        ensures
            r.wf(),
            r == Physics::initial(transform),
    {
        Physics {
            velocity: Vec2 { x: 0, y: 0 },
            max_velocity: Vec2 { x: WALK_SPEED, y: FALL_SPEED },
            on_ground: false,
            movement_speed: 500_000,
            gravity: 1_200,
            friction: 600,
            jump_power: 200_000,
            jump_duration: 0,
            jump_max_duration: 700_000,
            can_jump: false,
            force: Vec2 { x: 0, y: 0 },
            mass: 450,
            deceleration: 120_000,
            skid_factor: 1_080,
            transform,
        }
    }

    /// The horizontal speed is within `precision` of zero.
    pub fn vel_x_is_almost_zero(&self, precision: i64) -> (r: bool)
        ensures
            r == (-precision <= self.velocity.x <= precision),
    {
        self.velocity.x as i128 >= -(precision as i128) && self.velocity.x <= precision
    }

    pub fn apply_gravity(&mut self, dt: u32)
        requires
            old(self).wf(),
        ensures
            *final(self) == old(self).after_gravity(dt as int),
            final(self).wf(),
    {
        proof {
            crate::units::lemma_mul_le(
                self.gravity as int,
                self.mass as int,
                FACTOR_LIMIT as int,
                FACTOR_LIMIT as int,
            );
        }
        let accel = (self.gravity as i128) * (self.mass as i128);
        let gain = rate_times_dt(accel, dt);
        let my = self.max_velocity.y as i128;
        let vy = clamp_i128(self.velocity.y as i128 + gain, -my, my);
        self.velocity.y = vy as i64;
    }

    pub fn jump(&mut self)
        requires
            old(self).wf(),
        ensures
            *final(self) == old(self).jump_requested(),
            final(self).wf(),
    {
        if self.on_ground {
            self.jump_duration = 0;
            self.can_jump = true;
        }
        if self.velocity.y > 0 || self.jump_duration >= self.jump_max_duration {
            self.can_jump = false;
        }
    }

    /// Raises the horizontal speed limit to the running limit.
    pub fn run(&mut self)
        ensures
            *final(self) == (Physics {
                max_velocity: Vec2 { x: RUN_SPEED, y: old(self).max_velocity.y },
                ..*old(self)
            }),
    {
        self.max_velocity.x = RUN_SPEED;
    }

    /// Sets the horizontal speed limit to the walking limit.
    pub fn walk(&mut self)
        ensures
            *final(self) == (Physics {
                max_velocity: Vec2 { x: WALK_SPEED, y: old(self).max_velocity.y },
                ..*old(self)
            }),
    {
        self.max_velocity.x = WALK_SPEED;
    }

    pub fn apply_jump(&mut self, dt: u32)
        requires
            old(self).wf(),
        ensures
            *final(self) == old(self).after_jump(dt as int),
            final(self).wf(),
    {
        if self.can_jump && self.jump_duration < self.jump_max_duration {
            let remaining = self.jump_max_duration - self.jump_duration;
            proof {
                crate::units::lemma_mul_le(
                    self.jump_power as int,
                    remaining as int,
                    RATE_LIMIT as int,
                    2 * DURATION_LIMIT,
                );
                lemma_div_nonneg(self.jump_power * remaining, self.jump_max_duration as int);
            }
            let lift = (self.jump_power as i128) * (remaining as i128) / (
            self.jump_max_duration as i128);
            let floor = -(self.max_velocity.y as i128);
            let vy = if -lift >= floor {
                -lift
            } else {
                floor
            };
            self.velocity.y = vy as i64;
            self.jump_duration = self.jump_duration + dt as i64;
            self.on_ground = false;
        }
    }

    pub fn apply_horizontal_movement(&mut self, dt: u32)
        requires
            old(self).wf(),
        ensures
            *final(self) == old(self).after_horizontal(dt as int),
            final(self).wf(),
    {
        let fx = self.force.x;
        let push = rate_times_dt(self.movement_speed as i128, dt);
        let vx = self.velocity.x as i128;
        let v1: i128 = if fx > 0 {
            vx + push
        } else if fx < 0 {
            vx - push
        } else {
            vx
        };
        let v2: i128 = if fx == 0 {
            let dec = rate_times_dt(self.deceleration as i128, dt);
            if v1 > 0 {
                if v1 - dec > 0 {
                    v1 - dec
                } else {
                    0
                }
            } else if v1 < 0 {
                if v1 + dec < 0 {
                    v1 + dec
                } else {
                    0
                }
            } else {
                0
            }
        } else {
            let speed = if v1 >= 0 {
                v1
            } else {
                -v1
            };
            let loss = friction_loss_exec(self.friction, speed, dt);
            if fx > 0 {
                v1 - loss
            } else {
                v1 + loss
            }
        };
        let mx = self.max_velocity.x as i128;
        let v3 = clamp_i128(v2, -mx, mx);
        let v4 = if (fx > 0 && v3 < 0) || (fx < 0 && v3 > 0) {
            let damped = scale_per_mille(v3, self.skid_factor);
            let pushed = if fx > 0 {
                damped + push
            } else {
                damped - push
            };
            clamp_i128(pushed, -mx, mx)
        } else {
            v3
        };
        self.velocity.x = v4 as i64;
    }

    /// Sets the movement intent.
    pub fn set_force(&mut self, x: i64, y: i64)
        requires
            -1 <= x <= 1,
            -1 <= y <= 1,
        ensures
            *final(self) == (Physics { force: Vec2 { x, y }, ..*old(self) }),
    {
        self.force = Vec2 { x, y };
    }

    /// One integration step of `dt` microseconds: gravity, then horizontal
    /// movement, then the jump. Afterwards the velocity is within its limits
    /// and the body is off the ground until a collision grounds it again.
    pub fn update(&mut self, dt: u32)
        requires
            old(self).wf(),
        ensures
            *final(self) == old(self).stepped(dt as int),
            final(self).wf(),
            final(self).within_limits(),
            !final(self).on_ground,
    {
        self.apply_gravity(dt);
        self.apply_horizontal_movement(dt);
        self.apply_jump(dt);
        self.on_ground = false;
    }

    /// Resolves a collision with the static box `transform` and reports the
    /// side of this body that met it.
    pub fn collide_with(&mut self, transform: &Transform) -> (r: Option<Side>)
        requires
            old(self).wf(),
            transform.wf(),
        ensures
            r == contact_side(old(self).transform, *transform),
            *final(self) == old(self).collided(*transform),
            final(self).wf(),
    {
        let side = Collider::aabb(&self.transform, transform);
        proof {
            self.transform.lemma_extent_bounds();
            transform.lemma_extent_bounds();
        }
        match side {
            Some(Side::Right) => {
                let overlap = transform.x() - self.transform.xw();
                self.transform.translate(overlap, 0);
                self.velocity.x = 0;
            },
            Some(Side::Left) => {
                let overlap = self.transform.x() - transform.xw();
                self.transform.translate(-overlap, 0);
                self.velocity.x = 0;
            },
            Some(Side::Top) => {
                let overlap = self.transform.y() - transform.yh();
                self.transform.translate(0, -overlap);
                self.velocity.y = 0;
                self.can_jump = false;
            },
            Some(Side::Bottom) => {
                let overlap = self.transform.yh() - transform.y();
                self.transform.translate(0, -overlap);
                self.velocity.y = 0;
                self.on_ground = true;
            },
            None => {},
        }
        side
    }
}

impl Physics {
    /// `n` calls of `collide_with` against the same box.
    pub open spec fn collided_times(self, other: Transform, n: nat) -> Physics
        decreases n,
    {
        if n == 0 {
            self
        } else {
            self.collided_times(other, (n - 1) as nat).collided(other)
        }
    }

    /// `n` integration steps of `dt` microseconds each.
    pub open spec fn steps(self, dt: int, n: nat) -> Physics
        decreases n,
    {
        if n == 0 {
            self
        } else {
            self.steps(dt, (n - 1) as nat).stepped(dt)
        }
    }

    /// A step keeps a well-formed body well-formed, leaves its velocity
    /// within its limits, and changes neither its tuning nor its intent.
    pub proof fn lemma_stepped_wf(self, dt: int)
        requires
            self.wf(),
            0 <= dt <= u32::MAX,
        ensures
            self.stepped(dt).wf(),
            self.stepped(dt).within_limits(),
            self.stepped(dt).force == self.force,
            self.stepped(dt).max_velocity == self.max_velocity,
            self.stepped(dt).deceleration == self.deceleration,
            self.stepped(dt).gravity == self.gravity,
            self.stepped(dt).mass == self.mass,
            self.stepped(dt).jump_power == self.jump_power,
            self.stepped(dt).jump_max_duration == self.jump_max_duration,
    {
        let h = self.after_gravity(dt).after_horizontal(dt);
        if h.can_jump && h.jump_duration < h.jump_max_duration {
            crate::units::lemma_mul_le(
                h.jump_power as int,
                (h.jump_max_duration - h.jump_duration) as int,
                RATE_LIMIT as int,
                2 * DURATION_LIMIT,
            );
            lemma_div_nonneg(
                h.jump_power * (h.jump_max_duration - h.jump_duration),
                h.jump_max_duration as int,
            );
        }
    }
}

/// The reported side can be resolved without a coordinate leaving the
/// coordinate range.
pub open spec fn resolvable(t: Transform, other: Transform) -> bool {
    match contact_side(t, other) {
        Some(Side::Right) => in_coord_range(other.left() - t.width_spec()),
        Some(Side::Left) => in_coord_range(other.right()),
        Some(Side::Top) => in_coord_range(other.bottom()),
        Some(Side::Bottom) => in_coord_range(other.top() - t.height_spec()),
        None => true,
    }
}

/// Once a collision is resolved the pair no longer overlaps: `collide_with`
/// against the same box then reports nothing and changes nothing, however
/// often it is called.
pub proof fn lemma_collision_idempotent(p: Physics, other: Transform, n: nat)
    requires
        p.wf(),
        other.wf(),
        resolvable(p.transform, other),
    ensures
        contact_side(p.collided(other).transform, other) is None,
        p.collided(other).collided_times(other, n) == p.collided(other),
    decreases n,
{
    p.transform.lemma_extent_bounds();
    other.lemma_extent_bounds();
    if n > 0 {
        lemma_collision_idempotent(p, other, (n - 1) as nat);
    }
}

/// Gravity raises the downward speed of a body that is not jumping at every
/// step, strictly, until it reaches the vertical limit.
pub proof fn lemma_gravity_monotone(p: Physics, dt: int)
    requires
        p.wf(),
        !p.can_jump,
        0 <= dt <= u32::MAX,
        p.gravity_gain(dt) > 0,
        p.velocity.y <= p.max_velocity.y,
    ensures
        p.stepped(dt).velocity.y > p.velocity.y || p.stepped(dt).velocity.y == p.max_velocity.y,
        p.stepped(dt).velocity.y >= p.velocity.y,
        p.stepped(dt).velocity.y <= p.max_velocity.y,
{
}

/// With no movement intent, deceleration takes the horizontal speed toward
/// zero by at least the deceleration of a step, each step, never past zero,
/// and its magnitude never grows from one step to the next.
pub proof fn lemma_deceleration_monotone(p: Physics, dt: int, n: nat)
    requires
        p.wf(),
        p.force.x == 0,
        0 <= dt <= u32::MAX,
    ensures
        p.steps(dt, n).wf(),
        p.steps(dt, n).force == p.force,
        p.steps(dt, n).deceleration == p.deceleration,
        p.steps(dt, n).max_velocity == p.max_velocity,
        p.velocity.x >= 0 ==> p.steps(dt, n).velocity.x >= 0,
        p.velocity.x <= 0 ==> p.steps(dt, n).velocity.x <= 0,
        abs(p.steps(dt, n).velocity.x as int) <= crate::collider::max(
            abs(p.velocity.x as int) - n * p.deceleration_loss(dt),
            0,
        ),
        abs(p.steps(dt, n + 1).velocity.x as int) <= abs(p.steps(dt, n).velocity.x as int),
    decreases n,
{
    if n > 0 {
        let m = (n - 1) as nat;
        lemma_deceleration_monotone(p, dt, m);
        let q = p.steps(dt, m);
        q.lemma_stepped_wf(dt);
        assert(n * p.deceleration_loss(dt) == m * p.deceleration_loss(dt) + p.deceleration_loss(
            dt,
        )) by (nonlinear_arith)
            requires
                n == m + 1,
        ;
    }
    assert(p.steps(dt, n + 1) == p.steps(dt, n).stepped(dt));
    lemma_deceleration_step(p.steps(dt, n), dt);
}

proof fn lemma_deceleration_step(q: Physics, dt: int)
    requires
        q.wf(),
        q.force.x == 0,
        0 <= dt <= u32::MAX,
    ensures
        abs(q.stepped(dt).velocity.x as int) <= abs(q.velocity.x as int),
{
}

/// With no movement intent, a body that moves sideways comes to rest at
/// exactly zero horizontal speed after finitely many steps (as many as the
/// speed holds decelerations, rounded up), without ever changing direction.
pub proof fn lemma_deceleration_reaches_zero(p: Physics, dt: int)
    requires
        p.wf(),
        p.force.x == 0,
        0 <= dt <= u32::MAX,
        p.deceleration_loss(dt) > 0,
    ensures
        p.steps(
            dt,
            ((abs(p.velocity.x as int) + p.deceleration_loss(dt) - 1) / p.deceleration_loss(
                dt,
            )) as nat,
        ).velocity.x == 0,
        forall|k: nat|
            #![trigger p.steps(dt, k)]
            (p.velocity.x >= 0 ==> p.steps(dt, k).velocity.x >= 0) && (p.velocity.x <= 0
                ==> p.steps(dt, k).velocity.x <= 0),
{
    let dec = p.deceleration_loss(dt);
    let v = abs(p.velocity.x as int);
    let n = (v + dec - 1) / dec;
    assert(n * dec >= v && n >= 0) by (nonlinear_arith)
        requires
            dec > 0,
            v >= 0,
            n == (v + dec - 1) / dec,
    ;
    lemma_deceleration_monotone(p, dt, n as nat);
    assert forall|k: nat|
        #![trigger p.steps(dt, k)]
        (p.velocity.x >= 0 ==> p.steps(dt, k).velocity.x >= 0) && (p.velocity.x <= 0
            ==> p.steps(dt, k).velocity.x <= 0) by {
        lemma_deceleration_monotone(p, dt, k);
    }
}

proof fn lemma_div_nonneg(a: int, b: int)
    requires
        0 <= a,
        0 < b,
    ensures
        0 <= a / b <= a,
{
    assert(0 <= a / b <= a) by (nonlinear_arith)
        requires
            0 <= a,
            0 < b,
    ;
}

/// `friction_loss` on machine integers.
fn friction_loss_exec(friction: i64, speed: i128, dt: u32) -> (r: i128)
    requires
        0 <= friction <= FACTOR_LIMIT,
        0 <= speed <= 35_184_372_088_832,
    ensures
        r == friction_loss(friction as int, speed as int, dt as int),
        0 <= r <= 75_557_863_725_914_323_419_136,
{
    proof {
        crate::units::lemma_mul_le(
            friction as int,
            speed as int,
            FACTOR_LIMIT as int,
            35_184_372_088_832,
        );
    }
    let once = rate_times_dt(friction as i128 * speed, dt);
    let rate = once / 1000;
    rate_times_dt(rate, dt)
}

} // verus!
