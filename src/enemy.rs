use vstd::prelude::*;
use crate::collider::{contact_side, Side};
use crate::geometry::Vec2;
use crate::physics::Physics;
use crate::transform::{in_coord_range, Transform};
use crate::units::{per_dt, rate_times_dt};

verus! {

/// A walking enemy: a body that pushes one way and turns round at walls.
#[derive(Clone, Copy, Debug)]
pub struct Enemy {
    pub name: &'static str,
    pub physics: Physics,
    pub is_dead: bool,
}

impl Enemy {
    pub open spec fn wf(&self) -> bool {
        self.physics.wf()
    }

    /// The enemy after colliding with `other`: hitting a wall with one side
    /// turns it toward the other side and stops it.
    pub open spec fn collided(self, other: Transform) -> Enemy {
        let p = self.physics.collided(other);
        let physics = match contact_side(self.physics.transform, other) {
            Some(Side::Right) => Physics {
                force: Vec2 { x: -1i64, y: 0 },
                velocity: Vec2 { x: 0, y: p.velocity.y },
                ..p
            },
            Some(Side::Left) => Physics {
                force: Vec2 { x: 1, y: 0 },
                velocity: Vec2 { x: 0, y: p.velocity.y },
                ..p
            },
            _ => p,
        };
        Enemy { physics, ..self }
    }

    /// One frame: the body steps and its box moves by the velocity.
    pub open spec fn advanced(self, dt: int) -> Enemy {
        let ph = self.physics.stepped(dt);
        Enemy {
            physics: Physics {
                transform: ph.transform.translated(
                    per_dt(ph.velocity.x as int, dt),
                    per_dt(ph.velocity.y as int, dt),
                ),
                ..ph
            },
            ..self
        }
    }

    /// A live enemy at `position` that walks right, slower and with more
    /// friction than the player.
    pub fn new(name: &'static str, position: Vec2) -> (r: Enemy)
        requires
            in_coord_range(position.x as int),
            in_coord_range(position.y as int),
        ensures
            r.wf(),
            r.name == name,
            !r.is_dead,
            r.physics == (Physics {
                force: Vec2 { x: 1, y: 0 },
                movement_speed: 50_000,
                friction: 900,
                ..Physics::initial(Transform { pos: position, ..Transform::initial() })
            }),
    {
        let mut transform = Transform::new();
        transform.set_position(position.x, position.y);
        let mut physics = Physics::new(transform);
        physics.set_force(1, 0);
        physics.movement_speed = 50_000;
        physics.friction = 900;
        Enemy { name, physics, is_dead: false }
    }

    /// The enemy dies: it stops pushing.
    pub fn dead(&mut self)
        ensures
            *final(self) == (Enemy {
                is_dead: true,
                physics: Physics { force: Vec2 { x: 0, y: 0 }, ..old(self).physics },
                ..*old(self)
            }),
    {
        self.is_dead = true;
        self.physics.set_force(0, 0);
    }

    pub fn update(&mut self, dt: u32)
        requires
            old(self).wf(),
        ensures
            *final(self) == old(self).advanced(dt as int),
            final(self).wf(),
    {
        self.physics.update(dt);
        let dx = rate_times_dt(self.physics.velocity.x as i128, dt);
        let dy = rate_times_dt(self.physics.velocity.y as i128, dt);
        self.physics.transform.translate(dx as i64, dy as i64);
    }

    pub fn get_transform(&self) -> (r: &Transform)
        ensures
            *r == self.physics.transform,
    {
        &self.physics.transform
    }

    /// Resolves a collision with `transform` and reports the side of the
    /// enemy that met it.
    pub fn collide_with(&mut self, transform: &Transform) -> (r: Option<Side>)
        requires
            old(self).wf(),
            transform.wf(),
        ensures
            r == contact_side(old(self).physics.transform, *transform),
            *final(self) == old(self).collided(*transform),
            final(self).wf(),
    {
        let side = self.physics.collide_with(transform);
        match side {
            Some(Side::Right) => {
                self.physics.set_force(-1, 0);
                self.physics.velocity.x = 0;
            },
            Some(Side::Left) => {
                self.physics.set_force(1, 0);
                self.physics.velocity.x = 0;
            },
            _ => {},
        }
        side
    }
}

} // verus!
