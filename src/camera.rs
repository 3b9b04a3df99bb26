use vstd::prelude::*;
use crate::geometry::{Size, Vec2};
use crate::transform::{clamp_coord, clamp_coord_exec, in_coord_range, Transform, SIZE_LIMIT};
use crate::units::div_toward_zero;

verus! {

/// The view onto the level: where it is, where it heads, and how large the
/// window and the viewport are. `scale` is window height over viewport
/// height, in thousandths.
#[derive(Clone, Copy, Debug, PartialEq, Eq, Structural)]
pub struct Camera {
    pub position: Vec2,
    pub window_size: Size,
    pub viewport_size: Size,
    pub scale: i64,
    pub target_position: Vec2,
}

pub open spec fn size_ok(s: Size) -> bool {
    0 <= s.width <= SIZE_LIMIT && 0 <= s.height <= SIZE_LIMIT
}

/// `from` moved toward `to` by `time` millionths of the way, rounded toward
/// `from`.
pub open spec fn lerp_spec(from: int, to: int, time: int) -> int {
    from + div_toward_zero((to - from) * time, 1_000_000)
}

/// `target` held so that a viewport of `view` starting there stays on a map
/// of `map`: not before zero, and not past the map's end.
pub open spec fn bounded_target(target: int, view: int, map: int) -> int {
    if target < 0 {
        0
    } else if target + view > map {
        map - view
    } else {
        target
    }
}

impl Camera {
    pub open spec fn wf(&self) -> bool {
        &&& in_coord_range(self.position.x as int)
        &&& in_coord_range(self.position.y as int)
        &&& in_coord_range(self.target_position.x as int)
        &&& in_coord_range(self.target_position.y as int)
        &&& size_ok(self.window_size)
        &&& size_ok(self.viewport_size)
    }

    /// A camera at the origin for a window and a viewport of the given sizes.
    pub fn new(window_size: Size, viewport_size: Size) -> (r: Camera)
        requires
            size_ok(window_size),
            size_ok(viewport_size),
            viewport_size.height > 0,
        ensures
            r.wf(),
            r.position == (Vec2 { x: 0, y: 0 }),
            r.target_position == (Vec2 { x: 0, y: 0 }),
            r.window_size == window_size,
            r.viewport_size == viewport_size,
            r.scale == window_size.height * 1000 / viewport_size.height as int,
    {
        proof {
            crate::units::lemma_mul_le(window_size.height as int, 1000, SIZE_LIMIT as int, 1000);
            assert(window_size.height * 1000 / viewport_size.height as int <= window_size.height
                * 1000) by (nonlinear_arith)
                requires
                    window_size.height * 1000 >= 0,
                    viewport_size.height > 0,
            ;
        }
        Camera {
            position: Vec2 { x: 0, y: 0 },
            window_size,
            viewport_size,
            scale: window_size.height * 1000 / viewport_size.height,
            target_position: Vec2 { x: 0, y: 0 },
        }
    }

    /// Aims the camera so that the player's bottom-right corner sits at the
    /// centre of the viewport.
    pub fn follow_player(&mut self, player: &Transform)
        requires
            old(self).wf(),
            player.wf(),
        ensures
            final(self).wf(),
            final(self).target_position == (Vec2 {
                x: clamp_coord(player.right() - old(self).viewport_size.width / 2),
                y: clamp_coord(player.bottom() - old(self).viewport_size.height / 2),
            }),
            final(self).position == old(self).position,
            final(self).window_size == old(self).window_size,
            final(self).viewport_size == old(self).viewport_size,
            final(self).scale == old(self).scale,
    {
        proof {
            player.lemma_extent_bounds();
        }
        let x = player.xw() as i128 - (self.viewport_size.width / 2) as i128;
        let y = player.yh() as i128 - (self.viewport_size.height / 2) as i128;
        self.target_position = Vec2 { x: clamp_coord_exec(x), y: clamp_coord_exec(y) };
    }

    /// Keeps the target on a map of `map_size` and returns the part of the
    /// map the viewport shows now, `[x, y, width, height]`.
    pub fn update_camera_view(&mut self, map_size: Size) -> (r: [i64; 4])
        requires
            old(self).wf(),
            size_ok(map_size),
        ensures
            final(self).wf(),
            final(self).target_position == (Vec2 {
                x: clamp_coord(
                    bounded_target(
                        old(self).target_position.x as int,
                        old(self).viewport_size.width as int,
                        map_size.width as int,
                    ),
                ),
                y: clamp_coord(
                    bounded_target(
                        old(self).target_position.y as int,
                        old(self).viewport_size.height as int,
                        map_size.height as int,
                    ),
                ),
            }),
            final(self).position == old(self).position,
            final(self).window_size == old(self).window_size,
            final(self).viewport_size == old(self).viewport_size,
            final(self).scale == old(self).scale,
            r@ == seq![
                old(self).position.x,
                old(self).position.y,
                old(self).viewport_size.width,
                old(self).viewport_size.height,
            ],
    {
        let tx = bounded_target_exec(
            self.target_position.x,
            self.viewport_size.width,
            map_size.width,
        );
        let ty = bounded_target_exec(
            self.target_position.y,
            self.viewport_size.height,
            map_size.height,
        );
        self.target_position = Vec2 { x: tx, y: ty };
        let r = [
            self.position.x,
            self.position.y,
            self.viewport_size.width,
            self.viewport_size.height,
        ];
        assert(r@ =~= seq![
            self.position.x,
            self.position.y,
            self.viewport_size.width,
            self.viewport_size.height,
        ]);
        r
    }

    /// `from` moved toward `to` by `time` millionths of the way.
    pub fn lerp(from: i64, to: i64, time: u64) -> (r: i64)
        requires
            in_coord_range(from as int),
            in_coord_range(to as int),
        ensures
            r == clamp_coord(lerp_spec(from as int, to as int, time as int)),
    {
        let d = to as i128 - from as i128;
        let t = time as i128;
        proof {
            let bound: int = 2 * crate::transform::COORD_LIMIT;
            if d >= 0 {
                crate::units::lemma_mul_le(d as int, t as int, bound, u64::MAX as int);
            } else {
                crate::units::lemma_mul_le(-d, t as int, bound, u64::MAX as int);
                assert((-d) * t == -(d * t) && d * t <= 0) by (nonlinear_arith)
                    requires
                        d < 0,
                        t >= 0,
                ;
            }
        }
        let step = if d >= 0 {
            (d * t) / 1_000_000
        } else {
            -(((-d) * t) / 1_000_000)
        };
        clamp_coord_exec(from as i128 + step)
    }

    /// Moves the camera toward its target: twice the frame's share of the way
    /// per second of `dt` microseconds.
    pub fn update(&mut self, dt: u32)
        requires
            old(self).wf(),
        ensures
            final(self).wf(),
            final(self).position == (Vec2 {
                x: clamp_coord(
                    lerp_spec(
                        old(self).position.x as int,
                        old(self).target_position.x as int,
                        2 * dt,
                    ),
                ),
                y: clamp_coord(
                    lerp_spec(
                        old(self).position.y as int,
                        old(self).target_position.y as int,
                        2 * dt,
                    ),
                ),
            }),
            final(self).target_position == old(self).target_position,
            final(self).window_size == old(self).window_size,
            final(self).viewport_size == old(self).viewport_size,
            final(self).scale == old(self).scale,
    {
        let time = 2 * dt as u64;
        let x = Camera::lerp(self.position.x, self.target_position.x, time);
        let y = Camera::lerp(self.position.y, self.target_position.y, time);
        self.position = Vec2 { x, y };
    }
}

fn bounded_target_exec(target: i64, view: i64, map: i64) -> (r: i64)
    requires
        in_coord_range(target as int),
        0 <= view <= SIZE_LIMIT,
        0 <= map <= SIZE_LIMIT,
    ensures
        r == clamp_coord(bounded_target(target as int, view as int, map as int)),
{
    if target < 0 {
        0
    } else if target + view > map {
        clamp_coord_exec((map - view) as i128)
    } else {
        target
    }
}

} // verus!
