use vstd::prelude::*;
use crate::geometry::{Size, Vec2};
use crate::units::clamp;

verus! {

/// Largest magnitude of a coordinate: positions are kept within this square.
pub const COORD_LIMIT: i64 = 1_125_899_906_842_624;

/// Largest width or height of a box before scaling.
pub const SIZE_LIMIT: i64 = 1_099_511_627_776;

/// Largest scale factor, in thousandths.
pub const SCALE_LIMIT: i64 = 1_000_000;

/// Scale factor one, in thousandths.
pub const UNIT_SCALE: i64 = 1000;

/// Side of a freshly made box: sixteen pixels.
pub const DEFAULT_SIDE: i64 = 16_000;

/// An axis-aligned box: position of its top-left corner, size, scale, and
/// mirroring flags. The y axis points down.
#[derive(Clone, Copy, Debug, PartialEq, Eq, Structural)]
pub struct Transform {
    pub pos: Vec2,
    pub size: Size,
    pub scale: Vec2,
    pub rot: Vec2,
    pub flip_x: bool,
    pub flip_y: bool,
}

pub open spec fn in_coord_range(v: int) -> bool {
    -COORD_LIMIT <= v <= COORD_LIMIT
}

pub open spec fn clamp_coord(v: int) -> i64 {
    clamp(v, -COORD_LIMIT as int, COORD_LIMIT as int) as i64
}

impl Transform {
    pub open spec fn wf(&self) -> bool {
        &&& in_coord_range(self.pos.x as int)
        &&& in_coord_range(self.pos.y as int)
        &&& 0 <= self.size.width <= SIZE_LIMIT
        &&& 0 <= self.size.height <= SIZE_LIMIT
        &&& 0 <= self.scale.x <= SCALE_LIMIT
        &&& 0 <= self.scale.y <= SCALE_LIMIT
    }

    /// Width after scaling.
    pub open spec fn width_spec(&self) -> int {
        (self.size.width * self.scale.x) / UNIT_SCALE as int
    }

    /// Height after scaling.
    pub open spec fn height_spec(&self) -> int {
        (self.size.height * self.scale.y) / UNIT_SCALE as int
    }

    pub open spec fn left(&self) -> int {
        self.pos.x as int
    }

    pub open spec fn top(&self) -> int {
        self.pos.y as int
    }

    pub open spec fn right(&self) -> int {
        self.pos.x + self.width_spec()
    }

    pub open spec fn bottom(&self) -> int {
        self.pos.y + self.height_spec()
    }

    /// The box moved by `(dx, dy)`, each coordinate held within the coordinate range.
    pub open spec fn translated(self, dx: int, dy: int) -> Transform {
        Transform {
            pos: Vec2 { x: clamp_coord(self.pos.x + dx), y: clamp_coord(self.pos.y + dy) },
            ..self
        }
    }

    pub proof fn lemma_extent_bounds(&self)
        requires
            self.wf(),
        ensures
            0 <= self.width_spec() <= SIZE_LIMIT * 1000,
            0 <= self.height_spec() <= SIZE_LIMIT * 1000,
            -COORD_LIMIT <= self.right() <= COORD_LIMIT + SIZE_LIMIT * 1000,
            -COORD_LIMIT <= self.bottom() <= COORD_LIMIT + SIZE_LIMIT * 1000,
    {
        crate::units::lemma_mul_le(
            self.size.width as int,
            self.scale.x as int,
            SIZE_LIMIT as int,
            SCALE_LIMIT as int,
        );
        crate::units::lemma_mul_le(
            self.size.height as int,
            self.scale.y as int,
            SIZE_LIMIT as int,
            SCALE_LIMIT as int,
        );
    }

    /// A sixteen-pixel box at the origin, unscaled and unmirrored.
    pub open spec fn initial() -> Transform {
        Transform {
            pos: Vec2 { x: 0, y: 0 },
            size: Size { width: DEFAULT_SIDE, height: DEFAULT_SIDE },
            scale: Vec2 { x: UNIT_SCALE, y: UNIT_SCALE },
            rot: Vec2 { x: 0, y: 0 },
            flip_x: false,
            flip_y: false,
        }
    }

    pub fn new() -> (r: Transform)
        ensures
            r.wf(),
            r == Transform::initial(),
    {
        Transform {
            pos: Vec2 { x: 0, y: 0 },
            size: Size { width: DEFAULT_SIDE, height: DEFAULT_SIDE },
            scale: Vec2 { x: UNIT_SCALE, y: UNIT_SCALE },
            rot: Vec2 { x: 0, y: 0 },
            flip_x: false,
            flip_y: false,
        }
    }

    pub fn x(&self) -> (r: i64)
        ensures
            r == self.left(),
    {
        self.pos.x
    }

    pub fn y(&self) -> (r: i64)
        ensures
            r == self.top(),
    {
        self.pos.y
    }

    pub fn w(&self) -> (r: i64)
        requires
            self.wf(),
        ensures
            r == self.width_spec(),
    {
        proof {
            self.lemma_extent_bounds();
        }
        self.size.width * self.scale.x / UNIT_SCALE
    }

    pub fn h(&self) -> (r: i64)
        requires
            self.wf(),
        ensures
            r == self.height_spec(),
    {
        proof {
            self.lemma_extent_bounds();
        }
        self.size.height * self.scale.y / UNIT_SCALE
    }

    /// Right edge.
    pub fn xw(&self) -> (r: i64)
        requires
            self.wf(),
        ensures
            r == self.right(),
    {
        proof {
            self.lemma_extent_bounds();
        }
        self.pos.x + self.w()
    }

    /// Bottom edge.
    pub fn yh(&self) -> (r: i64)
        requires
            self.wf(),
        ensures
            r == self.bottom(),
    {
        proof {
            self.lemma_extent_bounds();
        }
        self.pos.y + self.h()
    }

    /// Horizontal centre.
    pub fn center_xw(&self) -> (r: i64)
        requires
            self.wf(),
        ensures
            r == self.left() + self.width_spec() / 2,
    {
        proof {
            self.lemma_extent_bounds();
        }
        self.pos.x + self.w() / 2
    }

    /// Vertical centre.
    pub fn center_yh(&self) -> (r: i64)
        requires
            self.wf(),
        ensures
            r == self.top() + self.height_spec() / 2,
    {
        proof {
            self.lemma_extent_bounds();
        }
        self.pos.y + self.h() / 2
    }

    /// Top-right corner.
    pub fn rect_right(&self) -> (r: Vec2)
        requires
            self.wf(),
        ensures
            r.x == self.right(),
            r.y == self.top(),
    {
        Vec2 { x: self.xw(), y: self.pos.y }
    }

    /// Bottom-left corner.
    pub fn rect_bottom(&self) -> (r: Vec2)
        requires
            self.wf(),
        ensures
            r.x == self.left(),
            r.y == self.bottom(),
    {
        Vec2 { x: self.pos.x, y: self.yh() }
    }

    /// Centre point.
    pub fn rect_center(&self) -> (r: Vec2)
        requires
            self.wf(),
        ensures
            r.x == self.left() + self.width_spec() / 2,
            r.y == self.top() + self.height_spec() / 2,
    {
        Vec2 { x: self.center_xw(), y: self.center_yh() }
    }

    /// `[x, y, width, height]` after scaling.
    pub fn rect(&self) -> (r: [i64; 4])
        requires
            self.wf(),
        ensures
            r@ == seq![
                self.left() as i64,
                self.top() as i64,
                self.width_spec() as i64,
                self.height_spec() as i64,
            ],
    {
        let r = [self.pos.x, self.pos.y, self.w(), self.h()];
        assert(r@ =~= seq![
            self.left() as i64,
            self.top() as i64,
            self.width_spec() as i64,
            self.height_spec() as i64,
        ]);
        r
    }

    pub fn set_scale(&mut self, x: i64, y: i64)
        requires
            0 <= x <= SCALE_LIMIT,
            0 <= y <= SCALE_LIMIT,
        ensures
            *final(self) == (Transform { scale: Vec2 { x, y }, ..*old(self) }),
    {
        self.scale = Vec2 { x, y };
    }

    pub fn get_scale(&self) -> (r: Vec2)
        ensures
            r == self.scale,
    {
        self.scale
    }

    pub fn set_position(&mut self, x: i64, y: i64)
        requires
            in_coord_range(x as int),
            in_coord_range(y as int),
        ensures
            *final(self) == (Transform { pos: Vec2 { x, y }, ..*old(self) }),
    {
        self.pos = Vec2 { x, y };
    }

    pub fn set_position_x(&mut self, x: i64)
        requires
            in_coord_range(x as int),
        ensures
            *final(self) == (Transform { pos: Vec2 { x, y: old(self).pos.y }, ..*old(self) }),
    {
        self.pos.x = x;
    }

    pub fn set_position_y(&mut self, y: i64)
        requires
            in_coord_range(y as int),
        ensures
            *final(self) == (Transform { pos: Vec2 { x: old(self).pos.x, y }, ..*old(self) }),
    {
        self.pos.y = y;
    }

    pub fn get_position(&self) -> (r: Vec2)
        ensures
            r == self.pos,
    {
        self.pos
    }

    pub fn set_size(&mut self, w: i64, h: i64)
        requires
            0 <= w <= SIZE_LIMIT,
            0 <= h <= SIZE_LIMIT,
        ensures
            *final(self) == (Transform { size: Size { width: w, height: h }, ..*old(self) }),
    {
        self.size = Size { width: w, height: h };
    }

    pub fn get_size(&self) -> (r: Size)
        ensures
            r == self.size,
    {
        self.size
    }

    /// Moves the box by `(x, y)`; a coordinate that would leave the coordinate
    /// range stops at its bound.
    pub fn translate(&mut self, x: i64, y: i64)
        requires
            old(self).wf(),
        ensures
            *final(self) == old(self).translated(x as int, y as int),
            final(self).wf(),
    {
        let nx = clamp_coord_exec(self.pos.x as i128 + x as i128);
        let ny = clamp_coord_exec(self.pos.y as i128 + y as i128);
        self.pos = Vec2 { x: nx, y: ny };
    }

    pub fn translate_x(&mut self, x: i64)
        requires
            old(self).wf(),
        ensures
            *final(self) == old(self).translated(x as int, 0),
            final(self).wf(),
    {
        self.translate(x, 0);
    }

    pub fn translate_y(&mut self, y: i64)
        requires
            old(self).wf(),
        ensures
            *final(self) == old(self).translated(0, y as int),
            final(self).wf(),
    {
        self.translate(0, y);
    }

    pub fn set_flip_x(&mut self, value: bool)
        ensures
            *final(self) == (Transform { flip_x: value, ..*old(self) }),
    {
        self.flip_x = value;
    }

    pub fn is_flip_x(&self) -> (r: bool)
        ensures
            r == self.flip_x,
    {
        self.flip_x
    }

    pub fn set_flip_y(&mut self, value: bool)
        ensures
            *final(self) == (Transform { flip_y: value, ..*old(self) }),
    {
        self.flip_y = value;
    }

    pub fn is_flip_y(&self) -> (r: bool)
        ensures
            r == self.flip_y,
    {
        self.flip_y
    }

    pub fn rotate(&mut self, x: i64, y: i64)
        ensures
            *final(self) == (Transform { rot: Vec2 { x, y }, ..*old(self) }),
    {
        self.rot = Vec2 { x, y };
    }
}

pub fn clamp_coord_exec(v: i128) -> (r: i64)
    ensures
        r == clamp_coord(v as int),
        in_coord_range(r as int),
{
    if v < -(COORD_LIMIT as i128) {
        -COORD_LIMIT
    } else if v > COORD_LIMIT as i128 {
        COORD_LIMIT
    } else {
        v as i64
    }
}

} // verus!
