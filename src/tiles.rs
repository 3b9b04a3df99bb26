use vstd::prelude::*;
use crate::geometry::{Size, Vec2};

verus! {

/// Largest offset, spacing or tile side of a sheet, in texture pixels.
pub const SHEET_LIMIT: i64 = 1_048_576;

/// Layout of a sprite sheet in texture pixels: `grid` tiles in rows and
/// columns, each `sprite_size`, `spacing` apart, the first at `offset`.
#[derive(Clone, Copy, Debug)]
pub struct TileGrid {
    pub grid: [usize; 2],
    pub sprite_size: Size,
    pub spacing: Vec2,
    pub offset: Vec2,
}

pub open spec fn in_sheet(v: int) -> bool {
    0 <= v <= SHEET_LIMIT
}

impl TileGrid {
    pub open spec fn wf(&self) -> bool {
        &&& 0 < self.grid[0] <= SHEET_LIMIT
        &&& 0 < self.grid[1] <= SHEET_LIMIT
        &&& in_sheet(self.sprite_size.width as int)
        &&& in_sheet(self.sprite_size.height as int)
        &&& in_sheet(self.spacing.x as int)
        &&& in_sheet(self.spacing.y as int)
        &&& in_sheet(self.offset.x as int)
        &&& in_sheet(self.offset.y as int)
    }

    /// Texture rectangle `[x, y, width, height]` of the tile at `row`,
    /// `col`, both wrapped around the grid.
    pub open spec fn rect_spec(&self, row: int, col: int) -> Seq<i64> {
        let r = row % (self.grid[0] as int);
        let c = col % (self.grid[1] as int);
        seq![
            (self.offset.x + (self.sprite_size.width + self.spacing.x) * c) as i64,
            (self.offset.y + (self.sprite_size.height + self.spacing.y) * r) as i64,
            self.sprite_size.width,
            self.sprite_size.height,
        ]
    }

    pub fn get_sprite_src_rect_from(&self, row: usize, col: usize) -> (r: [i64; 4])
        requires
            self.wf(),
        ensures
            r@ == self.rect_spec(row as int, col as int),
    {
        let wrapped_row = row % self.grid[0];
        let wrapped_col = col % self.grid[1];
        let step_x = self.sprite_size.width + self.spacing.x;
        let step_y = self.sprite_size.height + self.spacing.y;
        proof {
            crate::units::lemma_mul_le(
                step_x as int,
                wrapped_col as int,
                2 * SHEET_LIMIT,
                SHEET_LIMIT as int,
            );
            crate::units::lemma_mul_le(
                step_y as int,
                wrapped_row as int,
                2 * SHEET_LIMIT,
                SHEET_LIMIT as int,
            );
        }
        let r = [
            self.offset.x + step_x * (wrapped_col as i64),
            self.offset.y + step_y * (wrapped_row as i64),
            self.sprite_size.width,
            self.sprite_size.height,
        ];
        assert(r@ =~= self.rect_spec(row as int, col as int));
        r
    }
}

} // verus!
