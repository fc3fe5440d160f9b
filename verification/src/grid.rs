use vstd::prelude::*;

verus! {

/// Largest admitted cell edge length, in world units. Together with
/// `MAX_GRID_DIM` it keeps every coordinate the resolver computes well
/// inside `i64`.
pub const MAX_CELL_SIZE: i64 = 1_000_000_000;

/// Largest admitted column or row count.
pub const MAX_GRID_DIM: usize = 1_000_000;

/// Rejected grid construction input.
#[derive(Clone, Copy, Debug, PartialEq, Eq, Structural)]
pub enum ConfigError {
    /// The occupancy sequence's length is not `cols * rows`.
    SizeMismatch,
    /// A cell dimension is zero or negative.
    NonPositiveCellSize,
}

/// Static collision grid: a row-major map of solid / empty cells, immutable
/// once built. World space is partitioned into cells of `tile_w x tile_h`
/// world units; everything outside the authored `cols x rows` rectangle is
/// open (empty).
#[derive(Debug)]
pub struct Grid {
    cells: Vec<bool>,
    tw: i64,
    th: i64,
    cols: usize,
    rows: usize,
}

impl Grid {
    /// Cell width in world units.
    pub closed spec fn tile_w(self) -> int {
        self.tw as int
    }

    /// Cell height in world units.
    pub closed spec fn tile_h(self) -> int {
        self.th as int
    }

    /// Number of columns.
    pub closed spec fn cols(self) -> int {
        self.cols as int
    }

    /// Number of rows.
    pub closed spec fn rows(self) -> int {
        self.rows as int
    }

    /// Occupancy flags, row-major: cell (col c, row r) is at index
    /// `r * cols + c`.
    pub closed spec fn cells(self) -> Seq<bool> {
        self.cells@
    }

    /// Well-formedness: positive bounded cell dimensions and an occupancy
    /// sequence of exactly `cols * rows` flags. Established by `build` and
    /// never invalidated (the grid is read-only afterwards).
    pub open spec fn wf(self) -> bool {
        &&& 0 < self.tile_w() <= MAX_CELL_SIZE
        &&& 0 < self.tile_h() <= MAX_CELL_SIZE
        &&& 0 <= self.cols() <= MAX_GRID_DIM
        &&& 0 <= self.rows() <= MAX_GRID_DIM
        &&& self.cells().len() == self.cols() * self.rows()
    }

    /// Column of the cell containing world coordinate x (floor division;
    /// negative x lands left of column 0).
    pub open spec fn col_of(self, x: int) -> int {
        x / self.tile_w()
    }

    /// Row of the cell containing world coordinate y.
    pub open spec fn row_of(self, y: int) -> int {
        y / self.tile_h()
    }

    /// Whether the world point (x, y) lies in a solid cell. Points outside
    /// the authored grid are empty.
    pub open spec fn solid_at(self, x: int, y: int) -> bool {
        if x < 0 || y < 0 {
            false
        } else {
            let c = self.col_of(x);
            let r = self.row_of(y);
            &&& c < self.cols()
            &&& r < self.rows()
            &&& self.cells()[r * self.cols() + c]
        }
    }

    /// Builds a grid from row-major occupancy flags. Fails exactly when a
    /// cell dimension is not positive or the flag sequence's length is not
    /// `cols * rows`. The upper bounds on the inputs only keep later
    /// coordinate arithmetic within `i64`.
    pub fn build(
        cells: Vec<bool>,
        tile_width: i64,
        tile_height: i64,
        cols: usize,
        rows: usize,
    ) -> (r: Result<Grid, ConfigError>)
        requires
            tile_width <= MAX_CELL_SIZE,
            tile_height <= MAX_CELL_SIZE,
            cols <= MAX_GRID_DIM,
            rows <= MAX_GRID_DIM,
        ensures
            match r {
                Ok(g) => {
                    &&& tile_width > 0 && tile_height > 0
                    &&& cells@.len() == cols * rows
                    &&& g.wf()
                    &&& g.tile_w() == tile_width
                    &&& g.tile_h() == tile_height
                    &&& g.cols() == cols
                    &&& g.rows() == rows
                    &&& g.cells() == cells@
                },
                Err(ConfigError::NonPositiveCellSize) => tile_width <= 0 || tile_height <= 0,
                Err(ConfigError::SizeMismatch) => {
                    &&& tile_width > 0 && tile_height > 0
                    &&& cells@.len() != cols * rows
                },
            },
    {
        if tile_width <= 0 || tile_height <= 0 {
            return Err(ConfigError::NonPositiveCellSize);
        }
        let len: usize = cells.len();
        match cols.checked_mul(rows) {
            Some(n) => {
                if len == n {
                    Ok(Grid { cells, tw: tile_width, th: tile_height, cols, rows })
                } else {
                    Err(ConfigError::SizeMismatch)
                }
            },
            None => {
                // cols * rows does not even fit in usize, so no vector can
                // have that many flags.
                Err(ConfigError::SizeMismatch)
            },
        }
    }

    /// Cell width in world units.
    pub fn tile_width(&self) -> (r: i64)
        ensures
            r == self.tile_w(),
    {
        self.tw
    }

    /// Cell height in world units.
    pub fn tile_height(&self) -> (r: i64)
        ensures
            r == self.tile_h(),
    {
        self.th
    }

    /// Whether the world point (x, y) lies in a solid cell; false anywhere
    /// outside the authored grid.
    pub fn is_solid_at(&self, x: i64, y: i64) -> (r: bool)
        requires
            self.wf(),
        ensures
            r == self.solid_at(x as int, y as int),
    {
        if x < 0 || y < 0 {
            return false;
        }
        let c: u64 = (x as u64) / (self.tw as u64);
        let r0: u64 = (y as u64) / (self.th as u64);
        if c >= self.cols as u64 || r0 >= self.rows as u64 {
            return false;
        }
        proof {
            // the flag count is a usize, so the row-major index fits too
            vstd::std_specs::vec::axiom_spec_len(&self.cells);
            assert(r0 * self.cols() + c < self.cols() * self.rows()) by (nonlinear_arith)
                requires
                    0 <= c < self.cols(),
                    0 <= r0 < self.rows(),
            ;
        }
        let idx: usize = (r0 as usize) * self.cols + (c as usize);
        self.cells[idx]
    }
}

} // verus!
