//! Shape of the device's key grid, derived once from the device kind.
//!
//! All rows but the last form the content region; the bottom row holds one
//! static back slot, the dynamic playing region, and one next/rotate slot.

use vstd::prelude::*;

verus! {

/// Grid shape: `n_content` slots for page content, `n_dynamic` slots for the
/// currently-playing region. The remaining two keys of the bottom row are the
/// back slot and the next/rotate slot.
#[derive(Debug, Clone, Copy)]
pub struct Geometry {
    pub rows: usize,
    pub cols: usize,
    pub n_content: usize,
    pub n_dynamic: usize,
}

impl Geometry {
    /// The derived regions fit the grid exactly
    /// (`n_content + 1 + n_dynamic + 1 == rows * cols`), and the
    /// volume-control screen can place its two buttons on distinct top rows.
    pub open spec fn wf(self) -> bool {
        &&& 3 <= self.rows <= 255
        &&& 2 <= self.cols <= 255
        &&& self.n_content == (self.rows - 1) * self.cols
        &&& self.n_dynamic == self.cols - 2
    }

    /// Total number of physical keys.
    pub open spec fn key_count(self) -> int {
        self.rows * self.cols
    }

    pub proof fn lemma_regions_fill_grid(self)
        requires
            self.wf(),
        ensures
            self.n_content + 1 + self.n_dynamic + 1 == self.key_count(),
            2 <= self.n_content,
            2 * self.cols <= self.n_content,
            self.key_count() <= 65025,
    {
        assert((self.rows - 1) * self.cols == self.rows * self.cols - self.cols
            && 2 <= (self.rows - 1) * self.cols && 2 * self.cols <= (self.rows - 1) * self.cols)
            by (nonlinear_arith)
            requires
                3 <= self.rows <= 255 && 2 <= self.cols <= 255,
        ;
        assert(self.rows * self.cols <= 65025 && 4 <= self.rows * self.cols) by (nonlinear_arith)
            requires
                3 <= self.rows <= 255 && 2 <= self.cols <= 255,
        ;
    }

    /// Derives the geometry from the device's key layout.
    pub fn new(rows: usize, cols: usize) -> (g: Geometry)
        requires
            3 <= rows <= 255,
            2 <= cols <= 255,
        ensures
            g.wf(),
            g.rows == rows,
            g.cols == cols,
    {
        proof {
            assert((rows - 1) * cols <= 254 * 255) by (nonlinear_arith)
                requires
                    3 <= rows <= 255 && 2 <= cols <= 255,
            ;
        }
        Geometry { rows, cols, n_content: (rows - 1) * cols, n_dynamic: cols - 2 }
    }

    /// Total number of physical keys, as an executable value.
    pub fn key_count_exec(&self) -> (n: usize)
        requires
            self.wf(),
        ensures
            n == self.key_count(),
    {
        proof {
            self.lemma_regions_fill_grid();
        }
        self.rows * self.cols
    }
}

} // verus!
