//! The voxel block a part is laid out on, and which of its cells share a face.

use vstd::prelude::*;

verus! {

/// What the configuration says about one cell.
#[derive(Clone, Copy, Debug, PartialEq, Eq, Structural)]
pub enum CellKind {
    /// Never material: a keepout, or outside the domain.
    Void,
    /// Always material: a keepin.
    Solid,
    /// Whatever the design makes of it.
    Design,
}

/// A block of cells, `nx` by `ny` by `nz`, counted with the first axis fastest.
#[derive(Debug)]
pub struct Grid {
    /// Cells along the first axis.
    pub nx: usize,
    /// Cells along the second axis.
    pub ny: usize,
    /// Cells along the third axis.
    pub nz: usize,
    /// What every cell is, in element order.
    pub cells: Vec<CellKind>,
}

impl Grid {
    /// The block holds exactly the cells its sides say.
    pub open spec fn wf(&self) -> bool {
        self.cells@.len() == self.nx * (self.ny * self.nz)
    }

    /// Number of cells.
    pub open spec fn len(&self) -> int {
        self.cells@.len() as int
    }

    /// True when `cell` is an element of the block.
    pub open spec fn holds(&self, cell: int) -> bool {
        0 <= cell < self.cells@.len()
    }

    /// Position of a cell along the first axis.
    pub open spec fn x(&self, cell: int) -> int {
        cell % (self.nx as int)
    }

    /// Position of a cell along the second axis.
    pub open spec fn y(&self, cell: int) -> int {
        cell / (self.nx as int) % (self.ny as int)
    }

    /// Position of a cell along the third axis.
    pub open spec fn z(&self, cell: int) -> int {
        cell / (self.nx as int) / (self.ny as int)
    }

    /// Element number of the cell at a position.
    pub open spec fn at(&self, i: int, j: int, k: int) -> int {
        i + self.nx * (j + self.ny * k)
    }

    /// True when a position lies in the block.
    pub open spec fn inside(&self, i: int, j: int, k: int) -> bool {
        0 <= i < self.nx && 0 <= j < self.ny && 0 <= k < self.nz
    }

    /// True when a cell touches the boundary of the block.
    pub open spec fn boundary(&self, cell: int) -> bool {
        ||| self.x(cell) == 0
        ||| self.y(cell) == 0
        ||| self.z(cell) == 0
        ||| self.x(cell) + 1 == self.nx
        ||| self.y(cell) + 1 == self.ny
        ||| self.z(cell) + 1 == self.nz
    }

    /// True when two cells of the block share a face: one step apart along one
    /// axis, and in line along the other two.
    pub open spec fn adjacent(&self, a: int, b: int) -> bool {
        &&& self.holds(a)
        &&& self.holds(b)
        &&& step(self.x(a), self.x(b)) + step(self.y(a), self.y(b)) + step(self.z(a), self.z(b))
            == 1
    }
}

/// How far apart two positions on one axis are.
pub open spec fn step(a: int, b: int) -> int {
    if a <= b {
        b - a
    } else {
        a - b
    }
}

/// A cell's position lies in the block, and is where the cell is.
pub proof fn lemma_position(grid: &Grid, cell: int)
    requires
        grid.wf(),
        grid.holds(cell),
    ensures
        grid.inside(grid.x(cell), grid.y(cell), grid.z(cell)),
        grid.at(grid.x(cell), grid.y(cell), grid.z(cell)) == cell,
{
    let nx = grid.nx as int;
    let ny = grid.ny as int;
    let nz = grid.nz as int;
    assert(nx > 0 && ny > 0 && nz > 0) by (nonlinear_arith)
        requires
            0 <= cell < nx * (ny * nz),
            nx >= 0,
            ny >= 0,
            nz >= 0,
    ;
    let row = cell / nx;
    vstd::arithmetic::div_mod::lemma_fundamental_div_mod(cell, nx);
    vstd::arithmetic::div_mod::lemma_fundamental_div_mod(row, ny);
    vstd::arithmetic::div_mod::lemma_mod_bound(cell, nx);
    vstd::arithmetic::div_mod::lemma_mod_bound(row, ny);
    assert(0 <= row < ny * nz) by (nonlinear_arith)
        requires
            0 <= cell < nx * (ny * nz),
            cell == nx * row + cell % nx,
            0 <= cell % nx < nx,
            nx > 0,
    ;
    let k = row / ny;
    assert(0 <= k < nz) by (nonlinear_arith)
        requires
            0 <= row < ny * nz,
            row == ny * k + row % ny,
            0 <= row % ny < ny,
            ny > 0,
    ;
}

/// A position in the block is a cell's, and that cell is there.
pub proof fn lemma_at(grid: &Grid, i: int, j: int, k: int)
    requires
        grid.wf(),
        grid.inside(i, j, k),
    ensures
        grid.holds(grid.at(i, j, k)),
        grid.x(grid.at(i, j, k)) == i,
        grid.y(grid.at(i, j, k)) == j,
        grid.z(grid.at(i, j, k)) == k,
{
    let nx = grid.nx as int;
    let ny = grid.ny as int;
    let nz = grid.nz as int;
    let row = j + ny * k;
    let cell = i + nx * row;
    assert(0 <= row < ny * nz) by (nonlinear_arith)
        requires
            0 <= j < ny,
            0 <= k < nz,
            row == j + ny * k,
    ;
    assert(0 <= cell < nx * (ny * nz)) by (nonlinear_arith)
        requires
            0 <= i < nx,
            0 <= row < ny * nz,
            cell == i + nx * row,
    ;
    assert(nx * row == row * nx && ny * k == k * ny) by (nonlinear_arith);
    vstd::arithmetic::div_mod::lemma_fundamental_div_mod_converse(cell, nx, row, i);
    vstd::arithmetic::div_mod::lemma_fundamental_div_mod_converse(row, ny, k, j);
}

impl Grid {
    /// Number of cells.
    pub fn n_cells(&self) -> (n: usize)
        ensures
            n == self.len(),
    {
        self.cells.len()
    }

    /// Element number of the cell at `(i, j, k)`.
    pub fn cell_index(&self, i: usize, j: usize, k: usize) -> (cell: usize)
        requires
            self.wf(),
            self.inside(i as int, j as int, k as int),
        ensures
            cell == self.at(i as int, j as int, k as int),
            self.holds(cell as int),
    {
        proof {
            lemma_at(self, i as int, j as int, k as int);
            let row = j + self.ny * k;
            assert(self.cells.len() == self.len());
            assert(0 <= self.ny * k && row <= self.nx * row) by (nonlinear_arith)
                requires
                    self.nx >= 1,
                    self.ny >= 0,
                    k >= 0,
                    row == j + self.ny * k,
                    j >= 0,
            ;
        }
        i + self.nx * (j + self.ny * k)
    }

    /// Position of a cell.
    pub fn cell_ijk(&self, cell: usize) -> (position: (usize, usize, usize))
        requires
            self.wf(),
            self.holds(cell as int),
        ensures
            position.0 == self.x(cell as int),
            position.1 == self.y(cell as int),
            position.2 == self.z(cell as int),
            self.inside(position.0 as int, position.1 as int, position.2 as int),
    {
        proof {
            lemma_position(self, cell as int);
        }
        (cell % self.nx, cell / self.nx % self.ny, cell / self.nx / self.ny)
    }
}

} // verus!
