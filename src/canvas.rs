use crate::color::DEFAULT_COLOR;
use crate::grid::{in_bounds, CellError, Grid};
use vstd::prelude::*;

verus! {

/// Number of grids of the standard canvas.
pub const DEFAULT_GRID_COUNT: usize = 4;

/// Width of each grid of the standard canvas.
pub const DEFAULT_WIDTH: u32 = 1000;

/// Height of each grid of the standard canvas.
pub const DEFAULT_HEIGHT: u32 = 1000;

/// The fixed collection of grids that a server shares between all its request
/// handlers. Neither the number of grids nor their sizes change once it is built;
/// only the cells do, one atomic word at a time.
pub struct Canvas {
    grids: Vec<Grid>,
}

impl Canvas {
    pub closed spec fn spec_grids(&self) -> Seq<Grid> {
        self.grids@
    }

    pub open spec fn spec_grid_count(&self) -> nat {
        self.spec_grids().len()
    }

    /// Whether `(x, y)` is a cell of grid `g`, which must exist.
    pub open spec fn cell_exists(&self, g: nat, x: nat, y: nat) -> bool {
        in_bounds(self.spec_grids()[g as int].spec_width(), self.spec_grids()[g as int].spec_height(), x, y)
    }

    /// What a cell operation on grid `g` at `(x, y)` is refused with, if anything.
    pub open spec fn cell_error(&self, g: nat, x: nat, y: nat) -> Option<CellError> {
        if g >= self.spec_grid_count() {
            Some(CellError::UnknownGrid)
        } else if !self.cell_exists(g, x, y) {
            Some(CellError::OutOfBounds)
        } else {
            None
        }
    }

    /// `count` grids of `width` by `height` cells, each cell holding `initial`.
    pub fn new(count: usize, width: u32, height: u32, initial: u32) -> (c: Canvas)
        requires
            width * height <= usize::MAX,
        ensures
            c.spec_grid_count() == count,
            forall|i: int|
                0 <= i < count ==> (#[trigger] c.spec_grids()[i]).spec_width() == width
                    && c.spec_grids()[i].spec_height() == height,
    {
        let mut grids: Vec<Grid> = Vec::with_capacity(count);
        let mut i: usize = 0;
        while i < count
            invariant
                i <= count,
                width * height <= usize::MAX,
                grids@.len() == i,
                forall|k: int|
                    0 <= k < i ==> (#[trigger] grids@[k]).spec_width() == width
                        && grids@[k].spec_height() == height,
            decreases count - i,
        {
            grids.push(Grid::new(width, height, initial));
            i = i + 1;
        }
        Canvas { grids }
    }

    /// The standard canvas: four white grids of 1000 by 1000 cells.
    pub fn standard() -> (c: Canvas)
        ensures
            c.spec_grid_count() == DEFAULT_GRID_COUNT,
            forall|i: int|
                0 <= i < DEFAULT_GRID_COUNT ==> (#[trigger] c.spec_grids()[i]).spec_width()
                    == DEFAULT_WIDTH && c.spec_grids()[i].spec_height() == DEFAULT_HEIGHT,
    {
        Canvas::new(DEFAULT_GRID_COUNT, DEFAULT_WIDTH, DEFAULT_HEIGHT, DEFAULT_COLOR)
    }

    pub fn grid_count(&self) -> (r: usize)
        ensures
            r == self.spec_grid_count(),
    {
        self.grids.len()
    }

    /// Grid `g`, or `None` where the canvas has no such grid.
    pub fn grid(&self, g: usize) -> (r: Option<&Grid>)
        ensures
            r is Some <==> g < self.spec_grid_count(),
            r is Some ==> *r.unwrap() == self.spec_grids()[g as int],
    {
        if g < self.grids.len() {
            Some(&self.grids[g])
        } else {
            None
        }
    }

    /// Stores `color` in cell `(x, y)` of grid `g`. Any 32-bit value is taken
    /// as it is; the last store to a cell is what later reads of it see.
    pub fn write_cell(&self, g: usize, x: u32, y: u32, color: u32) -> (r: Result<(), CellError>)
        ensures
            r is Ok <==> self.cell_error(g as nat, x as nat, y as nat) is None,
            r is Err ==> r->Err_0 == self.cell_error(g as nat, x as nat, y as nat)->Some_0,
    {
        match self.grid(g) {
            Some(grid) => grid.write(x, y, color),
            None => Err(CellError::UnknownGrid),
        }
    }

    /// The colour in cell `(x, y)` of grid `g`: the last one stored there, or
    /// the colour the canvas was built with.
    pub fn read_cell(&self, g: usize, x: u32, y: u32) -> (r: Result<u32, CellError>)
        ensures
            r is Ok <==> self.cell_error(g as nat, x as nat, y as nat) is None,
            r is Err ==> r->Err_0 == self.cell_error(g as nat, x as nat, y as nat)->Some_0,
    {
        match self.grid(g) {
            Some(grid) => grid.read(x, y),
            None => Err(CellError::UnknownGrid),
        }
    }

    /// A row-major copy of grid `g`, read cell by cell (see [`Grid::to_2d`]).
    pub fn snapshot(&self, g: usize) -> (r: Result<Vec<Vec<u32>>, CellError>)
        ensures
            r is Ok <==> g < self.spec_grid_count(),
            r is Err ==> r->Err_0 == CellError::UnknownGrid,
            r is Ok ==> r->Ok_0@.len() == self.spec_grids()[g as int].spec_height(),
            r is Ok ==> forall|i: int|
                0 <= i < r->Ok_0@.len() ==> (#[trigger] r->Ok_0@[i])@.len()
                    == self.spec_grids()[g as int].spec_width(),
    {
        match self.grid(g) {
            Some(grid) => Ok(grid.to_2d()),
            None => Err(CellError::UnknownGrid),
        }
    }
}

/// Every cell operation on a grid index outside `[0, grid count)` is refused
/// with `UnknownGrid`, whatever the coordinate.
pub proof fn lemma_unknown_grid_refused(canvas: &Canvas, g: nat, x: nat, y: nat)
    requires
        g >= canvas.spec_grid_count(),
    ensures
        canvas.cell_error(g, x, y) == Some(CellError::UnknownGrid),
{
}

/// On an existing grid, every cell operation at a coordinate with `x >= width`
/// or `y >= height` is refused with `OutOfBounds`.
pub proof fn lemma_out_of_bounds_refused(canvas: &Canvas, g: nat, x: nat, y: nat)
    requires
        g < canvas.spec_grid_count(),
        x >= canvas.spec_grids()[g as int].spec_width() || y >= canvas.spec_grids()[g as int].spec_height(),
    ensures
        canvas.cell_error(g, x, y) == Some(CellError::OutOfBounds),
{
}

} // verus!
