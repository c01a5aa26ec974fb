use std::sync::atomic::{AtomicU32, Ordering};
use vstd::prelude::*;

verus! {

/// Why a cell operation was refused.
#[derive(Clone, Copy, Debug, PartialEq, Eq, Structural)]
pub enum CellError {
    /// The grid index names no grid of the canvas.
    UnknownGrid,
    /// The coordinate lies outside the grid's width or height.
    OutOfBounds,
}

/// Whether `(x, y)` addresses a cell of a `width` by `height` grid.
pub open spec fn in_bounds(width: nat, height: nat, x: nat, y: nat) -> bool {
    x < width && y < height
}

/// Position of cell `(x, y)` in the row-major layout of a grid of the given width.
pub open spec fn flat_index(width: nat, x: nat, y: nat) -> nat {
    y * width + x
}

/// A fixed-size rectangular grid of colour cells, stored row-major in one
/// allocation. Each cell is its own atomic word, so that writers of distinct
/// cells never wait for one another.
pub struct Grid {
    width: u32,
    height: u32,
    cells: Vec<AtomicU32>,
}

impl Grid {
    pub closed spec fn spec_width(&self) -> nat {
        self.width as nat
    }

    pub closed spec fn spec_height(&self) -> nat {
        self.height as nat
    }

    /// The cells, row-major.
    pub closed spec fn spec_cells(&self) -> Seq<AtomicU32> {
        self.cells@
    }

    /// The grid holds exactly one cell per coordinate.
    #[verifier::type_invariant]
    closed spec fn wf(&self) -> bool {
        &&& self.cells@.len() == self.width * self.height
        &&& self.width * self.height <= usize::MAX
    }

    /// A grid of `width` by `height` cells, each holding `initial`.
    pub fn new(width: u32, height: u32, initial: u32) -> (g: Grid)
        requires
            width * height <= usize::MAX,
        ensures
            g.spec_width() == width,
            g.spec_height() == height,
            g.spec_cells().len() == width * height,
    {
        let n: usize = width as usize * height as usize;
        let mut cells: Vec<AtomicU32> = Vec::with_capacity(n);
        let mut i: usize = 0;
        while i < n
            invariant
                i <= n,
                cells@.len() == i,
            decreases n - i,
        {
            cells.push(AtomicU32::new(initial));
            i = i + 1;
        }
        Grid { width, height, cells }
    }

    pub fn width(&self) -> (r: u32)
        ensures
            r == self.spec_width(),
    {
        self.width
    }

    pub fn height(&self) -> (r: u32)
        ensures
            r == self.spec_height(),
    {
        self.height
    }

    /// The cell at `(x, y)`, or `None` where the coordinate is outside the grid.
    pub fn get_cell_ref(&self, x: u32, y: u32) -> (r: Option<&AtomicU32>)
        ensures
            r is Some <==> in_bounds(self.spec_width(), self.spec_height(), x as nat, y as nat),
            r is Some ==> *r.unwrap() == self.spec_cells()[flat_index(
                self.spec_width(),
                x as nat,
                y as nat,
            ) as int],
    {
        proof {
            use_type_invariant(self);
        }
        if x < self.width && y < self.height {
            proof {
                lemma_index_in_range(self.width as nat, self.height as nat, x as nat, y as nat);
            }
            let index: usize = y as usize * self.width as usize + x as usize;
            Some(&self.cells[index])
        } else {
            None
        }
    }

    /// Stores `color` in cell `(x, y)`.
    pub fn write(&self, x: u32, y: u32, color: u32) -> (r: Result<(), CellError>)
        ensures
            r is Ok <==> in_bounds(self.spec_width(), self.spec_height(), x as nat, y as nat),
            r is Err ==> r == Err::<(), CellError>(CellError::OutOfBounds),
    {
        match self.get_cell_ref(x, y) {
            Some(cell) => {
                cell.store(color, Ordering::Release);
                Ok(())
            },
            None => Err(CellError::OutOfBounds),
        }
    }

    /// The colour in cell `(x, y)`.
    pub fn read(&self, x: u32, y: u32) -> (r: Result<u32, CellError>)
        ensures
            r is Ok <==> in_bounds(self.spec_width(), self.spec_height(), x as nat, y as nat),
            r is Err ==> r == Err::<u32, CellError>(CellError::OutOfBounds),
    {
        match self.get_cell_ref(x, y) {
            Some(cell) => Ok(cell.load(Ordering::Acquire)),
            None => Err(CellError::OutOfBounds),
        }
    }

    /// A row-major copy of the grid: `height` rows of `width` colours.
    ///
    /// Each cell is read by its own atomic load. Writes that run while the copy
    /// is made may show in some cells and not in others: every value read was
    /// stored whole, but the copy as a whole is no single moment of the grid.
    pub fn to_2d(&self) -> (rows: Vec<Vec<u32>>)
        ensures
            rows@.len() == self.spec_height(),
            forall|r: int| 0 <= r < rows@.len() ==> (#[trigger] rows@[r])@.len() == self.spec_width(),
    {
        proof {
            use_type_invariant(self);
        }
        let n = self.cells.len();
        let mut flat: Vec<u32> = Vec::with_capacity(n);
        let mut i: usize = 0;
        while i < n
            invariant
                i <= n,
                n == self.cells@.len(),
                flat@.len() == i,
            decreases n - i,
        {
            flat.push(self.cells[i].load(Ordering::Acquire));
            i = i + 1;
        }
        rows_of(&flat, self.width as usize, self.height as usize)
    }
}

proof fn lemma_index_in_range(width: nat, height: nat, x: nat, y: nat)
    requires
        x < width,
        y < height,
    ensures
        y * width <= y * width + x < width * height,
{
    assert(y * width + x < width * height) by (nonlinear_arith)
        requires
            x < width,
            y < height,
    ;
}

/// Cuts a row-major sequence of `width * height` values into `height` rows of
/// `width` values each.
pub fn rows_of(values: &Vec<u32>, width: usize, height: usize) -> (rows: Vec<Vec<u32>>)
    requires
        values@.len() == width * height,
    ensures
        rows@.len() == height,
        forall|r: int| 0 <= r < height ==> (#[trigger] rows@[r])@.len() == width,
        forall|r: int, c: int|
            0 <= r < height && 0 <= c < width ==> #[trigger] rows@[r]@[c] == values@[r * width + c],
{
    let n: usize = values.len();
    let mut rows: Vec<Vec<u32>> = Vec::with_capacity(height);
    let mut r: usize = 0;
    while r < height
        invariant
            r <= height,
            values@.len() == width * height,
            n == width * height,
            rows@.len() == r,
            forall|k: int| 0 <= k < r ==> (#[trigger] rows@[k])@.len() == width,
            forall|k: int, c: int|
                0 <= k < r && 0 <= c < width ==> #[trigger] rows@[k]@[c] == values@[k * width + c],
        decreases height - r,
    {
        assert(r * width + width <= width * height) by (nonlinear_arith)
            requires
                r < height,
        ;
        let start: usize = r * width;
        let mut row: Vec<u32> = Vec::with_capacity(width);
        let mut c: usize = 0;
        while c < width
            invariant
                c <= width,
                r < height,
                start == r * width,
                start + width <= width * height,
                n == width * height,
                values@.len() == width * height,
                row@.len() == c,
                forall|j: int| 0 <= j < c ==> #[trigger] row@[j] == values@[start + j],
            decreases width - c,
        {
            row.push(values[start + c]);
            c = c + 1;
        }
        rows.push(row);
        r = r + 1;
    }
    rows
}

} // verus!
