use crate::canvas::{Canvas, DEFAULT_HEIGHT, DEFAULT_WIDTH};
use crate::color::{color_hex, render_color};
use crate::grid::CellError;
use crate::text::{decimal, owned, push_decimal};
use vstd::string::StringExecFns;
use vstd::prelude::*;

verus! {

/// Message for a request that names a grid the canvas does not have.
pub open spec fn unknown_grid_text(g: nat, count: nat) -> Seq<char> {
    "grid "@ + decimal(g) + " does not exist, total grid size is: "@ + decimal(count)
}

/// Message for a pixel whose coordinate lies outside its grid.
pub open spec fn out_of_bounds_text() -> Seq<char> {
    "Server could not set new color."@
}

/// Reply to a pixel that was stored.
pub open spec fn success_text() -> Seq<char> {
    "Success"@
}

/// Reply to a liveness probe.
pub open spec fn pong_text() -> Seq<char> {
    "pong!"@
}

/// The message that a refused cell operation on grid `g` is answered with.
pub open spec fn error_text(e: CellError, g: nat, count: nat) -> Seq<char> {
    match e {
        CellError::UnknownGrid => unknown_grid_text(g, count),
        CellError::OutOfBounds => out_of_bounds_text(),
    }
}

/// Builds the message for a request on grid `g` of a canvas of `count` grids
/// where `g` does not exist.
pub fn unknown_grid_message(g: usize, count: usize) -> (r: String)
    ensures
        r@ == unknown_grid_text(g as nat, count as nat),
{
    let mut r = owned("grid ");
    push_decimal(&mut r, g as u64);
    r.append(" does not exist, total grid size is: ");
    push_decimal(&mut r, count as u64);
    r
}

/// The message that answers a refused cell operation on grid `g`.
pub fn error_message(e: CellError, g: usize, count: usize) -> (r: String)
    ensures
        r@ == error_text(e, g as nat, count as nat),
{
    match e {
        CellError::UnknownGrid => unknown_grid_message(g, count),
        CellError::OutOfBounds => owned("Server could not set new color."),
    }
}

/// Handles a request to set cell `(x, y)` of grid `g` to `color`. Any 32-bit
/// colour is stored as it is. The reply is "Success", or the message that says
/// why the request was refused.
pub fn set_pixel(canvas: &Canvas, g: usize, x: u32, y: u32, color: u32) -> (r: Result<String, String>)
    ensures
        r is Ok <==> canvas.cell_error(g as nat, x as nat, y as nat) is None,
        r is Ok ==> r->Ok_0@ == success_text(),
        r is Err ==> r->Err_0@ == error_text(
            canvas.cell_error(g as nat, x as nat, y as nat)->Some_0,
            g as nat,
            canvas.spec_grid_count(),
        ),
{
    match canvas.write_cell(g, x, y, color) {
        Ok(()) => Ok(owned("Success")),
        Err(e) => Err(error_message(e, g, canvas.grid_count())),
    }
}

/// Renders each colour of a row-major grid as six hexadecimal digits.
pub fn render_rows(rows: &Vec<Vec<u32>>) -> (out: Vec<Vec<String>>)
    ensures
        out@.len() == rows@.len(),
        forall|i: int| 0 <= i < rows@.len() ==> (#[trigger] out@[i])@.len() == rows@[i]@.len(),
        forall|i: int, j: int|
            0 <= i < rows@.len() && 0 <= j < rows@[i]@.len() ==> (#[trigger] out@[i]@[j])@
                == color_hex(rows@[i]@[j]),
{
    let mut out: Vec<Vec<String>> = Vec::with_capacity(rows.len());
    let mut i: usize = 0;
    while i < rows.len()
        invariant
            i <= rows@.len(),
            out@.len() == i,
            forall|k: int| 0 <= k < i ==> (#[trigger] out@[k])@.len() == rows@[k]@.len(),
            forall|k: int, j: int|
                0 <= k < i && 0 <= j < rows@[k]@.len() ==> (#[trigger] out@[k]@[j])@
                    == color_hex(rows@[k]@[j]),
        decreases rows@.len() - i,
    {
        let row = &rows[i];
        let mut line: Vec<String> = Vec::with_capacity(row.len());
        let mut j: usize = 0;
        while j < row.len()
            invariant
                j <= row@.len(),
                line@.len() == j,
                forall|m: int| 0 <= m < j ==> (#[trigger] line@[m])@ == color_hex(row@[m]),
            decreases row@.len() - j,
        {
            line.push(render_color(row[j]));
            j = j + 1;
        }
        out.push(line);
        i = i + 1;
    }
    out
}

/// Whether `s` is how some colour is shown.
pub open spec fn is_color_text(s: Seq<char>) -> bool {
    exists|v: u32| color_hex(v) == s
}

/// Handles a request for the whole of grid `g`: its rows, top to bottom, each
/// cell rendered as six hexadecimal digits; or the message for an unknown grid.
/// The cells are read one by one (see [`crate::grid::Grid::to_2d`]).
pub fn get_grid(canvas: &Canvas, g: usize) -> (r: Result<Vec<Vec<String>>, String>)
    ensures
        r is Ok <==> g < canvas.spec_grid_count(),
        r is Err ==> r->Err_0@ == unknown_grid_text(g as nat, canvas.spec_grid_count()),
        r is Ok ==> r->Ok_0@.len() == canvas.spec_grids()[g as int].spec_height(),
        r is Ok ==> forall|i: int|
            0 <= i < r->Ok_0@.len() ==> (#[trigger] r->Ok_0@[i])@.len()
                == canvas.spec_grids()[g as int].spec_width(),
        r is Ok ==> forall|i: int, j: int|
            0 <= i < r->Ok_0@.len() && 0 <= j < r->Ok_0@[i]@.len() ==> is_color_text(
                #[trigger] r->Ok_0@[i]@[j]@,
            ),
{
    match canvas.snapshot(g) {
        Ok(rows) => {
            let out = render_rows(&rows);
            assert forall|i: int, j: int|
                0 <= i < out@.len() && 0 <= j < out@[i]@.len() implies is_color_text(
                #[trigger] out@[i]@[j]@,
            ) by {
                assert(color_hex(rows@[i]@[j]) == out@[i]@[j]@);
            }
            Ok(out)
        },
        Err(_) => Err(unknown_grid_message(g, canvas.grid_count())),
    }
}

/// Answers a liveness probe; touches nothing.
pub fn ping() -> (r: String)
    ensures
        r@ == pong_text(),
{
    owned("pong!")
}

/// A pixel as a client sends it: position and colour.
#[derive(Clone, Copy, Debug, PartialEq, Eq, Structural)]
pub struct Pos {
    pub x: u32,
    pub y: u32,
    pub rgba: u32,
}

/// A pixel as it is written out: position and colour as six hexadecimal digits.
pub struct PosRecord {
    pub x: u32,
    pub y: u32,
    pub rgbs: String,
}

/// Message for a pixel written out with a position outside the standard grid.
pub open spec fn invalid_position_text(x: nat, y: nat) -> Seq<char> {
    "Invalid position, positions should be between 0 and "@ + decimal(DEFAULT_WIDTH as nat)
        + "x, "@ + decimal(DEFAULT_HEIGHT as nat) + "y, but were, "@ + decimal(x) + "x and "@
        + decimal(y) + "y"@
}

impl Pos {
    /// Whether the position may be written out: it is a cell of a grid of the
    /// standard size.
    pub open spec fn spec_position_ok(&self) -> bool {
        self.x < DEFAULT_WIDTH && self.y < DEFAULT_HEIGHT
    }

    /// The pixel as it is written out, or the message for a position outside
    /// the standard grid.
    pub fn to_record(&self) -> (r: Result<PosRecord, String>)
        ensures
            r is Ok <==> self.spec_position_ok(),
            r is Ok ==> r->Ok_0.x == self.x && r->Ok_0.y == self.y && r->Ok_0.rgbs@ == color_hex(
                self.rgba,
            ),
            r is Err ==> r->Err_0@ == invalid_position_text(self.x as nat, self.y as nat),
    {
        if self.x >= DEFAULT_WIDTH || self.y >= DEFAULT_HEIGHT {
            let mut m = owned("Invalid position, positions should be between 0 and ");
            push_decimal(&mut m, DEFAULT_WIDTH as u64);
            m.append("x, ");
            push_decimal(&mut m, DEFAULT_HEIGHT as u64);
            m.append("y, but were, ");
            push_decimal(&mut m, self.x as u64);
            m.append("x and ");
            push_decimal(&mut m, self.y as u64);
            m.append("y");
            return Err(m);
        }
        Ok(PosRecord { x: self.x, y: self.y, rgbs: render_color(self.rgba) })
    }
}

} // verus!
