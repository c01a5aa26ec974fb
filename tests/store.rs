use pixel_canvas::canvas::{Canvas, DEFAULT_GRID_COUNT, DEFAULT_HEIGHT, DEFAULT_WIDTH};
use pixel_canvas::color::DEFAULT_COLOR;
use pixel_canvas::grid::{rows_of, CellError, Grid};

#[test]
fn write_then_read_returns_color() {
    let canvas = Canvas::new(2, 3, 4, DEFAULT_COLOR);
    for (g, x, y, color) in [(0usize, 0u32, 0u32, 0u32), (1, 2, 3, 0xFFFF_FFFF), (0, 1, 2, 0x123456)] {
        assert_eq!(canvas.write_cell(g, x, y, color), Ok(()));
        assert_eq!(canvas.read_cell(g, x, y), Ok(color));
    }
}

#[test]
fn unknown_grid_for_every_operation() {
    let canvas = Canvas::new(2, 3, 3, DEFAULT_COLOR);
    for g in [2usize, 3, usize::MAX] {
        assert_eq!(canvas.write_cell(g, 0, 0, 1), Err(CellError::UnknownGrid));
        assert_eq!(canvas.read_cell(g, 0, 0), Err(CellError::UnknownGrid));
        assert_eq!(canvas.snapshot(g), Err(CellError::UnknownGrid));
        assert_eq!(canvas.write_cell(g, 9, 9, 1), Err(CellError::UnknownGrid));
    }
}

#[test]
fn out_of_bounds_for_every_operation() {
    let canvas = Canvas::new(1, 3, 2, DEFAULT_COLOR);
    for (x, y) in [(3u32, 0u32), (0, 2), (3, 2), (u32::MAX, 0), (0, u32::MAX)] {
        assert_eq!(canvas.write_cell(0, x, y, 5), Err(CellError::OutOfBounds));
        assert_eq!(canvas.read_cell(0, x, y), Err(CellError::OutOfBounds));
    }
    assert_eq!(canvas.snapshot(0).unwrap(), vec![vec![DEFAULT_COLOR; 3]; 2]);
}

#[test]
fn untouched_snapshot_is_default() {
    let canvas = Canvas::new(3, 5, 4, DEFAULT_COLOR);
    for g in 0..3 {
        let rows = canvas.snapshot(g).unwrap();
        assert_eq!(rows.len(), 4);
        for row in &rows {
            assert_eq!(row.len(), 5);
            assert!(row.iter().all(|c| *c == 0xFFFFFF));
        }
    }
}

#[test]
fn standard_canvas_dimensions() {
    let canvas = Canvas::standard();
    assert_eq!(canvas.grid_count(), DEFAULT_GRID_COUNT);
    assert_eq!(canvas.grid_count(), 4);
    let grid = canvas.grid(3).unwrap();
    assert_eq!((grid.width(), grid.height()), (DEFAULT_WIDTH, DEFAULT_HEIGHT));
    assert!(canvas.grid(4).is_none());
    assert_eq!(canvas.read_cell(3, 999, 999), Ok(0xFFFFFF));
    assert_eq!(canvas.read_cell(3, 1000, 999), Err(CellError::OutOfBounds));
}

#[test]
fn snapshot_is_row_major() {
    let canvas = Canvas::new(1, 3, 2, 0);
    canvas.write_cell(0, 2, 0, 7).unwrap();
    canvas.write_cell(0, 0, 1, 9).unwrap();
    assert_eq!(canvas.snapshot(0).unwrap(), vec![vec![0, 0, 7], vec![9, 0, 0]]);
}

#[test]
fn last_write_wins() {
    let canvas = Canvas::new(1, 2, 2, DEFAULT_COLOR);
    canvas.write_cell(0, 1, 1, 1).unwrap();
    canvas.write_cell(0, 1, 1, 2).unwrap();
    assert_eq!(canvas.read_cell(0, 1, 1), Ok(2));
    assert_eq!(canvas.read_cell(0, 0, 1), Ok(DEFAULT_COLOR));
}

#[test]
fn cell_refs_follow_layout() {
    let grid = Grid::new(4, 3, 0);
    assert!(grid.get_cell_ref(4, 0).is_none());
    assert!(grid.get_cell_ref(0, 3).is_none());
    assert!(std::ptr::eq(grid.get_cell_ref(1, 2).unwrap(), grid.get_cell_ref(1, 2).unwrap()));
    assert!(!std::ptr::eq(grid.get_cell_ref(1, 2).unwrap(), grid.get_cell_ref(2, 1).unwrap()));
    grid.write(3, 2, 11).unwrap();
    assert_eq!(grid.to_2d()[2][3], 11);
    assert_eq!(grid.read(3, 2), Ok(11));
    assert_eq!(grid.read(4, 2), Err(CellError::OutOfBounds));
}

#[test]
fn empty_grids() {
    let canvas = Canvas::new(1, 0, 0, DEFAULT_COLOR);
    assert_eq!(canvas.snapshot(0).unwrap(), Vec::<Vec<u32>>::new());
    assert_eq!(canvas.write_cell(0, 0, 0, 1), Err(CellError::OutOfBounds));
    let none = Canvas::new(0, 5, 5, DEFAULT_COLOR);
    assert_eq!(none.read_cell(0, 0, 0), Err(CellError::UnknownGrid));
}

#[test]
fn rows_of_cuts_rows() {
    assert_eq!(rows_of(&vec![1, 2, 3, 4, 5, 6], 2, 3), vec![vec![1, 2], vec![3, 4], vec![5, 6]]);
    assert_eq!(rows_of(&vec![], 0, 2), vec![Vec::<u32>::new(), Vec::new()]);
}

#[test]
fn interleaved_writes_to_distinct_cells() {
    let canvas = Canvas::new(1, 8, 8, DEFAULT_COLOR);
    for i in 0..1000u32 {
        canvas.write_cell(0, 1, 1, i).unwrap();
        canvas.write_cell(0, 2, 1, 5000 + i).unwrap();
    }
    assert_eq!(canvas.read_cell(0, 1, 1), Ok(999));
    assert_eq!(canvas.read_cell(0, 2, 1), Ok(5999));
    assert_eq!(canvas.read_cell(0, 3, 1), Ok(DEFAULT_COLOR));
}
