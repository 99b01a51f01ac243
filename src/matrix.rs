//! The grid of cells shared by the playfield and the piece shapes, its bounds
//! rules and the screen layout it needs.

use vstd::prelude::*;

use grid::Grid;

use crate::game_handler::RotationDirection;
use crate::tetramino::{facing_after, Facing, Mino, TetriminoType};

verus! {

pub const MATRIX_WIDTH: u16 = 10;

pub const MATRIX_HEIGHT: u16 = 20;

pub const PREVIEW_MATRIX_WIDTH: u16 = 6;

#[verifier::external_type_specification]
#[verifier::external_body]
#[verifier::reject_recursive_types(T)]
pub struct ExGrid<T>(Grid<T>);

/// The cells of a grid of optional colors, row by row.
pub uninterp spec fn grid_contents(g: Grid<Option<u8>>) -> Seq<Seq<Option<u8>>>;

/// Relies on `grid::Grid::new`: `rows` rows of `cols` default (empty) cells,
/// and no cells at all when a dimension is zero. It panics when
/// `rows * cols` overflows.
#[verifier::external_body]
pub(crate) fn grid_new(rows: usize, cols: usize) -> (g: Grid<Option<u8>>)
    requires
        rows * cols <= usize::MAX,
    ensures
        rows > 0 && cols > 0 ==> grid_contents(g) == Seq::new(
            rows as nat,
            |i: int| Seq::new(cols as nat, |j: int| None::<u8>),
        ),
        rows == 0 || cols == 0 ==> grid_contents(g).len() == 0,
{
    Grid::new(rows, cols)
}

/// Relies on `grid::Grid::get`: the cell at `(row, col)`, or nothing when the
/// position lies outside the grid.
#[verifier::external_body]
pub(crate) fn grid_get(g: &Grid<Option<u8>>, row: usize, col: usize) -> (r: Option<Option<u8>>)
    ensures
        row < grid_contents(*g).len() && col < grid_contents(*g)[row as int].len() ==> r == Some(
            grid_contents(*g)[row as int][col as int],
        ),
        !(row < grid_contents(*g).len() && col < grid_contents(*g)[row as int].len()) ==> r
            is None,
{
    g.get(row, col).copied()
}

/// Relies on `grid::Grid`'s `IndexMut` at `(row, col)`: writes that one cell.
/// It panics outside the grid.
#[verifier::external_body]
pub(crate) fn grid_set(g: &mut Grid<Option<u8>>, row: usize, col: usize, value: Option<u8>)
    requires
        row < grid_contents(*old(g)).len(),
        col < grid_contents(*old(g))[row as int].len(),
    ensures
        grid_contents(*final(g)) == grid_contents(*old(g)).update(
            row as int,
            grid_contents(*old(g))[row as int].update(col as int, value),
        ),
{
    g[(row, col)] = value;
}

/// Relies on `grid::Grid::rows`: the number of rows.
#[verifier::external_body]
fn grid_rows(g: &Grid<Option<u8>>) -> (r: usize)
    ensures
        r == grid_contents(*g).len(),
{
    g.rows()
}

/// Relies on `grid::Grid::cols`: the length shared by every row. A grid has
/// columns exactly when it has rows.
#[verifier::external_body]
fn grid_cols(g: &Grid<Option<u8>>) -> (r: usize)
    ensures
        forall|i: int| 0 <= i < grid_contents(*g).len() ==> #[trigger] grid_contents(*g)[i].len() == r,
        grid_contents(*g).len() == 0 <==> r == 0,
{
    g.cols()
}

/// Relies on `grid::Grid`'s `Clone`: the copy holds the same cells.
#[verifier::external_body]
pub(crate) fn grid_clone(g: &Grid<Option<u8>>) -> (r: Grid<Option<u8>>)
    ensures
        grid_contents(r) == grid_contents(*g),
{
    g.clone()
}

/// Relies on `grid::Grid`'s `PartialEq`: equal dimensions and equal cells,
/// row by row.
#[verifier::external_body]
fn grid_eq(a: &Grid<Option<u8>>, b: &Grid<Option<u8>>) -> (r: bool)
    ensures
        r == (grid_contents(*a) == grid_contents(*b)),
{
    a == b
}

/// A column outside the field, or a row below it: the bounds that a moving
/// piece must respect. There is no ceiling.
pub open spec fn outside_bounds(col: int, row: int) -> bool {
    col < 0 || col >= MATRIX_WIDTH || row < 0
}

/// The bounds of what is drawn or written into the field: the gameplay
/// bounds, and also no row at or above the field's height.
pub open spec fn outside_render_bounds(col: int, row: int) -> bool {
    outside_bounds(col, row) || row >= MATRIX_HEIGHT
}

/// Check if `col` and `row` are outside the bounds of the matrix (excluding the top)
pub fn position_outside_bounds(col: i64, row: i64) -> (r: bool)
    ensures
        r == outside_bounds(col as int, row as int),
{
    col < 0 || col >= MATRIX_WIDTH as i64 || row < 0
}

/// Check if `col` and `row` are outside the bounds of the matrix
pub fn position_outside_render_bounds(col: i64, row: i64) -> (r: bool)
    ensures
        r == outside_render_bounds(col as int, row as int),
{
    position_outside_bounds(col, row) || row >= MATRIX_HEIGHT as i64
}

/// The screen layout `(width, height, preview width, margin)` for a
/// viewport, or nothing when the viewport cannot hold the field, the preview
/// and their borders.
pub open spec fn matrix_size_spec(vw_width: int, vw_height: int) -> Option<(int, int, int, int)> {
    if vw_width < MATRIX_WIDTH * 2 + PREVIEW_MATRIX_WIDTH * 2 + 4 || vw_height < MATRIX_HEIGHT
        + 2 {
        None
    } else {
        let canvas_height = vw_height - 2;
        let board_height = canvas_height - canvas_height % (MATRIX_HEIGHT as int);
        let board_width = (board_height * MATRIX_WIDTH / (MATRIX_HEIGHT as int)) * 2;
        let preview_width = (board_height * PREVIEW_MATRIX_WIDTH / (MATRIX_HEIGHT as int)) * 2;
        if vw_width < board_width + preview_width {
            None
        } else {
            Some(
                (
                    board_width + 2,
                    board_height + 2,
                    preview_width + 2,
                    (vw_width - board_width - preview_width) / 2,
                ),
            )
        }
    }
}

/// Get the `(width, height, preview_width, horizontal margin)` required for the matrix
///
/// Returns [`None`] if the screen is too small
pub fn get_matrix_size(vw_width: u16, vw_height: u16) -> (r: Option<(u16, u16, u16, u16)>)
    ensures
        r is None <==> matrix_size_spec(vw_width as int, vw_height as int) is None,
        r matches Some(s) ==> matrix_size_spec(vw_width as int, vw_height as int) == Some(
            (s.0 as int, s.1 as int, s.2 as int, s.3 as int),
        ),
{
    let required_width: u16 = MATRIX_WIDTH * 2 + PREVIEW_MATRIX_WIDTH * 2 + 4;
    let required_height: u16 = MATRIX_HEIGHT + 2;

    if vw_width < required_width || vw_height < required_height {
        return None;
    }
    let canvas_height: u32 = vw_height as u32 - 2;
    let board_height: u32 = canvas_height - (canvas_height % MATRIX_HEIGHT as u32);
    assert(board_height <= 65535) by {
        assert(canvas_height % 20 >= 0);
    }
    let width: u32 = MATRIX_WIDTH as u32;
    let height: u32 = MATRIX_HEIGHT as u32;
    let preview: u32 = PREVIEW_MATRIX_WIDTH as u32;
    let board_width: u32 = (board_height * width / height) * 2;
    let preview_width: u32 = (board_height * preview / height) * 2;
    if (vw_width as u32) < board_width + preview_width {
        return None;
    }
    let margin: u32 = (vw_width as u32 - board_width - preview_width) / 2;
    Some(
        (
            (board_width + 2) as u16,
            (board_height + 2) as u16,
            (preview_width + 2) as u16,
            margin as u16,
        ),
    )
}

/// The column where a piece of the given kind spawns.
pub open spec fn spawn_col(piece: TetriminoType) -> int {
    match piece {
        TetriminoType::O => 4,
        _ => 3,
    }
}

/// Get the spawn point of a tetramino
///
/// Returns `(x, y)`: the kind's spawn column and the top row of the field.
pub fn get_spawn_point(piece: TetriminoType) -> (r: (i32, i32))
    ensures
        r.0 == spawn_col(piece),
        r.1 == MATRIX_HEIGHT - 1,
{
    (
        match piece {
            TetriminoType::I => 3,
            TetriminoType::J => 3,
            TetriminoType::L => 3,
            TetriminoType::O => 4,
            TetriminoType::S => 3,
            TetriminoType::T => 3,
            TetriminoType::Z => 3,
        },
        (MATRIX_HEIGHT - 1) as i32,
    )
}

/// What a [`Matrix`] holds: its dimensions, its cells row by row, and its facing.
pub struct MatrixView {
    pub rows: nat,
    pub cols: nat,
    pub cells: Seq<Seq<Option<u8>>>,
    pub rotation: Facing,
}

/// A grid of `rows` x `cols` cells. A grid with no columns holds no rows of
/// cells either.
pub open spec fn view_wf(v: MatrixView) -> bool {
    &&& v.cells.len() == (if v.cols == 0 {
        0
    } else {
        v.rows
    })
    &&& forall|i: int| 0 <= i < v.cells.len() ==> (#[trigger] v.cells[i]).len() == v.cols
}

/// The cell at `(row, col)`, which must lie inside the grid.
pub open spec fn cell(v: MatrixView, row: int, col: int) -> Option<u8> {
    v.cells[row][col]
}

/// The grid `v` with the cell at `(row, col)` replaced by `value`.
pub open spec fn with_cell(v: MatrixView, row: int, col: int, value: Option<u8>) -> MatrixView {
    MatrixView { cells: v.cells.update(row, v.cells[row].update(col, value)), ..v }
}

/// The grid `v` with each of `minos` written in turn, skipping those outside
/// the render bounds.
pub open spec fn stamp(v: MatrixView, minos: Seq<Mino>) -> MatrixView
    decreases minos.len(),
{
    if minos.len() == 0 {
        v
    } else {
        let before = stamp(v, minos.drop_last());
        let m = minos.last();
        if outside_render_bounds(m.col as int, m.row as int) {
            before
        } else {
            with_cell(before, m.row as int, m.col as int, Some(m.color))
        }
    }
}

/// A grid with every cell empty.
pub open spec fn all_empty(v: MatrixView) -> bool {
    forall|i: int, j: int| 0 <= i < v.rows && 0 <= j < v.cols ==> (#[trigger] v.cells[i][j]) is None
}

/// A `rows` x `cols` table whose cells up to `(i, j)` (exclusive, row by row)
/// are given by `f` and whose other cells are empty.
pub open spec fn partial_table(
    rows: nat,
    cols: nat,
    i: int,
    j: int,
    f: spec_fn(int, int) -> Option<u8>,
) -> Seq<Seq<Option<u8>>> {
    Seq::new(
        rows,
        |a: int|
            Seq::new(cols, |b: int| if a < i || (a == i && b < j) { f(a, b) } else { None }),
    )
}

/// The cell of the grid `v` that a quarter turn carries to `(i, j)`. Clockwise
/// a cell at `(row, col)` moves to `(col, rows - row - 1)`; counterclockwise to
/// `(cols - col - 1, row)`.
pub open spec fn rotated_source(v: MatrixView, direction: RotationDirection, i: int, j: int) -> Option<u8> {
    match direction {
        RotationDirection::Clockwise => v.cells[v.rows - 1 - j][i],
        RotationDirection::Counterclockwise => v.cells[j][v.cols - 1 - i],
    }
}

/// The grid turned by a quarter: rows and columns swap, every cell moves as
/// [`rotated_source`] says, and the facing advances.
pub open spec fn rotate_view(v: MatrixView, direction: RotationDirection) -> MatrixView {
    MatrixView {
        rows: v.cols,
        cols: v.rows,
        cells: Seq::new(
            if v.rows == 0 {
                0
            } else {
                v.cols
            },
            |i: int| Seq::new(v.rows, |j: int| rotated_source(v, direction, i, j)),
        ),
        rotation: facing_after(v.rotation, direction),
    }
}

/// The occupied cells of row `row` of `v` before column `col`, left to right.
pub open spec fn row_minos(v: MatrixView, row: int, col: nat) -> Seq<Mino>
    decreases col,
{
    if col == 0 {
        Seq::empty()
    } else {
        let before = row_minos(v, row, (col - 1) as nat);
        match v.cells[row][col - 1] {
            Some(color) => before.push(Mino { col: (col - 1) as i32, row: row as i32, color }),
            None => before,
        }
    }
}

/// The occupied cells of the first `rows` rows of `v`, row by row.
pub open spec fn rows_minos(v: MatrixView, rows: nat) -> Seq<Mino>
    decreases rows,
{
    if rows == 0 {
        Seq::empty()
    } else {
        rows_minos(v, (rows - 1) as nat) + row_minos(v, rows - 1, v.cols)
    }
}

/// All occupied cells of `v`, row by row, each with its position and color.
pub open spec fn grid_minos(v: MatrixView) -> Seq<Mino> {
    rows_minos(v, v.rows)
}

/// Every mino listed for row `row` before column `col` lies in that row, left
/// of `col`, on an occupied cell of its color.
proof fn lemma_row_minos(v: MatrixView, row: int, col: nat)
    requires
        view_wf(v),
        0 <= row < v.rows,
        col <= v.cols,
        v.rows <= i32::MAX,
        v.cols <= i32::MAX,
    ensures
        forall|k: int|
            0 <= k < row_minos(v, row, col).len() ==> {
                let m = #[trigger] row_minos(v, row, col)[k];
                &&& m.row == row
                &&& 0 <= m.col < col
                &&& v.cells[row][m.col as int] == Some(m.color)
            },
    decreases col,
{
    if col > 0 {
        lemma_row_minos(v, row, (col - 1) as nat);
    }
}

/// Every mino listed for the first `rows` rows lies in the grid, on an
/// occupied cell of its color.
proof fn lemma_rows_minos(v: MatrixView, rows: nat)
    requires
        view_wf(v),
        rows <= v.rows,
        v.rows <= i32::MAX,
        v.cols <= i32::MAX,
    ensures
        forall|k: int|
            0 <= k < rows_minos(v, rows).len() ==> {
                let m = #[trigger] rows_minos(v, rows)[k];
                &&& 0 <= m.row < rows
                &&& 0 <= m.col < v.cols
                &&& v.cells[m.row as int][m.col as int] == Some(m.color)
            },
    decreases rows,
{
    if rows > 0 {
        let before = rows_minos(v, (rows - 1) as nat);
        let last = row_minos(v, rows - 1, v.cols);
        lemma_rows_minos(v, (rows - 1) as nat);
        lemma_row_minos(v, rows - 1, v.cols);
        assert forall|k: int| 0 <= k < rows_minos(v, rows).len() implies {
            let m = #[trigger] rows_minos(v, rows)[k];
            &&& 0 <= m.row < rows
            &&& 0 <= m.col < v.cols
            &&& v.cells[m.row as int][m.col as int] == Some(m.color)
        } by {
            if k < before.len() {
                assert(rows_minos(v, rows)[k] == before[k]);
            } else {
                assert(rows_minos(v, rows)[k] == last[k - before.len()]);
            }
        }
    }
}

/// Every listed mino of a grid lies in it, on an occupied cell of its color.
pub proof fn lemma_grid_minos_in_grid(v: MatrixView)
    requires
        view_wf(v),
        v.rows <= i32::MAX,
        v.cols <= i32::MAX,
    ensures
        forall|k: int|
            0 <= k < grid_minos(v).len() ==> {
                let m = #[trigger] grid_minos(v)[k];
                &&& 0 <= m.row < v.rows
                &&& 0 <= m.col < v.cols
                &&& v.cells[m.row as int][m.col as int] == Some(m.color)
            },
{
    lemma_rows_minos(v, v.rows);
}

/// Four clockwise quarter turns give back the same grid, facing included.
pub proof fn lemma_four_quarter_turns(v: MatrixView)
    requires
        view_wf(v),
    ensures
        rotate_view(
            rotate_view(
                rotate_view(rotate_view(v, RotationDirection::Clockwise), RotationDirection::Clockwise),
                RotationDirection::Clockwise,
            ),
            RotationDirection::Clockwise,
        ) == v,
{
    let d = RotationDirection::Clockwise;
    let rows = v.rows as int;
    let cols = v.cols as int;
    let v1 = rotate_view(v, d);
    let v2 = rotate_view(v1, d);
    let v3 = rotate_view(v2, d);
    let v4 = rotate_view(v3, d);
    assert forall|i: int, j: int| 0 <= i < v2.cells.len() && 0 <= j < cols implies #[trigger] v2.cells[i][j]
        == v.cells[rows - 1 - i][cols - 1 - j] by {
        assert(v1.cells[cols - 1 - j][i] == v.cells[rows - 1 - i][cols - 1 - j]);
    }
    assert forall|i: int, j: int| 0 <= i < v3.cells.len() && 0 <= j < rows implies #[trigger] v3.cells[i][j]
        == v.cells[j][cols - 1 - i] by {
        assert(v2.cells[rows - 1 - j][i] == v.cells[j][cols - 1 - i]);
    }
    assert forall|i: int, j: int| 0 <= i < v4.cells.len() && 0 <= j < cols implies #[trigger] v4.cells[i][j]
        == v.cells[i][j] by {
        assert(v3.cells[cols - 1 - j][i] == v.cells[i][j]);
    }
    assert(v4.cells =~~= v.cells);
}

pub trait MinoGrid {
    /// Whether [`MinoGrid::get_minos`] may be called.
    spec fn minos_ready(&self) -> bool;

    /// Returns a [`Vec`] of all non-empty minos
    fn get_minos(&self) -> Vec<Mino>
        requires
            self.minos_ready(),
    ;
}

pub trait GridRotation: Sized {
    /// Whether [`GridRotation::rotated`] may be called.
    spec fn rotation_ready(&self) -> bool;

    /// The grid turned a quarter in `direction`.
    fn rotated(&self, direction: RotationDirection) -> Self
        requires
            self.rotation_ready(),
    ;
}

/// A rectangular grid of optional colors with a facing.
#[derive(Debug)]
pub struct Matrix {
    rows: usize,
    cols: usize,
    matrix: Grid<Option<u8>>,
    pub rotation: Facing,
}

impl View for Matrix {
    type V = MatrixView;

    closed spec fn view(&self) -> MatrixView {
        MatrixView {
            rows: self.rows as nat,
            cols: self.cols as nat,
            cells: grid_contents(self.matrix),
            rotation: self.rotation,
        }
    }
}

impl Matrix {
    /// The grid is rectangular, as its dimensions say.
    pub open spec fn wf(&self) -> bool {
        view_wf(self@)
    }

    /// Positions in the grid fit the coordinates of a [`Mino`].
    pub open spec fn fits_minos(&self) -> bool {
        self@.rows <= i32::MAX && self@.cols <= i32::MAX
    }

    proof fn lemma_grid_dims(&self)
        requires
            self.wf(),
        ensures
            self.rows > 0 && self.cols > 0 ==> grid_contents(self.matrix).len() == self.rows,
            forall|i: int|
                0 <= i < grid_contents(self.matrix).len() ==> #[trigger] grid_contents(
                    self.matrix,
                )[i].len() == self.cols,
    {
    }

    /// An empty grid of `rows` x `cols` cells with the given facing.
    pub fn new(rows: usize, cols: usize, rotation: Facing) -> (r: Self)
        requires
            rows * cols <= usize::MAX,
        ensures
            r.wf(),
            r@.rows == rows,
            r@.cols == cols,
            r@.rotation == rotation,
            forall|i: int, j: int| 0 <= i < rows && 0 <= j < cols ==> (#[trigger] r@.cells[i][j]) is None,
    {
        Self { rows, cols, matrix: grid_new(rows, cols), rotation }
    }

    /// The grid's facing.
    pub fn facing(&self) -> (r: Facing)
        ensures
            r == self@.rotation,
    {
        self.rotation
    }

    /// rows, cols
    pub fn size(&self) -> (r: (usize, usize))
        ensures
            r.0 == self@.rows,
            r.1 == self@.cols,
    {
        (self.rows, self.cols)
    }

    /// The occupied cell at `(row, col)`, or nothing where the cell is empty or
    /// lies outside the grid.
    pub fn get_mino(&self, row: usize, col: usize) -> (r: Option<Mino>)
        requires
            self.wf(),
            self.fits_minos(),
        ensures
            r == (if row < self@.rows && col < self@.cols && cell(self@, row as int, col as int) is Some {
                Some(
                    Mino {
                        col: col as i32,
                        row: row as i32,
                        color: cell(self@, row as int, col as int)->0,
                    },
                )
            } else {
                None
            }),
    {
        proof {
            self.lemma_grid_dims();
        }
        match grid_get(&self.matrix, row, col) {
            Some(mino) => match mino {
                Some(color) => Some(Mino { col: col as i32, row: row as i32, color }),
                None => None,
            },
            None => None,
        }
    }

    /// A copy of the underlying grid.
    pub fn get_matrix(&self) -> (r: Grid<Option<u8>>)
        ensures
            grid_contents(r) == self@.cells,
    {
        grid_clone(&self.matrix)
    }

    /// Writes `mino` into the grid, unless it lies outside the render bounds.
    pub fn set_mino(&mut self, mino: Mino)
        requires
            old(self).wf(),
            old(self)@.rows >= MATRIX_HEIGHT,
            old(self)@.cols >= MATRIX_WIDTH,
        ensures
            outside_render_bounds(mino.col as int, mino.row as int) ==> *final(self) == *old(self),
            !outside_render_bounds(mino.col as int, mino.row as int) ==> final(self)@ == with_cell(
                old(self)@,
                mino.row as int,
                mino.col as int,
                Some(mino.color),
            ),
            final(self).wf(),
    {
        if position_outside_render_bounds(mino.col as i64, mino.row as i64) {
            return;
        }
        proof {
            self.lemma_grid_dims();
        }
        grid_set(&mut self.matrix, mino.row as usize, mino.col as usize, Some(mino.color));
        proof {
            assert(view_wf(self@));
        }
    }
}

impl Clone for Matrix {
    fn clone(&self) -> (r: Self)
        ensures
            r@ == self@,
    {
        Matrix {
            rows: self.rows,
            cols: self.cols,
            matrix: grid_clone(&self.matrix),
            rotation: self.rotation,
        }
    }
}

impl PartialEq for Matrix {
    fn eq(&self, other: &Matrix) -> (r: bool) {
        self.rows == other.rows && self.cols == other.cols && self.rotation == other.rotation
            && grid_eq(&self.matrix, &other.matrix)
    }
}

impl vstd::std_specs::cmp::PartialEqSpecImpl for Matrix {
    open spec fn obeys_eq_spec() -> bool {
        true
    }

    open spec fn eq_spec(&self, other: &Matrix) -> bool {
        self@ == other@
    }
}

impl From<Grid<Option<u8>>> for Matrix {
    fn from(value: Grid<Option<u8>>) -> (r: Self)
        ensures
            r.wf(),
            r@.cells == grid_contents(value),
            r@.rows == grid_contents(value).len(),
            grid_contents(value).len() > 0 ==> r@.cols == grid_contents(value)[0].len(),
            grid_contents(value).len() == 0 ==> r@.cols == 0,
            r@.rotation == Facing::North,
    {
        let rows = grid_rows(&value);
        let cols = grid_cols(&value);
        Self { rows, cols, matrix: value, rotation: Facing::North }
    }
}

impl vstd::std_specs::convert::FromSpecImpl<Grid<Option<u8>>> for Matrix {
    open spec fn obeys_from_spec() -> bool {
        true
    }

    closed spec fn from_spec(v: Grid<Option<u8>>) -> Matrix {
        let cells = grid_contents(v);
        Matrix {
            rows: cells.len() as usize,
            cols: if cells.len() == 0 {
                0
            } else {
                cells[0].len() as usize
            },
            matrix: v,
            rotation: Facing::North,
        }
    }
}

impl MinoGrid for Matrix {
    open spec fn minos_ready(&self) -> bool {
        self.wf() && self.fits_minos()
    }

    fn get_minos(&self) -> (r: Vec<Mino>)
        ensures
            r@ == grid_minos(self@),
    {
        proof {
            self.lemma_grid_dims();
        }
        let mut minos: Vec<Mino> = Vec::new();
        let mut row: usize = 0;
        while row < self.rows
            invariant
                self.minos_ready(),
                row <= self.rows,
                self.rows > 0 && self.cols > 0 ==> grid_contents(self.matrix).len() == self.rows,
                forall|i: int|
                    0 <= i < grid_contents(self.matrix).len() ==> #[trigger] grid_contents(
                        self.matrix,
                    )[i].len() == self.cols,
                minos@ == rows_minos(self@, row as nat),
            decreases self.rows - row,
        {
            let mut col: usize = 0;
            while col < self.cols
                invariant
                    self.minos_ready(),
                    row < self.rows,
                    col <= self.cols,
                    self.rows > 0 && self.cols > 0 ==> grid_contents(self.matrix).len()
                        == self.rows,
                    forall|i: int|
                        0 <= i < grid_contents(self.matrix).len() ==> #[trigger] grid_contents(
                            self.matrix,
                        )[i].len() == self.cols,
                    minos@ == rows_minos(self@, row as nat) + row_minos(self@, row as int, col as nat),
                decreases self.cols - col,
            {
                let ghost before = minos@;
                match grid_get(&self.matrix, row, col) {
                    Some(Some(color)) => {
                        minos.push(Mino { col: col as i32, row: row as i32, color });
                    },
                    _ => {},
                }
                proof {
                    let a = rows_minos(self@, row as nat);
                    let b = row_minos(self@, row as int, col as nat);
                    if let Some(color) = self@.cells[row as int][col as int] {
                        assert((a + b).push(Mino { col: col as i32, row: row as i32, color }) =~= a + b.push(
                            Mino { col: col as i32, row: row as i32, color },
                        ));
                    }
                }
                col += 1;
            }
            row += 1;
        }
        minos
    }
}

impl GridRotation for Matrix {
    open spec fn rotation_ready(&self) -> bool {
        self.wf() && self@.rows * self@.cols <= usize::MAX
    }

    fn rotated(&self, direction: RotationDirection) -> (r: Self)
        ensures
            r.wf(),
            r@ == rotate_view(self@, direction),
    {
        let (rows, cols) = self.size();
        proof {
            self.lemma_grid_dims();
            assert(cols * rows == rows * cols) by (nonlinear_arith);
        }
        let mut rotated = Matrix::new(cols, rows, self.rotation.rotated(direction));
        let ghost target = rotate_view(self@, direction);
        if rows == 0 || cols == 0 {
            proof {
                assert(rotated@.cells =~= target.cells);
            }
            return rotated;
        }
        let ghost f = |a: int, b: int| rotated_source(self@, direction, a, b);
        proof {
            assert(grid_contents(rotated.matrix) =~~= partial_table(cols as nat, rows as nat, 0, 0, f));
        }
        let mut i: usize = 0;
        while i < cols
            invariant
                self.rotation_ready(),
                rows == self@.rows,
                cols == self@.cols,
                rows > 0 && cols > 0,
                grid_contents(self.matrix).len() == rows,
                forall|k: int| 0 <= k < rows ==> #[trigger] grid_contents(self.matrix)[k].len() == cols,
                i <= cols,
                rotated.rows == cols,
                rotated.cols == rows,
                rotated.rotation == target.rotation,
                f == (|a: int, b: int| rotated_source(self@, direction, a, b)),
                grid_contents(rotated.matrix) == partial_table(cols as nat, rows as nat, i as int, 0, f),
            decreases cols - i,
        {
            let mut j: usize = 0;
            while j < rows
                invariant
                    self.rotation_ready(),
                    rows == self@.rows,
                    cols == self@.cols,
                    rows > 0 && cols > 0,
                    grid_contents(self.matrix).len() == rows,
                    forall|k: int| 0 <= k < rows ==> #[trigger] grid_contents(self.matrix)[k].len() == cols,
                    i < cols,
                    j <= rows,
                    rotated.rows == cols,
                    rotated.cols == rows,
                    rotated.rotation == target.rotation,
                    f == (|a: int, b: int| rotated_source(self@, direction, a, b)),
                    grid_contents(rotated.matrix) == partial_table(
                        cols as nat,
                        rows as nat,
                        i as int,
                        j as int,
                        f,
                    ),
                decreases rows - j,
            {
                let (src_row, src_col) = match direction {
                    RotationDirection::Clockwise => (rows - 1 - j, i),
                    RotationDirection::Counterclockwise => (j, cols - 1 - i),
                };
                let value = match grid_get(&self.matrix, src_row, src_col) {
                    Some(v) => v,
                    None => None,
                };
                grid_set(&mut rotated.matrix, i, j, value);
                proof {
                    assert(grid_contents(rotated.matrix) =~~= partial_table(
                        cols as nat,
                        rows as nat,
                        i as int,
                        j + 1,
                        f,
                    ));
                }
                j += 1;
            }
            proof {
                assert(partial_table(cols as nat, rows as nat, i as int, rows as int, f) =~~= partial_table(
                    cols as nat,
                    rows as nat,
                    i + 1,
                    0,
                    f,
                ));
            }
            i += 1;
        }
        proof {
            assert(grid_contents(rotated.matrix) =~~= target.cells);
            assert(rotated@ == target);
        }
        rotated
    }
}

} // verus!
