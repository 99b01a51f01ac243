//! Pieces: their kinds, facings, shapes and kick offsets.

use vstd::prelude::*;

use crate::game_handler::RotationDirection;
use crate::matrix::{
    get_spawn_point, grid_contents, grid_new, grid_set, grid_minos, lemma_grid_minos_in_grid,
    outside_bounds, partial_table, position_outside_bounds, rotate_view, spawn_col, view_wf,
    GridRotation, Matrix, MatrixView, MinoGrid, MATRIX_HEIGHT,
};

verus! {

/// The rotation state of a piece.
#[derive(Debug, Clone, Copy, PartialEq, Eq, Structural)]
pub enum Facing {
    North,
    East,
    South,
    West,
}

/// Position of a facing in the cycle North, East, South, West.
pub open spec fn facing_index(f: Facing) -> int {
    match f {
        Facing::North => 0,
        Facing::East => 1,
        Facing::South => 2,
        Facing::West => 3,
    }
}

/// The facing reached by one quarter turn: one step forward in the cycle
/// clockwise, one step back counterclockwise.
pub open spec fn facing_after(f: Facing, direction: RotationDirection) -> Facing {
    let step: int = match direction {
        RotationDirection::Clockwise => 1,
        RotationDirection::Counterclockwise => 3,
    };
    facing_at((facing_index(f) + step) % 4)
}

/// The facing at a position of the cycle.
pub open spec fn facing_at(i: int) -> Facing {
    if i == 0 {
        Facing::North
    } else if i == 1 {
        Facing::East
    } else if i == 2 {
        Facing::South
    } else {
        Facing::West
    }
}

impl Facing {
    pub fn rotated(&self, rotation_direction: RotationDirection) -> (r: Facing)
        ensures
            r == facing_after(*self, rotation_direction),
    {
        match rotation_direction {
            RotationDirection::Clockwise => match self {
                Self::North => Self::East,
                Self::East => Self::South,
                Self::South => Self::West,
                Self::West => Self::North,
            },
            RotationDirection::Counterclockwise => match self {
                Self::North => Self::West,
                Self::East => Self::North,
                Self::South => Self::East,
                Self::West => Self::South,
            },
        }
    }
}

/// A kind of piece.
#[derive(Debug, Clone, Copy, PartialEq, Eq, Structural)]
pub enum TetriminoType {
    O,
    I,
    T,
    L,
    J,
    S,
    Z,
}

pub const I_COLOR: u8 = 51;

pub const J_COLOR: u8 = 33;

pub const L_COLOR: u8 = 208;

pub const O_COLOR: u8 = 226;

pub const S_COLOR: u8 = 40;

pub const T_COLOR: u8 = 128;

pub const Z_COLOR: u8 = 160;

/// The color of every cell of a piece of the given kind.
pub open spec fn kind_color(kind: TetriminoType) -> u8 {
    match kind {
        TetriminoType::O => O_COLOR,
        TetriminoType::I => I_COLOR,
        TetriminoType::T => T_COLOR,
        TetriminoType::L => L_COLOR,
        TetriminoType::J => J_COLOR,
        TetriminoType::S => S_COLOR,
        TetriminoType::Z => Z_COLOR,
    }
}

/// The seven kinds, each once, in the order O, I, T, L, J, S, Z.
pub open spec fn kinds_in_order() -> Seq<TetriminoType> {
    seq![
        TetriminoType::O,
        TetriminoType::I,
        TetriminoType::T,
        TetriminoType::L,
        TetriminoType::J,
        TetriminoType::S,
        TetriminoType::Z,
    ]
}

/// Row `facing` of the kick table of `kind`: one raw offset per candidate.
/// T, L, J, S and Z share a table, I has its own, and O has a single column.
pub open spec fn offset_row(kind: TetriminoType, facing: Facing) -> Seq<(int, int)> {
    match kind {
        TetriminoType::O => match facing {
            Facing::North => seq![(0, 0)],
            Facing::East => seq![(0, -1)],
            Facing::South => seq![(-1, -1)],
            Facing::West => seq![(-1, 0)],
        },
        TetriminoType::I => match facing {
            Facing::North => seq![(0, 0), (-1, 0), (2, 0), (-1, 0), (2, 0)],
            Facing::East => seq![(-1, 0), (0, 0), (0, 0), (0, 1), (0, -2)],
            Facing::South => seq![(-1, 1), (1, 1), (-2, 1), (1, 0), (-2, 0)],
            Facing::West => seq![(0, 1), (0, 1), (0, 1), (0, -1), (0, 2)],
        },
        _ => match facing {
            Facing::North => seq![(0, 0), (0, 0), (0, 0), (0, 0), (0, 0)],
            Facing::East => seq![(0, 0), (1, 0), (1, -1), (0, 2), (1, 2)],
            Facing::South => seq![(0, 0), (0, 0), (0, 0), (0, 0), (0, 0)],
            Facing::West => seq![(0, 0), (-1, 0), (-1, -1), (0, 2), (-1, 2)],
        },
    }
}

/// The displacements tried, in order, when a piece of `kind` turns from
/// `origin` to `target`: for each column of the kick table, the origin row's
/// entry minus the target row's entry.
pub open spec fn kick_offsets(kind: TetriminoType, origin: Facing, target: Facing) -> Seq<(i32, i32)> {
    let from = offset_row(kind, origin);
    let to = offset_row(kind, target);
    Seq::new(from.len(), |i: int| ((from[i].0 - to[i].0) as i32, (from[i].1 - to[i].1) as i32))
}

impl TetriminoType {
    /// Row `facing` of this kind's kick table.
    fn offset_row(&self, facing: Facing) -> (r: Vec<(i32, i32)>)
        ensures
            r@.len() == offset_row(*self, facing).len(),
            forall|i: int|
                0 <= i < r@.len() ==> r@[i].0 == offset_row(*self, facing)[i].0 && r@[i].1
                    == offset_row(*self, facing)[i].1,
    {
        let r = match self {
            Self::O => match facing {
                Facing::North => vec![(0, 0)],
                Facing::East => vec![(0, -1)],
                Facing::South => vec![(-1, -1)],
                Facing::West => vec![(-1, 0)],
            },
            Self::I => match facing {
                Facing::North => vec![(0, 0), (-1, 0), (2, 0), (-1, 0), (2, 0)],
                Facing::East => vec![(-1, 0), (0, 0), (0, 0), (0, 1), (0, -2)],
                Facing::South => vec![(-1, 1), (1, 1), (-2, 1), (1, 0), (-2, 0)],
                Facing::West => vec![(0, 1), (0, 1), (0, 1), (0, -1), (0, 2)],
            },
            _ => match facing {
                Facing::North => vec![(0, 0), (0, 0), (0, 0), (0, 0), (0, 0)],
                Facing::East => vec![(0, 0), (1, 0), (1, -1), (0, 2), (1, 2)],
                Facing::South => vec![(0, 0), (0, 0), (0, 0), (0, 0), (0, 0)],
                Facing::West => vec![(0, 0), (-1, 0), (-1, -1), (0, 2), (-1, 2)],
            },
        };
        r
    }

    /// Returns a [`Vec`] of offsets for the type of Tetrimino
    ///
    /// Offsets should be tried sequentially
    pub fn get_offset_data(&self, origin_rotation: Facing, target_rotation: Facing) -> (r: Vec<
        (i32, i32),
    >)
        ensures
            r@ == kick_offsets(*self, origin_rotation, target_rotation),
    {
        let origin = self.offset_row(origin_rotation);
        let target = self.offset_row(target_rotation);
        let mut offsets: Vec<(i32, i32)> = Vec::new();
        let mut i: usize = 0;
        while i < origin.len()
            invariant
                origin@.len() == offset_row(*self, origin_rotation).len(),
                target@.len() == offset_row(*self, target_rotation).len(),
                origin@.len() == target@.len(),
                forall|k: int|
                    0 <= k < origin@.len() ==> origin@[k].0 == offset_row(*self, origin_rotation)[k].0
                        && origin@[k].1 == offset_row(*self, origin_rotation)[k].1,
                forall|k: int|
                    0 <= k < target@.len() ==> target@[k].0 == offset_row(*self, target_rotation)[k].0
                        && target@[k].1 == offset_row(*self, target_rotation)[k].1,
                forall|k: int| 0 <= k < origin@.len() ==> -2 <= #[trigger] origin@[k].0 <= 2 && -2 <= origin@[k].1 <= 2,
                forall|k: int| 0 <= k < target@.len() ==> -2 <= #[trigger] target@[k].0 <= 2 && -2 <= target@[k].1 <= 2,
                i <= origin@.len(),
                offsets@ == kick_offsets(*self, origin_rotation, target_rotation).subrange(0, i as int),
            decreases origin.len() - i,
        {
            let (origin_col, origin_row) = origin[i];
            let (target_col, target_row) = target[i];
            offsets.push((origin_col - target_col, origin_row - target_row));
            proof {
                assert(offsets@ =~= kick_offsets(*self, origin_rotation, target_rotation).subrange(
                    0,
                    i + 1,
                ));
            }
            i += 1;
        }
        proof {
            assert(offsets@ =~= kick_offsets(*self, origin_rotation, target_rotation));
        }
        offsets
    }
}

/// One cell of a grid or of a piece: its column, its row and its color (an
/// index into the terminal's palette).
#[derive(Debug, Clone, Copy, PartialEq, Eq, Structural)]
pub struct Mino {
    pub col: i32,
    pub row: i32,
    pub color: u8,
}

/// The seven kinds, each once, in the order O, I, T, L, J, S, Z.
pub fn all_kinds() -> (r: Vec<TetriminoType>)
    ensures
        r@ == kinds_in_order(),
{
    let r = vec![
        TetriminoType::O,
        TetriminoType::I,
        TetriminoType::T,
        TetriminoType::L,
        TetriminoType::J,
        TetriminoType::S,
        TetriminoType::Z,
    ];
    proof {
        assert(r@ =~= kinds_in_order());
    }
    r
}

/// The number of rows of a kind's base shape: four for T, five for the others.
pub open spec fn base_rows(kind: TetriminoType) -> nat {
    if kind == TetriminoType::T {
        4
    } else {
        5
    }
}

/// Whether the cell at `(row, col)` of a kind's base shape (facing North) is
/// part of the piece.
pub open spec fn base_cell(kind: TetriminoType, row: int, col: int) -> bool {
    match kind {
        TetriminoType::O => (row == 1 || row == 2) && (col == 2 || col == 3),
        TetriminoType::I => row == 2 && 1 <= col <= 4,
        TetriminoType::T => (row == 1 && col == 2) || (row == 2 && 1 <= col <= 3),
        TetriminoType::L => (row == 1 && col == 3) || (row == 2 && 1 <= col <= 3),
        TetriminoType::J => (row == 1 && col == 1) || (row == 2 && 1 <= col <= 3),
        TetriminoType::S => (row == 1 && (col == 2 || col == 3)) || (row == 2 && (col == 1 || col
            == 2)),
        TetriminoType::Z => (row == 1 && (col == 1 || col == 2)) || (row == 2 && (col == 2 || col
            == 3)),
    }
}

/// The color of the base-shape cell at `(row, col)`, or nothing.
pub open spec fn base_cell_color(kind: TetriminoType, row: int, col: int) -> Option<u8> {
    if base_cell(kind, row, col) {
        Some(kind_color(kind))
    } else {
        None
    }
}

/// The shape of a kind facing North: five columns, [`base_rows`] rows, and
/// the cells of [`base_cell`] in the kind's color.
pub open spec fn base_shape(kind: TetriminoType) -> MatrixView {
    MatrixView {
        rows: base_rows(kind),
        cols: 5,
        cells: Seq::new(
            base_rows(kind),
            |i: int| Seq::new(5, |j: int| base_cell_color(kind, i, j)),
        ),
        rotation: Facing::North,
    }
}

/// What a [`Tetrimino`] is: its kind, its shape (which carries its facing),
/// and the anchor that places the shape's top-left corner in the field.
pub struct TetriminoView {
    pub kind: TetriminoType,
    pub shape: MatrixView,
    pub col: int,
    pub row: int,
}

/// A freshly spawned piece of `kind`: its base shape, facing North, anchored
/// at its spawn column in the top row.
pub open spec fn spawned(kind: TetriminoType) -> TetriminoView {
    TetriminoView {
        kind,
        shape: base_shape(kind),
        col: spawn_col(kind),
        row: MATRIX_HEIGHT - 1,
    }
}

/// Anchors far enough from the limits of `i32` that every cell of a shape
/// of at most five by five cells has a representable position.
pub open spec fn anchor_in_range(col: int, row: int) -> bool {
    &&& i32::MIN + 8 <= col <= i32::MAX - 8
    &&& i32::MIN + 8 <= row <= i32::MAX - 8
}

/// A well-formed piece: a rectangular shape of at most five by five cells and
/// an anchor in range.
pub open spec fn piece_wf(p: TetriminoView) -> bool {
    &&& view_wf(p.shape)
    &&& p.shape.rows <= 5
    &&& p.shape.cols <= 5
    &&& anchor_in_range(p.col, p.row)
}

/// The field position of a shape cell for a piece anchored at `(col, row)`:
/// columns grow rightward in both, rows grow downward in the shape and upward
/// in the field.
pub open spec fn placed(m: Mino, col: int, row: int) -> Mino {
    Mino { col: (col + m.col) as i32, row: (row - m.row) as i32, color: m.color }
}

/// The piece's cells in the field, in the shape's row-by-row order.
pub open spec fn piece_minos(p: TetriminoView) -> Seq<Mino> {
    grid_minos(p.shape).map_values(|m: Mino| placed(m, p.col, p.row))
}

/// Whether the cell `m`, translated by the offsets, leaves the gameplay
/// bounds or lands on an occupied cell of the field.
pub open spec fn offends(m: Mino, col_offset: int, row_offset: int, field: MatrixView) -> bool {
    let col = m.col + col_offset;
    let row = m.row + row_offset;
    outside_bounds(col, row) || (row < field.rows && col < field.cols
        && field.cells[row][col] is Some)
}

/// [`offends`] as a predicate on cells.
pub open spec fn offends_at(col_offset: int, row_offset: int, field: MatrixView) -> spec_fn(
    Mino,
) -> bool {
    |m: Mino| offends(m, col_offset, row_offset, field)
}

/// The piece's cells that would offend after the translation, in order.
pub open spec fn offending_minos(
    p: TetriminoView,
    col_offset: int,
    row_offset: int,
    field: MatrixView,
) -> Seq<Mino> {
    piece_minos(p).filter(offends_at(col_offset, row_offset, field))
}

/// Whether a move by the offsets succeeds: no cell offends, and the new
/// anchor stays in range.
pub open spec fn can_move(p: TetriminoView, col_offset: int, row_offset: int, field: MatrixView) -> bool {
    offending_minos(p, col_offset, row_offset, field).len() == 0 && anchor_in_range(
        p.col + col_offset,
        p.row + row_offset,
    )
}

/// The piece with its anchor translated.
pub open spec fn moved(p: TetriminoView, col_offset: int, row_offset: int) -> TetriminoView {
    TetriminoView { col: p.col + col_offset, row: p.row + row_offset, ..p }
}

/// The piece with its shape turned, before any kick.
pub open spec fn rotated_piece(p: TetriminoView, direction: RotationDirection) -> TetriminoView {
    TetriminoView { shape: rotate_view(p.shape, direction), ..p }
}

/// The kick offsets tried when `p` turns in `direction`.
pub open spec fn rotation_kicks(p: TetriminoView, direction: RotationDirection) -> Seq<(i32, i32)> {
    kick_offsets(p.kind, p.shape.rotation, facing_after(p.shape.rotation, direction))
}

/// The first index from `k` on whose offset `p` can move by, if any.
pub open spec fn first_fit(p: TetriminoView, offsets: Seq<(i32, i32)>, field: MatrixView, k: int) -> Option<
    int,
>
    decreases offsets.len() - k,
{
    if k < 0 || k >= offsets.len() {
        None
    } else if can_move(p, offsets[k].0 as int, offsets[k].1 as int, field) {
        Some(k)
    } else {
        first_fit(p, offsets, field, k + 1)
    }
}

/// The kick candidate that a rotation of `p` in `direction` applies: the
/// first under which the turned shape fits.
pub open spec fn kick_index(p: TetriminoView, direction: RotationDirection, field: MatrixView) -> Option<int> {
    first_fit(rotated_piece(p, direction), rotation_kicks(p, direction), field, 0)
}

/// The piece turned in `direction` and moved by kick candidate `k`.
pub open spec fn kicked(p: TetriminoView, direction: RotationDirection, k: int) -> TetriminoView {
    let offset = rotation_kicks(p, direction)[k];
    moved(rotated_piece(p, direction), offset.0 as int, offset.1 as int)
}

/// A move that would carry any cell of the piece left of the field, right of
/// it, or below it is refused (and a refused move leaves the piece as it was,
/// see [`Tetrimino::move_position`]).
pub proof fn lemma_out_of_bounds_move_refused(
    p: TetriminoView,
    col_offset: int,
    row_offset: int,
    field: MatrixView,
    i: int,
)
    requires
        0 <= i < piece_minos(p).len(),
        outside_bounds(piece_minos(p)[i].col + col_offset, piece_minos(p)[i].row + row_offset),
    ensures
        !can_move(p, col_offset, row_offset, field),
{
    piece_minos(p).lemma_filter_contains(offends_at(col_offset, row_offset, field), i);
}

/// A cell of the piece that lies on an occupied cell of the field is
/// reported among the offending cells of a move by zero.
pub proof fn lemma_stack_collision_reported(p: TetriminoView, field: MatrixView, i: int)
    requires
        0 <= i < piece_minos(p).len(),
        0 <= piece_minos(p)[i].row < field.rows,
        0 <= piece_minos(p)[i].col < field.cols,
        field.cells[piece_minos(p)[i].row as int][piece_minos(p)[i].col as int] is Some,
    ensures
        offending_minos(p, 0, 0, field).contains(piece_minos(p)[i]),
{
    piece_minos(p).lemma_filter_contains(offends_at(0, 0, field), i);
}

/// When the first two kick candidates of a turn do not fit and the third
/// does, the turn applies the third candidate's offset.
pub proof fn lemma_third_kick_applies(p: TetriminoView, direction: RotationDirection, field: MatrixView)
    requires
        rotation_kicks(p, direction).len() > 2,
        !can_move(
            rotated_piece(p, direction),
            rotation_kicks(p, direction)[0].0 as int,
            rotation_kicks(p, direction)[0].1 as int,
            field,
        ),
        !can_move(
            rotated_piece(p, direction),
            rotation_kicks(p, direction)[1].0 as int,
            rotation_kicks(p, direction)[1].1 as int,
            field,
        ),
        can_move(
            rotated_piece(p, direction),
            rotation_kicks(p, direction)[2].0 as int,
            rotation_kicks(p, direction)[2].1 as int,
            field,
        ),
    ensures
        kick_index(p, direction, field) == Some(2int),
        kicked(p, direction, 2) == moved(
            rotated_piece(p, direction),
            rotation_kicks(p, direction)[2].0 as int,
            rotation_kicks(p, direction)[2].1 as int,
        ),
{
    let q = rotated_piece(p, direction);
    let offsets = rotation_kicks(p, direction);
    assert(first_fit(q, offsets, field, 2) == Some(2int));
    assert(first_fit(q, offsets, field, 1) == Some(2int));
    assert(first_fit(q, offsets, field, 0) == Some(2int));
}

/// Four clockwise turns that each fit at their first kick candidate bring a
/// piece back to its shape, its facing and its anchor.
pub proof fn lemma_four_turns_round_trip(p: TetriminoView, field: MatrixView)
    requires
        piece_wf(p),
        kick_index(p, RotationDirection::Clockwise, field) == Some(0int),
        kick_index(kicked(p, RotationDirection::Clockwise, 0), RotationDirection::Clockwise, field)
            == Some(0int),
        kick_index(
            kicked(kicked(p, RotationDirection::Clockwise, 0), RotationDirection::Clockwise, 0),
            RotationDirection::Clockwise,
            field,
        ) == Some(0int),
        kick_index(
            kicked(
                kicked(kicked(p, RotationDirection::Clockwise, 0), RotationDirection::Clockwise, 0),
                RotationDirection::Clockwise,
                0,
            ),
            RotationDirection::Clockwise,
            field,
        ) == Some(0int),
    ensures
        kicked(
            kicked(
                kicked(kicked(p, RotationDirection::Clockwise, 0), RotationDirection::Clockwise, 0),
                RotationDirection::Clockwise,
                0,
            ),
            RotationDirection::Clockwise,
            0,
        ) == p,
{
    let d = RotationDirection::Clockwise;
    let p1 = kicked(p, d, 0);
    let p2 = kicked(p1, d, 0);
    let p3 = kicked(p2, d, 0);
    let p4 = kicked(p3, d, 0);
    crate::matrix::lemma_four_quarter_turns(p.shape);
    assert(p4.shape == p.shape);
    assert(p4.col == p.col && p4.row == p.row);
}

/// A piece of the field: a kind, a shape grid with its facing, and an anchor.
#[derive(Debug)]
pub struct Tetrimino {
    // the type of the Tetrimino
    tetrimino_type: TetriminoType,
    /// the grid of minos making up the Tetrimino
    minos: Matrix,
    /// the column of the top-left corner of the bound-box
    col: i32,
    /// the row of the top-left corner of the bound-box
    row: i32,
}

/// The shape of an upcoming piece, shown in slot `index` of the look-ahead
/// panel.
#[derive(Debug)]
pub struct TetriminoPreview {
    /// the grid of minos making up the Tetrimino
    minos: Matrix,
    /// the index of the preview
    index: usize,
}

/// The cells of a preview in slot `index`: the shape's cells, three rows
/// further down per slot.
pub open spec fn preview_minos(shape: MatrixView, index: int) -> Seq<Mino> {
    grid_minos(shape).map_values(
        |m: Mino| Mino { col: m.col, row: (m.row + 3 * index) as i32, color: m.color },
    )
}

impl View for TetriminoPreview {
    type V = (MatrixView, int);

    closed spec fn view(&self) -> (MatrixView, int) {
        (self.minos@, self.index as int)
    }
}

impl TetriminoPreview {
    /// A shape of at most five by five cells, in a slot whose rows fit `i32`.
    pub open spec fn wf(&self) -> bool {
        &&& view_wf(self@.0)
        &&& self@.0.rows <= 5
        &&& self@.0.cols <= 5
        &&& 3 * self@.1 + 4 <= i32::MAX
    }
}

impl MinoGrid for TetriminoPreview {
    open spec fn minos_ready(&self) -> bool {
        self.wf()
    }

    fn get_minos(&self) -> (r: Vec<Mino>)
        ensures
            r@ == preview_minos(self@.0, self@.1),
    {
        let shape_minos = self.minos.get_minos();
        proof {
            lemma_grid_minos_in_grid(self.minos@);
        }
        let offset: i32 = 3 * self.index as i32;
        let mut minos: Vec<Mino> = Vec::new();
        let mut k: usize = 0;
        while k < shape_minos.len()
            invariant
                self.wf(),
                offset == 3 * self@.1,
                shape_minos@ == grid_minos(self.minos@),
                forall|i: int|
                    0 <= i < shape_minos@.len() ==> {
                        let m = #[trigger] shape_minos@[i];
                        &&& 0 <= m.row < 5
                        &&& 0 <= m.col < 5
                    },
                k <= shape_minos.len(),
                minos@ == preview_minos(self@.0, self@.1).subrange(0, k as int),
            decreases shape_minos.len() - k,
        {
            let mino = shape_minos[k];
            minos.push(Mino { col: mino.col, row: mino.row + offset, color: mino.color });
            proof {
                assert(minos@ =~= preview_minos(self@.0, self@.1).subrange(0, k + 1));
            }
            k += 1;
        }
        proof {
            assert(minos@ =~= preview_minos(self@.0, self@.1));
        }
        minos
    }
}

impl View for Tetrimino {
    type V = TetriminoView;

    closed spec fn view(&self) -> TetriminoView {
        TetriminoView {
            kind: self.tetrimino_type,
            shape: self.minos@,
            col: self.col as int,
            row: self.row as int,
        }
    }
}

impl Clone for Tetrimino {
    fn clone(&self) -> (r: Self)
        ensures
            r@ == self@,
    {
        Tetrimino {
            tetrimino_type: self.tetrimino_type,
            minos: self.minos.clone(),
            col: self.col,
            row: self.row,
        }
    }
}

impl PartialEq for Tetrimino {
    fn eq(&self, other: &Tetrimino) -> (r: bool) {
        self.tetrimino_type == other.tetrimino_type && self.col == other.col && self.row
            == other.row && self.minos == other.minos
    }
}

impl vstd::std_specs::cmp::PartialEqSpecImpl for Tetrimino {
    open spec fn obeys_eq_spec() -> bool {
        true
    }

    open spec fn eq_spec(&self, other: &Tetrimino) -> bool {
        self@ == other@
    }
}

impl MinoGrid for Tetrimino {
    open spec fn minos_ready(&self) -> bool {
        self.wf()
    }

    fn get_minos(&self) -> (r: Vec<Mino>)
        ensures
            r@ == piece_minos(self@),
    {
        let shape_minos = self.minos.get_minos();
        proof {
            lemma_grid_minos_in_grid(self.minos@);
        }
        let mut minos: Vec<Mino> = Vec::new();
        let mut k: usize = 0;
        while k < shape_minos.len()
            invariant
                self.wf(),
                shape_minos@ == grid_minos(self.minos@),
                forall|i: int|
                    0 <= i < shape_minos@.len() ==> {
                        let m = #[trigger] shape_minos@[i];
                        &&& 0 <= m.row < 5
                        &&& 0 <= m.col < 5
                    },
                k <= shape_minos.len(),
                minos@ == piece_minos(self@).subrange(0, k as int),
            decreases shape_minos.len() - k,
        {
            let mino = shape_minos[k];
            minos.push(Mino { col: self.col + mino.col, row: self.row - mino.row, color: mino.color });
            proof {
                assert(minos@ =~= piece_minos(self@).subrange(0, k + 1));
            }
            k += 1;
        }
        proof {
            assert(minos@ =~= piece_minos(self@));
        }
        minos
    }
}

/// Whether the cell at `(row, col)` of `kind`'s base shape is part of it.
fn occupies(kind: TetriminoType, row: usize, col: usize) -> (r: bool)
    ensures
        r == base_cell(kind, row as int, col as int),
{
    match kind {
        TetriminoType::O => (row == 1 || row == 2) && (col == 2 || col == 3),
        TetriminoType::I => row == 2 && 1 <= col && col <= 4,
        TetriminoType::T => (row == 1 && col == 2) || (row == 2 && 1 <= col && col <= 3),
        TetriminoType::L => (row == 1 && col == 3) || (row == 2 && 1 <= col && col <= 3),
        TetriminoType::J => (row == 1 && col == 1) || (row == 2 && 1 <= col && col <= 3),
        TetriminoType::S => (row == 1 && (col == 2 || col == 3)) || (row == 2 && (col == 1 || col
            == 2)),
        TetriminoType::Z => (row == 1 && (col == 1 || col == 2)) || (row == 2 && (col == 2 || col
            == 3)),
    }
}

impl Tetrimino {
    /// A well-formed piece (see [`piece_wf`]).
    pub open spec fn wf(&self) -> bool {
        piece_wf(self@)
    }

    /// Create a new Tetrimino
    pub fn new(tetrimino_type: TetriminoType) -> (r: Tetrimino)
        ensures
            r.wf(),
            r@ == spawned(tetrimino_type),
    {
        let (col, row) = get_spawn_point(tetrimino_type);
        let rows: usize = match tetrimino_type {
            TetriminoType::T => 4,
            _ => 5,
        };
        let cols: usize = 5;
        let color: u8 = match tetrimino_type {
            TetriminoType::O => O_COLOR,
            TetriminoType::I => I_COLOR,
            TetriminoType::T => T_COLOR,
            TetriminoType::L => L_COLOR,
            TetriminoType::J => J_COLOR,
            TetriminoType::S => S_COLOR,
            TetriminoType::Z => Z_COLOR,
        };
        let mut grid = grid_new(rows, cols);
        let ghost f = |a: int, b: int| base_cell_color(tetrimino_type, a, b);
        proof {
            assert(grid_contents(grid) =~~= partial_table(rows as nat, cols as nat, 0, 0, f));
        }
        let mut i: usize = 0;
        while i < rows
            invariant
                rows == base_rows(tetrimino_type),
                cols == 5,
                color == kind_color(tetrimino_type),
                i <= rows,
                f == (|a: int, b: int| base_cell_color(tetrimino_type, a, b)),
                grid_contents(grid) == partial_table(rows as nat, cols as nat, i as int, 0, f),
            decreases rows - i,
        {
            let mut j: usize = 0;
            while j < cols
                invariant
                    rows == base_rows(tetrimino_type),
                    cols == 5,
                    color == kind_color(tetrimino_type),
                    i < rows,
                    j <= cols,
                    f == (|a: int, b: int| base_cell_color(tetrimino_type, a, b)),
                    grid_contents(grid) == partial_table(rows as nat, cols as nat, i as int, j as int, f),
                decreases cols - j,
            {
                if occupies(tetrimino_type, i, j) {
                    grid_set(&mut grid, i, j, Some(color));
                }
                proof {
                    assert(grid_contents(grid) =~~= partial_table(
                        rows as nat,
                        cols as nat,
                        i as int,
                        j + 1,
                        f,
                    ));
                }
                j += 1;
            }
            proof {
                assert(partial_table(rows as nat, cols as nat, i as int, cols as int, f) =~~= partial_table(
                    rows as nat,
                    cols as nat,
                    i + 1,
                    0,
                    f,
                ));
            }
            i += 1;
        }
        proof {
            assert(grid_contents(grid) =~~= base_shape(tetrimino_type).cells);
        }
        let minos = Matrix::from(grid);
        proof {
            assert(minos@ == base_shape(tetrimino_type));
        }
        Tetrimino { tetrimino_type, minos, col, row }
    }

    /// Return a [`Vec`] of all Tetriminos, one of each kind in the order of
    /// [`all_kinds`].
    pub fn all() -> (r: Vec<Tetrimino>)
        ensures
            r@.len() == 7,
            forall|i: int| 0 <= i < 7 ==> (#[trigger] r@[i]).wf() && r@[i]@ == spawned(kinds_in_order()[i]),
    {
        let kinds = all_kinds();
        let mut pieces: Vec<Tetrimino> = Vec::new();
        let mut k: usize = 0;
        while k < kinds.len()
            invariant
                kinds@ == kinds_in_order(),
                k <= kinds@.len(),
                pieces@.len() == k,
                forall|i: int| 0 <= i < k ==> (#[trigger] pieces@[i]).wf() && pieces@[i]@ == spawned(kinds_in_order()[i]),
            decreases kinds.len() - k,
        {
            pieces.push(Tetrimino::new(kinds[k]));
            k += 1;
        }
        pieces
    }

    /// The piece's shape shown in slot `index` of the look-ahead panel.
    pub fn preview(&self, index: usize) -> (r: TetriminoPreview)
        requires
            self.wf(),
            3 * index + 4 <= i32::MAX,
        ensures
            r.wf(),
            r@ == (self@.shape, index as int),
    {
        TetriminoPreview { minos: self.minos.clone(), index }
    }

    /// The piece's kind.
    pub fn kind(&self) -> (r: TetriminoType)
        ensures
            r == self@.kind,
    {
        self.tetrimino_type
    }

    /// The piece's facing.
    pub fn facing(&self) -> (r: Facing)
        ensures
            r == self@.shape.rotation,
    {
        self.minos.facing()
    }

    /// The piece's anchor, `(col, row)`.
    pub fn position(&self) -> (r: (i32, i32))
        ensures
            r.0 == self@.col,
            r.1 == self@.row,
    {
        (self.col, self.row)
    }

    /// The piece's current shape grid.
    pub fn shape(&self) -> (r: &Matrix)
        ensures
            r@ == self@.shape,
    {
        &self.minos
    }

    /// Check if the any mino is either:
    ///
    /// 1. outside the bounds of the board
    /// 2. colliding with another mino
    ///
    /// after moved by `col_offset` and `row_offset`
    ///
    /// [`None`] indicates the position is valid.
    /// If [`Some`], it holds every offending mino (at its position before the
    /// move), so never none.
    pub fn position_invalid(&self, col_offset: i32, row_offset: i32, matrix: &Matrix) -> (r: Option<
        Vec<Mino>,
    >)
        requires
            self.wf(),
            matrix.wf(),
            matrix.fits_minos(),
        ensures
            r is None <==> offending_minos(self@, col_offset as int, row_offset as int, matrix@).len()
                == 0,
            r matches Some(v) ==> v@ == offending_minos(self@, col_offset as int, row_offset as int, matrix@),
    {
        let minos = self.get_minos();
        let ghost pred = offends_at(col_offset as int, row_offset as int, matrix@);
        let mut invalid: Vec<Mino> = Vec::new();
        let mut k: usize = 0;
        while k < minos.len()
            invariant
                matrix.wf(),
                matrix.fits_minos(),
                minos@ == piece_minos(self@),
                pred == offends_at(col_offset as int, row_offset as int, matrix@),
                k <= minos@.len(),
                invalid@ == minos@.subrange(0, k as int).filter(pred),
            decreases minos.len() - k,
        {
            let mino = minos[k];
            let col: i64 = mino.col as i64 + col_offset as i64;
            let row: i64 = mino.row as i64 + row_offset as i64;
            let out_of_bounds = position_outside_bounds(col, row);
            let board_collision = !out_of_bounds && matrix.get_mino(row as usize, col as usize).is_some();
            if out_of_bounds || board_collision {
                invalid.push(mino);
            }
            proof {
                reveal(Seq::filter);
                assert(minos@.subrange(0, k + 1).drop_last() =~= minos@.subrange(0, k as int));
                assert(pred(mino) == (out_of_bounds || board_collision));
            }
            k += 1;
        }
        proof {
            assert(minos@.subrange(0, minos@.len() as int) =~= minos@);
        }
        if invalid.len() == 0 {
            None
        } else {
            Some(invalid)
        }
    }

    /// Move the Tetrimino by `col` and `row`
    ///
    /// Returns `true` if the move was successful,
    /// `false` if the position would be invalid after the move; the piece is
    /// then left exactly as it was.
    pub fn move_position(&mut self, col: i32, row: i32, matrix: &Matrix) -> (r: bool)
        requires
            old(self).wf(),
            matrix.wf(),
            matrix.fits_minos(),
        ensures
            final(self).wf(),
            r == can_move(old(self)@, col as int, row as int, matrix@),
            r ==> final(self)@ == moved(old(self)@, col as int, row as int),
            !r ==> *final(self) == *old(self),
    {
        // check if position would be invalid
        if self.position_invalid(col, row, matrix).is_some() {
            return false;
        }
        let new_col: i64 = self.col as i64 + col as i64;
        let new_row: i64 = self.row as i64 + row as i64;
        if new_col < i32::MIN as i64 + 8 || new_col > i32::MAX as i64 - 8 || new_row < i32::MIN
            as i64 + 8 || new_row > i32::MAX as i64 - 8 {
            return false;
        }
        // move the piece if valid
        self.col = new_col as i32;
        self.row = new_row as i32;
        true
    }

    /// Rotate the Tetrimino
    ///
    /// The turned shape is tried at each kick offset in order, and the first
    /// that fits is kept. Does nothing if none fits.
    pub fn rotate(&mut self, rotation_direction: RotationDirection, matrix: &Matrix) -> (r: bool)
        requires
            old(self).wf(),
            matrix.wf(),
            matrix.fits_minos(),
        ensures
            final(self).wf(),
            r == kick_index(old(self)@, rotation_direction, matrix@) is Some,
            kick_index(old(self)@, rotation_direction, matrix@) matches Some(k) ==> final(self)@
                == kicked(old(self)@, rotation_direction, k),
            !r ==> *final(self) == *old(self),
    {
        proof {
            let rows = self.minos@.rows;
            let cols = self.minos@.cols;
            assert(rows * cols <= 25) by (nonlinear_arith)
                requires
                    rows <= 5,
                    cols <= 5,
            ;
        }
        // make the rotated grid
        let shape = self.minos.rotated(rotation_direction);
        let offsets = self.tetrimino_type.get_offset_data(self.minos.facing(), shape.facing());
        let mut candidate = Tetrimino {
            tetrimino_type: self.tetrimino_type,
            minos: shape,
            col: self.col,
            row: self.row,
        };
        let ghost turned = candidate@;
        proof {
            assert(turned == rotated_piece(self@, rotation_direction));
        }
        // Super-Rotation-System uses an offset table to try and place Tetrimino
        let mut k: usize = 0;
        while k < offsets.len()
            invariant
                *self == *old(self),
                matrix.wf(),
                matrix.fits_minos(),
                candidate.wf(),
                candidate@ == turned,
                turned == rotated_piece(old(self)@, rotation_direction),
                offsets@ == rotation_kicks(old(self)@, rotation_direction),
                k <= offsets@.len(),
                first_fit(turned, offsets@, matrix@, 0) == first_fit(turned, offsets@, matrix@, k as int),
            decreases offsets.len() - k,
        {
            let (col, row) = offsets[k];
            if candidate.move_position(col, row, matrix) {
                // position is okay
                *self = candidate;
                return true;
            }
            k += 1;
        }
        // rotation is impossible, the piece is left as it was
        false
    }
}

} // verus!
