use tetris::game_handler::RotationDirection;
use tetris::matrix::{GridRotation, Matrix, MinoGrid, MATRIX_HEIGHT, MATRIX_WIDTH};
use tetris::tetramino::{all_kinds, Facing, Mino, Tetrimino, TetriminoType, T_COLOR};

fn empty_field() -> Matrix {
    Matrix::new(MATRIX_HEIGHT as usize, MATRIX_WIDTH as usize, Facing::North)
}

fn mino(col: i32, row: i32, color: u8) -> Mino {
    Mino { col, row, color }
}

/// A T piece moved from its spawn point to the anchor `(col, row)`.
fn t_at(col: i32, row: i32, field: &Matrix) -> Tetrimino {
    let mut t = Tetrimino::new(TetriminoType::T);
    assert!(t.move_position(col - 3, row - 19, field));
    t
}

#[test]
fn facing_cycles_clockwise_and_back() {
    let cw = RotationDirection::Clockwise;
    let ccw = RotationDirection::Counterclockwise;
    assert_eq!(Facing::North.rotated(cw), Facing::East);
    assert_eq!(Facing::East.rotated(cw), Facing::South);
    assert_eq!(Facing::South.rotated(cw), Facing::West);
    assert_eq!(Facing::West.rotated(cw), Facing::North);
    assert_eq!(Facing::North.rotated(ccw), Facing::West);
    assert_eq!(Facing::West.rotated(ccw), Facing::South);
    assert_eq!(Facing::South.rotated(ccw), Facing::East);
    assert_eq!(Facing::East.rotated(ccw), Facing::North);
}

#[test]
fn every_kind_spawns_with_four_cells_facing_north() {
    for kind in all_kinds() {
        let piece = Tetrimino::new(kind);
        assert_eq!(piece.get_minos().len(), 4);
        assert_eq!(piece.facing(), Facing::North);
        assert_eq!(piece.kind(), kind);
        let expected_col = if kind == TetriminoType::O { 4 } else { 3 };
        assert_eq!(piece.position(), (expected_col, 19));
    }
}

#[test]
fn t_piece_cells_at_spawn() {
    let t = Tetrimino::new(TetriminoType::T);
    assert_eq!(
        t.get_minos(),
        vec![mino(5, 18, T_COLOR), mino(4, 17, T_COLOR), mino(5, 17, T_COLOR), mino(6, 17, T_COLOR)]
    );
    assert_eq!(t.shape().size(), (4, 5));
}

#[test]
fn all_pieces_in_kind_order() {
    let pieces = Tetrimino::all();
    let kinds: Vec<TetriminoType> = pieces.iter().map(|p| p.kind()).collect();
    assert_eq!(
        kinds,
        vec![
            TetriminoType::O,
            TetriminoType::I,
            TetriminoType::T,
            TetriminoType::L,
            TetriminoType::J,
            TetriminoType::S,
            TetriminoType::Z
        ]
    );
}

#[test]
fn kick_offsets_of_each_table() {
    assert_eq!(
        TetriminoType::T.get_offset_data(Facing::North, Facing::East),
        vec![(0, 0), (-1, 0), (-1, 1), (0, -2), (-1, -2)]
    );
    assert_eq!(
        TetriminoType::I.get_offset_data(Facing::North, Facing::East),
        vec![(1, 0), (-1, 0), (2, 0), (-1, -1), (2, 2)]
    );
    assert_eq!(TetriminoType::O.get_offset_data(Facing::North, Facing::East), vec![(0, 1)]);
    assert_eq!(
        TetriminoType::Z.get_offset_data(Facing::West, Facing::North),
        vec![(0, 0), (-1, 0), (-1, -1), (0, 2), (-1, 2)]
    );
}

#[test]
fn moves_outside_the_walls_or_floor_are_refused() {
    let field = empty_field();
    let mut t = Tetrimino::new(TetriminoType::T);
    assert!(!t.move_position(-5, 0, &field));
    assert!(!t.move_position(4, 0, &field));
    assert!(!t.move_position(0, -18, &field));
    assert_eq!(t.position(), (3, 19));
    assert!(t.move_position(-4, 0, &field));
    assert_eq!(t.position(), (-1, 19));
    assert!(t.move_position(7, 0, &field));
    assert_eq!(t.position(), (6, 19));
    assert!(t.move_position(0, -17, &field));
    assert_eq!(t.position(), (6, 2));
}

#[test]
fn no_ceiling_above_the_field() {
    let field = empty_field();
    let mut t = Tetrimino::new(TetriminoType::T);
    assert!(t.move_position(0, 5, &field));
    assert_eq!(t.position(), (3, 24));
}

#[test]
fn failed_move_leaves_piece_unchanged() {
    let field = empty_field();
    let mut t = t_at(3, 2, &field);
    let before = t.clone();
    assert!(!t.move_position(0, -1, &field));
    assert_eq!(t, before);
}

#[test]
fn failed_rotation_leaves_piece_unchanged() {
    let mut field = empty_field();
    let t0 = t_at(3, 2, &Matrix::new(20, 10, Facing::North));
    let own = t0.get_minos();
    for row in 0..20 {
        for col in 0..10 {
            if !own.iter().any(|m| m.col == col && m.row == row) {
                field.set_mino(mino(col, row, 1));
            }
        }
    }
    let mut t = t0.clone();
    assert!(!t.rotate(RotationDirection::Clockwise, &field));
    assert_eq!(t, t0);
    assert!(!t.rotate(RotationDirection::Counterclockwise, &field));
    assert_eq!(t, t0);
    assert_eq!(t.facing(), Facing::North);
}

#[test]
fn third_kick_candidate_applies_when_first_two_collide() {
    let field = empty_field();
    let mut t = t_at(3, 2, &field);
    assert!(t.rotate(RotationDirection::Clockwise, &field));
    assert_eq!(t.position(), (2, 3));
    assert_eq!(t.facing(), Facing::East);
    assert_eq!(
        t.get_minos(),
        vec![mino(3, 2, T_COLOR), mino(3, 1, T_COLOR), mino(4, 1, T_COLOR), mino(3, 0, T_COLOR)]
    );
}

#[test]
fn four_clockwise_turns_round_trip() {
    let field = empty_field();
    for kind in all_kinds() {
        let start = Tetrimino::new(kind);
        let mut piece = start.clone();
        for _ in 0..4 {
            assert!(piece.rotate(RotationDirection::Clockwise, &field));
        }
        assert_eq!(piece, start);
        assert_eq!(piece.position(), start.position());
        assert_eq!(piece.facing(), Facing::North);
    }
}

#[test]
fn i_piece_turns_with_first_kick() {
    let field = empty_field();
    let mut i = Tetrimino::new(TetriminoType::I);
    assert!(i.rotate(RotationDirection::Clockwise, &field));
    assert_eq!(i.position(), (4, 19));
    assert_eq!(i.facing(), Facing::East);
    let cols: Vec<i32> = i.get_minos().iter().map(|m| m.col).collect();
    assert_eq!(cols, vec![6, 6, 6, 6]);
}

#[test]
fn collision_with_stack_is_reported() {
    let mut field = empty_field();
    field.set_mino(mino(3, 0, 1));
    let t = t_at(2, 2, &empty_field());
    assert_eq!(
        t.get_minos(),
        vec![mino(4, 1, T_COLOR), mino(3, 0, T_COLOR), mino(4, 0, T_COLOR), mino(5, 0, T_COLOR)]
    );
    assert_eq!(t.position_invalid(0, 0, &field), Some(vec![mino(3, 0, T_COLOR)]));
    assert_eq!(t.position_invalid(0, 1, &field), None);
}

#[test]
fn out_of_bounds_cells_are_all_reported() {
    let field = empty_field();
    let t = Tetrimino::new(TetriminoType::T);
    assert_eq!(
        t.position_invalid(-6, 0, &field),
        Some(vec![mino(5, 18, T_COLOR), mino(4, 17, T_COLOR), mino(5, 17, T_COLOR)])
    );
}

#[test]
fn preview_shifts_three_rows_per_slot() {
    let t = Tetrimino::new(TetriminoType::T);
    assert_eq!(
        t.preview(2).get_minos(),
        vec![mino(2, 7, T_COLOR), mino(1, 8, T_COLOR), mino(2, 8, T_COLOR), mino(3, 8, T_COLOR)]
    );
}

#[test]
fn shape_rotation_swaps_dimensions() {
    let t = Tetrimino::new(TetriminoType::T);
    let turned = t.shape().rotated(RotationDirection::Clockwise);
    assert_eq!(turned.size(), (5, 4));
    assert_eq!(turned.facing(), Facing::East);
}
