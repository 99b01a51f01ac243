use tetris::game_handler::RotationDirection;
use tetris::matrix::{
    position_outside_bounds, position_outside_render_bounds, GridRotation, Matrix, MinoGrid,
};
use tetris::tetramino::{Facing, Mino};

fn mino(col: i32, row: i32, color: u8) -> Mino {
    Mino { col, row, color }
}

#[test]
fn new_matrix_is_empty() {
    let m = Matrix::new(20, 10, Facing::North);
    assert_eq!(m.size(), (20, 10));
    assert_eq!(m.facing(), Facing::North);
    assert!(m.get_minos().is_empty());
    for row in 0..20 {
        for col in 0..10 {
            assert_eq!(m.get_mino(row, col), None);
        }
    }
}

#[test]
fn set_then_get_mino() {
    let mut m = Matrix::new(20, 10, Facing::North);
    m.set_mino(mino(3, 7, 42));
    assert_eq!(m.get_mino(7, 3), Some(mino(3, 7, 42)));
    assert_eq!(m.get_mino(3, 7), None);
    assert_eq!(m.get_minos(), vec![mino(3, 7, 42)]);
}

#[test]
fn set_mino_outside_render_bounds_is_discarded() {
    let mut m = Matrix::new(20, 10, Facing::North);
    let before = m.clone();
    m.set_mino(mino(3, 20, 1));
    m.set_mino(mino(-1, 0, 1));
    m.set_mino(mino(10, 0, 1));
    m.set_mino(mino(0, -1, 1));
    assert_eq!(m, before);
    assert!(m.get_minos().is_empty());
}

#[test]
fn get_minos_is_row_major() {
    let mut m = Matrix::new(20, 10, Facing::North);
    m.set_mino(mino(9, 1, 3));
    m.set_mino(mino(2, 0, 2));
    m.set_mino(mino(0, 1, 1));
    assert_eq!(m.get_minos(), vec![mino(2, 0, 2), mino(0, 1, 1), mino(9, 1, 3)]);
}

#[test]
fn get_matrix_copies_cells() {
    let mut m = Matrix::new(20, 10, Facing::North);
    m.set_mino(mino(4, 5, 9));
    let g = m.get_matrix();
    assert_eq!(g.size(), (20, 10));
    assert_eq!(g[(5, 4)], Some(9));
    assert_eq!(g[(4, 5)], None);
}

#[test]
fn matrix_from_grid() {
    let g = grid::Grid::from_vec(vec![None, Some(5), None, None, Some(6), None], 3);
    let m = Matrix::from(g);
    assert_eq!(m.size(), (2, 3));
    assert_eq!(m.facing(), Facing::North);
    assert_eq!(m.get_mino(0, 1), Some(mino(1, 0, 5)));
    assert_eq!(m.get_mino(1, 1), Some(mino(1, 1, 6)));
    assert_eq!(m.get_mino(0, 0), None);
}

#[test]
fn clockwise_rotation_moves_cells() {
    // cell (row 0, col 0) of a 2 x 3 grid goes to (col, rows - row - 1) = (0, 1)
    let g = grid::Grid::from_vec(vec![Some(1), None, None, None, None, Some(2)], 3);
    let m = Matrix::from(g);
    let r = m.rotated(RotationDirection::Clockwise);
    assert_eq!(r.size(), (3, 2));
    assert_eq!(r.facing(), Facing::East);
    assert_eq!(r.get_mino(0, 1), Some(mino(1, 0, 1)));
    assert_eq!(r.get_mino(2, 0), Some(mino(0, 2, 2)));
    assert_eq!(r.get_minos().len(), 2);
}

#[test]
fn counterclockwise_rotation_moves_cells() {
    // cell (row 0, col 0) of a 2 x 3 grid goes to (cols - col - 1, row) = (2, 0)
    let g = grid::Grid::from_vec(vec![Some(1), None, None, None, None, Some(2)], 3);
    let m = Matrix::from(g);
    let r = m.rotated(RotationDirection::Counterclockwise);
    assert_eq!(r.size(), (3, 2));
    assert_eq!(r.facing(), Facing::West);
    assert_eq!(r.get_mino(2, 0), Some(mino(0, 2, 1)));
    assert_eq!(r.get_mino(0, 1), Some(mino(1, 0, 2)));
}

#[test]
fn four_quarter_turns_restore_matrix() {
    let g = grid::Grid::from_vec(vec![Some(1), None, Some(3), None, None, Some(2)], 3);
    let m = Matrix::from(g);
    let mut r = m.clone();
    for _ in 0..4 {
        r = r.rotated(RotationDirection::Clockwise);
    }
    assert_eq!(r, m);
    let back = m
        .rotated(RotationDirection::Clockwise)
        .rotated(RotationDirection::Counterclockwise);
    assert_eq!(back, m);
}

#[test]
fn matrices_with_different_cells_differ() {
    let a = Matrix::new(2, 2, Facing::North);
    let mut b = Matrix::new(20, 10, Facing::North);
    assert_ne!(a, b.clone());
    let c = b.clone();
    b.set_mino(mino(0, 0, 1));
    assert_ne!(b, c);
}

#[test]
fn gameplay_and_render_bounds() {
    assert!(position_outside_bounds(-1, 0));
    assert!(position_outside_bounds(10, 0));
    assert!(position_outside_bounds(0, -1));
    assert!(!position_outside_bounds(9, 25));
    assert!(!position_outside_bounds(0, 0));
    assert!(position_outside_render_bounds(9, 20));
    assert!(position_outside_render_bounds(-1, 5));
    assert!(!position_outside_render_bounds(9, 19));
}
