use tetris::game::{Game, GameState, NextQueue};
use tetris::game_handler::{Message, Movement, RotationDirection};
use tetris::matrix::{Matrix, MinoGrid};
use tetris::tetramino::{all_kinds, Facing, Mino, Tetrimino, TetriminoType, I_COLOR, T_COLOR};

fn kind_index(kind: TetriminoType) -> usize {
    all_kinds().iter().position(|k| *k == kind).unwrap()
}

fn t_game_at_origin() -> Game {
    let matrix = Matrix::new(20, 10, Facing::North);
    let mut tetrimino = Tetrimino::new(TetriminoType::T);
    assert!(tetrimino.move_position(-1, -17, &matrix));
    Game { tetrimino, matrix }
}

#[test]
fn locking_stamps_cells_and_spawns_next_kind() {
    let mut game = t_game_at_origin();
    let cells: Vec<(i32, i32)> = game.tetrimino.get_minos().iter().map(|m| (m.col, m.row)).collect();
    assert_eq!(cells, vec![(4, 1), (3, 0), (4, 0), (5, 0)]);
    game.next_tetrimino(TetriminoType::I);
    let occupied = game.matrix.get_minos();
    assert_eq!(
        occupied,
        vec![
            Mino { col: 3, row: 0, color: T_COLOR },
            Mino { col: 4, row: 0, color: T_COLOR },
            Mino { col: 5, row: 0, color: T_COLOR },
            Mino { col: 4, row: 1, color: T_COLOR },
        ]
    );
    assert_eq!(game.tetrimino.kind(), TetriminoType::I);
    assert_eq!(game.tetrimino.position(), (3, 19));
    assert_eq!(game.tetrimino.facing(), Facing::North);
    assert_eq!(game.tetrimino, Tetrimino::new(TetriminoType::I));
    let i_cells = game.tetrimino.get_minos();
    assert!(i_cells.iter().all(|m| m.color == I_COLOR && m.row == 17));
}

#[test]
fn locking_above_the_field_discards_cells() {
    let matrix = Matrix::new(20, 10, Facing::North);
    let mut tetrimino = Tetrimino::new(TetriminoType::O);
    assert!(tetrimino.move_position(0, 2, &matrix));
    let mut game = Game { tetrimino, matrix };
    // O at anchor (4, 21): cells in rows 20 and 19, only row 19 is kept
    game.next_tetrimino(TetriminoType::S);
    let rows: Vec<i32> = game.matrix.get_minos().iter().map(|m| m.row).collect();
    assert_eq!(rows, vec![19, 19]);
}

#[test]
fn movements_dispatch_to_the_piece() {
    let mut game = t_game_at_origin();
    assert!(game.apply_movement(Movement::Left));
    assert_eq!(game.tetrimino.position(), (1, 2));
    assert!(game.apply_movement(Movement::Right));
    assert_eq!(game.tetrimino.position(), (2, 2));
    assert!(!game.apply_movement(Movement::Down));
    assert_eq!(game.tetrimino.position(), (2, 2));
    assert!(game.apply_movement(Movement::Rotate(RotationDirection::Clockwise)));
    assert_eq!(game.tetrimino.facing(), Facing::East);
    let before = game.tetrimino.clone();
    assert!(game.apply_movement(Movement::Drop));
    assert_eq!(game.tetrimino, before);
    assert!(game.matrix.get_minos().is_empty());
}

#[test]
fn left_move_blocked_by_wall() {
    let matrix = Matrix::new(20, 10, Facing::North);
    let mut tetrimino = Tetrimino::new(TetriminoType::T);
    assert!(tetrimino.move_position(-4, 0, &matrix));
    let mut game = Game { tetrimino, matrix };
    assert!(!game.apply_movement(Movement::Left));
    assert_eq!(game.tetrimino.position(), (-1, 19));
}

#[test]
fn fresh_game_state() {
    let state = GameState::default();
    assert!(state.running);
    assert!(state.game.matrix.get_minos().is_empty());
    assert_eq!(state.game.matrix.size(), (20, 10));
    let kind = state.game.tetrimino.kind();
    assert_eq!(state.game.tetrimino, Tetrimino::new(kind));
    assert_eq!(state.next_queue.get_queue().len(), 6);
}

#[test]
fn messages_drive_the_state() {
    let mut state = GameState::default();
    let upcoming = state.next_queue.get_queue()[0];
    let first_cells = state.game.tetrimino.get_minos();
    state.apply_message(Message::Move(Movement::Down));
    assert_eq!(state.game.tetrimino.position().1, 18);
    state.apply_message(Message::NewTetrimino);
    assert_eq!(state.game.tetrimino.kind(), upcoming);
    assert_eq!(state.game.matrix.get_minos().len(), 4);
    let mut stamped: Vec<(i32, i32)> =
        state.game.matrix.get_minos().iter().map(|m| (m.col, m.row)).collect();
    let mut lowered: Vec<(i32, i32)> = first_cells.iter().map(|m| (m.col, m.row - 1)).collect();
    stamped.sort();
    lowered.sort();
    assert_eq!(stamped, lowered);
    assert!(state.running);
    state.apply_message(Message::QuitGame);
    assert!(!state.running);
}

#[test]
fn first_seven_draws_are_a_bag() {
    let mut queue = NextQueue::default();
    let mut seen = [0usize; 7];
    for _ in 0..7 {
        seen[kind_index(queue.next())] += 1;
    }
    assert_eq!(seen, [1; 7]);
}

#[test]
fn every_group_of_seven_draws_is_a_bag() {
    let mut queue = NextQueue::default();
    let draws: Vec<TetriminoType> = (0..10_000).map(|_| queue.next()).collect();
    for group in draws.chunks_exact(7) {
        let mut seen = [0usize; 7];
        for kind in group {
            seen[kind_index(*kind)] += 1;
        }
        assert_eq!(seen, [1; 7]);
    }
}

#[test]
fn window_shows_the_next_six_draws() {
    let mut queue = NextQueue::default();
    let window = queue.get_queue();
    assert_eq!(window.len(), 6);
    let draws: Vec<TetriminoType> = (0..6).map(|_| queue.next()).collect();
    assert_eq!(draws, window);
    assert_eq!(queue.get_queue().len(), 6);
}
