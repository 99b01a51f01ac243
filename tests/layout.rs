use tetris::board;
use tetris::constraint::get_board_size;
use tetris::game_handler::{message_for_key, Key, Message, Movement, RotationDirection};
use tetris::game_io;
use tetris::matrix::{get_matrix_size, get_spawn_point};
use tetris::tetramino::TetriminoType;

#[test]
fn matrix_size_smallest_screen() {
    assert_eq!(get_matrix_size(36, 22), Some((22, 22, 14, 2)));
    assert_eq!(get_matrix_size(35, 22), None);
    assert_eq!(get_matrix_size(36, 21), None);
}

#[test]
fn matrix_size_scales_by_whole_fields() {
    assert_eq!(get_matrix_size(100, 50), Some((42, 42, 26, 18)));
    assert_eq!(get_matrix_size(u16::MAX, 200), Some((182, 182, 110, 32623)));
}

#[test]
fn matrix_size_too_narrow_for_height() {
    assert_eq!(get_matrix_size(40, 200), None);
}

#[test]
fn board_matrix_size() {
    assert_eq!(board::get_matrix_size(22, 22), Some((22, 22, 1)));
    assert_eq!(board::get_matrix_size(21, 22), None);
    assert_eq!(board::get_matrix_size(60, 45), Some((42, 42, 10)));
    assert_eq!(board::get_matrix_size(30, 45), None);
}

#[test]
fn board_size() {
    assert_eq!(get_board_size(12, 22), Some((12, 22, 1)));
    assert_eq!(get_board_size(11, 22), None);
    assert_eq!(get_board_size(30, 45), Some((22, 42, 5)));
}

#[test]
fn spawn_points() {
    assert_eq!(get_spawn_point(TetriminoType::O), (4, 19));
    assert_eq!(get_spawn_point(TetriminoType::I), (3, 19));
    assert_eq!(get_spawn_point(TetriminoType::Z), (3, 19));
    assert_eq!(board::get_spawn_point(TetriminoType::O), (4, 19));
    assert_eq!(board::get_spawn_point(TetriminoType::L), (3, 19));
}

#[test]
fn key_bindings() {
    assert_eq!(message_for_key(Key::Char('q')), Some(Message::QuitGame));
    assert_eq!(message_for_key(Key::Char('n')), Some(Message::NewTetrimino));
    assert_eq!(
        message_for_key(Key::Char('z')),
        Some(Message::Move(Movement::Rotate(RotationDirection::Counterclockwise)))
    );
    assert_eq!(
        message_for_key(Key::Up),
        Some(Message::Move(Movement::Rotate(RotationDirection::Clockwise)))
    );
    assert_eq!(message_for_key(Key::Left), Some(Message::Move(Movement::Left)));
    assert_eq!(message_for_key(Key::Right), Some(Message::Move(Movement::Right)));
    assert_eq!(message_for_key(Key::Down), Some(Message::Move(Movement::Down)));
    assert_eq!(message_for_key(Key::Enter), Some(Message::Move(Movement::Drop)));
    assert_eq!(message_for_key(Key::Char('r')), None);
    assert_eq!(message_for_key(Key::Other), None);
}

#[test]
fn key_bindings_with_debug_key() {
    assert_eq!(game_io::message_for_key(Key::Char('r')), Some(game_io::Message::Debug));
    assert_eq!(game_io::message_for_key(Key::Char('n')), Some(game_io::Message::NewPiece));
    assert_eq!(game_io::message_for_key(Key::Char('q')), Some(game_io::Message::QuitGame));
    assert_eq!(game_io::message_for_key(Key::Char('x')), None);
}
