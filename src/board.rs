//! Layout and spawn rules of the single-panel board (no preview panel).

use vstd::math::min;
use vstd::prelude::*;

use crate::tetramino::TetriminoType;

verus! {

pub const MATRIX_WIDTH: u16 = 10;

pub const MATRIX_HEIGHT: u16 = 20;

/// The screen layout `(width, height, margin)` of the board for a viewport,
/// or nothing when the viewport cannot hold the board and its border.
pub open spec fn board_matrix_size_spec(vw_width: int, vw_height: int) -> Option<(int, int, int)> {
    if vw_width < MATRIX_WIDTH * 2 + 2 || vw_height < MATRIX_HEIGHT + 2 {
        None
    } else {
        let canvas_height = vw_height - 2;
        let board_height = canvas_height - canvas_height % (MATRIX_HEIGHT as int);
        let board_width = (board_height * MATRIX_WIDTH / (MATRIX_HEIGHT as int)) * 2;
        if vw_width < board_width {
            None
        } else {
            Some(
                (
                    min(board_width + 2, vw_width),
                    min(board_height + 2, vw_height),
                    (vw_width - board_width) / 2,
                ),
            )
        }
    }
}

/// Get the `(width, height, horizontal margin)` required for the matrix
///
/// Returns [`None`] if the screen is too small
pub fn get_matrix_size(vw_width: u16, vw_height: u16) -> (r: Option<(u16, u16, u16)>)
    ensures
        r is None <==> board_matrix_size_spec(vw_width as int, vw_height as int) is None,
        r matches Some(s) ==> board_matrix_size_spec(vw_width as int, vw_height as int) == Some(
            (s.0 as int, s.1 as int, s.2 as int),
        ),
{
    if vw_width < (MATRIX_WIDTH * 2 + 2) || vw_height < (MATRIX_HEIGHT + 2) {
        return None;
    }
    let canvas_height: u32 = vw_height as u32 - 2;
    let board_height: u32 = canvas_height - (canvas_height % MATRIX_HEIGHT as u32);
    assert(board_height <= 65535) by {
        assert(canvas_height % 20 >= 0);
    }
    let width: u32 = MATRIX_WIDTH as u32;
    let height: u32 = MATRIX_HEIGHT as u32;
    let board_width: u32 = (board_height * width / height) * 2;
    if (vw_width as u32) < board_width {
        return None;
    }
    let margin: u32 = (vw_width as u32 - board_width) / 2;
    let shown_width: u32 = if board_width + 2 < vw_width as u32 {
        board_width + 2
    } else {
        vw_width as u32
    };
    let shown_height: u32 = if board_height + 2 < vw_height as u32 {
        board_height + 2
    } else {
        vw_height as u32
    };
    Some((shown_width as u16, shown_height as u16, margin as u16))
}

/// Get the spawn point of a tetramino
///
/// Returns `(x, y)`: the kind's spawn column and the top row of the board.
pub fn get_spawn_point(piece: TetriminoType) -> (r: (i32, i32))
    ensures
        r.0 == crate::matrix::spawn_col(piece),
        r.1 == MATRIX_HEIGHT - 1,
{
    (
        match piece {
            TetriminoType::I => 3,
            TetriminoType::J => 3,
            TetriminoType::L => 3,
            TetriminoType::O => 4,
            TetriminoType::S => 3,
            TetriminoType::T => 3,
            TetriminoType::Z => 3,
        },
        (MATRIX_HEIGHT - 1) as i32,
    )
}

} // verus!
