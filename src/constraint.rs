//! Layout of a board drawn one screen column per cell.

use vstd::math::min;
use vstd::prelude::*;

verus! {

pub const BOARD_WIDTH: u16 = 10;

pub const BOARD_HEIGHT: u16 = 20;

/// The screen layout `(width, height, margin)` of the board for a viewport,
/// or nothing when the viewport cannot hold the board and its border.
pub open spec fn board_size_spec(vw_width: int, vw_height: int) -> Option<(int, int, int)> {
    if vw_width < 12 || vw_height < 22 {
        None
    } else {
        let canvas_height = vw_height - 2;
        let board_height = canvas_height - canvas_height % (BOARD_HEIGHT as int);
        let board_width = board_height * BOARD_WIDTH / (BOARD_HEIGHT as int);
        if vw_width < board_width {
            None
        } else {
            Some(
                (
                    min(board_width + 2, vw_width),
                    min(board_height + 2, vw_height),
                    (vw_width - board_width) / 2,
                ),
            )
        }
    }
}

/// Get the `(width, height, horizontal margin)` required for the board
///
/// Returns [`None`] if the screen is too small
pub fn get_board_size(vw_width: u16, vw_height: u16) -> (r: Option<(u16, u16, u16)>)
    ensures
        r is None <==> board_size_spec(vw_width as int, vw_height as int) is None,
        r matches Some(s) ==> board_size_spec(vw_width as int, vw_height as int) == Some(
            (s.0 as int, s.1 as int, s.2 as int),
        ),
{
    if vw_width < 12 || vw_height < 22 {
        return None;
    }
    let canvas_height: u32 = vw_height as u32 - 2;
    let board_height: u32 = canvas_height - (canvas_height % BOARD_HEIGHT as u32);
    assert(board_height <= 65535) by {
        assert(canvas_height % 20 >= 0);
    }
    let width: u32 = BOARD_WIDTH as u32;
    let height: u32 = BOARD_HEIGHT as u32;
    let board_width: u32 = board_height * width / height;
    if (vw_width as u32) < board_width {
        return None;
    }
    let margin: u32 = (vw_width as u32 - board_width) / 2;
    let shown_width: u32 = if board_width + 2 < vw_width as u32 {
        board_width + 2
    } else {
        vw_width as u32
    };
    let shown_height: u32 = if board_height + 2 < vw_height as u32 {
        board_height + 2
    } else {
        vw_height as u32
    };
    Some((shown_width as u16, shown_height as u16, margin as u16))
}

} // verus!
