//! What the renderer shows of the controller's state: the tint of each
//! square, the glyph of each piece, the promotion menu, and the place of the
//! piece that is sliding. Colours and pixels are the renderer's own.

use vstd::prelude::*;
use crate::animation::{AnimationFrame, AnimationState, MoveAnimation};
use crate::board::{BoardPos, Color, PieceType, Tile};
use crate::codec::{current_board, spec_current_board};
use crate::protocol::{board_view, Board};
use crate::gameboard_controller::{
    promotion_piece, spec_promotion_piece, ControllerView, GameboardController,
};
use crate::utils::current_time;

verus! {

/// How a square is tinted: its ground colour, and how many times its green
/// and its red are lifted.
#[derive(Clone, Copy, Debug, PartialEq, Eq, Structural)]
pub struct SquareTint {
    pub dark: bool,
    pub green_lifts: u8,
    pub red_lifts: u8,
}

/// The glyph of a piece in the chess font.
pub open spec fn spec_piece_glyph(tile: Tile) -> char {
    match (tile.piece, tile.color) {
        (PieceType::Pawn, Color::White) => 'p',
        (PieceType::Pawn, Color::Black) => 'o',
        (PieceType::Knight, Color::White) => 'h',
        (PieceType::Knight, Color::Black) => 'j',
        (PieceType::Bishop, Color::White) => 'b',
        (PieceType::Bishop, Color::Black) => 'n',
        (PieceType::Rook, Color::White) => 'r',
        (PieceType::Rook, Color::Black) => 't',
        (PieceType::Queen, Color::White) => 'q',
        (PieceType::Queen, Color::Black) => 'w',
        (PieceType::King, Color::White) => 'k',
        (PieceType::King, Color::Black) => 'l',
    }
}

/// The glyph of a piece in the chess font.
#[verifier::when_used_as_spec(spec_piece_glyph)]
pub fn piece_glyph(tile: Tile) -> (glyph: char)
    ensures
        glyph == spec_piece_glyph(tile),
{
    match tile.piece {
        PieceType::Pawn => match tile.color {
            Color::White => 'p',
            Color::Black => 'o',
        },
        PieceType::Knight => match tile.color {
            Color::White => 'h',
            Color::Black => 'j',
        },
        PieceType::Bishop => match tile.color {
            Color::White => 'b',
            Color::Black => 'n',
        },
        PieceType::Rook => match tile.color {
            Color::White => 'r',
            Color::Black => 't',
        },
        PieceType::Queen => match tile.color {
            Color::White => 'q',
            Color::Black => 'w',
        },
        PieceType::King => match tile.color {
            Color::White => 'k',
            Color::Black => 'l',
        },
    }
}

/// The glyph in cell `choice` of the promotion menu when `turn` is to move:
/// the piece behind that cell, in the colour of the side that has just moved.
pub open spec fn spec_promotion_glyph(turn: Color, choice: usize) -> char {
    spec_piece_glyph(Tile { piece: spec_promotion_piece(choice), color: turn.opposite() })
}

/// The glyph in cell `choice` of the promotion menu when `turn` is to move.
#[verifier::when_used_as_spec(spec_promotion_glyph)]
pub fn promotion_glyph(turn: Color, choice: usize) -> (glyph: char)
    ensures
        glyph == spec_promotion_glyph(turn, choice),
{
    piece_glyph(Tile { piece: promotion_piece(choice), color: turn.opposite() })
}

/// Where the promotion menu for a pawn on `square` is drawn when `turn` is to
/// move: its left edge in half cells from the board's left edge, and its row
/// in cells from the board's top edge. The menu lies one row beyond the
/// pawn's, away from the board.
pub open spec fn spec_promotion_menu_origin(square: BoardPos, turn: Color) -> (int, int) {
    (
        2 * square.file - 3,
        match turn {
            Color::Black => 7 - square.rank - 1,
            Color::White => 7 - square.rank + 1,
        },
    )
}

/// Where the promotion menu for a pawn on `square` is drawn when `turn` is to
/// move: its left edge in half cells from the board's left edge, and its row
/// in cells from the board's top edge.
pub fn promotion_menu_origin(square: &BoardPos, turn: Color) -> (origin: (i32, i32))
    ensures
        (origin.0 as int, origin.1 as int) == spec_promotion_menu_origin(*square, turn),
{
    let left: i32 = 2 * (square.file as i32) - 3;
    let row: i32 = 7 - square.rank as i32;
    match turn {
        Color::Black => (left, row - 1),
        Color::White => (left, row + 1),
    }
}

/// The tint of `pos`.
///
/// Squares whose file and rank add up to an even number are dark. The
/// selected square and the empty squares that the selected piece can move to
/// get their green lifted; the occupied squares it can move to get their red
/// lifted. At checkmate every square gets its red lifted once more; in check
/// the square of the king of the side to move does.
pub open spec fn spec_square_tint(controller: ControllerView, pos: BoardPos) -> SquareTint {
    let selected = controller.selected_cell == Some(pos);
    let target = controller.selected_cell is Some && !selected && controller.legal_targets.contains(
        pos,
    );
    let occupied = controller.gameboard.tile(pos) is Some;
    let checked_king = controller.is_check && controller.gameboard.tile(pos) == Some(
        Tile { piece: PieceType::King, color: controller.gameboard.turn },
    );
    SquareTint {
        dark: (pos.file + pos.rank) % 2 == 0,
        green_lifts: if selected || (target && !occupied) {
            1
        } else {
            0
        },
        red_lifts: ((if target && occupied {
            1int
        } else {
            0int
        }) + (if controller.is_checkmate || checked_king {
            1int
        } else {
            0int
        })) as u8,
    }
}

/// The tint of `pos`.
pub fn square_tint(controller: &GameboardController, pos: &BoardPos) -> (tint: SquareTint)
    ensures
        tint == spec_square_tint(controller@, *pos),
{
    let tile = controller.gameboard.get_tile(pos);
    let mut green_lifts: u8 = 0;
    let mut red_lifts: u8 = 0;
    if let Some(selected_cell) = controller.selected_cell {
        if selected_cell == *pos {
            green_lifts = 1;
        } else if controller.is_legal_target(pos) {
            if tile.is_some() {
                red_lifts = 1;
            } else {
                green_lifts = 1;
            }
        }
    }
    if controller.is_checkmate {
        red_lifts = red_lifts + 1;
    } else if let Some(tile) = tile {
        if controller.is_check && tile.piece == PieceType::King && tile.color
            == controller.gameboard.current_turn() {
            red_lifts = red_lifts + 1;
        }
    }
    SquareTint {
        dark: (pos.file as u16 + pos.rank as u16) % 2 == 0,
        green_lifts,
        red_lifts,
    }
}

/// What the frame at `time` shows of the piece on `pos`: something only
/// while the timer runs and `pos` is its target.
pub open spec fn spec_piece_frame(animation: AnimationState, pos: BoardPos, time: u64) -> (
    AnimationState,
    Option<AnimationFrame>,
) {
    if animation.running && animation.to == Some(pos) {
        (animation.updated(time), animation.frame_at(time))
    } else {
        (animation, None)
    }
}

/// The frame at `now` for the piece on `pos`.
pub fn piece_frame(animation: &mut MoveAnimation, pos: &BoardPos, now: u64) -> (frame: Option<
    AnimationFrame,
>)
    ensures
        final(animation)@ == spec_piece_frame(old(animation)@, *pos, now).0,
        frame == spec_piece_frame(old(animation)@, *pos, now).1,
{
    if animation.running() {
        if let Some(target) = animation.target() {
            if target == *pos {
                return animation.update_animation(now);
            }
        }
    }
    None
}

impl GameboardController {
    /// The wire's board for the position that the controller holds.
    pub fn current_board(&self) -> (board: Board)
        ensures
            board_view(board) == spec_current_board(self@.gameboard),
    {
        current_board(&self.gameboard)
    }

    /// Whether the side to move is in check.
    pub fn is_check(&self) -> (check: bool)
        ensures
            check == self@.is_check,
    {
        self.is_check
    }

    /// Whether the side to move is mated.
    pub fn is_checkmate(&self) -> (checkmate: bool)
        ensures
            checkmate == self@.is_checkmate,
    {
        self.is_checkmate
    }

    /// The frame at the clock's reading for the piece on `pos`. Nothing but
    /// the timer changes.
    pub fn animation_frame_position(&mut self, pos: &BoardPos) -> (frame: Option<AnimationFrame>)
        ensures
            exists|now: u64|
                {
                    &&& final(self)@ == (ControllerView {
                        animation: (#[trigger] spec_piece_frame(old(self)@.animation, *pos, now)).0,
                        ..old(self)@
                    })
                    &&& frame == spec_piece_frame(old(self)@.animation, *pos, now).1
                },
    {
        let now = current_time();
        let frame = piece_frame(&mut self.animation, pos, now);
        assert(self@ == (ControllerView {
            animation: spec_piece_frame(old(self)@.animation, *pos, now).0,
            ..old(self)@
        }));
        frame
    }
}

} // verus!
