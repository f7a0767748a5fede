//! The board codec: from a position and its moves to the wire's board and
//! move records, and from a move record back to a move.

use vstd::prelude::*;
use crate::board::{BoardPos, Color, MoveIntent, PieceType, Position, PositionView, Tile};
use crate::protocol::{board_view, Board, Move, Piece, ProtocolError};

verus! {

/// The wire's code for a square's content.
pub open spec fn spec_piece_code(tile: Option<Tile>) -> Piece {
    match tile {
        None => Piece::Empty,
        Some(t) => match (t.piece, t.color) {
            (PieceType::Pawn, Color::White) => Piece::WhitePawn,
            (PieceType::Pawn, Color::Black) => Piece::BlackPawn,
            (PieceType::Knight, Color::White) => Piece::WhiteKnight,
            (PieceType::Knight, Color::Black) => Piece::BlackKnight,
            (PieceType::Bishop, Color::White) => Piece::WhiteBishop,
            (PieceType::Bishop, Color::Black) => Piece::BlackBishop,
            (PieceType::Rook, Color::White) => Piece::WhiteRook,
            (PieceType::Rook, Color::Black) => Piece::BlackRook,
            (PieceType::Queen, Color::White) => Piece::WhiteQueen,
            (PieceType::Queen, Color::Black) => Piece::BlackQueen,
            (PieceType::King, Color::White) => Piece::WhiteKing,
            (PieceType::King, Color::Black) => Piece::BlackKing,
        },
    }
}

/// The kind of piece that a code stands for.
pub open spec fn spec_piece_kind(code: Piece) -> Option<PieceType> {
    match code {
        Piece::Empty => None,
        Piece::WhitePawn | Piece::BlackPawn => Some(PieceType::Pawn),
        Piece::WhiteKnight | Piece::BlackKnight => Some(PieceType::Knight),
        Piece::WhiteBishop | Piece::BlackBishop => Some(PieceType::Bishop),
        Piece::WhiteRook | Piece::BlackRook => Some(PieceType::Rook),
        Piece::WhiteQueen | Piece::BlackQueen => Some(PieceType::Queen),
        Piece::WhiteKing | Piece::BlackKing => Some(PieceType::King),
    }
}

/// The wire's code for a square's content.
#[verifier::when_used_as_spec(spec_piece_code)]
pub fn piece_code(tile: Option<Tile>) -> (code: Piece)
    ensures
        code == spec_piece_code(tile),
{
    match tile {
        None => Piece::Empty,
        Some(t) => match t.piece {
            PieceType::Pawn => match t.color {
                Color::White => Piece::WhitePawn,
                Color::Black => Piece::BlackPawn,
            },
            PieceType::Knight => match t.color {
                Color::White => Piece::WhiteKnight,
                Color::Black => Piece::BlackKnight,
            },
            PieceType::Bishop => match t.color {
                Color::White => Piece::WhiteBishop,
                Color::Black => Piece::BlackBishop,
            },
            PieceType::Rook => match t.color {
                Color::White => Piece::WhiteRook,
                Color::Black => Piece::BlackRook,
            },
            PieceType::Queen => match t.color {
                Color::White => Piece::WhiteQueen,
                Color::Black => Piece::BlackQueen,
            },
            PieceType::King => match t.color {
                Color::White => Piece::WhiteKing,
                Color::Black => Piece::BlackKing,
            },
        },
    }
}

/// The kind of piece that a code stands for.
#[verifier::when_used_as_spec(spec_piece_kind)]
pub fn piece_kind(code: Piece) -> (kind: Option<PieceType>)
    ensures
        kind == spec_piece_kind(code),
{
    match code {
        Piece::Empty => None,
        Piece::WhitePawn | Piece::BlackPawn => Some(PieceType::Pawn),
        Piece::WhiteKnight | Piece::BlackKnight => Some(PieceType::Knight),
        Piece::WhiteBishop | Piece::BlackBishop => Some(PieceType::Bishop),
        Piece::WhiteRook | Piece::BlackRook => Some(PieceType::Rook),
        Piece::WhiteQueen | Piece::BlackQueen => Some(PieceType::Queen),
        Piece::WhiteKing | Piece::BlackKing => Some(PieceType::King),
    }
}

/// The wire's board for a position: file by file, each of the 64 cells
/// holds the code of what stands on its square.
pub open spec fn spec_current_board(position: PositionView) -> Seq<Seq<Piece>> {
    Seq::new(
        8,
        |file: int|
            Seq::new(
                8,
                |rank: int|
                    spec_piece_code(position.tile(BoardPos { file: file as u8, rank: rank as u8 })),
            ),
    )
}

/// The wire's board for `game`.
pub fn current_board(game: &Position) -> (board: Board)
    ensures
        board_view(board) == spec_current_board(game@),
{
    let mut board: Board = [[Piece::Empty; 8]; 8];
    let mut file: u8 = 0;
    while file < 8
        invariant
            file <= 8,
            forall|f: int, r: int|
                0 <= f < file && 0 <= r < 8 ==> #[trigger] board[f][r] == spec_piece_code(
                    game@.tile(BoardPos { file: f as u8, rank: r as u8 }),
                ),
        decreases 8 - file,
    {
        let mut rank: u8 = 0;
        while rank < 8
            invariant
                file < 8,
                rank <= 8,
                forall|f: int, r: int|
                    0 <= f < file && 0 <= r < 8 ==> #[trigger] board[f][r] == spec_piece_code(
                        game@.tile(BoardPos { file: f as u8, rank: r as u8 }),
                    ),
                forall|r: int|
                    0 <= r < rank ==> #[trigger] board[file as int][r] == spec_piece_code(
                        game@.tile(BoardPos { file, rank: r as u8 }),
                    ),
            decreases 8 - rank,
        {
            let pos = BoardPos::new(file, rank);
            board[file as usize][rank as usize] = piece_code(game.get_tile(&pos));
            rank = rank + 1;
        }
        file = file + 1;
    }
    proof {
        let want = spec_current_board(game@);
        assert forall|f: int| 0 <= f < 8 implies #[trigger] board_view(board)[f] == want[f] by {
            assert forall|r: int| 0 <= r < 8 implies #[trigger] board[f]@[r] == want[f][r] by {
                assert(board[f][r] == spec_piece_code(
                    game@.tile(BoardPos { file: f as u8, rank: r as u8 }),
                ));
            }
            assert(board[f]@ =~= want[f]);
        }
        assert(board_view(board) =~= want);
    }
    board
}

/// The wire's record of the move from `from` to `to`. A promotion is written
/// as the chosen piece in the mover's colour.
pub open spec fn spec_encode_move(
    from: BoardPos,
    to: BoardPos,
    promotion: Option<PieceType>,
    mover: Color,
) -> Move {
    Move {
        start_x: from.file as usize,
        start_y: from.rank as usize,
        end_x: to.file as usize,
        end_y: to.rank as usize,
        promotion: match promotion {
            Some(piece) => spec_piece_code(Some(Tile { piece, color: mover })),
            None => Piece::Empty,
        },
    }
}

/// The wire's record of the move from `from` to `to`, with a promotion
/// written as the chosen piece in the mover's colour.
pub fn encode_move(
    from: &BoardPos,
    to: &BoardPos,
    promotion: Option<PieceType>,
    mover: Color,
) -> (mv:
    Move)
    ensures
        mv == spec_encode_move(*from, *to, promotion, mover),
{
    Move {
        start_x: from.file as usize,
        start_y: from.rank as usize,
        end_x: to.file as usize,
        end_y: to.rank as usize,
        promotion: match promotion {
            Some(piece) => piece_code(Some(Tile { piece, color: mover })),
            None => Piece::Empty,
        },
    }
}

/// Whether all four coordinates of `mv` name squares of the board.
pub open spec fn in_range(mv: Move) -> bool {
    mv.start_x < 8 && mv.start_y < 8 && mv.end_x < 8 && mv.end_y < 8
}

/// The move that a wire record stands for; an error for a record that names a
/// square off the board.
pub open spec fn spec_decode_move(mv: Move) -> Result<MoveIntent, ProtocolError> {
    if in_range(mv) {
        Ok(
            MoveIntent {
                from: BoardPos { file: mv.start_x as u8, rank: mv.start_y as u8 },
                to: BoardPos { file: mv.end_x as u8, rank: mv.end_y as u8 },
                promotion: spec_piece_kind(mv.promotion),
            },
        )
    } else {
        Err(ProtocolError::SquareOutOfRange)
    }
}

/// The move that a wire record stands for. A record that names a square off
/// the board is refused.
pub fn decode_move(mv: &Move) -> (decoded: Result<MoveIntent, ProtocolError>)
    ensures
        decoded == spec_decode_move(*mv),
        decoded is Ok <==> in_range(*mv),
        decoded matches Ok(intent) ==> intent.from.on_board() && intent.to.on_board(),
{
    if mv.start_x < 8 && mv.start_y < 8 && mv.end_x < 8 && mv.end_y < 8 {
        Ok(
            MoveIntent {
                from: BoardPos::new(mv.start_x as u8, mv.start_y as u8),
                to: BoardPos::new(mv.end_x as u8, mv.end_y as u8),
                promotion: piece_kind(mv.promotion),
            },
        )
    } else {
        Err(ProtocolError::SquareOutOfRange)
    }
}

/// The wire records of the moves listed for the piece on `from`: none unless
/// the square holds a piece of the side to move.
pub open spec fn wire_moves_from(position: PositionView, from: BoardPos) -> Seq<Move> {
    if position.own_piece_at(from) {
        Seq::new(
            position.moves_from(from).len(),
            |k: int| spec_encode_move(from, position.moves_from(from)[k], None, position.turn),
        )
    } else {
        Seq::empty()
    }
}

/// The wire records of the moves listed for the first `n` squares, walking the
/// board file by file and rank by rank within a file.
pub open spec fn wire_moves_upto(position: PositionView, n: nat) -> Seq<Move>
    decreases n,
{
    if n == 0 {
        Seq::empty()
    } else {
        wire_moves_upto(position, (n - 1) as nat) + wire_moves_from(
            position,
            BoardPos::at_index(n - 1),
        )
    }
}

/// Every legal move that the position lists for the side to move.
pub open spec fn spec_available_moves(position: PositionView) -> Seq<Move> {
    wire_moves_upto(position, 64)
}

/// Every legal move that `game` lists for the side to move, as wire records
/// without promotion.
pub fn available_moves(game: &Position) -> (moves: Vec<Move>)
    ensures
        moves@ == spec_available_moves(game@),
{
    let mut moves: Vec<Move> = Vec::new();
    let turn = game.current_turn();
    let mut i: u8 = 0;
    while i < 64
        invariant
            i <= 64,
            turn == game@.turn,
            moves@ == wire_moves_upto(game@, i as nat),
        decreases 64 - i,
    {
        let from = BoardPos::new(i / 8, i % 8);
        assert(from == BoardPos::at_index(i as int));
        if game.is_own_piece(&from) {
            let targets = game.get_legal_moves(&from);
            let ghost listed = wire_moves_from(game@, from);
            let mut k: usize = 0;
            while k < targets.len()
                invariant
                    k <= targets@.len(),
                    turn == game@.turn,
                    targets@ == game@.moves_from(from),
                    game@.own_piece_at(from),
                    listed == wire_moves_from(game@, from),
                    moves@ == wire_moves_upto(game@, i as nat) + listed.subrange(0, k as int),
                decreases targets@.len() - k,
            {
                moves.push(encode_move(&from, &targets[k], None, turn));
                k = k + 1;
                assert(moves@ =~= wire_moves_upto(game@, i as nat) + listed.subrange(0, k as int));
            }
            assert(listed.subrange(0, k as int) =~= listed);
        } else {
            assert(moves@ =~= moves@ + wire_moves_from(game@, from));
        }
        i = i + 1;
    }
    moves
}

/// Decoding undoes encoding: a move between two squares of the board comes
/// back from its wire record as it went in, whatever the promotion and the
/// mover's colour.
pub proof fn lemma_decode_encode(
    from: BoardPos,
    to: BoardPos,
    promotion: Option<PieceType>,
    mover: Color,
)
    requires
        from.on_board(),
        to.on_board(),
    ensures
        spec_decode_move(spec_encode_move(from, to, promotion, mover)) == Ok::<
            MoveIntent,
            ProtocolError,
        >(MoveIntent { from, to, promotion }),
{
}

/// The twelve coloured pieces have twelve different codes, none of them the
/// code of an empty square, and a code gives back the kind of its piece.
pub proof fn lemma_piece_codes_distinct(a: Tile, b: Tile)
    ensures
        spec_piece_code(Some(a)) != Piece::Empty,
        spec_piece_code(Some(a)) == spec_piece_code(Some(b)) ==> a == b,
        spec_piece_kind(spec_piece_code(Some(a))) == Some(a.piece),
{
}

/// The board of a position with a single piece has a single cell that is not
/// empty: the cell of that piece's square, holding that piece's code.
pub proof fn lemma_single_piece_board(position: PositionView, at: BoardPos, tile: Tile)
    requires
        at.on_board(),
        position.tiles == Map::<BoardPos, Tile>::empty().insert(at, tile),
    ensures
        spec_current_board(position)[at.file as int][at.rank as int] == spec_piece_code(Some(tile)),
        forall|file: int, rank: int|
            0 <= file < 8 && 0 <= rank < 8 ==> (#[trigger] spec_current_board(
                position,
            )[file][rank] != Piece::Empty <==> file == at.file && rank == at.rank),
{
    let board = spec_current_board(position);
    assert forall|file: int, rank: int| 0 <= file < 8 && 0 <= rank < 8 implies (
    #[trigger] board[file][rank] != Piece::Empty <==> file == at.file && rank == at.rank) by {
        let p = BoardPos { file: file as u8, rank: rank as u8 };
        assert(board[file][rank] == spec_piece_code(position.tile(p)));
        if file == at.file && rank == at.rank {
            assert(p == at);
        } else {
            assert(p != at);
        }
    }
    assert(BoardPos { file: at.file as int as u8, rank: at.rank as int as u8 } == at);
}

} // verus!
