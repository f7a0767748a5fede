//! Squares, pieces and the position that the rest of the crate reads.

use vstd::prelude::*;

verus! {

/// One of the two sides.
#[derive(Clone, Copy, Debug, PartialEq, Eq, Structural, Hash)]
pub enum Color {
    White,
    Black,
}

impl Color {
    /// The other side.
    pub open spec fn spec_opposite(self) -> Color {
        match self {
            Color::White => Color::Black,
            Color::Black => Color::White,
        }
    }

    /// The other side.
    #[verifier::when_used_as_spec(spec_opposite)]
    pub fn opposite(self) -> (other: Color)
        ensures
            other == self.spec_opposite(),
    {
        match self {
            Color::White => Color::Black,
            Color::Black => Color::White,
        }
    }
}

/// The six kinds of chess piece.
#[derive(Clone, Copy, Debug, PartialEq, Eq, Structural, Hash)]
pub enum PieceType {
    Pawn,
    Knight,
    Bishop,
    Rook,
    Queen,
    King,
}

/// A piece standing on a square.
#[derive(Clone, Copy, Debug, PartialEq, Eq, Structural, Hash)]
pub struct Tile {
    pub piece: PieceType,
    pub color: Color,
}

impl Tile {
    /// The piece `piece` of the side `color`.
    pub fn new(piece: PieceType, color: Color) -> (tile: Tile)
        ensures
            tile == (Tile { piece, color }),
    {
        Tile { piece, color }
    }

    /// The kind of the piece.
    pub fn piece(&self) -> (piece: PieceType)
        ensures
            piece == self.piece,
    {
        self.piece
    }

    /// The side that the piece belongs to.
    pub fn color(&self) -> (color: Color)
        ensures
            color == self.color,
    {
        self.color
    }
}

/// A square, by file and rank. The squares of the board are those with both
/// coordinates below 8; other values can be written down and are rejected
/// wherever a square of the board is needed.
#[derive(Clone, Copy, Debug, PartialEq, Eq, Structural, Hash)]
pub struct BoardPos {
    pub file: u8,
    pub rank: u8,
}

impl BoardPos {
    /// Whether this is one of the 64 squares.
    pub open spec fn on_board(self) -> bool {
        self.file < 8 && self.rank < 8
    }

    /// The square's place when the board is walked file by file, and rank by
    /// rank within a file.
    pub open spec fn index(self) -> int {
        self.file as int * 8 + self.rank as int
    }

    /// The square at place `i` of that walk.
    pub open spec fn at_index(i: int) -> BoardPos {
        BoardPos { file: (i / 8) as u8, rank: (i % 8) as u8 }
    }

    /// The square on `file` and `rank`, on the board or off it.
    pub fn new(file: u8, rank: u8) -> (pos: BoardPos)
        ensures
            pos == (BoardPos { file, rank }),
    {
        BoardPos { file, rank }
    }

    /// The file, counted from 0.
    pub fn file(&self) -> (file: u8)
        ensures
            file == self.file,
    {
        self.file
    }

    /// The rank, counted from 0.
    pub fn rank(&self) -> (rank: u8)
        ensures
            rank == self.rank,
    {
        self.rank
    }

    /// Whether this is one of the 64 squares.
    pub fn is_on_board(&self) -> (on: bool)
        ensures
            on == self.on_board(),
    {
        self.file < 8 && self.rank < 8
    }
}

/// What the rules engine reports of the game after a move.
#[derive(Clone, Copy, Debug, PartialEq, Eq, Structural, Hash)]
pub enum GameState {
    Normal,
    Check,
    Checkmate,
    PromotionRequired,
}

/// Why the rules engine refused a move.
#[derive(Clone, Copy, Debug, PartialEq, Eq, Structural, Hash)]
pub enum MovePieceError {
    NoTile,
    NotCurrentTurn,
    InvalidMove,
}

/// A move that a player has committed to: the two squares, and the piece that
/// a pawn reaching the last rank turns into.
#[derive(Clone, Copy, Debug, PartialEq, Eq, Structural, Hash)]
pub struct MoveIntent {
    pub from: BoardPos,
    pub to: BoardPos,
    pub promotion: Option<PieceType>,
}

impl MoveIntent {
    /// Whether both squares of the move are on the board.
    pub open spec fn on_board(self) -> bool {
        self.from.on_board() && self.to.on_board()
    }
}

/// The mathematical content of a [`Position`].
pub struct PositionView {
    /// The occupied squares and what stands on them.
    pub tiles: Map<BoardPos, Tile>,
    /// For each square of the board, the squares its piece may move to, in the
    /// order in which the rules engine listed them.
    pub moves: Map<BoardPos, Seq<BoardPos>>,
    /// The side to move.
    pub turn: Color,
    pub state: GameState,
}

impl PositionView {
    /// Pieces stand on squares of the board only, and moves are listed for
    /// the squares of the board and for no others.
    pub open spec fn wf(self) -> bool {
        &&& forall|p: BoardPos| self.tiles.dom().contains(p) ==> p.on_board()
        &&& forall|p: BoardPos| self.moves.dom().contains(p) <==> p.on_board()
    }

    /// What stands on `p`, if anything.
    pub open spec fn tile(self, p: BoardPos) -> Option<Tile> {
        if self.tiles.dom().contains(p) {
            Some(self.tiles[p])
        } else {
            None
        }
    }

    /// The listed targets of the piece on `p`; empty for a square that is not
    /// on the board.
    pub open spec fn moves_from(self, p: BoardPos) -> Seq<BoardPos> {
        if self.moves.dom().contains(p) {
            self.moves[p]
        } else {
            Seq::empty()
        }
    }

    /// Whether `p` holds a piece of the side to move.
    pub open spec fn own_piece_at(self, p: BoardPos) -> bool {
        self.tile(p) matches Some(t) && t.color == self.turn
    }

    /// The empty board with no listed moves.
    pub open spec fn blank(turn: Color, state: GameState) -> PositionView {
        PositionView {
            tiles: Map::empty(),
            moves: Map::new(|p: BoardPos| p.on_board(), |p: BoardPos| Seq::empty()),
            turn,
            state,
        }
    }

    /// The position with `tile` on `p`, or with `p` cleared.
    pub open spec fn with_tile(self, p: BoardPos, tile: Option<Tile>) -> PositionView {
        PositionView {
            tiles: match tile {
                Some(t) => self.tiles.insert(p, t),
                None => self.tiles.remove(p),
            },
            ..self
        }
    }

    /// The position with `targets` listed as the moves from `p`.
    pub open spec fn with_moves(self, p: BoardPos, targets: Seq<BoardPos>) -> PositionView {
        PositionView { moves: self.moves.insert(p, targets), ..self }
    }
}

/// A snapshot of the rules engine's game: the board, the side to move, the
/// engine's verdict on the state, and the legal moves it lists per square.
#[derive(Debug)]
pub struct Position {
    tiles: [[Option<Tile>; 8]; 8],
    legal: Vec<Vec<BoardPos>>,
    turn: Color,
    state: GameState,
}

impl View for Position {
    type V = PositionView;

    closed spec fn view(&self) -> PositionView {
        PositionView {
            tiles: Map::new(
                |p: BoardPos| p.on_board() && self.tiles[p.file as int][p.rank as int] is Some,
                |p: BoardPos| self.tiles[p.file as int][p.rank as int]->0,
            ),
            moves: Map::new(
                |p: BoardPos| p.on_board(),
                |p: BoardPos|
                    if p.index() < self.legal@.len() {
                        self.legal@[p.index()]@
                    } else {
                        Seq::empty()
                    },
            ),
            turn: self.turn,
            state: self.state,
        }
    }
}

impl Position {
    /// Every snapshot is well formed.
    pub proof fn lemma_view_wf(&self)
        ensures
            self@.wf(),
    {
    }

    /// An empty board with `turn` to move.
    pub fn new(turn: Color, state: GameState) -> (position: Position)
        ensures
            position@ == PositionView::blank(turn, state),
    {
        let position = Position { tiles: [[None; 8]; 8], legal: Vec::new(), turn, state };
        proof {
            let blank = PositionView::blank(turn, state);
            assert(position@.tiles =~= blank.tiles);
            assert(position@.moves =~= blank.moves);
        }
        position
    }

    /// Puts `tile` on `pos`, or clears the square. A square off the board is
    /// left alone and reported as `false`.
    pub fn set_tile(&mut self, pos: &BoardPos, tile: Option<Tile>) -> (placed: bool)
        ensures
            placed == pos.on_board(),
            final(self)@ == if placed {
                old(self)@.with_tile(*pos, tile)
            } else {
                old(self)@
            },
    {
        if pos.file < 8 && pos.rank < 8 {
            self.tiles[pos.file as usize][pos.rank as usize] = tile;
            proof {
                let after = old(self)@.with_tile(*pos, tile);
                assert(self@.tiles =~= after.tiles);
                assert(self@.moves =~= after.moves);
            }
            true
        } else {
            false
        }
    }

    /// Records `targets` as the legal moves of the piece on `pos`, in the
    /// order given. A square off the board is left alone and reported as
    /// `false`.
    pub fn set_legal_moves(&mut self, pos: &BoardPos, targets: Vec<BoardPos>) -> (recorded: bool)
        ensures
            recorded == pos.on_board(),
            final(self)@ == if recorded {
                old(self)@.with_moves(*pos, targets@)
            } else {
                old(self)@
            },
    {
        if pos.file < 8 && pos.rank < 8 {
            let i: usize = pos.file as usize * 8 + pos.rank as usize;
            while self.legal.len() <= i
                invariant
                    self.tiles == old(self).tiles,
                    self.turn == old(self).turn,
                    self.state == old(self).state,
                    self@.moves == old(self)@.moves,
                decreases i + 1 - self.legal@.len(),
            {
                let ghost before = self@.moves;
                self.legal.push(Vec::new());
                assert(self@.moves =~= before);
            }
            self.legal.set(i, targets);
            proof {
                let after = old(self)@.with_moves(*pos, targets@);
                assert forall|p: BoardPos| p.on_board() implies #[trigger] self@.moves[p]
                    == after.moves[p] by {
                    if p != *pos {
                        assert(p.index() != pos.index());
                    }
                }
                assert(self@.tiles =~= after.tiles);
                assert(self@.moves =~= after.moves);
            }
            true
        } else {
            false
        }
    }

    /// What stands on `pos`; nothing on a square off the board.
    pub fn get_tile(&self, pos: &BoardPos) -> (tile: Option<Tile>)
        ensures
            tile == self@.tile(*pos),
    {
        if pos.file < 8 && pos.rank < 8 {
            self.tiles[pos.file as usize][pos.rank as usize]
        } else {
            None
        }
    }

    /// The legal moves listed for the piece on `pos`; none for a square off
    /// the board.
    pub fn get_legal_moves(&self, pos: &BoardPos) -> (targets: Vec<BoardPos>)
        ensures
            targets@ == self@.moves_from(*pos),
    {
        let mut targets: Vec<BoardPos> = Vec::new();
        let at: usize = if pos.file < 8 && pos.rank < 8 {
            pos.file as usize * 8 + pos.rank as usize
        } else {
            self.legal.len()
        };
        if at < self.legal.len() {
            let listed = &self.legal[at];
            let mut i: usize = 0;
            while i < listed.len()
                invariant
                    i <= listed@.len(),
                    targets@ == listed@.subrange(0, i as int),
                decreases listed@.len() - i,
            {
                targets.push(listed[i]);
                i = i + 1;
                assert(targets@ =~= listed@.subrange(0, i as int));
            }
            assert(targets@ =~= listed@);
        }
        targets
    }

    /// The side to move.
    pub fn current_turn(&self) -> (turn: Color)
        ensures
            turn == self@.turn,
    {
        self.turn
    }

    /// The rules engine's verdict on the state of the game.
    pub fn get_state(&self) -> (state: GameState)
        ensures
            state == self@.state,
    {
        self.state
    }

    /// Whether `pos` holds a piece of the side to move.
    pub fn is_own_piece(&self, pos: &BoardPos) -> (own: bool)
        ensures
            own == self@.own_piece_at(*pos),
    {
        match self.get_tile(pos) {
            Some(tile) => tile.color == self.turn,
            None => false,
        }
    }
}

} // verus!
