//! The messages that the two peers exchange, as plain values.
//!
//! On the wire each message is one JSON object, written back to back on a
//! stream. Reading and writing them is the transport's part; this module holds
//! what they say.

use vstd::prelude::*;
use crate::board::Color;

verus! {

/// The wire's code for what stands on a square: one of the twelve coloured
/// pieces, or nothing.
#[derive(Clone, Copy, Debug, PartialEq, Eq, Structural, Hash)]
pub enum Piece {
    BlackPawn,
    BlackKnight,
    BlackBishop,
    BlackRook,
    BlackQueen,
    BlackKing,
    WhitePawn,
    WhiteKnight,
    WhiteBishop,
    WhiteRook,
    WhiteQueen,
    WhiteKing,
    Empty,
}

/// The wire's board: `board[file][rank]`.
pub type Board = [[Piece; 8]; 8];

/// A board as eight files of eight codes.
pub open spec fn board_view(board: Board) -> Seq<Seq<Piece>> {
    Seq::new(8, |file: int| board[file]@)
}

/// The wire's record of a move. `x` is the file and `y` the rank.
#[derive(Clone, Copy, Debug, PartialEq, Eq, Structural, Hash)]
pub struct Move {
    pub start_x: usize,
    pub start_y: usize,
    pub end_x: usize,
    pub end_y: usize,
    pub promotion: Piece,
}

/// Whether the match goes on, and who won it if not.
#[derive(Clone, Copy, Debug, PartialEq, Eq, Structural, Hash)]
pub enum Joever {
    Ongoing,
    WhiteWin,
    BlackWin,
    Draw,
}

/// A rule that a peer may or may not support.
#[derive(Clone, Copy, Debug, PartialEq, Eq, Structural, Hash)]
pub enum Features {
    EnPassant,
    Castling,
    Promotion,
    Stalemate,
    PossibleMoveGeneration,
}

/// A set of rules, as one flag per rule.
#[derive(Clone, Copy, Debug, PartialEq, Eq, Structural, Hash)]
pub struct FeatureSet {
    pub en_passant: bool,
    pub castling: bool,
    pub promotion: bool,
    pub stalemate: bool,
    pub possible_move_generation: bool,
}

impl View for FeatureSet {
    type V = Set<Features>;

    open spec fn view(&self) -> Set<Features> {
        Set::new(
            |feature: Features|
                match feature {
                    Features::EnPassant => self.en_passant,
                    Features::Castling => self.castling,
                    Features::Promotion => self.promotion,
                    Features::Stalemate => self.stalemate,
                    Features::PossibleMoveGeneration => self.possible_move_generation,
                },
        )
    }
}

impl FeatureSet {
    /// The set without any rule.
    pub fn empty() -> (set: FeatureSet)
        ensures
            set@ == Set::<Features>::empty(),
    {
        let set = FeatureSet {
            en_passant: false,
            castling: false,
            promotion: false,
            stalemate: false,
            possible_move_generation: false,
        };
        assert(set@ =~= Set::<Features>::empty());
        set
    }

    /// The set with `feature` added.
    pub fn with(self, feature: Features) -> (set: FeatureSet)
        ensures
            set@ == self@.insert(feature),
    {
        let mut set = self;
        match feature {
            Features::EnPassant => {
                set.en_passant = true;
            },
            Features::Castling => {
                set.castling = true;
            },
            Features::Promotion => {
                set.promotion = true;
            },
            Features::Stalemate => {
                set.stalemate = true;
            },
            Features::PossibleMoveGeneration => {
                set.possible_move_generation = true;
            },
        }
        assert(set@ =~= self@.insert(feature));
        set
    }

    /// The rules that occur in `features`.
    pub fn from_list(features: &Vec<Features>) -> (set: FeatureSet)
        ensures
            set@ == features@.to_set(),
    {
        let mut set = FeatureSet::empty();
        let mut i: usize = 0;
        while i < features.len()
            invariant
                i <= features@.len(),
                set@ == features@.subrange(0, i as int).to_set(),
            decreases features@.len() - i,
        {
            let ghost before = features@.subrange(0, i as int);
            set = set.with(features[i]);
            i = i + 1;
            proof {
                let after = features@.subrange(0, i as int);
                assert(after =~= before.push(features@[i - 1]));
                assert forall|f: Features| after.to_set().contains(f) <==> before.to_set().insert(
                    features@[i - 1],
                ).contains(f) by {
                    if after.contains(f) {
                        let k = choose|k: int| 0 <= k < after.len() && after[k] == f;
                        if k < before.len() {
                            assert(before[k] == f);
                        }
                    }
                    if before.contains(f) {
                        let k = choose|k: int| 0 <= k < before.len() && before[k] == f;
                        assert(after[k] == f);
                    }
                    assert(after[i - 1] == features@[i - 1]);
                }
                assert(after.to_set() =~= before.to_set().insert(features@[i - 1]));
            }
        }
        assert(features@.subrange(0, i as int) =~= features@);
        set
    }

    /// Whether `feature` is in the set.
    pub fn contains(&self, feature: Features) -> (has: bool)
        ensures
            has == self@.contains(feature),
    {
        match feature {
            Features::EnPassant => self.en_passant,
            Features::Castling => self.castling,
            Features::Promotion => self.promotion,
            Features::Stalemate => self.stalemate,
            Features::PossibleMoveGeneration => self.possible_move_generation,
        }
    }
}

/// The connecting peer's opening message: the colour it asks the host to
/// play.
#[derive(Clone, Copy, Debug, PartialEq, Eq, Structural, Hash)]
pub struct ClientToServerHandshake {
    pub requested_color: Color,
}

/// The host's answer to the opening message.
#[derive(Debug)]
pub struct ServerToClientHandshake {
    pub features: Vec<Features>,
    pub board: Board,
    pub moves: Vec<Move>,
    pub joever: Joever,
}

/// The mathematical content of a [`ServerToClientHandshake`].
pub struct HandshakeView {
    pub features: Seq<Features>,
    pub board: Seq<Seq<Piece>>,
    pub moves: Seq<Move>,
    pub joever: Joever,
}

impl View for ServerToClientHandshake {
    type V = HandshakeView;

    open spec fn view(&self) -> HandshakeView {
        HandshakeView {
            features: self.features@,
            board: board_view(self.board),
            moves: self.moves@,
            joever: self.joever,
        }
    }
}

/// What the connecting peer sends during play.
#[derive(Clone, Copy, Debug, PartialEq, Eq, Structural, Hash)]
pub enum ClientToServer {
    Move(Move),
    /// Any message other than a move.
    Other,
}

/// What the host sends during play.
#[derive(Debug)]
pub enum ServerToClient {
    State { board: Board, moves: Vec<Move>, joever: Joever, move_made: Move },
}

/// The mathematical content of a [`ServerToClient`] message.
pub struct StateView {
    pub board: Seq<Seq<Piece>>,
    pub moves: Seq<Move>,
    pub joever: Joever,
    pub move_made: Move,
}

impl View for ServerToClient {
    type V = StateView;

    open spec fn view(&self) -> StateView {
        match *self {
            ServerToClient::State { board, moves, joever, move_made } => StateView {
                board: board_view(board),
                moves: moves@,
                joever,
                move_made,
            },
        }
    }
}

/// Why a session ended before the game did.
#[derive(Clone, Copy, Debug, PartialEq, Eq, Structural, Hash)]
pub enum ProtocolError {
    /// The connection closed, or a message could not be read.
    ConnectionLost,
    /// A move names a square that is not on the board.
    SquareOutOfRange,
    /// The peer sent something other than what this stage of the session
    /// takes.
    UnexpectedMessage,
    /// The peer's move is not legal on this side's board: the two boards have
    /// drifted apart.
    IllegalMove,
}

} // verus!
