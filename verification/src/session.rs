//! The session protocol engine of the hosting side: the handshake, and the
//! turn loop in which the two peers move in turn.
//!
//! The engine reads and writes nothing itself. The caller hands it each
//! message that came in and the position as the rules engine reports it, and
//! sends what the engine hands back. After an error the session is over: no
//! message is taken any more.

use vstd::prelude::*;
use crate::board::{Color, GameState, MoveIntent, Position, PositionView};
use crate::codec::{
    available_moves, current_board, decode_move, encode_move, spec_available_moves,
    spec_current_board, spec_decode_move, spec_encode_move,
};
use crate::protocol::{
    ClientToServer, ClientToServerHandshake, Features, HandshakeView, Joever, ProtocolError,
    ServerToClient, ServerToClientHandshake, StateView,
};

verus! {

/// Where a session stands.
#[derive(Clone, Copy, Debug, PartialEq, Eq, Structural, Hash)]
pub enum Phase {
    /// Waiting for the peer's opening message.
    AwaitHandshake,
    /// It is the peer's turn: waiting for its move.
    AwaitRemoteMove,
    /// It is this side's turn: waiting for the player's move.
    AwaitLocalMove,
    /// The game or the session is over.
    Terminal,
}

/// The rules that this side plays by, in the order in which it announces
/// them.
pub open spec fn spec_supported_features() -> Seq<Features> {
    seq![
        Features::EnPassant,
        Features::Castling,
        Features::Promotion,
        Features::Stalemate,
        Features::PossibleMoveGeneration,
    ]
}

/// The rules that this side plays by, in the order in which it announces
/// them.
pub fn supported_features() -> (features: Vec<Features>)
    ensures
        features@ == spec_supported_features(),
{
    let mut features: Vec<Features> = Vec::new();
    features.push(Features::EnPassant);
    features.push(Features::Castling);
    features.push(Features::Promotion);
    features.push(Features::Stalemate);
    features.push(Features::PossibleMoveGeneration);
    assert(features@ =~= spec_supported_features());
    features
}

/// Whether the match goes on. It is over when the rules engine reports
/// checkmate; the side to move is then the side that lost.
pub open spec fn spec_game_outcome(position: PositionView) -> Joever {
    if position.state == GameState::Checkmate {
        match position.turn {
            Color::White => Joever::BlackWin,
            Color::Black => Joever::WhiteWin,
        }
    } else {
        Joever::Ongoing
    }
}

/// Whether the match goes on, by the rules engine's verdict on `game`.
pub fn game_outcome(game: &Position) -> (joever: Joever)
    ensures
        joever == spec_game_outcome(game@),
{
    match game.get_state() {
        GameState::Checkmate => match game.current_turn() {
            Color::White => Joever::BlackWin,
            Color::Black => Joever::WhiteWin,
        },
        _ => Joever::Ongoing,
    }
}

/// The phase of the turn loop for a position: over once the game is, else by
/// whose turn the rules engine says it is.
pub open spec fn turn_phase(local_color: Color, position: PositionView) -> Phase {
    if spec_game_outcome(position) != Joever::Ongoing {
        Phase::Terminal
    } else if position.turn == local_color {
        Phase::AwaitLocalMove
    } else {
        Phase::AwaitRemoteMove
    }
}

/// The answer to the peer's opening message when play starts at `position`:
/// the supported rules, the board, the moves open to the side to move, and
/// how the match stands.
pub open spec fn spec_handshake_reply(position: PositionView) -> HandshakeView {
    HandshakeView {
        features: spec_supported_features(),
        board: spec_current_board(position),
        moves: spec_available_moves(position),
        joever: spec_game_outcome(position),
    }
}

/// The message that tells the peer of the move `intent`, made by `mover`,
/// which brought the game to `position`: the board after the move, the moves
/// open to the side to move, how the match stands, and the move itself.
pub open spec fn spec_state_message(position: PositionView, intent: MoveIntent, mover: Color)
    -> StateView {
    StateView {
        board: spec_current_board(position),
        moves: spec_available_moves(position),
        joever: spec_game_outcome(position),
        move_made: spec_encode_move(intent.from, intent.to, intent.promotion, mover),
    }
}

/// One connection's session, seen from the hosting side.
#[derive(Clone, Copy, Debug, PartialEq, Eq, Structural)]
pub struct Session {
    pub phase: Phase,
    /// The colour that this side plays, once the handshake has fixed it.
    pub local_color: Color,
    /// How the match stands by the last position that was sent out.
    pub outcome: Joever,
    /// Why the session ended, where it ended in an error.
    pub error: Option<ProtocolError>,
}

impl Session {
    /// A session that waits for the peer's opening message.
    pub open spec fn initial() -> Session {
        Session {
            phase: Phase::AwaitHandshake,
            local_color: Color::White,
            outcome: Joever::Ongoing,
            error: None,
        }
    }

    /// The session ended by `error`. Of several errors the first is kept.
    pub open spec fn failed(self, error: ProtocolError) -> Session {
        Session {
            phase: Phase::Terminal,
            error: if self.error is Some {
                self.error
            } else {
                Some(error)
            },
            ..self
        }
    }

    /// The colour of the side that makes the move that is waited for.
    pub open spec fn spec_mover(&self) -> Color {
        if self.phase == Phase::AwaitLocalMove {
            self.local_color
        } else {
            self.local_color.opposite()
        }
    }

    /// The session after the peer's opening message, with the game at
    /// `position`.
    pub open spec fn after_handshake(self, hello: ClientToServerHandshake, position: PositionView)
        -> Session {
        if self.phase == Phase::AwaitHandshake {
            Session {
                phase: turn_phase(hello.requested_color, position),
                local_color: hello.requested_color,
                outcome: spec_game_outcome(position),
                error: None,
            }
        } else {
            self.failed(ProtocolError::UnexpectedMessage)
        }
    }

    /// What the peer's message asks for: a move, where the session waits for
    /// the peer's move and the message is a move between squares of the
    /// board.
    pub open spec fn received(self, msg: ClientToServer) -> Result<MoveIntent, ProtocolError> {
        if self.phase != Phase::AwaitRemoteMove {
            Err(ProtocolError::UnexpectedMessage)
        } else {
            match msg {
                ClientToServer::Move(mv) => spec_decode_move(mv),
                ClientToServer::Other => Err(ProtocolError::UnexpectedMessage),
            }
        }
    }

    /// The session after the peer's message: as it was where the message is
    /// taken, ended where it is not.
    pub open spec fn after_receive(self, msg: ClientToServer) -> Session {
        match self.received(msg) {
            Ok(_) => self,
            Err(error) => self.failed(error),
        }
    }

    /// Whether the session is in its turn loop.
    pub open spec fn in_turn_loop(self) -> bool {
        self.phase == Phase::AwaitLocalMove || self.phase == Phase::AwaitRemoteMove
    }

    /// The session after a move was made on the board and brought it to
    /// `position`.
    pub open spec fn after_commit(self, position: PositionView) -> Session {
        if self.in_turn_loop() {
            Session {
                phase: turn_phase(self.local_color, position),
                outcome: spec_game_outcome(position),
                ..self
            }
        } else {
            self.failed(ProtocolError::UnexpectedMessage)
        }
    }

    /// A session that waits for the peer's opening message.
    pub fn new() -> (session: Session)
        ensures
            session == Session::initial(),
    {
        Session {
            phase: Phase::AwaitHandshake,
            local_color: Color::White,
            outcome: Joever::Ongoing,
            error: None,
        }
    }

    /// Ends the session with `error`.
    pub fn fail(&mut self, error: ProtocolError)
        ensures
            *final(self) == old(self).failed(error),
    {
        self.phase = Phase::Terminal;
        if self.error.is_none() {
            self.error = Some(error);
        }
    }

    /// Whether the session is over.
    pub fn is_over(&self) -> (over: bool)
        ensures
            over == (self.phase == Phase::Terminal),
    {
        match self.phase {
            Phase::Terminal => true,
            _ => false,
        }
    }

    /// The colour of the side that makes the move that is waited for.
    #[verifier::when_used_as_spec(spec_mover)]
    pub fn mover(&self) -> (color: Color)
        ensures
            color == self.spec_mover(),
    {
        match self.phase {
            Phase::AwaitLocalMove => self.local_color,
            _ => self.local_color.opposite(),
        }
    }

    /// Takes the peer's opening message and answers it. This side plays the
    /// colour that the peer asks it to play; the answer shows `game`, the
    /// position at which play starts.
    ///
    /// Outside the handshake this is an error, and ends the session.
    pub fn handshake(&mut self, hello: &ClientToServerHandshake, game: &Position) -> (reply: Result<
        ServerToClientHandshake,
        ProtocolError,
    >)
        ensures
            *final(self) == old(self).after_handshake(*hello, game@),
            reply is Ok <==> old(self).phase == Phase::AwaitHandshake,
            reply matches Ok(answer) ==> answer@ == spec_handshake_reply(game@),
            reply matches Err(error) ==> error == ProtocolError::UnexpectedMessage,
    {
        match self.phase {
            Phase::AwaitHandshake => {
                let joever = game_outcome(game);
                self.local_color = hello.requested_color;
                self.outcome = joever;
                self.error = None;
                self.phase = Session::phase_for(self.local_color, game);
                Ok(
                    ServerToClientHandshake {
                        features: supported_features(),
                        board: current_board(game),
                        moves: available_moves(game),
                        joever,
                    },
                )
            },
            _ => {
                self.fail(ProtocolError::UnexpectedMessage);
                Err(ProtocolError::UnexpectedMessage)
            },
        }
    }

    /// The phase of the turn loop for `game`.
    fn phase_for(local_color: Color, game: &Position) -> (phase: Phase)
        ensures
            phase == turn_phase(local_color, game@),
    {
        match game_outcome(game) {
            Joever::Ongoing => if game.current_turn() == local_color {
                Phase::AwaitLocalMove
            } else {
                Phase::AwaitRemoteMove
            },
            _ => Phase::Terminal,
        }
    }

    /// Takes a message of the peer and returns the move it asks for.
    ///
    /// A message that comes when it is not the peer's turn, one that is no
    /// move, and a move that names a square off the board are errors, and end
    /// the session.
    pub fn receive(&mut self, msg: &ClientToServer) -> (request: Result<MoveIntent, ProtocolError>)
        ensures
            request == old(self).received(*msg),
            *final(self) == old(self).after_receive(*msg),
    {
        let request = match self.phase {
            Phase::AwaitRemoteMove => match msg {
                ClientToServer::Move(mv) => decode_move(mv),
                ClientToServer::Other => Err(ProtocolError::UnexpectedMessage),
            },
            _ => Err(ProtocolError::UnexpectedMessage),
        };
        if let Err(error) = request {
            self.fail(error);
        }
        request
    }

    /// Records that the move `intent` was made on the board, which brought
    /// the game to `game`, and returns the message that tells the peer so.
    /// The turn passes by the rules engine's word, and the session is over
    /// once the game is.
    ///
    /// Outside the turn loop this is an error, and ends the session.
    pub fn commit(&mut self, game: &Position, intent: &MoveIntent) -> (state: Result<
        ServerToClient,
        ProtocolError,
    >)
        ensures
            *final(self) == old(self).after_commit(game@),
            state is Ok <==> old(self).in_turn_loop(),
            state matches Ok(msg) ==> msg@ == spec_state_message(
                game@,
                *intent,
                old(self).spec_mover(),
            ),
            state matches Err(error) ==> error == ProtocolError::UnexpectedMessage,
    {
        match self.phase {
            Phase::AwaitLocalMove | Phase::AwaitRemoteMove => {
                let move_made = encode_move(
                    &intent.from,
                    &intent.to,
                    intent.promotion,
                    self.mover(),
                );
                let joever = game_outcome(game);
                self.outcome = joever;
                self.phase = Session::phase_for(self.local_color, game);
                Ok(
                    ServerToClient::State {
                        board: current_board(game),
                        moves: available_moves(game),
                        joever,
                        move_made,
                    },
                )
            },
            _ => {
                self.fail(ProtocolError::UnexpectedMessage);
                Err(ProtocolError::UnexpectedMessage)
            },
        }
    }
}

/// The match is reported as won exactly when the rules engine reports
/// checkmate, and never as drawn.
pub proof fn lemma_outcome_reflects_checkmate(position: PositionView)
    ensures
        spec_game_outcome(position) != Joever::Ongoing <==> position.state == GameState::Checkmate,
        spec_game_outcome(position) != Joever::Draw,
        spec_game_outcome(position) == Joever::WhiteWin ==> position.turn == Color::Black,
        spec_game_outcome(position) == Joever::BlackWin ==> position.turn == Color::White,
{
}

/// Once the match is reported as over the session is over, and while the
/// session goes on it waits for the side whose turn it is.
pub proof fn lemma_commit_follows_the_game(session: Session, position: PositionView)
    requires
        session.in_turn_loop(),
    ensures
        session.after_commit(position).outcome == spec_game_outcome(position),
        session.after_commit(position).outcome != Joever::Ongoing <==> session.after_commit(
            position,
        ).phase == Phase::Terminal,
        session.after_commit(position).phase == Phase::AwaitLocalMove ==> position.turn
            == session.local_color,
        session.after_commit(position).phase == Phase::AwaitRemoteMove ==> position.turn
            != session.local_color,
        session.after_commit(position).local_color == session.local_color,
        session.after_commit(position).error == session.error,
{
}

/// A session that is over stays over: it takes no handshake, no message and
/// no move, and keeps its colour, its outcome and its first error.
pub proof fn lemma_terminal_is_final(
    session: Session,
    hello: ClientToServerHandshake,
    msg: ClientToServer,
    position: PositionView,
    error: ProtocolError,
)
    requires
        session.phase == Phase::Terminal,
    ensures
        session.after_handshake(hello, position) == session.failed(
            ProtocolError::UnexpectedMessage,
        ),
        session.received(msg) == Err::<MoveIntent, ProtocolError>(ProtocolError::UnexpectedMessage),
        session.after_receive(msg) == session.failed(ProtocolError::UnexpectedMessage),
        session.after_commit(position) == session.failed(ProtocolError::UnexpectedMessage),
        session.failed(error).phase == Phase::Terminal,
        session.failed(error).local_color == session.local_color,
        session.failed(error).outcome == session.outcome,
        session.error is Some ==> session.failed(error) == session,
{
}

} // verus!
