//! The session orchestrator: one step per event, tying the controller and the
//! protocol engine together.
//!
//! The caller owns the connection, the window and the rules engine. It hands
//! each thing that happened to [`run`] and carries out what comes back: it
//! sends a message, or asks the rules engine and hands in the answer.

use vstd::prelude::*;
use crate::board::{
    BoardPos, GameState, MoveIntent, MovePieceError, PieceType, Position, PositionView,
};
use crate::codec::{
    in_range, spec_available_moves, spec_current_board, spec_decode_move, spec_encode_move,
};
use crate::gameboard_controller::{
    lemma_controller_keeps_shape, outcome_view, spec_promotion_piece, ControllerView,
    GameboardController, InputEvent, MoveRequest,
};
use crate::protocol::{
    ClientToServer, ClientToServerHandshake, HandshakeView, Joever, ProtocolError, ServerToClient,
    ServerToClientHandshake, StateView,
};
use crate::session::{
    spec_game_outcome, spec_handshake_reply, spec_state_message, spec_supported_features,
    turn_phase, Phase, Session,
};

verus! {

/// The question that the rules engine has been asked and not yet answered.
#[derive(Clone, Copy, Debug, PartialEq, Eq, Structural)]
pub enum Pending {
    /// No question is open.
    Nothing,
    /// A request of the player at this board.
    Local(MoveRequest),
    /// The peer's move.
    Remote(MoveIntent),
    /// The promotion of the peer's pawn.
    RemotePromotion(MoveRequest),
}

/// Whom the orchestrator waits for.
#[derive(Clone, Copy, Debug, PartialEq, Eq, Structural)]
pub enum Awaiting {
    /// The peer's opening message.
    Handshake,
    /// A message of the peer.
    Peer,
    /// The pointer.
    Input,
    /// The rules engine's answer.
    Engine,
    /// Nobody: the session is over.
    Nobody,
}

/// Something that happened.
#[derive(Debug)]
pub enum Event {
    /// The peer's opening message came in.
    Handshake(ClientToServerHandshake),
    /// A message of the peer came in.
    Message(ClientToServer),
    /// The connection closed, or what came in could not be read.
    Lost,
    /// The pointer did something. `pos` is the board's upper left corner in
    /// the window and `size` its edge, in pixels.
    Input { pos: [i32; 2], size: u32, e: InputEvent },
    /// The rules engine answered: with the position after the move or the
    /// promotion, or with its reason for refusing the move.
    Engine(Result<Position, MovePieceError>),
}

/// The mathematical content of an [`Event`].
pub enum EventView {
    Handshake(ClientToServerHandshake),
    Message(ClientToServer),
    Lost,
    Input { pos: (int, int), size: int, e: InputEvent },
    Engine(Result<PositionView, MovePieceError>),
}

impl View for Event {
    type V = EventView;

    open spec fn view(&self) -> EventView {
        match *self {
            Event::Handshake(hello) => EventView::Handshake(hello),
            Event::Message(msg) => EventView::Message(msg),
            Event::Lost => EventView::Lost,
            Event::Input { pos, size, e } => EventView::Input {
                pos: (pos[0] as int, pos[1] as int),
                size: size as int,
                e,
            },
            Event::Engine(outcome) => EventView::Engine(outcome_view(outcome)),
        }
    }
}

/// What the caller is to do.
#[derive(Debug)]
pub enum Action {
    /// Nothing.
    Idle,
    /// Ask this of the rules engine, and hand in its answer.
    Ask(MoveRequest),
    /// Send the answer to the opening message.
    Welcome(ServerToClientHandshake),
    /// Send the state after a move.
    Tell(ServerToClient),
    /// Close the connection: the session has ended in this error.
    Close(ProtocolError),
}

/// The mathematical content of an [`Action`].
pub enum ActionView {
    Idle,
    Ask(MoveRequest),
    Welcome(HandshakeView),
    Tell(StateView),
    Close(ProtocolError),
}

impl View for Action {
    type V = ActionView;

    open spec fn view(&self) -> ActionView {
        match *self {
            Action::Idle => ActionView::Idle,
            Action::Ask(request) => ActionView::Ask(request),
            Action::Welcome(reply) => ActionView::Welcome(reply@),
            Action::Tell(state) => ActionView::Tell(state@),
            Action::Close(error) => ActionView::Close(error),
        }
    }
}

/// The mathematical content of an [`Orchestrator`].
pub struct OrchestratorView {
    pub session: Session,
    pub controller: ControllerView,
    pub pending: Pending,
}

impl OrchestratorView {
    /// A match that starts at `gameboard` and waits for the peer's opening
    /// message.
    pub open spec fn initial(gameboard: PositionView) -> OrchestratorView {
        OrchestratorView {
            session: Session::initial(),
            controller: ControllerView::initial(gameboard),
            pending: Pending::Nothing,
        }
    }

    /// The shape that every reachable orchestrator has: the rules engine owes
    /// an answer only within the turn loop, to the side whose turn it is and
    /// on a move between squares of the board, and the controller has its
    /// shape.
    pub open spec fn wf(self) -> bool {
        &&& self.controller.wf()
        &&& match self.pending {
            Pending::Nothing => true,
            Pending::Local(request) => self.session.phase == Phase::AwaitLocalMove
                && request.on_board(),
            Pending::Remote(intent) => self.session.phase == Phase::AwaitRemoteMove
                && intent.on_board(),
            Pending::RemotePromotion(request) => self.session.phase == Phase::AwaitRemoteMove
                && request.on_board(),
        }
    }

    /// Whom the orchestrator waits for.
    pub open spec fn awaiting(self) -> Awaiting {
        match self.session.phase {
            Phase::Terminal => Awaiting::Nobody,
            _ => if self.pending != Pending::Nothing {
                Awaiting::Engine
            } else {
                match self.session.phase {
                    Phase::AwaitHandshake => Awaiting::Handshake,
                    Phase::AwaitRemoteMove => Awaiting::Peer,
                    _ => Awaiting::Input,
                }
            },
        }
    }

    /// The move `intent` stands on the board that `controller` holds: the
    /// peer is told, and the turn passes. Outside the turn loop there is
    /// nobody to tell, and the session ends.
    pub open spec fn committed(self, controller: ControllerView, intent: MoveIntent) -> (
        OrchestratorView,
        ActionView,
    ) {
        if self.session.in_turn_loop() {
            (
                OrchestratorView {
                    session: self.session.after_commit(controller.gameboard),
                    controller,
                    pending: Pending::Nothing,
                },
                ActionView::Tell(
                    spec_state_message(controller.gameboard, intent, self.session.spec_mover()),
                ),
            )
        } else {
            self.closed(controller, ProtocolError::UnexpectedMessage)
        }
    }

    /// The session ends in `error`.
    pub open spec fn closed(self, controller: ControllerView, error: ProtocolError) -> (
        OrchestratorView,
        ActionView,
    ) {
        (
            OrchestratorView {
                session: self.session.failed(error),
                controller,
                pending: Pending::Nothing,
            },
            ActionView::Close(error),
        )
    }

    /// The peer's opening message came in. It is answered during the
    /// handshake; at any other time it ends the session.
    pub open spec fn greeted(self, hello: ClientToServerHandshake) -> (
        OrchestratorView,
        ActionView,
    ) {
        if self.session.phase == Phase::AwaitHandshake {
            (
                OrchestratorView {
                    session: self.session.after_handshake(hello, self.controller.gameboard),
                    ..self
                },
                ActionView::Welcome(spec_handshake_reply(self.controller.gameboard)),
            )
        } else {
            self.closed(self.controller, ProtocolError::UnexpectedMessage)
        }
    }

    /// A message of the peer came in. It is taken when it is the peer's turn
    /// and the rules engine owes no answer; its move is then asked of the
    /// engine. Any other message ends the session.
    pub open spec fn heard(self, msg: ClientToServer) -> (OrchestratorView, ActionView) {
        if self.pending != Pending::Nothing {
            self.closed(self.controller, ProtocolError::UnexpectedMessage)
        } else {
            match self.session.received(msg) {
                Ok(intent) => (
                    OrchestratorView { pending: Pending::Remote(intent), ..self },
                    ActionView::Ask(MoveRequest::Attempt { from: intent.from, to: intent.to }),
                ),
                Err(error) => self.closed(self.controller, error),
            }
        }
    }

    /// The pointer did something. It is followed when it is this side's turn
    /// and the rules engine owes no answer, and is ignored otherwise.
    pub open spec fn pointed(self, pos: (int, int), size: int, e: InputEvent) -> (
        OrchestratorView,
        ActionView,
    ) {
        if self.session.phase == Phase::AwaitLocalMove && self.pending == Pending::Nothing {
            let (controller, request) = self.controller.on_event(pos, size, e);
            match request {
                Some(request) => (
                    OrchestratorView { controller, pending: Pending::Local(request), ..self },
                    ActionView::Ask(request),
                ),
                None => (OrchestratorView { controller, ..self }, ActionView::Idle),
            }
        } else {
            (self, ActionView::Idle)
        }
    }

    /// The rules engine answered the pending question. A move of the player
    /// that stands is told to the peer, unless a promotion is still to be
    /// chosen. A move of the peer that stands is told back to it, after the
    /// promotion it names where one is due; one that does not stand ends the
    /// session.
    pub open spec fn answered(self, outcome: Result<PositionView, MovePieceError>, now: u64) -> (
        OrchestratorView,
        ActionView,
    ) {
        match self.pending {
            Pending::Nothing => (self, ActionView::Idle),
            Pending::Local(request) => {
                let (controller, intent) = self.controller.finished(request, outcome, now);
                match intent {
                    Some(intent) => self.committed(controller, intent),
                    None => (
                        OrchestratorView { controller, pending: Pending::Nothing, ..self },
                        ActionView::Idle,
                    ),
                }
            },
            Pending::Remote(intent) => {
                let (controller, next) = self.controller.remote_moved(intent, outcome, now);
                match next {
                    Err(error) => self.closed(controller, error),
                    Ok(None) => self.committed(
                        controller,
                        MoveIntent { promotion: None, ..intent },
                    ),
                    Ok(Some(request)) => (
                        OrchestratorView {
                            controller,
                            pending: Pending::RemotePromotion(request),
                            ..self
                        },
                        ActionView::Ask(request),
                    ),
                }
            },
            Pending::RemotePromotion(request) => {
                let (controller, intent) = self.controller.finished(request, outcome, now);
                match intent {
                    Some(intent) => self.committed(controller, intent),
                    None => self.closed(controller, ProtocolError::IllegalMove),
                }
            },
        }
    }

    /// The orchestrator after `event`, and what the caller is to do. `now` is
    /// the time at which a piece that was moved starts to slide. Once the
    /// session is over nothing happens any more, and a lost connection ends
    /// it.
    pub open spec fn stepped(self, event: EventView, now: u64) -> (OrchestratorView, ActionView) {
        if self.session.phase == Phase::Terminal {
            (self, ActionView::Idle)
        } else {
            match event {
                EventView::Handshake(hello) => self.greeted(hello),
                EventView::Message(msg) => self.heard(msg),
                EventView::Lost => self.closed(self.controller, ProtocolError::ConnectionLost),
                EventView::Input { pos, size, e } => self.pointed(pos, size, e),
                EventView::Engine(outcome) => self.answered(outcome, now),
            }
        }
    }
}

/// One hosted match: the session with the peer, the controller of the board
/// on this side, and the question that the rules engine still owes an answer
/// to.
#[derive(Debug)]
pub struct Orchestrator {
    pub session: Session,
    pub controller: GameboardController,
    pub pending: Pending,
}

impl View for Orchestrator {
    type V = OrchestratorView;

    open spec fn view(&self) -> OrchestratorView {
        OrchestratorView {
            session: self.session,
            controller: self.controller@,
            pending: self.pending,
        }
    }
}

impl Orchestrator {
    /// A match that starts at `gameboard` and waits for the peer's opening
    /// message.
    pub fn new(gameboard: Position) -> (host: Orchestrator)
        ensures
            host@ == OrchestratorView::initial(gameboard@),
    {
        Orchestrator {
            session: Session::new(),
            controller: GameboardController::new(gameboard),
            pending: Pending::Nothing,
        }
    }

    /// Whom the orchestrator waits for.
    pub fn awaiting(&self) -> (whom: Awaiting)
        ensures
            whom == self@.awaiting(),
    {
        match self.session.phase {
            Phase::Terminal => Awaiting::Nobody,
            phase => match self.pending {
                Pending::Nothing => match phase {
                    Phase::AwaitHandshake => Awaiting::Handshake,
                    Phase::AwaitRemoteMove => Awaiting::Peer,
                    _ => Awaiting::Input,
                },
                _ => Awaiting::Engine,
            },
        }
    }

    /// Tells the peer of `intent`, which stands on the controller's board.
    fn commit(&mut self, intent: &MoveIntent) -> (action: Action)
        ensures
            final(self)@ == old(self)@.committed(old(self)@.controller, *intent).0,
            action@ == old(self)@.committed(old(self)@.controller, *intent).1,
    {
        self.pending = Pending::Nothing;
        match self.session.commit(&self.controller.gameboard, intent) {
            Ok(state) => Action::Tell(state),
            Err(error) => Action::Close(error),
        }
    }

    /// Ends the session in `error`.
    fn close(&mut self, error: ProtocolError) -> (action: Action)
        ensures
            final(self)@ == old(self)@.closed(old(self)@.controller, error).0,
            action@ == old(self)@.closed(old(self)@.controller, error).1,
    {
        self.pending = Pending::Nothing;
        self.session.fail(error);
        Action::Close(error)
    }
}

impl Orchestrator {
    /// Takes the peer's opening message.
    fn greet(&mut self, hello: &ClientToServerHandshake) -> (action: Action)
        ensures
            final(self)@ == old(self)@.greeted(*hello).0,
            action@ == old(self)@.greeted(*hello).1,
    {
        match self.session.phase {
            Phase::AwaitHandshake => match self.session.handshake(
                hello,
                &self.controller.gameboard,
            ) {
                Ok(reply) => Action::Welcome(reply),
                Err(error) => Action::Close(error),
            },
            _ => self.close(ProtocolError::UnexpectedMessage),
        }
    }

    /// Takes a message of the peer.
    fn hear(&mut self, msg: &ClientToServer) -> (action: Action)
        ensures
            final(self)@ == old(self)@.heard(*msg).0,
            action@ == old(self)@.heard(*msg).1,
    {
        match self.pending {
            Pending::Nothing => match self.session.receive(msg) {
                Ok(intent) => {
                    self.pending = Pending::Remote(intent);
                    Action::Ask(MoveRequest::Attempt { from: intent.from, to: intent.to })
                },
                Err(error) => Action::Close(error),
            },
            _ => self.close(ProtocolError::UnexpectedMessage),
        }
    }

    /// Takes what the pointer did.
    fn point(&mut self, pos: [i32; 2], size: u32, e: &InputEvent) -> (action: Action)
        ensures
            final(self)@ == old(self)@.pointed((pos[0] as int, pos[1] as int), size as int, *e).0,
            action@ == old(self)@.pointed((pos[0] as int, pos[1] as int), size as int, *e).1,
    {
        let local = match self.session.phase {
            Phase::AwaitLocalMove => match self.pending {
                Pending::Nothing => true,
                _ => false,
            },
            _ => false,
        };
        if local {
            match self.controller.event(pos, size, e) {
                Some(request) => {
                    self.pending = Pending::Local(request);
                    Action::Ask(request)
                },
                None => Action::Idle,
            }
        } else {
            Action::Idle
        }
    }

    /// Takes the rules engine's answer to the player's request.
    fn answer_local(
        &mut self,
        request: &MoveRequest,
        outcome: Result<Position, MovePieceError>,
    ) -> (action:
        Action)
        requires
            old(self).pending == Pending::Local(*request),
        ensures
            exists|now: u64|
                {
                    &&& final(self)@ == (#[trigger] old(self)@.answered(
                        outcome_view(outcome),
                        now,
                    )).0
                    &&& action@ == old(self)@.answered(outcome_view(outcome), now).1
                },
    {
        let ghost answer = outcome_view(outcome);
        let intent = self.controller.finish_move(request, outcome);
        let ghost now = choose|now: u64|
            {
                &&& self.controller@ == (#[trigger] old(self)@.controller.finished(
                    *request,
                    answer,
                    now,
                )).0
                &&& intent == old(self)@.controller.finished(*request, answer, now).1
            };
        let action = match intent {
            Some(intent) => self.commit(&intent),
            None => {
                self.pending = Pending::Nothing;
                Action::Idle
            },
        };
        assert(self@ == old(self)@.answered(answer, now).0);
        action
    }

    /// Takes the rules engine's answer to the peer's move.
    fn answer_remote(
        &mut self,
        intent: &MoveIntent,
        outcome: Result<Position, MovePieceError>,
    ) -> (action:
        Action)
        requires
            old(self).pending == Pending::Remote(*intent),
        ensures
            exists|now: u64|
                {
                    &&& final(self)@ == (#[trigger] old(self)@.answered(
                        outcome_view(outcome),
                        now,
                    )).0
                    &&& action@ == old(self)@.answered(outcome_view(outcome), now).1
                },
    {
        let ghost answer = outcome_view(outcome);
        let next = self.controller.remote_move(intent, outcome);
        let ghost now = choose|now: u64|
            {
                &&& self.controller@ == (#[trigger] old(self)@.controller.remote_moved(
                    *intent,
                    answer,
                    now,
                )).0
                &&& next == old(self)@.controller.remote_moved(*intent, answer, now).1
            };
        let action = match next {
            Err(error) => self.close(error),
            Ok(None) => self.commit(
                &MoveIntent { from: intent.from, to: intent.to, promotion: None },
            ),
            Ok(Some(request)) => {
                self.pending = Pending::RemotePromotion(request);
                Action::Ask(request)
            },
        };
        assert(self@ == old(self)@.answered(answer, now).0);
        action
    }

    /// Takes the rules engine's answer to the promotion of the peer's pawn.
    fn answer_promotion(
        &mut self,
        request: &MoveRequest,
        outcome: Result<Position, MovePieceError>,
    ) -> (action:
        Action)
        requires
            old(self).pending == Pending::RemotePromotion(*request),
        ensures
            exists|now: u64|
                {
                    &&& final(self)@ == (#[trigger] old(self)@.answered(
                        outcome_view(outcome),
                        now,
                    )).0
                    &&& action@ == old(self)@.answered(outcome_view(outcome), now).1
                },
    {
        let ghost answer = outcome_view(outcome);
        let intent = self.controller.finish_move(request, outcome);
        let ghost now = choose|now: u64|
            {
                &&& self.controller@ == (#[trigger] old(self)@.controller.finished(
                    *request,
                    answer,
                    now,
                )).0
                &&& intent == old(self)@.controller.finished(*request, answer, now).1
            };
        let action = match intent {
            Some(intent) => self.commit(&intent),
            None => self.close(ProtocolError::IllegalMove),
        };
        assert(self@ == old(self)@.answered(answer, now).0);
        action
    }
}

/// Takes one event and returns what the caller is to do.
pub fn run(host: &mut Orchestrator, event: Event) -> (action: Action)
    ensures
        exists|now: u64|
            {
                &&& final(host)@ == (#[trigger] old(host)@.stepped(event@, now)).0
                &&& action@ == old(host)@.stepped(event@, now).1
            },
{
    let ghost before = host@;
    let ghost happened = event@;
    if host.session.is_over() {
        assert(host@ == before.stepped(happened, 0).0);
        return Action::Idle;
    }
    match event {
        Event::Handshake(hello) => {
            let action = host.greet(&hello);
            assert(host@ == before.stepped(happened, 0).0);
            action
        },
        Event::Message(msg) => {
            let action = host.hear(&msg);
            assert(host@ == before.stepped(happened, 0).0);
            action
        },
        Event::Lost => {
            let action = host.close(ProtocolError::ConnectionLost);
            assert(host@ == before.stepped(happened, 0).0);
            action
        },
        Event::Input { pos, size, e } => {
            let action = host.point(pos, size, &e);
            assert(host@ == before.stepped(happened, 0).0);
            action
        },
        Event::Engine(outcome) => {
            let ghost answer = outcome_view(outcome);
            match host.pending {
                Pending::Nothing => {
                    assert(host@ == before.stepped(happened, 0).0);
                    Action::Idle
                },
                Pending::Local(request) => {
                    let action = host.answer_local(&request, outcome);
                    let ghost now = choose|now: u64|
                        {
                            &&& host@ == (#[trigger] before.answered(answer, now)).0
                            &&& action@ == before.answered(answer, now).1
                        };
                    assert(host@ == before.stepped(happened, now).0);
                    action
                },
                Pending::Remote(intent) => {
                    let action = host.answer_remote(&intent, outcome);
                    let ghost now = choose|now: u64|
                        {
                            &&& host@ == (#[trigger] before.answered(answer, now)).0
                            &&& action@ == before.answered(answer, now).1
                        };
                    assert(host@ == before.stepped(happened, now).0);
                    action
                },
                Pending::RemotePromotion(request) => {
                    let action = host.answer_promotion(&request, outcome);
                    let ghost now = choose|now: u64|
                        {
                            &&& host@ == (#[trigger] before.answered(answer, now)).0
                            &&& action@ == before.answered(answer, now).1
                        };
                    assert(host@ == before.stepped(happened, now).0);
                    action
                },
            }
        },
    }
}

/// The handshake: a fresh orchestrator answers the peer's opening message
/// with the fixed list of rules and the board of the position at which play
/// starts, plays the colour that the peer asks for, and waits for the side to
/// move.
pub proof fn lemma_handshake(position: PositionView, hello: ClientToServerHandshake, now: u64)
    ensures
        ({
            let (after, action) = OrchestratorView::initial(position).stepped(
                EventView::Handshake(hello),
                now,
            );
            &&& action == ActionView::Welcome(spec_handshake_reply(position))
            &&& spec_handshake_reply(position).features == spec_supported_features()
            &&& spec_handshake_reply(position).board == spec_current_board(position)
            &&& after.session.local_color == hello.requested_color
            &&& after.session.phase == turn_phase(hello.requested_color, position)
            &&& after.session.error is None
            &&& after.controller == ControllerView::initial(position)
            &&& after.pending == Pending::Nothing
        }),
{
}

/// A move of the player that the rules engine accepts, and that needs no
/// promotion, is told to the peer at once: with the board as it stands after
/// the move, the move itself in the player's colour, and the match reported
/// as won only where the engine reports checkmate. The turn passes by the
/// engine's word.
pub proof fn lemma_local_move_is_told(
    host: OrchestratorView,
    from: BoardPos,
    to: BoardPos,
    position: PositionView,
    now: u64,
)
    requires
        host.session.phase == Phase::AwaitLocalMove,
        host.pending == Pending::Local(MoveRequest::Attempt { from, to }),
        position.state != GameState::PromotionRequired,
    ensures
        ({
            let (after, action) = host.stepped(EventView::Engine(Ok(position)), now);
            &&& action == ActionView::Tell(
                StateView {
                    board: spec_current_board(position),
                    moves: spec_available_moves(position),
                    joever: spec_game_outcome(position),
                    move_made: spec_encode_move(from, to, None, host.session.local_color),
                },
            )
            &&& (spec_game_outcome(position) != Joever::Ongoing <==> position.state
                == GameState::Checkmate)
            &&& after.controller.gameboard == position
            &&& after.controller.selected_cell is None
            &&& after.session.phase == turn_phase(host.session.local_color, position)
            &&& after.session.outcome == spec_game_outcome(position)
            &&& after.pending == Pending::Nothing
        }),
{
}

/// A move of the player that the rules engine refuses is told to nobody: the
/// board stays as it was, nothing is selected, and it is still the player's
/// turn.
pub proof fn lemma_refused_local_move(
    host: OrchestratorView,
    from: BoardPos,
    to: BoardPos,
    error: MovePieceError,
    now: u64,
)
    requires
        host.session.phase == Phase::AwaitLocalMove,
        host.pending == Pending::Local(MoveRequest::Attempt { from, to }),
    ensures
        ({
            let (after, action) = host.stepped(EventView::Engine(Err(error)), now);
            &&& action == ActionView::Idle
            &&& after.controller == host.controller.deselected()
            &&& after.session == host.session
            &&& after.pending == Pending::Nothing
        }),
{
}

/// The promotion of the player's pawn, from the move to the message.
///
/// When the rules engine answers the move with a position that wants a
/// promotion, nothing is told yet and the menu opens on the pawn's square.
/// A press while a menu cell is hovered asks the engine for the piece behind
/// that cell and closes the menu. The engine's answer to that is told to the
/// peer, with the chosen piece in the move.
pub proof fn lemma_promotion_flow(
    host: OrchestratorView,
    from: BoardPos,
    to: BoardPos,
    wanting: PositionView,
    choice: usize,
    pos: (int, int),
    size: int,
    promoted: PositionView,
    now: u64,
)
    requires
        host.session.phase == Phase::AwaitLocalMove,
        host.pending == Pending::Local(MoveRequest::Attempt { from, to }),
        wanting.state == GameState::PromotionRequired,
    ensures
        ({
            let (opened, first) = host.stepped(EventView::Engine(Ok(wanting)), now);
            let hovering = OrchestratorView {
                controller: ControllerView {
                    hovered_promotion_square: Some(choice),
                    ..opened.controller
                },
                ..opened
            };
            let (asked, second) = hovering.stepped(
                EventView::Input { pos, size, e: InputEvent::PointerPressed },
                now,
            );
            let (told, third) = asked.stepped(EventView::Engine(Ok(promoted)), now);
            let piece = spec_promotion_piece(choice);
            &&& first == ActionView::Idle
            &&& opened.controller.ongoing_promotion == Some(to)
            &&& opened.controller.hovered_promotion_square is None
            &&& opened.session == host.session
            &&& opened.pending == Pending::Nothing
            &&& second == ActionView::Ask(MoveRequest::Promote { from, to, piece })
            &&& asked.controller.ongoing_promotion is None
            &&& choice == 3 ==> piece == PieceType::Queen
            &&& third == ActionView::Tell(
                spec_state_message(
                    promoted,
                    MoveIntent { from, to, promotion: Some(piece) },
                    host.session.local_color,
                ),
            )
            &&& told.controller.ongoing_promotion is None
            &&& told.controller.gameboard == promoted
            &&& told.pending == Pending::Nothing
        }),
{
}

/// A move of the peer: taken when it is the peer's turn, asked of the rules
/// engine, and told back with the board as it stands after the move. A move
/// that the engine refuses ends the session, and so does a record that names
/// a square off the board.
pub proof fn lemma_remote_move(
    host: OrchestratorView,
    msg: ClientToServer,
    outcome: Result<PositionView, MovePieceError>,
    now: u64,
)
    requires
        host.session.phase == Phase::AwaitRemoteMove,
        host.pending == Pending::Nothing,
    ensures
        ({
            let (asked, first) = host.stepped(EventView::Message(msg), now);
            let (after, second) = asked.stepped(EventView::Engine(outcome), now);
            match host.session.received(msg) {
                Err(error) => {
                    &&& first == ActionView::Close(error)
                    &&& asked.session == host.session.failed(error)
                    &&& asked.session.phase == Phase::Terminal
                    &&& asked.controller == host.controller
                },
                Ok(intent) => {
                    &&& intent.from.on_board() && intent.to.on_board()
                    &&& first == ActionView::Ask(
                        MoveRequest::Attempt { from: intent.from, to: intent.to },
                    )
                    &&& asked.session == host.session
                    &&& match outcome {
                        Err(_) => {
                            &&& second == ActionView::Close(ProtocolError::IllegalMove)
                            &&& after.session == host.session.failed(ProtocolError::IllegalMove)
                            &&& after.session.phase == Phase::Terminal
                            &&& after.controller.gameboard == host.controller.gameboard
                        },
                        Ok(position) => position.state != GameState::PromotionRequired ==> {
                            &&& second == ActionView::Tell(
                                spec_state_message(
                                    position,
                                    MoveIntent { promotion: None, ..intent },
                                    host.session.local_color.opposite(),
                                ),
                            )
                            &&& after.controller.gameboard == position
                            &&& after.session.phase == turn_phase(
                                host.session.local_color,
                                position,
                            )
                        },
                    }
                },
            }
        }),
{
}

/// A session that is over takes nothing in and asks for nothing.
pub proof fn lemma_over_is_over(host: OrchestratorView, event: EventView, now: u64)
    requires
        host.session.phase == Phase::Terminal,
    ensures
        host.stepped(event, now) == (host, ActionView::Idle),
        host.awaiting() == Awaiting::Nobody,
{
}

/// While it is not this side's turn the pointer moves nothing: the selection,
/// the board and the session stay as they are.
pub proof fn lemma_input_waits_for_turn(
    host: OrchestratorView,
    pos: (int, int),
    size: int,
    e: InputEvent,
    now: u64,
)
    requires
        host.session.phase != Phase::AwaitLocalMove || host.pending != Pending::Nothing,
    ensures
        host.stepped(EventView::Input { pos, size, e }, now) == (host, ActionView::Idle),
{
}

/// The orchestrator keeps its shape: it has it when it is made, and every
/// event leaves it in place. A question to the rules engine is pending
/// whenever one is asked, and none is once a message goes out or the session
/// is closed. Every move that is told to the peer is between squares of the
/// board, so that the peer can read it.
pub proof fn lemma_orchestrator_keeps_shape(
    host: OrchestratorView,
    gameboard: PositionView,
    event: EventView,
    now: u64,
)
    requires
        host.wf(),
    ensures
        OrchestratorView::initial(gameboard).wf(),
        host.stepped(event, now).0.wf(),
        host.stepped(event, now).1 matches ActionView::Ask(asked) ==> asked.on_board()
            && host.stepped(event, now).0.pending != Pending::Nothing,
        host.stepped(event, now).1 is Welcome || host.stepped(event, now).1 is Tell
            || host.stepped(event, now).1 is Close ==> host.stepped(event, now).0.pending
            == Pending::Nothing,
        host.stepped(event, now).1 matches ActionView::Tell(state) ==> in_range(state.move_made)
            && spec_decode_move(state.move_made) is Ok,
        host.stepped(event, now).1 is Close ==> host.stepped(event, now).0.session.phase
            == Phase::Terminal,
{
    let intent = MoveIntent {
        from: BoardPos { file: 0, rank: 0 },
        to: BoardPos { file: 0, rank: 0 },
        promotion: None,
    };
    let request = MoveRequest::Attempt { from: intent.from, to: intent.to };
    let refused = Err::<PositionView, MovePieceError>(MovePieceError::InvalidMove);
    lemma_controller_keeps_shape(
        ControllerView::initial(gameboard),
        gameboard,
        (0, 0),
        0,
        InputEvent::FrameTick,
        request,
        intent,
        refused,
        now,
    );
    match event {
        EventView::Input { pos, size, e } => {
            lemma_controller_keeps_shape(
                host.controller,
                gameboard,
                pos,
                size,
                e,
                request,
                intent,
                refused,
                now,
            );
        },
        EventView::Engine(outcome) => {
            match host.pending {
                Pending::Local(asked) | Pending::RemotePromotion(asked) => {
                    lemma_controller_keeps_shape(
                        host.controller,
                        gameboard,
                        (0, 0),
                        0,
                        InputEvent::FrameTick,
                        asked,
                        intent,
                        outcome,
                        now,
                    );
                },
                Pending::Remote(moved) => {
                    lemma_controller_keeps_shape(
                        host.controller,
                        gameboard,
                        (0, 0),
                        0,
                        InputEvent::FrameTick,
                        request,
                        moved,
                        outcome,
                        now,
                    );
                },
                Pending::Nothing => {},
            }
        },
        _ => {},
    }
}

} // verus!
