//! The connecting side of a match: the mirror image of the host.
//!
//! The connecting peer opens with the colour it asks the host to play and
//! plays the other one. It keeps a board of its own, makes on it the moves
//! that the host reports, and sends the host the moves of the player at this
//! board. The host answers every move with the state after it, the moves of
//! this side included.
//!
//! As on the hosting side the caller owns the connection, the window and the
//! rules engine, and carries out what [`play`] hands back.

use vstd::prelude::*;
use crate::board::{BoardPos, Color, MoveIntent, MovePieceError, Position, PositionView};
use crate::codec::{
    decode_move, encode_move, in_range, lemma_decode_encode, spec_decode_move, spec_encode_move,
};
use crate::gameboard_controller::{
    lemma_controller_keeps_shape, outcome_view, ControllerView, GameboardController, InputEvent,
    MoveRequest,
};
use crate::orchestrator::{ActionView, OrchestratorView, Pending};
use crate::protocol::{
    ClientToServer, ClientToServerHandshake, FeatureSet, Features, HandshakeView, Joever,
    ProtocolError, ServerToClient, ServerToClientHandshake, StateView,
};
use crate::session::{game_outcome, spec_game_outcome, spec_state_message, Phase};

verus! {

/// Where the connecting side's session stands.
#[derive(Clone, Copy, Debug, PartialEq, Eq, Structural, Hash)]
pub enum ClientPhase {
    /// The opening message is out: waiting for the host's answer.
    AwaitHandshake,
    /// It is this side's turn: waiting for the player's move.
    AwaitLocalMove,
    /// This side's move is out: waiting for the host's state after it.
    AwaitEcho,
    /// It is the host's turn: waiting for the state after its move.
    AwaitRemoteMove,
    /// The game or the session is over.
    Terminal,
}

/// Whom the connecting side waits for.
#[derive(Clone, Copy, Debug, PartialEq, Eq, Structural)]
pub enum ClientAwaiting {
    /// The host's answer to the opening message.
    Handshake,
    /// A state from the host.
    Host,
    /// The pointer.
    Input,
    /// The rules engine's answer.
    Engine,
    /// Nobody: the session is over.
    Nobody,
}

/// The phase of the turn loop for a position, when the host has last reported
/// the match as `joever`: over once the host or the rules engine says so,
/// else by whose turn the rules engine says it is.
pub open spec fn client_turn_phase(local_color: Color, position: PositionView, joever: Joever)
    -> ClientPhase {
    if joever != Joever::Ongoing || spec_game_outcome(position) != Joever::Ongoing {
        ClientPhase::Terminal
    } else if position.turn == local_color {
        ClientPhase::AwaitLocalMove
    } else {
        ClientPhase::AwaitRemoteMove
    }
}

/// Something that happened on the connecting side.
#[derive(Debug)]
pub enum ClientEvent {
    /// The host's answer to the opening message came in.
    Welcome(ServerToClientHandshake),
    /// A state came in from the host.
    State(ServerToClient),
    /// The connection closed, or what came in could not be read.
    Lost,
    /// The pointer did something. `pos` is the board's upper left corner in
    /// the window and `size` its edge, in pixels.
    Input { pos: [i32; 2], size: u32, e: InputEvent },
    /// The rules engine answered: with the position after the move or the
    /// promotion, or with its reason for refusing the move.
    Engine(Result<Position, MovePieceError>),
}

/// The mathematical content of a [`ClientEvent`].
pub enum ClientEventView {
    Welcome(HandshakeView),
    State(StateView),
    Lost,
    Input { pos: (int, int), size: int, e: InputEvent },
    Engine(Result<PositionView, MovePieceError>),
}

impl View for ClientEvent {
    type V = ClientEventView;

    open spec fn view(&self) -> ClientEventView {
        match *self {
            ClientEvent::Welcome(reply) => ClientEventView::Welcome(reply@),
            ClientEvent::State(state) => ClientEventView::State(state@),
            ClientEvent::Lost => ClientEventView::Lost,
            ClientEvent::Input { pos, size, e } => ClientEventView::Input {
                pos: (pos[0] as int, pos[1] as int),
                size: size as int,
                e,
            },
            ClientEvent::Engine(outcome) => ClientEventView::Engine(outcome_view(outcome)),
        }
    }
}

/// What the caller on the connecting side is to do.
#[derive(Clone, Copy, Debug, PartialEq, Eq, Structural)]
pub enum ClientAction {
    /// Nothing.
    Idle,
    /// Ask this of the rules engine, and hand in its answer.
    Ask(MoveRequest),
    /// Send this to the host.
    Send(ClientToServer),
    /// Close the connection: the session has ended in this error.
    Close(ProtocolError),
}

/// The mathematical content of a [`Client`].
pub struct ClientView {
    pub phase: ClientPhase,
    pub local_color: Color,
    pub host_features: Set<Features>,
    pub outcome: Joever,
    pub error: Option<ProtocolError>,
    pub controller: ControllerView,
    pub pending: Pending,
}

impl ClientView {
    /// The connecting side before the host has answered: it plays the colour
    /// opposite to the one it asks the host to play.
    pub open spec fn initial(gameboard: PositionView, requested_color: Color) -> ClientView {
        ClientView {
            phase: ClientPhase::AwaitHandshake,
            local_color: requested_color.opposite(),
            host_features: Set::empty(),
            outcome: Joever::Ongoing,
            error: None,
            controller: ControllerView::initial(gameboard),
            pending: Pending::Nothing,
        }
    }

    /// The opening message.
    pub open spec fn hello(self) -> ClientToServerHandshake {
        ClientToServerHandshake { requested_color: self.local_color.opposite() }
    }

    /// The shape that every reachable connecting side has: the rules engine
    /// owes an answer only to the side whose turn it is and on a move between
    /// squares of the board, and the controller has its shape.
    pub open spec fn wf(self) -> bool {
        &&& self.controller.wf()
        &&& match self.pending {
            Pending::Nothing => true,
            Pending::Local(request) => self.phase == ClientPhase::AwaitLocalMove
                && request.on_board(),
            Pending::Remote(intent) => self.phase == ClientPhase::AwaitRemoteMove
                && intent.on_board(),
            Pending::RemotePromotion(request) => self.phase == ClientPhase::AwaitRemoteMove
                && request.on_board(),
        }
    }

    /// Whom the connecting side waits for.
    pub open spec fn awaiting(self) -> ClientAwaiting {
        match self.phase {
            ClientPhase::Terminal => ClientAwaiting::Nobody,
            _ => if self.pending != Pending::Nothing {
                ClientAwaiting::Engine
            } else {
                match self.phase {
                    ClientPhase::AwaitHandshake => ClientAwaiting::Handshake,
                    ClientPhase::AwaitLocalMove => ClientAwaiting::Input,
                    _ => ClientAwaiting::Host,
                }
            },
        }
    }

    /// The session ends in `error`. Of several errors the first is kept.
    pub open spec fn closed(self, controller: ControllerView, error: ProtocolError) -> (
        ClientView,
        ClientAction,
    ) {
        (
            ClientView {
                phase: ClientPhase::Terminal,
                error: if self.error is Some {
                    self.error
                } else {
                    Some(error)
                },
                controller,
                pending: Pending::Nothing,
                ..self
            },
            ClientAction::Close(error),
        )
    }

    /// The player's move `intent` stands on the board that `controller`
    /// holds: it is sent to the host, whose state after it is then waited
    /// for.
    pub open spec fn sent(self, controller: ControllerView, intent: MoveIntent) -> (
        ClientView,
        ClientAction,
    ) {
        if self.phase == ClientPhase::AwaitLocalMove {
            (
                ClientView {
                    phase: ClientPhase::AwaitEcho,
                    controller,
                    pending: Pending::Nothing,
                    ..self
                },
                ClientAction::Send(
                    ClientToServer::Move(
                        spec_encode_move(
                            intent.from,
                            intent.to,
                            intent.promotion,
                            self.local_color,
                        ),
                    ),
                ),
            )
        } else {
            self.closed(controller, ProtocolError::UnexpectedMessage)
        }
    }

    /// The host's move stands on the board that `controller` holds: the turn
    /// passes by the rules engine's word.
    pub open spec fn settled(self, controller: ControllerView) -> (ClientView, ClientAction) {
        if self.phase == ClientPhase::AwaitRemoteMove {
            (
                ClientView {
                    phase: client_turn_phase(self.local_color, controller.gameboard, self.outcome),
                    controller,
                    pending: Pending::Nothing,
                    ..self
                },
                ClientAction::Idle,
            )
        } else {
            self.closed(controller, ProtocolError::UnexpectedMessage)
        }
    }

    /// The host's answer to the opening message came in. During the
    /// handshake its rules are kept and play starts with the side to move; at
    /// any other time it ends the session.
    pub open spec fn welcomed(self, reply: HandshakeView) -> (ClientView, ClientAction) {
        if self.phase == ClientPhase::AwaitHandshake {
            (
                ClientView {
                    phase: client_turn_phase(
                        self.local_color,
                        self.controller.gameboard,
                        reply.joever,
                    ),
                    host_features: reply.features.to_set(),
                    outcome: reply.joever,
                    ..self
                },
                ClientAction::Idle,
            )
        } else {
            self.closed(self.controller, ProtocolError::UnexpectedMessage)
        }
    }

    /// A state of the host came in. It is taken when this side's move is
    /// out, as the host's word on the match after it, and when it is the
    /// host's turn and the rules engine owes no answer; the move it reports
    /// is then asked of the engine. Any other state ends the session, and so
    /// does one whose move names a square off the board.
    pub open spec fn informed(self, state: StateView) -> (ClientView, ClientAction) {
        if self.pending != Pending::Nothing {
            self.closed(self.controller, ProtocolError::UnexpectedMessage)
        } else if self.phase == ClientPhase::AwaitEcho {
            (
                ClientView {
                    phase: client_turn_phase(
                        self.local_color,
                        self.controller.gameboard,
                        state.joever,
                    ),
                    outcome: state.joever,
                    ..self
                },
                ClientAction::Idle,
            )
        } else if self.phase == ClientPhase::AwaitRemoteMove {
            match spec_decode_move(state.move_made) {
                Ok(intent) => (
                    ClientView { outcome: state.joever, pending: Pending::Remote(intent), ..self },
                    ClientAction::Ask(MoveRequest::Attempt { from: intent.from, to: intent.to }),
                ),
                Err(error) => self.closed(self.controller, error),
            }
        } else {
            self.closed(self.controller, ProtocolError::UnexpectedMessage)
        }
    }

    /// The pointer did something. It is followed when it is this side's turn
    /// and the rules engine owes no answer, and is ignored otherwise.
    pub open spec fn pointed(self, pos: (int, int), size: int, e: InputEvent) -> (
        ClientView,
        ClientAction,
    ) {
        if self.phase == ClientPhase::AwaitLocalMove && self.pending == Pending::Nothing {
            let (controller, request) = self.controller.on_event(pos, size, e);
            match request {
                Some(request) => (
                    ClientView { controller, pending: Pending::Local(request), ..self },
                    ClientAction::Ask(request),
                ),
                None => (ClientView { controller, ..self }, ClientAction::Idle),
            }
        } else {
            (self, ClientAction::Idle)
        }
    }

    /// The rules engine answered the pending question. A move of the player
    /// that stands is sent to the host, unless a promotion is still to be
    /// chosen. A move of the host that stands passes the turn, after the
    /// promotion it names where one is due; one that does not stand ends the
    /// session.
    pub open spec fn answered(self, outcome: Result<PositionView, MovePieceError>, now: u64) -> (
        ClientView,
        ClientAction,
    ) {
        match self.pending {
            Pending::Nothing => (self, ClientAction::Idle),
            Pending::Local(request) => {
                let (controller, intent) = self.controller.finished(request, outcome, now);
                match intent {
                    Some(intent) => self.sent(controller, intent),
                    None => (
                        ClientView { controller, pending: Pending::Nothing, ..self },
                        ClientAction::Idle,
                    ),
                }
            },
            Pending::Remote(intent) => {
                let (controller, next) = self.controller.remote_moved(intent, outcome, now);
                match next {
                    Err(error) => self.closed(controller, error),
                    Ok(None) => self.settled(controller),
                    Ok(Some(request)) => (
                        ClientView {
                            controller,
                            pending: Pending::RemotePromotion(request),
                            ..self
                        },
                        ClientAction::Ask(request),
                    ),
                }
            },
            Pending::RemotePromotion(request) => {
                let (controller, intent) = self.controller.finished(request, outcome, now);
                match intent {
                    Some(_) => self.settled(controller),
                    None => self.closed(controller, ProtocolError::IllegalMove),
                }
            },
        }
    }

    /// The connecting side after `event`, and what the caller is to do. `now`
    /// is the time at which a piece that was moved starts to slide. Once the
    /// session is over nothing happens any more, and a lost connection ends
    /// it.
    pub open spec fn stepped(self, event: ClientEventView, now: u64) -> (ClientView, ClientAction) {
        if self.phase == ClientPhase::Terminal {
            (self, ClientAction::Idle)
        } else {
            match event {
                ClientEventView::Welcome(reply) => self.welcomed(reply),
                ClientEventView::State(state) => self.informed(state),
                ClientEventView::Lost => self.closed(
                    self.controller,
                    ProtocolError::ConnectionLost,
                ),
                ClientEventView::Input { pos, size, e } => self.pointed(pos, size, e),
                ClientEventView::Engine(outcome) => self.answered(outcome, now),
            }
        }
    }
}

/// One match on the connecting side: the session with the host, the
/// controller of the board on this side, and the question that the rules
/// engine still owes an answer to.
#[derive(Debug)]
pub struct Client {
    pub phase: ClientPhase,
    /// The colour that this side plays.
    pub local_color: Color,
    /// The rules that the host has announced.
    pub host_features: FeatureSet,
    /// How the match stands by the host's last word.
    pub outcome: Joever,
    /// Why the session ended, where it ended in an error.
    pub error: Option<ProtocolError>,
    pub controller: GameboardController,
    pub pending: Pending,
}

impl View for Client {
    type V = ClientView;

    open spec fn view(&self) -> ClientView {
        ClientView {
            phase: self.phase,
            local_color: self.local_color,
            host_features: self.host_features@,
            outcome: self.outcome,
            error: self.error,
            controller: self.controller@,
            pending: self.pending,
        }
    }
}

impl Client {
    /// A match that starts at `gameboard`, in which the host is asked to
    /// play `requested_color`.
    pub fn new(gameboard: Position, requested_color: Color) -> (client: Client)
        ensures
            client@ == ClientView::initial(gameboard@, requested_color),
    {
        Client {
            phase: ClientPhase::AwaitHandshake,
            local_color: requested_color.opposite(),
            host_features: FeatureSet::empty(),
            outcome: Joever::Ongoing,
            error: None,
            controller: GameboardController::new(gameboard),
            pending: Pending::Nothing,
        }
    }

    /// The opening message, to be sent once the connection stands.
    pub fn hello(&self) -> (hello: ClientToServerHandshake)
        ensures
            hello == self@.hello(),
    {
        ClientToServerHandshake { requested_color: self.local_color.opposite() }
    }

    /// Whom the connecting side waits for.
    pub fn awaiting(&self) -> (whom: ClientAwaiting)
        ensures
            whom == self@.awaiting(),
    {
        match self.phase {
            ClientPhase::Terminal => ClientAwaiting::Nobody,
            phase => match self.pending {
                Pending::Nothing => match phase {
                    ClientPhase::AwaitHandshake => ClientAwaiting::Handshake,
                    ClientPhase::AwaitLocalMove => ClientAwaiting::Input,
                    _ => ClientAwaiting::Host,
                },
                _ => ClientAwaiting::Engine,
            },
        }
    }

    /// The phase of the turn loop for the controller's board.
    fn turn_phase(&self, joever: Joever) -> (phase: ClientPhase)
        ensures
            phase == client_turn_phase(self.local_color, self.controller@.gameboard, joever),
    {
        let over = match joever {
            Joever::Ongoing => match game_outcome(&self.controller.gameboard) {
                Joever::Ongoing => false,
                _ => true,
            },
            _ => true,
        };
        if over {
            ClientPhase::Terminal
        } else if self.controller.gameboard.current_turn() == self.local_color {
            ClientPhase::AwaitLocalMove
        } else {
            ClientPhase::AwaitRemoteMove
        }
    }

    /// Ends the session in `error`.
    fn close(&mut self, error: ProtocolError) -> (action: ClientAction)
        ensures
            final(self)@ == old(self)@.closed(old(self)@.controller, error).0,
            action == old(self)@.closed(old(self)@.controller, error).1,
    {
        self.phase = ClientPhase::Terminal;
        if self.error.is_none() {
            self.error = Some(error);
        }
        self.pending = Pending::Nothing;
        ClientAction::Close(error)
    }

    /// Sends the player's move `intent`, which stands on the controller's
    /// board.
    fn send(&mut self, intent: &MoveIntent) -> (action: ClientAction)
        ensures
            final(self)@ == old(self)@.sent(old(self)@.controller, *intent).0,
            action == old(self)@.sent(old(self)@.controller, *intent).1,
    {
        match self.phase {
            ClientPhase::AwaitLocalMove => {
                self.phase = ClientPhase::AwaitEcho;
                self.pending = Pending::Nothing;
                ClientAction::Send(
                    ClientToServer::Move(
                        encode_move(&intent.from, &intent.to, intent.promotion, self.local_color),
                    ),
                )
            },
            _ => self.close(ProtocolError::UnexpectedMessage),
        }
    }

    /// Passes the turn after the host's move, which stands on the
    /// controller's board.
    fn settle(&mut self) -> (action: ClientAction)
        ensures
            final(self)@ == old(self)@.settled(old(self)@.controller).0,
            action == old(self)@.settled(old(self)@.controller).1,
    {
        match self.phase {
            ClientPhase::AwaitRemoteMove => {
                self.phase = self.turn_phase(self.outcome);
                self.pending = Pending::Nothing;
                ClientAction::Idle
            },
            _ => self.close(ProtocolError::UnexpectedMessage),
        }
    }
}

impl Client {
    /// Takes the host's answer to the opening message.
    fn welcome(&mut self, reply: &ServerToClientHandshake) -> (action: ClientAction)
        ensures
            final(self)@ == old(self)@.welcomed(reply@).0,
            action == old(self)@.welcomed(reply@).1,
    {
        match self.phase {
            ClientPhase::AwaitHandshake => {
                self.host_features = FeatureSet::from_list(&reply.features);
                self.outcome = reply.joever;
                self.phase = self.turn_phase(reply.joever);
                ClientAction::Idle
            },
            _ => self.close(ProtocolError::UnexpectedMessage),
        }
    }

    /// Takes a state of the host.
    fn inform(&mut self, state: &ServerToClient) -> (action: ClientAction)
        ensures
            final(self)@ == old(self)@.informed(state@).0,
            action == old(self)@.informed(state@).1,
    {
        let (joever, move_made) = match state {
            ServerToClient::State { board: _, moves: _, joever, move_made } => (
                *joever,
                *move_made,
            ),
        };
        match self.pending {
            Pending::Nothing => match self.phase {
                ClientPhase::AwaitEcho => {
                    self.outcome = joever;
                    self.phase = self.turn_phase(joever);
                    ClientAction::Idle
                },
                ClientPhase::AwaitRemoteMove => match decode_move(&move_made) {
                    Ok(intent) => {
                        self.outcome = joever;
                        self.pending = Pending::Remote(intent);
                        ClientAction::Ask(MoveRequest::Attempt { from: intent.from, to: intent.to })
                    },
                    Err(error) => self.close(error),
                },
                _ => self.close(ProtocolError::UnexpectedMessage),
            },
            _ => self.close(ProtocolError::UnexpectedMessage),
        }
    }

    /// Takes what the pointer did.
    fn point(&mut self, pos: [i32; 2], size: u32, e: &InputEvent) -> (action: ClientAction)
        ensures
            final(self)@ == old(self)@.pointed((pos[0] as int, pos[1] as int), size as int, *e).0,
            action == old(self)@.pointed((pos[0] as int, pos[1] as int), size as int, *e).1,
    {
        let local = match self.phase {
            ClientPhase::AwaitLocalMove => match self.pending {
                Pending::Nothing => true,
                _ => false,
            },
            _ => false,
        };
        if local {
            match self.controller.event(pos, size, e) {
                Some(request) => {
                    self.pending = Pending::Local(request);
                    ClientAction::Ask(request)
                },
                None => ClientAction::Idle,
            }
        } else {
            ClientAction::Idle
        }
    }

    /// Takes the rules engine's answer to the player's request.
    fn answer_local(
        &mut self,
        request: &MoveRequest,
        outcome: Result<Position, MovePieceError>,
    ) -> (action:
        ClientAction)
        requires
            old(self).pending == Pending::Local(*request),
        ensures
            exists|now: u64|
                {
                    &&& final(self)@ == (#[trigger] old(self)@.answered(
                        outcome_view(outcome),
                        now,
                    )).0
                    &&& action == old(self)@.answered(outcome_view(outcome), now).1
                },
    {
        let ghost answer = outcome_view(outcome);
        let intent = self.controller.finish_move(request, outcome);
        let ghost now = choose|now: u64|
            {
                &&& self.controller@ == (#[trigger] old(self)@.controller.finished(
                    *request,
                    answer,
                    now,
                )).0
                &&& intent == old(self)@.controller.finished(*request, answer, now).1
            };
        let action = match intent {
            Some(intent) => self.send(&intent),
            None => {
                self.pending = Pending::Nothing;
                ClientAction::Idle
            },
        };
        assert(self@ == old(self)@.answered(answer, now).0);
        action
    }

    /// Takes the rules engine's answer to the host's move.
    fn answer_remote(
        &mut self,
        intent: &MoveIntent,
        outcome: Result<Position, MovePieceError>,
    ) -> (action:
        ClientAction)
        requires
            old(self).pending == Pending::Remote(*intent),
        ensures
            exists|now: u64|
                {
                    &&& final(self)@ == (#[trigger] old(self)@.answered(
                        outcome_view(outcome),
                        now,
                    )).0
                    &&& action == old(self)@.answered(outcome_view(outcome), now).1
                },
    {
        let ghost answer = outcome_view(outcome);
        let next = self.controller.remote_move(intent, outcome);
        let ghost now = choose|now: u64|
            {
                &&& self.controller@ == (#[trigger] old(self)@.controller.remote_moved(
                    *intent,
                    answer,
                    now,
                )).0
                &&& next == old(self)@.controller.remote_moved(*intent, answer, now).1
            };
        let action = match next {
            Err(error) => self.close(error),
            Ok(None) => self.settle(),
            Ok(Some(request)) => {
                self.pending = Pending::RemotePromotion(request);
                ClientAction::Ask(request)
            },
        };
        assert(self@ == old(self)@.answered(answer, now).0);
        action
    }

    /// Takes the rules engine's answer to the promotion of the host's pawn.
    fn answer_promotion(
        &mut self,
        request: &MoveRequest,
        outcome: Result<Position, MovePieceError>,
    ) -> (action:
        ClientAction)
        requires
            old(self).pending == Pending::RemotePromotion(*request),
        ensures
            exists|now: u64|
                {
                    &&& final(self)@ == (#[trigger] old(self)@.answered(
                        outcome_view(outcome),
                        now,
                    )).0
                    &&& action == old(self)@.answered(outcome_view(outcome), now).1
                },
    {
        let ghost answer = outcome_view(outcome);
        let intent = self.controller.finish_move(request, outcome);
        let ghost now = choose|now: u64|
            {
                &&& self.controller@ == (#[trigger] old(self)@.controller.finished(
                    *request,
                    answer,
                    now,
                )).0
                &&& intent == old(self)@.controller.finished(*request, answer, now).1
            };
        let action = match intent {
            Some(_) => self.settle(),
            None => self.close(ProtocolError::IllegalMove),
        };
        assert(self@ == old(self)@.answered(answer, now).0);
        action
    }
}

/// Takes one event on the connecting side and returns what the caller is to
/// do.
pub fn play(client: &mut Client, event: ClientEvent) -> (action: ClientAction)
    ensures
        exists|now: u64|
            {
                &&& final(client)@ == (#[trigger] old(client)@.stepped(event@, now)).0
                &&& action == old(client)@.stepped(event@, now).1
            },
{
    let ghost before = client@;
    let ghost happened = event@;
    match client.phase {
        ClientPhase::Terminal => {
            assert(client@ == before.stepped(happened, 0).0);
            return ClientAction::Idle;
        },
        _ => {},
    }
    match event {
        ClientEvent::Welcome(reply) => {
            let action = client.welcome(&reply);
            assert(client@ == before.stepped(happened, 0).0);
            action
        },
        ClientEvent::State(state) => {
            let action = client.inform(&state);
            assert(client@ == before.stepped(happened, 0).0);
            action
        },
        ClientEvent::Lost => {
            let action = client.close(ProtocolError::ConnectionLost);
            assert(client@ == before.stepped(happened, 0).0);
            action
        },
        ClientEvent::Input { pos, size, e } => {
            let action = client.point(pos, size, &e);
            assert(client@ == before.stepped(happened, 0).0);
            action
        },
        ClientEvent::Engine(outcome) => {
            let ghost answer = outcome_view(outcome);
            match client.pending {
                Pending::Nothing => {
                    assert(client@ == before.stepped(happened, 0).0);
                    ClientAction::Idle
                },
                Pending::Local(request) => {
                    let action = client.answer_local(&request, outcome);
                    let ghost now = choose|now: u64|
                        {
                            &&& client@ == (#[trigger] before.answered(answer, now)).0
                            &&& action == before.answered(answer, now).1
                        };
                    assert(client@ == before.stepped(happened, now).0);
                    action
                },
                Pending::Remote(intent) => {
                    let action = client.answer_remote(&intent, outcome);
                    let ghost now = choose|now: u64|
                        {
                            &&& client@ == (#[trigger] before.answered(answer, now)).0
                            &&& action == before.answered(answer, now).1
                        };
                    assert(client@ == before.stepped(happened, now).0);
                    action
                },
                Pending::RemotePromotion(request) => {
                    let action = client.answer_promotion(&request, outcome);
                    let ghost now = choose|now: u64|
                        {
                            &&& client@ == (#[trigger] before.answered(answer, now)).0
                            &&& action == before.answered(answer, now).1
                        };
                    assert(client@ == before.stepped(happened, now).0);
                    action
                },
            }
        },
    }
}

/// The connecting side keeps its shape: it has it when it is made, and every
/// event leaves it in place. A question to the rules engine is pending
/// whenever one is asked, and none is once a move goes out or the session is
/// closed. Every move that is sent to the host is between squares of the
/// board, so that the host can read it.
pub proof fn lemma_client_keeps_shape(
    client: ClientView,
    gameboard: PositionView,
    requested_color: Color,
    event: ClientEventView,
    now: u64,
)
    requires
        client.wf(),
    ensures
        ClientView::initial(gameboard, requested_color).wf(),
        client.stepped(event, now).0.wf(),
        client.stepped(event, now).0.local_color == client.local_color,
        client.stepped(event, now).1 matches ClientAction::Ask(asked) ==> asked.on_board()
            && client.stepped(event, now).0.pending != Pending::Nothing,
        client.stepped(event, now).1 is Send || client.stepped(event, now).1 is Close
            ==> client.stepped(event, now).0.pending == Pending::Nothing,
        client.stepped(event, now).1 matches ClientAction::Send(ClientToServer::Move(mv))
            ==> in_range(mv) && client.stepped(event, now).0.phase == ClientPhase::AwaitEcho,
        client.stepped(event, now).1 is Close ==> client.stepped(event, now).0.phase
            == ClientPhase::Terminal,
{
    let intent = MoveIntent {
        from: BoardPos { file: 0, rank: 0 },
        to: BoardPos { file: 0, rank: 0 },
        promotion: None,
    };
    let request = MoveRequest::Attempt { from: intent.from, to: intent.to };
    let refused = Err::<PositionView, MovePieceError>(MovePieceError::InvalidMove);
    lemma_controller_keeps_shape(
        ControllerView::initial(gameboard),
        gameboard,
        (0, 0),
        0,
        InputEvent::FrameTick,
        request,
        intent,
        refused,
        now,
    );
    match event {
        ClientEventView::Input { pos, size, e } => {
            lemma_controller_keeps_shape(
                client.controller,
                gameboard,
                pos,
                size,
                e,
                request,
                intent,
                refused,
                now,
            );
        },
        ClientEventView::Engine(outcome) => {
            match client.pending {
                Pending::Local(asked) | Pending::RemotePromotion(asked) => {
                    lemma_controller_keeps_shape(
                        client.controller,
                        gameboard,
                        (0, 0),
                        0,
                        InputEvent::FrameTick,
                        asked,
                        intent,
                        outcome,
                        now,
                    );
                },
                Pending::Remote(moved) => {
                    lemma_controller_keeps_shape(
                        client.controller,
                        gameboard,
                        (0, 0),
                        0,
                        InputEvent::FrameTick,
                        request,
                        moved,
                        outcome,
                        now,
                    );
                },
                Pending::Nothing => {},
            }
        },
        _ => {},
    }
}

/// The two sides read each other. A move between squares of the board that
/// the connecting side sends is the move that the host, on the peer's turn,
/// asks of its rules engine; and the move that the host tells is the move
/// that the connecting side, on the host's turn, asks of its own, with the
/// host's word on the match taken in.
pub proof fn lemma_sides_read_each_other(
    client: ClientView,
    host: OrchestratorView,
    intent: MoveIntent,
    position: PositionView,
    mover: Color,
)
    requires
        intent.on_board(),
    ensures
        host.session.phase == Phase::AwaitRemoteMove && host.pending == Pending::Nothing ==> {
            let sent = ClientToServer::Move(
                spec_encode_move(intent.from, intent.to, intent.promotion, mover),
            );
            &&& host.heard(sent).1 == ActionView::Ask(
                MoveRequest::Attempt { from: intent.from, to: intent.to },
            )
            &&& host.heard(sent).0.pending == Pending::Remote(intent)
        },
        client.phase == ClientPhase::AwaitRemoteMove && client.pending == Pending::Nothing ==> {
            let told = spec_state_message(position, intent, mover);
            &&& client.informed(told).1 == ClientAction::Ask(
                MoveRequest::Attempt { from: intent.from, to: intent.to },
            )
            &&& client.informed(told).0.pending == Pending::Remote(intent)
            &&& client.informed(told).0.outcome == spec_game_outcome(position)
        },
        client.phase == ClientPhase::AwaitEcho && client.pending == Pending::Nothing ==> {
            let told = spec_state_message(position, intent, mover);
            &&& client.informed(told).1 == ClientAction::Idle
            &&& client.informed(told).0.outcome == spec_game_outcome(position)
            &&& client.informed(told).0.controller == client.controller
            &&& (spec_game_outcome(position) != Joever::Ongoing ==> client.informed(told).0.phase
                == ClientPhase::Terminal)
        },
{
    lemma_decode_encode(intent.from, intent.to, intent.promotion, mover);
}

/// A session that is over takes nothing in and asks for nothing.
pub proof fn lemma_client_over_is_over(client: ClientView, event: ClientEventView, now: u64)
    requires
        client.phase == ClientPhase::Terminal,
    ensures
        client.stepped(event, now) == (client, ClientAction::Idle),
        client.awaiting() == ClientAwaiting::Nobody,
{
}

} // verus!
