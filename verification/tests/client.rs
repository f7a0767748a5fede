use chess_session::board::{
    BoardPos, Color, GameState, MovePieceError, PieceType, Position, Tile,
};
use chess_session::client::{play, Client, ClientAction, ClientAwaiting, ClientEvent, ClientPhase};
use chess_session::codec::{available_moves, current_board};
use chess_session::gameboard_controller::{InputEvent, MoveRequest};
use chess_session::orchestrator::{run, Action, Event, Orchestrator, Pending};
use chess_session::protocol::{
    ClientToServer, ClientToServerHandshake, Features, Joever, Move, Piece, ProtocolError,
    ServerToClient, ServerToClientHandshake,
};

const POS: [i32; 2] = [250, 100];
const SIZE: u32 = 400;

/// White to move: a pawn on e2 that may go to e3 and e4, a pawn on a7 that
/// may go to a8, and a black pawn on e7.
fn guest_position() -> Position {
    let mut position = Position::new(Color::White, GameState::Normal);
    position.set_tile(&BoardPos::new(4, 1), Some(Tile::new(PieceType::Pawn, Color::White)));
    position.set_legal_moves(&BoardPos::new(4, 1), vec![BoardPos::new(4, 2), BoardPos::new(4, 3)]);
    position.set_tile(&BoardPos::new(0, 6), Some(Tile::new(PieceType::Pawn, Color::White)));
    position.set_legal_moves(&BoardPos::new(0, 6), vec![BoardPos::new(0, 7)]);
    position.set_tile(&BoardPos::new(4, 6), Some(Tile::new(PieceType::Pawn, Color::Black)));
    position
}

fn guest_after_e4(state: GameState) -> Position {
    let mut position = Position::new(Color::Black, state);
    position.set_tile(&BoardPos::new(4, 3), Some(Tile::new(PieceType::Pawn, Color::White)));
    position.set_tile(&BoardPos::new(0, 6), Some(Tile::new(PieceType::Pawn, Color::White)));
    position.set_tile(&BoardPos::new(4, 6), Some(Tile::new(PieceType::Pawn, Color::Black)));
    position.set_legal_moves(&BoardPos::new(4, 6), vec![BoardPos::new(4, 5), BoardPos::new(4, 4)]);
    position
}

fn guest_after_a8(piece: PieceType, state: GameState) -> Position {
    let mut position = Position::new(Color::Black, state);
    position.set_tile(&BoardPos::new(4, 1), Some(Tile::new(PieceType::Pawn, Color::White)));
    position.set_tile(&BoardPos::new(0, 7), Some(Tile::new(piece, Color::White)));
    position.set_tile(&BoardPos::new(4, 6), Some(Tile::new(PieceType::Pawn, Color::Black)));
    position
}

fn welcome(joever: Joever) -> ClientEvent {
    ClientEvent::Welcome(ServerToClientHandshake {
        features: vec![Features::Castling, Features::Promotion, Features::Castling],
        board: current_board(&guest_position()),
        moves: available_moves(&guest_position()),
        joever,
    })
}

fn state(move_made: Move, joever: Joever) -> ClientEvent {
    ClientEvent::State(ServerToClient::State {
        board: [[Piece::Empty; 8]; 8],
        moves: vec![],
        joever,
        move_made,
    })
}

fn plain_move(start_x: usize, start_y: usize, end_x: usize, end_y: usize) -> Move {
    Move { start_x, start_y, end_x, end_y, promotion: Piece::Empty }
}

/// A connecting side that has asked the host to play `requested` and has been
/// welcomed.
fn joined(requested: Color) -> Client {
    let mut client = Client::new(guest_position(), requested);
    assert_eq!(play(&mut client, welcome(Joever::Ongoing)), ClientAction::Idle);
    client
}

fn guest_input(e: InputEvent) -> ClientEvent {
    ClientEvent::Input { pos: POS, size: SIZE, e }
}

fn guest_press(client: &mut Client, file: i32, rank: i32) -> ClientAction {
    let x = 250 + file * 50 + 25;
    let y = 100 + (7 - rank) * 50 + 25;
    assert_eq!(play(client, guest_input(InputEvent::PointerMoved { x, y })), ClientAction::Idle);
    play(client, guest_input(InputEvent::PointerPressed))
}

#[test]
fn the_connecting_side_plays_the_other_color() {
    let client = Client::new(guest_position(), Color::Black);
    assert_eq!(client.local_color, Color::White);
    assert_eq!(client.hello(), ClientToServerHandshake { requested_color: Color::Black });
    assert_eq!(client.phase, ClientPhase::AwaitHandshake);
    assert_eq!(client.awaiting(), ClientAwaiting::Handshake);
    assert_eq!(client.outcome, Joever::Ongoing);
    assert_eq!(client.error, None);
    assert_eq!(client.pending, Pending::Nothing);

    let client = Client::new(guest_position(), Color::White);
    assert_eq!(client.local_color, Color::Black);
    assert_eq!(client.hello(), ClientToServerHandshake { requested_color: Color::White });
}

#[test]
fn the_welcome_brings_the_hosts_features_and_starts_play() {
    let client = joined(Color::Black);
    assert!(client.host_features.contains(Features::Castling));
    assert!(client.host_features.contains(Features::Promotion));
    assert!(!client.host_features.contains(Features::EnPassant));
    assert!(!client.host_features.contains(Features::Stalemate));
    assert!(!client.host_features.contains(Features::PossibleMoveGeneration));
    // White is to move, and this side plays white.
    assert_eq!(client.phase, ClientPhase::AwaitLocalMove);
    assert_eq!(client.awaiting(), ClientAwaiting::Input);

    let client = joined(Color::White);
    assert_eq!(client.phase, ClientPhase::AwaitRemoteMove);
    assert_eq!(client.awaiting(), ClientAwaiting::Host);
}

#[test]
fn a_welcome_to_a_match_that_is_over_ends_the_session() {
    let mut client = Client::new(guest_position(), Color::Black);
    assert_eq!(play(&mut client, welcome(Joever::Draw)), ClientAction::Idle);
    assert_eq!(client.phase, ClientPhase::Terminal);
    assert_eq!(client.outcome, Joever::Draw);
    assert_eq!(client.error, None);
    assert_eq!(client.awaiting(), ClientAwaiting::Nobody);

    let mated = Position::new(Color::White, GameState::Checkmate);
    let mut client = Client::new(mated, Color::Black);
    assert_eq!(play(&mut client, welcome(Joever::Ongoing)), ClientAction::Idle);
    assert_eq!(client.phase, ClientPhase::Terminal);
}

#[test]
fn a_second_welcome_closes_the_session() {
    let mut client = joined(Color::Black);
    assert_eq!(
        play(&mut client, welcome(Joever::Ongoing)),
        ClientAction::Close(ProtocolError::UnexpectedMessage)
    );
    assert_eq!(client.phase, ClientPhase::Terminal);
    assert_eq!(client.error, Some(ProtocolError::UnexpectedMessage));
}

#[test]
fn a_state_before_the_welcome_closes_the_session() {
    let mut client = Client::new(guest_position(), Color::Black);
    assert_eq!(
        play(&mut client, state(plain_move(4, 6, 4, 4), Joever::Ongoing)),
        ClientAction::Close(ProtocolError::UnexpectedMessage)
    );
    assert_eq!(client.awaiting(), ClientAwaiting::Nobody);
}

#[test]
fn a_lost_connection_closes_the_connecting_side() {
    let mut client = joined(Color::Black);
    assert_eq!(
        play(&mut client, ClientEvent::Lost),
        ClientAction::Close(ProtocolError::ConnectionLost)
    );
    assert_eq!(client.error, Some(ProtocolError::ConnectionLost));
    assert_eq!(play(&mut client, ClientEvent::Lost), ClientAction::Idle);
    assert_eq!(play(&mut client, welcome(Joever::Ongoing)), ClientAction::Idle);
    assert_eq!(client.error, Some(ProtocolError::ConnectionLost));
}

#[test]
fn a_local_move_is_sent_and_its_echo_awaited() {
    let mut client = joined(Color::Black);
    assert_eq!(guest_press(&mut client, 4, 1), ClientAction::Idle);
    let request = MoveRequest::Attempt { from: BoardPos::new(4, 1), to: BoardPos::new(4, 3) };
    assert_eq!(guest_press(&mut client, 4, 3), ClientAction::Ask(request));
    assert_eq!(client.awaiting(), ClientAwaiting::Engine);
    assert_eq!(
        play(&mut client, ClientEvent::Engine(Ok(guest_after_e4(GameState::Normal)))),
        ClientAction::Send(ClientToServer::Move(plain_move(4, 1, 4, 3)))
    );
    assert_eq!(client.phase, ClientPhase::AwaitEcho);
    assert_eq!(client.awaiting(), ClientAwaiting::Host);
    assert_eq!(client.controller.gameboard.current_turn(), Color::Black);

    // The host's state after this side's move asks nothing of the engine.
    assert_eq!(
        play(&mut client, state(plain_move(4, 1, 4, 3), Joever::Ongoing)),
        ClientAction::Idle
    );
    assert_eq!(client.phase, ClientPhase::AwaitRemoteMove);
    assert_eq!(client.pending, Pending::Nothing);
}

#[test]
fn the_echo_of_a_winning_move_ends_the_session() {
    let mut client = joined(Color::Black);
    guest_press(&mut client, 4, 1);
    guest_press(&mut client, 4, 3);
    play(&mut client, ClientEvent::Engine(Ok(guest_after_e4(GameState::Checkmate))));
    assert_eq!(client.phase, ClientPhase::AwaitEcho);
    assert_eq!(
        play(&mut client, state(plain_move(4, 1, 4, 3), Joever::WhiteWin)),
        ClientAction::Idle
    );
    assert_eq!(client.phase, ClientPhase::Terminal);
    assert_eq!(client.outcome, Joever::WhiteWin);
    assert_eq!(client.error, None);
}

#[test]
fn a_local_move_that_the_engine_refuses_is_not_sent() {
    let mut client = joined(Color::Black);
    guest_press(&mut client, 4, 1);
    guest_press(&mut client, 4, 4);
    assert_eq!(
        play(&mut client, ClientEvent::Engine(Err(MovePieceError::InvalidMove))),
        ClientAction::Idle
    );
    assert_eq!(client.phase, ClientPhase::AwaitLocalMove);
    assert_eq!(client.controller.selected_cell, None);
    assert_eq!(client.pending, Pending::Nothing);
}

#[test]
fn a_local_promotion_is_sent_with_the_chosen_piece() {
    let from = BoardPos::new(0, 6);
    let to = BoardPos::new(0, 7);
    let mut client = joined(Color::Black);
    guest_press(&mut client, 0, 6);
    assert_eq!(
        guest_press(&mut client, 0, 7),
        ClientAction::Ask(MoveRequest::Attempt { from, to })
    );
    let wanting = guest_after_a8(PieceType::Pawn, GameState::PromotionRequired);
    assert_eq!(play(&mut client, ClientEvent::Engine(Ok(wanting))), ClientAction::Idle);
    assert_eq!(client.controller.ongoing_promotion, Some(to));
    assert_eq!(client.awaiting(), ClientAwaiting::Input);
    // The third cell of the menu is the rook.
    assert_eq!(
        play(&mut client, guest_input(InputEvent::PointerMoved { x: 300, y: 75 })),
        ClientAction::Idle
    );
    assert_eq!(
        play(&mut client, guest_input(InputEvent::PointerPressed)),
        ClientAction::Ask(MoveRequest::Promote { from, to, piece: PieceType::Rook })
    );
    let promoted = guest_after_a8(PieceType::Rook, GameState::Normal);
    assert_eq!(
        play(&mut client, ClientEvent::Engine(Ok(promoted))),
        ClientAction::Send(ClientToServer::Move(Move {
            start_x: 0,
            start_y: 6,
            end_x: 0,
            end_y: 7,
            promotion: Piece::WhiteRook
        }))
    );
    assert_eq!(client.phase, ClientPhase::AwaitEcho);
}

#[test]
fn a_move_of_the_host_is_made_on_this_sides_board() {
    // The host plays white.
    let mut client = joined(Color::White);
    assert_eq!(
        play(&mut client, state(plain_move(4, 1, 4, 3), Joever::Ongoing)),
        ClientAction::Ask(MoveRequest::Attempt {
            from: BoardPos::new(4, 1),
            to: BoardPos::new(4, 3)
        })
    );
    assert_eq!(client.awaiting(), ClientAwaiting::Engine);
    assert_eq!(
        play(&mut client, ClientEvent::Engine(Ok(guest_after_e4(GameState::Check)))),
        ClientAction::Idle
    );
    assert_eq!(client.phase, ClientPhase::AwaitLocalMove);
    assert!(client.controller.is_check);
    assert_eq!(client.controller.animation.target(), Some(BoardPos::new(4, 3)));
    assert_eq!(client.controller.gameboard.current_turn(), Color::Black);
}

#[test]
fn a_move_of_the_host_that_mates_ends_the_session() {
    let mut client = joined(Color::White);
    play(&mut client, state(plain_move(4, 1, 4, 3), Joever::WhiteWin));
    assert_eq!(client.outcome, Joever::WhiteWin);
    assert_eq!(
        play(&mut client, ClientEvent::Engine(Ok(guest_after_e4(GameState::Checkmate)))),
        ClientAction::Idle
    );
    assert_eq!(client.phase, ClientPhase::Terminal);
    assert_eq!(client.error, None);
    assert!(client.controller.is_checkmate);
}

#[test]
fn a_promotion_of_the_host_is_made_without_the_menu() {
    let from = BoardPos::new(0, 6);
    let to = BoardPos::new(0, 7);
    let mut client = joined(Color::White);
    let mv = Move { start_x: 0, start_y: 6, end_x: 0, end_y: 7, promotion: Piece::WhiteBishop };
    assert_eq!(
        play(&mut client, state(mv, Joever::Ongoing)),
        ClientAction::Ask(MoveRequest::Attempt { from, to })
    );
    let wanting = guest_after_a8(PieceType::Pawn, GameState::PromotionRequired);
    let request = MoveRequest::Promote { from, to, piece: PieceType::Bishop };
    assert_eq!(play(&mut client, ClientEvent::Engine(Ok(wanting))), ClientAction::Ask(request));
    assert_eq!(client.pending, Pending::RemotePromotion(request));
    assert_eq!(client.controller.ongoing_promotion, None);
    let promoted = guest_after_a8(PieceType::Bishop, GameState::Normal);
    assert_eq!(play(&mut client, ClientEvent::Engine(Ok(promoted))), ClientAction::Idle);
    assert_eq!(client.phase, ClientPhase::AwaitLocalMove);
    assert_eq!(
        client.controller.gameboard.get_tile(&to),
        Some(Tile::new(PieceType::Bishop, Color::White))
    );
}

#[test]
fn a_move_of_the_host_that_the_engine_refuses_closes_the_session() {
    let mut client = joined(Color::White);
    play(&mut client, state(plain_move(3, 3, 3, 4), Joever::Ongoing));
    assert_eq!(
        play(&mut client, ClientEvent::Engine(Err(MovePieceError::NoTile))),
        ClientAction::Close(ProtocolError::IllegalMove)
    );
    assert_eq!(client.phase, ClientPhase::Terminal);
    assert_eq!(client.error, Some(ProtocolError::IllegalMove));
}

#[test]
fn a_move_of_the_host_off_the_board_closes_the_session() {
    let mut client = joined(Color::White);
    assert_eq!(
        play(&mut client, state(plain_move(4, 1, 4, 9), Joever::Ongoing)),
        ClientAction::Close(ProtocolError::SquareOutOfRange)
    );
    assert_eq!(client.error, Some(ProtocolError::SquareOutOfRange));
}

#[test]
fn a_state_out_of_turn_closes_the_session() {
    let mut client = joined(Color::Black);
    assert_eq!(
        play(&mut client, state(plain_move(4, 6, 4, 4), Joever::Ongoing)),
        ClientAction::Close(ProtocolError::UnexpectedMessage)
    );

    // A second state while the engine owes its answer to the first.
    let mut client = joined(Color::White);
    play(&mut client, state(plain_move(4, 1, 4, 3), Joever::Ongoing));
    assert_eq!(
        play(&mut client, state(plain_move(4, 1, 4, 3), Joever::Ongoing)),
        ClientAction::Close(ProtocolError::UnexpectedMessage)
    );
    assert_eq!(client.pending, Pending::Nothing);
}

#[test]
fn the_pointer_is_ignored_while_the_host_is_to_move() {
    let mut client = joined(Color::White);
    assert_eq!(guest_press(&mut client, 4, 6), ClientAction::Idle);
    assert_eq!(client.controller.selected_cell, None);
    assert_eq!(client.controller.cursor_pos, [0, 0]);
}

#[test]
fn the_two_sides_play_a_move_each_way() {
    // The connecting side asks the host to play black and moves first.
    let mut client = Client::new(guest_position(), Color::Black);
    let mut host = Orchestrator::new(guest_position());
    let reply = match run(&mut host, Event::Handshake(client.hello())) {
        Action::Welcome(reply) => reply,
        _ => panic!("no welcome"),
    };
    assert_eq!(play(&mut client, ClientEvent::Welcome(reply)), ClientAction::Idle);
    assert_eq!(host.session.local_color, Color::Black);
    assert_eq!(client.local_color, Color::White);
    assert_eq!(client.host_features, chess_session::protocol::FeatureSet {
        en_passant: true,
        castling: true,
        promotion: true,
        stalemate: true,
        possible_move_generation: true,
    });

    guest_press(&mut client, 4, 1);
    let request = match guest_press(&mut client, 4, 3) {
        ClientAction::Ask(request) => request,
        _ => panic!("nothing was asked"),
    };
    let sent = match play(&mut client, ClientEvent::Engine(Ok(guest_after_e4(GameState::Normal)))) {
        ClientAction::Send(sent) => sent,
        _ => panic!("nothing was sent"),
    };

    // The host asks its engine for the same move and tells it back.
    match run(&mut host, Event::Message(sent)) {
        Action::Ask(asked) => assert_eq!(asked, request),
        _ => panic!("the host asked nothing"),
    }
    let told = match run(&mut host, Event::Engine(Ok(guest_after_e4(GameState::Normal)))) {
        Action::Tell(told) => told,
        _ => panic!("the host told nothing"),
    };
    assert_eq!(play(&mut client, ClientEvent::State(told)), ClientAction::Idle);
    assert_eq!(client.phase, ClientPhase::AwaitRemoteMove);
    assert_eq!(
        current_board(&client.controller.gameboard),
        current_board(&host.controller.gameboard)
    );
}
