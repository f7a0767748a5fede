use chess_session::board::{
    BoardPos, Color, GameState, MovePieceError, PieceType, Position, Tile,
};
use chess_session::codec::{available_moves, current_board};
use chess_session::gameboard_controller::{InputEvent, MoveRequest};
use chess_session::orchestrator::{run, Action, Awaiting, Event, Orchestrator, Pending};
use chess_session::protocol::{
    ClientToServer, ClientToServerHandshake, Joever, Move, Piece, ProtocolError, ServerToClient,
};
use chess_session::session::{supported_features, Phase};

const POS: [i32; 2] = [250, 100];
const SIZE: u32 = 400;

/// White to move: a pawn on e2 that may go to e3 and e4, a pawn on a7 that
/// may go to a8, and a black pawn on e7.
fn host_position() -> Position {
    let mut position = Position::new(Color::White, GameState::Normal);
    position.set_tile(&BoardPos::new(4, 1), Some(Tile::new(PieceType::Pawn, Color::White)));
    position.set_legal_moves(&BoardPos::new(4, 1), vec![BoardPos::new(4, 2), BoardPos::new(4, 3)]);
    position.set_tile(&BoardPos::new(0, 6), Some(Tile::new(PieceType::Pawn, Color::White)));
    position.set_legal_moves(&BoardPos::new(0, 6), vec![BoardPos::new(0, 7)]);
    position.set_tile(&BoardPos::new(4, 6), Some(Tile::new(PieceType::Pawn, Color::Black)));
    position
}

fn host_after_e4(state: GameState) -> Position {
    let mut position = Position::new(Color::Black, state);
    position.set_tile(&BoardPos::new(4, 3), Some(Tile::new(PieceType::Pawn, Color::White)));
    position.set_tile(&BoardPos::new(0, 6), Some(Tile::new(PieceType::Pawn, Color::White)));
    position.set_tile(&BoardPos::new(4, 6), Some(Tile::new(PieceType::Pawn, Color::Black)));
    position.set_legal_moves(&BoardPos::new(4, 6), vec![BoardPos::new(4, 5), BoardPos::new(4, 4)]);
    position
}

fn host_after_a8(piece: PieceType, state: GameState) -> Position {
    let mut position = Position::new(Color::Black, state);
    position.set_tile(&BoardPos::new(4, 1), Some(Tile::new(PieceType::Pawn, Color::White)));
    position.set_tile(&BoardPos::new(0, 7), Some(Tile::new(piece, Color::White)));
    position.set_tile(&BoardPos::new(4, 6), Some(Tile::new(PieceType::Pawn, Color::Black)));
    position
}

fn hosted(local: Color) -> Orchestrator {
    let mut host = Orchestrator::new(host_position());
    let hello = ClientToServerHandshake { requested_color: local };
    let action = run(&mut host, Event::Handshake(hello));
    assert!(matches!(action, Action::Welcome(_)));
    host
}

fn input(e: InputEvent) -> Event {
    Event::Input { pos: POS, size: SIZE, e }
}

fn press_at(host: &mut Orchestrator, file: i32, rank: i32) -> Action {
    let x = 250 + file * 50 + 25;
    let y = 100 + (7 - rank) * 50 + 25;
    assert!(matches!(run(host, input(InputEvent::PointerMoved { x, y })), Action::Idle));
    run(host, input(InputEvent::PointerPressed))
}

fn told(action: Action) -> ([[Piece; 8]; 8], Vec<Move>, Joever, Move) {
    match action {
        Action::Tell(ServerToClient::State { board, moves, joever, move_made }) => {
            (board, moves, joever, move_made)
        }
        other => panic!("no state was told: {:?}", other),
    }
}

fn asked(action: Action) -> MoveRequest {
    match action {
        Action::Ask(request) => request,
        other => panic!("nothing was asked: {:?}", other),
    }
}

fn closed(action: Action) -> ProtocolError {
    match action {
        Action::Close(error) => error,
        other => panic!("the session was not closed: {:?}", other),
    }
}

fn peer_move(
    start_x: usize,
    start_y: usize,
    end_x: usize,
    end_y: usize,
    promotion: Piece,
) -> Event {
    Event::Message(ClientToServer::Move(Move { start_x, start_y, end_x, end_y, promotion }))
}

#[test]
fn a_new_orchestrator_waits_for_the_handshake() {
    let host = Orchestrator::new(host_position());
    assert_eq!(host.awaiting(), Awaiting::Handshake);
    assert_eq!(host.pending, Pending::Nothing);
    assert_eq!(host.session.phase, Phase::AwaitHandshake);
    assert_eq!(host.controller.selected_cell, None);
}

#[test]
fn handshake_with_a_peer_that_asks_the_host_to_play_black() {
    let mut host = Orchestrator::new(host_position());
    let hello = ClientToServerHandshake { requested_color: Color::Black };
    match run(&mut host, Event::Handshake(hello)) {
        Action::Welcome(reply) => {
            assert_eq!(reply.features, supported_features());
            assert_eq!(reply.board, current_board(&host_position()));
            assert_eq!(reply.moves, available_moves(&host_position()));
            assert_eq!(reply.joever, Joever::Ongoing);
        }
        other => panic!("no welcome: {:?}", other),
    }
    assert_eq!(host.session.local_color, Color::Black);
    assert_eq!(host.awaiting(), Awaiting::Peer);
}

#[test]
fn a_second_handshake_closes_the_session() {
    let mut host = hosted(Color::Black);
    let hello = ClientToServerHandshake { requested_color: Color::Black };
    assert_eq!(closed(run(&mut host, Event::Handshake(hello))), ProtocolError::UnexpectedMessage);
    assert_eq!(host.awaiting(), Awaiting::Nobody);
    assert_eq!(host.session.error, Some(ProtocolError::UnexpectedMessage));
}

#[test]
fn a_lost_connection_closes_the_session() {
    let mut host = Orchestrator::new(host_position());
    assert_eq!(closed(run(&mut host, Event::Lost)), ProtocolError::ConnectionLost);
    assert_eq!(host.awaiting(), Awaiting::Nobody);
    assert_eq!(host.session.error, Some(ProtocolError::ConnectionLost));

    let mut host = hosted(Color::White);
    assert_eq!(closed(run(&mut host, Event::Lost)), ProtocolError::ConnectionLost);
    assert_eq!(host.session.phase, Phase::Terminal);
}

#[test]
fn a_local_move_from_the_press_to_the_message() {
    let mut host = hosted(Color::White);
    assert_eq!(host.awaiting(), Awaiting::Input);
    assert!(matches!(press_at(&mut host, 4, 1), Action::Idle));
    assert_eq!(host.controller.selected_cell, Some(BoardPos::new(4, 1)));
    let request = asked(press_at(&mut host, 4, 3));
    assert_eq!(
        request,
        MoveRequest::Attempt { from: BoardPos::new(4, 1), to: BoardPos::new(4, 3) }
    );
    assert_eq!(host.awaiting(), Awaiting::Engine);
    assert_eq!(host.pending, Pending::Local(request));

    let (board, moves, joever, move_made) =
        told(run(&mut host, Event::Engine(Ok(host_after_e4(GameState::Normal)))));
    assert_eq!(board, current_board(&host_after_e4(GameState::Normal)));
    assert_eq!(board[4][3], Piece::WhitePawn);
    assert_eq!(board[4][1], Piece::Empty);
    assert_eq!(
        moves,
        vec![
            Move { start_x: 4, start_y: 6, end_x: 4, end_y: 5, promotion: Piece::Empty },
            Move { start_x: 4, start_y: 6, end_x: 4, end_y: 4, promotion: Piece::Empty },
        ]
    );
    assert_eq!(joever, Joever::Ongoing);
    assert_eq!(
        move_made,
        Move { start_x: 4, start_y: 1, end_x: 4, end_y: 3, promotion: Piece::Empty }
    );
    assert_eq!(host.awaiting(), Awaiting::Peer);
    assert_eq!(host.pending, Pending::Nothing);
    assert!(host.controller.animation.running());
}

#[test]
fn a_local_move_that_mates_ends_the_session() {
    let mut host = hosted(Color::White);
    press_at(&mut host, 4, 1);
    asked(press_at(&mut host, 4, 3));
    let (_, _, joever, _) =
        told(run(&mut host, Event::Engine(Ok(host_after_e4(GameState::Checkmate)))));
    assert_eq!(joever, Joever::WhiteWin);
    assert_eq!(host.awaiting(), Awaiting::Nobody);
    assert_eq!(host.session.outcome, Joever::WhiteWin);
    assert_eq!(host.session.error, None);
    assert!(host.controller.is_checkmate);
    // Nothing happens any more.
    assert!(matches!(press_at(&mut host, 4, 6), Action::Idle));
    assert!(matches!(run(&mut host, peer_move(4, 6, 4, 4, Piece::Empty)), Action::Idle));
    assert!(matches!(run(&mut host, Event::Lost), Action::Idle));
    assert_eq!(host.session.error, None);
}

#[test]
fn a_local_move_that_the_engine_refuses_is_told_to_nobody() {
    // e2 is selected with the targets e3 and e4; the press is on e5.
    let mut host = hosted(Color::White);
    press_at(&mut host, 4, 1);
    let request = asked(press_at(&mut host, 4, 4));
    assert_eq!(
        request,
        MoveRequest::Attempt { from: BoardPos::new(4, 1), to: BoardPos::new(4, 4) }
    );
    assert!(matches!(
        run(&mut host, Event::Engine(Err(MovePieceError::InvalidMove))),
        Action::Idle
    ));
    assert_eq!(host.controller.selected_cell, None);
    assert!(host.controller.selected_cell_moves.is_empty());
    assert_eq!(host.awaiting(), Awaiting::Input);
    assert_eq!(host.session.error, None);
    assert_eq!(host.controller.gameboard.current_turn(), Color::White);
}

#[test]
fn a_local_promotion_from_the_move_to_the_message() {
    let from = BoardPos::new(0, 6);
    let to = BoardPos::new(0, 7);
    let mut host = hosted(Color::White);
    press_at(&mut host, 0, 6);
    assert_eq!(asked(press_at(&mut host, 0, 7)), MoveRequest::Attempt { from, to });
    let wanting = host_after_a8(PieceType::Pawn, GameState::PromotionRequired);
    assert!(matches!(run(&mut host, Event::Engine(Ok(wanting))), Action::Idle));
    assert_eq!(host.controller.ongoing_promotion, Some(to));
    // The engine has passed the turn on, and the player is still waited for.
    assert_eq!(host.controller.gameboard.current_turn(), Color::Black);
    assert_eq!(host.awaiting(), Awaiting::Input);

    assert!(matches!(
        run(&mut host, input(InputEvent::PointerMoved { x: 350, y: 75 })),
        Action::Idle
    ));
    assert_eq!(host.controller.hovered_promotion_square, Some(3));
    let request = asked(run(&mut host, input(InputEvent::PointerPressed)));
    assert_eq!(request, MoveRequest::Promote { from, to, piece: PieceType::Queen });
    assert_eq!(host.controller.ongoing_promotion, None);
    assert_eq!(host.awaiting(), Awaiting::Engine);

    let promoted = host_after_a8(PieceType::Queen, GameState::Check);
    let (board, _, joever, move_made) = told(run(&mut host, Event::Engine(Ok(promoted))));
    assert_eq!(board[0][7], Piece::WhiteQueen);
    assert_eq!(joever, Joever::Ongoing);
    assert_eq!(
        move_made,
        Move { start_x: 0, start_y: 6, end_x: 0, end_y: 7, promotion: Piece::WhiteQueen }
    );
    assert_eq!(host.controller.ongoing_promotion, None);
    assert!(host.controller.is_check);
    assert_eq!(host.awaiting(), Awaiting::Peer);
}

#[test]
fn a_remote_move_from_the_message_to_the_answer() {
    let mut host = hosted(Color::Black);
    assert_eq!(host.awaiting(), Awaiting::Peer);
    let request = asked(run(&mut host, peer_move(4, 1, 4, 3, Piece::Empty)));
    assert_eq!(
        request,
        MoveRequest::Attempt { from: BoardPos::new(4, 1), to: BoardPos::new(4, 3) }
    );
    assert_eq!(host.awaiting(), Awaiting::Engine);
    let (board, moves, joever, move_made) =
        told(run(&mut host, Event::Engine(Ok(host_after_e4(GameState::Normal)))));
    assert_eq!(board, current_board(&host_after_e4(GameState::Normal)));
    assert_eq!(moves.len(), 2);
    assert_eq!(joever, Joever::Ongoing);
    assert_eq!(
        move_made,
        Move { start_x: 4, start_y: 1, end_x: 4, end_y: 3, promotion: Piece::Empty }
    );
    assert_eq!(host.awaiting(), Awaiting::Input);
    assert_eq!(host.controller.gameboard.current_turn(), Color::Black);
    assert_eq!(host.controller.animation.target(), Some(BoardPos::new(4, 3)));
}

#[test]
fn a_remote_move_that_names_a_promotion_it_does_not_need() {
    let mut host = hosted(Color::Black);
    asked(run(&mut host, peer_move(4, 1, 4, 3, Piece::WhiteQueen)));
    let (_, _, _, move_made) =
        told(run(&mut host, Event::Engine(Ok(host_after_e4(GameState::Normal)))));
    assert_eq!(
        move_made,
        Move { start_x: 4, start_y: 1, end_x: 4, end_y: 3, promotion: Piece::Empty }
    );
}

#[test]
fn a_remote_promotion_is_made_without_the_menu() {
    let from = BoardPos::new(0, 6);
    let to = BoardPos::new(0, 7);
    let mut host = hosted(Color::Black);
    assert_eq!(
        asked(run(&mut host, peer_move(0, 6, 0, 7, Piece::WhiteRook))),
        MoveRequest::Attempt { from, to }
    );
    let wanting = host_after_a8(PieceType::Pawn, GameState::PromotionRequired);
    let request = asked(run(&mut host, Event::Engine(Ok(wanting))));
    assert_eq!(request, MoveRequest::Promote { from, to, piece: PieceType::Rook });
    assert_eq!(host.pending, Pending::RemotePromotion(request));
    assert_eq!(host.controller.ongoing_promotion, None);
    assert_eq!(host.awaiting(), Awaiting::Engine);
    let promoted = host_after_a8(PieceType::Rook, GameState::Normal);
    let (board, _, _, move_made) = told(run(&mut host, Event::Engine(Ok(promoted))));
    assert_eq!(board[0][7], Piece::WhiteRook);
    assert_eq!(
        move_made,
        Move { start_x: 0, start_y: 6, end_x: 0, end_y: 7, promotion: Piece::WhiteRook }
    );
    assert_eq!(host.awaiting(), Awaiting::Input);
}

#[test]
fn a_remote_promotion_without_a_piece_makes_a_queen() {
    let mut host = hosted(Color::Black);
    asked(run(&mut host, peer_move(0, 6, 0, 7, Piece::Empty)));
    let wanting = host_after_a8(PieceType::Pawn, GameState::PromotionRequired);
    assert_eq!(
        asked(run(&mut host, Event::Engine(Ok(wanting)))),
        MoveRequest::Promote {
            from: BoardPos::new(0, 6),
            to: BoardPos::new(0, 7),
            piece: PieceType::Queen
        }
    );
    let promoted = host_after_a8(PieceType::Queen, GameState::Normal);
    let (_, _, _, move_made) = told(run(&mut host, Event::Engine(Ok(promoted))));
    assert_eq!(move_made.promotion, Piece::WhiteQueen);
}

#[test]
fn a_remote_promotion_to_a_king_closes_the_session() {
    let mut host = hosted(Color::Black);
    asked(run(&mut host, peer_move(0, 6, 0, 7, Piece::WhiteKing)));
    let wanting = host_after_a8(PieceType::Pawn, GameState::PromotionRequired);
    assert_eq!(closed(run(&mut host, Event::Engine(Ok(wanting)))), ProtocolError::IllegalMove);
    assert_eq!(host.awaiting(), Awaiting::Nobody);
}

#[test]
fn a_remote_promotion_that_the_engine_refuses_closes_the_session() {
    let mut host = hosted(Color::Black);
    asked(run(&mut host, peer_move(0, 6, 0, 7, Piece::WhiteRook)));
    let wanting = host_after_a8(PieceType::Pawn, GameState::PromotionRequired);
    asked(run(&mut host, Event::Engine(Ok(wanting))));
    assert_eq!(
        closed(run(&mut host, Event::Engine(Err(MovePieceError::InvalidMove)))),
        ProtocolError::IllegalMove
    );
    assert_eq!(host.session.error, Some(ProtocolError::IllegalMove));
}

#[test]
fn a_remote_move_that_the_engine_refuses_closes_the_session() {
    for error in
        [MovePieceError::NoTile, MovePieceError::NotCurrentTurn, MovePieceError::InvalidMove]
    {
        let mut host = hosted(Color::Black);
        asked(run(&mut host, peer_move(3, 3, 3, 4, Piece::Empty)));
        assert_eq!(closed(run(&mut host, Event::Engine(Err(error)))), ProtocolError::IllegalMove);
        assert_eq!(host.awaiting(), Awaiting::Nobody);
        assert_eq!(host.session.error, Some(ProtocolError::IllegalMove));
        assert_eq!(host.pending, Pending::Nothing);
    }
}

#[test]
fn a_remote_move_off_the_board_closes_the_session() {
    let mut host = hosted(Color::Black);
    assert_eq!(
        closed(run(&mut host, peer_move(4, 1, 8, 3, Piece::Empty))),
        ProtocolError::SquareOutOfRange
    );
    assert_eq!(host.session.error, Some(ProtocolError::SquareOutOfRange));
    assert_eq!(host.awaiting(), Awaiting::Nobody);
}

#[test]
fn a_message_out_of_turn_closes_the_session() {
    let mut host = hosted(Color::White);
    assert_eq!(
        closed(run(&mut host, peer_move(4, 6, 4, 4, Piece::Empty))),
        ProtocolError::UnexpectedMessage
    );

    let mut host = Orchestrator::new(host_position());
    assert_eq!(
        closed(run(&mut host, peer_move(4, 1, 4, 3, Piece::Empty))),
        ProtocolError::UnexpectedMessage
    );

    let mut host = hosted(Color::Black);
    assert_eq!(
        closed(run(&mut host, Event::Message(ClientToServer::Other))),
        ProtocolError::UnexpectedMessage
    );

    // A second message while the engine owes its answer to the first.
    let mut host = hosted(Color::Black);
    asked(run(&mut host, peer_move(4, 1, 4, 3, Piece::Empty)));
    assert_eq!(
        closed(run(&mut host, peer_move(4, 1, 4, 3, Piece::Empty))),
        ProtocolError::UnexpectedMessage
    );
    assert_eq!(host.pending, Pending::Nothing);
}

#[test]
fn the_pointer_is_ignored_while_the_peer_is_to_move() {
    let mut host = hosted(Color::Black);
    assert!(matches!(press_at(&mut host, 4, 1), Action::Idle));
    assert_eq!(host.controller.selected_cell, None);
    assert_eq!(host.controller.cursor_pos, [0, 0]);
    assert_eq!(host.awaiting(), Awaiting::Peer);
}

#[test]
fn an_answer_that_nobody_asked_for_is_ignored() {
    let mut host = hosted(Color::White);
    assert!(matches!(
        run(&mut host, Event::Engine(Ok(host_after_e4(GameState::Checkmate)))),
        Action::Idle
    ));
    assert_eq!(host.controller.gameboard.current_turn(), Color::White);
    assert_eq!(host.awaiting(), Awaiting::Input);
}
