//! The board interaction state machine: from pointer events to a selection,
//! its legal targets, the promotion menu and the moves to try.
//!
//! The controller never touches the rules engine. It reads the position it
//! was last given, hands back what it wants done as a [`MoveRequest`], and is
//! told how that went.

use vstd::prelude::*;
use crate::animation::{AnimationState, MoveAnimation};
use crate::board::{
    BoardPos, Color, GameState, MoveIntent, MovePieceError, PieceType, Position, PositionView,
};
use crate::protocol::ProtocolError;
use crate::utils::current_time;

verus! {

/// How long a piece takes to slide to its square, in milliseconds.
pub const MOVE_ANIMATION_MILLIS: u64 = 150;

/// What the pointer did. Coordinates are those of the window, in whole
/// pixels.
#[derive(Clone, Copy, Debug, PartialEq, Eq, Structural)]
pub enum InputEvent {
    PointerMoved { x: i32, y: i32 },
    /// The left button went down.
    PointerPressed,
    /// Anything else.
    FrameTick,
}

/// What the controller asks of the rules engine.
#[derive(Clone, Copy, Debug, PartialEq, Eq, Structural)]
pub enum MoveRequest {
    /// Try to move the piece on `from` to `to`.
    Attempt { from: BoardPos, to: BoardPos },
    /// Turn the pawn that went from `from` to `to` into `piece`.
    Promote { from: BoardPos, to: BoardPos, piece: PieceType },
}

impl MoveRequest {
    /// Whether both squares of the request are on the board.
    pub open spec fn on_board(self) -> bool {
        match self {
            MoveRequest::Attempt { from, to } => from.on_board() && to.on_board(),
            MoveRequest::Promote { from, to, .. } => from.on_board() && to.on_board(),
        }
    }
}

/// The square under a point of the board. `x` and `y` are counted from the
/// board's upper left corner, `size` is the board's edge; rank 7 is drawn at
/// the top.
pub open spec fn cell_at(x: int, y: int, size: int) -> Option<BoardPos> {
    if 0 <= x < size && 0 <= y < size {
        Some(BoardPos { file: (x * 8 / size) as u8, rank: (7 - y * 8 / size) as u8 })
    } else {
        None
    }
}

/// The cell of the promotion menu under a point. The menu is a row of four
/// cells that starts one and a half cells to the left of the promoting pawn's
/// file. It lies above the board when black is to move, and below it when
/// white is: the rules engine has passed the turn on by the time the menu is
/// shown.
pub open spec fn menu_choice(x: int, y: int, size: int, file: int, turn: Color) -> Option<
    usize,
> {
    let offset = 16 * x - (2 * file - 3) * size;
    let in_row = (turn == Color::Black && -size <= 8 * y < 0) || (turn == Color::White && 8
        * size <= 8 * y < 9 * size);
    if size > 0 && 0 <= offset < 8 * size && in_row {
        Some((offset / (2 * size)) as usize)
    } else {
        None
    }
}

/// The piece behind a cell of the promotion menu.
pub open spec fn spec_promotion_piece(choice: usize) -> PieceType {
    if choice == 0 {
        PieceType::Knight
    } else if choice == 1 {
        PieceType::Bishop
    } else if choice == 2 {
        PieceType::Rook
    } else {
        PieceType::Queen
    }
}

/// The piece that a peer's move promotes to: the one it names, a queen where
/// it names none, and nothing where it names a pawn or a king.
pub open spec fn spec_remote_promotion(named: Option<PieceType>) -> Option<PieceType> {
    match named {
        None => Some(PieceType::Queen),
        Some(PieceType::Pawn) | Some(PieceType::King) => None,
        Some(piece) => Some(piece),
    }
}

/// The rules engine's answer to a move, as the controller's model sees it.
pub open spec fn outcome_view(outcome: Result<Position, MovePieceError>) -> Result<
    PositionView,
    MovePieceError,
> {
    match outcome {
        Ok(position) => Ok(position@),
        Err(error) => Err(error),
    }
}

/// The mathematical content of a [`GameboardController`].
pub struct ControllerView {
    pub gameboard: PositionView,
    pub selected_cell: Option<BoardPos>,
    pub legal_targets: Set<BoardPos>,
    pub ongoing_promotion: Option<BoardPos>,
    pub ongoing_promotion_from: BoardPos,
    pub hovered_promotion_square: Option<usize>,
    pub is_check: bool,
    pub is_checkmate: bool,
    pub animation: AnimationState,
    pub cursor_pos: (int, int),
}

impl ControllerView {
    /// A controller that holds `gameboard`, with nothing selected, no
    /// promotion pending and the timer idle.
    pub open spec fn initial(gameboard: PositionView) -> ControllerView {
        ControllerView {
            gameboard,
            selected_cell: None,
            legal_targets: Set::empty(),
            ongoing_promotion: None,
            ongoing_promotion_from: BoardPos { file: 0, rank: 0 },
            hovered_promotion_square: None,
            is_check: false,
            is_checkmate: false,
            animation: AnimationState::idle(),
            cursor_pos: (0, 0),
        }
    }

    /// The shape that every reachable controller has: targets belong to a
    /// selection, a hovered menu cell to a pending promotion, while a
    /// promotion is pending nothing is selected, and the squares it holds are
    /// squares of the board.
    pub open spec fn wf(self) -> bool {
        &&& self.selected_cell is None ==> self.legal_targets == Set::<BoardPos>::empty()
        &&& self.selected_cell matches Some(cell) ==> cell.on_board()
        &&& self.ongoing_promotion matches Some(square) ==> self.selected_cell is None
            && square.on_board() && self.ongoing_promotion_from.on_board()
        &&& self.hovered_promotion_square matches Some(choice) ==> choice < 4
            && self.ongoing_promotion is Some
    }

    /// Nothing selected, no targets.
    pub open spec fn deselected(self) -> ControllerView {
        ControllerView { selected_cell: None, legal_targets: Set::empty(), ..self }
    }

    /// `cell` selected, with the targets that the position lists for it.
    pub open spec fn selecting(self, cell: BoardPos) -> ControllerView {
        ControllerView {
            selected_cell: Some(cell),
            legal_targets: self.gameboard.moves_from(cell).to_set(),
            ..self
        }
    }

    /// The pointer moved to `(x, y)`: the cursor follows, and while a
    /// promotion is pending the hovered menu cell does too.
    pub open spec fn pointer_moved(self, pos: (int, int), size: int, x: int, y: int)
        -> ControllerView {
        ControllerView {
            cursor_pos: (x, y),
            hovered_promotion_square: match self.ongoing_promotion {
                Some(square) => menu_choice(
                    x - pos.0,
                    y - pos.1,
                    size,
                    square.file as int,
                    self.gameboard.turn,
                ),
                None => self.hovered_promotion_square,
            },
            ..self
        }
    }

    /// The left button went down where the cursor is.
    pub open spec fn pointer_pressed(self, pos: (int, int), size: int) -> (
        ControllerView,
        Option<MoveRequest>,
    ) {
        if let Some(to) = self.ongoing_promotion {
            match self.hovered_promotion_square {
                Some(choice) => (
                    ControllerView {
                        ongoing_promotion: None,
                        hovered_promotion_square: None,
                        ..self
                    },
                    Some(
                        MoveRequest::Promote {
                            from: self.ongoing_promotion_from,
                            to,
                            piece: spec_promotion_piece(choice),
                        },
                    ),
                ),
                None => (self, None),
            }
        } else {
            match cell_at(self.cursor_pos.0 - pos.0, self.cursor_pos.1 - pos.1, size) {
                None => (self.deselected(), None),
                Some(clicked) => match self.selected_cell {
                    Some(selected) => if selected == clicked {
                        (self, None)
                    } else if self.gameboard.own_piece_at(clicked) {
                        (self.selecting(clicked), None)
                    } else {
                        (
                            self.deselected(),
                            Some(MoveRequest::Attempt { from: selected, to: clicked }),
                        )
                    },
                    None => if self.gameboard.own_piece_at(clicked) {
                        (self.selecting(clicked), None)
                    } else {
                        (self, None)
                    },
                },
            }
        }
    }

    /// The controller after `e`, and what it asks of the rules engine.
    pub open spec fn on_event(self, pos: (int, int), size: int, e: InputEvent) -> (
        ControllerView,
        Option<MoveRequest>,
    ) {
        match e {
            InputEvent::PointerMoved { x, y } => (
                self.pointer_moved(pos, size, x as int, y as int),
                None,
            ),
            InputEvent::PointerPressed => self.pointer_pressed(pos, size),
            InputEvent::FrameTick => (self, None),
        }
    }

    /// The controller once the rules engine has answered the move from `from`
    /// to `to` at time `now`. A refused move leaves the board as it was and
    /// nothing selected. A move that stands brings the new position, starts
    /// the animation, sets the check flags by the engine's verdict and, where
    /// the engine wants a promotion, opens the promotion menu on `to`.
    pub open spec fn move_outcome(
        self,
        from: BoardPos,
        to: BoardPos,
        outcome: Result<PositionView, MovePieceError>,
        now: u64,
    ) -> ControllerView {
        match outcome {
            Err(_) => self.deselected(),
            Ok(position) => {
                let promoting = position.state == GameState::PromotionRequired;
                ControllerView {
                    gameboard: position,
                    selected_cell: None,
                    legal_targets: Set::empty(),
                    ongoing_promotion: if promoting {
                        Some(to)
                    } else {
                        self.ongoing_promotion
                    },
                    ongoing_promotion_from: if promoting {
                        from
                    } else {
                        self.ongoing_promotion_from
                    },
                    hovered_promotion_square: if promoting {
                        None
                    } else {
                        self.hovered_promotion_square
                    },
                    is_check: position.state == GameState::Check,
                    is_checkmate: position.state == GameState::Checkmate,
                    animation: self.animation.started(now, MOVE_ANIMATION_MILLIS, from, to),
                    cursor_pos: self.cursor_pos,
                }
            },
        }
    }

    /// The controller once the rules engine has promoted the pawn: the new
    /// position, the check flags by the engine's verdict, no menu.
    pub open spec fn promoted(self, position: PositionView) -> ControllerView {
        ControllerView {
            gameboard: position,
            ongoing_promotion: None,
            hovered_promotion_square: None,
            is_check: position.state == GameState::Check,
            is_checkmate: position.state == GameState::Checkmate,
            ..self
        }
    }

    /// The controller once the rules engine has answered `request`, and the
    /// move that the player has thereby committed to, if any.
    ///
    /// A move that stands is committed at once unless the engine wants a
    /// promotion; then it is committed when the promotion is made, with the
    /// chosen piece.
    pub open spec fn finished(
        self,
        request: MoveRequest,
        outcome: Result<PositionView, MovePieceError>,
        now: u64,
    ) -> (ControllerView, Option<MoveIntent>) {
        match request {
            MoveRequest::Attempt { from, to } => (
                self.move_outcome(from, to, outcome, now),
                if outcome matches Ok(position) && position.state != GameState::PromotionRequired {
                    Some(MoveIntent { from, to, promotion: None })
                } else {
                    None
                },
            ),
            MoveRequest::Promote { from, to, piece } => match outcome {
                Ok(position) => (
                    self.promoted(position),
                    Some(MoveIntent { from, to, promotion: Some(piece) }),
                ),
                Err(_) => (self, None),
            },
        }
    }

    /// The controller once the rules engine has answered the peer's move
    /// `intent`, and what is left to do: nothing, a promotion to ask of the
    /// engine, or the end of the session.
    ///
    /// A move that the engine refuses is an error, and so is one that needs a
    /// promotion and names a pawn or a king for it. The promotion menu is not
    /// opened for the peer's pawn.
    pub open spec fn remote_moved(
        self,
        intent: MoveIntent,
        outcome: Result<PositionView, MovePieceError>,
        now: u64,
    ) -> (ControllerView, Result<Option<MoveRequest>, ProtocolError>) {
        let after = self.move_outcome(intent.from, intent.to, outcome, now);
        match outcome {
            Err(_) => (after, Err(ProtocolError::IllegalMove)),
            Ok(position) => if position.state != GameState::PromotionRequired {
                (after, Ok(None))
            } else {
                (
                    ControllerView { ongoing_promotion: None, ..after },
                    match spec_remote_promotion(intent.promotion) {
                        Some(piece) => Ok(
                            Some(MoveRequest::Promote { from: intent.from, to: intent.to, piece }),
                        ),
                        None => Err(ProtocolError::IllegalMove),
                    },
                )
            },
        }
    }
}

/// Handles the pointer's events for a chess board.
#[derive(Debug)]
pub struct GameboardController {
    /// The position as the rules engine last reported it.
    pub gameboard: Position,
    pub selected_cell: Option<BoardPos>,
    /// The legal targets of the selected piece.
    pub selected_cell_moves: Vec<BoardPos>,
    /// The square of the pawn that waits for its promotion.
    pub ongoing_promotion: Option<BoardPos>,
    pub ongoing_promotion_from: BoardPos,
    /// The cell of the promotion menu under the cursor.
    pub hovered_promotion_square: Option<usize>,
    pub is_check: bool,
    pub is_checkmate: bool,
    pub animation: MoveAnimation,
    pub cursor_pos: [i32; 2],
}

impl View for GameboardController {
    type V = ControllerView;

    open spec fn view(&self) -> ControllerView {
        ControllerView {
            gameboard: self.gameboard@,
            selected_cell: self.selected_cell,
            legal_targets: self.selected_cell_moves@.to_set(),
            ongoing_promotion: self.ongoing_promotion,
            ongoing_promotion_from: self.ongoing_promotion_from,
            hovered_promotion_square: self.hovered_promotion_square,
            is_check: self.is_check,
            is_checkmate: self.is_checkmate,
            animation: self.animation@,
            cursor_pos: (self.cursor_pos[0] as int, self.cursor_pos[1] as int),
        }
    }
}

/// The square under the cursor, for a board whose upper left corner is at
/// `pos` and whose edge is `size`.
pub fn clicked_cell(cursor: [i32; 2], pos: [i32; 2], size: u32) -> (cell: Option<BoardPos>)
    ensures
        cell == cell_at(cursor[0] - pos[0], cursor[1] - pos[1], size as int),
        cell matches Some(c) ==> c.on_board(),
{
    let x: i64 = cursor[0] as i64 - pos[0] as i64;
    let y: i64 = cursor[1] as i64 - pos[1] as i64;
    let edge: i64 = size as i64;
    if 0 <= x && x < edge && 0 <= y && y < edge {
        let file: i64 = x * 8 / edge;
        let row: i64 = y * 8 / edge;
        assert(0 <= file < 8 && 0 <= row < 8) by (nonlinear_arith)
            requires
                0 <= x < edge,
                0 <= y < edge,
                file == (x * 8) / (edge as int),
                row == (y * 8) / (edge as int),
        ;
        Some(BoardPos::new(file as u8, (7 - row) as u8))
    } else {
        None
    }
}

/// The cell of the promotion menu under the cursor, for a pawn promoting on
/// `file` and a board whose upper left corner is at `pos` and whose edge is
/// `size`.
pub fn hovered_menu_cell(
    cursor: [i32; 2],
    pos: [i32; 2],
    size: u32,
    file: u8,
    turn: Color,
) -> (choice:
    Option<usize>)
    ensures
        choice == menu_choice(
            cursor[0] - pos[0],
            cursor[1] - pos[1],
            size as int,
            file as int,
            turn,
        ),
        choice matches Some(c) ==> c < 4,
{
    let x: i64 = cursor[0] as i64 - pos[0] as i64;
    let y: i64 = cursor[1] as i64 - pos[1] as i64;
    let edge: i64 = size as i64;
    if edge == 0 {
        return None;
    }
    let lead: i64 = 2 * (file as i64) - 3;
    assert(-3 * edge <= lead * edge <= 507 * edge) by (nonlinear_arith)
        requires
            -3 <= lead <= 507,
            0 < edge,
    ;
    let offset: i64 = 16 * x - lead * edge;
    let in_row = match turn {
        Color::Black => -edge <= 8 * y && 8 * y < 0,
        Color::White => 8 * edge <= 8 * y && 8 * y < 9 * edge,
    };
    if 0 <= offset && offset < 8 * edge && in_row {
        let cell: i64 = offset / (2 * edge);
        assert(0 <= cell < 4) by (nonlinear_arith)
            requires
                0 <= offset < 8 * edge,
                cell == (offset as int) / (2 * edge),
                0 < edge,
        ;
        Some(cell as usize)
    } else {
        None
    }
}

/// The piece behind a cell of the promotion menu.
#[verifier::when_used_as_spec(spec_promotion_piece)]
pub fn promotion_piece(choice: usize) -> (piece: PieceType)
    ensures
        piece == spec_promotion_piece(choice),
{
    match choice {
        0 => PieceType::Knight,
        1 => PieceType::Bishop,
        2 => PieceType::Rook,
        _ => PieceType::Queen,
    }
}

/// The piece that a peer's move promotes to: the one it names, a queen where
/// it names none, and nothing where it names a pawn or a king.
#[verifier::when_used_as_spec(spec_remote_promotion)]
pub fn remote_promotion(named: Option<PieceType>) -> (piece: Option<PieceType>)
    ensures
        piece == spec_remote_promotion(named),
{
    match named {
        None => Some(PieceType::Queen),
        Some(PieceType::Pawn) => None,
        Some(PieceType::King) => None,
        Some(piece) => Some(piece),
    }
}

impl GameboardController {
    /// A controller for `gameboard`, with nothing selected.
    pub fn new(gameboard: Position) -> (controller: GameboardController)
        ensures
            controller@ == ControllerView::initial(gameboard@),
    {
        let controller = GameboardController {
            gameboard,
            selected_cell: None,
            selected_cell_moves: Vec::new(),
            ongoing_promotion: None,
            ongoing_promotion_from: BoardPos::new(0, 0),
            hovered_promotion_square: None,
            is_check: false,
            is_checkmate: false,
            animation: MoveAnimation::new(),
            cursor_pos: [0, 0],
        };
        assert(controller@.legal_targets =~= Set::empty());
        controller
    }

    /// Handles one event. `pos` is the board's upper left corner in the
    /// window and `size` its edge, in pixels.
    pub fn event(&mut self, pos: [i32; 2], size: u32, e: &InputEvent) -> (request: Option<
        MoveRequest,
    >)
        ensures
            final(self)@ == old(self)@.on_event((pos[0] as int, pos[1] as int), size as int, *e).0,
            request == old(self)@.on_event((pos[0] as int, pos[1] as int), size as int, *e).1,
    {
        match *e {
            InputEvent::PointerMoved { x, y } => {
                self.cursor_pos = [x, y];
                if let Some(square) = self.ongoing_promotion {
                    self.hovered_promotion_square = hovered_menu_cell(
                        self.cursor_pos,
                        pos,
                        size,
                        square.file,
                        self.gameboard.current_turn(),
                    );
                }
                None
            },
            InputEvent::PointerPressed => {
                if let Some(to) = self.ongoing_promotion {
                    if let Some(hovered_square) = self.hovered_promotion_square {
                        let from = self.ongoing_promotion_from;
                        self.ongoing_promotion = None;
                        self.hovered_promotion_square = None;
                        return Some(
                            MoveRequest::Promote {
                                from,
                                to,
                                piece: promotion_piece(hovered_square),
                            },
                        );
                    }
                    None
                } else if let Some(clicked) = clicked_cell(self.cursor_pos, pos, size) {
                    if let Some(selected) = self.selected_cell {
                        if selected == clicked {
                            None
                        } else if self.gameboard.is_own_piece(&clicked) {
                            self.selected_cell = Some(clicked);
                            self.update_selected_cell_moves();
                            None
                        } else {
                            self.deselect();
                            Some(MoveRequest::Attempt { from: selected, to: clicked })
                        }
                    } else if self.gameboard.is_own_piece(&clicked) {
                        self.selected_cell = Some(clicked);
                        self.update_selected_cell_moves();
                        None
                    } else {
                        None
                    }
                } else {
                    self.deselect();
                    None
                }
            },
            InputEvent::FrameTick => None,
        }
    }

    /// Clears the selection and its targets.
    fn deselect(&mut self)
        ensures
            final(self)@ == old(self)@.deselected(),
    {
        self.selected_cell = None;
        self.selected_cell_moves = Vec::new();
        assert(self@.legal_targets =~= Set::empty());
    }

    /// Reads the targets of the selected cell from the position.
    fn update_selected_cell_moves(&mut self)
        ensures
            final(self)@ == match old(self)@.selected_cell {
                Some(cell) => old(self)@.selecting(cell),
                None => old(self)@,
            },
    {
        if let Some(selected_cell) = self.selected_cell {
            self.selected_cell_moves = self.gameboard.get_legal_moves(&selected_cell);
        }
    }

    /// Takes the rules engine's answer to the move from `from` to `to`, with
    /// `now` as the time at which the piece starts to slide. Returns whether
    /// the move stands.
    pub fn apply_move_outcome(
        &mut self,
        from: &BoardPos,
        to: &BoardPos,
        outcome: Result<Position, MovePieceError>,
        now: u64,
    ) -> (moved: bool)
        ensures
            moved == outcome is Ok,
            final(self)@ == old(self)@.move_outcome(*from, *to, outcome_view(outcome), now),
    {
        match outcome {
            Ok(position) => {
                let state = position.get_state();
                self.gameboard = position;
                self.animation.set_animation(now, MOVE_ANIMATION_MILLIS, from, to);
                self.is_check = false;
                self.is_checkmate = false;
                match state {
                    GameState::Normal => {},
                    GameState::Check => {
                        self.is_check = true;
                    },
                    GameState::Checkmate => {
                        self.is_checkmate = true;
                    },
                    GameState::PromotionRequired => {
                        self.ongoing_promotion = Some(*to);
                        self.ongoing_promotion_from = *from;
                        self.hovered_promotion_square = None;
                    },
                }
                self.deselect();
                true
            },
            Err(_) => {
                self.deselect();
                false
            },
        }
    }

    /// Takes the rules engine's answer to the move from `from` to `to`; the
    /// piece starts to slide at the clock's reading. Returns whether the move
    /// stands.
    pub fn check_selected_move(
        &mut self,
        from: &BoardPos,
        to: &BoardPos,
        outcome: Result<Position, MovePieceError>,
    ) -> (moved: bool)
        ensures
            moved == outcome is Ok,
            exists|now: u64|
                final(self)@ == #[trigger] old(self)@.move_outcome(
                    *from,
                    *to,
                    outcome_view(outcome),
                    now,
                ),
    {
        let now = current_time();
        self.apply_move_outcome(from, to, outcome, now)
    }

    /// Takes the rules engine's new position after a promotion.
    pub fn promotion_applied(&mut self, gameboard: Position)
        ensures
            final(self)@ == old(self)@.promoted(gameboard@),
    {
        let state = gameboard.get_state();
        self.gameboard = gameboard;
        self.ongoing_promotion = None;
        self.hovered_promotion_square = None;
        self.is_check = match state {
            GameState::Check => true,
            _ => false,
        };
        self.is_checkmate = match state {
            GameState::Checkmate => true,
            _ => false,
        };
    }

    /// Takes the rules engine's answer to `request`, and returns the move
    /// that the player has thereby committed to, if any.
    pub fn finish_move(
        &mut self,
        request: &MoveRequest,
        outcome: Result<Position, MovePieceError>,
    ) -> (intent:
        Option<MoveIntent>)
        ensures
            exists|now: u64|
                {
                    &&& final(self)@ == (#[trigger] old(self)@.finished(
                        *request,
                        outcome_view(outcome),
                        now,
                    )).0
                    &&& intent == old(self)@.finished(*request, outcome_view(outcome), now).1
                },
    {
        match *request {
            MoveRequest::Attempt { from, to } => {
                let promoting = match &outcome {
                    Ok(position) => match position.get_state() {
                        GameState::PromotionRequired => true,
                        _ => false,
                    },
                    Err(_) => false,
                };
                let ghost answer = outcome_view(outcome);
                let moved = self.check_selected_move(&from, &to, outcome);
                proof {
                    let now = choose|now: u64|
                        self@ == #[trigger] old(self)@.move_outcome(from, to, answer, now);
                    assert(self@ == old(self)@.finished(*request, answer, now).0);
                }
                if moved && !promoting {
                    Some(MoveIntent { from, to, promotion: None })
                } else {
                    None
                }
            },
            MoveRequest::Promote { from, to, piece } => match outcome {
                Ok(position) => {
                    self.promotion_applied(position);
                    assert(self@ == old(self)@.finished(*request, outcome_view(outcome), 0).0);
                    Some(MoveIntent { from, to, promotion: Some(piece) })
                },
                Err(_) => {
                    assert(self@ == old(self)@.finished(*request, outcome_view(outcome), 0).0);
                    None
                },
            },
        }
    }

    /// Takes the rules engine's answer to the peer's move `intent`, and
    /// returns what is left to do: nothing, or a promotion to ask of the
    /// engine. An error ends the session.
    pub fn remote_move(
        &mut self,
        intent: &MoveIntent,
        outcome: Result<Position, MovePieceError>,
    ) -> (next:
        Result<Option<MoveRequest>, ProtocolError>)
        ensures
            exists|now: u64|
                {
                    &&& final(self)@ == (#[trigger] old(self)@.remote_moved(
                        *intent,
                        outcome_view(outcome),
                        now,
                    )).0
                    &&& next == old(self)@.remote_moved(*intent, outcome_view(outcome), now).1
                },
    {
        let ghost answer = outcome_view(outcome);
        let moved = self.check_selected_move(&intent.from, &intent.to, outcome);
        let ghost now = choose|now: u64|
            self@ == #[trigger] old(self)@.move_outcome(intent.from, intent.to, answer, now);
        if !moved {
            assert(self@ == old(self)@.remote_moved(*intent, answer, now).0);
            return Err(ProtocolError::IllegalMove);
        }
        match self.gameboard.get_state() {
            GameState::PromotionRequired => {
                self.ongoing_promotion = None;
                assert(self@ == old(self)@.remote_moved(*intent, answer, now).0);
                match remote_promotion(intent.promotion) {
                    Some(piece) => Ok(
                        Some(MoveRequest::Promote { from: intent.from, to: intent.to, piece }),
                    ),
                    None => Err(ProtocolError::IllegalMove),
                }
            },
            _ => {
                assert(self@ == old(self)@.remote_moved(*intent, answer, now).0);
                Ok(None)
            },
        }
    }

    /// Whether `pos` is a legal target of the selected piece.
    pub fn is_legal_target(&self, pos: &BoardPos) -> (legal: bool)
        ensures
            legal == self@.legal_targets.contains(*pos),
    {
        let mut i: usize = 0;
        while i < self.selected_cell_moves.len()
            invariant
                i <= self.selected_cell_moves@.len(),
                forall|k: int| 0 <= k < i ==> self.selected_cell_moves@[k] != *pos,
            decreases self.selected_cell_moves@.len() - i,
        {
            if self.selected_cell_moves[i] == *pos {
                return true;
            }
            i = i + 1;
        }
        false
    }
}

/// A press on a square that holds no piece of the side to move, with nothing
/// selected and no promotion pending, selects nothing and asks nothing of the
/// rules engine.
pub proof fn lemma_press_on_foreign_square(
    controller: ControllerView,
    pos: (int, int),
    size: int,
    clicked: BoardPos,
)
    requires
        controller.selected_cell is None,
        controller.ongoing_promotion is None,
        cell_at(controller.cursor_pos.0 - pos.0, controller.cursor_pos.1 - pos.1, size) == Some(
            clicked,
        ),
        !controller.gameboard.own_piece_at(clicked),
    ensures
        controller.pointer_pressed(pos, size).0.selected_cell is None,
        controller.pointer_pressed(pos, size).1 is None,
{
}

/// A press on another square that holds no piece of the side to move, with a
/// square selected, asks for the move between the two and clears the
/// selection and its targets.
pub proof fn lemma_press_on_target(
    controller: ControllerView,
    pos: (int, int),
    size: int,
    selected: BoardPos,
    clicked: BoardPos,
)
    requires
        controller.selected_cell == Some(selected),
        controller.ongoing_promotion is None,
        cell_at(controller.cursor_pos.0 - pos.0, controller.cursor_pos.1 - pos.1, size) == Some(
            clicked,
        ),
        clicked != selected,
        !controller.gameboard.own_piece_at(clicked),
    ensures
        controller.pointer_pressed(pos, size).0 == controller.deselected(),
        controller.pointer_pressed(pos, size).1 == Some(
            MoveRequest::Attempt { from: selected, to: clicked },
        ),
{
}

/// A move that the rules engine refuses commits nothing, leaves the position
/// as it was and nothing selected.
pub proof fn lemma_refused_move(
    controller: ControllerView,
    from: BoardPos,
    to: BoardPos,
    error: MovePieceError,
    now: u64,
)
    ensures
        controller.finished(MoveRequest::Attempt { from, to }, Err(error), now).1 is None,
        controller.finished(MoveRequest::Attempt { from, to }, Err(error), now).0
            == controller.deselected(),
{
}

/// While a promotion is pending the promotion menu alone takes the presses:
/// the selection stays as it is, and all that can be asked for is that
/// promotion.
pub proof fn lemma_promotion_takes_presses(controller: ControllerView, pos: (int, int), size: int)
    requires
        controller.ongoing_promotion is Some,
    ensures
        controller.pointer_pressed(pos, size).0.selected_cell == controller.selected_cell,
        controller.pointer_pressed(pos, size).0.legal_targets == controller.legal_targets,
        controller.pointer_pressed(pos, size).0.gameboard == controller.gameboard,
        match controller.pointer_pressed(pos, size).1 {
            None => controller.hovered_promotion_square is None && controller.pointer_pressed(
                pos,
                size,
            ).0 == controller,
            Some(request) => controller.hovered_promotion_square is Some && request == (
            MoveRequest::Promote {
                from: controller.ongoing_promotion_from,
                to: controller.ongoing_promotion->0,
                piece: spec_promotion_piece(controller.hovered_promotion_square->0),
            }) && controller.pointer_pressed(pos, size).0.ongoing_promotion is None,
        },
{
}

/// Every cell that the cursor can be over is one of the 64 squares, and every
/// cell of the promotion menu one of its four.
pub proof fn lemma_cells_in_range(x: int, y: int, size: int, file: int, turn: Color)
    ensures
        cell_at(x, y, size) matches Some(cell) ==> cell.on_board() && cell.file == x * 8 / size
            && cell.rank == 7 - y * 8 / size,
        menu_choice(x, y, size, file, turn) matches Some(choice) ==> choice < 4,
{
    if 0 <= x < size && 0 <= y < size {
        assert(0 <= x * 8 / size < 8 && 0 <= y * 8 / size < 8) by (nonlinear_arith)
            requires
                0 <= x < size,
                0 <= y < size,
        ;
    }
    let offset = 16 * x - (2 * file - 3) * size;
    if size > 0 && 0 <= offset < 8 * size {
        assert(0 <= offset / (2 * size) < 4) by (nonlinear_arith)
            requires
                size > 0,
                0 <= offset < 8 * size,
        ;
    }
}

/// The controller keeps its shape: it has it when it is made, and every event
/// and every answer of the rules engine to a move between squares of the
/// board leaves it in place. What it asks of the rules engine, and the moves
/// that it commits to, are between squares of the board.
pub proof fn lemma_controller_keeps_shape(
    controller: ControllerView,
    gameboard: PositionView,
    pos: (int, int),
    size: int,
    e: InputEvent,
    request: MoveRequest,
    intent: MoveIntent,
    outcome: Result<PositionView, MovePieceError>,
    now: u64,
)
    requires
        controller.wf(),
    ensures
        ControllerView::initial(gameboard).wf(),
        controller.on_event(pos, size, e).0.wf(),
        controller.on_event(pos, size, e).1 matches Some(asked) ==> asked.on_board(),
        controller.promoted(gameboard).wf(),
        intent.on_board() ==> controller.move_outcome(intent.from, intent.to, outcome, now).wf(),
        request.on_board() ==> controller.finished(request, outcome, now).0.wf(),
        request.on_board() ==> (controller.finished(request, outcome, now).1 matches Some(made)
            ==> made.on_board()),
        intent.on_board() ==> controller.remote_moved(intent, outcome, now).0.wf(),
        intent.on_board() ==> (controller.remote_moved(intent, outcome, now).1 matches Ok(
            Some(asked),
        ) ==> asked.on_board()),
{
    match e {
        InputEvent::PointerMoved { x, y } => {
            if let Some(square) = controller.ongoing_promotion {
                lemma_cells_in_range(
                    x - pos.0,
                    y - pos.1,
                    size,
                    square.file as int,
                    controller.gameboard.turn,
                );
            }
        },
        InputEvent::PointerPressed => {
            lemma_cells_in_range(
                controller.cursor_pos.0 - pos.0,
                controller.cursor_pos.1 - pos.1,
                size,
                0,
                controller.gameboard.turn,
            );
        },
        _ => {},
    }
}

} // verus!
