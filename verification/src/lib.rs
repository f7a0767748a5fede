//! Turn-synchronised two-player chess over a network connection: the board
//! model, the wire codec, the pointer-driven board controller, the move
//! animation timer and the session protocol engine.
//!
//! The rules engine, the renderer and the transport are collaborators of this
//! crate. What the logic reads from the rules engine is held in a
//! [`board::Position`]; what it asks of the engine is returned as a value for
//! the caller to carry out.

pub mod animation;
pub mod board;
pub mod client;
pub mod codec;
pub mod gameboard_controller;
pub mod gameboard_view;
pub mod orchestrator;
pub mod protocol;
pub mod session;
pub mod utils;
