//! The messages that travel between game clients and the game server.

pub mod player_move;

use vstd::prelude::*;

verus! {

/// A chat line, with the name of the user who wrote it.
#[derive(Clone, Debug, PartialEq)]
pub struct ChatMessage {
    pub user: String,
    pub message: String,
}

/// A player's request to steer the snake; `direction` holds the code of a
/// `player_move::Direction`.
#[derive(Clone, Debug, PartialEq)]
pub struct PlayerMove {
    pub direction: i32,
    pub name: String,
}

/// A grid point on the wire.
#[derive(Clone, Copy, Debug, PartialEq, Eq, Structural)]
pub struct Point {
    pub x: i32,
    pub y: i32,
}

/// What observers of the game receive: the snake's points, tail first.
#[derive(Clone, Debug, PartialEq)]
pub struct PlayerState {
    pub line_stripe: Vec<Point>,
}

/// The user name with which a client subscribes to a stream.
#[derive(Clone, Debug, PartialEq)]
pub struct Login {
    pub user: String,
}

/// The empty acknowledgement of a request.
#[derive(Clone, Copy, Debug, PartialEq, Eq, Structural)]
pub struct SendResult {}

} // verus!
