//! Game logic of a networked snake game: the snake's line stripe, the
//! registries of connected players and chat users, the wire messages, the
//! routing of service calls, and the client's key handling.

pub mod chat;
pub mod clients;
pub mod controls;
pub mod proto;
pub mod service;
pub mod snake;
