//! The remote procedures of the game service and how a request path
//! selects one.

use vstd::prelude::*;

verus! {

/// The name under which the game service is published.
pub const SERVICE_NAME: &'static str = "snake.SnakeServer";

/// The `grpc-status` answered to a path that names no procedure
/// (unimplemented).
pub const GRPC_STATUS_UNIMPLEMENTED: &'static str = "12";

/// The procedures that the game service offers.
#[derive(Clone, Copy, Debug, PartialEq, Eq, Structural)]
pub enum Method {
    MakeMove,
    ObserveGameState,
    ReceiveMessage,
    SendMessage,
}

impl Method {
    /// The request path of the procedure.
    pub open spec fn path_text(self) -> Seq<char> {
        match self {
            Method::MakeMove => "/snake.SnakeServer/MakeMove"@,
            Method::ObserveGameState => "/snake.SnakeServer/ObserveGameState"@,
            Method::ReceiveMessage => "/snake.SnakeServer/ReceiveMessage"@,
            Method::SendMessage => "/snake.SnakeServer/SendMessage"@,
        }
    }

    pub fn path(&self) -> (p: &'static str)
        ensures
            p@ == self.path_text(),
    {
        match self {
            Method::MakeMove => "/snake.SnakeServer/MakeMove",
            Method::ObserveGameState => "/snake.SnakeServer/ObserveGameState",
            Method::ReceiveMessage => "/snake.SnakeServer/ReceiveMessage",
            Method::SendMessage => "/snake.SnakeServer/SendMessage",
        }
    }
}

/// The procedure that a request path names, if any.
pub open spec fn method_for_path(path: Seq<char>) -> Option<Method> {
    if path == Method::MakeMove.path_text() {
        Some(Method::MakeMove)
    } else if path == Method::ObserveGameState.path_text() {
        Some(Method::ObserveGameState)
    } else if path == Method::ReceiveMessage.path_text() {
        Some(Method::ReceiveMessage)
    } else if path == Method::SendMessage.path_text() {
        Some(Method::SendMessage)
    } else {
        None
    }
}

fn same_text(a: &str, b: &str) -> (r: bool)
    ensures
        r == (a@ == b@),
{
    a.to_owned() == b.to_owned()
}

/// Selects the procedure that a request path names; `None` for a path
/// that names none, which is answered with `GRPC_STATUS_UNIMPLEMENTED`.
pub fn route(path: &str) -> (r: Option<Method>)
    ensures
        r == method_for_path(path@),
{
    if same_text(path, Method::MakeMove.path()) {
        Some(Method::MakeMove)
    } else if same_text(path, Method::ObserveGameState.path()) {
        Some(Method::ObserveGameState)
    } else if same_text(path, Method::ReceiveMessage.path()) {
        Some(Method::ReceiveMessage)
    } else if same_text(path, Method::SendMessage.path()) {
        Some(Method::SendMessage)
    } else {
        None
    }
}

/// A request sent to the path of a procedure is routed to that
/// procedure: the four paths are distinct.
pub proof fn lemma_route_path_round_trip(m: Method)
    ensures
        method_for_path(m.path_text()) == Some(m),
{
    reveal_strlit("/snake.SnakeServer/MakeMove");
    reveal_strlit("/snake.SnakeServer/ObserveGameState");
    reveal_strlit("/snake.SnakeServer/ReceiveMessage");
    reveal_strlit("/snake.SnakeServer/SendMessage");
    assert(Method::MakeMove.path_text()[19] != Method::ObserveGameState.path_text()[19]);
    assert(Method::MakeMove.path_text()[19] != Method::ReceiveMessage.path_text()[19]);
    assert(Method::MakeMove.path_text()[19] != Method::SendMessage.path_text()[19]);
    assert(Method::ObserveGameState.path_text()[19] != Method::ReceiveMessage.path_text()[19]);
    assert(Method::ObserveGameState.path_text()[19] != Method::SendMessage.path_text()[19]);
    assert(Method::ReceiveMessage.path_text()[19] != Method::SendMessage.path_text()[19]);
}

} // verus!
