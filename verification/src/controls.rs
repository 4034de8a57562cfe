//! What the game client does with a key press, and which lines it draws
//! for a received snake.

use vstd::prelude::*;

use crate::proto::player_move::Direction as Steer;
use crate::proto::{PlayerMove, Point};
use crate::snake::{direction_of_code, Direction};

verus! {

/// The keys that the client tells apart.
#[derive(Clone, Copy, Debug, PartialEq, Eq, Structural)]
pub enum Key {
    Char(char),
    Up,
    Down,
    Left,
    Right,
    /// Any other key.
    Other,
}

/// What the client's event loop receives: a key press, or the tick that
/// asks for a redraw.
#[derive(Clone, Copy, Debug, PartialEq, Eq, Structural)]
pub enum Event {
    Input(Key),
    Tick,
}

/// What the client does in answer to an event.
#[derive(Clone, Debug, PartialEq)]
pub enum KeyCommand {
    /// Leave the game.
    Quit,
    /// Send this move to the server.
    Send(PlayerMove),
    /// Nothing but keep going.
    Continue,
}

/// The move request with code `code` on behalf of `user`.
pub open spec fn move_request(code: i32, user: String) -> PlayerMove {
    PlayerMove { direction: code, name: user }
}

/// The answer to an event: `q` quits, an arrow key steers, everything
/// else is ignored.
pub open spec fn command_for(user: String, next: Event) -> KeyCommand {
    match next {
        Event::Input(Key::Char('q')) => KeyCommand::Quit,
        Event::Input(Key::Down) => KeyCommand::Send(move_request(Steer::Bottom.code(), user)),
        Event::Input(Key::Up) => KeyCommand::Send(move_request(Steer::Top.code(), user)),
        Event::Input(Key::Right) => KeyCommand::Send(move_request(Steer::Right.code(), user)),
        Event::Input(Key::Left) => KeyCommand::Send(move_request(Steer::Left.code(), user)),
        _ => KeyCommand::Continue,
    }
}

pub fn handle_key_event(user: &String, next: Event) -> (c: KeyCommand)
    ensures
        c == command_for(*user, next),
{
    match next {
        Event::Input(input) => match input {
            Key::Char('q') => KeyCommand::Quit,
            Key::Down => KeyCommand::Send(handle_down(user)),
            Key::Up => KeyCommand::Send(handle_up(user)),
            Key::Right => KeyCommand::Send(handle_right(user)),
            Key::Left => KeyCommand::Send(handle_left(user)),
            _ => KeyCommand::Continue,
        },
        Event::Tick => KeyCommand::Continue,
    }
}

/// The request that steers the snake left.
pub fn handle_left(user: &String) -> (m: PlayerMove)
    ensures
        m == move_request(Steer::Left.code(), *user),
{
    PlayerMove { direction: 1, name: user.clone() }
}

/// The request that steers the snake right.
pub fn handle_right(user: &String) -> (m: PlayerMove)
    ensures
        m == move_request(Steer::Right.code(), *user),
{
    PlayerMove { direction: 3, name: user.clone() }
}

/// The request that steers the snake up.
pub fn handle_up(user: &String) -> (m: PlayerMove)
    ensures
        m == move_request(Steer::Top.code(), *user),
{
    PlayerMove { direction: 0, name: user.clone() }
}

/// The request that steers the snake down.
pub fn handle_down(user: &String) -> (m: PlayerMove)
    ensures
        m == move_request(Steer::Bottom.code(), *user),
{
    PlayerMove { direction: 2, name: user.clone() }
}

/// The heading that an arrow key stands for.
pub open spec fn arrow_direction(k: Key) -> Option<Direction> {
    match k {
        Key::Up => Some(Direction::Up),
        Key::Down => Some(Direction::Down),
        Key::Left => Some(Direction::Left),
        Key::Right => Some(Direction::Right),
        _ => None,
    }
}

/// An arrow key pressed on the client turns the server's snake in the
/// arrow's direction: the client's move code decodes to that heading.
pub proof fn lemma_arrow_key_steers(user: String, k: Key)
    requires
        arrow_direction(k) is Some,
    ensures
        command_for(user, Event::Input(k)) matches KeyCommand::Send(m) && direction_of_code(
            m.direction,
        ) == arrow_direction(k) && m.name == user,
{
}

/// Only `q` quits: every other character key, every other key and every
/// tick leave the client running without sending anything.
pub proof fn lemma_only_q_quits(user: String, next: Event)
    ensures
        (command_for(user, next) == KeyCommand::Quit) <==> next == Event::Input(Key::Char('q')),
        forall|c: char| c != 'q' ==> command_for(user, Event::Input(Key::Char(c))) == KeyCommand::Continue,
        command_for(user, Event::Input(Key::Other)) == KeyCommand::Continue,
        command_for(user, Event::Tick) == KeyCommand::Continue,
{
}

/// A straight line on the canvas between two grid points.
#[derive(Clone, Copy, Debug, PartialEq, Eq, Structural)]
pub struct Segment {
    pub x1: i32,
    pub y1: i32,
    pub x2: i32,
    pub y2: i32,
}

/// The line from `a` to `b`.
pub open spec fn segment(a: Point, b: Point) -> Segment {
    Segment { x1: a.x, y1: a.y, x2: b.x, y2: b.y }
}

/// The lines that draw the snake: one from each point to the next.
pub open spec fn segments(s: Seq<Point>) -> Seq<Segment> {
    if s.len() == 0 {
        Seq::empty()
    } else {
        Seq::new((s.len() - 1) as nat, |i: int| segment(s[i], s[i + 1]))
    }
}

/// The lines that draw a received snake, tail first.
pub fn line_segments(line_stripe: &Vec<Point>) -> (r: Vec<Segment>)
    ensures
        r@ == segments(line_stripe@),
{
    let mut r: Vec<Segment> = Vec::new();
    let n = line_stripe.len();
    if n == 0 {
        return r;
    }
    let mut prev = line_stripe[0];
    for i in 1..n
        invariant
            n == line_stripe.len(),
            n > 0,
            prev == line_stripe@[i - 1],
            r@ =~= Seq::new((i - 1) as nat, |j: int| segment(line_stripe@[j], line_stripe@[j + 1])),
    {
        let current = line_stripe[i];
        r.push(Segment { x1: prev.x, y1: prev.y, x2: current.x, y2: current.y });
        prev = current;
    }
    r
}

/// The drawing has one line per pair of neighbouring points: a snake of
/// `n > 0` points gets `n - 1` lines, line `i` running from point `i` to
/// point `i + 1`; no points give no lines.
pub proof fn lemma_segments_join_neighbours(s: Seq<Point>)
    ensures
        s.len() == 0 ==> segments(s).len() == 0,
        s.len() > 0 ==> segments(s).len() == s.len() - 1,
        forall|i: int|
            0 <= i < s.len() - 1 ==> (#[trigger] segments(s)[i]).x1 == s[i].x && segments(s)[i].y1
                == s[i].y && segments(s)[i].x2 == s[i + 1].x && segments(s)[i].y2 == s[i + 1].y,
{
}

} // verus!
