use vstd::prelude::*;

use crate::clients::{failed_clients, undelivered, views, without, ClientNames};
use crate::proto;

verus! {

/// The four directions in which the snake can head.
#[derive(Clone, Copy, PartialEq, Eq, Structural, Debug)]
pub enum Direction {
    Left,
    Right,
    Up,
    Down,
}

/// A grid point.
#[derive(Clone, Copy, PartialEq, Eq, Structural, Debug)]
pub struct Point {
    pub x: i32,
    pub y: i32,
}

/// Two points lie on one horizontal or one vertical line.
pub open spec fn aligned(a: Point, b: Point) -> bool {
    a.x == b.x || a.y == b.y
}

impl Point {
    /// The direction in which one travels from `prev` to `self`, for
    /// points on one horizontal or vertical line.  A point compared with
    /// itself counts as lying to the left.
    pub open spec fn direction_from(self, prev: Point) -> Direction {
        if self.y == prev.y {
            if self.x > prev.x {
                Direction::Right
            } else {
                Direction::Left
            }
        } else if self.y > prev.y {
            Direction::Up
        } else {
            Direction::Down
        }
    }

    /// One step in direction `d` stays inside the `i32` grid.
    pub open spec fn can_move(self, d: Direction) -> bool {
        match d {
            Direction::Left => self.x > i32::MIN,
            Direction::Right => self.x < i32::MAX,
            Direction::Up => self.y < i32::MAX,
            Direction::Down => self.y > i32::MIN,
        }
    }

    /// The neighbouring point one step away in direction `d`.
    pub open spec fn moved(self, d: Direction) -> Point {
        match d {
            Direction::Left => Point { x: (self.x - 1) as i32, y: self.y },
            Direction::Right => Point { x: (self.x + 1) as i32, y: self.y },
            Direction::Up => Point { x: self.x, y: (self.y + 1) as i32 },
            Direction::Down => Point { x: self.x, y: (self.y - 1) as i32 },
        }
    }

    pub fn new(x: i32, y: i32) -> (p: Self)
        ensures
            p == (Point { x, y }),
    {
        Point { x, y }
    }

    /// The direction from `prev` to `self`; the two points must lie on one
    /// horizontal or vertical line.
    pub fn direction(&self, prev: &Self) -> (d: Direction)
        requires
            aligned(*self, *prev),
        ensures
            d == self.direction_from(*prev),
    {
        if self.y == prev.y {
            if self.x > prev.x {
                return Direction::Right;
            } else {
                return Direction::Left;
            }
        }
        if self.y > prev.y {
            Direction::Up
        } else {
            Direction::Down
        }
    }

    pub fn move_in_direction(&self, d: Direction) -> (p: Point)
        requires
            self.can_move(d),
        ensures
            p == self.moved(d),
    {
        match d {
            Direction::Down => self.add_y(-1),
            Direction::Left => self.add_x(-1),
            Direction::Right => self.add_x(1),
            Direction::Up => self.add_y(1),
        }
    }

    pub fn add_x(&self, dx: i32) -> (p: Point)
        requires
            i32::MIN <= self.x + dx <= i32::MAX,
        ensures
            p.x == self.x + dx,
            p.y == self.y,
    {
        Point { x: self.x + dx, y: self.y }
    }

    pub fn add_y(&self, dy: i32) -> (p: Point)
        requires
            i32::MIN <= self.y + dy <= i32::MAX,
        ensures
            p.x == self.x,
            p.y == self.y + dy,
    {
        Point { x: self.x, y: self.y + dy }
    }
}

/// Taking one step in direction `d` and then looking back at the start
/// gives `d` again: a single step is an aligned segment heading in `d`.
pub proof fn lemma_step_heads_in_direction(p: Point, d: Direction)
    requires
        p.can_move(d),
    ensures
        aligned(p.moved(d), p),
        p.moved(d).direction_from(p) == d,
{
}


/// Segment `i` of `s` (from `s[i]` to `s[i + 1]`) is horizontal or vertical.
pub open spec fn segment_aligned(s: Seq<Point>, i: int) -> bool {
    aligned(s[i], s[i + 1])
}

/// A line stripe has at least two points, and each of its segments is
/// horizontal or vertical.
pub open spec fn wf_points(s: Seq<Point>) -> bool {
    &&& s.len() >= 2
    &&& forall|i: int| 0 <= i < s.len() - 1 ==> #[trigger] segment_aligned(s, i)
}

/// The direction of the last segment of `s`: where the head is going.
pub open spec fn heading(s: Seq<Point>) -> Direction
    recommends
        s.len() >= 2,
{
    s.last().direction_from(s[s.len() - 2])
}

/// The points after the head of `s` moved one step in direction `d`: the
/// last segment grows where it already heads in `d`, else a new one-step
/// segment is appended.
pub open spec fn stepped(s: Seq<Point>, d: Direction) -> Seq<Point>
    recommends
        s.len() >= 2,
{
    if d == heading(s) {
        s.update(s.len() - 1, s.last().moved(d))
    } else {
        s.push(s.last().moved(d))
    }
}

/// The snake's body, from its tail (`points[0]`) to its head (the last
/// point), as a chain of horizontal and vertical segments.
pub struct LineStripe {
    points: Vec<Point>,
}

impl View for LineStripe {
    type V = Seq<Point>;

    closed spec fn view(&self) -> Seq<Point> {
        self.points@
    }
}

impl LineStripe {
    pub open spec fn wf(&self) -> bool {
        wf_points(self@)
    }

    /// The stripe every game starts with: from (10, 10) to (15, 10).
    pub open spec fn initial() -> Seq<Point> {
        seq![Point { x: 10, y: 10 }, Point { x: 15, y: 10 }]
    }

    pub fn new() -> (l: LineStripe)
        ensures
            l.wf(),
            l@ == Self::initial(),
    {
        Self::from(Point::new(10, 10), Point::new(15, 10))
    }

    /// The stripe with the single segment from `start` to `end`; it is well
    /// formed when that segment is horizontal or vertical.
    pub fn from(start: Point, end: Point) -> (l: Self)
        ensures
            l.wf() == aligned(start, end),
            l@ == seq![start, end],
    {
        let l = LineStripe { points: vec![start, end] };
        assert(segment_aligned(l@, 0) == aligned(start, end));
        l
    }

    /// The points from tail to head.
    pub fn points(&self) -> (p: &Vec<Point>)
        ensures
            p@ == self@,
    {
        &self.points
    }

    /// The points in their wire form.
    pub fn line_stripe_proto(&self) -> (r: Vec<proto::Point>)
        ensures
            r@ == proto_points(self@),
    {
        let mut r: Vec<proto::Point> = Vec::new();
        let n = self.points.len();
        for i in 0..n
            invariant
                n == self.points.len(),
                r@ == proto_points(self@.take(i as int)),
        {
            let p = self.points[i];
            r.push(proto::Point { x: p.x, y: p.y });
            assert(r@ =~= proto_points(self@.take(i + 1)));
        }
        assert(self@.take(n as int) =~= self@);
        r
    }

    /// Moves the head one step in `direction`. The stripe needs two points
    /// and a horizontal or vertical last segment; every other segment is
    /// left as it was, so a well-formed stripe stays well formed.
    pub fn move_in_direction(&mut self, direction: Direction)
        requires
            last_segment_aligned(old(self)@),
            old(self)@.last().can_move(direction),
        ensures
            final(self)@ == stepped(old(self)@, direction),
            final(self)@.last() == old(self)@.last().moved(direction),
            last_segment_aligned(final(self)@),
            heading(final(self)@) == direction,
            old(self).wf() ==> final(self).wf(),
    {
        let len = self.points.len();
        let prev = self.points[len - 2];
        let current = self.points[len - 1];
        proof {
            lemma_step_last_segment(self@, direction);
            if self.wf() {
                lemma_stepped_wf(self@, direction);
            }
        }
        if direction == current.direction(&prev) {
            self.points.set(len - 1, current.move_in_direction(direction));
        } else {
            self.points.push(current.move_in_direction(direction));
        }
    }
}

/// The stripe has at least two points and its last segment is horizontal
/// or vertical: what a move of the head needs.
pub open spec fn last_segment_aligned(s: Seq<Point>) -> bool {
    s.len() >= 2 && segment_aligned(s, s.len() - 2)
}

/// After a move, the last segment is again horizontal or vertical and
/// heads in the direction of the move.
pub proof fn lemma_step_last_segment(s: Seq<Point>, d: Direction)
    requires
        last_segment_aligned(s),
        s.last().can_move(d),
    ensures
        last_segment_aligned(stepped(s, d)),
        stepped(s, d).last() == s.last().moved(d),
        heading(stepped(s, d)) == d,
{
    lemma_step_heads_in_direction(s.last(), d);
    let t = stepped(s, d);
    assert(segment_aligned(t, t.len() - 2));
}

/// Moving the head keeps a line stripe well formed, and afterwards the
/// snake heads in the direction of the move.
pub proof fn lemma_stepped_wf(s: Seq<Point>, d: Direction)
    requires
        wf_points(s),
        s.last().can_move(d),
    ensures
        wf_points(stepped(s, d)),
        stepped(s, d).last() == s.last().moved(d),
        heading(stepped(s, d)) == d,
{
    let n = s.len();
    let t = stepped(s, d);
    lemma_step_heads_in_direction(s.last(), d);
    assert(segment_aligned(s, n - 2));
    if d == heading(s) {
        assert forall|i: int| 0 <= i < t.len() - 1 implies #[trigger] segment_aligned(t, i) by {
            if i < n - 2 {
                assert(segment_aligned(s, i));
            }
        }
    } else {
        assert forall|i: int| 0 <= i < t.len() - 1 implies #[trigger] segment_aligned(t, i) by {
            if i < n - 1 {
                assert(segment_aligned(s, i));
            }
        }
    }
}

/// A second move in the direction the snake already heads adds no
/// corner: the number of points stays the same.
pub proof fn lemma_straight_moves_add_no_corner(s: Seq<Point>, d: Direction)
    requires
        wf_points(s),
        s.last().can_move(d),
        s.last().moved(d).can_move(d),
    ensures
        stepped(stepped(s, d), d).len() == stepped(s, d).len(),
{
    lemma_stepped_wf(s, d);
}


/// The wire form of each point of `s`.
pub open spec fn proto_points(s: Seq<Point>) -> Seq<proto::Point> {
    s.map_values(|p: Point| proto::Point { x: p.x, y: p.y })
}

/// A move never touches the points before the head: the old body is kept
/// point for point. Where the move goes the way the last segment runs, the
/// moved head takes the old head's place; otherwise the old head stays and
/// the moved head follows it (a corner is added).
pub proof fn lemma_move_keeps_body(s: Seq<Point>, d: Direction)
    requires
        s.len() >= 2,
    ensures
        ({
            let t = stepped(s, d);
            let n = s.len();
            &&& t.take(n - 1) == s.take(n - 1)
            &&& t.len() == n || t.len() == n + 1
            &&& (t.len() == n <==> d == s.last().direction_from(s[n - 2]))
            &&& t.last() == s.last().moved(d)
            &&& t.len() == n + 1 ==> t[n - 1] == s[n - 1]
            &&& forall|i: int| 0 <= i < n - 1 ==> t[i] == s[i]
        }),
{
    let t = stepped(s, d);
    let n = s.len();
    assert(t.take(n - 1) =~= s.take(n - 1));
}

/// The wire form has one point per stripe point, in order, with the same
/// coordinates.
pub proof fn lemma_wire_points(s: Seq<Point>)
    ensures
        proto_points(s).len() == s.len(),
        forall|i: int|
            0 <= i < s.len() ==> (#[trigger] proto_points(s)[i]).x == s[i].x && proto_points(s)[i].y
                == s[i].y,
{
}

/// The heading that a move code stands for: 0 up, 1 left, 2 down,
/// 3 right; other codes stand for none.
pub open spec fn direction_of_code(code: i32) -> Option<Direction> {
    if code == 0 {
        Some(Direction::Up)
    } else if code == 1 {
        Some(Direction::Left)
    } else if code == 2 {
        Some(Direction::Down)
    } else if code == 3 {
        Some(Direction::Right)
    } else {
        None
    }
}

/// The heading that a steering direction of a move request stands for.
pub open spec fn heading_of(d: proto::player_move::Direction) -> Direction {
    match d {
        proto::player_move::Direction::Top => Direction::Up,
        proto::player_move::Direction::Left => Direction::Left,
        proto::player_move::Direction::Bottom => Direction::Down,
        proto::player_move::Direction::Right => Direction::Right,
    }
}

/// The move codes are exactly the codes of the steering directions, and
/// each decodes to the heading that its direction stands for.
pub proof fn lemma_move_codes(d: proto::player_move::Direction, code: i32)
    ensures
        direction_of_code(d.code()) == Some(heading_of(d)),
        direction_of_code(code) is Some <==> exists|e: proto::player_move::Direction| e.code() == code,
{
    if direction_of_code(code) is Some {
        if code == 0 {
            assert(proto::player_move::Direction::Top.code() == code);
        } else if code == 1 {
            assert(proto::player_move::Direction::Left.code() == code);
        } else if code == 2 {
            assert(proto::player_move::Direction::Bottom.code() == code);
        } else {
            assert(proto::player_move::Direction::Right.code() == code);
        }
    }
}

/// The state of the one game the server runs: the players who observe it,
/// the snake's body and the heading it moves in on each update.
pub struct Snake {
    clients: ClientNames,
    line_stripe: LineStripe,
    direction: Direction,
}

impl Snake {
    /// The snake's body is a well-formed line stripe.
    #[verifier::type_invariant]
    spec fn wf(&self) -> bool {
        self.line_stripe.wf()
    }

    /// The names of the observing players.
    pub closed spec fn client_names(&self) -> Seq<Seq<char>> {
        self.clients@
    }

    /// The snake's points, tail first.
    pub closed spec fn stripe(&self) -> Seq<Point> {
        self.line_stripe@
    }

    /// The heading in which the next update moves the snake.
    pub closed spec fn heading(&self) -> Direction {
        self.direction
    }

    pub fn new() -> (s: Snake)
        ensures
            s.client_names() == Seq::<Seq<char>>::empty(),
            s.stripe() == LineStripe::initial(),
            s.heading() == Direction::Right,
    {
        Snake { clients: ClientNames::new(), line_stripe: LineStripe::new(), direction: Direction::Right }
    }

    /// Whether one more update keeps the head inside the `i32` grid.
    pub fn can_update(&self) -> (b: bool)
        ensures
            b == self.stripe().last().can_move(self.heading()),
    {
        proof {
            use_type_invariant(&*self);
        }
        let head = self.line_stripe.points[self.line_stripe.points.len() - 1];
        match self.direction {
            Direction::Left => head.x > i32::MIN,
            Direction::Right => head.x < i32::MAX,
            Direction::Up => head.y < i32::MAX,
            Direction::Down => head.y > i32::MIN,
        }
    }

    /// One tick of the game: the snake moves one step in its heading.
    pub fn update(&mut self)
        requires
            old(self).stripe().last().can_move(old(self).heading()),
        ensures
            final(self).stripe() == stepped(old(self).stripe(), old(self).heading()),
            final(self).heading() == old(self).heading(),
            final(self).client_names() == old(self).client_names(),
    {
        proof {
            use_type_invariant(&*self);
        }
        let d = self.direction;
        let mut line_stripe = LineStripe::new();
        std::mem::swap(&mut line_stripe, &mut self.line_stripe);
        line_stripe.move_in_direction(d);
        self.line_stripe = line_stripe;
    }

    /// A player starts to observe the game; the snake starts over.
    pub fn add_client(&mut self, name: String)
        ensures
            final(self).client_names() == if old(self).client_names().contains(name@) {
                old(self).client_names()
            } else {
                old(self).client_names().push(name@)
            },
            final(self).stripe() == LineStripe::initial(),
            final(self).heading() == old(self).heading(),
    {
        proof {
            use_type_invariant(&*self);
        }
        let mut clients = ClientNames::new();
        std::mem::swap(&mut clients, &mut self.clients);
        clients.insert(name);
        self.clients = clients;
        self.line_stripe = LineStripe::new();
    }

    /// The snake's points in their wire form.
    pub fn line_stripe_proto(&self) -> (r: Vec<proto::Point>)
        ensures
            r@ == proto_points(self.stripe()),
    {
        self.line_stripe.line_stripe_proto()
    }

    /// The names of the observing players, in order.
    pub fn clients_clone(&self) -> (r: Vec<String>)
        ensures
            views(r@) == self.client_names(),
            views(r@).no_duplicates(),
    {
        self.clients.names()
    }

    /// A player steers the snake; the code must stand for a heading.
    pub fn make_move(&mut self, new_move: &proto::PlayerMove)
        requires
            0 <= new_move.direction <= 3,
        ensures
            Some(final(self).heading()) == direction_of_code(new_move.direction),
            final(self).stripe() == old(self).stripe(),
            final(self).client_names() == old(self).client_names(),
    {
        proof {
            use_type_invariant(&*self);
        }
        self.direction = match new_move.direction {
            0 => Direction::Up,
            1 => Direction::Left,
            2 => Direction::Down,
            _ => Direction::Right,
        };
    }

    /// After the state went out to `sent_to`, drops each observer whose
    /// send (`delivered[i]`) failed.
    pub fn update_clients(&mut self, sent_to: &Vec<String>, delivered: &Vec<bool>)
        requires
            sent_to.len() == delivered.len(),
        ensures
            final(self).client_names() == without(
                old(self).client_names(),
                undelivered(views(sent_to@), delivered@),
            ),
            final(self).stripe() == old(self).stripe(),
            final(self).heading() == old(self).heading(),
    {
        proof {
            use_type_invariant(&*self);
        }
        let to_be_removed = failed_clients(sent_to, delivered);
        self.remove_clients(&to_be_removed);
    }

    /// Drops the observers named in `to_be_removed`.
    pub fn remove_clients(&mut self, to_be_removed: &Vec<String>)
        ensures
            final(self).client_names() == without(old(self).client_names(), views(to_be_removed@)),
            final(self).stripe() == old(self).stripe(),
            final(self).heading() == old(self).heading(),
    {
        proof {
            use_type_invariant(&*self);
        }
        let mut clients = ClientNames::new();
        std::mem::swap(&mut clients, &mut self.clients);
        clients.remove_clients(to_be_removed);
        self.clients = clients;
    }
}

} // verus!
