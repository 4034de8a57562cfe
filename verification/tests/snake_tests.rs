use snake_game::proto::PlayerMove;
use snake_game::snake::{Direction, LineStripe, Point, Snake};

#[test]
fn it_works() {
    let mut line_stripe = LineStripe::from(Point::new(10, 10), Point::new(10, 15));
    line_stripe.move_in_direction(Direction::Up);
    assert_eq!(Point::new(10, 10), line_stripe.points()[0]);
    assert_eq!(Point::new(10, 16), line_stripe.points()[1]);
    line_stripe.move_in_direction(Direction::Right);
    assert_eq!(Point::new(10, 10), line_stripe.points()[0]);
    assert_eq!(Point::new(10, 16), line_stripe.points()[1]);
    assert_eq!(Point::new(11, 16), line_stripe.points()[2]);
}

#[test]
fn direction_of_segments() {
    let p = Point::new(5, 5);
    assert_eq!(Point::new(6, 5).direction(&p), Direction::Right);
    assert_eq!(Point::new(4, 5).direction(&p), Direction::Left);
    assert_eq!(Point::new(5, 6).direction(&p), Direction::Up);
    assert_eq!(Point::new(5, 4).direction(&p), Direction::Down);
    // a point compared with itself counts as lying to the left
    assert_eq!(p.direction(&p), Direction::Left);
}

#[test]
fn one_step_heads_in_its_direction() {
    let p = Point::new(-3, 7);
    for d in [Direction::Left, Direction::Right, Direction::Up, Direction::Down] {
        assert_eq!(p.move_in_direction(d).direction(&p), d);
    }
}

#[test]
fn move_and_add() {
    let p = Point::new(1, 2);
    assert_eq!(p.add_x(-4), Point::new(-3, 2));
    assert_eq!(p.add_y(10), Point::new(1, 12));
    assert_eq!(p.move_in_direction(Direction::Down), Point::new(1, 1));
    assert_eq!(p.move_in_direction(Direction::Left), Point::new(0, 2));
}

#[test]
fn new_stripe_is_the_starting_snake() {
    let l = LineStripe::new();
    assert_eq!(l.points(), &vec![Point::new(10, 10), Point::new(15, 10)]);
}

#[test]
fn straight_moves_add_no_corner() {
    let mut l = LineStripe::new();
    l.move_in_direction(Direction::Up);
    assert_eq!(l.points().len(), 3);
    l.move_in_direction(Direction::Up);
    l.move_in_direction(Direction::Up);
    assert_eq!(l.points().len(), 3);
    assert_eq!(l.points()[2], Point::new(15, 13));
}

#[test]
fn reversing_adds_a_corner() {
    let mut l = LineStripe::new();
    l.move_in_direction(Direction::Left);
    assert_eq!(
        l.points(),
        &vec![Point::new(10, 10), Point::new(15, 10), Point::new(14, 10)]
    );
}

#[test]
fn stripe_in_wire_form() {
    let l = LineStripe::from(Point::new(1, 2), Point::new(1, -4));
    let p = l.line_stripe_proto();
    assert_eq!(p.len(), 2);
    assert_eq!((p[0].x, p[0].y), (1, 2));
    assert_eq!((p[1].x, p[1].y), (1, -4));
}

#[test]
fn snake_updates_in_its_heading() {
    let mut s = Snake::new();
    assert!(s.can_update());
    s.update();
    let p = s.line_stripe_proto();
    assert_eq!((p[1].x, p[1].y), (16, 10));
    s.make_move(&PlayerMove { direction: 0, name: "a".to_string() });
    s.update();
    let p = s.line_stripe_proto();
    assert_eq!(p.len(), 3);
    assert_eq!((p[2].x, p[2].y), (16, 11));
}

#[test]
fn move_codes() {
    let cases = [(0, (15, 11)), (1, (14, 10)), (2, (15, 9)), (3, (16, 10))];
    for (code, head) in cases {
        let mut s = Snake::new();
        s.make_move(&PlayerMove { direction: code, name: String::new() });
        s.update();
        let p = s.line_stripe_proto();
        let last = p[p.len() - 1];
        assert_eq!((last.x, last.y), head);
    }
}

#[test]
fn new_client_restarts_the_snake() {
    let mut s = Snake::new();
    s.update();
    s.update();
    s.add_client("ann".to_string());
    let p = s.line_stripe_proto();
    assert_eq!(p.len(), 2);
    assert_eq!((p[1].x, p[1].y), (15, 10));
    s.add_client("bob".to_string());
    s.add_client("ann".to_string());
    assert_eq!(s.clients_clone(), vec!["ann".to_string(), "bob".to_string()]);
}

#[test]
fn failed_observers_are_dropped() {
    let mut s = Snake::new();
    s.add_client("ann".to_string());
    s.add_client("bob".to_string());
    s.add_client("cy".to_string());
    let sent_to = s.clients_clone();
    s.update_clients(&sent_to, &vec![true, false, true]);
    assert_eq!(s.clients_clone(), vec!["ann".to_string(), "cy".to_string()]);
    s.remove_clients(&vec!["cy".to_string(), "zed".to_string()]);
    assert_eq!(s.clients_clone(), vec!["ann".to_string()]);
}

#[test]
fn from_keeps_both_ends() {
    let l = LineStripe::from(Point::new(-2, 3), Point::new(7, 3));
    assert_eq!(l.points(), &vec![Point::new(-2, 3), Point::new(7, 3)]);
}
