use snake_game::controls::{
    handle_down, handle_key_event, handle_left, handle_right, handle_up, line_segments, Event, Key,
    KeyCommand, Segment,
};
use snake_game::proto::{PlayerMove, Point};
use snake_game::service::{route, Method, GRPC_STATUS_UNIMPLEMENTED, SERVICE_NAME};

#[test]
fn paths_route_to_their_methods() {
    for m in [Method::MakeMove, Method::ObserveGameState, Method::ReceiveMessage, Method::SendMessage] {
        assert_eq!(route(m.path()), Some(m));
        assert!(m.path().starts_with(&format!("/{}/", SERVICE_NAME)));
    }
    assert_eq!(Method::MakeMove.path(), "/snake.SnakeServer/MakeMove");
    assert_eq!(route("/snake.SnakeServer/SendMessage"), Some(Method::SendMessage));
    assert_eq!(route("/snake.SnakeServer/Nope"), None);
    assert_eq!(route(""), None);
    assert_eq!(GRPC_STATUS_UNIMPLEMENTED, "12");
}

#[test]
fn keys_become_commands() {
    let user = "ann".to_string();
    let mv = |d: i32| KeyCommand::Send(PlayerMove { direction: d, name: user.clone() });
    assert_eq!(handle_key_event(&user, Event::Input(Key::Char('q'))), KeyCommand::Quit);
    assert_eq!(handle_key_event(&user, Event::Input(Key::Up)), mv(0));
    assert_eq!(handle_key_event(&user, Event::Input(Key::Left)), mv(1));
    assert_eq!(handle_key_event(&user, Event::Input(Key::Down)), mv(2));
    assert_eq!(handle_key_event(&user, Event::Input(Key::Right)), mv(3));
    assert_eq!(handle_key_event(&user, Event::Input(Key::Char('x'))), KeyCommand::Continue);
    assert_eq!(handle_key_event(&user, Event::Input(Key::Other)), KeyCommand::Continue);
    assert_eq!(handle_key_event(&user, Event::Tick), KeyCommand::Continue);
}

#[test]
fn move_requests() {
    let user = "bob".to_string();
    assert_eq!(handle_up(&user), PlayerMove { direction: 0, name: user.clone() });
    assert_eq!(handle_left(&user), PlayerMove { direction: 1, name: user.clone() });
    assert_eq!(handle_down(&user), PlayerMove { direction: 2, name: user.clone() });
    assert_eq!(handle_right(&user), PlayerMove { direction: 3, name: user.clone() });
}

#[test]
fn segments_of_a_snake() {
    assert_eq!(line_segments(&vec![]), vec![]);
    assert_eq!(line_segments(&vec![Point { x: 1, y: 1 }]), vec![]);
    let pts = vec![Point { x: 1, y: 1 }, Point { x: 4, y: 1 }, Point { x: 4, y: -2 }];
    assert_eq!(
        line_segments(&pts),
        vec![
            Segment { x1: 1, y1: 1, x2: 4, y2: 1 },
            Segment { x1: 4, y1: 1, x2: 4, y2: -2 },
        ]
    );
}
