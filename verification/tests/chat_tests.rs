use snake_game::chat::Chat;
use snake_game::clients::{contains_name, failed_clients, names_without, ClientNames};
use snake_game::proto::ChatMessage;

fn names(v: &[&str]) -> Vec<String> {
    v.iter().map(|s| s.to_string()).collect()
}

#[test]
fn message_goes_to_everyone_but_its_author() {
    let mut chat = Chat::new();
    chat.add_client("ann".to_string());
    chat.add_client("bob".to_string());
    chat.add_client("cy".to_string());
    let m = ChatMessage { user: "bob".to_string(), message: "hi".to_string() };
    assert_eq!(chat.recipients(&m), names(&["ann", "cy"]));
    let m = ChatMessage { user: "dan".to_string(), message: "hi".to_string() };
    assert_eq!(chat.recipients(&m), names(&["ann", "bob", "cy"]));
}

#[test]
fn unreachable_listeners_are_dropped() {
    let mut chat = Chat::new();
    chat.add_client("ann".to_string());
    chat.add_client("bob".to_string());
    chat.add_client("cy".to_string());
    let m = ChatMessage { user: "ann".to_string(), message: "x".to_string() };
    let to = chat.recipients(&m);
    chat.update_clients(&to, &vec![false, true]);
    let m = ChatMessage { user: "nobody".to_string(), message: "y".to_string() };
    assert_eq!(chat.recipients(&m), names(&["ann", "cy"]));
}

#[test]
fn registry_keeps_names_once() {
    let mut c = ClientNames::new();
    c.insert("a".to_string());
    c.insert("b".to_string());
    c.insert("a".to_string());
    assert_eq!(c.len(), 2);
    assert!(c.contains(&"b".to_string()));
    assert!(!c.contains(&"c".to_string()));
    assert_eq!(c.names(), names(&["a", "b"]));
    c.remove_clients(&names(&["a"]));
    assert_eq!(c.names(), names(&["b"]));
}

#[test]
fn helpers_on_name_lists() {
    let v = names(&["x", "y", "z"]);
    assert!(contains_name(&v, &"y".to_string()));
    assert!(!contains_name(&v, &"w".to_string()));
    assert_eq!(names_without(&v, &names(&["y", "q"])), names(&["x", "z"]));
    assert_eq!(failed_clients(&v, &vec![false, true, false]), names(&["x", "z"]));
    assert_eq!(failed_clients(&v, &vec![true, true, true]), Vec::<String>::new());
}
