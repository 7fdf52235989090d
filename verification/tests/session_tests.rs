use raccoon::session::{greeting_line, SessionCoordinator};

#[test]
fn handoff_fires_exactly_once() {
    let mut c = SessionCoordinator::new();
    assert!(c.on_welcome());
    // A second welcome signal must not re-publish.
    assert!(!c.on_welcome());
    assert!(!c.on_welcome());
}

#[test]
fn first_channel_argument_is_greeted_once() {
    let mut c = SessionCoordinator::new();
    let args = vec![String::from("botnick"), String::from("#lounge")];
    assert_eq!(c.on_names(&args), Some(String::from("#lounge")));
    // The same channel is never greeted twice.
    assert_eq!(c.on_names(&args), None);
    // A different channel still gets its greeting.
    let args2 = vec![String::from("#den")];
    assert_eq!(c.on_names(&args2), Some(String::from("#den")));
}

#[test]
fn names_without_channel_arguments_greet_nothing() {
    let mut c = SessionCoordinator::new();
    let args = vec![String::from("botnick"), String::from("host")];
    assert_eq!(c.on_names(&args), None);
    let none: Vec<String> = vec![];
    assert_eq!(c.on_names(&none), None);
}

#[test]
fn greeting_is_fixed() {
    assert!(greeting_line().contains("Hello"));
    assert!(greeting_line().contains("Gitlab notifications"));
}
