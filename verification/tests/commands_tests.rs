use std::sync::mpsc;
use tomato_timer::commands::{
    interpret_event, process_command_event, process_outcome, Command, Event, KeyCode, KeyEvent,
    Modifiers, RecvOutcome,
};

fn key(code: KeyCode, modifiers: Modifiers) -> Event {
    Event::KeyInput(KeyEvent { code, modifiers })
}

fn control() -> Modifiers {
    Modifiers { shift: false, control: true, alt: false }
}

#[test]
fn quit_key_without_modifiers_quits() {
    let (tx, rx) = mpsc::channel();
    tx.send(key(KeyCode::Char('q'), Modifiers::none())).unwrap();
    let cmd = process_command_event(&rx);
    assert!(matches!(cmd, Command::Quit));
}

#[test]
fn control_c_quits_and_plain_c_continues() {
    let (tx, rx) = mpsc::channel();
    tx.send(key(KeyCode::Char('c'), control())).unwrap();
    assert!(matches!(process_command_event(&rx), Command::Quit));

    tx.send(key(KeyCode::Char('c'), Modifiers::none())).unwrap();
    assert!(matches!(process_command_event(&rx), Command::Continue));
}

#[test]
fn empty_queue_continues() {
    let (tx, rx) = mpsc::channel::<Event>();
    let cmd = process_command_event(&rx);
    assert!(matches!(cmd, Command::Continue));
    drop(tx);
}

#[test]
fn closed_queue_quits_with_nonempty_message() {
    let (tx, rx) = mpsc::channel::<Event>();
    drop(tx);
    let cmd = process_command_event(&rx);
    match cmd {
        Command::QuitWithError(msg) => assert!(!msg.is_empty()),
        _ => panic!("a closed queue must quit with an error"),
    }
}

#[test]
fn disconnected_outcome_carries_the_disconnect_message() {
    let cmd = process_outcome(&RecvOutcome::Disconnected);
    match cmd {
        Command::QuitWithError(msg) => assert_eq!(msg, "mpsc channel disconnected"),
        _ => panic!("disconnection must quit with an error"),
    }
}

#[test]
fn tick_never_quits() {
    assert!(matches!(interpret_event(&Event::Tick), Command::Continue));
    let (tx, rx) = mpsc::channel();
    tx.send(Event::Tick).unwrap();
    assert!(matches!(process_command_event(&rx), Command::Continue));
}

#[test]
fn quit_key_with_modifiers_continues() {
    assert!(matches!(
        interpret_event(&key(KeyCode::Char('q'), control())),
        Command::Continue
    ));
    let shifted = Modifiers { shift: true, control: false, alt: false };
    assert!(matches!(interpret_event(&key(KeyCode::Char('q'), shifted)), Command::Continue));
}

#[test]
fn other_keys_continue() {
    assert!(matches!(
        interpret_event(&key(KeyCode::Char('z'), Modifiers::none())),
        Command::Continue
    ));
    assert!(matches!(
        interpret_event(&key(KeyCode::Other, Modifiers::none())),
        Command::Continue
    ));
}

#[test]
fn interpretation_is_deterministic() {
    let events = [
        key(KeyCode::Char('q'), Modifiers::none()),
        key(KeyCode::Char('c'), control()),
        key(KeyCode::Char('a'), Modifiers::none()),
        Event::Tick,
    ];
    for e in events {
        let first = interpret_event(&e);
        let second = interpret_event(&e);
        assert!(matches!(
            (first, second),
            (Command::Quit, Command::Quit) | (Command::Continue, Command::Continue)
        ));
    }
}

#[test]
fn events_are_consumed_in_order_once_each() {
    let (tx, rx) = mpsc::channel();
    tx.send(Event::Tick).unwrap();
    tx.send(key(KeyCode::Char('q'), Modifiers::none())).unwrap();
    assert!(matches!(process_command_event(&rx), Command::Continue));
    assert!(matches!(process_command_event(&rx), Command::Quit));
    assert!(matches!(process_command_event(&rx), Command::Continue));
}
