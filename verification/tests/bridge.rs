use confuse::bridge::{run_command, BridgeError, Reply, Session};

#[test]
fn command_is_framed_with_a_closing_zero() {
    assert_eq!(
        run_command("CONFIG:%simics%/scripts/app.yml").unwrap(),
        b"CONFIG:%simics%/scripts/app.yml\0".to_vec()
    );
    assert_eq!(run_command("").unwrap(), vec![0]);
    assert_eq!(run_command("é").unwrap(), vec![0xc3, 0xa9, 0]);
}

#[test]
fn command_with_a_zero_byte_is_refused() {
    assert_eq!(run_command("run\0-script"), Err(BridgeError::InvalidCommand));
    assert_eq!(run_command("\0"), Err(BridgeError::InvalidCommand));
    assert_eq!(run_command("run\0"), Err(BridgeError::InvalidCommand));
}

#[test]
fn commands_are_numbered_in_the_order_of_sending() {
    let mut session = Session::new();
    for expected in 0..5u64 {
        let command = session.send_command("run").unwrap();
        assert_eq!(command.sequence, expected);
        assert_eq!(command.bytes, b"run\0".to_vec());
        assert_eq!(session.in_flight, Some(expected));
        assert_eq!(session.complete(Reply::Value), Ok(()));
    }
    assert_eq!(session.sent, 5);
    assert_eq!(session.in_flight, None);
}

#[test]
fn one_command_at_a_time() {
    let mut session = Session::new();
    session.send_command("first").unwrap();
    assert_eq!(session.send_command("second").err(), Some(BridgeError::CommandPending));
    assert_eq!(session.sent, 1);
    assert_eq!(session.complete(Reply::Value), Ok(()));
    assert_eq!(session.send_command("second").unwrap().sequence, 1);
}

#[test]
fn rejected_command_is_named_and_not_sent_again() {
    let mut session = Session::new();
    session.send_command("a").unwrap();
    session.complete(Reply::Value).unwrap();
    session.send_command("b").unwrap();
    assert_eq!(
        session.complete(Reply::Rejected),
        Err(BridgeError::CommandRejected { sequence: 1 })
    );
    assert_eq!(session.sent, 2);
    assert!(session.open);
    assert_eq!(session.in_flight, None);
    assert_eq!(session.send_command("c").unwrap().sequence, 2);
}

#[test]
fn lost_simulator_closes_the_session() {
    let mut session = Session::new();
    session.send_command("a").unwrap();
    assert_eq!(session.complete(Reply::Unreachable), Err(BridgeError::SessionUnreachable));
    assert!(!session.open);
    assert_eq!(session.send_command("b").err(), Some(BridgeError::SessionUnreachable));
    assert_eq!(session.sent, 1);
}

#[test]
fn invalid_line_leaves_the_session_alone() {
    let mut session = Session::new();
    assert_eq!(session.send_command("a\0b").err(), Some(BridgeError::InvalidCommand));
    assert_eq!(session, Session::new());
}

#[test]
fn answer_without_a_command_is_refused() {
    let mut session = Session::new();
    assert_eq!(session.complete(Reply::Value), Err(BridgeError::NoCommandPending));
    assert_eq!(session, Session::new());
}

#[test]
fn closing_abandons_the_command_in_flight() {
    let mut session = Session::new();
    session.send_command("run").unwrap();
    session.close();
    assert_eq!(session, Session { open: false, sent: 1, in_flight: None });
    assert_eq!(session.send_command("run").err(), Some(BridgeError::SessionUnreachable));
}

#[test]
fn session_that_has_used_up_its_numbers_closes() {
    let mut session = Session { open: true, sent: u64::MAX, in_flight: None };
    assert_eq!(session.send_command("run").err(), Some(BridgeError::SessionUnreachable));
    assert!(!session.open);
}
