use redis::{ConnectionAddr, ErrorKind, RedisError};
use redis_connector::connector::{Action, Connector, Event, Notice, OutOfTurn, Phase, Reply};
use redis_connector::error::{to_decimal, ConnectError};
use redis_connector::policy::{MAX_RETRIES, RETRY_DELAY_SECS};
use redis_connector::settings::{ConfigError, Settings};

/// What a played call came to.
struct Played {
    connected: bool,
    stuck: bool,
    attempts: u32,
    connections: u32,
    failures: u32,
    delays: u32,
    slept_secs: u64,
    notices: Vec<Notice>,
    connector: Connector,
}

fn settings(address: &str, port: &str) -> Settings {
    Settings::resolve(Some(address.to_string()), Some(port.to_string())).unwrap()
}

fn refusal(text: &'static str) -> Reply {
    Reply::Refused(RedisError::from((ErrorKind::IoError, text)))
}

/// Plays one call as a caller does: each order to connect is answered with
/// the next scripted reply, each pause with the event that an attempt is due.
fn play(address: &str, port: &str, script: Vec<Reply>) -> Played {
    let mut replies = script.into_iter();
    let mut connector = Connector::new(settings(address, port));
    let mut played = Played {
        connected: false,
        stuck: false,
        attempts: 0,
        connections: 0,
        failures: 0,
        delays: 0,
        slept_secs: 0,
        notices: Vec::new(),
        connector: Connector::new(settings(address, port)),
    };
    let mut event = Event::AttemptDue;
    loop {
        let step = connector.step(event).unwrap();
        for notice in &step.notices {
            match notice {
                Notice::Attempting { .. } => played.attempts += 1,
                Notice::Failed => played.failures += 1,
                _ => {}
            }
            played.notices.push(*notice);
        }
        match step.action {
            Action::Connect(_) => {
                played.connections += 1;
                match replies.next() {
                    Some(reply) => event = Event::Replied(reply),
                    None => {
                        played.stuck = true;
                        break;
                    }
                }
            }
            Action::Sleep { secs } => {
                played.delays += 1;
                played.slept_secs += secs;
                event = Event::AttemptDue;
            }
            Action::Finish => {
                played.connected = true;
                break;
            }
            Action::GiveUp => break,
        }
    }
    played.connector = connector;
    played
}

#[test]
fn policy_is_five_attempts_five_seconds_apart() {
    assert_eq!(MAX_RETRIES, 5);
    assert_eq!(RETRY_DELAY_SECS, 5);
}

#[test]
fn resolve_takes_both_settings() {
    let s = Settings::resolve(Some("localhost".to_string()), Some("6379".to_string())).unwrap();
    assert_eq!(s.address(), "localhost");
    assert_eq!(s.port(), "6379");
}

#[test]
fn resolve_reports_a_missing_address() {
    let r = Settings::resolve(None, Some("6379".to_string()));
    assert_eq!(r.unwrap_err(), ConfigError::MissingAddress);
}

#[test]
fn resolve_reports_a_missing_port() {
    let r = Settings::resolve(Some("localhost".to_string()), None);
    assert_eq!(r.unwrap_err(), ConfigError::MissingPort);
}

#[test]
fn resolve_reports_the_address_first_when_both_are_missing() {
    let r = Settings::resolve(None, None);
    assert_eq!(r.unwrap_err(), ConfigError::MissingAddress);
}

#[test]
fn config_errors_name_their_setting() {
    assert_eq!(ConfigError::MissingAddress.key(), "REDIS_ADDRESS");
    assert_eq!(ConfigError::MissingPort.key(), "REDIS_PORT");
    assert_eq!(ConfigError::MissingAddress.message(), "REDIS_ADDRESS must be set");
    assert_eq!(ConfigError::MissingPort.message(), "REDIS_PORT must be set");
}

#[test]
fn connection_string_has_scheme_host_port_and_slash() {
    assert_eq!(settings("localhost", "6379").connection_string(), "redis://localhost:6379/");
    assert_eq!(settings("10.0.0.7", "7000").connection_string(), "redis://10.0.0.7:7000/");
    assert_eq!(settings("", "").connection_string(), "redis://:/");
}

#[test]
fn a_new_connector_is_ready_and_has_made_no_attempt() {
    let c = Connector::new(settings("localhost", "6379"));
    assert_eq!(c.attempt(), 0);
    assert_eq!(c.phase(), Phase::Ready);
    assert!(c.last_error().is_none());
    assert!(c.attempt_is_due());
}

#[test]
fn the_first_step_builds_a_client_for_the_address() {
    let mut c = Connector::new(settings("cache.internal", "6380"));
    let step = c.step(Event::AttemptDue).unwrap();
    assert_eq!(step.notices, vec![Notice::Attempting { attempt: 1, of: 5 }]);
    match step.action {
        Action::Connect(client) => match &client.get_connection_info().addr {
            ConnectionAddr::Tcp(host, port) => {
                assert_eq!(host, "cache.internal");
                assert_eq!(*port, 6380);
            }
            other => panic!("unexpected address {:?}", other),
        },
        other => panic!("unexpected action {:?}", other),
    }
    assert_eq!(c.phase(), Phase::Connecting);
    assert_eq!(c.attempt(), 1);
    assert!(!c.attempt_is_due());
}

#[test]
fn a_reachable_store_connects_on_the_first_attempt() {
    let p = play("localhost", "6379", vec![Reply::Established]);
    assert!(p.connected);
    assert_eq!(p.attempts, 1);
    assert_eq!(p.connections, 1);
    assert_eq!(p.failures, 0);
    assert_eq!(p.delays, 0);
    assert_eq!(p.connector.phase(), Phase::Connected);
    assert!(p.connector.last_error().is_none());
    assert_eq!(
        p.notices,
        vec![Notice::Attempting { attempt: 1, of: 5 }, Notice::Established]
    );
}

#[test]
fn success_ends_the_call_and_leaves_later_replies_unused() {
    let p = play("localhost", "6379", vec![Reply::Established, refusal("never asked")]);
    assert!(p.connected);
    assert_eq!(p.connections, 1);
}

#[test]
fn one_failure_then_success() {
    let p = play("localhost", "6379", vec![refusal("down 1"), Reply::Established]);
    assert!(p.connected);
    assert_eq!(p.attempts, 2);
    assert_eq!(p.failures, 1);
    assert_eq!(p.delays, 1);
    assert_eq!(p.slept_secs, 5);
    assert_eq!(
        p.notices,
        vec![
            Notice::Attempting { attempt: 1, of: 5 },
            Notice::Failed,
            Notice::Retrying { secs: 5 },
            Notice::Attempting { attempt: 2, of: 5 },
            Notice::Established,
        ]
    );
}

#[test]
fn down_for_three_attempts_up_on_the_fourth() {
    let p = play(
        "localhost",
        "6379",
        vec![refusal("down 1"), refusal("down 2"), refusal("down 3"), Reply::Established],
    );
    assert!(p.connected);
    assert_eq!(p.connector.attempt(), 4);
    assert_eq!(p.attempts, 4);
    assert_eq!(p.failures, 3);
    assert_eq!(p.delays, 3);
    assert_eq!(p.slept_secs, 15);
}

#[test]
fn four_failures_then_success_on_the_final_attempt() {
    let p = play(
        "localhost",
        "6379",
        vec![
            refusal("down 1"),
            refusal("down 2"),
            refusal("down 3"),
            refusal("down 4"),
            Reply::Established,
        ],
    );
    assert!(p.connected);
    assert_eq!(p.attempts, 5);
    assert_eq!(p.failures, 4);
    assert_eq!(p.delays, 4);
}

#[test]
fn five_failures_give_up_with_the_fifth_cause() {
    let p = play(
        "localhost",
        "6379",
        vec![
            refusal("down 1"),
            refusal("down 2"),
            refusal("down 3"),
            refusal("down 4"),
            refusal("down 5"),
            Reply::Established,
        ],
    );
    assert!(!p.connected);
    assert!(!p.stuck);
    assert_eq!(p.attempts, 5);
    assert_eq!(p.connections, 5);
    assert_eq!(p.failures, 5);
    assert_eq!(p.delays, 4);
    assert_eq!(p.slept_secs, 20);
    assert_eq!(p.connector.phase(), Phase::Failed);
    assert_eq!(p.notices.last(), Some(&Notice::Failed));
    let error = p.connector.into_error();
    assert_eq!(error.message(), "Failed to get multiplexed connection");
    match error {
        ConnectError::ConnectionNegotiation(cause) => {
            assert_eq!(cause.kind(), ErrorKind::IoError);
            assert!(cause.to_string().contains("down 5"));
        }
        other => panic!("unexpected error {:?}", other),
    }
}

#[test]
fn the_last_error_is_overwritten_by_each_failure() {
    let mut c = Connector::new(settings("localhost", "6379"));
    c.step(Event::AttemptDue).unwrap();
    c.step(Event::Replied(refusal("first"))).unwrap();
    assert!(c.last_error().unwrap().cause().unwrap().to_string().contains("first"));
    c.step(Event::AttemptDue).unwrap();
    assert!(c.last_error().unwrap().cause().unwrap().to_string().contains("first"));
    c.step(Event::Replied(refusal("second"))).unwrap();
    assert!(c.last_error().unwrap().cause().unwrap().to_string().contains("second"));
}

#[test]
fn an_address_that_does_not_parse_fails_every_attempt_without_connecting() {
    let p = play("localhost", "not-a-port", vec![Reply::Established]);
    assert!(!p.connected);
    assert!(!p.stuck);
    assert_eq!(p.attempts, 5);
    assert_eq!(p.connections, 0);
    assert_eq!(p.failures, 5);
    assert_eq!(p.delays, 4);
    let error = p.connector.into_error();
    assert_eq!(error.message(), "Failed to create Redis client");
    match error {
        ConnectError::ClientConstruction(cause) => {
            assert_eq!(cause.kind(), ErrorKind::InvalidClientConfig);
        }
        other => panic!("unexpected error {:?}", other),
    }
}

#[test]
fn begin_attempt_takes_the_failure_it_is_given() {
    let mut c = Connector::new(settings("localhost", "6379"));
    let given = RedisError::from((ErrorKind::InvalidClientConfig, "no handle"));
    let step = c.begin_attempt(Err(given)).unwrap();
    assert_eq!(
        step.notices,
        vec![
            Notice::Attempting { attempt: 1, of: 5 },
            Notice::Failed,
            Notice::Retrying { secs: 5 },
        ]
    );
    assert!(matches!(step.action, Action::Sleep { secs: 5 }));
    assert_eq!(c.phase(), Phase::Ready);
    assert_eq!(c.attempt(), 1);
    match c.last_error() {
        Some(ConnectError::ClientConstruction(cause)) => {
            assert!(cause.to_string().contains("no handle"))
        }
        other => panic!("unexpected error {:?}", other),
    }
}

#[test]
fn begin_attempt_hands_out_the_client_it_is_given() {
    let mut c = Connector::new(settings("localhost", "6379"));
    let client = redis::Client::open("redis://elsewhere:1234/").unwrap();
    let step = c.begin_attempt(Ok(client)).unwrap();
    match step.action {
        Action::Connect(client) => match &client.get_connection_info().addr {
            ConnectionAddr::Tcp(host, port) => {
                assert_eq!(host, "elsewhere");
                assert_eq!(*port, 1234);
            }
            other => panic!("unexpected address {:?}", other),
        },
        other => panic!("unexpected action {:?}", other),
    }
}

#[test]
fn a_reply_before_any_attempt_is_out_of_turn() {
    let mut c = Connector::new(settings("localhost", "6379"));
    let r = c.step(Event::Replied(Reply::Established));
    assert_eq!(r.unwrap_err(), OutOfTurn { phase: Phase::Ready });
    assert_eq!(c.attempt(), 0);
    assert_eq!(c.phase(), Phase::Ready);
    let r = c.reply(refusal("nobody asked"));
    assert_eq!(r.unwrap_err(), OutOfTurn { phase: Phase::Ready });
    assert!(c.last_error().is_none());
}

#[test]
fn a_due_attempt_while_connecting_is_out_of_turn() {
    let mut c = Connector::new(settings("localhost", "6379"));
    c.step(Event::AttemptDue).unwrap();
    let r = c.step(Event::AttemptDue);
    assert_eq!(r.unwrap_err(), OutOfTurn { phase: Phase::Connecting });
    assert_eq!(c.attempt(), 1);
    assert_eq!(c.phase(), Phase::Connecting);
}

#[test]
fn nothing_moves_a_call_that_is_over() {
    let mut p = play("localhost", "6379", vec![Reply::Established]);
    assert_eq!(
        p.connector.step(Event::AttemptDue).unwrap_err(),
        OutOfTurn { phase: Phase::Connected }
    );
    assert_eq!(
        p.connector.step(Event::Replied(Reply::Established)).unwrap_err(),
        OutOfTurn { phase: Phase::Connected }
    );
    let mut q = play("localhost", "not-a-port", vec![]);
    assert_eq!(q.connector.step(Event::AttemptDue).unwrap_err(), OutOfTurn { phase: Phase::Failed });
    assert_eq!(q.connector.attempt(), 5);
}

#[test]
fn a_call_without_a_failure_ends_with_exhausted_attempts() {
    let c = Connector::new(settings("localhost", "6379"));
    let error = c.into_error();
    assert!(matches!(error, ConnectError::AttemptsExhausted));
    assert!(error.cause().is_none());
    assert_eq!(error.message(), "Could not connect to Redis after 5 attempts.");
    assert!(error.into_cause().is_none());
}

#[test]
fn staged_errors_carry_their_cause() {
    let built = ConnectError::ClientConstruction(RedisError::from((
        ErrorKind::InvalidClientConfig,
        "bad address",
    )));
    assert_eq!(built.message(), "Failed to create Redis client");
    assert_eq!(built.cause().unwrap().kind(), ErrorKind::InvalidClientConfig);
    let negotiated =
        ConnectError::ConnectionNegotiation(RedisError::from((ErrorKind::IoError, "refused")));
    assert_eq!(negotiated.message(), "Failed to get multiplexed connection");
    let cause = negotiated.into_cause().unwrap();
    assert_eq!(cause.kind(), ErrorKind::IoError);
    assert!(cause.to_string().contains("refused"));
}

#[test]
fn decimal_writes_numbers_without_leading_zeros() {
    assert_eq!(to_decimal(0), "0");
    assert_eq!(to_decimal(5), "5");
    assert_eq!(to_decimal(9), "9");
    assert_eq!(to_decimal(10), "10");
    assert_eq!(to_decimal(407), "407");
    assert_eq!(to_decimal(1234567890), "1234567890");
    assert_eq!(to_decimal(u32::MAX), "4294967295");
}

#[test]
fn two_calls_keep_their_own_counters_and_errors() {
    let mut a = Connector::new(settings("one", "1111"));
    let mut b = Connector::new(settings("two", "2222"));
    a.step(Event::AttemptDue).unwrap();
    b.step(Event::AttemptDue).unwrap();
    a.step(Event::Replied(refusal("a down 1"))).unwrap();
    a.step(Event::AttemptDue).unwrap();
    b.step(Event::Replied(Reply::Established)).unwrap();
    a.step(Event::Replied(refusal("a down 2"))).unwrap();
    a.step(Event::AttemptDue).unwrap();
    assert_eq!(a.attempt(), 3);
    assert_eq!(a.phase(), Phase::Connecting);
    assert!(a.last_error().unwrap().cause().unwrap().to_string().contains("a down 2"));
    assert_eq!(b.attempt(), 1);
    assert_eq!(b.phase(), Phase::Connected);
    assert!(b.last_error().is_none());

    let alone = play(
        "one",
        "1111",
        vec![refusal("a down 1"), refusal("a down 2")],
    );
    assert!(alone.stuck);
    assert_eq!(alone.connector.attempt(), a.attempt());
    assert_eq!(alone.connector.phase(), a.phase());
}

#[test]
fn a_pause_follows_every_failure_but_the_final_one() {
    for n in 0..5u32 {
        let mut script: Vec<Reply> = Vec::new();
        for _ in 0..n {
            script.push(refusal("down"));
        }
        script.push(Reply::Established);
        let p = play("localhost", "6379", script);
        assert!(p.connected);
        assert_eq!(p.attempts, n + 1);
        assert_eq!(p.failures, n);
        assert_eq!(p.delays, n);
        assert_eq!(p.slept_secs, 5 * n as u64);
    }
}
