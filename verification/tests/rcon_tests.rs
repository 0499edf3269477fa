// Behaviour of the command path around the network boundary. No command
// server runs here, so every attempted execution fails to connect; the
// tests pin what the service does around those attempts.

use admin_panel::proxy_service::{
    ProxyMessage, ProxyResponse, ProxyService, ServerStatus, SPAM_WINDOW_MS,
};

fn busy_service() -> ProxyService {
    let mut svc = ProxyService::new(60_000, 0);
    svc.status = ServerStatus::Busy;
    svc
}

fn is_connect_failure(r: &ProxyResponse) -> bool {
    match r {
        ProxyResponse::Failure { error } => error.starts_with("Can't connect to MC server: "),
        _ => false,
    }
}

#[test]
fn failed_sends_do_not_advance_the_anti_spam_clock() {
    // The guard counts only successful executions: after a transport
    // failure the client may retry at once, without being called a spammer.
    let mut svc = busy_service();
    let t1 = SPAM_WINDOW_MS + 1_000;
    let (first, _) = svc.handle_request(
        ProxyMessage::Ban { nickname: String::from("alice"), reason: None },
        t1,
    );
    assert!(is_connect_failure(&first), "{:?}", first);
    assert_eq!(svc.last_request_time, 0);

    // Half a second later -- well inside the window -- the retry is
    // attempted again rather than rejected as spam.
    let (second, _) = svc.handle_request(
        ProxyMessage::Ban { nickname: String::from("alice"), reason: None },
        t1 + 500,
    );
    assert!(is_connect_failure(&second), "{:?}", second);
    assert_eq!(svc.last_request_time, 0);
}

#[test]
fn world_generation_stops_at_the_first_failure() {
    // The bounding command fails to connect, so the start command is never
    // issued and the one reply names the failure.
    let mut svc = busy_service();
    let (reply, exit) =
        svc.handle_request(ProxyMessage::GenerateWorld { radius: 500 }, SPAM_WINDOW_MS + 1);
    assert!(!exit);
    assert!(is_connect_failure(&reply), "{:?}", reply);
}

#[test]
fn shutdown_reports_the_transport_failure() {
    let mut svc = busy_service();
    let r = svc.shutdown(1_000);
    match r {
        Err(e) => {
            assert!(e.message().starts_with("Can't connect to MC server: "));
        },
        Ok(()) => panic!("no command server is running, shutdown cannot succeed"),
    }
}

#[test]
fn every_request_gets_exactly_one_reply() {
    // One reply value comes back for every message kind, whatever the
    // transport does.
    let mut svc = busy_service();
    let messages = vec![
        ProxyMessage::Ban { nickname: String::from("a"), reason: Some(String::from("r")) },
        ProxyMessage::Pardon { nickname: String::from("a") },
        ProxyMessage::Kick { nickname: String::from("a"), reason: None },
        ProxyMessage::WhitelistAdd { nickname: String::from("a") },
        ProxyMessage::WhitelistRemove { nickname: String::from("a") },
        ProxyMessage::OpAdd { nickname: String::from("a") },
        ProxyMessage::DeOp { nickname: String::from("a") },
        ProxyMessage::GenerateWorld { radius: 1 },
        ProxyMessage::CancelGeneration,
        ProxyMessage::Ping,
        ProxyMessage::Quit,
    ];
    let mut now = SPAM_WINDOW_MS;
    for message in messages {
        let (reply, _) = svc.handle_request(message, now);
        assert!(matches!(
            reply,
            ProxyResponse::Success { .. } | ProxyResponse::Failure { .. }
        ));
        now += SPAM_WINDOW_MS;
    }
}
