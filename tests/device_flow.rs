use anycloud::oauth::{
    read_device_code, read_poll_reply, DeviceCode, FlowAction, FlowEnd, PollReply, Poller,
    CODE_BODY,
};

fn poller(interval: u64) -> Poller {
    Poller::new(&DeviceCode {
        device_code: "dc-123".to_string(),
        user_code: "ABCD-EFGH".to_string(),
        verification_uri: "https://github.com/login/device".to_string(),
        interval,
    })
}

#[test]
fn two_pending_then_token() {
    let p = poller(5);
    let replies = vec![
        read_poll_reply(r#"{"error":"authorization_pending"}"#),
        read_poll_reply(r#"{"error":"authorization_pending"}"#),
        read_poll_reply(r#"{"access_token":"T","token_type":"bearer"}"#),
    ];
    let run = p.replay(&replies);
    assert_eq!(run.sleeps, 2);
    match run.end {
        FlowEnd::Authenticated(t) => assert_eq!(t, "T"),
        other => panic!("unexpected {:?}", other),
    }
    match p.on_reply(&replies[0]) {
        FlowAction::Sleep(s) => assert_eq!(s, 6),
        other => panic!("unexpected {:?}", other),
    }
    match p.on_reply(&replies[2]) {
        FlowAction::Persist(t) => assert_eq!(t, "T"),
        other => panic!("unexpected {:?}", other),
    }
}

#[test]
fn expired_token_fails_without_persisting() {
    let p = poller(5);
    let replies = vec![
        read_poll_reply(r#"{"error":"authorization_pending"}"#),
        read_poll_reply(r#"{"error":"expired_token"}"#),
        read_poll_reply(r#"{"access_token":"T"}"#),
    ];
    let run = p.replay(&replies);
    assert_eq!(run.sleeps, 1);
    match run.end {
        FlowEnd::Failed(Some(e)) => assert_eq!(e, "expired_token"),
        other => panic!("unexpected {:?}", other),
    }
}

#[test]
fn access_denied_fails_at_once() {
    let p = poller(0);
    let run = p.replay(&vec![read_poll_reply(r#"{"error":"access_denied"}"#)]);
    assert_eq!(run.sleeps, 0);
    assert!(matches!(run.end, FlowEnd::Failed(Some(_))));
}

#[test]
fn malformed_reply_fails() {
    assert!(matches!(read_poll_reply("<html>"), PollReply::Malformed));
    let run = poller(1).replay(&vec![PollReply::Malformed]);
    assert!(matches!(run.end, FlowEnd::Failed(None)));
}

#[test]
fn reply_without_token_or_error_keeps_polling() {
    let reply = read_poll_reply(r#"{"interval":5}"#);
    assert!(matches!(reply, PollReply::Unrecognized));
    let run = poller(1).replay(&vec![reply]);
    assert_eq!(run.sleeps, 1);
    assert!(matches!(run.end, FlowEnd::Polling));
}

#[test]
fn token_wins_over_error() {
    match read_poll_reply(r#"{"access_token":"abc","error":"slow_down"}"#) {
        PollReply::Token(t) => assert_eq!(t, "abc"),
        other => panic!("unexpected {:?}", other),
    }
}

#[test]
fn reads_device_code_reply() {
    let c = read_device_code(
        r#"{"device_code":"3584d83530557fdd1f46af8289938c8ef79f9dc5","user_code":"WDJB-MJHT","verification_uri":"https://github.com/login/device","expires_in":900,"interval":5}"#,
    )
    .unwrap();
    assert_eq!(c.device_code, "3584d83530557fdd1f46af8289938c8ef79f9dc5");
    assert_eq!(c.user_code, "WDJB-MJHT");
    assert_eq!(c.verification_uri, "https://github.com/login/device");
    assert_eq!(c.interval, 5);
    assert_eq!(Poller::new(&c).period, 6);
}

#[test]
fn malformed_device_code_reply_is_rejected() {
    assert!(read_device_code(r#"{"device_code":"x","user_code":"y","verification_uri":"z"}"#).is_none());
    assert!(read_device_code(r#"{"device_code":"x","user_code":"y","verification_uri":"z","interval":-1}"#).is_none());
    assert!(read_device_code("nonsense").is_none());
}

#[test]
fn largest_interval_saturates() {
    assert_eq!(poller(u64::MAX).period, u64::MAX);
}

#[test]
fn poll_body_quotes_the_device_code() {
    let p = Poller { device_code: "a\"b".to_string(), period: 1 };
    assert_eq!(
        p.request_body(),
        r#"{"client_id":"f6e1ede88556627925d6","grant_type":"urn:ietf:params:oauth:grant-type:device_code","device_code":"a\"b"}"#
    );
    let parsed: serde_json::Value = serde_json::from_str(CODE_BODY).unwrap();
    assert_eq!(parsed["scope"], "user:email");
}
