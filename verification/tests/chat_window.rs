use gossip_chat::chat_log::{ChatLog, INITIAL_ROWS};
use gossip_chat::message::{
    after_queueing, compose, echo_after_publish, ListenAnnouncer, Message, Notice, Reception,
};

fn msg(u: &str, t: &str) -> Message {
    Message::new(u.to_string(), t.to_string())
}

#[test]
fn display_line_format() {
    assert_eq!(msg("alice", "hi there").display_line(), "alice: hi there");
    assert_eq!(msg("", "").display_line(), ": ");
}

#[test]
fn console_and_listening_messages() {
    let m = Message::from_console("hello".to_string());
    assert_eq!(m.uuid, "Text");
    assert_eq!(m.text, "hello");
    let l = Message::listening_on("/ip4/127.0.0.1/tcp/1234".to_string());
    assert_eq!(l.uuid, "Listening on");
    assert_eq!(l.text, "/ip4/127.0.0.1/tcp/1234");
}

#[test]
fn compose_refuses_empty_and_keeps_user() {
    let user = "zoe".to_string();
    assert_eq!(compose(&user, &String::new()), Err(Notice::MessageRequired));
    assert_eq!(compose(&user, &"yo".to_string()), Ok(msg("zoe", "yo")));
}

#[test]
fn after_queueing_and_echo() {
    assert_eq!(after_queueing(true), Ok(()));
    assert_eq!(after_queueing(false), Err(Notice::PublishFailed));
    assert_eq!(echo_after_publish(true, msg("a", "b")), Some(msg("a", "b")));
    assert_eq!(echo_after_publish(false, msg("a", "b")), None);
}

#[test]
fn fresh_window_is_blank() {
    let log = ChatLog::new();
    assert_eq!(log.rows().len(), INITIAL_ROWS);
    assert!(log.rows().iter().all(|r| r.is_empty()));
    assert_eq!(log.received(), 0);
}

#[test]
fn window_scrolls_then_grows() {
    let mut log = ChatLog::new();
    for i in 1..=14 {
        assert!(log.push_message(&msg("u", &i.to_string())));
        assert_eq!(log.rows().len(), 15);
    }
    // one blank row is left at the top, then the fourteen messages
    assert_eq!(log.rows()[0], "");
    assert_eq!(log.rows()[1], "u: 1");
    assert_eq!(log.rows()[14], "u: 14");
    assert!(!log.push_message(&msg("u", "15")));
    assert_eq!(log.rows().len(), 16);
    assert_eq!(log.rows()[0], "");
    assert_eq!(log.rows()[15], "u: 15");
    assert_eq!(log.received(), 15);
}

#[test]
fn window_keeps_every_message_in_order() {
    let mut log = ChatLog::new();
    for i in 0..40 {
        log.push_message(&msg("p", &i.to_string()));
    }
    let rows = log.rows();
    assert_eq!(rows.len(), 41);
    assert_eq!(rows[0], "");
    for i in 0..40 {
        assert_eq!(rows[i + 1], format!("p: {}", i));
    }
}

#[test]
fn first_messages_fill_from_below() {
    let mut log = ChatLog::new();
    log.push_message(&msg("a", "x"));
    log.push_message(&msg("b", "y"));
    let rows = log.rows();
    assert_eq!(rows.len(), 15);
    assert!(rows[..13].iter().all(|r| r.is_empty()));
    assert_eq!(rows[13], "a: x");
    assert_eq!(rows[14], "b: y");
}

#[test]
fn announce_once_even_without_addresses() {
    let mut a = ListenAnnouncer::new();
    assert!(a.announce_once(vec![]).is_empty());
    assert!(a.announce_once(vec!["/ip4/1.2.3.4/tcp/5".to_string()]).is_empty());

    let mut b = ListenAnnouncer::new();
    let notes = b.announce_once(vec!["x".to_string(), "y".to_string()]);
    assert_eq!(notes, vec![Message::listening_on("x".to_string()), Message::listening_on("y".to_string())]);
    assert!(b.announce_once(vec!["z".to_string()]).is_empty());
}

#[test]
fn report_until_some_address() {
    let mut a = ListenAnnouncer::new();
    assert!(a.report_until_listening(vec![]).is_empty());
    assert_eq!(a.report_until_listening(vec!["a".to_string()]), vec!["a".to_string()]);
    assert!(a.report_until_listening(vec!["b".to_string()]).is_empty());
}

#[test]
fn reception_stops_at_first_undecodable_payload() {
    let mut r = Reception::new();
    assert_eq!(r.receive(Some(msg("a", "1"))), Some(msg("a", "1")));
    assert_eq!(r.receive(None), None);
    assert_eq!(r.receive(Some(msg("b", "2"))), None);
    assert_eq!(r.receive(None), None);
}
