use gossip_chat::console::{classify_line, LineCommand};
use gossip_chat::dial::{plan_dial, plan_for_parsed, DialPlan};
use gossip_chat::message_id::{decimal_string, message_id};
use gossip_chat::peers::{view_changes, Discovery, ViewChange};
use std::collections::hash_map::DefaultHasher;
use std::hash::{Hash, Hasher};

#[test]
fn decimal_strings() {
    assert_eq!(decimal_string(0), "0");
    assert_eq!(decimal_string(7), "7");
    assert_eq!(decimal_string(10), "10");
    assert_eq!(decimal_string(1234567890), "1234567890");
    assert_eq!(decimal_string(u64::MAX), "18446744073709551615");
}

#[test]
fn message_id_is_decimal_default_hash() {
    let data: Vec<u8> = b"{\"uuid\":\"alice\",\"text\":\"hi\"}".to_vec();
    let mut s = DefaultHasher::new();
    data.hash(&mut s);
    assert_eq!(message_id(&data), s.finish().to_string());
}

#[test]
fn message_id_depends_on_content_only() {
    let a = b"same".to_vec();
    let b = b"same".to_vec();
    let c = b"other".to_vec();
    assert_eq!(message_id(&a), message_id(&b));
    assert_ne!(message_id(&a), message_id(&c));
    // the length prefix is hashed too: it is not the hash of the bare bytes
    let mut bare = DefaultHasher::new();
    bare.write(&a);
    assert_ne!(message_id(&a), bare.finish().to_string());
}

#[test]
fn console_lines() {
    assert_eq!(classify_line("file"), LineCommand::PublishFile);
    assert_eq!(classify_line("file "), LineCommand::PublishLine);
    assert_eq!(classify_line("File"), LineCommand::PublishLine);
    assert_eq!(classify_line(""), LineCommand::PublishLine);
    assert_eq!(classify_line("hello"), LineCommand::PublishLine);
}

#[test]
fn discovered_peers_are_added() {
    let changes = view_changes(Discovery::Discovered(vec![3u32, 1, 2]));
    let added: Vec<u32> = changes
        .into_iter()
        .map(|c| match c {
            ViewChange::Add(p) => p,
            ViewChange::Remove(_) => panic!("unexpected removal"),
        })
        .collect();
    assert_eq!(added, vec![3, 1, 2]);
}

#[test]
fn expired_peers_still_known_stay() {
    let changes = view_changes(Discovery::Expired(vec![(1u32, true), (2, false), (3, true), (4, false)]));
    let removed: Vec<u32> = changes
        .into_iter()
        .map(|c| match c {
            ViewChange::Remove(p) => p,
            ViewChange::Add(_) => panic!("unexpected addition"),
        })
        .collect();
    assert_eq!(removed, vec![2, 4]);
    assert!(view_changes::<u32>(Discovery::Expired(vec![])).is_empty());
}

#[test]
fn dial_nothing_configured() {
    assert!(matches!(plan_dial(None), DialPlan::Stay));
}

#[test]
fn dial_valid_address() {
    let target = "/ip4/127.0.0.1/tcp/4001".to_string();
    let expected = target.parse::<libp2p::Multiaddr>().unwrap().to_vec();
    match plan_dial(Some(&target)) {
        DialPlan::Dial { target: t, address } => {
            assert_eq!(t, target);
            assert_eq!(address, expected);
            let back = libp2p::Multiaddr::try_from(address).unwrap();
            assert_eq!(back.to_string(), target);
        }
        other => panic!("expected a dial, got {:?}", other),
    }
}

#[test]
fn dial_unparsable_address() {
    let target = "127.0.0.1:4001".to_string();
    match plan_dial(Some(&target)) {
        DialPlan::Unparsable { target: t, .. } => assert_eq!(t, target),
        other => panic!("expected a parse failure, got {:?}", other),
    }
    let bad_proto = "/nonsense/1".to_string();
    assert!(matches!(plan_dial(Some(&bad_proto)), DialPlan::Unparsable { .. }));
}

#[test]
fn plan_for_parsed_passes_outcome_through() {
    match plan_for_parsed("t".to_string(), Ok(vec![4, 127, 0, 0, 1])) {
        DialPlan::Dial { target, address } => {
            assert_eq!(target, "t");
            assert_eq!(address, vec![4, 127, 0, 0, 1]);
        }
        other => panic!("{:?}", other),
    }
    let err = "x".parse::<libp2p::Multiaddr>().unwrap_err();
    let expected = format!("{:?}", err);
    match plan_for_parsed("x".to_string(), Err(err)) {
        DialPlan::Unparsable { target, error } => {
            assert_eq!(target, "x");
            assert_eq!(format!("{:?}", error), expected);
        }
        other => panic!("{:?}", other),
    }
}
