use orbiton::hub::BroadcastHub;
use orbiton::messages::{BroadcastMessage, ClientMessage, RebuildStatus, parse_client_message};

#[test]
fn encode_hello_and_reload() {
    assert_eq!(
        BroadcastMessage::Hello.encode(),
        "{\"type\":\"hello\",\"message\":\"Orbit HMR connected\"}"
    );
    assert_eq!(BroadcastMessage::Reload.encode(), "{\"type\":\"reload\"}");
}

#[test]
fn encode_rebuild_statuses() {
    assert_eq!(
        BroadcastMessage::Rebuild { status: RebuildStatus::Started }.encode(),
        "{\"type\":\"rebuild\",\"status\":\"started\"}"
    );
    assert_eq!(
        BroadcastMessage::Rebuild { status: RebuildStatus::Completed }.encode(),
        "{\"type\":\"rebuild\",\"status\":\"completed\"}"
    );
    assert_eq!(
        BroadcastMessage::Rebuild { status: RebuildStatus::Failed }.encode(),
        "{\"type\":\"rebuild\",\"status\":\"failed\"}"
    );
}

#[test]
fn encode_hmr_and_file_change() {
    let msg = BroadcastMessage::Hmr { modules: vec!["a".to_string(), "b/c".to_string()] };
    assert_eq!(msg.encode(), "{\"type\":\"hmr\",\"modules\":[\"a\",\"b/c\"]}");

    let msg = BroadcastMessage::FileChange {
        paths: vec!["src/a.rs".to_string()],
        kind: "Modify(Data)".to_string(),
    };
    assert_eq!(
        msg.encode(),
        "{\"type\":\"fileChange\",\"paths\":[\"src/a.rs\"],\"kind\":\"Modify(Data)\"}"
    );
}

#[test]
fn encode_escapes_json_strings() {
    let msg = BroadcastMessage::Hmr { modules: vec!["a\"b\\c\nd".to_string()] };
    assert_eq!(msg.encode(), "{\"type\":\"hmr\",\"modules\":[\"a\\\"b\\\\c\\nd\"]}");
}

#[test]
fn parse_register_message() {
    match parse_client_message("{\"type\":\"register\",\"url\":\"/index.html\"}") {
        ClientMessage::Register { url } => assert_eq!(url, "/index.html"),
        _ => panic!("expected a register message"),
    }
}

#[test]
fn parse_hmr_ready_message() {
    assert!(matches!(
        parse_client_message("{\"type\":\"hmr_ready\"}"),
        ClientMessage::HmrReady
    ));
}

#[test]
fn parse_ignores_other_shapes() {
    assert!(matches!(parse_client_message("not json"), ClientMessage::Ignored));
    assert!(matches!(parse_client_message("{}"), ClientMessage::Ignored));
    assert!(matches!(
        parse_client_message("{\"type\":\"something_else\"}"),
        ClientMessage::Ignored
    ));
    assert!(matches!(
        parse_client_message("{\"type\":\"register\"}"),
        ClientMessage::Ignored
    ));
}

#[test]
fn parse_unescapes_strings() {
    match parse_client_message("{\"type\":\"register\",\"url\":\"a\\\"b\\\\c\"}") {
        ClientMessage::Register { url } => assert_eq!(url, "a\"b\\c"),
        _ => panic!("expected a register message"),
    }
}

#[test]
fn publish_with_zero_subscribers_is_ok() {
    let mut hub = BroadcastHub::new(16);
    hub.publish("{\"type\":\"reload\"}".to_string());
    assert_eq!(hub.subscriber_count(), 0);
}

#[test]
fn publish_delivers_to_all_subscribers_in_order() {
    let mut hub = BroadcastHub::new(16);
    let a = hub.subscribe();
    let b = hub.subscribe();
    hub.publish("{\"type\":\"reload\"}".to_string());
    hub.publish("{\"type\":\"hello\"}".to_string());
    assert_eq!(hub.next_message(a), Some("{\"type\":\"reload\"}".to_string()));
    assert_eq!(hub.next_message(a), Some("{\"type\":\"hello\"}".to_string()));
    assert_eq!(hub.next_message(a), None);
    assert_eq!(hub.next_message(b), Some("{\"type\":\"reload\"}".to_string()));
    assert_eq!(hub.next_message(b), Some("{\"type\":\"hello\"}".to_string()));
    assert_eq!(hub.next_message(b), None);
}

#[test]
fn full_queue_drops_oldest() {
    let mut hub = BroadcastHub::new(2);
    let a = hub.subscribe();
    hub.publish("one".to_string());
    hub.publish("two".to_string());
    hub.publish("three".to_string());
    assert_eq!(hub.next_message(a), Some("two".to_string()));
    assert_eq!(hub.next_message(a), Some("three".to_string()));
    assert_eq!(hub.next_message(a), None);
}

#[test]
fn unsubscribe_stops_delivery() {
    let mut hub = BroadcastHub::new(4);
    let a = hub.subscribe();
    let b = hub.subscribe();
    hub.unsubscribe(a);
    assert_eq!(hub.subscriber_count(), 1);
    hub.publish("x".to_string());
    assert_eq!(hub.next_message(a), None);
    assert_eq!(hub.next_message(b), Some("x".to_string()));
}
