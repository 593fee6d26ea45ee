use chat_bridge::outbound::{format_say, forwards_message, ws_endpoint, OutboundQueue, QUEUE_CAPACITY};

#[test]
fn say_command_scenario_carl() {
    assert_eq!(format_say("Carl", "hi"), "/say Carl: hi\n");
}

#[test]
fn say_command_keeps_text_verbatim() {
    assert_eq!(format_say("A b", "x\ny: <z>"), "/say A b: x\ny: <z>\n");
    assert_eq!(format_say("", ""), "/say : \n");
}

#[test]
fn endpoint_from_http_base() {
    assert_eq!(ws_endpoint("http://host:8080"), "ws://host:8080/chats");
}

#[test]
fn endpoint_from_https_base() {
    assert_eq!(ws_endpoint("https://example.org"), "wss://example.org/chats");
}

#[test]
fn endpoint_replaces_every_occurrence() {
    assert_eq!(ws_endpoint("http://httpbin/http"), "ws://wsbin/ws/chats");
    assert_eq!(ws_endpoint(""), "/chats");
    assert_eq!(ws_endpoint("htt"), "htt/chats");
}

#[test]
fn forwards_only_human_messages_in_watched_channel() {
    assert!(forwards_message(7, 7, false));
    assert!(!forwards_message(7, 7, true));
    assert!(!forwards_message(8, 7, false));
}

#[test]
fn queue_holds_capacity_then_refuses() {
    let mut q = OutboundQueue::new();
    assert_eq!(QUEUE_CAPACITY, 32);
    for i in 0..32 {
        assert!(!q.is_full());
        assert_eq!(q.try_enqueue(format!("line {i}")), Ok(()));
    }
    assert_eq!(q.len(), 32);
    assert!(q.is_full());
    assert_eq!(q.try_enqueue("extra".to_string()), Err("extra".to_string()));
    assert_eq!(q.len(), 32);
    assert_eq!(q.dequeue(), Some("line 0".to_string()));
    assert_eq!(q.try_enqueue("extra".to_string()), Ok(()));
    assert!(q.is_full());
}

#[test]
fn queue_is_first_in_first_out() {
    let mut q = OutboundQueue::new();
    assert_eq!(q.dequeue(), None);
    assert_eq!(q.try_enqueue("a".to_string()), Ok(()));
    assert_eq!(q.try_enqueue("b".to_string()), Ok(()));
    assert_eq!(q.dequeue(), Some("a".to_string()));
    assert_eq!(q.try_enqueue("c".to_string()), Ok(()));
    assert_eq!(q.dequeue(), Some("b".to_string()));
    assert_eq!(q.dequeue(), Some("c".to_string()));
    assert_eq!(q.dequeue(), None);
    assert_eq!(q.len(), 0);
}
