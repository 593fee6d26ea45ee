use chat_bridge::link::{step, LinkAction, LinkEvent, LinkState, RECONNECT_DELAY_SECS};
use chat_bridge::outbound::{format_say, OutboundQueue};
use chat_bridge::relay::{relay_step, RelayAction, RelayEvent};

fn wait() -> LinkAction {
    LinkAction::Wait { secs: RECONNECT_DELAY_SECS }
}

#[test]
fn start_connects_at_once() {
    assert_eq!(step(LinkState::Disconnected, LinkEvent::Start), (LinkState::Connecting, LinkAction::Connect));
}

#[test]
fn failed_then_successful_handshake() {
    assert_eq!(RECONNECT_DELAY_SECS, 5);
    let (s, a) = step(LinkState::Disconnected, LinkEvent::Start);
    assert_eq!(a, LinkAction::Connect);
    let (s, a) = step(s, LinkEvent::HandshakeFailed);
    assert_eq!((s, a), (LinkState::Failed, wait()));
    let (s, a) = step(s, LinkEvent::DelayElapsed);
    assert_eq!((s, a), (LinkState::Connecting, LinkAction::Connect));
    let (s, a) = step(s, LinkEvent::HandshakeOk);
    assert_eq!((s, a), (LinkState::Connected, LinkAction::Relay));
}

#[test]
fn retries_after_many_failures() {
    let mut s = LinkState::Connecting;
    for _ in 0..1000 {
        let (s1, a1) = step(s, LinkEvent::HandshakeFailed);
        assert_eq!(a1, wait());
        let (s2, a2) = step(s1, LinkEvent::DelayElapsed);
        assert_eq!(a2, LinkAction::Connect);
        s = s2;
    }
    assert_eq!(s, LinkState::Connecting);
}

#[test]
fn every_loss_waits_then_reconnects() {
    for e in [LinkEvent::WriteFailed, LinkEvent::ReadEnded, LinkEvent::BothIdle] {
        let (s, a) = step(LinkState::Connected, e);
        assert_eq!((s, a), (LinkState::Failed, wait()));
        assert_eq!(step(s, LinkEvent::DelayElapsed), (LinkState::Connecting, LinkAction::Connect));
    }
}

#[test]
fn unrelated_events_change_nothing() {
    assert_eq!(step(LinkState::Connected, LinkEvent::DelayElapsed), (LinkState::Connected, LinkAction::Stay));
    assert_eq!(step(LinkState::Failed, LinkEvent::HandshakeOk), (LinkState::Failed, LinkAction::Stay));
    assert_eq!(step(LinkState::Connecting, LinkEvent::Start), (LinkState::Connecting, LinkAction::Stay));
}

#[test]
fn write_failure_drops_the_line_and_reconnects() {
    let mut q = OutboundQueue::new();
    assert_eq!(q.try_enqueue(format_say("Carl", "hi")), Ok(()));
    let line = q.dequeue().unwrap();
    assert_eq!(relay_step(RelayEvent::Outbound(line)), RelayAction::Write("/say Carl: hi\n".to_string()));
    let stop = relay_step(RelayEvent::WriteError);
    assert_eq!(stop, RelayAction::Stop(LinkEvent::WriteFailed));
    let (s, a) = step(LinkState::Connected, LinkEvent::WriteFailed);
    assert_eq!((s, a), (LinkState::Failed, wait()));
    let (s, a) = step(s, LinkEvent::DelayElapsed);
    assert_eq!((s, a), (LinkState::Connecting, LinkAction::Connect));
    assert_eq!(q.dequeue(), None);
}

#[test]
fn inbound_frames_become_chat_messages() {
    let a = relay_step(RelayEvent::InboundText("[08:37:28] [Server thread/INFO]: <Alice> Hello!".to_string()));
    assert_eq!(a, RelayAction::Say("Alice: Hello!".to_string()));
    let b = relay_step(RelayEvent::InboundText("[08:37:28] [Server thread/INFO]: Bob joined the game".to_string()));
    assert_eq!(b, RelayAction::Say("[08:37:28] [Server thread/INFO]: Bob joined the game".to_string()));
    let c = relay_step(RelayEvent::InboundText("[08:37:28] [Server thread/INFO]: Done".to_string()));
    assert_eq!(c, RelayAction::Nothing);
    assert_eq!(relay_step(RelayEvent::InboundOther), RelayAction::Nothing);
}

#[test]
fn stream_end_and_idle_stop_the_relay() {
    assert_eq!(relay_step(RelayEvent::InboundClosed), RelayAction::Stop(LinkEvent::ReadEnded));
    assert_eq!(relay_step(RelayEvent::BothIdle), RelayAction::Stop(LinkEvent::BothIdle));
}
