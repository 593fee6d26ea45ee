use vstd::prelude::*;

verus! {

/// Seconds to wait after a failed or lost connection before the next attempt.
pub const RECONNECT_DELAY_SECS: u64 = 5;

/// Where the single upstream connection stands.
#[derive(Debug, Clone, Copy, PartialEq, Eq, Structural)]
pub enum LinkState {
    Disconnected,
    Connecting,
    Connected,
    /// Lost or never made; waiting out the delay before the next attempt.
    Failed,
}

/// What happened to the connection since the last decision.
#[derive(Debug, Clone, Copy, PartialEq, Eq, Structural)]
pub enum LinkEvent {
    /// The manager has just been started.
    Start,
    HandshakeOk,
    HandshakeFailed,
    /// Writing an outbound line to the socket failed.
    WriteFailed,
    /// The inbound stream ended or failed.
    ReadEnded,
    /// Neither direction has anything more to do.
    BothIdle,
    /// The reconnect delay has passed.
    DelayElapsed,
}

/// What the runner is to do next.
#[derive(Debug, Clone, Copy, PartialEq, Eq, Structural)]
pub enum LinkAction {
    /// Open the socket to the streaming endpoint.
    Connect,
    /// Pump both directions over the live connection until it fails.
    Relay,
    /// Sleep this many seconds, then report `DelayElapsed`.
    Wait { secs: u64 },
    /// The event does not apply to this state: nothing changes.
    Stay,
}

/// The transition table of the connection manager.
pub open spec fn step_spec(s: LinkState, e: LinkEvent) -> (LinkState, LinkAction) {
    match (s, e) {
        (LinkState::Disconnected, LinkEvent::Start) => (LinkState::Connecting, LinkAction::Connect),
        (LinkState::Connecting, LinkEvent::HandshakeOk) => (LinkState::Connected, LinkAction::Relay),
        (LinkState::Connecting, LinkEvent::HandshakeFailed) => (
            LinkState::Failed,
            LinkAction::Wait { secs: RECONNECT_DELAY_SECS },
        ),
        (LinkState::Connected, LinkEvent::WriteFailed) => (
            LinkState::Failed,
            LinkAction::Wait { secs: RECONNECT_DELAY_SECS },
        ),
        (LinkState::Connected, LinkEvent::ReadEnded) => (
            LinkState::Failed,
            LinkAction::Wait { secs: RECONNECT_DELAY_SECS },
        ),
        (LinkState::Connected, LinkEvent::BothIdle) => (
            LinkState::Failed,
            LinkAction::Wait { secs: RECONNECT_DELAY_SECS },
        ),
        (LinkState::Failed, LinkEvent::DelayElapsed) => (LinkState::Connecting, LinkAction::Connect),
        _ => (s, LinkAction::Stay),
    }
}

/// Decides the next state and action of the connection manager.
pub fn step(s: LinkState, e: LinkEvent) -> (r: (LinkState, LinkAction))
    ensures
        r == step_spec(s, e),
{
    match (s, e) {
        (LinkState::Disconnected, LinkEvent::Start) => (LinkState::Connecting, LinkAction::Connect),
        (LinkState::Connecting, LinkEvent::HandshakeOk) => (LinkState::Connected, LinkAction::Relay),
        (LinkState::Connecting, LinkEvent::HandshakeFailed)
        | (LinkState::Connected, LinkEvent::WriteFailed)
        | (LinkState::Connected, LinkEvent::ReadEnded)
        | (LinkState::Connected, LinkEvent::BothIdle) => (
            LinkState::Failed,
            LinkAction::Wait { secs: RECONNECT_DELAY_SECS },
        ),
        (LinkState::Failed, LinkEvent::DelayElapsed) => (LinkState::Connecting, LinkAction::Connect),
        _ => (s, LinkAction::Stay),
    }
}

/// The state after a run of events.
pub open spec fn run(s: LinkState, evs: Seq<LinkEvent>) -> LinkState
    decreases evs.len(),
{
    if evs.len() == 0 {
        s
    } else {
        run(step_spec(s, evs[0]).0, evs.drop_first())
    }
}

/// The actions taken along a run of events.
pub open spec fn actions(s: LinkState, evs: Seq<LinkEvent>) -> Seq<LinkAction>
    decreases evs.len(),
{
    if evs.len() == 0 {
        Seq::empty()
    } else {
        seq![step_spec(s, evs[0]).1] + actions(step_spec(s, evs[0]).0, evs.drop_first())
    }
}

/// `n` failed handshakes, each followed by the end of the delay.
pub open spec fn failed_attempts(n: nat) -> Seq<LinkEvent>
    decreases n,
{
    if n == 0 {
        Seq::empty()
    } else {
        seq![LinkEvent::HandshakeFailed, LinkEvent::DelayElapsed] + failed_attempts((n - 1) as nat)
    }
}

/// `n` rounds of waiting the fixed delay, then connecting again.
pub open spec fn retry_actions(n: nat) -> Seq<LinkAction>
    decreases n,
{
    if n == 0 {
        Seq::empty()
    } else {
        seq![LinkAction::Wait { secs: RECONNECT_DELAY_SECS }, LinkAction::Connect] + retry_actions(
            (n - 1) as nat,
        )
    }
}

/// The manager never gives up: after any number of failed handshakes it has waited the
/// fixed delay after each one, attempted again, and is connecting once more.
pub proof fn lemma_retries_forever(n: nat)
    ensures
        run(LinkState::Connecting, failed_attempts(n)) == LinkState::Connecting,
        actions(LinkState::Connecting, failed_attempts(n)) == retry_actions(n),
    decreases n,
{
    if n > 0 {
        let rest = failed_attempts((n - 1) as nat);
        let evs = failed_attempts(n);
        lemma_retries_forever((n - 1) as nat);
        let tail = evs.drop_first();
        assert(evs[0] == LinkEvent::HandshakeFailed);
        assert(tail[0] == LinkEvent::DelayElapsed);
        assert(tail.drop_first() =~= rest);
        assert(run(LinkState::Connecting, evs) == run(LinkState::Failed, tail));
        assert(run(LinkState::Failed, tail) == run(LinkState::Connecting, rest));
        assert(actions(LinkState::Failed, tail) =~= seq![LinkAction::Connect] + actions(
            LinkState::Connecting,
            rest,
        ));
        assert(actions(LinkState::Connecting, evs) =~= retry_actions(n));
    }
}

/// Any loss of a live connection, whichever way it shows, leads to the fixed delay and
/// then to a fresh connection attempt.
pub proof fn lemma_loss_reconnects(e: LinkEvent)
    requires
        e == LinkEvent::WriteFailed || e == LinkEvent::ReadEnded || e == LinkEvent::BothIdle,
    ensures
        step_spec(LinkState::Connected, e) == (
            LinkState::Failed,
            LinkAction::Wait { secs: RECONNECT_DELAY_SECS },
        ),
        step_spec(step_spec(LinkState::Connected, e).0, LinkEvent::DelayElapsed) == (
            LinkState::Connecting,
            LinkAction::Connect,
        ),
{
}

} // verus!
