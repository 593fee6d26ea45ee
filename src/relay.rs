use vstd::prelude::*;

use crate::classify::{classify_spec, relay_line, render_spec};
use crate::link::LinkEvent;

verus! {

/// Whichever of the two directions of a live connection became ready first.
#[derive(Debug, PartialEq, Eq)]
pub enum RelayEvent {
    /// A line was taken from the outbound queue.
    Outbound(String),
    /// A text frame arrived from the game server.
    InboundText(String),
    /// A frame of another kind arrived.
    InboundOther,
    /// Writing the last outbound line failed.
    WriteError,
    /// The inbound stream ended or failed.
    InboundClosed,
    /// Neither direction can make progress any more.
    BothIdle,
}

/// What the relay does about a [`RelayEvent`].
#[derive(Debug, PartialEq, Eq)]
pub enum RelayAction {
    /// Write this line to the socket as one text frame.
    Write(String),
    /// Send this message to the chat channel (best effort).
    Say(String),
    /// Nothing to do.
    Nothing,
    /// Abandon the connection and report this to the connection manager.
    Stop(LinkEvent),
}

/// Decides one step of the relay over a live connection.
pub fn relay_step(ev: RelayEvent) -> (r: RelayAction)
    ensures
        ev is Outbound ==> r == RelayAction::Write(ev->Outbound_0),
        ev is InboundText ==> match render_spec(classify_spec(ev->InboundText_0@)) {
            Some(m) => r is Say && r->Say_0@ == m,
            None => r is Nothing,
        },
        ev is InboundOther ==> r is Nothing,
        ev is WriteError ==> r == RelayAction::Stop(LinkEvent::WriteFailed),
        ev is InboundClosed ==> r == RelayAction::Stop(LinkEvent::ReadEnded),
        ev is BothIdle ==> r == RelayAction::Stop(LinkEvent::BothIdle),
{
    match ev {
        RelayEvent::Outbound(line) => RelayAction::Write(line),
        RelayEvent::InboundText(text) => match relay_line(text.as_str()) {
            Some(m) => RelayAction::Say(m),
            None => RelayAction::Nothing,
        },
        RelayEvent::InboundOther => RelayAction::Nothing,
        RelayEvent::WriteError => RelayAction::Stop(LinkEvent::WriteFailed),
        RelayEvent::InboundClosed => RelayAction::Stop(LinkEvent::ReadEnded),
        RelayEvent::BothIdle => RelayAction::Stop(LinkEvent::BothIdle),
    }
}

} // verus!
