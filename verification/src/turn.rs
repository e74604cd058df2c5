//! One turn of the event loop: what the node does with the one thing that
//! became ready, handled to completion before the loop waits again.

use crate::dissemination::{
    excludes_self, peers_discovered, peers_expired, publish_line, CHAT_TOPIC,
};
use crate::event::{Event, Failure, Input, Report};
use crate::substrate::{
    connected, outbox, own_identity, partial_view, published, subscriptions,
};
use crate::view::view_step;
use libp2p::floodsub::Floodsub;
use libp2p::PeerId;
use vstd::prelude::*;
use vstd::utf8::encode_utf8;

verus! {

/// What the user is told of an event: a new listening address and an
/// arriving message are reported, and nothing else is.
pub open spec fn reported(event: Event) -> Option<Report> {
    match event {
        Event::ListeningOn(address) => Some(Report::Listening(address)),
        Event::InboundMessage { source, data } => Some(Report::Message { source, data }),
        _ => None,
    }
}

/// Whether `event` can move the partial view.
pub open spec fn moves_view(event: Event) -> bool {
    event is PeerDiscovered || event is PeerExpired
}

/// How a turn ends: closed input is the one failure; an event may yield a
/// report; a typed line yields none.
pub open spec fn turn_outcome(input: Input) -> Result<Option<Report>, Failure> {
    match input {
        Input::Line(_) => Ok(None),
        Input::Closed => Err(Failure::InputClosed),
        Input::Network(event) => Ok(reported(event)),
    }
}

/// The partial view after a turn: only an event of discovery moves it.
pub open spec fn view_after_turn(view: Set<PeerId>, local: PeerId, input: Input) -> Set<PeerId> {
    match input {
        Input::Network(event) => view_step(view, local, event),
        _ => view,
    }
}

/// Whether a turn on `input` may touch the dissemination state at all:
/// a typed line is published, and discovery moves the view.
pub open spec fn touches_dissemination(input: Input) -> bool {
    match input {
        Input::Line(_) => true,
        Input::Closed => false,
        Input::Network(event) => moves_view(event),
    }
}

/// The outbox after a turn: a typed line is queued as a publication on the
/// chat topic, with its UTF-8 bytes as the payload; nothing else queues a
/// message.
pub open spec fn outbox_after_turn(before: Floodsub, after: Floodsub, input: Input) -> bool {
    match input {
        Input::Line(line) => published(before, after, CHAT_TOPIC@, encode_utf8(line@)),
        _ => outbox(after) == outbox(before),
    }
}

/// Handles one event of the session coordinator. Discovery and expiry move
/// the partial view and are not reported; a listening address and a
/// message are reported and change nothing; every other event is ignored.
pub fn handle_event(floodsub: &mut Floodsub, local: &PeerId, event: Event) -> (report: Option<
    Report,
>)
    ensures
        report == reported(event),
        partial_view(*final(floodsub)) == view_step(partial_view(*old(floodsub)), *local, event),
        subscriptions(*final(floodsub)) == subscriptions(*old(floodsub)),
        own_identity(*final(floodsub)) == own_identity(*old(floodsub)),
        connected(*final(floodsub)) == connected(*old(floodsub)),
        outbox(*final(floodsub)) == outbox(*old(floodsub)),
        !moves_view(event) ==> *final(floodsub) == *old(floodsub),
        *local == own_identity(*old(floodsub)) && excludes_self(*old(floodsub)) ==> excludes_self(
            *final(floodsub),
        ),
{
    match event {
        Event::ListeningOn(address) => Some(Report::Listening(address)),
        Event::PeerDiscovered(peers) => {
            peers_discovered(floodsub, local, &peers);
            None
        },
        Event::PeerExpired(entries) => {
            peers_expired(floodsub, &entries);
            None
        },
        Event::InboundMessage { source, data } => Some(Report::Message { source, data }),
        Event::ConnectionError => None,
        Event::Other => None,
    }
}

/// Takes one turn of the loop.
///
/// A typed line is published on the chat topic, as `publish_line` says.
/// An event is handled as `handle_event` says. The turn fails exactly when the local input has
/// ended, and that failure is fatal: nothing else ends the loop.
pub fn step(floodsub: &mut Floodsub, local: &PeerId, input: Input) -> (outcome: Result<
    Option<Report>,
    Failure,
>)
    ensures
        outcome == turn_outcome(input),
        outcome is Err <==> input is Closed,
        outcome is Err ==> outcome->Err_0.fatal(),
        partial_view(*final(floodsub)) == view_after_turn(
            partial_view(*old(floodsub)),
            *local,
            input,
        ),
        subscriptions(*final(floodsub)) == subscriptions(*old(floodsub)),
        own_identity(*final(floodsub)) == own_identity(*old(floodsub)),
        connected(*final(floodsub)) == connected(*old(floodsub)),
        outbox_after_turn(*old(floodsub), *final(floodsub), input),
        !touches_dissemination(input) ==> *final(floodsub) == *old(floodsub),
        input is Line && !subscriptions(*old(floodsub)).contains(CHAT_TOPIC@) ==> *final(floodsub)
            == *old(floodsub),
        *local == own_identity(*old(floodsub)) && excludes_self(*old(floodsub)) ==> excludes_self(
            *final(floodsub),
        ),
{
    match input {
        Input::Line(line) => {
            publish_line(floodsub, line.as_str());
            Ok(None)
        },
        Input::Closed => Err(Failure::InputClosed),
        Input::Network(event) => Ok(handle_event(floodsub, local, event)),
    }
}

} // verus!
