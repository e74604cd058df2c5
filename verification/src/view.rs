//! The partial view as a set of peers, and how discovery moves it.
//!
//! Everything here is specification and proof: the functions say what the
//! view is after an event, and the laws say what it is after any number
//! of them.

use crate::event::{Event, Expiry};
use libp2p::PeerId;
use vstd::prelude::*;

verus! {

/// The view after discovery has reported `peers`: each of them joins,
/// except the node itself.
pub open spec fn after_discovered(view: Set<PeerId>, local: PeerId, peers: Seq<PeerId>) -> Set<
    PeerId,
> {
    Set::new(|p: PeerId| view.contains(p) || (peers.contains(p) && p != local))
}

/// Whether `entries` withdraw `peer`: one of them names the peer, and
/// discovery no longer knows it.
pub open spec fn withdrawn(entries: Seq<Expiry>, peer: PeerId) -> bool {
    exists|i: int|
        0 <= i < entries.len() && #[trigger] entries[i].peer == peer && !entries[i].still_known
}

/// The view after the records `entries` have expired: a peer leaves when a
/// record of it expired and discovery no longer knows it.
pub open spec fn after_expired(view: Set<PeerId>, entries: Seq<Expiry>) -> Set<PeerId> {
    Set::new(|p: PeerId| view.contains(p) && !withdrawn(entries, p))
}

/// Whether `event` is a discovery that names `peer`.
pub open spec fn announces(event: Event, peer: PeerId) -> bool {
    event matches Event::PeerDiscovered(peers) && peers@.contains(peer)
}

/// Whether `event` is an expiry that withdraws `peer`.
pub open spec fn withdraws(event: Event, peer: PeerId) -> bool {
    event matches Event::PeerExpired(entries) && withdrawn(entries@, peer)
}

/// The view after one event. Only discovery and expiry move it.
pub open spec fn view_step(view: Set<PeerId>, local: PeerId, event: Event) -> Set<PeerId> {
    match event {
        Event::PeerDiscovered(peers) => after_discovered(view, local, peers@),
        Event::PeerExpired(entries) => after_expired(view, entries@),
        _ => view,
    }
}

/// The view after a sequence of events, handled in order.
pub open spec fn view_after(view: Set<PeerId>, local: PeerId, events: Seq<Event>) -> Set<PeerId>
    decreases events.len(),
{
    if events.len() == 0 {
        view
    } else {
        view_step(view_after(view, local, events.drop_last()), local, events.last())
    }
}

/// Whether the most recent word on `peer` in `events` is a discovery: some
/// event announces the peer, and none after it withdraws the peer.
pub open spec fn last_seen_discovered(events: Seq<Event>, peer: PeerId) -> bool {
    exists|i: int|
        0 <= i < events.len() && #[trigger] announces(events[i], peer) && forall|j: int|
            i < j < events.len() ==> !#[trigger] withdraws(events[j], peer)
}

/// Whether no event of `events` withdraws `peer`.
pub open spec fn never_withdrawn(events: Seq<Event>, peer: PeerId) -> bool {
    forall|j: int| 0 <= j < events.len() ==> !#[trigger] withdraws(events[j], peer)
}

/// Membership after any sequence of events, from any view to start with:
/// a peer is in the view exactly when it is not the node itself and the
/// most recent word on it is a discovery, or when it was in the view at the
/// start and nothing withdrew it.
pub proof fn view_membership(view: Set<PeerId>, local: PeerId, events: Seq<Event>, peer: PeerId)
    ensures
        view_after(view, local, events).contains(peer) <==> (peer != local && last_seen_discovered(
            events,
            peer,
        )) || (view.contains(peer) && never_withdrawn(events, peer)),
    decreases events.len(),
{
    if events.len() > 0 {
        // By induction on the events but the last; then by what the last
        // one says of the peer.
        let before = events.drop_last();
        let n = before.len() as int;
        view_membership(view, local, before, peer);
        assert(forall|j: int| 0 <= j < n ==> before[j] == events[j]);
        if !withdraws(events[n], peer) {
            assert(never_withdrawn(events, peer) <==> never_withdrawn(before, peer));
            if announces(events[n], peer) {
                assert(last_seen_discovered(events, peer));
            } else {
                // The last event is silent on the peer: the most recent
                // word on it is the same with and without that event.
                if last_seen_discovered(before, peer) {
                    let i = choose|i: int|
                        0 <= i < n && #[trigger] announces(before[i], peer) && forall|j: int|
                            i < j < n ==> !#[trigger] withdraws(before[j], peer);
                    assert(announces(events[i], peer));
                }
                if last_seen_discovered(events, peer) {
                    let i = choose|i: int|
                        0 <= i < events.len() && #[trigger] announces(events[i], peer)
                            && forall|j: int|
                            i < j < events.len() ==> !#[trigger] withdraws(events[j], peer);
                    assert(announces(before[i], peer));
                }
            }
        }
    }
}

/// Starting from an empty view, the view after any sequence of events is
/// the set of peers, other than the node itself, whose most recent word
/// from discovery is a discovery and not an expiry.
pub proof fn view_is_latest_discoveries(local: PeerId, events: Seq<Event>)
    ensures
        view_after(Set::empty(), local, events) == Set::new(
            |p: PeerId| p != local && last_seen_discovered(events, p),
        ),
{
    let after = view_after(Set::empty(), local, events);
    let latest = Set::new(|p: PeerId| p != local && last_seen_discovered(events, p));
    assert forall|p: PeerId| #[trigger] after.contains(p) == latest.contains(p) by {
        view_membership(Set::empty(), local, events, p);
    }
    assert(after =~= latest);
}

/// Whether `event` is an expiry with a record of `peer`, whatever
/// discovery says of the peer now.
pub open spec fn expires(event: Event, peer: PeerId) -> bool {
    event matches Event::PeerExpired(entries) && exists|i: int|
        0 <= i < entries@.len() && #[trigger] entries@[i].peer == peer
}

/// Whether `event`, if it is an expiry, is final: discovery knows none of
/// the expired peers any more.
pub open spec fn expiry_final(event: Event) -> bool {
    match event {
        Event::PeerExpired(entries) => forall|i: int|
            0 <= i < entries@.len() ==> !(#[trigger] entries@[i]).still_known,
        _ => true,
    }
}

/// Whether every expiry in `events` is final.
pub open spec fn expiries_final(events: Seq<Event>) -> bool {
    forall|k: int| 0 <= k < events.len() ==> expiry_final(#[trigger] events[k])
}

/// Where every expiry is final, the view after any sequence of events,
/// starting from an empty view, is the set of peers whose most recent
/// event is a discovery, with no expiry of the peer after it, and the node
/// itself is never among them.
pub proof fn view_is_most_recently_discovered(local: PeerId, events: Seq<Event>)
    requires
        expiries_final(events),
    ensures
        view_after(Set::empty(), local, events) == Set::new(
            |p: PeerId|
                p != local && exists|i: int|
                    0 <= i < events.len() && #[trigger] announces(events[i], p) && forall|j: int|
                        i < j < events.len() ==> !#[trigger] expires(events[j], p),
        ),
        !view_after(Set::empty(), local, events).contains(local),
{
    let after = view_after(Set::empty(), local, events);
    let recent = Set::new(
        |p: PeerId|
            p != local && exists|i: int|
                0 <= i < events.len() && #[trigger] announces(events[i], p) && forall|j: int|
                    i < j < events.len() ==> !#[trigger] expires(events[j], p),
    );
    view_is_latest_discoveries(local, events);
    assert forall|p: PeerId, j: int| 0 <= j < events.len() implies (#[trigger] expires(
        events[j],
        p,
    ) <==> withdraws(events[j], p)) by {
        if let Event::PeerExpired(entries) = events[j] {
            if expires(events[j], p) {
                let i = choose|i: int| 0 <= i < entries@.len() && #[trigger] entries@[i].peer == p;
                assert(expiry_final(events[j]));
                assert(!entries@[i].still_known);
                assert(withdrawn(entries@, p));
            }
        }
    }
    assert forall|p: PeerId| #[trigger] after.contains(p) == recent.contains(p) by {
        if last_seen_discovered(events, p) {
            let i = choose|i: int|
                0 <= i < events.len() && #[trigger] announces(events[i], p) && forall|j: int|
                    i < j < events.len() ==> !#[trigger] withdraws(events[j], p);
            assert forall|j: int| i < j < events.len() implies !#[trigger] expires(events[j], p) by {
                assert(!withdraws(events[j], p));
            }
        }
        if recent.contains(p) {
            let i = choose|i: int|
                0 <= i < events.len() && #[trigger] announces(events[i], p) && forall|j: int|
                    i < j < events.len() ==> !#[trigger] expires(events[j], p);
            assert forall|j: int| i < j < events.len() implies !#[trigger] withdraws(events[j], p) by {
                assert(!expires(events[j], p));
            }
            assert(last_seen_discovered(events, p));
        }
    }
    assert(after =~= recent);
}

/// A view that does not hold the node's own identity never comes to hold
/// it, whatever events follow.
pub proof fn view_never_holds_self(view: Set<PeerId>, local: PeerId, events: Seq<Event>)
    requires
        !view.contains(local),
    ensures
        !view_after(view, local, events).contains(local),
{
    view_membership(view, local, events, local);
}

} // verus!
