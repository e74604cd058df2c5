//! The node's side of flood pub/sub: the fixed topic, what a typed line is
//! published as, and how the partial view follows discovery.

use crate::event::Expiry;
use crate::substrate::{
    connected, floodsub_add, floodsub_new, floodsub_publish, floodsub_remove, floodsub_subscribe,
    outbox, own_identity, partial_view, posted, published, same_peer, subscriptions, Posting,
};
use crate::view::{after_discovered, after_expired, withdrawn};
use libp2p::floodsub::Floodsub;
use libp2p::PeerId;
use vstd::multiset::Multiset;
use vstd::prelude::*;
use vstd::slice::slice_to_vec;
use vstd::utf8::encode_utf8;

verus! {

/// The name of the one topic that every node subscribes to and publishes on.
pub const CHAT_TOPIC: &'static str = "chat";

/// The address that every node listens on: TCP on all local interfaces,
/// at a number that the system picks.
pub const LISTEN_ADDRESS: &'static str = "/ip4/0.0.0.0/tcp/0";

/// Whether the partial view keeps clear of the node's own identity, as it
/// must at all times.
pub open spec fn excludes_self(floodsub: Floodsub) -> bool {
    !partial_view(floodsub).contains(own_identity(floodsub))
}

/// The dissemination state that a node starts with: it publishes as
/// `local`, is subscribed to the chat topic and to nothing else, has an
/// empty partial view and no connection, and holds no message.
pub fn new_dissemination(local: PeerId) -> (floodsub: Floodsub)
    ensures
        own_identity(floodsub) == local,
        partial_view(floodsub) == Set::<PeerId>::empty(),
        subscriptions(floodsub) == Set::<Seq<char>>::empty().insert(CHAT_TOPIC@),
        connected(floodsub).dom() == Set::<PeerId>::empty(),
        outbox(floodsub) == Multiset::<Posting>::empty(),
        excludes_self(floodsub),
{
    let mut floodsub = floodsub_new(local);
    floodsub_subscribe(&mut floodsub, CHAT_TOPIC);
    floodsub
}

/// Subscribes to `topic` and says whether the subscription is new.
/// Subscribing again to a subscribed topic changes nothing at all, so what
/// is delivered afterwards is what would have been delivered without it.
pub fn subscribe(floodsub: &mut Floodsub, topic: &str) -> (fresh: bool)
    ensures
        fresh == !subscriptions(*old(floodsub)).contains(topic@),
        subscriptions(*final(floodsub)) == subscriptions(*old(floodsub)).insert(topic@),
        partial_view(*final(floodsub)) == partial_view(*old(floodsub)),
        own_identity(*final(floodsub)) == own_identity(*old(floodsub)),
        connected(*final(floodsub)) == connected(*old(floodsub)),
        outbox(*final(floodsub)) == outbox(*old(floodsub)),
        subscriptions(*old(floodsub)).contains(topic@) ==> *final(floodsub) == *old(floodsub),
{
    floodsub_subscribe(floodsub, topic)
}

/// The payload that a typed line is published as: its UTF-8 bytes, with
/// nothing added and nothing escaped.
pub fn line_payload(line: &str) -> (data: Vec<u8>)
    ensures
        data@ == encode_utf8(line@),
{
    slice_to_vec(line.as_bytes())
}

/// Publishes `data` on `topic`: the message is queued once for each peer of
/// the partial view that is connected and has announced the topic, under
/// the node's identity. Only a subscribed topic takes a publication: on any
/// other, nothing happens. With nobody in the partial view nothing is
/// queued, and the message is lost. Sending what is queued is the swarm's
/// business, and delivery is not promised.
pub fn publish(floodsub: &mut Floodsub, topic: &str, data: Vec<u8>)
    ensures
        published(*old(floodsub), *final(floodsub), topic@, data@),
        partial_view(*final(floodsub)) == partial_view(*old(floodsub)),
        subscriptions(*final(floodsub)) == subscriptions(*old(floodsub)),
        own_identity(*final(floodsub)) == own_identity(*old(floodsub)),
        connected(*final(floodsub)) == connected(*old(floodsub)),
        !subscriptions(*old(floodsub)).contains(topic@) ==> *final(floodsub) == *old(floodsub),
        partial_view(*old(floodsub)) == Set::<PeerId>::empty() ==> outbox(*final(floodsub))
            == outbox(*old(floodsub)),
{
    let ghost payload = data@;
    floodsub_publish(floodsub, topic, data);
    proof {
        if partial_view(*old(floodsub)) == Set::<PeerId>::empty() {
            assert forall|posting: Posting|
                #[trigger] outbox(*floodsub).count(posting) == outbox(*old(floodsub)).count(
                    posting,
                ) by {
                assert(!posted(*old(floodsub), topic@, payload, posting));
            }
            assert(outbox(*floodsub) =~= outbox(*old(floodsub)));
        }
    }
}

/// Publishes a typed line on the chat topic, with the line's UTF-8 bytes as
/// the payload.
pub fn publish_line(floodsub: &mut Floodsub, line: &str)
    ensures
        published(*old(floodsub), *final(floodsub), CHAT_TOPIC@, encode_utf8(line@)),
        partial_view(*final(floodsub)) == partial_view(*old(floodsub)),
        subscriptions(*final(floodsub)) == subscriptions(*old(floodsub)),
        own_identity(*final(floodsub)) == own_identity(*old(floodsub)),
        connected(*final(floodsub)) == connected(*old(floodsub)),
        !subscriptions(*old(floodsub)).contains(CHAT_TOPIC@) ==> *final(floodsub) == *old(floodsub),
        partial_view(*old(floodsub)) == Set::<PeerId>::empty() ==> outbox(*final(floodsub))
            == outbox(*old(floodsub)),
{
    let data = line_payload(line);
    publish(floodsub, CHAT_TOPIC, data);
}

/// Takes the peers that discovery has reported into the partial view. The
/// node's own identity, `local`, is passed over; a peer that is in the
/// view already stays there once.
pub fn peers_discovered(floodsub: &mut Floodsub, local: &PeerId, peers: &Vec<PeerId>)
    ensures
        partial_view(*final(floodsub)) == after_discovered(
            partial_view(*old(floodsub)),
            *local,
            peers@,
        ),
        subscriptions(*final(floodsub)) == subscriptions(*old(floodsub)),
        own_identity(*final(floodsub)) == own_identity(*old(floodsub)),
        connected(*final(floodsub)) == connected(*old(floodsub)),
        outbox(*final(floodsub)) == outbox(*old(floodsub)),
        *local == own_identity(*old(floodsub)) && excludes_self(*old(floodsub)) ==> excludes_self(
            *final(floodsub),
        ),
{
    let mut i: usize = 0;
    while i < peers.len()
        invariant
            i <= peers.len(),
            partial_view(*floodsub) == after_discovered(
                partial_view(*old(floodsub)),
                *local,
                peers@.take(i as int),
            ),
            subscriptions(*floodsub) == subscriptions(*old(floodsub)),
            own_identity(*floodsub) == own_identity(*old(floodsub)),
            connected(*floodsub) == connected(*old(floodsub)),
            outbox(*floodsub) == outbox(*old(floodsub)),
        decreases peers.len() - i,
    {
        let peer = peers[i];
        let ghost seen = peers@.take(i as int);
        if !same_peer(&peer, local) {
            floodsub_add(floodsub, peer);
        }
        i += 1;
        proof {
            let next = peers@.take(i as int);
            assert(next == seen.push(peer));
            assert forall|p: PeerId| next.contains(p) <==> seen.contains(p) || p == peer by {
                if seen.contains(p) {
                    let k = choose|k: int| 0 <= k < seen.len() && seen[k] == p;
                    assert(next[k] == p);
                }
                if p == peer {
                    assert(next[i - 1] == p);
                }
            }
            assert(partial_view(*floodsub) =~= after_discovered(
                partial_view(*old(floodsub)),
                *local,
                next,
            ));
        }
    }
    assert(peers@.take(i as int) == peers@);
}

/// Acts on one expired discovery record. The peer leaves the partial view
/// unless discovery still knows it, as it does when the expiry was
/// overtaken by a fresh discovery or another record of the peer is alive.
pub fn peer_expired(floodsub: &mut Floodsub, peer: &PeerId, still_known: bool)
    ensures
        partial_view(*final(floodsub)) == if still_known {
            partial_view(*old(floodsub))
        } else {
            partial_view(*old(floodsub)).remove(*peer)
        },
        subscriptions(*final(floodsub)) == subscriptions(*old(floodsub)),
        own_identity(*final(floodsub)) == own_identity(*old(floodsub)),
        connected(*final(floodsub)) == connected(*old(floodsub)),
        outbox(*final(floodsub)) == outbox(*old(floodsub)),
        still_known ==> *final(floodsub) == *old(floodsub),
        excludes_self(*old(floodsub)) ==> excludes_self(*final(floodsub)),
{
    if !still_known {
        floodsub_remove(floodsub, peer);
    }
}

/// Acts on a batch of expired discovery records, one after the other.
pub fn peers_expired(floodsub: &mut Floodsub, entries: &Vec<Expiry>)
    ensures
        partial_view(*final(floodsub)) == after_expired(partial_view(*old(floodsub)), entries@),
        subscriptions(*final(floodsub)) == subscriptions(*old(floodsub)),
        own_identity(*final(floodsub)) == own_identity(*old(floodsub)),
        connected(*final(floodsub)) == connected(*old(floodsub)),
        outbox(*final(floodsub)) == outbox(*old(floodsub)),
        excludes_self(*old(floodsub)) ==> excludes_self(*final(floodsub)),
{
    let mut i: usize = 0;
    while i < entries.len()
        invariant
            i <= entries.len(),
            partial_view(*floodsub) == after_expired(
                partial_view(*old(floodsub)),
                entries@.take(i as int),
            ),
            subscriptions(*floodsub) == subscriptions(*old(floodsub)),
            own_identity(*floodsub) == own_identity(*old(floodsub)),
            connected(*floodsub) == connected(*old(floodsub)),
            outbox(*floodsub) == outbox(*old(floodsub)),
        decreases entries.len() - i,
    {
        let ghost seen = entries@.take(i as int);
        peer_expired(floodsub, &entries[i].peer, entries[i].still_known);
        i += 1;
        proof {
            let entry = entries@[i - 1];
            let next = entries@.take(i as int);
            assert(next == seen.push(entry));
            assert forall|p: PeerId|
                withdrawn(next, p) <==> withdrawn(seen, p) || (p == entry.peer
                    && !entry.still_known) by {
                if withdrawn(seen, p) {
                    let k = choose|k: int|
                        0 <= k < seen.len() && #[trigger] seen[k].peer == p && !seen[k].still_known;
                    assert(next[k].peer == p && !next[k].still_known);
                }
                if p == entry.peer && !entry.still_known {
                    assert(next[i - 1].peer == p && !next[i - 1].still_known);
                }
            }
            assert(partial_view(*floodsub) =~= after_expired(partial_view(*old(floodsub)), next));
        }
    }
    assert(entries@.take(i as int) == entries@);
}

} // verus!
