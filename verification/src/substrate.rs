//! What this library takes on trust from libp2p.
//!
//! Nothing in this file is proved. Each item says, as a contract, what the
//! libp2p source shows of one function or type; the rest of the library is
//! verified against these contracts and calls libp2p only through them.
//! The few functions with a body serve to word those contracts.

use libp2p::floodsub::{Floodsub, Topic};
use libp2p::{Multiaddr, PeerId};
use vstd::multiset::Multiset;
use vstd::prelude::*;

verus! {

/// `libp2p::PeerId`, the identity of a peer. Opaque: the library carries
/// peer identities around and compares them, and never looks inside.
#[verifier::external_type_specification]
#[verifier::external_body]
pub struct ExPeerId(PeerId);

/// `libp2p::Multiaddr`, a network address. Opaque: only carried through.
#[verifier::external_type_specification]
#[verifier::external_body]
pub struct ExMultiaddr(Multiaddr);

/// `libp2p::floodsub::Floodsub`, the flood pub/sub behaviour. Opaque: its
/// state is spoken of through `own_identity`, `partial_view`,
/// `subscriptions`, `connected` and `outbox`.
#[verifier::external_type_specification]
#[verifier::external_body]
pub struct ExFloodsub(Floodsub);

/// The identity that a `Floodsub` was made with, under which it publishes:
/// the `local_peer_id` of its configuration, which is set on construction
/// and never written again.
pub uninterp spec fn own_identity(floodsub: Floodsub) -> PeerId;

/// The peers that a `Floodsub` forwards messages to: the contents of its
/// `target_peers` set.
pub uninterp spec fn partial_view(floodsub: Floodsub) -> Set<PeerId>;

/// The names of the topics that a `Floodsub` is subscribed to: the ids of
/// the entries of its `subscribed_topics` list.
pub uninterp spec fn subscriptions(floodsub: Floodsub) -> Set<Seq<char>>;

/// The peers to which a `Floodsub` has an open connection, each with the
/// names of the topics that the peer has announced: the contents of its
/// `connected_peers` map.
pub uninterp spec fn connected(floodsub: Floodsub) -> Map<PeerId, Set<Seq<char>>>;

/// One message that waits in a `Floodsub` for the swarm to send it: whom
/// it is for, who published it, the names of its topics, and its payload.
pub struct Posting {
    pub to: PeerId,
    pub source: PeerId,
    pub topics: Seq<Seq<char>>,
    pub data: Seq<u8>,
}

/// The messages that wait in a `Floodsub` for sending: one posting for
/// each message of each `NotifyHandler` entry of its `events` queue. The
/// order of the queue and the sequence numbers are left out.
pub uninterp spec fn outbox(floodsub: Floodsub) -> Multiset<Posting>;

/// The peers that a publication on `topic` is queued for: those of the
/// partial view to which a connection is open and which have announced
/// the topic.
pub open spec fn recipients(floodsub: Floodsub, topic: Seq<char>) -> Set<PeerId> {
    Set::new(
        |p: PeerId|
            partial_view(floodsub).contains(p) && connected(floodsub).dom().contains(p)
                && connected(floodsub)[p].contains(topic),
    )
}

/// Whether `posting` is one that publishing `data` on `topic` queues: the
/// topic is subscribed, the posting is for a recipient, and it carries the
/// node's identity, that one topic and that payload.
pub open spec fn posted(
    floodsub: Floodsub,
    topic: Seq<char>,
    data: Seq<u8>,
    posting: Posting,
) -> bool {
    &&& subscriptions(floodsub).contains(topic)
    &&& recipients(floodsub, topic).contains(posting.to)
    &&& posting.source == own_identity(floodsub)
    &&& posting.topics =~= seq![topic]
    &&& posting.data =~= data
}

/// Whether the outbox of `after` is that of `before` with one more of each
/// posting that publishing `data` on `topic` queues, and nothing else.
pub open spec fn published(
    before: Floodsub,
    after: Floodsub,
    topic: Seq<char>,
    data: Seq<u8>,
) -> bool {
    forall|posting: Posting|
        #[trigger] outbox(after).count(posting) == outbox(before).count(posting) + if posted(
            before,
            topic,
            data,
            posting,
        ) {
            1nat
        } else {
            0nat
        }
}

/// `PeerId`'s `==`. Two peer ids compare equal exactly when they are the
/// same identity (the same multihash code and digest).
#[verifier::external_body]
pub(crate) fn same_peer(a: &PeerId, b: &PeerId) -> (same: bool)
    ensures
        same == (*a == *b),
{
    a == b
}

/// `Floodsub::new`. A new behaviour has the identity it is given, forwards
/// to nobody, is subscribed to nothing, has no connection and holds no
/// message.
#[verifier::external_body]
pub(crate) fn floodsub_new(local: PeerId) -> (floodsub: Floodsub)
    ensures
        own_identity(floodsub) == local,
        partial_view(floodsub) == Set::<PeerId>::empty(),
        subscriptions(floodsub) == Set::<Seq<char>>::empty(),
        connected(floodsub).dom() == Set::<PeerId>::empty(),
        outbox(floodsub) == Multiset::<Posting>::empty(),
{
    Floodsub::new(local)
}

/// `Floodsub::subscribe`, on the topic built by `Topic::new` from `topic`.
/// It returns `false` and changes nothing when a topic of that name is
/// already subscribed; else it records the topic and returns `true`, and
/// queues a notice of the subscription, which is no message, for each
/// connected peer. The partial view, the identity, the connections and the
/// outbox are not touched.
#[verifier::external_body]
pub(crate) fn floodsub_subscribe(floodsub: &mut Floodsub, topic: &str) -> (fresh: bool)
    ensures
        fresh == !subscriptions(*old(floodsub)).contains(topic@),
        subscriptions(*final(floodsub)) == subscriptions(*old(floodsub)).insert(topic@),
        partial_view(*final(floodsub)) == partial_view(*old(floodsub)),
        own_identity(*final(floodsub)) == own_identity(*old(floodsub)),
        connected(*final(floodsub)) == connected(*old(floodsub)),
        outbox(*final(floodsub)) == outbox(*old(floodsub)),
        !fresh ==> *final(floodsub) == *old(floodsub),
{
    floodsub.subscribe(Topic::new(topic))
}

/// `Floodsub::add_node_to_partial_view`. The peer is inserted into the
/// partial view. What it queues (a dial of a new peer, notices of the
/// subscriptions for a connected one) is no message: the outbox stays, and
/// so do the subscriptions, the identity and the connections.
#[verifier::external_body]
pub(crate) fn floodsub_add(floodsub: &mut Floodsub, peer: PeerId)
    ensures
        partial_view(*final(floodsub)) == partial_view(*old(floodsub)).insert(peer),
        subscriptions(*final(floodsub)) == subscriptions(*old(floodsub)),
        own_identity(*final(floodsub)) == own_identity(*old(floodsub)),
        connected(*final(floodsub)) == connected(*old(floodsub)),
        outbox(*final(floodsub)) == outbox(*old(floodsub)),
{
    floodsub.add_node_to_partial_view(peer)
}

/// `Floodsub::remove_node_from_partial_view`. The peer is removed from the
/// partial view; everything else stays.
#[verifier::external_body]
pub(crate) fn floodsub_remove(floodsub: &mut Floodsub, peer: &PeerId)
    ensures
        partial_view(*final(floodsub)) == partial_view(*old(floodsub)).remove(*peer),
        subscriptions(*final(floodsub)) == subscriptions(*old(floodsub)),
        own_identity(*final(floodsub)) == own_identity(*old(floodsub)),
        connected(*final(floodsub)) == connected(*old(floodsub)),
        outbox(*final(floodsub)) == outbox(*old(floodsub)),
{
    floodsub.remove_node_from_partial_view(peer)
}

/// `Floodsub::publish`, on the topic built by `Topic::new` from `topic`.
/// On a topic that is not subscribed it changes nothing at all. On a
/// subscribed one it queues the message once for each peer of the partial
/// view that is connected and has announced the topic, under the node's
/// identity and with `data` as the payload. The partial view, the
/// subscriptions, the identity and the connections stay. Nothing is
/// claimed of the message's sequence number, which is drawn at random, nor
/// of the record of seen messages, which may forget.
#[verifier::external_body]
pub(crate) fn floodsub_publish(floodsub: &mut Floodsub, topic: &str, data: Vec<u8>)
    ensures
        published(*old(floodsub), *final(floodsub), topic@, data@),
        partial_view(*final(floodsub)) == partial_view(*old(floodsub)),
        subscriptions(*final(floodsub)) == subscriptions(*old(floodsub)),
        own_identity(*final(floodsub)) == own_identity(*old(floodsub)),
        connected(*final(floodsub)) == connected(*old(floodsub)),
        !subscriptions(*old(floodsub)).contains(topic@) ==> *final(floodsub) == *old(floodsub),
{
    floodsub.publish(Topic::new(topic), data)
}

} // verus!
