//! The browser clients that the streaming loop serves over WebRTC: one peer
//! per client, whether it may be sent an offer now, and its data channels.
use vstd::prelude::*;
use vstd::string::StringExecFns;
use crate::text::str_eq;

verus! {

/// A client's WebRTC peer, by the client's socket id: whether an offer may be
/// made to it now, and the ids of its data channels.
#[derive(Debug)]
pub struct WebRTCPeer {
    pub id: String,
    pub may_offer: bool,
    pub data_channels: Vec<i32>,
}

/// A peer as plain values: socket id, offer permission, channel ids.
pub open spec fn peer_view(p: WebRTCPeer) -> (Seq<char>, bool, Seq<i32>) {
    (p.id@, p.may_offer, p.data_channels@)
}

impl WebRTCPeer {
    /// A new peer for a client: it may be sent an offer, and has no data channel.
    pub fn new(id: String) -> (r: WebRTCPeer)
        ensures
            r.id == id,
            r.may_offer,
            r.data_channels@ == Seq::<i32>::empty(),
    {
        WebRTCPeer { id, may_offer: true, data_channels: Vec::new() }
    }

    /// Adds a data channel at the end of the peer's list.
    pub fn add_data_channel(&mut self, channel: i32)
        ensures
            final(self).id == old(self).id,
            final(self).may_offer == old(self).may_offer,
            final(self).data_channels@ == old(self).data_channels@.push(channel),
    {
        self.data_channels.push(channel);
    }

    /// The peer's data channels, in the order they were added.
    pub fn get_data_channels(&self) -> (r: &Vec<i32>)
        ensures
            r@ == self.data_channels@,
    {
        &self.data_channels
    }
}

/// What a session description from a client leads to.
#[derive(Debug, Clone, Copy, PartialEq, Eq, Structural)]
pub enum SdpOutcome {
    /// No peer for the client: dropped.
    Dropped,
    /// An answer: set it as the remote description; offers may follow.
    ProcessAnswer,
    /// An offer while offers are allowed: answer it.
    ProcessOffer,
    /// An offer while one is under way: ignored.
    OfferIgnored,
    /// Neither an answer nor an offer.
    Unhandled,
}

/// What a request to generate an offer leads to.
#[derive(Debug, Clone, Copy, PartialEq, Eq, Structural)]
pub enum OfferOutcome {
    NotProvisioned,
    Generate,
    AlreadyOffering,
}

/// The connection state of a peer.
#[derive(Debug, Clone, Copy, PartialEq, Eq, Structural)]
pub enum PeerConnectionState {
    New,
    Connecting,
    Connected,
    Disconnected,
    Failed,
    Closed,
}

/// What a peer's change of connection state leads to.
#[derive(Debug, PartialEq)]
pub enum StateOutcome {
    /// No peer for the client.
    Unknown,
    /// Connected: offers may follow, and the peer is set playing.
    Play,
    /// Gone: the peer is stopped and forgotten, and these data channels are released.
    Disconnect(Vec<i32>),
    /// Any other state: nothing changes.
    Unhandled,
}

/// The peers of the streaming loop, one per client.
#[derive(Debug)]
pub struct PeerTable {
    peers: Vec<WebRTCPeer>,
}

/// The position of the peer with socket id `id` (where there is one).
pub open spec fn position(entries: Seq<(Seq<char>, bool, Seq<i32>)>, id: Seq<char>) -> int {
    choose|i: int| 0 <= i < entries.len() && #[trigger] entries[i].0 == id
}

/// Whether a peer with socket id `id` is among `entries`.
pub open spec fn has_peer(entries: Seq<(Seq<char>, bool, Seq<i32>)>, id: Seq<char>) -> bool {
    exists|i: int| 0 <= i < entries.len() && #[trigger] entries[i].0 == id
}

/// Whether no two entries share a socket id.
pub open spec fn ids_unique(entries: Seq<(Seq<char>, bool, Seq<i32>)>) -> bool {
    forall|i: int, j: int| 0 <= i < j < entries.len() ==> entries[i].0 != entries[j].0
}

/// `entries` with the offer permission of the peer of `id` set to `b`.
pub open spec fn with_offer(entries: Seq<(Seq<char>, bool, Seq<i32>)>, id: Seq<char>, b: bool) -> Seq<(Seq<char>, bool, Seq<i32>)> {
    let i = position(entries, id);
    entries.update(i, (entries[i].0, b, entries[i].2))
}

/// The peers after a client asks for WebRTC: unchanged when it has a peer
/// already, else with a new peer for it.
pub open spec fn after_provision(entries: Seq<(Seq<char>, bool, Seq<i32>)>, id: Seq<char>) -> Seq<(Seq<char>, bool, Seq<i32>)> {
    if has_peer(entries, id) {
        entries
    } else {
        entries.push((id, true, Seq::empty()))
    }
}

/// The outcome of a session description of type `kind` from a client.
pub open spec fn sdp_outcome(entries: Seq<(Seq<char>, bool, Seq<i32>)>, id: Seq<char>, kind: Seq<char>) -> SdpOutcome {
    if !has_peer(entries, id) {
        SdpOutcome::Dropped
    } else if kind == "answer"@ {
        SdpOutcome::ProcessAnswer
    } else if kind == "offer"@ {
        if entries[position(entries, id)].1 {
            SdpOutcome::ProcessOffer
        } else {
            SdpOutcome::OfferIgnored
        }
    } else {
        SdpOutcome::Unhandled
    }
}

/// The outcome of a request to generate an offer for a client.
pub open spec fn offer_outcome(entries: Seq<(Seq<char>, bool, Seq<i32>)>, id: Seq<char>) -> OfferOutcome {
    if !has_peer(entries, id) {
        OfferOutcome::NotProvisioned
    } else if entries[position(entries, id)].1 {
        OfferOutcome::Generate
    } else {
        OfferOutcome::AlreadyOffering
    }
}

/// The peer of `id` is found at its position, and `with_offer` keeps the ids
/// in their places.
proof fn lemma_with_offer(entries: Seq<(Seq<char>, bool, Seq<i32>)>, id: Seq<char>, b: bool)
    requires
        ids_unique(entries),
        has_peer(entries, id),
    ensures
        ({
            let e2 = with_offer(entries, id, b);
            &&& e2.len() == entries.len()
            &&& forall|k: int| 0 <= k < e2.len() ==> #[trigger] e2[k].0 == entries[k].0
            &&& ids_unique(e2)
            &&& has_peer(e2, id)
            &&& position(e2, id) == position(entries, id)
            &&& e2[position(e2, id)].1 == b
            &&& e2[position(e2, id)].2 == entries[position(entries, id)].2
        }),
{
    let i = position(entries, id);
    let e2 = with_offer(entries, id, b);
    assert(e2[i].0 == id);
    let j = position(e2, id);
    assert(0 <= j < e2.len() && e2[j].0 == id);
    if j != i {
        if j < i {
            assert(entries[j].0 != entries[i].0);
        } else {
            assert(entries[i].0 != entries[j].0);
        }
    }
    assert forall|a: int, c: int| 0 <= a < c < e2.len() implies e2[a].0 != e2[c].0 by {
        assert(entries[a].0 != entries[c].0);
    }
}

/// Once an offer is being generated for a client, a second request is
/// refused until the first is settled.
pub proof fn law_one_offer_at_a_time(entries: Seq<(Seq<char>, bool, Seq<i32>)>, id: Seq<char>)
    requires
        ids_unique(entries),
        offer_outcome(entries, id) == OfferOutcome::Generate,
    ensures
        offer_outcome(with_offer(entries, id, false), id) == OfferOutcome::AlreadyOffering,
{
    lemma_with_offer(entries, id, false);
}

/// An answer from a client (or its peer connecting, or becoming ready) lets
/// the next offer request through.
pub proof fn law_answer_allows_offer(entries: Seq<(Seq<char>, bool, Seq<i32>)>, id: Seq<char>)
    requires
        ids_unique(entries),
        has_peer(entries, id),
    ensures
        offer_outcome(with_offer(entries, id, true), id) == OfferOutcome::Generate,
{
    lemma_with_offer(entries, id, true);
}

/// A client that asks for WebRTC twice keeps a single peer: the second
/// request changes nothing.
pub proof fn law_provision_once(entries: Seq<(Seq<char>, bool, Seq<i32>)>, id: Seq<char>)
    ensures
        has_peer(after_provision(entries, id), id),
        after_provision(after_provision(entries, id), id) == after_provision(entries, id),
{
    if !has_peer(entries, id) {
        let e2 = entries.push((id, true, Seq::<i32>::empty()));
        assert(e2[entries.len() as int].0 == id);
    }
}

/// A peer that disconnects is forgotten: no peer serves its client any more.
pub proof fn law_disconnect_forgets_peer(entries: Seq<(Seq<char>, bool, Seq<i32>)>, id: Seq<char>)
    requires
        ids_unique(entries),
        has_peer(entries, id),
    ensures
        !has_peer(entries.remove(position(entries, id)), id),
{
    let i = position(entries, id);
    let e2 = entries.remove(i);
    if has_peer(e2, id) {
        let k = choose|k: int| 0 <= k < e2.len() && #[trigger] e2[k].0 == id;
        if k < i {
            assert(entries[k].0 != entries[i].0);
        } else {
            assert(entries[i].0 != entries[k + 1].0);
        }
    }
}

impl PeerTable {
    /// The peers as plain values, in the order they were provisioned.
    pub closed spec fn entries(self) -> Seq<(Seq<char>, bool, Seq<i32>)> {
        self.peers@.map_values(|p: WebRTCPeer| peer_view(p))
    }

    /// No two peers serve one client.
    pub open spec fn wf(self) -> bool {
        ids_unique(self.entries())
    }

    /// No peers.
    pub fn new() -> (r: PeerTable)
        ensures
            r.entries() == Seq::<(Seq<char>, bool, Seq<i32>)>::empty(),
            r.wf(),
    {
        let r = PeerTable { peers: Vec::new() };
        assert(r.entries() =~= Seq::<(Seq<char>, bool, Seq<i32>)>::empty());
        r
    }

    /// How many peers there are.
    pub fn len(&self) -> (r: usize)
        ensures
            r == self.entries().len(),
    {
        self.peers.len()
    }

    /// The socket ids of the peers, in order.
    pub fn ids(&self) -> (r: Vec<String>)
        ensures
            r@.len() == self.entries().len(),
            forall|i: int| 0 <= i < r@.len() ==> #[trigger] r@[i]@ == self.entries()[i].0,
    {
        let mut out: Vec<String> = Vec::new();
        let mut i: usize = 0;
        while i < self.peers.len()
            invariant
                i <= self.peers@.len(),
                out@.len() == i,
                forall|k: int| 0 <= k < i ==> #[trigger] out@[k]@ == self.entries()[k].0,
            decreases self.peers@.len() - i,
        {
            out.push(String::from_str(self.peers[i].id.as_str()));
            i = i + 1;
        }
        out
    }

    /// The position of the peer of `id`, if there is one.
    fn find(&self, id: &str) -> (r: Option<usize>)
        requires
            self.wf(),
        ensures
            match r {
                Some(i) => has_peer(self.entries(), id@) && i == position(self.entries(), id@)
                    && i < self.entries().len(),
                None => !has_peer(self.entries(), id@),
            },
    {
        let ghost e = self.entries();
        let mut i: usize = 0;
        while i < self.peers.len()
            invariant
                e == self.entries(),
                ids_unique(e),
                e.len() == self.peers@.len(),
                i <= e.len(),
                forall|k: int| 0 <= k < i ==> #[trigger] e[k].0 != id@,
            decreases e.len() - i,
        {
            if str_eq(self.peers[i].id.as_str(), id) {
                proof {
                    assert(e[i as int].0 == id@);
                    let j = position(e, id@);
                    assert(0 <= j < e.len() && e[j].0 == id@);
                    if j != i {
                        if j < i {
                            assert(e[j].0 != e[i as int].0);
                        } else {
                            assert(e[i as int].0 != e[j].0);
                        }
                    }
                }
                return Some(i);
            }
            i = i + 1;
        }
        None
    }

    /// Replaces the offer permission of the peer at `i`.
    fn set_offer(&mut self, i: usize, b: bool)
        requires
            i < old(self).entries().len(),
        ensures
            final(self).entries() == old(self).entries().update(
                i as int,
                (old(self).entries()[i as int].0, b, old(self).entries()[i as int].2),
            ),
    {
        let mut p = self.peers.remove(i);
        p.may_offer = b;
        self.peers.insert(i, p);
        assert(self.entries() =~= old(self).entries().update(
            i as int,
            (old(self).entries()[i as int].0, b, old(self).entries()[i as int].2),
        ));
    }

    /// A client asks for WebRTC: a new peer is made for it unless it has one
    /// (a duplicate connection). Tells whether one was made.
    pub fn provision(&mut self, id: &str) -> (created: bool)
        requires
            old(self).wf(),
        ensures
            final(self).wf(),
            created == !has_peer(old(self).entries(), id@),
            final(self).entries() == after_provision(old(self).entries(), id@),
    {
        match self.find(id) {
            Some(_) => false,
            None => {
                let p = WebRTCPeer::new(String::from_str(id));
                self.peers.push(p);
                proof {
                    let e = old(self).entries();
                    assert(self.entries() =~= e.push((id@, true, Seq::<i32>::empty())));
                    assert forall|i: int, j: int| 0 <= i < j < self.entries().len() implies
                        self.entries()[i].0 != self.entries()[j].0 by {
                        if j == e.len() {
                            assert(e[i].0 != id@);
                        }
                    }
                }
                true
            },
        }
    }

    /// A session description of type `kind` from a client: an answer lets
    /// offers follow (see `sdp_outcome`); nothing else changes.
    pub fn sdp(&mut self, id: &str, kind: &str) -> (r: SdpOutcome)
        requires
            old(self).wf(),
        ensures
            final(self).wf(),
            r == sdp_outcome(old(self).entries(), id@, kind@),
            final(self).entries() == (if r == SdpOutcome::ProcessAnswer {
                with_offer(old(self).entries(), id@, true)
            } else {
                old(self).entries()
            }),
    {
        proof {
            reveal_strlit("answer");
            reveal_strlit("offer");
        }
        match self.find(id) {
            None => SdpOutcome::Dropped,
            Some(i) => {
                if str_eq(kind, "answer") {
                    self.set_offer(i, true);
                    proof { self.lemma_update_keeps_ids(*old(self), i as int, true); }
                    SdpOutcome::ProcessAnswer
                } else if str_eq(kind, "offer") {
                    if self.peers[i].may_offer {
                        SdpOutcome::ProcessOffer
                    } else {
                        SdpOutcome::OfferIgnored
                    }
                } else {
                    SdpOutcome::Unhandled
                }
            },
        }
    }

    /// Our offer for a client is ready: no other offer until this one is
    /// settled. Tells whether the client has a peer (the offer is then sent).
    pub fn local_offer(&mut self, id: &str) -> (r: bool)
        requires
            old(self).wf(),
        ensures
            final(self).wf(),
            r == has_peer(old(self).entries(), id@),
            final(self).entries() == (if r {
                with_offer(old(self).entries(), id@, false)
            } else {
                old(self).entries()
            }),
    {
        match self.find(id) {
            None => false,
            Some(i) => {
                self.set_offer(i, false);
                proof { self.lemma_update_keeps_ids(*old(self), i as int, false); }
                true
            },
        }
    }

    /// Our answer for a client is ready. Tells whether the client has a peer
    /// (the answer is then set and sent).
    pub fn answer_ready(&self, id: &str) -> (r: bool)
        requires
            self.wf(),
        ensures
            r == has_peer(self.entries(), id@),
    {
        self.find(id).is_some()
    }

    /// A request to generate an offer for a client: granted when offers are
    /// allowed, and then no other until it is settled (see `offer_outcome`).
    pub fn offer_generation(&mut self, id: &str) -> (r: OfferOutcome)
        requires
            old(self).wf(),
        ensures
            final(self).wf(),
            r == offer_outcome(old(self).entries(), id@),
            final(self).entries() == (if r == OfferOutcome::Generate {
                with_offer(old(self).entries(), id@, false)
            } else {
                old(self).entries()
            }),
    {
        match self.find(id) {
            None => OfferOutcome::NotProvisioned,
            Some(i) => {
                if self.peers[i].may_offer {
                    self.set_offer(i, false);
                    proof { self.lemma_update_keeps_ids(*old(self), i as int, false); }
                    OfferOutcome::Generate
                } else {
                    OfferOutcome::AlreadyOffering
                }
            },
        }
    }

    /// The peer of a client is ready for RTC: offers may follow. Tells
    /// whether the client has a peer (it is then set playing and told).
    pub fn rtc_ready(&mut self, id: &str) -> (r: bool)
        requires
            old(self).wf(),
        ensures
            final(self).wf(),
            r == has_peer(old(self).entries(), id@),
            final(self).entries() == (if r {
                with_offer(old(self).entries(), id@, true)
            } else {
                old(self).entries()
            }),
    {
        match self.find(id) {
            None => false,
            Some(i) => {
                self.set_offer(i, true);
                proof { self.lemma_update_keeps_ids(*old(self), i as int, true); }
                true
            },
        }
    }

    /// The connection state of a client's peer changed. Connected: offers may
    /// follow. Disconnected, failed or closed: the peer is forgotten and its
    /// data channels are handed back. Otherwise nothing changes.
    pub fn state_change(&mut self, id: &str, state: PeerConnectionState) -> (r: StateOutcome)
        requires
            old(self).wf(),
        ensures
            final(self).wf(),
            !has_peer(old(self).entries(), id@) ==> r == StateOutcome::Unknown && final(self).entries()
                == old(self).entries(),
            has_peer(old(self).entries(), id@) ==> {
                let e = old(self).entries();
                let i = position(e, id@);
                match state {
                    PeerConnectionState::Connected => r == StateOutcome::Play && final(self).entries()
                        == with_offer(e, id@, true),
                    PeerConnectionState::Disconnected | PeerConnectionState::Failed
                    | PeerConnectionState::Closed => r matches StateOutcome::Disconnect(c) && c@ == e[i].2
                        && final(self).entries() == e.remove(i),
                    _ => r == StateOutcome::Unhandled && final(self).entries() == e,
                }
            },
    {
        match self.find(id) {
            None => StateOutcome::Unknown,
            Some(i) => {
                match state {
                    PeerConnectionState::Connected => {
                        self.set_offer(i, true);
                        proof { self.lemma_update_keeps_ids(*old(self), i as int, true); }
                        StateOutcome::Play
                    },
                    PeerConnectionState::Disconnected | PeerConnectionState::Failed
                    | PeerConnectionState::Closed => {
                        let p = self.peers.remove(i);
                        proof {
                            let e = old(self).entries();
                            assert(self.entries() =~= e.remove(i as int));
                            assert forall|a: int, b: int| 0 <= a < b < self.entries().len() implies
                                self.entries()[a].0 != self.entries()[b].0 by {
                                if a < i {
                                    if b < i {
                                        assert(e[a].0 != e[b].0);
                                    } else {
                                        assert(e[a].0 != e[b + 1].0);
                                    }
                                } else {
                                    assert(e[a + 1].0 != e[b + 1].0);
                                }
                            }
                        }
                        StateOutcome::Disconnect(p.data_channels)
                    },
                    _ => StateOutcome::Unhandled,
                }
            },
        }
    }

    /// A data channel of a client was opened. One that the client opened is
    /// added to its peer's list. Tells whether the client has a peer (its
    /// messages are then handled).
    pub fn add_channel(&mut self, id: &str, channel: i32, from_client: bool) -> (r: bool)
        requires
            old(self).wf(),
        ensures
            final(self).wf(),
            r == has_peer(old(self).entries(), id@),
            final(self).entries() == (if r && from_client {
                let e = old(self).entries();
                let i = position(e, id@);
                e.update(i, (e[i].0, e[i].1, e[i].2.push(channel)))
            } else {
                old(self).entries()
            }),
    {
        match self.find(id) {
            None => false,
            Some(i) => {
                if from_client {
                    let mut p = self.peers.remove(i);
                    p.add_data_channel(channel);
                    self.peers.insert(i, p);
                    proof {
                        let e = old(self).entries();
                        let n = (e[i as int].0, e[i as int].1, e[i as int].2.push(channel));
                        assert(self.entries() =~= e.update(i as int, n));
                        assert forall|a: int, b: int| 0 <= a < b < self.entries().len() implies
                            self.entries()[a].0 != self.entries()[b].0 by {
                            assert(e[a].0 != e[b].0);
                        }
                    }
                }
                true
            },
        }
    }

    /// Forgets the peer of a client (after a pipeline error in it), and
    /// returns it, if there was one.
    pub fn remove(&mut self, id: &str) -> (r: Option<WebRTCPeer>)
        requires
            old(self).wf(),
        ensures
            final(self).wf(),
            r is Some == has_peer(old(self).entries(), id@),
            r is Some ==> peer_view(r.unwrap()) == old(self).entries()[position(old(self).entries(), id@)]
                && final(self).entries() == old(self).entries().remove(position(old(self).entries(), id@)),
            r is None ==> final(self).entries() == old(self).entries(),
    {
        match self.find(id) {
            None => None,
            Some(i) => {
                let p = self.peers.remove(i);
                proof {
                    let e = old(self).entries();
                    assert(self.entries() =~= e.remove(i as int));
                    assert forall|a: int, b: int| 0 <= a < b < self.entries().len() implies
                        self.entries()[a].0 != self.entries()[b].0 by {
                        if a < i {
                            if b < i {
                                assert(e[a].0 != e[b].0);
                            } else {
                                assert(e[a].0 != e[b + 1].0);
                            }
                        } else {
                            assert(e[a + 1].0 != e[b + 1].0);
                        }
                    }
                }
                Some(p)
            },
        }
    }

    /// Setting the offer permission at a position keeps the ids, so no two
    /// peers share one afterwards either.
    proof fn lemma_update_keeps_ids(self, before: PeerTable, i: int, b: bool)
        requires
            before.wf(),
            0 <= i < before.entries().len(),
            self.entries() == before.entries().update(i, (before.entries()[i].0, b, before.entries()[i].2)),
        ensures
            self.wf(),
            self.entries() == with_offer(before.entries(), before.entries()[i].0, b),
    {
        let e = before.entries();
        assert forall|a: int, c: int| 0 <= a < c < self.entries().len() implies
            self.entries()[a].0 != self.entries()[c].0 by {
            assert(e[a].0 != e[c].0);
        }
        let j = position(e, e[i].0);
        assert(0 <= j < e.len() && e[j].0 == e[i].0);
        if j != i {
            if j < i {
                assert(e[j].0 != e[i].0);
            } else {
                assert(e[i].0 != e[j].0);
            }
        }
    }
}

} // verus!
