//! How the crawler answers what happens on the network.

use crate::primitives::PeerId;
use crate::types::{instant_now, PeerInfo, PeerUpdateData, UiUpdate};
use dashmap::DashMap;
use std::hash::RandomState;
use std::time::Instant;
use vstd::prelude::*;

verus! {

/// What a peer told of itself when its session was established.
#[derive(Debug)]
pub struct SessionInfo {
    pub peer_id: PeerId,
    pub client_version: String,
}

/// What is kept of a connected peer.
#[derive(Debug)]
pub struct PeerSessionInfo {
    pub session_info: SessionInfo,
}

/// Something that happened to a peer.
#[derive(Debug)]
pub enum PeerEvent {
    SessionEstablished(SessionInfo),
    SessionClosed { peer_id: PeerId },
    PeerAdded(PeerId),
    PeerRemoved(PeerId),
}

/// Something that happened on the network.
#[derive(Debug)]
pub enum NetworkEvent {
    Peer(PeerEvent),
    ActivePeerSession { peer_id: PeerId },
}

/// The concurrent map of `dashmap`.
#[verifier::external_type_specification]
#[verifier::external_body]
#[verifier::reject_recursive_types(K)]
#[verifier::reject_recursive_types(V)]
#[verifier::reject_recursive_types(S)]
pub struct ExDashMap<K, V, S>(DashMap<K, V, S>);

/// What a map of sessions holds: the client version of each connected peer, by the peer's id.
pub uninterp spec fn sessions_in(peers: DashMap<PeerId, PeerSessionInfo, RandomState>) -> Map<
    Seq<u8>,
    Seq<char>,
>;

/// No connected peers.
pub open spec fn no_sessions() -> Map<Seq<u8>, Seq<char>> {
    Map::empty()
}

/// Calls `DashMap::new`, which makes an empty map.
#[verifier::external_body]
fn new_peer_map() -> (peers: DashMap<PeerId, PeerSessionInfo, RandomState>)
    ensures
        sessions_in(peers) == no_sessions(),
{
    DashMap::new()
}

/// Calls `DashMap::insert`, which maps the key to the value and hands back the value that the key
/// had before. The exclusive reference keeps other threads out during the call.
#[verifier::external_body]
fn insert_session(
    peers: &mut DashMap<PeerId, PeerSessionInfo, RandomState>,
    peer_id: PeerId,
    session: PeerSessionInfo,
) -> (previous: Option<PeerSessionInfo>)
    ensures
        sessions_in(*final(peers)) == sessions_in(*old(peers)).insert(
            peer_id@,
            session.session_info.client_version@,
        ),
        previous is Some <==> sessions_in(*old(peers)).contains_key(peer_id@),
        previous matches Some(p) ==> p.session_info.client_version@ == sessions_in(
            *old(peers),
        )[peer_id@],
{
    peers.insert(peer_id, session)
}

/// Calls `DashMap::remove`, which takes the key out of the map and hands back the entry, if there
/// was one. The exclusive reference keeps other threads out during the call.
#[verifier::external_body]
fn remove_session(
    peers: &mut DashMap<PeerId, PeerSessionInfo, RandomState>,
    peer_id: &PeerId,
) -> (removed: Option<(PeerId, PeerSessionInfo)>)
    ensures
        sessions_in(*final(peers)) == sessions_in(*old(peers)).remove(peer_id@),
        removed is Some <==> sessions_in(*old(peers)).contains_key(peer_id@),
        removed matches Some(entry) ==> entry.0@ == peer_id@
            && entry.1.session_info.client_version@ == sessions_in(*old(peers))[peer_id@],
{
    peers.remove(peer_id)
}

/// Calls `DashMap::iter`, which visits each entry of the map once, in an order that is left open.
#[verifier::external_body]
fn session_entries(peers: &DashMap<PeerId, PeerSessionInfo, RandomState>) -> (entries: Vec<
    (PeerId, String),
>)
    ensures
        lists_exactly(pair_entries(entries@), sessions_in(*peers)),
{
    peers.iter().map(
        |entry| (*entry.key(), entry.value().session_info.client_version.clone()),
    ).collect()
}

/// Whether `entries` lists each key of `sessions` once, with its value, and nothing else.
pub open spec fn lists_exactly(
    entries: Seq<(Seq<u8>, Seq<char>)>,
    sessions: Map<Seq<u8>, Seq<char>>,
) -> bool {
    &&& forall|i: int, j: int|
        0 <= i < j < entries.len() ==> (#[trigger] entries[i]).0 != (#[trigger] entries[j]).0
    &&& forall|i: int|
        0 <= i < entries.len() ==> sessions.contains_pair(
            (#[trigger] entries[i]).0,
            entries[i].1,
        )
    &&& forall|id: Seq<u8>| #[trigger]
        sessions.contains_key(id) ==> exists|i: int|
            0 <= i < entries.len() && (#[trigger] entries[i]).0 == id
}

/// The ids and client versions of a list of pairs.
pub open spec fn pair_entries(pairs: Seq<(PeerId, String)>) -> Seq<(Seq<u8>, Seq<char>)> {
    pairs.map_values(|pair: (PeerId, String)| (pair.0@, pair.1@))
}

/// The ids and client versions of a list of peers.
pub open spec fn peer_entries(peers: Seq<PeerInfo>) -> Seq<(Seq<u8>, Seq<char>)> {
    peers.map_values(|peer: PeerInfo| (peer.id@, peer.client_version@))
}

/// The sessions that are open once `event` has happened.
pub open spec fn sessions_after(
    sessions: Map<Seq<u8>, Seq<char>>,
    event: PeerEvent,
) -> Map<Seq<u8>, Seq<char>> {
    match event {
        PeerEvent::SessionEstablished(info) => sessions.insert(
            info.peer_id@,
            info.client_version@,
        ),
        PeerEvent::SessionClosed { peer_id } => sessions.remove(peer_id@),
        PeerEvent::PeerAdded(_) | PeerEvent::PeerRemoved(_) => sessions,
    }
}

/// Whether `update` is the message that tells of `sessions` after `event`: a list of all the peers
/// where a session was established or closed, and none otherwise.
pub open spec fn announces(
    update: Option<UiUpdate>,
    event: PeerEvent,
    sessions: Map<Seq<u8>, Seq<char>>,
) -> bool {
    match event {
        PeerEvent::SessionEstablished(_) | PeerEvent::SessionClosed { .. } => {
            update matches Some(UiUpdate::PeerUpdate(data)) && lists_exactly(
                peer_entries(data.connected_peers@),
                sessions,
            )
        },
        PeerEvent::PeerAdded(_) | PeerEvent::PeerRemoved(_) => update is None,
    }
}

/// Whether the message, if it is a list of peers, bears the given time.
pub open spec fn is_stamped(update: Option<UiUpdate>, now: Instant) -> bool {
    update matches Some(UiUpdate::PeerUpdate(data)) ==> data.timestamp == now
}

/// Keeps track of the connected peers and decides how to answer what happens on the network.
#[derive(Debug)]
pub struct EthP2PHandler {
    peers: DashMap<PeerId, PeerSessionInfo, RandomState>,
}

impl View for EthP2PHandler {
    type V = Map<Seq<u8>, Seq<char>>;

    closed spec fn view(&self) -> Map<Seq<u8>, Seq<char>> {
        sessions_in(self.peers)
    }
}

impl EthP2PHandler {
    /// A handler without connected peers.
    pub fn new() -> (r: EthP2PHandler)
        ensures
            r@ == no_sessions(),
    {
        EthP2PHandler { peers: new_peer_map() }
    }

    /// The connected peers, in an order that is left open.
    pub fn connected_peers(&self) -> (r: Vec<PeerInfo>)
        ensures
            lists_exactly(peer_entries(r@), self@),
    {
        let entries = session_entries(&self.peers);
        let mut r: Vec<PeerInfo> = Vec::new();
        for entry in iter: entries
            invariant
                r@.len() == iter.index(),
                forall|i: int|
                    0 <= i < r@.len() ==> (#[trigger] r@[i]).id@ == entries@[i].0@
                        && r@[i].client_version@ == entries@[i].1@,
        {
            r.push(PeerInfo { id: entry.0, client_version: entry.1 });
        }
        proof {
            assert(peer_entries(r@) =~= pair_entries(entries@));
        }
        r
    }

    /// Takes note of `event`, which happened at `now`, and gives the message that it calls for.
    pub fn handle_peer_event_at(&mut self, event: PeerEvent, now: Instant) -> (r: Option<UiUpdate>)
        ensures
            final(self)@ == sessions_after(old(self)@, event),
            announces(r, event, final(self)@),
            is_stamped(r, now),
            r is Some <==> event is SessionEstablished || event is SessionClosed,
            r matches Some(update) ==> update is PeerUpdate,
            r matches Some(UiUpdate::PeerUpdate(data)) ==> data.timestamp == now,
    {
        match event {
            PeerEvent::SessionEstablished(session_info) => {
                let peer_id: PeerId = session_info.peer_id;
                let _ = insert_session(&mut self.peers, peer_id, PeerSessionInfo { session_info });
            },
            PeerEvent::SessionClosed { peer_id } => {
                let _ = remove_session(&mut self.peers, &peer_id);
            },
            PeerEvent::PeerAdded(_) | PeerEvent::PeerRemoved(_) => {
                return None;
            },
        }
        Some(
            UiUpdate::PeerUpdate(
                PeerUpdateData { connected_peers: self.connected_peers(), timestamp: now },
            ),
        )
    }

    /// Takes note of `event` and gives the message that it calls for, with the present time on it.
    pub fn handle_peer_event(&mut self, event: PeerEvent) -> (r: Option<UiUpdate>)
        ensures
            final(self)@ == sessions_after(old(self)@, event),
            announces(r, event, final(self)@),
            r is Some <==> event is SessionEstablished || event is SessionClosed,
            r matches Some(update) ==> update is PeerUpdate,
    {
        self.handle_peer_event_at(event, instant_now())
    }

    /// Takes note of `event` and gives the message that it calls for. That a session is active
    /// calls for none.
    pub fn handle_network_event_wrapper(&mut self, event: NetworkEvent) -> (r: Option<UiUpdate>)
        ensures
            match event {
                NetworkEvent::Peer(peer_event) => {
                    &&& final(self)@ == sessions_after(old(self)@, peer_event)
                    &&& announces(r, peer_event, final(self)@)
                },
                NetworkEvent::ActivePeerSession { .. } => {
                    &&& final(self)@ == old(self)@
                    &&& r is None
                },
            },
    {
        match event {
            NetworkEvent::Peer(peer_event) => self.handle_peer_event(peer_event),
            NetworkEvent::ActivePeerSession { .. } => None,
        }
    }
}

/// A list of the connected peers has as many entries as there are open sessions.
pub proof fn law_list_length(peers: Seq<PeerInfo>, sessions: Map<Seq<u8>, Seq<char>>)
    requires
        lists_exactly(peer_entries(peers), sessions),
    ensures
        sessions.dom().finite(),
        peers.len() == sessions.dom().len(),
{
    let ids = peer_entries(peers).map_values(|entry: (Seq<u8>, Seq<char>)| entry.0);
    assert(ids.no_duplicates()) by {
        assert forall|i: int, j: int| 0 <= i < ids.len() && 0 <= j < ids.len() && i != j implies ids[i]
            != ids[j] by {
            if i < j {
                assert(peer_entries(peers)[i].0 != peer_entries(peers)[j].0);
            } else {
                assert(peer_entries(peers)[j].0 != peer_entries(peers)[i].0);
            }
        }
    }
    assert(ids.to_set() =~= sessions.dom()) by {
        assert forall|id: Seq<u8>| ids.to_set().contains(id) <==> sessions.dom().contains(id) by {
            if ids.contains(id) {
                let i = choose|i: int| 0 <= i < ids.len() && ids[i] == id;
                assert(sessions.contains_pair(
                    peer_entries(peers)[i].0,
                    peer_entries(peers)[i].1,
                ));
            }
            if sessions.contains_key(id) {
                let i = choose|i: int|
                    0 <= i < peer_entries(peers).len() && (#[trigger] peer_entries(peers)[i]).0
                        == id;
                assert(ids[i] == id);
            }
        }
    }
    ids.unique_seq_to_set();
}

/// After a session was established, every list of the connected peers holds the new peer in one
/// place, with the client version that it told.
pub proof fn law_established_peer_is_listed_once(
    sessions: Map<Seq<u8>, Seq<char>>,
    info: SessionInfo,
    peers: Seq<PeerInfo>,
)
    requires
        lists_exactly(
            peer_entries(peers),
            sessions_after(sessions, PeerEvent::SessionEstablished(info)),
        ),
    ensures
        exists|i: int|
            0 <= i < peers.len() && (#[trigger] peers[i]).id@ == info.peer_id@,
        forall|i: int|
            0 <= i < peers.len() && (#[trigger] peers[i]).id@ == info.peer_id@
                ==> peers[i].client_version@ == info.client_version@,
        forall|i: int, j: int|
            0 <= i < peers.len() && 0 <= j < peers.len() && (#[trigger] peers[i]).id@
                == info.peer_id@ && (#[trigger] peers[j]).id@ == info.peer_id@ ==> i == j,
{
    let after = sessions_after(sessions, PeerEvent::SessionEstablished(info));
    let entries = peer_entries(peers);
    assert(after.contains_key(info.peer_id@));
    let k = choose|i: int| 0 <= i < entries.len() && (#[trigger] entries[i]).0 == info.peer_id@;
    assert(peers[k].id@ == info.peer_id@);
    assert forall|i: int|
        0 <= i < peers.len() && (#[trigger] peers[i]).id@
            == info.peer_id@ implies peers[i].client_version@ == info.client_version@ by {
        assert(after.contains_pair(entries[i].0, entries[i].1));
    }
    assert forall|i: int, j: int|
        0 <= i < peers.len() && 0 <= j < peers.len() && (#[trigger] peers[i]).id@ == info.peer_id@
            && (#[trigger] peers[j]).id@ == info.peer_id@ implies i == j by {
        assert(entries[i].0 == entries[j].0);
    }
}

/// After a session was closed, no list of the connected peers holds the peer.
pub proof fn law_closed_peer_is_not_listed(
    sessions: Map<Seq<u8>, Seq<char>>,
    peer_id: PeerId,
    peers: Seq<PeerInfo>,
)
    requires
        lists_exactly(
            peer_entries(peers),
            sessions_after(sessions, PeerEvent::SessionClosed { peer_id }),
        ),
    ensures
        forall|i: int| 0 <= i < peers.len() ==> (#[trigger] peers[i]).id@ != peer_id@,
{
    let after = sessions_after(sessions, PeerEvent::SessionClosed { peer_id });
    assert forall|i: int| 0 <= i < peers.len() implies (#[trigger] peers[i]).id@ != peer_id@ by {
        assert(after.contains_pair(peer_entries(peers)[i].0, peer_entries(peers)[i].1));
    }
}

/// Closing a session undoes its establishment: only the peer's own earlier session, if it had one,
/// is lost.
pub proof fn law_close_undoes_establish(sessions: Map<Seq<u8>, Seq<char>>, info: SessionInfo)
    ensures
        sessions_after(
            sessions_after(sessions, PeerEvent::SessionEstablished(info)),
            PeerEvent::SessionClosed { peer_id: info.peer_id },
        ) == sessions.remove(info.peer_id@),
        !sessions.contains_key(info.peer_id@) ==> sessions_after(
            sessions_after(sessions, PeerEvent::SessionEstablished(info)),
            PeerEvent::SessionClosed { peer_id: info.peer_id },
        ) == sessions,
{
    let after = sessions_after(
        sessions_after(sessions, PeerEvent::SessionEstablished(info)),
        PeerEvent::SessionClosed { peer_id: info.peer_id },
    );
    assert(after =~= sessions.remove(info.peer_id@));
    if !sessions.contains_key(info.peer_id@) {
        assert(after =~= sessions);
    }
}

/// An event leaves the sessions of all the other peers as they were.
pub proof fn law_other_peers_are_untouched(
    sessions: Map<Seq<u8>, Seq<char>>,
    event: PeerEvent,
    other: PeerId,
)
    requires
        event matches PeerEvent::SessionEstablished(info) ==> info.peer_id@ != other@,
        event matches PeerEvent::SessionClosed { peer_id } ==> peer_id@ != other@,
    ensures
        sessions_after(sessions, event).contains_key(other@) == sessions.contains_key(other@),
        sessions.contains_key(other@) ==> sessions_after(sessions, event)[other@]
            == sessions[other@],
{
}

/// A list of the connected peers has each peer with an open session in exactly one place, with
/// the version of its client, and nobody else.
pub proof fn law_list_is_exact(peers: Seq<PeerInfo>, sessions: Map<Seq<u8>, Seq<char>>)
    requires
        lists_exactly(peer_entries(peers), sessions),
    ensures
        forall|i: int|
            0 <= i < peers.len() ==> sessions.contains_key((#[trigger] peers[i]).id@)
                && sessions[peers[i].id@] == peers[i].client_version@,
        forall|i: int, j: int|
            0 <= i < j < peers.len() ==> (#[trigger] peers[i]).id@ != (#[trigger] peers[j]).id@,
        forall|id: Seq<u8>| #[trigger]
            sessions.contains_key(id) ==> exists|i: int|
                0 <= i < peers.len() && (#[trigger] peers[i]).id@ == id,
{
    let entries = peer_entries(peers);
    assert forall|i: int| 0 <= i < peers.len() implies sessions.contains_key(
        (#[trigger] peers[i]).id@,
    ) && sessions[peers[i].id@] == peers[i].client_version@ by {
        assert(sessions.contains_pair(entries[i].0, entries[i].1));
    }
    assert forall|i: int, j: int| 0 <= i < j < peers.len() implies (#[trigger] peers[i]).id@ != (
    #[trigger] peers[j]).id@ by {
        assert(entries[i].0 != entries[j].0);
    }
    assert forall|id: Seq<u8>| #[trigger] sessions.contains_key(id) implies exists|i: int|
        0 <= i < peers.len() && (#[trigger] peers[i]).id@ == id by {
        let i = choose|i: int| 0 <= i < entries.len() && (#[trigger] entries[i]).0 == id;
        assert(peers[i].id@ == id);
    }
}

/// The handler lists each of its connected peers in exactly one place, and nobody else.
pub proof fn law_connected_peers_are_listed(handler: &EthP2PHandler, peers: Vec<PeerInfo>)
    requires
        call_ensures(EthP2PHandler::connected_peers, (handler,), peers),
    ensures
        peers@.len() == handler@.dom().len(),
        forall|i: int|
            0 <= i < peers@.len() ==> handler@.contains_key((#[trigger] peers@[i]).id@)
                && handler@[peers@[i].id@] == peers@[i].client_version@,
        forall|i: int, j: int|
            0 <= i < j < peers@.len() ==> (#[trigger] peers@[i]).id@ != (#[trigger] peers@[j]).id@,
        forall|id: Seq<u8>| #[trigger]
            handler@.contains_key(id) ==> exists|i: int|
                0 <= i < peers@.len() && (#[trigger] peers@[i]).id@ == id,
{
    law_list_is_exact(peers@, handler@);
    law_list_length(peers@, handler@);
}

/// A fresh handler has no connected peers.
pub proof fn law_fresh_handler_has_no_peers(handler: EthP2PHandler, id: Seq<u8>)
    requires
        call_ensures(EthP2PHandler::new, (), handler),
    ensures
        !handler@.contains_key(id),
{
}

/// A peer is connected after an event exactly if the event established its session, or it was
/// connected before and the event did not close its session. The version of its client is the
/// one that it told last.
pub proof fn law_who_is_connected(
    sessions: Map<Seq<u8>, Seq<char>>,
    event: PeerEvent,
    id: Seq<u8>,
)
    ensures
        sessions_after(sessions, event).contains_key(id) <==> {
            ||| event matches PeerEvent::SessionEstablished(info) && info.peer_id@ == id
            ||| sessions.contains_key(id) && !(event matches PeerEvent::SessionClosed { peer_id }
                && peer_id@ == id)
        },
        event matches PeerEvent::SessionEstablished(info) ==> (info.peer_id@ == id
            ==> sessions_after(sessions, event)[id] == info.client_version@),
        sessions_after(sessions, event).contains_key(id) && !(event matches
            PeerEvent::SessionEstablished(info) && info.peer_id@ == id) ==> sessions_after(
            sessions,
            event,
        )[id] == sessions[id],
{
}

/// Each session that is established or closed is announced, whatever sessions are open then, also
/// where none is: the message lists each of them in one place and nothing else. What happens to
/// the address book is not announced.
pub proof fn law_session_changes_are_announced(
    update: Option<UiUpdate>,
    event: PeerEvent,
    sessions: Map<Seq<u8>, Seq<char>>,
)
    requires
        announces(update, event, sessions),
    ensures
        event is SessionEstablished || event is SessionClosed <==> update is Some,
        update matches Some(message) ==> message is PeerUpdate,
        update matches Some(UiUpdate::PeerUpdate(data)) ==> {
            let peers = data.connected_peers@;
            &&& peers.len() == sessions.dom().len()
            &&& forall|i: int|
                0 <= i < peers.len() ==> sessions.contains_key((#[trigger] peers[i]).id@)
                    && sessions[peers[i].id@] == peers[i].client_version@
            &&& forall|id: Seq<u8>| #[trigger]
                sessions.contains_key(id) ==> exists|i: int|
                    0 <= i < peers.len() && (#[trigger] peers[i]).id@ == id
        },
{
    if let Some(UiUpdate::PeerUpdate(data)) = update {
        law_list_is_exact(data.connected_peers@, sessions);
        law_list_length(data.connected_peers@, sessions);
    }
}

/// A list of peers bears the time at which the event happened.
pub proof fn law_message_bears_the_time(data: PeerUpdateData, now: Instant)
    requires
        is_stamped(Some(UiUpdate::PeerUpdate(data)), now),
    ensures
        data.timestamp == now,
{
}

/// What the handler knows after an event: a peer is connected exactly if its session was just
/// established, or it was connected and its session was not just closed. Each establishment and
/// each closing is answered with a list of exactly those peers, and with the time of the event;
/// nothing else is answered.
pub proof fn law_handler_takes_note_of_events(
    event: PeerEvent,
    now: Instant,
    update: Option<UiUpdate>,
    id: Seq<u8>,
)
    ensures
        forall|handler: &mut EthP2PHandler| #[trigger]
            call_ensures(EthP2PHandler::handle_peer_event_at, (handler, event, now), update) ==> {
                &&& final(handler)@.contains_key(id) <==> {
                    ||| event matches PeerEvent::SessionEstablished(info) && info.peer_id@ == id
                    ||| (*handler)@.contains_key(id) && !(event matches PeerEvent::SessionClosed {
                        peer_id,
                    } && peer_id@ == id)
                }
                &&& event matches PeerEvent::SessionEstablished(info) ==> (info.peer_id@ == id
                    ==> final(handler)@[id] == info.client_version@)
                &&& final(handler)@.contains_key(id) && !(event matches
                    PeerEvent::SessionEstablished(info) && info.peer_id@ == id)
                    ==> final(handler)@[id] == (*handler)@[id]
                &&& update is Some <==> event is SessionEstablished || event is SessionClosed
                &&& update matches Some(message) ==> (message matches UiUpdate::PeerUpdate(data)
                    && lists_exactly(peer_entries(data.connected_peers@), final(handler)@) && data.timestamp == now)
            },
{
}

/// The same holds of an event that happens at the present time, whatever the clock says.
pub proof fn law_handler_takes_note_of_present_events(
    event: PeerEvent,
    update: Option<UiUpdate>,
    id: Seq<u8>,
)
    ensures
        forall|handler: &mut EthP2PHandler| #[trigger]
            call_ensures(EthP2PHandler::handle_peer_event, (handler, event), update) ==> {
                &&& final(handler)@.contains_key(id) <==> {
                    ||| event matches PeerEvent::SessionEstablished(info) && info.peer_id@ == id
                    ||| (*handler)@.contains_key(id) && !(event matches PeerEvent::SessionClosed {
                        peer_id,
                    } && peer_id@ == id)
                }
                &&& event matches PeerEvent::SessionEstablished(info) ==> (info.peer_id@ == id
                    ==> final(handler)@[id] == info.client_version@)
                &&& final(handler)@.contains_key(id) && !(event matches
                    PeerEvent::SessionEstablished(info) && info.peer_id@ == id)
                    ==> final(handler)@[id] == (*handler)@[id]
                &&& update is Some <==> event is SessionEstablished || event is SessionClosed
                &&& update matches Some(message) ==> (message matches UiUpdate::PeerUpdate(data)
                    && lists_exactly(peer_entries(data.connected_peers@), final(handler)@))
            },
{
}

/// The same holds of an event that comes as one of the network.
pub proof fn law_peer_events_come_through_the_network(
    event: PeerEvent,
    update: Option<UiUpdate>,
    id: Seq<u8>,
)
    ensures
        forall|handler: &mut EthP2PHandler| #[trigger]
            call_ensures(EthP2PHandler::handle_network_event_wrapper, (handler, NetworkEvent::Peer(event)), update) ==> {
                &&& final(handler)@.contains_key(id) <==> {
                    ||| event matches PeerEvent::SessionEstablished(info) && info.peer_id@ == id
                    ||| (*handler)@.contains_key(id) && !(event matches PeerEvent::SessionClosed {
                        peer_id,
                    } && peer_id@ == id)
                }
                &&& event matches PeerEvent::SessionEstablished(info) ==> (info.peer_id@ == id
                    ==> final(handler)@[id] == info.client_version@)
                &&& final(handler)@.contains_key(id) && !(event matches
                    PeerEvent::SessionEstablished(info) && info.peer_id@ == id)
                    ==> final(handler)@[id] == (*handler)@[id]
                &&& update is Some <==> event is SessionEstablished || event is SessionClosed
                &&& update matches Some(message) ==> (message matches UiUpdate::PeerUpdate(data)
                    && lists_exactly(peer_entries(data.connected_peers@), final(handler)@))
            },
{
}

/// That a session is active changes nothing and is not answered.
pub proof fn law_active_sessions_change_nothing(peer_id: PeerId, update: Option<UiUpdate>)
    ensures
        forall|handler: &mut EthP2PHandler| #[trigger]
            call_ensures(
                EthP2PHandler::handle_network_event_wrapper,
                (handler, NetworkEvent::ActivePeerSession { peer_id }),
                update,
            ) ==> final(handler)@ == (*handler)@ && update is None,
{
}

} // verus!
