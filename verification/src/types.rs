//! The messages that go to the user interface.

use crate::analysis::TxAnalysisResult;
use crate::primitives::PeerId;
use std::time::Instant;
use vstd::prelude::*;

verus! {

/// The point in time of std.
#[verifier::external_type_specification]
#[verifier::external_body]
pub struct ExInstant(std::time::Instant);

/// Calls `Instant::now` of std. Nothing is claimed of what the clock says.
#[verifier::external_body]
pub(crate) fn instant_now() -> (now: Instant) {
    Instant::now()
}

/// What is shown of a connected peer.
#[derive(Debug, PartialEq, Eq)]
pub struct PeerInfo {
    pub id: PeerId,
    pub client_version: String,
}

impl Clone for PeerInfo {
    fn clone(&self) -> (r: Self)
        ensures
            r == *self,
    {
        PeerInfo { id: self.id, client_version: self.client_version.clone() }
    }
}

/// The peers that are connected after the list of them has changed.
#[derive(Debug)]
pub struct PeerUpdateData {
    pub connected_peers: Vec<PeerInfo>,
    pub timestamp: Instant,
}

impl Clone for PeerUpdateData {
    fn clone(&self) -> (r: Self)
        ensures
            r.connected_peers@ == self.connected_peers@,
            r.timestamp == self.timestamp,
    {
        let connected_peers = self.connected_peers.clone();
        assert(connected_peers@ =~= self.connected_peers@);
        PeerUpdateData { connected_peers, timestamp: self.timestamp }
    }
}

/// A message to the user interface.
#[derive(Debug)]
pub enum UiUpdate {
    PeerUpdate(PeerUpdateData),
    NewTx(Box<TxAnalysisResult>),
    Shutdown,
}

/// A copy of a peer, and of a list of peers, is no different from what was copied.
pub proof fn law_copies_are_faithful(
    peer: &PeerInfo,
    copied_peer: PeerInfo,
    data: &PeerUpdateData,
    copied_data: PeerUpdateData,
)
    requires
        call_ensures(PeerInfo::clone, (peer,), copied_peer),
        call_ensures(PeerUpdateData::clone, (data,), copied_data),
    ensures
        copied_peer.id@ == peer.id@,
        copied_peer.client_version@ == peer.client_version@,
        copied_data.connected_peers@ == data.connected_peers@,
        copied_data.timestamp == data.timestamp,
{
}

} // verus!
