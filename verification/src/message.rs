//! The messages between the signaling server and the peers.
use vstd::prelude::*;

verus! {

/// What a session description is for.
#[derive(Clone, Copy, Debug, PartialEq, Eq, Structural)]
pub enum SdpType {
    Unspecified,
    Offer,
    Pranswer,
    Answer,
    Rollback,
}

/// A session description: its type and its SDP text.
#[derive(Clone, Debug, PartialEq, Eq)]
pub struct SessionDescription {
    pub sdp_type: SdpType,
    pub sdp: String,
}

/// An ICE candidate as it is sent to the other peer.
#[derive(Clone, Debug, PartialEq, Eq)]
pub struct IceCandidateInit {
    pub candidate: String,
    pub sdp_mid: Option<String>,
    pub sdp_mline_index: Option<u16>,
    pub username_fragment: Option<String>,
    pub url: Option<String>,
}

/// A message over the WebSocket between the signaling server and a peer. There is one channel,
/// and each peer has one SDP offer.
///
/// There is no message to ask to join: opening the WebSocket asks for it.
#[derive(Clone, Debug, PartialEq, Eq)]
pub enum WsExchangeMsg {
    /// The answer of the signaling server to a peer that joins: the identifier of that peer.
    JoinPeerId(u128),
    /// A session description for another peer.
    Sdp { from_id: u128, to_id: u128, sdp: SessionDescription },
    /// When a peer joins, the other peers are told its identifier. They send the server their
    /// offers, which it forwards to the new peer.
    NewPeer(u128),
    /// A peer left.
    LeavePeerId(u128),
    /// An ICE candidate for another peer.
    IceCandidate { from_id: u128, to_id: u128, candidate: IceCandidateInit },
}

impl WsExchangeMsg {
    /// The peers that a message goes from and to, where it is one that goes between two peers.
    pub open spec fn route_spec(self) -> Option<(u128, u128)> {
        match self {
            WsExchangeMsg::Sdp { from_id, to_id, .. } => Some((from_id, to_id)),
            WsExchangeMsg::IceCandidate { from_id, to_id, .. } => Some((from_id, to_id)),
            _ => None,
        }
    }

    /// The peers that this message goes from and to, where it is one that goes between two peers.
    pub fn route(&self) -> (route: Option<(u128, u128)>)
        ensures
            route == self.route_spec(),
    {
        match self {
            WsExchangeMsg::Sdp { from_id, to_id, .. } => Some((*from_id, *to_id)),
            WsExchangeMsg::IceCandidate { from_id, to_id, .. } => Some((*from_id, *to_id)),
            _ => None,
        }
    }
}

/// A description or a candidate goes from its sender to its recipient; no other message goes
/// between two peers.
pub proof fn law_route_is_from_sender_to_recipient(
    from_id: u128,
    to_id: u128,
    sdp: SessionDescription,
    candidate: IceCandidateInit,
    id: u128,
)
    ensures
        (WsExchangeMsg::Sdp { from_id, to_id, sdp }).route_spec() == Some((from_id, to_id)),
        (WsExchangeMsg::IceCandidate { from_id, to_id, candidate }).route_spec() == Some(
            (from_id, to_id),
        ),
        WsExchangeMsg::JoinPeerId(id).route_spec() is None,
        WsExchangeMsg::NewPeer(id).route_spec() is None,
        WsExchangeMsg::LeavePeerId(id).route_spec() is None,
{
}

} // verus!
