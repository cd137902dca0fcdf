//! What a peer does about the events of one of its connections.
use crate::message::{IceCandidateInit, WsExchangeMsg};
use crate::peer::{Peer, PeerView};
use vstd::prelude::*;

verus! {

/// A candidate that the media stack gathered. The protocol, the type and the TCP role are held as
/// text, such as `udp`, `host` and `passive`.
#[derive(Clone, Debug, PartialEq, Eq)]
pub struct LocalCandidate {
    pub foundation: String,
    pub priority: u32,
    pub address: String,
    pub protocol: String,
    pub port: u16,
    pub typ: String,
    pub component: u16,
    pub related_address: String,
    pub related_port: u16,
    pub tcp_type: String,
}

/// A gathered candidate, its text as sequences of characters.
pub struct LocalCandidateView {
    pub foundation: Seq<char>,
    pub priority: u32,
    pub address: Seq<char>,
    pub protocol: Seq<char>,
    pub port: u16,
    pub typ: Seq<char>,
    pub component: u16,
    pub related_address: Seq<char>,
    pub related_port: u16,
    pub tcp_type: Seq<char>,
}

impl View for LocalCandidate {
    type V = LocalCandidateView;

    open spec fn view(&self) -> LocalCandidateView {
        LocalCandidateView {
            foundation: self.foundation@,
            priority: self.priority,
            address: self.address@,
            protocol: self.protocol@,
            port: self.port,
            typ: self.typ@,
            component: self.component,
            related_address: self.related_address@,
            related_port: self.related_port,
            tcp_type: self.tcp_type@,
        }
    }
}

/// `rtc::shared::error::Error`, opaque.
#[verifier::external_type_specification]
#[verifier::external_body]
pub struct ExRtcError(rtc::shared::error::Error);

/// The candidate attribute that `RTCIceCandidate::to_json` makes of a candidate, or nothing where
/// it returns an error.
pub uninterp spec fn candidate_attribute(candidate: LocalCandidateView) -> Option<Seq<char>>;

/// Whether `init` is what a candidate with this attribute is sent as: bound to the first media
/// section by its index, with an empty identifier.
pub open spec fn signals(init: IceCandidateInit, attribute: Seq<char>) -> bool {
    &&& init.candidate@ == attribute
    &&& init.sdp_mid matches Some(mid)
    &&& mid@ == Seq::<char>::empty()
    &&& init.sdp_mline_index == Some(0u16)
    &&& init.username_fragment is None
    &&& init.url is None
}

/// Calls `to_json` of an `rtc::peer_connection::transport::RTCIceCandidate`.
///
/// Claims that the outcome follows from the fields of `LocalCandidate` alone: whether there is
/// an error, and the attribute text. The other fields of the result are the same for every
/// candidate. A candidate without a priority gets one computed from its component number, which
/// must then be one that ICE knows.
#[verifier::external_body]
fn candidate_to_json(candidate: &LocalCandidate) -> (init: Result<
    IceCandidateInit,
    rtc::shared::error::Error,
>)
    requires
        candidate.priority != 0 || candidate.component <= 256,
    ensures
        init is Ok <==> candidate_attribute(candidate@) is Some,
        init matches Ok(init) ==> signals(init, candidate_attribute(candidate@).unwrap()),
{
    let c = candidate.clone();
    let tcp_type = rtc::ice::tcp_type::TcpType::from(c.tcp_type.as_str()).into();
    let protocol = c.protocol.as_str().into();
    let typ = c.typ.as_str().into();
    let (foundation, priority, address, port) = (c.foundation, c.priority, c.address, c.port);
    let (component, related_address, related_port) = (c.component, c.related_address, c.related_port);
    rtc::peer_connection::transport::RTCIceCandidate {
        foundation, priority, address, protocol, port, typ, component, related_address,
        related_port, tcp_type, ..Default::default()
    }.to_json().map(|init| IceCandidateInit {
        candidate: init.candidate, sdp_mid: init.sdp_mid, sdp_mline_index: init.sdp_mline_index,
        username_fragment: init.username_fragment, url: init.url,
    })
}

/// A candidate that cannot be sent to the other peer.
#[derive(Clone, Copy, Debug, PartialEq, Eq, Structural)]
pub struct UnsendableCandidate;

/// What a track carries.
#[derive(Clone, Copy, Debug, PartialEq, Eq, Structural)]
pub enum TrackKind {
    Unspecified,
    Audio,
    Video,
}

/// The state of a connection.
#[derive(Clone, Copy, Debug, PartialEq, Eq, Structural)]
pub enum ConnectionState {
    Unspecified,
    New,
    Connecting,
    Connected,
    Disconnected,
    Failed,
    Closed,
}

/// A picture loss indication: it asks the sender of `media_ssrc` for a key frame.
#[derive(Clone, Copy, Debug, PartialEq, Eq, Structural)]
pub struct PictureLoss {
    pub sender_ssrc: u32,
    pub media_ssrc: u32,
}

/// The time between two requests for a key frame, in seconds.
pub const KEY_FRAME_INTERVAL_SECS: u64 = 3;

/// The repeated request for key frames on a track.
#[derive(Clone, Copy, Debug, PartialEq, Eq, Structural)]
pub struct KeyFrameRequests {
    pub packet: PictureLoss,
    pub stopped: bool,
}

impl KeyFrameRequests {
    /// The packet to send next.
    pub open spec fn next_packet(self) -> Option<PictureLoss> {
        if self.stopped {
            None
        } else {
            Some(self.packet)
        }
    }

    /// The requests after a packet was sent, or was not.
    pub open spec fn after_sending(self, ok: bool) -> KeyFrameRequests {
        KeyFrameRequests { packet: self.packet, stopped: self.stopped || !ok }
    }

    /// The packet to send after the next interval, or nothing once sending has failed.
    pub fn next(&self) -> (packet: Option<PictureLoss>)
        ensures
            packet == if self.stopped {
                None
            } else {
                Some(self.packet)
            },
            packet == self.next_packet(),
    {
        if self.stopped {
            None
        } else {
            Some(self.packet)
        }
    }

    /// Takes how sending the packet went: a failure ends the requests.
    pub fn sent(&mut self, ok: bool)
        ensures
            *final(self) == (KeyFrameRequests {
                packet: old(self).packet,
                stopped: old(self).stopped || !ok,
            }),
            *final(self) == old(self).after_sending(ok),
    {
        if !ok {
            self.stopped = true;
        }
    }
}

/// What to do with a track of the other peer.
#[derive(Clone, Copy, Debug, PartialEq, Eq, Structural)]
pub struct TrackPlan {
    /// The source that the track carries.
    pub media_ssrc: u32,
    /// The requests for key frames, on a video track.
    pub key_frames: Option<KeyFrameRequests>,
}

/// What to do with a track that carries `ssrcs`.
pub open spec fn track_plan(kind: TrackKind, ssrcs: Seq<u32>, own_ssrc: u32) -> TrackPlan {
    TrackPlan {
        media_ssrc: ssrcs[0],
        key_frames: if kind == TrackKind::Video {
            Some(
                KeyFrameRequests {
                    packet: PictureLoss { sender_ssrc: own_ssrc, media_ssrc: ssrcs[0] },
                    stopped: false,
                },
            )
        } else {
            None
        },
    }
}

/// The message that brings a candidate of the peer `self_id` to the peer `other`.
pub open spec fn candidate_for(
    self_id: u128,
    other: u128,
    candidate: IceCandidateInit,
) -> WsExchangeMsg {
    WsExchangeMsg::IceCandidate { from_id: self_id, to_id: other, candidate }
}

/// The sender that starts the tracks, where a connection to the peer `other` comes into `state`.
pub open spec fn started_by(peer: PeerView, other: u128, state: ConnectionState) -> Option<u64> {
    if state == ConnectionState::Connected && peer.others.contains_key(other) {
        Some(peer.others[other].start_stream_tx)
    } else {
        None
    }
}

/// The handler of a connection to another peer.
#[derive(Clone, Debug)]
pub struct WebRtcHandler<S> {
    pub other_peer_id: u128,
    /// Where messages for the other peer go, such as a new ICE candidate of this one.
    pub ws_out_tx: S,
}

impl<S> WebRtcHandler<S> {
    pub fn new(other_peer_id: u128, ws_out_tx: S) -> (handler: WebRtcHandler<S>)
        ensures
            handler == (WebRtcHandler { other_peer_id, ws_out_tx }),
    {
        WebRtcHandler { other_peer_id, ws_out_tx }
    }

    /// The message that brings a candidate of the peer `self_id` to the other peer.
    pub fn candidate_message(&self, self_id: u128, candidate: IceCandidateInit) -> (msg:
        WsExchangeMsg)
        ensures
            msg == (WsExchangeMsg::IceCandidate {
                from_id: self_id,
                to_id: self.other_peer_id,
                candidate,
            }),
            msg == candidate_for(self_id, self.other_peer_id, candidate),
    {
        WsExchangeMsg::IceCandidate { from_id: self_id, to_id: self.other_peer_id, candidate }
    }

    /// Takes a candidate that the peer `self_id` gathered, and returns the message that brings it
    /// to the other peer. A candidate without a priority can only be sent if its component is one
    /// that a priority can be computed from.
    pub fn on_ice_candidate(&self, self_id: u128, candidate: &LocalCandidate) -> (msg: Result<
        WsExchangeMsg,
        UnsendableCandidate,
    >)
        ensures
            msg is Ok <==> candidate_attribute(candidate@) is Some && (candidate.priority != 0
                || candidate.component <= 256),
            msg matches Ok(msg) ==> {
                &&& msg matches WsExchangeMsg::IceCandidate { from_id, to_id, candidate: init }
                &&& from_id == self_id
                &&& to_id == self.other_peer_id
                &&& signals(init, candidate_attribute(candidate@).unwrap())
                &&& msg == candidate_for(self_id, self.other_peer_id, init)
            },
    {
        if candidate.priority == 0 && candidate.component > 256 {
            return Err(UnsendableCandidate);
        }
        match candidate_to_json(candidate) {
            Ok(init) => Ok(self.candidate_message(self_id, init)),
            Err(_) => Err(UnsendableCandidate),
        }
    }

    /// Takes a track of the other peer, whose sources are `ssrcs`. For a video track, key frames
    /// are requested in the name of `own_ssrc`.
    pub fn on_track(&self, kind: TrackKind, ssrcs: &Vec<u32>, own_ssrc: u32) -> (plan: TrackPlan)
        requires
            ssrcs.len() > 0,
        ensures
            plan.media_ssrc == ssrcs[0],
            plan.key_frames == if kind == TrackKind::Video {
                Some(
                    KeyFrameRequests {
                        packet: PictureLoss { sender_ssrc: own_ssrc, media_ssrc: ssrcs[0] },
                        stopped: false,
                    },
                )
            } else {
                None
            },
            plan == track_plan(kind, ssrcs@, own_ssrc),
    {
        let media_ssrc: u32 = ssrcs[0];
        let key_frames: Option<KeyFrameRequests> = if kind == TrackKind::Video {
            Some(
                KeyFrameRequests {
                    packet: PictureLoss { sender_ssrc: own_ssrc, media_ssrc },
                    stopped: false,
                },
            )
        } else {
            None
        };
        TrackPlan { media_ssrc, key_frames }
    }

    /// Takes the new state of the connection, and returns the sender that is to start the tracks:
    /// that of the other peer, once it is connected and known.
    pub fn on_connection_state_change(&self, peer: &Peer, state: ConnectionState) -> (start: Option<
        u64,
    >)
        ensures
            start == if state == ConnectionState::Connected && peer@.others.contains_key(
                self.other_peer_id,
            ) {
                Some(peer@.others[self.other_peer_id].start_stream_tx)
            } else {
                None
            },
            start == started_by(peer@, self.other_peer_id, state),
    {
        if state != ConnectionState::Connected {
            return None;
        }
        match peer.info_of(self.other_peer_id) {
            Some(info) => Some(info.start_stream_tx),
            None => None,
        }
    }
}

/// What is sent of a candidate is its attribute, for the first media section, and nothing more.
pub proof fn law_candidate_is_sent_as_its_attribute(init: IceCandidateInit, attribute: Seq<char>)
    ensures
        signals(init, attribute) <==> init.candidate@ == attribute && init.sdp_mid is Some
            && init.sdp_mid.unwrap()@.len() == 0 && init.sdp_mline_index == Some(0u16)
            && init.username_fragment is None && init.url is None,
{
    if init.sdp_mid is Some && init.sdp_mid.unwrap()@.len() == 0 {
        assert(init.sdp_mid.unwrap()@ =~= Seq::<char>::empty());
    }
}

/// Candidates that are taken for the same agree in all that is known of them.
pub proof fn law_candidates_differ_in_what_is_known(a: LocalCandidate, b: LocalCandidate)
    requires
        a@ == b@,
    ensures
        a.foundation@ == b.foundation@,
        a.priority == b.priority,
        a.address@ == b.address@,
        a.protocol@ == b.protocol@,
        a.port == b.port,
        a.typ@ == b.typ@,
        a.component == b.component,
        a.related_address@ == b.related_address@,
        a.related_port == b.related_port,
        a.tcp_type@ == b.tcp_type@,
{
}

/// The requests after each of the packets was sent, or was not.
pub open spec fn after_all(requests: KeyFrameRequests, outcomes: Seq<bool>) -> KeyFrameRequests
    decreases outcomes.len(),
{
    if outcomes.len() == 0 {
        requests
    } else {
        after_all(requests, outcomes.drop_last()).after_sending(outcomes.last())
    }
}

/// Key frames are requested with the same packet for as long as every one could be sent, and never
/// again after one could not.
pub proof fn law_requests_go_on_until_one_fails(requests: KeyFrameRequests, outcomes: Seq<bool>)
    requires
        requests.next_packet() is Some,
    ensures
        (forall|k: int| 0 <= k < outcomes.len() ==> #[trigger] outcomes[k]) ==> after_all(
            requests,
            outcomes,
        ).next_packet() == requests.next_packet(),
        (exists|k: int| 0 <= k < outcomes.len() && !#[trigger] outcomes[k]) ==> after_all(
            requests,
            outcomes,
        ).next_packet() is None,
    decreases outcomes.len(),
{
    if outcomes.len() > 0 {
        let before = outcomes.drop_last();
        law_requests_go_on_until_one_fails(requests, before);
        if forall|k: int| 0 <= k < outcomes.len() ==> #[trigger] outcomes[k] {
            assert forall|k: int| 0 <= k < before.len() implies #[trigger] before[k] by {
                assert(outcomes[k]);
            }
            assert(outcomes[outcomes.len() - 1]);
        }
        if exists|k: int| 0 <= k < outcomes.len() && !#[trigger] outcomes[k] {
            let k = choose|k: int| 0 <= k < outcomes.len() && !#[trigger] outcomes[k];
            if k < before.len() {
                assert(!before[k]);
            }
        }
    }
}

/// Key frames are requested on video tracks alone, of the first source of the track, in the name of
/// this peer's own.
pub proof fn law_video_tracks_get_key_frames(
    kind: TrackKind,
    first: u32,
    others: Seq<u32>,
    own_ssrc: u32,
)
    ensures
        track_plan(kind, seq![first] + others, own_ssrc).media_ssrc == first,
        kind is Video <==> track_plan(kind, seq![first] + others, own_ssrc).key_frames is Some,
        track_plan(kind, seq![first] + others, own_ssrc).key_frames matches Some(requests)
            ==> requests.next_packet() == Some(
            PictureLoss { sender_ssrc: own_ssrc, media_ssrc: first },
        ),
{
}

/// The stream to a peer is started by the sender that is kept of that very peer, once they are
/// connected; in any other state, or for a peer that is not known, nothing is started.
pub proof fn law_stream_starts_once_connected(
    peer: PeerView,
    other: u128,
    state: ConnectionState,
    start_stream_tx: u64,
)
    ensures
        started_by(peer, other, state) == Some(start_stream_tx) <==> state is Connected && (
        peer.others.get(other) matches Some(info) && info.start_stream_tx == start_stream_tx),
{
}

} // verus!
