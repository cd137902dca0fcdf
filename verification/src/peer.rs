//! A peer: who it is, which peers it knows, and how it answers the signaling messages.
//!
//! Handling one message takes several calls into the media stack. The peer says which call comes
//! next, and is told how it went.
use crate::message::{IceCandidateInit, SdpType, SessionDescription, WsExchangeMsg};
use crate::tables::{get_peer_info, insert_peer_info, new_peer_infos};
use dashmap::DashMap;
use vstd::prelude::*;

verus! {

/// What is kept of another peer. The two numbers stand for what only the media stack can hold.
#[derive(Clone, Copy, Debug, PartialEq, Eq, Structural)]
pub struct PeerInfo {
    /// The WebRTC connection.
    pub conn: u64,
    /// The sender that tells the tracks of this peer to start.
    pub start_stream_tx: u64,
}

impl PeerInfo {
    pub fn new(conn: u64, start_stream_tx: u64) -> (info: PeerInfo)
        ensures
            info == (PeerInfo { conn, start_stream_tx }),
    {
        PeerInfo { conn, start_stream_tx }
    }
}

/// The side that a peer takes in a negotiation.
#[derive(Clone, Copy, Debug, PartialEq, Eq, Structural)]
pub enum Role {
    /// It makes the offer.
    Offering,
    /// It answers one.
    Answering,
}

/// What a new connection is for.
#[derive(Clone, Debug, PartialEq, Eq)]
pub enum Plan {
    /// To make an offer.
    Offer,
    /// To answer this offer.
    Answer(SessionDescription),
}

impl Plan {
    pub open spec fn role_spec(self) -> Role {
        match self {
            Plan::Offer => Role::Offering,
            Plan::Answer(_) => Role::Answering,
        }
    }

    /// The side that the plan puts the peer on.
    pub fn role(&self) -> (role: Role)
        ensures
            role == self.role_spec(),
    {
        match self {
            Plan::Offer => Role::Offering,
            Plan::Answer(_) => Role::Answering,
        }
    }
}

/// A call into the media stack or the socket.
#[derive(Clone, Debug, PartialEq, Eq)]
pub enum PeerAction {
    /// Make a connection for this peer, bound to no description yet.
    Connect { peer: u128 },
    /// Add the tracks to the connection of this peer.
    AddMedia { peer: u128, conn: u64 },
    /// Set the remote description of a connection.
    SetRemote { conn: u64, sdp: SessionDescription },
    /// Make an offer on a connection.
    CreateOffer { conn: u64 },
    /// Make an answer on a connection.
    CreateAnswer { conn: u64 },
    /// Set the local description of a connection.
    SetLocal { conn: u64, sdp: SessionDescription },
    /// Ask a connection for its local description.
    QueryLocal { conn: u64 },
    /// Send a message to the signaling server.
    Send { msg: WsExchangeMsg },
    /// Add an ICE candidate to a connection.
    AddCandidate { conn: u64, candidate: IceCandidateInit },
}

/// How such a call went.
#[derive(Clone, Debug, PartialEq, Eq)]
pub enum PeerReply {
    /// There is a connection, with this number.
    Connected(u64),
    /// The tracks are added, and this sender starts them.
    MediaAdded(u64),
    /// Here is the description.
    Described(SessionDescription),
    /// There is no local description.
    Undescribed,
    /// It is done.
    Done,
    /// It failed.
    Failed,
}

/// Where the handling of a message stands, between a call and its outcome.
#[derive(Clone, Debug, PartialEq, Eq)]
pub enum PeerStage {
    Connecting { peer: u128, plan: Plan },
    AddingMedia { peer: u128, conn: u64, plan: Plan },
    SettingRemote { peer: u128, info: PeerInfo },
    CreatingDescription { role: Role, peer: u128, conn: u64 },
    SettingLocal { role: Role, peer: u128, conn: u64 },
    QueryingLocal { role: Role, peer: u128, conn: u64 },
    Sending { role: Role, peer: u128 },
    ApplyingAnswer { peer: u128 },
    AddingCandidate { peer: u128 },
}

/// Why a message could not be handled.
#[derive(Clone, Debug, PartialEq, Eq)]
pub enum PeerError {
    /// No connection could be made.
    Connect { role: Role, peer: u128 },
    /// The tracks could not be added.
    AddMedia { role: Role, peer: u128 },
    /// The other peer's description was not accepted.
    SetRemote { role: Role, peer: u128 },
    /// No offer or answer could be made.
    CreateDescription { role: Role, peer: u128 },
    /// The own description was not accepted.
    SetLocal { role: Role, peer: u128 },
    /// The connection has no local description.
    NoLocalDescription { role: Role, peer: u128 },
    /// The offer or answer could not be sent.
    Send { role: Role, peer: u128 },
    /// A session description for somebody else.
    MisdirectedSdp { to_id: u128 },
    /// An offer from a peer that is known already.
    Renegotiation { from_id: u128 },
    /// An answer from a peer that is not known.
    UnknownAnswerer { from_id: u128 },
    /// A candidate for somebody else.
    MisdirectedCandidate { to_id: u128 },
    /// A candidate from a peer that is not known.
    UnknownCandidatePeer { from_id: u128 },
    /// The candidate was not accepted.
    AddCandidate { peer: u128 },
    /// A greeting for a peer that has joined already.
    Unexpected { id: u128 },
}

/// A text about a peer.
fn about(before: &str, id: u128, after: &str) -> (text: String)
    ensures
        text@ == before@ + crate::ids::hyphenated(id) + after@,
{
    before.to_owned().concat(crate::ids::id_text(id).as_str()).concat(after)
}

impl PeerError {
    /// The text of an error.
    pub open spec fn text_spec(self) -> Seq<char> {
        match self {
            PeerError::Connect { role: Role::Offering, peer } => {
                "Cannot add new peer "@ + crate::ids::hyphenated(peer)
            },
            PeerError::AddMedia { role: Role::Offering, peer } => {
                "Cannot add media to "@ + crate::ids::hyphenated(peer)
            },
            PeerError::SetRemote { role: Role::Offering, peer } => {
                "Cannot set remote description for connection to "@ + crate::ids::hyphenated(peer)
            },
            PeerError::CreateDescription { role: Role::Offering, peer } => {
                "Cannot create offer for "@ + crate::ids::hyphenated(peer)
            },
            PeerError::SetLocal { role: Role::Offering, peer } => {
                "Cannot set local description for peer connection with "@
                    + crate::ids::hyphenated(peer)
            },
            PeerError::NoLocalDescription { role: Role::Offering, peer } => {
                "Cannot query local description for connection to "@ + crate::ids::hyphenated(peer)
            },
            PeerError::Send { role: Role::Offering, peer } => {
                "Cannot send offer to "@ + crate::ids::hyphenated(peer)
            },
            PeerError::Send { role: Role::Answering, peer } => {
                "Cannot send answer to "@ + crate::ids::hyphenated(peer)
            },
            PeerError::Connect { role: Role::Answering, .. } => "Receive and handle SDP offer"@,
            PeerError::AddMedia { role: Role::Answering, .. } => "Receive and handle SDP offer"@,
            PeerError::SetRemote { role: Role::Answering, .. } => "Receive and handle SDP offer"@,
            PeerError::CreateDescription { role: Role::Answering, .. } => {
                "Receive and handle SDP offer"@
            },
            PeerError::SetLocal { role: Role::Answering, .. } => "Receive and handle SDP offer"@,
            PeerError::NoLocalDescription { role: Role::Answering, .. } => {
                "Receive and handle SDP offer"@
            },
            PeerError::MisdirectedSdp { to_id } => {
                "Received SDP destined to "@ + crate::ids::hyphenated(to_id)
            },
            PeerError::Renegotiation { from_id } => {
                "SDP offer: we don't support re-negotiation yet! From "@
                    + crate::ids::hyphenated(from_id)
            },
            PeerError::UnknownAnswerer { .. } => "Receive and handle answer"@,
            PeerError::MisdirectedCandidate { to_id } => {
                "Received ICE candidate destined to "@ + crate::ids::hyphenated(to_id)
            },
            PeerError::UnknownCandidatePeer { from_id } => {
                "ICE candidate: Peer "@ + crate::ids::hyphenated(from_id) + " doesn't exist (yet)"@
            },
            PeerError::AddCandidate { peer } => {
                "Cannot add ICE candidate from "@ + crate::ids::hyphenated(peer)
            },
            PeerError::Unexpected { id } => {
                "Unexpected message: JoinPeerId("@ + crate::ids::hyphenated(id) + ")"@
            },
        }
    }

    /// What an error was in more detail, where its text tells only what was being done.
    pub open spec fn reason_spec(self) -> Option<Seq<char>> {
        match self {
            PeerError::Connect { role: Role::Answering, peer } => {
                Some("Cannot create empty peer connection for "@ + crate::ids::hyphenated(peer))
            },
            PeerError::AddMedia { role: Role::Answering, peer } => {
                Some("Cannot add media to connection with "@ + crate::ids::hyphenated(peer))
            },
            PeerError::SetRemote { role: Role::Answering, peer } => {
                Some("Cannot set remote description from "@ + crate::ids::hyphenated(peer))
            },
            PeerError::SetRemote { role: Role::Offering, .. } => Some("Receive and handle answer"@),
            PeerError::CreateDescription { role: Role::Answering, peer } => {
                Some("Cannot create answer for "@ + crate::ids::hyphenated(peer))
            },
            PeerError::SetLocal { role: Role::Answering, peer } => {
                Some("Cannot set local description for connection to "@
                    + crate::ids::hyphenated(peer))
            },
            PeerError::NoLocalDescription { role: Role::Answering, peer } => {
                Some("Cannot query local description for connection to "@
                    + crate::ids::hyphenated(peer))
            },
            PeerError::UnknownAnswerer { from_id } => {
                Some("Peer "@ + crate::ids::hyphenated(from_id) + " doesn't exist (yet)"@)
            },
            _ => None,
        }
    }

    /// The text of this error.
    pub fn text(&self) -> (text: String)
        ensures
            text@ == self.text_spec(),
    {
        proof {
            reveal_strlit("");
        }
        let text: String = match self {
            PeerError::Connect { role: Role::Offering, peer } => {
                about("Cannot add new peer ", *peer, "")
            },
            PeerError::AddMedia { role: Role::Offering, peer } => {
                about("Cannot add media to ", *peer, "")
            },
            PeerError::SetRemote { role: Role::Offering, peer } => {
                about("Cannot set remote description for connection to ", *peer, "")
            },
            PeerError::CreateDescription { role: Role::Offering, peer } => {
                about("Cannot create offer for ", *peer, "")
            },
            PeerError::SetLocal { role: Role::Offering, peer } => {
                about("Cannot set local description for peer connection with ", *peer, "")
            },
            PeerError::NoLocalDescription { role: Role::Offering, peer } => {
                about("Cannot query local description for connection to ", *peer, "")
            },
            PeerError::Send { role: Role::Offering, peer } => {
                about("Cannot send offer to ", *peer, "")
            },
            PeerError::Send { role: Role::Answering, peer } => {
                about("Cannot send answer to ", *peer, "")
            },
            PeerError::Connect { role: Role::Answering, .. } => {
                "Receive and handle SDP offer".to_owned()
            },
            PeerError::AddMedia { role: Role::Answering, .. } => {
                "Receive and handle SDP offer".to_owned()
            },
            PeerError::SetRemote { role: Role::Answering, .. } => {
                "Receive and handle SDP offer".to_owned()
            },
            PeerError::CreateDescription { role: Role::Answering, .. } => {
                "Receive and handle SDP offer".to_owned()
            },
            PeerError::SetLocal { role: Role::Answering, .. } => {
                "Receive and handle SDP offer".to_owned()
            },
            PeerError::NoLocalDescription { role: Role::Answering, .. } => {
                "Receive and handle SDP offer".to_owned()
            },
            PeerError::MisdirectedSdp { to_id } => about("Received SDP destined to ", *to_id, ""),
            PeerError::Renegotiation { from_id } => {
                about("SDP offer: we don't support re-negotiation yet! From ", *from_id, "")
            },
            PeerError::UnknownAnswerer { .. } => "Receive and handle answer".to_owned(),
            PeerError::MisdirectedCandidate { to_id } => {
                about("Received ICE candidate destined to ", *to_id, "")
            },
            PeerError::UnknownCandidatePeer { from_id } => {
                about("ICE candidate: Peer ", *from_id, " doesn't exist (yet)")
            },
            PeerError::AddCandidate { peer } => about("Cannot add ICE candidate from ", *peer, ""),
            PeerError::Unexpected { id } => about("Unexpected message: JoinPeerId(", *id, ")"),
        };
        assert(text@ =~= self.text_spec());
        text
    }

    /// What this error was in more detail, where its text tells only what was being done.
    pub fn reason(&self) -> (reason: Option<String>)
        ensures
            reason is Some <==> self.reason_spec() is Some,
            reason matches Some(reason) ==> reason@ == self.reason_spec().unwrap(),
    {
        proof {
            reveal_strlit("");
        }
        let reason: Option<String> = match self {
            PeerError::Connect { role: Role::Answering, peer } => {
                Some(about("Cannot create empty peer connection for ", *peer, ""))
            },
            PeerError::AddMedia { role: Role::Answering, peer } => {
                Some(about("Cannot add media to connection with ", *peer, ""))
            },
            PeerError::SetRemote { role: Role::Answering, peer } => {
                Some(about("Cannot set remote description from ", *peer, ""))
            },
            PeerError::SetRemote { role: Role::Offering, .. } => {
                Some("Receive and handle answer".to_owned())
            },
            PeerError::CreateDescription { role: Role::Answering, peer } => {
                Some(about("Cannot create answer for ", *peer, ""))
            },
            PeerError::SetLocal { role: Role::Answering, peer } => {
                Some(about("Cannot set local description for connection to ", *peer, ""))
            },
            PeerError::NoLocalDescription { role: Role::Answering, peer } => {
                Some(about("Cannot query local description for connection to ", *peer, ""))
            },
            PeerError::UnknownAnswerer { from_id } => {
                Some(about("Peer ", *from_id, " doesn't exist (yet)"))
            },
            _ => None,
        };
        assert(reason matches Some(reason) ==> reason@ =~= self.reason_spec().unwrap());
        reason
    }
}

/// What the handling of a message came to.
#[derive(Clone, Copy, Debug, PartialEq, Eq, Structural)]
pub enum PeerOutcome {
    /// An offer was sent.
    Offered { peer: u128 },
    /// An answer was sent.
    Answered { peer: u128 },
    /// The answer of the other peer is set.
    Agreed { peer: u128 },
    /// The candidate of the other peer is added.
    CandidateAdded { peer: u128 },
    /// The other peer left. It stays known.
    PeerLeft { peer: u128 },
    /// A session description of a type that is not handled.
    UnsupportedSdp { sdp_type: SdpType },
}

/// What comes next.
#[derive(Clone, Debug, PartialEq, Eq)]
pub enum PeerStep {
    /// Make this call, and resume from the stage with its outcome.
    Perform { stage: PeerStage, action: PeerAction },
    /// The message is handled.
    Finished(PeerOutcome),
    /// The message could not be handled.
    Failed(PeerError),
}

/// A peer: its identifier, and what is kept of each peer that it knows.
#[verifier::ext_equal]
pub struct PeerView {
    pub self_id: u128,
    pub others: Map<u128, PeerInfo>,
}

/// The peer that the first message of the server makes: it knows nobody.
pub open spec fn joined(first: WsExchangeMsg) -> Option<PeerView> {
    match first {
        WsExchangeMsg::JoinPeerId(id) => Some(PeerView { self_id: id, others: Map::empty() }),
        _ => None,
    }
}

/// The message that a peer sends last.
pub open spec fn parting(state: PeerView) -> WsExchangeMsg {
    WsExchangeMsg::LeavePeerId(state.self_id)
}

/// The first step for a session description.
pub open spec fn sdp_start(
    state: PeerView,
    from_id: u128,
    to_id: u128,
    sdp: SessionDescription,
) -> PeerStep {
    if to_id != state.self_id {
        PeerStep::Failed(PeerError::MisdirectedSdp { to_id })
    } else {
        match sdp.sdp_type {
            SdpType::Offer => if state.others.contains_key(from_id) {
                PeerStep::Failed(PeerError::Renegotiation { from_id })
            } else {
                PeerStep::Perform {
                    stage: PeerStage::Connecting { peer: from_id, plan: Plan::Answer(sdp) },
                    action: PeerAction::Connect { peer: from_id },
                }
            },
            SdpType::Answer => if !state.others.contains_key(from_id) {
                PeerStep::Failed(PeerError::UnknownAnswerer { from_id })
            } else {
                PeerStep::Perform {
                    stage: PeerStage::ApplyingAnswer { peer: from_id },
                    action: PeerAction::SetRemote { conn: state.others[from_id].conn, sdp },
                }
            },
            other => PeerStep::Finished(PeerOutcome::UnsupportedSdp { sdp_type: other }),
        }
    }
}

/// The first step for a message.
pub open spec fn start(state: PeerView, msg: WsExchangeMsg) -> PeerStep {
    match msg {
        WsExchangeMsg::NewPeer(peer) => PeerStep::Perform {
            stage: PeerStage::Connecting { peer, plan: Plan::Offer },
            action: PeerAction::Connect { peer },
        },
        WsExchangeMsg::LeavePeerId(peer) => PeerStep::Finished(PeerOutcome::PeerLeft { peer }),
        WsExchangeMsg::Sdp { from_id, to_id, sdp } => sdp_start(state, from_id, to_id, sdp),
        WsExchangeMsg::IceCandidate { from_id, to_id, candidate } => {
            if to_id != state.self_id {
                PeerStep::Failed(PeerError::MisdirectedCandidate { to_id })
            } else if !state.others.contains_key(from_id) {
                PeerStep::Failed(PeerError::UnknownCandidatePeer { from_id })
            } else {
                PeerStep::Perform {
                    stage: PeerStage::AddingCandidate { peer: from_id },
                    action: PeerAction::AddCandidate { conn: state.others[from_id].conn, candidate },
                }
            }
        },
        WsExchangeMsg::JoinPeerId(id) => PeerStep::Failed(PeerError::Unexpected { id }),
    }
}

impl PeerStage {
    /// The other peer of the message at hand.
    pub open spec fn peer(self) -> u128 {
        match self {
            PeerStage::Connecting { peer, .. } => peer,
            PeerStage::AddingMedia { peer, .. } => peer,
            PeerStage::SettingRemote { peer, .. } => peer,
            PeerStage::CreatingDescription { peer, .. } => peer,
            PeerStage::SettingLocal { peer, .. } => peer,
            PeerStage::QueryingLocal { peer, .. } => peer,
            PeerStage::Sending { peer, .. } => peer,
            PeerStage::ApplyingAnswer { peer } => peer,
            PeerStage::AddingCandidate { peer } => peer,
        }
    }

    /// Whether `reply` is an outcome of the call made in this stage.
    pub open spec fn expects_spec(self, reply: PeerReply) -> bool {
        match self {
            PeerStage::Connecting { .. } => reply is Connected || reply is Failed,
            PeerStage::AddingMedia { .. } => reply is MediaAdded || reply is Failed,
            PeerStage::CreatingDescription { .. } => reply is Described || reply is Failed,
            PeerStage::QueryingLocal { .. } => reply is Described || reply is Undescribed,
            _ => reply is Done || reply is Failed,
        }
    }

    /// Whether `reply` is an outcome of the call made in this stage.
    pub fn expects(&self, reply: &PeerReply) -> (expected: bool)
        ensures
            expected == self.expects_spec(*reply),
    {
        match (self, reply) {
            (PeerStage::Connecting { .. }, PeerReply::Connected(_)) => true,
            (PeerStage::AddingMedia { .. }, PeerReply::MediaAdded(_)) => true,
            (PeerStage::CreatingDescription { .. }, PeerReply::Described(_)) => true,
            (PeerStage::QueryingLocal { .. }, PeerReply::Described(_)) => true,
            (PeerStage::QueryingLocal { .. }, PeerReply::Undescribed) => true,
            (PeerStage::QueryingLocal { .. }, _) => false,
            (_, PeerReply::Failed) => true,
            (PeerStage::SettingRemote { .. }, PeerReply::Done) => true,
            (PeerStage::SettingLocal { .. }, PeerReply::Done) => true,
            (PeerStage::Sending { .. }, PeerReply::Done) => true,
            (PeerStage::ApplyingAnswer { .. }, PeerReply::Done) => true,
            (PeerStage::AddingCandidate { .. }, PeerReply::Done) => true,
            _ => false,
        }
    }
}

/// What a failed call in `stage` comes to.
pub open spec fn failure(stage: PeerStage) -> PeerError {
    match stage {
        PeerStage::Connecting { peer, plan } => PeerError::Connect { role: plan.role_spec(), peer },
        PeerStage::AddingMedia { peer, conn: _, plan } => PeerError::AddMedia {
            role: plan.role_spec(),
            peer,
        },
        PeerStage::SettingRemote { peer, info: _ } => PeerError::SetRemote {
            role: Role::Answering,
            peer,
        },
        PeerStage::CreatingDescription { role, peer, conn: _ } => PeerError::CreateDescription {
            role,
            peer,
        },
        PeerStage::SettingLocal { role, peer, conn: _ } => PeerError::SetLocal { role, peer },
        PeerStage::QueryingLocal { role, peer, conn: _ } => PeerError::NoLocalDescription {
            role,
            peer,
        },
        PeerStage::Sending { role, peer } => PeerError::Send { role, peer },
        PeerStage::ApplyingAnswer { peer } => PeerError::SetRemote { role: Role::Offering, peer },
        PeerStage::AddingCandidate { peer } => PeerError::AddCandidate { peer },
    }
}

/// What follows once the tracks are added: an offering peer keeps the connection and makes its
/// offer, an answering one sets the offer first.
pub open spec fn after_media(
    state: PeerView,
    peer: u128,
    info: PeerInfo,
    plan: Plan,
) -> (PeerView, PeerStep) {
    match plan {
        Plan::Offer => (
            PeerView { others: state.others.insert(peer, info), ..state },
            PeerStep::Perform {
                stage: PeerStage::CreatingDescription {
                    role: Role::Offering,
                    peer,
                    conn: info.conn,
                },
                action: PeerAction::CreateOffer { conn: info.conn },
            },
        ),
        Plan::Answer(sdp) => (
            state,
            PeerStep::Perform {
                stage: PeerStage::SettingRemote { peer, info },
                action: PeerAction::SetRemote { conn: info.conn, sdp },
            },
        ),
    }
}

/// What the outcome `reply` of the call made in `stage` leads to.
pub open spec fn resumed(state: PeerView, stage: PeerStage, reply: PeerReply) -> (
    PeerView,
    PeerStep,
) {
    match (stage, reply) {
        (PeerStage::Connecting { peer, plan }, PeerReply::Connected(conn)) => (
            state,
            PeerStep::Perform {
                stage: PeerStage::AddingMedia { peer, conn, plan },
                action: PeerAction::AddMedia { peer, conn },
            },
        ),
        (
            PeerStage::AddingMedia { peer, conn, plan },
            PeerReply::MediaAdded(start_stream_tx),
        ) => after_media(state, peer, PeerInfo { conn, start_stream_tx }, plan),
        (PeerStage::SettingRemote { peer, info }, PeerReply::Done) => (
            PeerView { others: state.others.insert(peer, info), ..state },
            PeerStep::Perform {
                stage: PeerStage::CreatingDescription {
                    role: Role::Answering,
                    peer,
                    conn: info.conn,
                },
                action: PeerAction::CreateAnswer { conn: info.conn },
            },
        ),
        (
            PeerStage::CreatingDescription { role, peer, conn },
            PeerReply::Described(sdp),
        ) => (
            state,
            PeerStep::Perform {
                stage: PeerStage::SettingLocal { role, peer, conn },
                action: PeerAction::SetLocal { conn, sdp },
            },
        ),
        (PeerStage::SettingLocal { role, peer, conn }, PeerReply::Done) => (
            state,
            PeerStep::Perform {
                stage: PeerStage::QueryingLocal { role, peer, conn },
                action: PeerAction::QueryLocal { conn },
            },
        ),
        (PeerStage::QueryingLocal { role, peer, conn: _ }, PeerReply::Described(sdp)) => (
            state,
            PeerStep::Perform {
                stage: PeerStage::Sending { role, peer },
                action: PeerAction::Send {
                    msg: WsExchangeMsg::Sdp { from_id: state.self_id, to_id: peer, sdp },
                },
            },
        ),
        (PeerStage::Sending { role, peer }, PeerReply::Done) => (
            state,
            PeerStep::Finished(
                match role {
                    Role::Offering => PeerOutcome::Offered { peer },
                    Role::Answering => PeerOutcome::Answered { peer },
                },
            ),
        ),
        (PeerStage::ApplyingAnswer { peer }, PeerReply::Done) => (
            state,
            PeerStep::Finished(PeerOutcome::Agreed { peer }),
        ),
        (PeerStage::AddingCandidate { peer }, PeerReply::Done) => (
            state,
            PeerStep::Finished(PeerOutcome::CandidateAdded { peer }),
        ),
        _ => (state, PeerStep::Failed(failure(stage))),
    }
}

/// A peer of the mesh.
pub struct Peer {
    self_id: u128,
    others: DashMap<u128, PeerInfo>,
}

impl View for Peer {
    type V = PeerView;

    closed spec fn view(&self) -> PeerView {
        PeerView { self_id: self.self_id, others: crate::tables::peer_infos(self.others) }
    }
}

impl Peer {
    /// The peer that the first message of the signaling server makes: it knows nobody, and has
    /// the identifier that the message gives. Any other message is handed back.
    pub fn join(first: WsExchangeMsg) -> (peer: Result<Peer, WsExchangeMsg>)
        ensures
            joined(first) matches Some(state) ==> (peer matches Ok(peer) && peer@ == state),
            joined(first) is None ==> peer == Err::<Peer, WsExchangeMsg>(first),
    {
        match first {
            WsExchangeMsg::JoinPeerId(self_id) => Ok(Peer { self_id, others: new_peer_infos() }),
            other => Err(other),
        }
    }

    /// The identifier of this peer.
    pub fn id(&self) -> (id: u128)
        ensures
            id == self@.self_id,
    {
        self.self_id
    }

    /// What is kept of the peer `id`.
    pub fn info_of(&self, id: u128) -> (info: Option<PeerInfo>)
        ensures
            info == self@.others.get(id),
    {
        get_peer_info(&self.others, id)
    }

    /// The message that a peer sends last.
    pub fn farewell(&self) -> (msg: WsExchangeMsg)
        ensures
            msg == WsExchangeMsg::LeavePeerId(self@.self_id),
            msg == parting(self@),
    {
        WsExchangeMsg::LeavePeerId(self.self_id)
    }

    /// Starts to handle a message.
    pub fn handle_message(&self, msg: WsExchangeMsg) -> (step: PeerStep)
        ensures
            step == start(self@, msg),
    {
        match msg {
            WsExchangeMsg::NewPeer(peer) => PeerStep::Perform {
                stage: PeerStage::Connecting { peer, plan: Plan::Offer },
                action: PeerAction::Connect { peer },
            },
            WsExchangeMsg::LeavePeerId(peer) => PeerStep::Finished(PeerOutcome::PeerLeft { peer }),
            WsExchangeMsg::Sdp { from_id, to_id, sdp } => self.handle_sdp(from_id, to_id, sdp),
            WsExchangeMsg::IceCandidate { from_id, to_id, candidate } => {
                if to_id != self.self_id {
                    return PeerStep::Failed(PeerError::MisdirectedCandidate { to_id });
                }
                match self.info_of(from_id) {
                    None => PeerStep::Failed(PeerError::UnknownCandidatePeer { from_id }),
                    Some(info) => PeerStep::Perform {
                        stage: PeerStage::AddingCandidate { peer: from_id },
                        action: PeerAction::AddCandidate { conn: info.conn, candidate },
                    },
                }
            },
            WsExchangeMsg::JoinPeerId(id) => PeerStep::Failed(PeerError::Unexpected { id }),
        }
    }

    fn handle_sdp(&self, from_id: u128, to_id: u128, sdp: SessionDescription) -> (step: PeerStep)
        ensures
            step == sdp_start(self@, from_id, to_id, sdp),
    {
        if to_id != self.self_id {
            return PeerStep::Failed(PeerError::MisdirectedSdp { to_id });
        }
        match sdp.sdp_type {
            SdpType::Offer => {
                if self.info_of(from_id).is_some() {
                    return PeerStep::Failed(PeerError::Renegotiation { from_id });
                }
                PeerStep::Perform {
                    stage: PeerStage::Connecting { peer: from_id, plan: Plan::Answer(sdp) },
                    action: PeerAction::Connect { peer: from_id },
                }
            },
            SdpType::Answer => match self.info_of(from_id) {
                None => PeerStep::Failed(PeerError::UnknownAnswerer { from_id }),
                Some(info) => PeerStep::Perform {
                    stage: PeerStage::ApplyingAnswer { peer: from_id },
                    action: PeerAction::SetRemote { conn: info.conn, sdp },
                },
            },
            sdp_type => PeerStep::Finished(PeerOutcome::UnsupportedSdp { sdp_type }),
        }
    }

    /// Goes on with a message after the call made in `stage`.
    pub fn resume(&mut self, stage: PeerStage, reply: PeerReply) -> (step: PeerStep)
        requires
            stage.expects_spec(reply),
        ensures
            (final(self)@, step) == resumed(old(self)@, stage, reply),
    {
        match (stage, reply) {
            (PeerStage::Connecting { peer, plan }, PeerReply::Connected(conn)) => {
                PeerStep::Perform {
                    stage: PeerStage::AddingMedia { peer, conn, plan },
                    action: PeerAction::AddMedia { peer, conn },
                }
            },
            (
                PeerStage::AddingMedia { peer, conn, plan },
                PeerReply::MediaAdded(start_stream_tx),
            ) => self.media_added(peer, PeerInfo::new(conn, start_stream_tx), plan),
            (PeerStage::SettingRemote { peer, info }, PeerReply::Done) => {
                insert_peer_info(&mut self.others, peer, info);
                PeerStep::Perform {
                    stage: PeerStage::CreatingDescription {
                        role: Role::Answering,
                        peer,
                        conn: info.conn,
                    },
                    action: PeerAction::CreateAnswer { conn: info.conn },
                }
            },
            (
                PeerStage::CreatingDescription { role, peer, conn },
                PeerReply::Described(sdp),
            ) => PeerStep::Perform {
                stage: PeerStage::SettingLocal { role, peer, conn },
                action: PeerAction::SetLocal { conn, sdp },
            },
            (PeerStage::SettingLocal { role, peer, conn }, PeerReply::Done) => PeerStep::Perform {
                stage: PeerStage::QueryingLocal { role, peer, conn },
                action: PeerAction::QueryLocal { conn },
            },
            (
                PeerStage::QueryingLocal { role, peer, conn: _ },
                PeerReply::Described(sdp),
            ) => PeerStep::Perform {
                stage: PeerStage::Sending { role, peer },
                action: PeerAction::Send {
                    msg: WsExchangeMsg::Sdp { from_id: self.self_id, to_id: peer, sdp },
                },
            },
            (PeerStage::Sending { role, peer }, PeerReply::Done) => PeerStep::Finished(
                match role {
                    Role::Offering => PeerOutcome::Offered { peer },
                    Role::Answering => PeerOutcome::Answered { peer },
                },
            ),
            (PeerStage::ApplyingAnswer { peer }, PeerReply::Done) => PeerStep::Finished(
                PeerOutcome::Agreed { peer },
            ),
            (PeerStage::AddingCandidate { peer }, PeerReply::Done) => PeerStep::Finished(
                PeerOutcome::CandidateAdded { peer },
            ),
            (stage, _) => PeerStep::Failed(Self::failed(stage)),
        }
    }

    fn media_added(&mut self, peer: u128, info: PeerInfo, plan: Plan) -> (step: PeerStep)
        ensures
            (final(self)@, step) == after_media(old(self)@, peer, info, plan),
    {
        match plan {
            Plan::Offer => {
                insert_peer_info(&mut self.others, peer, info);
                PeerStep::Perform {
                    stage: PeerStage::CreatingDescription {
                        role: Role::Offering,
                        peer,
                        conn: info.conn,
                    },
                    action: PeerAction::CreateOffer { conn: info.conn },
                }
            },
            Plan::Answer(sdp) => PeerStep::Perform {
                stage: PeerStage::SettingRemote { peer, info },
                action: PeerAction::SetRemote { conn: info.conn, sdp },
            },
        }
    }

    fn failed(stage: PeerStage) -> (error: PeerError)
        ensures
            error == failure(stage),
    {
        match stage {
            PeerStage::Connecting { peer, plan } => PeerError::Connect { role: plan.role(), peer },
            PeerStage::AddingMedia { peer, conn: _, plan } => PeerError::AddMedia {
                role: plan.role(),
                peer,
            },
            PeerStage::SettingRemote { peer, info: _ } => PeerError::SetRemote {
                role: Role::Answering,
                peer,
            },
            PeerStage::CreatingDescription { role, peer, conn: _ } => {
                PeerError::CreateDescription { role, peer }
            },
            PeerStage::SettingLocal { role, peer, conn: _ } => PeerError::SetLocal { role, peer },
            PeerStage::QueryingLocal { role, peer, conn: _ } => PeerError::NoLocalDescription {
                role,
                peer,
            },
            PeerStage::Sending { role, peer } => PeerError::Send { role, peer },
            PeerStage::ApplyingAnswer { peer } => PeerError::SetRemote {
                role: Role::Offering,
                peer,
            },
            PeerStage::AddingCandidate { peer } => PeerError::AddCandidate { peer },
        }
    }
}

/// An error in making an offer, or in setting the answer to it, has a text that names the peer.
pub proof fn law_offering_errors_name_the_peer(peer: u128)
    ensures
        (PeerError::Connect { role: Role::Offering, peer }).text_spec() == "Cannot add new peer "@
            + crate::ids::hyphenated(peer),
        (PeerError::Connect { role: Role::Offering, peer }).reason_spec() is None,
        (PeerError::AddMedia { role: Role::Offering, peer }).text_spec() == "Cannot add media to "@
            + crate::ids::hyphenated(peer),
        (PeerError::AddMedia { role: Role::Offering, peer }).reason_spec() is None,
        (PeerError::CreateDescription { role: Role::Offering, peer }).text_spec()
            == "Cannot create offer for "@
            + crate::ids::hyphenated(peer),
        (PeerError::CreateDescription { role: Role::Offering, peer }).reason_spec() is None,
        (PeerError::SetLocal { role: Role::Offering, peer }).text_spec()
            == "Cannot set local description for peer connection with "@
            + crate::ids::hyphenated(peer),
        (PeerError::SetLocal { role: Role::Offering, peer }).reason_spec() is None,
        (PeerError::NoLocalDescription { role: Role::Offering, peer }).text_spec()
            == "Cannot query local description for connection to "@
            + crate::ids::hyphenated(peer),
        (PeerError::NoLocalDescription { role: Role::Offering, peer }).reason_spec() is None,
        (PeerError::Send { role: Role::Offering, peer }).text_spec() == "Cannot send offer to "@
            + crate::ids::hyphenated(peer),
        (PeerError::Send { role: Role::Offering, peer }).reason_spec() is None,
        (PeerError::SetRemote { role: Role::Offering, peer }).text_spec()
            == "Cannot set remote description for connection to "@
            + crate::ids::hyphenated(peer),
        (PeerError::SetRemote { role: Role::Offering, peer }).reason_spec() == Some(
            "Receive and handle answer"@,
        ),
{
}

/// An error in answering an offer has a text that tells what was being done and a reason that names
/// the peer; where only the sending failed, the text names it.
pub proof fn law_answering_errors_name_the_peer(peer: u128)
    ensures
        (PeerError::Connect { role: Role::Answering, peer }).text_spec()
            == "Receive and handle SDP offer"@,
        (PeerError::Connect { role: Role::Answering, peer }).reason_spec() == Some(
            "Cannot create empty peer connection for "@ + crate::ids::hyphenated(peer),
        ),
        (PeerError::AddMedia { role: Role::Answering, peer }).text_spec()
            == "Receive and handle SDP offer"@,
        (PeerError::AddMedia { role: Role::Answering, peer }).reason_spec() == Some(
            "Cannot add media to connection with "@ + crate::ids::hyphenated(peer),
        ),
        (PeerError::SetRemote { role: Role::Answering, peer }).text_spec()
            == "Receive and handle SDP offer"@,
        (PeerError::SetRemote { role: Role::Answering, peer }).reason_spec() == Some(
            "Cannot set remote description from "@ + crate::ids::hyphenated(peer),
        ),
        (PeerError::CreateDescription { role: Role::Answering, peer }).text_spec()
            == "Receive and handle SDP offer"@,
        (PeerError::CreateDescription { role: Role::Answering, peer }).reason_spec() == Some(
            "Cannot create answer for "@ + crate::ids::hyphenated(peer),
        ),
        (PeerError::SetLocal { role: Role::Answering, peer }).text_spec()
            == "Receive and handle SDP offer"@,
        (PeerError::SetLocal { role: Role::Answering, peer }).reason_spec() == Some(
            "Cannot set local description for connection to "@ + crate::ids::hyphenated(peer),
        ),
        (PeerError::NoLocalDescription { role: Role::Answering, peer }).text_spec()
            == "Receive and handle SDP offer"@,
        (PeerError::NoLocalDescription { role: Role::Answering, peer }).reason_spec() == Some(
            "Cannot query local description for connection to "@ + crate::ids::hyphenated(peer),
        ),
        (PeerError::Send { role: Role::Answering, peer }).text_spec() == "Cannot send answer to "@
            + crate::ids::hyphenated(peer),
        (PeerError::Send { role: Role::Answering, peer }).reason_spec() is None,
{
}

/// A message that is refused is reported with the name of its sender, or of the peer that it was
/// for.
pub proof fn law_refused_messages_name_the_peer(peer: u128)
    ensures
        (PeerError::MisdirectedSdp { to_id: peer }).text_spec() == "Received SDP destined to "@
            + crate::ids::hyphenated(peer),
        (PeerError::MisdirectedSdp { to_id: peer }).reason_spec() is None,
        (PeerError::Renegotiation { from_id: peer }).text_spec()
            == "SDP offer: we don't support re-negotiation yet! From "@
            + crate::ids::hyphenated(peer),
        (PeerError::Renegotiation { from_id: peer }).reason_spec() is None,
        (PeerError::MisdirectedCandidate { to_id: peer }).text_spec()
            == "Received ICE candidate destined to "@
            + crate::ids::hyphenated(peer),
        (PeerError::MisdirectedCandidate { to_id: peer }).reason_spec() is None,
        (PeerError::UnknownCandidatePeer { from_id: peer }).text_spec() == "ICE candidate: Peer "@
            + crate::ids::hyphenated(peer) + " doesn't exist (yet)"@,
        (PeerError::UnknownCandidatePeer { from_id: peer }).reason_spec() is None,
        (PeerError::AddCandidate { peer }).text_spec() == "Cannot add ICE candidate from "@
            + crate::ids::hyphenated(peer),
        (PeerError::AddCandidate { peer }).reason_spec() is None,
        (PeerError::Unexpected { id: peer }).text_spec() == "Unexpected message: JoinPeerId("@
            + crate::ids::hyphenated(peer) + ")"@,
        (PeerError::Unexpected { id: peer }).reason_spec() is None,
        (PeerError::UnknownAnswerer { from_id: peer }).text_spec() == "Receive and handle answer"@,
        (PeerError::UnknownAnswerer { from_id: peer }).reason_spec() == Some(
            "Peer "@ + crate::ids::hyphenated(peer) + " doesn't exist (yet)"@,
        ),
{
}

/// A connection that is for an answer puts the peer on the answering side, any other on the
/// offering side.
pub proof fn law_plan_decides_the_side(plan: Plan)
    ensures
        plan.role_spec() == Role::Answering <==> plan is Answer,
        plan.role_spec() == Role::Offering <==> plan is Offer,
{
}

/// However far a message has been handled, a call that fails ends it, and what is kept stays.
pub proof fn law_failure_ends_the_message(state: PeerView, stage: PeerStage)
    ensures
        resumed(state, stage, PeerReply::Failed).0 == state,
        resumed(state, stage, PeerReply::Failed).1 is Failed,
{
}

/// A new connection gets its tracks. Then an offering peer keeps the connection and makes an offer
/// on it; an answering one sets the offer that it got, and only then keeps the connection and makes
/// an answer on it.
pub proof fn law_new_connection_is_set_up_in_order(
    state: PeerView,
    peer: u128,
    info: PeerInfo,
    plan: Plan,
    offer: SessionDescription,
    other: u128,
)
    ensures
        resumed(
            state,
            PeerStage::Connecting { peer, plan },
            PeerReply::Connected(info.conn),
        ) == (
            state,
            PeerStep::Perform {
                stage: PeerStage::AddingMedia { peer, conn: info.conn, plan },
                action: PeerAction::AddMedia { peer, conn: info.conn },
            },
        ),
        ({
            let (kept, step) = resumed(
                state,
                PeerStage::AddingMedia { peer, conn: info.conn, plan: Plan::Offer },
                PeerReply::MediaAdded(info.start_stream_tx),
            );
            &&& kept.self_id == state.self_id
            &&& kept.others.get(peer) == Some(info)
            &&& other != peer ==> kept.others.get(other) == state.others.get(other)
            &&& step == (PeerStep::Perform {
                stage: PeerStage::CreatingDescription {
                    role: Role::Offering,
                    peer,
                    conn: info.conn,
                },
                action: PeerAction::CreateOffer { conn: info.conn },
            })
        }),
        resumed(
            state,
            PeerStage::AddingMedia { peer, conn: info.conn, plan: Plan::Answer(offer) },
            PeerReply::MediaAdded(info.start_stream_tx),
        ) == (
            state,
            PeerStep::Perform {
                stage: PeerStage::SettingRemote { peer, info },
                action: PeerAction::SetRemote { conn: info.conn, sdp: offer },
            },
        ),
        ({
            let (kept, step) = resumed(
                state,
                PeerStage::SettingRemote { peer, info },
                PeerReply::Done,
            );
            &&& kept.self_id == state.self_id
            &&& kept.others.get(peer) == Some(info)
            &&& other != peer ==> kept.others.get(other) == state.others.get(other)
            &&& step == (PeerStep::Perform {
                stage: PeerStage::CreatingDescription {
                    role: Role::Answering,
                    peer,
                    conn: info.conn,
                },
                action: PeerAction::CreateAnswer { conn: info.conn },
            })
        }),
{
}

/// A description that was made is set on its connection, then asked for again, and what the
/// connection gives is sent from this peer to the other. What is kept stays all the while.
pub proof fn law_description_is_set_and_sent(
    state: PeerView,
    role: Role,
    peer: u128,
    conn: u64,
    made: SessionDescription,
    local: SessionDescription,
)
    ensures
        resumed(
            state,
            PeerStage::CreatingDescription { role, peer, conn },
            PeerReply::Described(made),
        ) == (
            state,
            PeerStep::Perform {
                stage: PeerStage::SettingLocal { role, peer, conn },
                action: PeerAction::SetLocal { conn, sdp: made },
            },
        ),
        resumed(state, PeerStage::SettingLocal { role, peer, conn }, PeerReply::Done) == (
            state,
            PeerStep::Perform {
                stage: PeerStage::QueryingLocal { role, peer, conn },
                action: PeerAction::QueryLocal { conn },
            },
        ),
        resumed(
            state,
            PeerStage::QueryingLocal { role, peer, conn },
            PeerReply::Described(local),
        ) == (
            state,
            PeerStep::Perform {
                stage: PeerStage::Sending { role, peer },
                action: PeerAction::Send {
                    msg: WsExchangeMsg::Sdp { from_id: state.self_id, to_id: peer, sdp: local },
                },
            },
        ),
        resumed(
            state,
            PeerStage::Sending { role: Role::Offering, peer },
            PeerReply::Done,
        ) == (state, PeerStep::Finished(PeerOutcome::Offered { peer })),
        resumed(
            state,
            PeerStage::Sending { role: Role::Answering, peer },
            PeerReply::Done,
        ) == (state, PeerStep::Finished(PeerOutcome::Answered { peer })),
        resumed(state, PeerStage::ApplyingAnswer { peer }, PeerReply::Done) == (
            state,
            PeerStep::Finished(PeerOutcome::Agreed { peer }),
        ),
        resumed(state, PeerStage::AddingCandidate { peer }, PeerReply::Done) == (
            state,
            PeerStep::Finished(PeerOutcome::CandidateAdded { peer }),
        ),
{
}

} // verus!
