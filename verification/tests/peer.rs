use mesh_signal::message::{IceCandidateInit, SdpType, SessionDescription, WsExchangeMsg};
use mesh_signal::peer::{
    Peer, PeerAction, PeerError, PeerInfo, PeerOutcome, PeerReply, PeerStage, PeerStep, Plan, Role,
};

fn peer(id: u128) -> Peer {
    match Peer::join(WsExchangeMsg::JoinPeerId(id)) {
        Ok(peer) => peer,
        Err(_) => panic!("the first message was refused"),
    }
}

fn description(sdp_type: SdpType, sdp: &str) -> SessionDescription {
    SessionDescription { sdp_type, sdp: sdp.to_owned() }
}

fn candidate() -> IceCandidateInit {
    IceCandidateInit {
        candidate: "candidate:7".to_owned(),
        sdp_mid: Some(String::new()),
        sdp_mline_index: Some(0),
        username_fragment: None,
        url: None,
    }
}

/// Handles `msg` with these outcomes; returns the calls that were made and the last step.
fn handle(peer: &mut Peer, msg: WsExchangeMsg, replies: Vec<PeerReply>) -> (Vec<PeerAction>, PeerStep) {
    let mut calls: Vec<PeerAction> = Vec::new();
    let mut step = peer.handle_message(msg);
    let mut replies = replies.into_iter();
    loop {
        match step {
            PeerStep::Perform { stage, action } => {
                calls.push(action);
                let reply = match replies.next() {
                    Some(reply) => reply,
                    None => panic!("no outcome left for {stage:?}"),
                };
                assert!(stage.expects(&reply));
                step = peer.resume(stage, reply);
            }
            last => {
                assert!(replies.next().is_none());
                return (calls, last);
            }
        }
    }
}

fn offering(conn: u64, start: u64, local: &SessionDescription) -> Vec<PeerReply> {
    vec![
        PeerReply::Connected(conn),
        PeerReply::MediaAdded(start),
        PeerReply::Described(description(SdpType::Offer, "fresh")),
        PeerReply::Done,
        PeerReply::Described(local.clone()),
        PeerReply::Done,
    ]
}

fn answering(conn: u64, start: u64, local: &SessionDescription) -> Vec<PeerReply> {
    vec![
        PeerReply::Connected(conn),
        PeerReply::MediaAdded(start),
        PeerReply::Done,
        PeerReply::Described(description(SdpType::Answer, "fresh")),
        PeerReply::Done,
        PeerReply::Described(local.clone()),
        PeerReply::Done,
    ]
}

#[test]
fn only_a_greeting_makes_a_peer() {
    let joined = peer(5);
    assert_eq!(joined.id(), 5);
    assert_eq!(joined.info_of(5), None);
    assert_eq!(joined.farewell(), WsExchangeMsg::LeavePeerId(5));
    match Peer::join(WsExchangeMsg::NewPeer(5)) {
        Ok(_) => panic!("joined without a greeting"),
        Err(first) => assert_eq!(first, WsExchangeMsg::NewPeer(5)),
    }
}

#[test]
fn peer_info_holds_both_numbers() {
    let info = PeerInfo::new(3, 4);
    assert_eq!((info.conn, info.start_stream_tx), (3, 4));
}

#[test]
fn plans_have_roles() {
    assert_eq!(Plan::Offer.role(), Role::Offering);
    assert_eq!(Plan::Answer(description(SdpType::Offer, "")).role(), Role::Answering);
}

#[test]
fn a_new_peer_gets_an_offer() {
    let mut me = peer(1);
    let local = description(SdpType::Offer, "local");
    let (calls, last) = handle(&mut me, WsExchangeMsg::NewPeer(2), offering(20, 21, &local));
    assert_eq!(
        calls,
        vec![
            PeerAction::Connect { peer: 2 },
            PeerAction::AddMedia { peer: 2, conn: 20 },
            PeerAction::CreateOffer { conn: 20 },
            PeerAction::SetLocal { conn: 20, sdp: description(SdpType::Offer, "fresh") },
            PeerAction::QueryLocal { conn: 20 },
            PeerAction::Send { msg: WsExchangeMsg::Sdp { from_id: 1, to_id: 2, sdp: local } },
        ]
    );
    assert_eq!(last, PeerStep::Finished(PeerOutcome::Offered { peer: 2 }));
    assert_eq!(me.info_of(2), Some(PeerInfo::new(20, 21)));
}

#[test]
fn an_offer_gets_an_answer() {
    let mut me = peer(2);
    let remote = description(SdpType::Offer, "remote");
    let local = description(SdpType::Answer, "local");
    let msg = WsExchangeMsg::Sdp { from_id: 1, to_id: 2, sdp: remote.clone() };
    let (calls, last) = handle(&mut me, msg, answering(10, 11, &local));
    assert_eq!(
        calls,
        vec![
            PeerAction::Connect { peer: 1 },
            PeerAction::AddMedia { peer: 1, conn: 10 },
            PeerAction::SetRemote { conn: 10, sdp: remote },
            PeerAction::CreateAnswer { conn: 10 },
            PeerAction::SetLocal { conn: 10, sdp: description(SdpType::Answer, "fresh") },
            PeerAction::QueryLocal { conn: 10 },
            PeerAction::Send { msg: WsExchangeMsg::Sdp { from_id: 2, to_id: 1, sdp: local } },
        ]
    );
    assert_eq!(last, PeerStep::Finished(PeerOutcome::Answered { peer: 1 }));
    assert_eq!(me.info_of(1), Some(PeerInfo::new(10, 11)));
}

#[test]
fn two_peers_agree() {
    let mut first = peer(1);
    let mut last = peer(2);
    let offer = description(SdpType::Offer, "offer of 1");
    let answer = description(SdpType::Answer, "answer of 2");
    let (calls, _) = handle(&mut first, WsExchangeMsg::NewPeer(2), offering(20, 21, &offer));
    let sent = match calls.last() {
        Some(PeerAction::Send { msg }) => msg.clone(),
        other => panic!("{other:?}"),
    };
    let (calls, _) = handle(&mut last, sent, answering(10, 11, &answer));
    let sent = match calls.last() {
        Some(PeerAction::Send { msg }) => msg.clone(),
        other => panic!("{other:?}"),
    };
    let (calls, step) = handle(&mut first, sent, vec![PeerReply::Done]);
    assert_eq!(calls, vec![PeerAction::SetRemote { conn: 20, sdp: answer }]);
    assert_eq!(step, PeerStep::Finished(PeerOutcome::Agreed { peer: 2 }));
    assert_eq!(first.info_of(2), Some(PeerInfo::new(20, 21)));
    assert_eq!(last.info_of(1), Some(PeerInfo::new(10, 11)));
}

#[test]
fn offering_can_fail_at_every_call() {
    let local = description(SdpType::Offer, "local");
    let role = Role::Offering;
    let errors = [
        PeerError::Connect { role, peer: 2 },
        PeerError::AddMedia { role, peer: 2 },
        PeerError::CreateDescription { role, peer: 2 },
        PeerError::SetLocal { role, peer: 2 },
        PeerError::NoLocalDescription { role, peer: 2 },
        PeerError::Send { role, peer: 2 },
    ];
    for (k, error) in errors.into_iter().enumerate() {
        let mut me = peer(1);
        let mut replies = offering(20, 21, &local);
        replies.truncate(k);
        replies.push(if k == 4 { PeerReply::Undescribed } else { PeerReply::Failed });
        let (calls, last) = handle(&mut me, WsExchangeMsg::NewPeer(2), replies);
        assert_eq!(calls.len(), k + 1);
        assert_eq!(last, PeerStep::Failed(error));
        let kept = if k < 2 { None } else { Some(PeerInfo::new(20, 21)) };
        assert_eq!(me.info_of(2), kept);
    }
}

#[test]
fn answering_can_fail_at_every_call() {
    let local = description(SdpType::Answer, "local");
    let role = Role::Answering;
    let errors = [
        PeerError::Connect { role, peer: 1 },
        PeerError::AddMedia { role, peer: 1 },
        PeerError::SetRemote { role, peer: 1 },
        PeerError::CreateDescription { role, peer: 1 },
        PeerError::SetLocal { role, peer: 1 },
        PeerError::NoLocalDescription { role, peer: 1 },
        PeerError::Send { role, peer: 1 },
    ];
    for (k, error) in errors.into_iter().enumerate() {
        let mut me = peer(2);
        let mut replies = answering(10, 11, &local);
        replies.truncate(k);
        replies.push(if k == 5 { PeerReply::Undescribed } else { PeerReply::Failed });
        let sdp = description(SdpType::Offer, "remote");
        let (_, last) = handle(&mut me, WsExchangeMsg::Sdp { from_id: 1, to_id: 2, sdp }, replies);
        assert_eq!(last, PeerStep::Failed(error));
        let kept = if k < 3 { None } else { Some(PeerInfo::new(10, 11)) };
        assert_eq!(me.info_of(1), kept);
    }
}

#[test]
fn descriptions_for_others_are_refused() {
    let me = peer(2);
    for sdp_type in [SdpType::Offer, SdpType::Answer, SdpType::Rollback] {
        let sdp = description(sdp_type, "");
        assert_eq!(
            me.handle_message(WsExchangeMsg::Sdp { from_id: 1, to_id: 3, sdp }),
            PeerStep::Failed(PeerError::MisdirectedSdp { to_id: 3 })
        );
    }
}

#[test]
fn a_known_peer_cannot_offer_again() {
    let mut me = peer(1);
    let local = description(SdpType::Offer, "local");
    handle(&mut me, WsExchangeMsg::NewPeer(2), offering(20, 21, &local));
    let sdp = description(SdpType::Offer, "again");
    assert_eq!(
        me.handle_message(WsExchangeMsg::Sdp { from_id: 2, to_id: 1, sdp }),
        PeerStep::Failed(PeerError::Renegotiation { from_id: 2 })
    );
    assert_eq!(me.info_of(2), Some(PeerInfo::new(20, 21)));
}

#[test]
fn a_peer_announced_again_is_replaced() {
    let mut me = peer(1);
    let local = description(SdpType::Offer, "local");
    handle(&mut me, WsExchangeMsg::NewPeer(2), offering(20, 21, &local));
    handle(&mut me, WsExchangeMsg::NewPeer(2), offering(30, 31, &local));
    assert_eq!(me.info_of(2), Some(PeerInfo::new(30, 31)));
}

#[test]
fn answers_need_a_known_peer() {
    let mut me = peer(1);
    let answer = description(SdpType::Answer, "answer");
    let msg = WsExchangeMsg::Sdp { from_id: 2, to_id: 1, sdp: answer };
    assert_eq!(
        me.handle_message(msg.clone()),
        PeerStep::Failed(PeerError::UnknownAnswerer { from_id: 2 })
    );
    let local = description(SdpType::Offer, "local");
    handle(&mut me, WsExchangeMsg::NewPeer(2), offering(20, 21, &local));
    let (_, last) = handle(&mut me, msg, vec![PeerReply::Failed]);
    assert_eq!(last, PeerStep::Failed(PeerError::SetRemote { role: Role::Offering, peer: 2 }));
}

#[test]
fn other_descriptions_are_not_supported() {
    let me = peer(1);
    for sdp_type in [SdpType::Unspecified, SdpType::Pranswer, SdpType::Rollback] {
        let sdp = description(sdp_type, "");
        assert_eq!(
            me.handle_message(WsExchangeMsg::Sdp { from_id: 2, to_id: 1, sdp }),
            PeerStep::Finished(PeerOutcome::UnsupportedSdp { sdp_type })
        );
    }
}

#[test]
fn candidates_go_to_the_connection_of_their_sender() {
    let mut me = peer(1);
    let msg = WsExchangeMsg::IceCandidate { from_id: 2, to_id: 1, candidate: candidate() };
    assert_eq!(
        me.handle_message(msg.clone()),
        PeerStep::Failed(PeerError::UnknownCandidatePeer { from_id: 2 })
    );
    let local = description(SdpType::Offer, "local");
    handle(&mut me, WsExchangeMsg::NewPeer(2), offering(20, 21, &local));
    let (calls, last) = handle(&mut me, msg.clone(), vec![PeerReply::Done]);
    assert_eq!(calls, vec![PeerAction::AddCandidate { conn: 20, candidate: candidate() }]);
    assert_eq!(last, PeerStep::Finished(PeerOutcome::CandidateAdded { peer: 2 }));
    let (_, last) = handle(&mut me, msg, vec![PeerReply::Failed]);
    assert_eq!(last, PeerStep::Failed(PeerError::AddCandidate { peer: 2 }));
    let other = WsExchangeMsg::IceCandidate { from_id: 2, to_id: 9, candidate: candidate() };
    assert_eq!(
        me.handle_message(other),
        PeerStep::Failed(PeerError::MisdirectedCandidate { to_id: 9 })
    );
}

#[test]
fn a_peer_that_left_stays_known() {
    let mut me = peer(1);
    let local = description(SdpType::Offer, "local");
    handle(&mut me, WsExchangeMsg::NewPeer(2), offering(20, 21, &local));
    assert_eq!(
        me.handle_message(WsExchangeMsg::LeavePeerId(2)),
        PeerStep::Finished(PeerOutcome::PeerLeft { peer: 2 })
    );
    assert_eq!(me.info_of(2), Some(PeerInfo::new(20, 21)));
}

#[test]
fn a_second_greeting_is_unexpected() {
    assert_eq!(
        peer(1).handle_message(WsExchangeMsg::JoinPeerId(1)),
        PeerStep::Failed(PeerError::Unexpected { id: 1 })
    );
}

#[test]
fn stages_expect_the_outcome_of_their_call() {
    let stage = PeerStage::QueryingLocal { role: Role::Offering, peer: 1, conn: 1 };
    assert!(stage.expects(&PeerReply::Undescribed));
    assert!(!stage.expects(&PeerReply::Failed));
    let stage = PeerStage::Sending { role: Role::Offering, peer: 1 };
    assert!(stage.expects(&PeerReply::Done));
    assert!(stage.expects(&PeerReply::Failed));
    assert!(!stage.expects(&PeerReply::Connected(1)));
    let stage = PeerStage::Connecting { peer: 1, plan: Plan::Offer };
    assert!(!stage.expects(&PeerReply::Done));
}

const TWO: &str = "00000000-0000-0000-0000-000000000002";

#[test]
fn a_candidate_from_a_stranger_is_reported_by_name() {
    let mut me = peer(1);
    let (calls, last) = handle(
        &mut me,
        WsExchangeMsg::IceCandidate { from_id: 2, to_id: 1, candidate: candidate() },
        vec![],
    );
    assert_eq!(calls, vec![]);
    match last {
        PeerStep::Failed(error) => {
            assert_eq!(
                error.text(),
                "ICE candidate: Peer 00000000-0000-0000-0000-000000000002 doesn't exist (yet)"
            );
            assert_eq!(error.reason(), None);
        }
        other => panic!("{other:?}"),
    }
    assert_eq!(me.info_of(2), None);
}

#[test]
fn errors_while_offering_have_texts() {
    let (role, peer) = (Role::Offering, 2);
    let cases = [
        (PeerError::Connect { role, peer }, "Cannot add new peer "),
        (PeerError::AddMedia { role, peer }, "Cannot add media to "),
        (PeerError::CreateDescription { role, peer }, "Cannot create offer for "),
        (
            PeerError::SetLocal { role, peer },
            "Cannot set local description for peer connection with ",
        ),
        (
            PeerError::NoLocalDescription { role, peer },
            "Cannot query local description for connection to ",
        ),
        (PeerError::Send { role, peer }, "Cannot send offer to "),
    ];
    for (error, text) in cases {
        assert_eq!(error.text(), format!("{text}{TWO}"));
        assert_eq!(error.reason(), None);
    }
    let error = PeerError::SetRemote { role, peer };
    assert_eq!(error.text(), format!("Cannot set remote description for connection to {TWO}"));
    assert_eq!(error.reason(), Some("Receive and handle answer".to_owned()));
}

#[test]
fn errors_while_answering_have_texts() {
    let (role, peer) = (Role::Answering, 2);
    let cases = [
        (PeerError::Connect { role, peer }, "Cannot create empty peer connection for "),
        (PeerError::AddMedia { role, peer }, "Cannot add media to connection with "),
        (PeerError::SetRemote { role, peer }, "Cannot set remote description from "),
        (PeerError::CreateDescription { role, peer }, "Cannot create answer for "),
        (PeerError::SetLocal { role, peer }, "Cannot set local description for connection to "),
        (
            PeerError::NoLocalDescription { role, peer },
            "Cannot query local description for connection to ",
        ),
    ];
    for (error, reason) in cases {
        assert_eq!(error.text(), "Receive and handle SDP offer");
        assert_eq!(error.reason(), Some(format!("{reason}{TWO}")));
    }
    let error = PeerError::Send { role, peer };
    assert_eq!(error.text(), format!("Cannot send answer to {TWO}"));
    assert_eq!(error.reason(), None);
}

#[test]
fn refused_messages_have_texts() {
    let cases = [
        (PeerError::MisdirectedSdp { to_id: 2 }, format!("Received SDP destined to {TWO}")),
        (
            PeerError::Renegotiation { from_id: 2 },
            format!("SDP offer: we don't support re-negotiation yet! From {TWO}"),
        ),
        (
            PeerError::MisdirectedCandidate { to_id: 2 },
            format!("Received ICE candidate destined to {TWO}"),
        ),
        (PeerError::AddCandidate { peer: 2 }, format!("Cannot add ICE candidate from {TWO}")),
        (PeerError::Unexpected { id: 2 }, format!("Unexpected message: JoinPeerId({TWO})")),
    ];
    for (error, text) in cases {
        assert_eq!(error.text(), text);
        assert_eq!(error.reason(), None);
    }
    let error = PeerError::UnknownAnswerer { from_id: 2 };
    assert_eq!(error.text(), "Receive and handle answer");
    assert_eq!(error.reason(), Some(format!("Peer {TWO} doesn't exist (yet)")));
}

/// Lets `me` handle what can come in between: the other peer 2 leaves, sends candidates, an answer
/// that is not accepted and one that is, and a third peer joins.
fn in_between(me: &mut Peer) {
    let answer = description(SdpType::Answer, "answer");
    let sdp = WsExchangeMsg::Sdp { from_id: 2, to_id: 1, sdp: answer };
    let ice = WsExchangeMsg::IceCandidate { from_id: 2, to_id: 1, candidate: candidate() };
    handle(me, ice.clone(), vec![PeerReply::Failed]);
    handle(me, sdp.clone(), vec![PeerReply::Failed]);
    handle(me, sdp, vec![PeerReply::Done]);
    handle(me, ice, vec![PeerReply::Done]);
    handle(me, WsExchangeMsg::NewPeer(3), vec![PeerReply::Failed]);
    handle(me, WsExchangeMsg::NewPeer(2), vec![PeerReply::Failed]);
    handle(me, WsExchangeMsg::LeavePeerId(2), vec![]);
}

#[test]
fn later_offers_are_refused() {
    let offer = description(SdpType::Offer, "offer");
    let sdp = WsExchangeMsg::Sdp { from_id: 2, to_id: 1, sdp: offer.clone() };
    let refused = PeerStep::Failed(PeerError::Renegotiation { from_id: 2 });

    let mut offerer = peer(1);
    handle(&mut offerer, WsExchangeMsg::NewPeer(2), offering(20, 21, &offer));
    in_between(&mut offerer);
    assert_eq!(handle(&mut offerer, sdp.clone(), vec![]), (vec![], refused.clone()));
    assert_eq!(offerer.info_of(2), Some(PeerInfo::new(20, 21)));

    let mut answerer = peer(1);
    let local = description(SdpType::Answer, "local");
    let (_, last) = handle(&mut answerer, sdp.clone(), answering(10, 11, &local));
    assert_eq!(last, PeerStep::Finished(PeerOutcome::Answered { peer: 2 }));
    in_between(&mut answerer);
    assert_eq!(handle(&mut answerer, sdp, vec![]), (vec![], refused));
    assert_eq!(answerer.info_of(2), Some(PeerInfo::new(10, 11)));
    assert_eq!(answerer.id(), 1);
}
