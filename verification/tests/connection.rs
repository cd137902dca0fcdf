use mesh_signal::forward::RtcpForwarder;
use mesh_signal::frame::{convert_message, frame_text, Frame, FrameError};
use mesh_signal::handler::{
    ConnectionState, KeyFrameRequests, LocalCandidate, PictureLoss, TrackKind, UnsendableCandidate,
    WebRtcHandler, KEY_FRAME_INTERVAL_SECS,
};
use mesh_signal::message::{IceCandidateInit, SdpType, SessionDescription, WsExchangeMsg};
use mesh_signal::peer::{Peer, PeerReply, PeerStep};

fn local_candidate() -> LocalCandidate {
    LocalCandidate {
        foundation: "f1".to_owned(),
        priority: 2130706431,
        address: "192.168.0.7".to_owned(),
        protocol: "udp".to_owned(),
        port: 4000,
        typ: "host".to_owned(),
        component: 1,
        related_address: String::new(),
        related_port: 0,
        tcp_type: "unspecified".to_owned(),
    }
}

fn attribute(candidate: &LocalCandidate) -> Result<String, UnsendableCandidate> {
    let handler = WebRtcHandler::new(2, ());
    match handler.on_ice_candidate(1, candidate)? {
        WsExchangeMsg::IceCandidate { from_id, to_id, candidate } => {
            assert_eq!((from_id, to_id), (1, 2));
            assert_eq!(candidate.sdp_mid, Some(String::new()));
            assert_eq!(candidate.sdp_mline_index, Some(0));
            assert_eq!(candidate.username_fragment, None);
            assert_eq!(candidate.url, None);
            Ok(candidate.candidate)
        }
        other => panic!("{other:?}"),
    }
}

/// A peer 1 that knows peer 2 by the connection 20 and the sender 21.
fn acquainted() -> Peer {
    let mut peer = match Peer::join(WsExchangeMsg::JoinPeerId(1)) {
        Ok(peer) => peer,
        Err(_) => panic!("the first message was refused"),
    };
    let mut step = peer.handle_message(WsExchangeMsg::NewPeer(2));
    for reply in [PeerReply::Connected(20), PeerReply::MediaAdded(21), PeerReply::Failed] {
        if let PeerStep::Perform { stage, .. } = step {
            step = peer.resume(stage, reply);
        } else {
            panic!("{step:?}");
        }
    }
    peer
}

#[test]
fn handlers_hold_what_they_are_made_of() {
    let handler = WebRtcHandler::new(7, "out");
    assert_eq!(handler.other_peer_id, 7);
    assert_eq!(handler.ws_out_tx, "out");
}

#[test]
fn a_host_candidate_is_sent_to_the_other_peer() {
    assert_eq!(
        attribute(&local_candidate()),
        Ok("candidate:f1 1 udp 2130706431 192.168.0.7 4000 typ host".to_owned())
    );
}

#[test]
fn a_reflexive_candidate_names_its_base() {
    let candidate = LocalCandidate {
        typ: "srflx".to_owned(),
        related_address: "10.0.0.1".to_owned(),
        related_port: 5000,
        ..local_candidate()
    };
    assert_eq!(
        attribute(&candidate),
        Ok("candidate:f1 1 udp 2130706431 192.168.0.7 4000 typ srflx raddr 10.0.0.1 rport 5000"
            .to_owned())
    );
}

#[test]
fn a_tcp_candidate_names_its_role() {
    let candidate = LocalCandidate {
        protocol: "tcp".to_owned(),
        tcp_type: "passive".to_owned(),
        ..local_candidate()
    };
    assert_eq!(
        attribute(&candidate),
        Ok("candidate:f1 1 tcp 2130706431 192.168.0.7 4000 typ host tcptype passive".to_owned())
    );
}

#[test]
fn a_candidate_without_priority_gets_one() {
    let candidate = LocalCandidate { priority: 0, component: 256, ..local_candidate() };
    let expected = 126u32 * (1 << 24) + 65535 * 256;
    assert_eq!(
        attribute(&candidate),
        Ok(format!("candidate:f1 256 udp {expected} 192.168.0.7 4000 typ host"))
    );
}

#[test]
fn unusable_candidates_are_not_sent() {
    let unknown = LocalCandidate { typ: "Unspecified".to_owned(), ..local_candidate() };
    assert_eq!(attribute(&unknown), Err(UnsendableCandidate));
    let nowhere = LocalCandidate { address: "nowhere".to_owned(), ..local_candidate() };
    assert_eq!(attribute(&nowhere), Err(UnsendableCandidate));
    let carrier = LocalCandidate { protocol: "Unspecified".to_owned(), ..local_candidate() };
    assert_eq!(attribute(&carrier), Err(UnsendableCandidate));
}

#[test]
fn a_candidate_that_no_priority_can_be_computed_for_is_not_sent() {
    let high = LocalCandidate { priority: 0, component: 257, ..local_candidate() };
    assert_eq!(attribute(&high), Err(UnsendableCandidate));
    let malformed = LocalCandidate { address: "nowhere".to_owned(), ..high.clone() };
    assert_eq!(attribute(&malformed), Err(UnsendableCandidate));
    let with_priority = LocalCandidate { priority: 7, ..high };
    assert_eq!(
        attribute(&with_priority),
        Ok("candidate:f1 257 udp 7 192.168.0.7 4000 typ host".to_owned())
    );
}

#[test]
fn candidate_messages_carry_the_candidate() {
    let init = IceCandidateInit {
        candidate: "candidate:x".to_owned(),
        sdp_mid: None,
        sdp_mline_index: None,
        username_fragment: Some("u".to_owned()),
        url: None,
    };
    assert_eq!(
        WebRtcHandler::new(2, 0u8).candidate_message(1, init.clone()),
        WsExchangeMsg::IceCandidate { from_id: 1, to_id: 2, candidate: init }
    );
}

#[test]
fn key_frames_are_requested_on_video_tracks() {
    let handler = WebRtcHandler::new(2, ());
    let plan = handler.on_track(TrackKind::Video, &vec![77, 78], 5);
    assert_eq!(plan.media_ssrc, 77);
    let packet = PictureLoss { sender_ssrc: 5, media_ssrc: 77 };
    let mut requests = plan.key_frames.unwrap();
    assert_eq!(requests, KeyFrameRequests { packet, stopped: false });
    assert_eq!(requests.next(), Some(packet));
    requests.sent(true);
    assert_eq!(requests.next(), Some(packet));
    requests.sent(false);
    assert_eq!(requests.next(), None);
    requests.sent(true);
    assert_eq!(requests.next(), None);
    assert_eq!(KEY_FRAME_INTERVAL_SECS, 3);
    for kind in [TrackKind::Audio, TrackKind::Unspecified] {
        let plan = handler.on_track(kind, &vec![77], 5);
        assert_eq!((plan.media_ssrc, plan.key_frames), (77, None));
    }
}

#[test]
fn only_a_connected_known_peer_starts_the_stream() {
    let peer = acquainted();
    let handler = WebRtcHandler::new(2, ());
    assert_eq!(handler.on_connection_state_change(&peer, ConnectionState::Connected), Some(21));
    for state in [
        ConnectionState::Unspecified,
        ConnectionState::New,
        ConnectionState::Connecting,
        ConnectionState::Disconnected,
        ConnectionState::Failed,
        ConnectionState::Closed,
    ] {
        assert_eq!(handler.on_connection_state_change(&peer, state), None);
    }
    let stranger = WebRtcHandler::new(3, ());
    assert_eq!(stranger.on_connection_state_change(&peer, ConnectionState::Connected), None);
}

#[test]
fn frames_have_text() {
    let text = |frame: Frame| frame_text(&frame);
    assert_eq!(text(Frame::Text("h\u{e9}".to_owned())), Ok("h\u{e9}".to_owned()));
    assert_eq!(text(Frame::Binary(vec![0x68, 0xc3, 0xa9])), Ok("h\u{e9}".to_owned()));
    assert_eq!(text(Frame::Ping(vec![0x61])), Ok("a".to_owned()));
    assert_eq!(text(Frame::Pong(vec![])), Ok(String::new()));
    assert_eq!(text(Frame::Close(None)), Ok(String::new()));
    assert_eq!(text(Frame::Close(Some((1000, "bye".to_owned())))), Ok("bye".to_owned()));
}

#[test]
fn bytes_that_are_no_text_are_refused() {
    for bytes in [vec![0xffu8], vec![0xc3], vec![0xed, 0xa0, 0x80], vec![0xc0, 0x80]] {
        assert_eq!(frame_text(&Frame::Binary(bytes.clone())), Err(FrameError::NotText));
        assert_eq!(frame_text(&Frame::Ping(bytes.clone())), Err(FrameError::NotText));
        assert_eq!(frame_text(&Frame::Pong(bytes)), Err(FrameError::NotText));
    }
}

#[test]
fn what_a_socket_brings_is_converted() {
    assert_eq!(convert_message(None), Err(FrameError::WebSocket));
    assert_eq!(convert_message(Some(Frame::Text("{}".to_owned()))), Ok("{}".to_owned()));
    assert_eq!(convert_message(Some(Frame::Binary(vec![0xff]))), Err(FrameError::NotText));
}

#[test]
fn frame_errors_have_texts() {
    assert_eq!(FrameError::WebSocket.text(), "WebSocket error");
    assert_eq!(FrameError::NotText.text(), "Converting to text message");
}

#[test]
fn rtcp_packets_keep_their_order() {
    let mut forwarder: RtcpForwarder<u32> = RtcpForwarder::new();
    assert_eq!(forwarder.poll_read(), None);
    for packet in [Some(1), None, Some(2), Some(3)] {
        forwarder.handle_read(packet);
    }
    assert_eq!(forwarder.poll_read(), Some(1));
    forwarder.handle_read(Some(4));
    assert_eq!(forwarder.poll_read(), Some(2));
    assert_eq!(forwarder.poll_read(), Some(3));
    assert_eq!(forwarder.poll_read(), Some(4));
    assert_eq!(forwarder.poll_read(), None);
}

#[test]
fn closing_drops_what_waits() {
    let mut forwarder: RtcpForwarder<&str> = RtcpForwarder::new();
    forwarder.handle_read(Some("a"));
    forwarder.close();
    assert_eq!(forwarder.poll_read(), None);
}

#[test]
fn descriptions_compare_by_type_and_text() {
    let offer = SessionDescription { sdp_type: SdpType::Offer, sdp: "v=0".to_owned() };
    let answer = SessionDescription { sdp_type: SdpType::Answer, sdp: "v=0".to_owned() };
    assert_ne!(offer, answer);
    assert_eq!(offer, offer.clone());
}
