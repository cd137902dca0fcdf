use mesh_signal::message::{IceCandidateInit, SdpType, SessionDescription, WsExchangeMsg};
use mesh_signal::registry::{Delivery, Registry};
use mesh_signal::session::{Session, SessionAction, SessionEvent, SessionPhase};
use mesh_signal::tables::PeerAddr;

fn addr(port: u16) -> PeerAddr {
    (4, 0x7f00_0001, port, 0, 0)
}

fn sdp(from_id: u128, to_id: u128) -> WsExchangeMsg {
    WsExchangeMsg::Sdp {
        from_id,
        to_id,
        sdp: SessionDescription { sdp_type: SdpType::Offer, sdp: "v=0".to_owned() },
    }
}

fn candidate(from_id: u128, to_id: u128) -> WsExchangeMsg {
    WsExchangeMsg::IceCandidate {
        from_id,
        to_id,
        candidate: IceCandidateInit {
            candidate: "candidate:1".to_owned(),
            sdp_mid: Some(String::new()),
            sdp_mline_index: Some(0),
            username_fragment: None,
            url: None,
        },
    }
}

fn serving(port: u16, id: u128) -> Session {
    Session { addr: addr(port), id, phase: SessionPhase::Serving }
}

/// Three peers, 1 to 3, at ports 1 to 3, with mailboxes 11 to 13.
fn three_peers() -> Registry {
    let mut registry = Registry::new();
    for k in 1u16..=3 {
        let welcome = registry.enroll(addr(k), u128::from(k), u64::from(k) + 10);
        assert_eq!(welcome, Some(WsExchangeMsg::JoinPeerId(u128::from(k))));
    }
    registry
}

fn sorted(mut notices: Vec<Delivery>) -> Vec<Delivery> {
    notices.sort_by_key(|notice| notice.to);
    notices
}

fn ids(registry: &Registry) -> Vec<u128> {
    let mut ids = registry.peer_ids();
    ids.sort();
    ids
}

fn notice(to: u128, mailbox: u64, msg: WsExchangeMsg) -> Delivery {
    Delivery { to, mailbox, msg }
}

#[test]
fn a_new_registry_is_empty() {
    let registry = Registry::new();
    assert_eq!(registry.mailbox_of(1), None);
    assert_eq!(registry.resident_of(addr(1)), None);
    assert!(registry.peer_ids().is_empty());
    assert!(registry.announce(1).is_empty());
}

#[test]
fn enrolled_peers_are_found() {
    let registry = three_peers();
    assert_eq!(registry.mailbox_of(2), Some(12));
    assert_eq!(registry.resident_of(addr(3)), Some(3));
    assert_eq!(registry.mailbox_of(4), None);
    assert_eq!(ids(&registry), vec![1, 2, 3]);
}

#[test]
fn a_taken_identifier_is_refused() {
    let mut registry = three_peers();
    assert_eq!(registry.enroll(addr(9), 2, 99), None);
    assert_eq!(registry.mailbox_of(2), Some(12));
    assert_eq!(registry.resident_of(addr(9)), None);
}

#[test]
fn an_address_that_joins_again_gets_the_new_peer() {
    let mut registry = three_peers();
    assert!(registry.enroll(addr(1), 4, 14).is_some());
    assert_eq!(registry.resident_of(addr(1)), Some(4));
    assert_eq!(registry.mailbox_of(1), Some(11));
    assert_eq!(registry.remove_peer_addr(addr(1)), Some(14));
    assert_eq!(ids(&registry), vec![1, 2, 3]);
}

#[test]
fn removing_undoes_enrolling() {
    let mut registry = three_peers();
    assert!(registry.enroll(addr(4), 4, 14).is_some());
    assert_eq!(registry.remove_peer_addr(addr(4)), Some(14));
    assert_eq!(ids(&registry), vec![1, 2, 3]);
    assert_eq!(registry.resident_of(addr(4)), None);
    assert_eq!(registry.remove_peer_addr(addr(4)), None);
    assert_eq!(registry.mailbox_of(1), Some(11));
    assert_eq!(registry.resident_of(addr(2)), Some(2));
}

#[test]
fn addresses_differ_in_every_part() {
    let mut registry = Registry::new();
    let plain: PeerAddr = (6, 1, 80, 0, 0);
    let others: [PeerAddr; 5] =
        [(4, 1, 80, 0, 0), (6, 2, 80, 0, 0), (6, 1, 81, 0, 0), (6, 1, 80, 1, 0), (6, 1, 80, 0, 1)];
    assert!(registry.enroll(plain, 1, 1).is_some());
    for other in others {
        assert_eq!(registry.resident_of(other), None);
    }
}

#[test]
fn a_random_identifier_has_version_four() {
    let mut registry = Registry::new();
    let mut seen: Vec<u128> = Vec::new();
    for port in 0..50 {
        let id = Session::open(&mut registry, addr(port), u64::from(port), 10).unwrap().id;
        assert_eq!((id >> 76) & 15, 4);
        assert_eq!((id >> 62) & 3, 2);
        assert_eq!(uuid::Uuid::from_u128(id).get_version_num(), 4);
        assert!(!seen.contains(&id));
        assert_eq!(registry.resident_of(addr(port)), Some(id));
        seen.push(id);
    }
    assert_eq!(registry.peer_ids().len(), 50);
    assert_eq!(Session::open(&mut registry, addr(99), 1, 0), None);
}

#[test]
fn opening_a_session_registers_and_greets() {
    let mut registry = Registry::new();
    let session = Session::open(&mut registry, addr(7), 70, 1).unwrap();
    assert_eq!(session.phase, SessionPhase::Welcoming);
    assert_eq!(session.addr, addr(7));
    assert_eq!(session.welcome(), WsExchangeMsg::JoinPeerId(session.id));
    assert_eq!(registry.mailbox_of(session.id), Some(70));
    assert_eq!(Session::open(&mut registry, addr(8), 80, 0), None);
}

#[test]
fn the_first_free_identifier_is_taken() {
    let mut registry = three_peers();
    assert_eq!(registry.enroll_drawn(addr(4), &vec![2, 1, 7, 3, 8], 14), Some(7));
    assert_eq!(registry.resident_of(addr(4)), Some(7));
    assert_eq!(registry.mailbox_of(7), Some(14));
    assert_eq!(registry.mailbox_of(8), None);

    assert_eq!(registry.enroll_drawn(addr(5), &vec![7, 1, 2], 15), None);
    assert_eq!(registry.enroll_drawn(addr(5), &vec![], 15), None);
    assert_eq!(registry.resident_of(addr(5)), None);
    assert_eq!(registry.mailbox_of(7), Some(14));
    assert_eq!(registry.peer_ids().len(), 4);
}

#[test]
fn a_session_opens_under_the_first_free_identifier() {
    let mut registry = three_peers();
    let session = Session::open_drawn(&mut registry, addr(4), 14, &vec![3, 3, 9]).unwrap();
    assert_eq!(session, Session { addr: addr(4), id: 9, phase: SessionPhase::Welcoming });
    assert_eq!(registry.mailbox_of(9), Some(14));
    assert_eq!(Session::open_drawn(&mut registry, addr(5), 15, &vec![9, 1]), None);
    assert_eq!(registry.resident_of(addr(5)), None);
}

#[test]
fn every_peer_has_an_address() {
    let mut registry = three_peers();
    registry.enroll(addr(4), 4, 14);
    registry.remove_peer_addr(addr(2));
    serving(1, 1).step(&mut registry, SessionEvent::Received(WsExchangeMsg::LeavePeerId(1)));
    serving(3, 3).step(&mut registry, SessionEvent::Received(sdp(3, 4)));
    let mut ids = registry.peer_ids();
    ids.sort();
    assert_eq!(ids, vec![3, 4]);
    for id in ids {
        assert!((1..=4).any(|port| registry.resident_of(addr(port)) == Some(id)));
    }
}

#[test]
fn peers_that_join_at_once_hear_of_each_other() {
    let mut registry = Registry::new();
    let mut a = Session::open_drawn(&mut registry, addr(1), 11, &vec![1]).unwrap();
    let mut b = Session::open_drawn(&mut registry, addr(2), 12, &vec![2]).unwrap();
    assert_eq!(
        a.step(&mut registry, SessionEvent::WelcomeSent),
        SessionAction::Announce(vec![Delivery {
            to: 2,
            mailbox: 12,
            msg: WsExchangeMsg::NewPeer(1),
        }])
    );
    assert_eq!(
        b.step(&mut registry, SessionEvent::WelcomeSent),
        SessionAction::Announce(vec![Delivery {
            to: 1,
            mailbox: 11,
            msg: WsExchangeMsg::NewPeer(2),
        }])
    );
}

#[test]
fn a_greeted_peer_is_announced_to_the_others_only() {
    let mut registry = three_peers();
    let mut session = Session { addr: addr(3), id: 3, phase: SessionPhase::Welcoming };
    match session.step(&mut registry, SessionEvent::WelcomeSent) {
        SessionAction::Announce(notices) => assert_eq!(
            sorted(notices),
            vec![
                notice(1, 11, WsExchangeMsg::NewPeer(3)),
                notice(2, 12, WsExchangeMsg::NewPeer(3))
            ]
        ),
        other => panic!("{other:?}"),
    }
    assert_eq!(session.phase, SessionPhase::Serving);
}

#[test]
fn a_peer_that_cannot_be_greeted_stays_registered() {
    let mut registry = three_peers();
    let mut session = Session { addr: addr(3), id: 3, phase: SessionPhase::Welcoming };
    assert_eq!(session.step(&mut registry, SessionEvent::WelcomeFailed), SessionAction::Abort);
    assert_eq!(session.phase, SessionPhase::Over);
    assert_eq!(registry.mailbox_of(3), Some(13));
}

#[test]
fn every_pair_is_linked_once() {
    let mut registry = Registry::new();
    let mut announced: Vec<(u128, u128)> = Vec::new();
    for k in 1u16..=5 {
        let id = u128::from(k);
        assert!(registry.enroll(addr(k), id, u64::from(k)).is_some());
        for told in registry.announce(id) {
            assert_eq!(told.msg, WsExchangeMsg::NewPeer(id));
            announced.push((told.to, id));
        }
    }
    announced.sort();
    let mut expected: Vec<(u128, u128)> = Vec::new();
    for i in 1..=5u128 {
        for j in (i + 1)..=5 {
            expected.push((i, j));
        }
    }
    assert_eq!(announced, expected);
}

#[test]
fn messages_between_peers_are_forwarded_unchanged() {
    let mut registry = three_peers();
    let mut session = serving(1, 1);
    for msg in [sdp(1, 2), candidate(1, 2)] {
        let action = session.step(&mut registry, SessionEvent::Received(msg.clone()));
        assert_eq!(action, SessionAction::Forward(notice(2, 12, msg)));
    }
    assert_eq!(session, serving(1, 1));
    assert_eq!(ids(&registry), vec![1, 2, 3]);
}

#[test]
fn messages_from_or_to_strangers_are_dropped() {
    let mut registry = three_peers();
    let mut session = serving(1, 1);
    for msg in [sdp(8, 2), candidate(8, 2), sdp(8, 9), candidate(8, 9)] {
        let action = session.step(&mut registry, SessionEvent::Received(msg));
        assert_eq!(action, SessionAction::UnknownSender(8));
    }
    for msg in [sdp(1, 9), candidate(1, 9)] {
        let action = session.step(&mut registry, SessionEvent::Received(msg));
        assert_eq!(action, SessionAction::UnknownRecipient(9));
    }
}

#[test]
fn messages_of_the_server_are_not_taken_from_peers() {
    let mut registry = three_peers();
    let mut session = serving(1, 1);
    for msg in [WsExchangeMsg::JoinPeerId(1), WsExchangeMsg::NewPeer(2)] {
        let action = session.step(&mut registry, SessionEvent::Received(msg.clone()));
        assert_eq!(action, SessionAction::WrongKind(msg));
    }
    assert_eq!(
        session.step(&mut registry, SessionEvent::Unreadable),
        SessionAction::Continue
    );
    assert_eq!(session.phase, SessionPhase::Serving);
}

#[test]
fn a_graceful_leave_is_told_twice() {
    let mut registry = three_peers();
    let mut session = serving(2, 2);
    let expected = vec![
        notice(1, 11, WsExchangeMsg::LeavePeerId(2)),
        notice(3, 13, WsExchangeMsg::LeavePeerId(2)),
    ];
    let leave = SessionEvent::Received(WsExchangeMsg::LeavePeerId(2));
    match session.step(&mut registry, leave) {
        SessionAction::Farewell { dropped, notices } => {
            assert_eq!(dropped, Some(12));
            assert_eq!(sorted(notices), expected);
        }
        other => panic!("{other:?}"),
    }
    assert_eq!(session.phase, SessionPhase::Leaving);
    assert_eq!(ids(&registry), vec![1, 3]);
    assert_eq!(registry.resident_of(addr(2)), None);
    match session.step(&mut registry, SessionEvent::Ended) {
        SessionAction::Close { notices, dropped } => {
            assert_eq!(dropped, None);
            assert_eq!(sorted(notices), expected);
        }
        other => panic!("{other:?}"),
    }
    assert_eq!(session.phase, SessionPhase::Over);
    assert_eq!(ids(&registry), vec![1, 3]);
}

#[test]
fn an_abrupt_leave_is_told_once() {
    let mut registry = three_peers();
    let mut session = serving(2, 2);
    match session.step(&mut registry, SessionEvent::Ended) {
        SessionAction::Close { notices, dropped } => {
            assert_eq!(dropped, Some(12));
            assert_eq!(
                sorted(notices),
                vec![
                    notice(1, 11, WsExchangeMsg::LeavePeerId(2)),
                    notice(3, 13, WsExchangeMsg::LeavePeerId(2)),
                ]
            );
        }
        other => panic!("{other:?}"),
    }
    assert_eq!(ids(&registry), vec![1, 3]);
}

#[test]
fn nobody_can_say_farewell_for_another() {
    let mut registry = three_peers();
    let mut session = serving(2, 2);
    let action =
        session.step(&mut registry, SessionEvent::Received(WsExchangeMsg::LeavePeerId(3)));
    assert_eq!(action, SessionAction::WrongLeaver { expected: 2, got: 3 });
    assert_eq!(ids(&registry), vec![1, 2, 3]);
    let mut stranger = serving(9, 9);
    let action =
        stranger.step(&mut registry, SessionEvent::Received(WsExchangeMsg::LeavePeerId(9)));
    assert_eq!(action, SessionAction::NotRegistered(9));
    assert_eq!(stranger.phase, SessionPhase::Serving);
}

#[test]
fn a_session_expects_what_its_phase_allows() {
    let phases = [
        SessionPhase::Welcoming,
        SessionPhase::Serving,
        SessionPhase::Leaving,
        SessionPhase::Over,
    ];
    let events = [
        SessionEvent::WelcomeSent,
        SessionEvent::WelcomeFailed,
        SessionEvent::Received(WsExchangeMsg::NewPeer(1)),
        SessionEvent::Unreadable,
        SessionEvent::Ended,
    ];
    let expected = [
        [true, true, false, false, false],
        [false, false, true, true, true],
        [false, false, false, false, true],
        [false, false, false, false, false],
    ];
    for (p, phase) in phases.into_iter().enumerate() {
        let session = Session { addr: addr(1), id: 1, phase };
        for (e, event) in events.iter().enumerate() {
            assert_eq!(session.expects(event), expected[p][e]);
        }
    }
}

#[test]
fn routes_of_messages() {
    assert_eq!(sdp(1, 2).route(), Some((1, 2)));
    assert_eq!(candidate(3, 4).route(), Some((3, 4)));
    assert_eq!(WsExchangeMsg::JoinPeerId(1).route(), None);
    assert_eq!(WsExchangeMsg::NewPeer(1).route(), None);
    assert_eq!(WsExchangeMsg::LeavePeerId(1).route(), None);
}
