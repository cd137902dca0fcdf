use mesh_signal::message::{SdpType, SessionDescription, WsExchangeMsg};
use mesh_signal::peer::{Peer, PeerAction, PeerError, PeerInfo, PeerReply, PeerStep, Role};
use mesh_signal::registry::Registry;
use mesh_signal::session::{Session, SessionAction, SessionEvent};

/// A server with its peers. The mailbox of the `k`-th peer is `k`.
struct Net {
    registry: Registry,
    sessions: Vec<Session>,
    peers: Vec<Peer>,
    waiting: Vec<(u64, WsExchangeMsg)>,
    links: Vec<(u128, u128)>,
}

fn described(sdp_type: SdpType, peer: u128) -> PeerReply {
    PeerReply::Described(SessionDescription { sdp_type, sdp: format!("to {peer}") })
}

impl Net {
    fn new() -> Net {
        Net {
            registry: Registry::new(),
            sessions: Vec::new(),
            peers: Vec::new(),
            waiting: Vec::new(),
            links: Vec::new(),
        }
    }

    fn join(&mut self) {
        let mailbox = self.peers.len() as u64;
        let addr = (4, 1, mailbox as u16, 0, 0);
        let mut session = Session::open(&mut self.registry, addr, mailbox, 100).unwrap();
        match Peer::join(session.welcome()) {
            Ok(peer) => {
                assert_eq!(peer.id(), session.id);
                self.peers.push(peer);
            }
            Err(first) => panic!("{first:?}"),
        }
        match session.step(&mut self.registry, SessionEvent::WelcomeSent) {
            SessionAction::Announce(notices) => {
                for notice in notices {
                    self.waiting.push((notice.mailbox, notice.msg));
                }
            }
            other => panic!("{other:?}"),
        }
        self.sessions.push(session);
    }

    /// Lets every peer handle what waits for it, all calls succeeding, until nothing waits.
    fn settle(&mut self) {
        while !self.waiting.is_empty() {
            let (mailbox, msg) = self.waiting.remove(0);
            let k = mailbox as usize;
            let mut step = self.peers[k].handle_message(msg);
            let mut kind = SdpType::Offer;
            while let PeerStep::Perform { stage, action } = step {
                let reply = match action {
                    PeerAction::Connect { .. } => PeerReply::Connected(mailbox * 100),
                    PeerAction::AddMedia { peer, .. } => {
                        self.links.push((self.peers[k].id(), peer));
                        PeerReply::MediaAdded(mailbox * 100 + 1)
                    }
                    PeerAction::CreateOffer { conn } => described(SdpType::Offer, conn.into()),
                    PeerAction::CreateAnswer { conn } => {
                        kind = SdpType::Answer;
                        described(SdpType::Answer, conn.into())
                    }
                    PeerAction::QueryLocal { conn } => described(kind, conn.into()),
                    PeerAction::Send { msg } => {
                        let event = SessionEvent::Received(msg.clone());
                        match self.sessions[k].step(&mut self.registry, event) {
                            SessionAction::Forward(delivery) => {
                                assert_eq!(delivery.msg, msg);
                                self.waiting.push((delivery.mailbox, delivery.msg));
                            }
                            other => panic!("{other:?}"),
                        }
                        PeerReply::Done
                    }
                    _ => PeerReply::Done,
                };
                assert!(stage.expects(&reply));
                step = self.peers[k].resume(stage, reply);
            }
            assert!(matches!(step, PeerStep::Finished(_)), "{step:?}");
        }
    }
}

#[test]
fn four_peers_make_a_full_mesh() {
    let mut net = Net::new();
    for _ in 0..4 {
        net.join();
        net.settle();
    }
    for a in &net.peers {
        for b in &net.peers {
            assert_eq!(a.info_of(b.id()).is_some(), a.id() != b.id());
        }
    }
    // Each end made one connection for each link.
    assert_eq!(net.links.len(), 12);
    let mut links = net.links.clone();
    links.sort();
    links.dedup();
    assert_eq!(links.len(), 12);
}

#[test]
fn peers_that_join_at_once_make_a_full_mesh() {
    let mut net = Net::new();
    for _ in 0..3 {
        net.join();
    }
    net.settle();
    for a in &net.peers {
        for b in &net.peers {
            assert_eq!(a.info_of(b.id()).is_some(), a.id() != b.id());
        }
    }
}

#[test]
fn a_failure_with_one_peer_leaves_the_others_alone() {
    let mut net = Net::new();
    net.join();
    net.join();
    net.settle();
    let known = net.peers[1].id();
    let peer = &mut net.peers[0];
    let before = peer.info_of(known);
    assert_eq!(before, Some(PeerInfo::new(0, 1)));
    let mut step = peer.handle_message(WsExchangeMsg::NewPeer(5));
    for reply in [PeerReply::Connected(7), PeerReply::MediaAdded(8), PeerReply::Failed] {
        match step {
            PeerStep::Perform { stage, .. } => step = peer.resume(stage, reply),
            other => panic!("{other:?}"),
        }
    }
    assert_eq!(
        step,
        PeerStep::Failed(PeerError::CreateDescription { role: Role::Offering, peer: 5 })
    );
    assert_eq!(peer.info_of(known), before);
    assert_eq!(peer.info_of(5), Some(PeerInfo::new(7, 8)));
}

#[test]
fn a_connection_removes_its_own_peer_only() {
    let mut net = Net::new();
    for _ in 0..3 {
        net.join();
    }
    let leaver = net.sessions[1];
    let farewell = net.peers[1].farewell();
    assert_eq!(farewell, WsExchangeMsg::LeavePeerId(leaver.id));
    net.sessions[1].step(&mut net.registry, SessionEvent::Received(farewell));
    net.sessions[1].step(&mut net.registry, SessionEvent::Ended);
    assert_eq!(net.registry.mailbox_of(leaver.id), None);
    for k in [0, 2] {
        let session = net.sessions[k];
        assert_eq!(net.registry.mailbox_of(session.id), Some(k as u64));
        assert_eq!(net.registry.resident_of(session.addr), Some(session.id));
    }
}
