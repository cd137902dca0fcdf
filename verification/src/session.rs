//! One connection to the signaling server, from the greeting to the farewell.
//!
//! The server runs a connection as a loop: it tells the session what happened on the socket and
//! does what the session answers.
use crate::message::{IceCandidateInit, SessionDescription, WsExchangeMsg};
use crate::registry::{Delivery, Registry, RegistryView};
use crate::tables::PeerAddr;
use vstd::prelude::*;

verus! {

/// How far a connection has come.
#[derive(Clone, Copy, Debug, PartialEq, Eq, Structural)]
pub enum SessionPhase {
    /// The peer is registered, and its greeting is being sent.
    Welcoming,
    /// Messages are taken from the peer.
    Serving,
    /// The peer said that it leaves.
    Leaving,
    /// Nothing is left to do.
    Over,
}

/// What happened on a connection.
#[derive(Clone, Debug, PartialEq, Eq)]
pub enum SessionEvent {
    /// The greeting was sent.
    WelcomeSent,
    /// The greeting could not be sent.
    WelcomeFailed,
    /// A message came from the peer.
    Received(WsExchangeMsg),
    /// A frame came that could not be read, or that holds no message.
    Unreadable,
    /// The peer or its mailbox is closed, or the peer left.
    Ended,
}

/// What the server does about it.
#[derive(Clone, Debug, PartialEq, Eq)]
pub enum SessionAction {
    /// Tell the others about the new peer, then take messages from the peer.
    Announce(Vec<Delivery>),
    /// Give the connection up as it is.
    Abort,
    /// Pass a message on.
    Forward(Delivery),
    /// Drop a message: its sender is not connected.
    UnknownSender(u128),
    /// Drop a message: its recipient is not connected.
    UnknownRecipient(u128),
    /// Drop a farewell: nobody is registered at this address.
    NotRegistered(u128),
    /// Drop a farewell: it names another peer than the one at this address.
    WrongLeaver { expected: u128, got: u128 },
    /// Drop the mailbox of the peer, tell everybody left that it is gone, and take no more
    /// messages.
    Farewell { dropped: Option<u64>, notices: Vec<Delivery> },
    /// Drop a message that peers do not send.
    WrongKind(WsExchangeMsg),
    /// Go on with the next frame.
    Continue,
    /// Tell the others that the peer is gone, drop its mailbox, and close.
    Close { notices: Vec<Delivery>, dropped: Option<u64> },
}

/// A connection.
#[derive(Clone, Copy, Debug, PartialEq, Eq)]
pub struct Session {
    pub addr: PeerAddr,
    pub id: u128,
    pub phase: SessionPhase,
}

/// What a message from the peer of `pre` does.
pub open spec fn receives(
    pre: Session,
    before: RegistryView,
    msg: WsExchangeMsg,
    post: Session,
    after: RegistryView,
    action: SessionAction,
) -> bool {
    match (msg.route_spec(), msg) {
        (Some((from_id, to_id)), _) => {
            &&& post.phase == pre.phase
            &&& after == before
            &&& action == if !before.mailboxes.contains_key(from_id) {
                SessionAction::UnknownSender(from_id)
            } else if !before.mailboxes.contains_key(to_id) {
                SessionAction::UnknownRecipient(to_id)
            } else {
                SessionAction::Forward(
                    Delivery { to: to_id, mailbox: before.mailboxes[to_id], msg },
                )
            }
        },
        (None, WsExchangeMsg::LeavePeerId(id)) => {
            if !before.residents.contains_key(pre.addr) {
                &&& post.phase == pre.phase
                &&& after == before
                &&& action == SessionAction::NotRegistered(id)
            } else if before.residents[pre.addr] != id {
                &&& post.phase == pre.phase
                &&& after == before
                &&& action == SessionAction::WrongLeaver {
                    expected: before.residents[pre.addr],
                    got: id,
                }
            } else {
                &&& post.phase == SessionPhase::Leaving
                &&& after == before.vacated(pre.addr)
                &&& action matches SessionAction::Farewell { dropped, notices }
                &&& dropped == before.mailbox_at(pre.addr)
                &&& crate::registry::tells_all(
                    notices@,
                    after.mailboxes,
                    None,
                    WsExchangeMsg::LeavePeerId(id),
                )
            }
        },
        _ => {
            &&& post.phase == pre.phase
            &&& after == before
            &&& action == SessionAction::WrongKind(msg)
        },
    }
}

/// What an event does: the session and the record after it, and the action.
pub open spec fn steps(
    pre: Session,
    before: RegistryView,
    event: SessionEvent,
    post: Session,
    after: RegistryView,
    action: SessionAction,
) -> bool {
    &&& post.addr == pre.addr
    &&& post.id == pre.id
    &&& match event {
        SessionEvent::WelcomeSent => {
            &&& post.phase == SessionPhase::Serving
            &&& after == before
            &&& action matches SessionAction::Announce(notices)
            &&& crate::registry::tells_all(
                notices@,
                before.mailboxes,
                Some(pre.id),
                WsExchangeMsg::NewPeer(pre.id),
            )
        },
        SessionEvent::WelcomeFailed => {
            &&& post.phase == SessionPhase::Over
            &&& after == before
            &&& action == SessionAction::Abort
        },
        SessionEvent::Received(msg) => receives(pre, before, msg, post, after, action),
        SessionEvent::Unreadable => {
            &&& post.phase == pre.phase
            &&& after == before
            &&& action == SessionAction::Continue
        },
        SessionEvent::Ended => {
            &&& post.phase == SessionPhase::Over
            &&& after == before.vacated(pre.addr)
            &&& action matches SessionAction::Close { notices, dropped }
            &&& dropped == before.mailbox_at(pre.addr)
            &&& crate::registry::tells_all(
                notices@,
                before.mailboxes,
                Some(pre.id),
                WsExchangeMsg::LeavePeerId(pre.id),
            )
        },
    }
}

/// Whether `session` is what comes of registering the peer at `addr` under the first free one of the
/// identifiers `drawn`, where the record goes from `before` to `after`.
pub open spec fn opens(
    before: RegistryView,
    addr: PeerAddr,
    mailbox: u64,
    drawn: Seq<u128>,
    session: Option<Session>,
    after: RegistryView,
) -> bool {
    match session {
        Some(session) => {
            &&& crate::registry::is_first_free(before.mailboxes, drawn, Some(session.id))
            &&& session.addr == addr
            &&& session.phase == SessionPhase::Welcoming
            &&& after == before.enrolled(addr, session.id, mailbox)
        },
        None => {
            &&& crate::registry::is_first_free(before.mailboxes, drawn, None)
            &&& after == before
        },
    }
}

impl Session {
    /// Whether `event` can happen in the phase of this session.
    pub open spec fn expects_spec(self, event: SessionEvent) -> bool {
        match event {
            SessionEvent::WelcomeSent => self.phase == SessionPhase::Welcoming,
            SessionEvent::WelcomeFailed => self.phase == SessionPhase::Welcoming,
            SessionEvent::Received(_) => self.phase == SessionPhase::Serving,
            SessionEvent::Unreadable => self.phase == SessionPhase::Serving,
            SessionEvent::Ended => self.phase == SessionPhase::Serving || self.phase
                == SessionPhase::Leaving,
        }
    }

    /// Whether `event` can happen in the phase of this session.
    pub fn expects(&self, event: &SessionEvent) -> (expected: bool)
        ensures
            expected == self.expects_spec(*event),
    {
        match event {
            SessionEvent::WelcomeSent => self.phase == SessionPhase::Welcoming,
            SessionEvent::WelcomeFailed => self.phase == SessionPhase::Welcoming,
            SessionEvent::Received(_) => self.phase == SessionPhase::Serving,
            SessionEvent::Unreadable => self.phase == SessionPhase::Serving,
            SessionEvent::Ended => self.phase == SessionPhase::Serving || self.phase
                == SessionPhase::Leaving,
        }
    }

    /// Registers the peer at `addr`, whose mailbox is `mailbox`, under the first of the identifiers
    /// `drawn` that no other peer has.
    ///
    /// Returns the session, or nothing if all of them are taken.
    pub fn open_drawn(
        registry: &mut Registry,
        addr: PeerAddr,
        mailbox: u64,
        drawn: &Vec<u128>,
    ) -> (session: Option<Session>)
        requires
            old(registry)@.wf(),
        ensures
            final(registry)@.wf(),
            opens(old(registry)@, addr, mailbox, drawn@, session, final(registry)@),
    {
        match registry.enroll_drawn(addr, drawn, mailbox) {
            Some(id) => Some(Session { addr, id, phase: SessionPhase::Welcoming }),
            None => None,
        }
    }

    /// Registers the peer at `addr`, whose mailbox is `mailbox`, under the first of `attempts` random
    /// identifiers that no other peer has.
    ///
    /// Returns the session, or nothing if every identifier drawn was taken.
    pub fn open(registry: &mut Registry, addr: PeerAddr, mailbox: u64, attempts: usize) -> (session:
        Option<Session>)
        requires
            old(registry)@.wf(),
        ensures
            final(registry)@.wf(),
            exists|drawn: Seq<u128>|
                crate::registry::random_ids(drawn, attempts as nat) && #[trigger] opens(
                    old(registry)@,
                    addr,
                    mailbox,
                    drawn,
                    session,
                    final(registry)@,
                ),
            session matches Some(session) ==> crate::ids::is_random_id(session.id),
            attempts > 0 && (forall|id: u128| #[trigger]
                old(registry)@.mailboxes.contains_key(id) ==> !crate::ids::is_random_id(id))
                ==> session is Some,
            attempts == 0 ==> session is None,
    {
        let drawn: Vec<u128> = crate::registry::draw_ids(attempts);
        let session: Option<Session> = Session::open_drawn(registry, addr, mailbox, &drawn);
        proof {
            if attempts > 0 {
                assert(crate::ids::is_random_id(drawn@[0]));
            }
        }
        session
    }

    /// The message that greets the peer.
    pub open spec fn greeting(self) -> WsExchangeMsg {
        WsExchangeMsg::JoinPeerId(self.id)
    }

    /// The message that greets the peer.
    pub fn welcome(&self) -> (msg: WsExchangeMsg)
        ensures
            msg == WsExchangeMsg::JoinPeerId(self.id),
            msg == self.greeting(),
    {
        WsExchangeMsg::JoinPeerId(self.id)
    }

    /// Takes what happened on the connection and says what to do about it.
    pub fn step(&mut self, registry: &mut Registry, event: SessionEvent) -> (action: SessionAction)
        requires
            old(registry)@.wf(),
            old(self).expects_spec(event),
        ensures
            final(registry)@.wf(),
            steps(*old(self), old(registry)@, event, *final(self), final(registry)@, action),
    {
        match event {
            SessionEvent::WelcomeSent => {
                self.phase = SessionPhase::Serving;
                SessionAction::Announce(registry.announce(self.id))
            },
            SessionEvent::WelcomeFailed => {
                self.phase = SessionPhase::Over;
                SessionAction::Abort
            },
            SessionEvent::Received(msg) => self.receive(registry, msg),
            SessionEvent::Unreadable => SessionAction::Continue,
            SessionEvent::Ended => {
                self.phase = SessionPhase::Over;
                let notices: Vec<Delivery> = registry.announce_leaving(self.id);
                let dropped: Option<u64> = registry.remove_peer_addr(self.addr);
                SessionAction::Close { notices, dropped }
            },
        }
    }

    fn receive(&mut self, registry: &mut Registry, msg: WsExchangeMsg) -> (action: SessionAction)
        requires
            old(registry)@.wf(),
        ensures
            final(registry)@.wf(),
            final(self).addr == old(self).addr,
            final(self).id == old(self).id,
            receives(*old(self), old(registry)@, msg, *final(self), final(registry)@, action),
    {
        if let Some((from_id, to_id)) = msg.route() {
            if registry.mailbox_of(from_id).is_none() {
                return SessionAction::UnknownSender(from_id);
            }
            return match registry.mailbox_of(to_id) {
                Some(mailbox) => SessionAction::Forward(Delivery { to: to_id, mailbox, msg }),
                None => SessionAction::UnknownRecipient(to_id),
            };
        }
        match msg {
            WsExchangeMsg::LeavePeerId(id) => match registry.resident_of(self.addr) {
                None => SessionAction::NotRegistered(id),
                Some(expected) => {
                    if expected != id {
                        SessionAction::WrongLeaver { expected, got: id }
                    } else {
                        let dropped: Option<u64> = registry.remove_peer_addr(self.addr);
                        self.phase = SessionPhase::Leaving;
                        SessionAction::Farewell { dropped, notices: registry.announce_left(id) }
                    }
                },
            },
            other => SessionAction::WrongKind(other),
        }
    }
}

/// A greeted peer is announced: every other connected peer is told of it in its own mailbox,
/// exactly once, and nobody else is. Nothing changes in the record, and messages are then taken
/// from it.
pub proof fn law_greeted_peer_is_announced(
    pre: Session,
    before: RegistryView,
    post: Session,
    after: RegistryView,
    action: SessionAction,
)
    requires
        steps(pre, before, SessionEvent::WelcomeSent, post, after, action),
    ensures
        post == (Session { addr: pre.addr, id: pre.id, phase: SessionPhase::Serving }),
        after == before,
        action matches SessionAction::Announce(notices) && {
            &&& forall|id: u128| #[trigger]
                before.mailboxes.contains_key(id) && id != pre.id ==> exists|k: int|
                    {
                        &&& 0 <= k < notices@.len()
                        &&& #[trigger] notices@[k] == (Delivery {
                            to: id,
                            mailbox: before.mailboxes[id],
                            msg: WsExchangeMsg::NewPeer(pre.id),
                        })
                        &&& forall|m: int|
                            0 <= m < notices@.len() && m != k ==> (#[trigger] notices@[m]).to != id
                    }
            &&& forall|k: int|
                0 <= k < notices@.len() ==> before.mailboxes.contains_key(
                    (#[trigger] notices@[k]).to,
                ) && notices@[k].to != pre.id
        },
{
    let notices = action->Announce_0;
    crate::registry::law_notice_reaches_each_peer_once(
        notices@,
        before.mailboxes,
        Some(pre.id),
        WsExchangeMsg::NewPeer(pre.id),
    );
    assert forall|id: u128| #[trigger]
        before.mailboxes.contains_key(id) && id != pre.id implies exists|k: int|
        {
            &&& 0 <= k < notices@.len()
            &&& #[trigger] notices@[k] == (Delivery {
                to: id,
                mailbox: before.mailboxes[id],
                msg: WsExchangeMsg::NewPeer(pre.id),
            })
            &&& forall|m: int|
                0 <= m < notices@.len() && m != k ==> (#[trigger] notices@[m]).to != id
        } by {
        assert(Some(pre.id) != Some(id));
    }
}

/// A peer that cannot be greeted is given up as it is: nobody is told, and the record stays.
pub proof fn law_ungreeted_peer_is_given_up(
    pre: Session,
    before: RegistryView,
    post: Session,
    after: RegistryView,
    action: SessionAction,
)
    requires
        steps(pre, before, SessionEvent::WelcomeFailed, post, after, action),
    ensures
        post == (Session { addr: pre.addr, id: pre.id, phase: SessionPhase::Over }),
        after == before,
        action is Abort,
{
}

/// A frame that holds no message is passed over.
pub proof fn law_unreadable_frame_changes_nothing(
    pre: Session,
    before: RegistryView,
    post: Session,
    after: RegistryView,
    action: SessionAction,
)
    requires
        steps(pre, before, SessionEvent::Unreadable, post, after, action),
    ensures
        post == pre,
        after == before,
        action is Continue,
{
}

/// A description goes to the peer that it names, as it is and whatever its type, where both ends
/// are connected; else it is dropped for the end that is missing, the sender first. Nothing else
/// changes.
pub proof fn law_description_goes_to_its_recipient(
    pre: Session,
    before: RegistryView,
    from_id: u128,
    to_id: u128,
    sdp: SessionDescription,
    post: Session,
    after: RegistryView,
    action: SessionAction,
)
    requires
        steps(
            pre,
            before,
            SessionEvent::Received(WsExchangeMsg::Sdp { from_id, to_id, sdp }),
            post,
            after,
            action,
        ),
    ensures
        post == pre,
        after == before,
        before.mailboxes.get(from_id) is None ==> action == SessionAction::UnknownSender(from_id),
        before.mailboxes.get(from_id) is Some && before.mailboxes.get(to_id) is None ==> action
            == SessionAction::UnknownRecipient(to_id),
        before.mailboxes.get(from_id) is Some ==> (before.mailboxes.get(to_id) matches Some(mailbox)
            ==> action == SessionAction::Forward(
            Delivery { to: to_id, mailbox, msg: WsExchangeMsg::Sdp { from_id, to_id, sdp } },
        )),
{
}

/// A candidate goes to the peer that it names, as it is, where both ends are connected; else it is
/// dropped for the end that is missing, the sender first. Nothing else changes.
pub proof fn law_candidate_goes_to_its_recipient(
    pre: Session,
    before: RegistryView,
    from_id: u128,
    to_id: u128,
    candidate: IceCandidateInit,
    post: Session,
    after: RegistryView,
    action: SessionAction,
)
    requires
        steps(
            pre,
            before,
            SessionEvent::Received(WsExchangeMsg::IceCandidate { from_id, to_id, candidate }),
            post,
            after,
            action,
        ),
    ensures
        post == pre,
        after == before,
        before.mailboxes.get(from_id) is None ==> action == SessionAction::UnknownSender(from_id),
        before.mailboxes.get(from_id) is Some && before.mailboxes.get(to_id) is None ==> action
            == SessionAction::UnknownRecipient(to_id),
        before.mailboxes.get(from_id) is Some ==> (before.mailboxes.get(to_id) matches Some(mailbox)
            ==> action == SessionAction::Forward(
            Delivery {
                to: to_id,
                mailbox,
                msg: WsExchangeMsg::IceCandidate { from_id, to_id, candidate },
            },
        )),
{
}

/// A greeting or an announcement that comes from a peer is dropped, and nothing changes.
pub proof fn law_server_messages_are_dropped(
    pre: Session,
    before: RegistryView,
    id: u128,
    msg: WsExchangeMsg,
    post: Session,
    after: RegistryView,
    action: SessionAction,
)
    requires
        msg == WsExchangeMsg::JoinPeerId(id) || msg == WsExchangeMsg::NewPeer(id),
        steps(pre, before, SessionEvent::Received(msg), post, after, action),
    ensures
        post == pre,
        after == before,
        action == SessionAction::WrongKind(msg),
{
}

/// A farewell is dropped, and nothing changes, where it does not name the peer at the address that
/// it comes from.
pub proof fn law_farewell_of_another_is_dropped(
    pre: Session,
    before: RegistryView,
    id: u128,
    post: Session,
    after: RegistryView,
    action: SessionAction,
)
    requires
        before.residents.get(pre.addr) != Some(id),
        steps(
            pre,
            before,
            SessionEvent::Received(WsExchangeMsg::LeavePeerId(id)),
            post,
            after,
            action,
        ),
    ensures
        post == pre,
        after == before,
        action == match before.residents.get(pre.addr) {
            None => SessionAction::NotRegistered(id),
            Some(expected) => SessionAction::WrongLeaver { expected, got: id },
        },
{
}

/// A peer that says that it leaves is forgotten, it and its address alone. Its mailbox is dropped,
/// everybody who remains is told in its own mailbox, exactly once, and no more messages are taken.
pub proof fn law_farewell_removes_the_peer(
    pre: Session,
    before: RegistryView,
    leaver: u128,
    post: Session,
    after: RegistryView,
    action: SessionAction,
)
    requires
        before.residents.get(pre.addr) == Some(leaver),
        steps(
            pre,
            before,
            SessionEvent::Received(WsExchangeMsg::LeavePeerId(leaver)),
            post,
            after,
            action,
        ),
    ensures
        post == (Session { addr: pre.addr, id: pre.id, phase: SessionPhase::Leaving }),
        after.mailboxes == before.mailboxes.remove(leaver),
        after.residents == before.residents.remove(pre.addr),
        action matches SessionAction::Farewell { dropped, notices } && {
            &&& dropped == before.mailboxes.get(leaver)
            &&& forall|id: u128| #[trigger]
                after.mailboxes.contains_key(id) ==> exists|k: int|
                    {
                        &&& 0 <= k < notices@.len()
                        &&& #[trigger] notices@[k] == (Delivery {
                            to: id,
                            mailbox: after.mailboxes[id],
                            msg: WsExchangeMsg::LeavePeerId(leaver),
                        })
                        &&& forall|m: int|
                            0 <= m < notices@.len() && m != k ==> (#[trigger] notices@[m]).to != id
                    }
            &&& forall|k: int|
                0 <= k < notices@.len() ==> after.mailboxes.contains_key(
                    (#[trigger] notices@[k]).to,
                )
        },
{
    assert(before.residents.contains_key(pre.addr));
    let notices = action->Farewell_notices;
    crate::registry::law_notice_reaches_each_peer_once(
        notices@,
        after.mailboxes,
        None,
        WsExchangeMsg::LeavePeerId(leaver),
    );
    assert forall|id: u128| #[trigger]
        after.mailboxes.contains_key(id) implies exists|k: int|
        {
            &&& 0 <= k < notices@.len()
            &&& #[trigger] notices@[k] == (Delivery {
                to: id,
                mailbox: after.mailboxes[id],
                msg: WsExchangeMsg::LeavePeerId(leaver),
            })
            &&& forall|m: int|
                0 <= m < notices@.len() && m != k ==> (#[trigger] notices@[m]).to != id
        } by {
        assert(None::<u128> != Some(id));
    }
}

/// When a connection ends, every connected peer but its own is told in its own mailbox, exactly
/// once, that this one left. The peer at its address, if there still is one, is forgotten, it and
/// its address alone, and its mailbox is dropped.
pub proof fn law_end_removes_the_peer(
    pre: Session,
    before: RegistryView,
    post: Session,
    after: RegistryView,
    action: SessionAction,
)
    requires
        steps(pre, before, SessionEvent::Ended, post, after, action),
    ensures
        post == (Session { addr: pre.addr, id: pre.id, phase: SessionPhase::Over }),
        before.residents.get(pre.addr) is None ==> after == before,
        before.residents.get(pre.addr) matches Some(resident) ==> after.mailboxes
            == before.mailboxes.remove(resident) && after.residents == before.residents.remove(
            pre.addr,
        ),
        action matches SessionAction::Close { notices, dropped } && {
            &&& dropped == match before.residents.get(pre.addr) {
                Some(resident) => before.mailboxes.get(resident),
                None => None,
            }
            &&& forall|id: u128| #[trigger]
                before.mailboxes.contains_key(id) && id != pre.id ==> exists|k: int|
                    {
                        &&& 0 <= k < notices@.len()
                        &&& #[trigger] notices@[k] == (Delivery {
                            to: id,
                            mailbox: before.mailboxes[id],
                            msg: WsExchangeMsg::LeavePeerId(pre.id),
                        })
                        &&& forall|m: int|
                            0 <= m < notices@.len() && m != k ==> (#[trigger] notices@[m]).to != id
                    }
            &&& forall|k: int|
                0 <= k < notices@.len() ==> before.mailboxes.contains_key(
                    (#[trigger] notices@[k]).to,
                ) && notices@[k].to != pre.id
        },
{
    let notices = action->Close_notices;
    crate::registry::law_notice_reaches_each_peer_once(
        notices@,
        before.mailboxes,
        Some(pre.id),
        WsExchangeMsg::LeavePeerId(pre.id),
    );
    assert forall|id: u128| #[trigger]
        before.mailboxes.contains_key(id) && id != pre.id implies exists|k: int|
        {
            &&& 0 <= k < notices@.len()
            &&& #[trigger] notices@[k] == (Delivery {
                to: id,
                mailbox: before.mailboxes[id],
                msg: WsExchangeMsg::LeavePeerId(pre.id),
            })
            &&& forall|m: int|
                0 <= m < notices@.len() && m != k ==> (#[trigger] notices@[m]).to != id
        } by {
        assert(Some(pre.id) != Some(id));
    }
}

/// The life of a connection: while the greeting is being sent, only that can succeed or fail; then
/// frames come, until the connection ends; after a farewell, only the end can come; then nothing.
pub proof fn law_life_of_a_connection(session: Session, event: SessionEvent)
    ensures
        session.phase is Welcoming ==> (session.expects_spec(event) <==> event is WelcomeSent
            || event is WelcomeFailed),
        session.phase is Serving ==> (session.expects_spec(event) <==> event is Received
            || event is Unreadable || event is Ended),
        session.phase is Leaving ==> (session.expects_spec(event) <==> event is Ended),
        session.phase is Over ==> !session.expects_spec(event),
{
}

/// A session is opened where one of the identifiers drawn is free: under a free one that no free
/// one was drawn before, at the address and with the mailbox given, the greeting still to be sent.
/// Nobody else is touched. Where all are taken, nothing is opened, and nothing changes.
pub proof fn law_session_opens_under_the_first_free_identifier(
    before: RegistryView,
    addr: PeerAddr,
    mailbox: u64,
    drawn: Seq<u128>,
    session: Option<Session>,
    after: RegistryView,
)
    requires
        opens(before, addr, mailbox, drawn, session, after),
    ensures
        session is None <==> forall|k: int|
            0 <= k < drawn.len() ==> before.mailboxes.contains_key(#[trigger] drawn[k]),
        session is None ==> after == before,
        session matches Some(session) ==> {
            &&& session.addr == addr
            &&& session.phase == SessionPhase::Welcoming
            &&& drawn.contains(session.id)
            &&& before.mailboxes.get(session.id) is None
            &&& forall|k: int|
                0 <= k < drawn.len() && !before.mailboxes.contains_key(#[trigger] drawn[k])
                    ==> drawn.take(k + 1).contains(session.id)
            &&& after.mailboxes == before.mailboxes.insert(session.id, mailbox)
            &&& after.residents == before.residents.insert(addr, session.id)
        },
{
    if session is Some {
        let id = session.unwrap().id;
        let first = choose|first: int|
            {
                &&& 0 <= first < drawn.len()
                &&& #[trigger] drawn[first] == id
                &&& !before.mailboxes.contains_key(id)
                &&& forall|m: int|
                    0 <= m < first ==> before.mailboxes.contains_key(#[trigger] drawn[m])
            };
        assert(drawn[first] == id);
        assert forall|k: int|
            0 <= k < drawn.len() && !before.mailboxes.contains_key(
                #[trigger] drawn[k],
            ) implies drawn.take(k + 1).contains(id) by {
            crate::registry::law_first_free_identifier_is_taken(
                before.mailboxes,
                drawn,
                Some(id),
                k,
            );
        }
    }
}

} // verus!
