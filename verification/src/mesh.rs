//! What holds of the mesh as a whole: of several calls, or of the server and the peers together.
use crate::message::{IceCandidateInit, SdpType, SessionDescription, WsExchangeMsg};
use crate::peer::{
    PeerAction, PeerError, PeerInfo, PeerOutcome, PeerReply, PeerStage, PeerStep, PeerView, Plan,
    Role,
};
use crate::registry::{Delivery, RegistryView};
use crate::session::{Session, SessionAction, SessionEvent, SessionPhase};
use crate::tables::PeerAddr;
use vstd::prelude::*;

verus! {

/// Removing a peer undoes its joining, where its address was free before.
pub proof fn law_leaving_undoes_joining(
    record: RegistryView,
    addr: PeerAddr,
    id: u128,
    mailbox: u64,
)
    requires
        !record.mailboxes.contains_key(id),
        !record.residents.contains_key(addr),
    ensures
        record.enrolled(addr, id, mailbox).vacated(addr) == record,
{
    assert(record.enrolled(addr, id, mailbox).vacated(addr) =~= record);
}

/// Removing the peer at an address removes that peer, its address, and nothing else.
pub proof fn law_leaving_touches_nobody_else(record: RegistryView, addr: PeerAddr)
    requires
        record.wf(),
    ensures
        record.vacated(addr).wf(),
        !record.vacated(addr).residents.contains_key(addr),
        record.residents.contains_key(addr) ==> !record.vacated(addr).mailboxes.contains_key(
            record.residents[addr],
        ),
        forall|id: u128|
            record.residents.get(addr) != Some(id) ==> record.vacated(addr).mailboxes.get(id)
                == record.mailboxes.get(id),
        forall|other: PeerAddr|
            other != addr ==> record.vacated(addr).residents.get(other) == record.residents.get(
                other,
            ),
{
    let after = record.vacated(addr);
    assert forall|other: PeerAddr| #[trigger] after.residents.contains_key(
        other,
    ) implies after.mailboxes.contains_key(after.residents[other]) by {
        assert(record.residents.contains_key(other));
        if record.residents.contains_key(addr) {
            assert(record.residents[other] != record.residents[addr]);
        }
    }
    assert forall|a: PeerAddr, b: PeerAddr|
        #![trigger after.residents[a], after.residents[b]]
        after.residents.contains_key(a) && after.residents.contains_key(b) && after.residents[a]
            == after.residents[b] implies a == b by {
        assert(record.residents[a] == record.residents[b]);
    }
}

/// Whatever happens on a connection, the record stays consistent, and only the peer at the address
/// of that connection can disappear from it; nobody appears.
pub proof fn law_connection_touches_its_own_peer(
    pre: Session,
    before: RegistryView,
    event: SessionEvent,
    post: Session,
    after: RegistryView,
    action: SessionAction,
)
    requires
        before.wf(),
        crate::session::steps(pre, before, event, post, after, action),
    ensures
        after.wf(),
        after == before || after == before.vacated(pre.addr),
        forall|id: u128|
            before.residents.get(pre.addr) != Some(id) ==> after.mailboxes.get(id)
                == before.mailboxes.get(id),
        forall|other: PeerAddr|
            other != pre.addr ==> after.residents.get(other) == before.residents.get(other),
{
    law_leaving_touches_nobody_else(before, pre.addr);
}

/// Every connected peer has an address: that is so at first, and stays so when a peer joins from an
/// address that is free, and when one leaves.
pub proof fn law_every_peer_has_an_address(
    record: RegistryView,
    addr: PeerAddr,
    id: u128,
    mailbox: u64,
)
    requires
        record.all_addressed(),
    ensures
        RegistryView::empty().all_addressed(),
        !record.residents.contains_key(addr) ==> record.enrolled(
            addr,
            id,
            mailbox,
        ).all_addressed(),
        record.vacated(addr).all_addressed(),
{
    if !record.residents.contains_key(addr) {
        let joined = record.enrolled(addr, id, mailbox);
        assert forall|other: u128| #[trigger] joined.mailboxes.contains_key(other) implies exists|
            a: PeerAddr,
        | #[trigger] joined.residents.contains_key(a) && joined.residents[a] == other by {
            if other == id {
                assert(joined.residents.contains_key(addr) && joined.residents[addr] == other);
            } else {
                assert(record.mailboxes.contains_key(other));
                let a = choose|a: PeerAddr| #[trigger]
                    record.residents.contains_key(a) && record.residents[a] == other;
                assert(joined.residents.contains_key(a) && joined.residents[a] == other);
            }
        }
    }
    lemma_vacated_all_addressed(record, addr);
}

/// Whatever happens on a connection, every connected peer still has an address.
pub proof fn law_connection_leaves_every_peer_an_address(
    pre: Session,
    before: RegistryView,
    event: SessionEvent,
    post: Session,
    after: RegistryView,
    action: SessionAction,
)
    requires
        before.wf(),
        before.all_addressed(),
        crate::session::steps(pre, before, event, post, after, action),
    ensures
        after.all_addressed(),
{
    lemma_vacated_all_addressed(before, pre.addr);
    law_connection_touches_its_own_peer(pre, before, event, post, after, action);
}

/// Every peer that a session is opened for has an address, and so has everybody else, where the
/// address was free.
pub proof fn law_opening_leaves_every_peer_an_address(
    before: RegistryView,
    addr: PeerAddr,
    mailbox: u64,
    drawn: Seq<u128>,
    session: Option<Session>,
    after: RegistryView,
)
    requires
        before.all_addressed(),
        !before.residents.contains_key(addr),
        crate::session::opens(before, addr, mailbox, drawn, session, after),
    ensures
        after.all_addressed(),
{
    if session is Some {
        law_every_peer_has_an_address(before, addr, session.unwrap().id, mailbox);
    }
}

proof fn lemma_vacated_all_addressed(record: RegistryView, addr: PeerAddr)
    requires
        record.all_addressed(),
    ensures
        record.vacated(addr).all_addressed(),
{
    let left = record.vacated(addr);
    assert forall|other: u128| #[trigger] left.mailboxes.contains_key(other) implies exists|
        a: PeerAddr,
    | #[trigger] left.residents.contains_key(a) && left.residents[a] == other by {
        assert(record.mailboxes.contains_key(other));
        let a = choose|a: PeerAddr| #[trigger]
            record.residents.contains_key(a) && record.residents[a] == other;
        assert(left.residents.contains_key(a) && left.residents[a] == other);
    }
}

/// A peer that joins: the record before, what it joins with, and the notices to the others.
pub struct Joining {
    pub before: RegistryView,
    pub addr: PeerAddr,
    pub id: u128,
    pub mailbox: u64,
    pub notices: Seq<Delivery>,
}

impl Joining {
    /// The record after the peer joined.
    pub open spec fn after(self) -> RegistryView {
        self.before.enrolled(self.addr, self.id, self.mailbox)
    }

    /// Whether the identifier was free, and the notices are those that the server sends.
    pub open spec fn is_valid(self) -> bool {
        &&& !self.before.mailboxes.contains_key(self.id)
        &&& crate::registry::tells_all(
            self.notices,
            self.after().mailboxes,
            Some(self.id),
            WsExchangeMsg::NewPeer(self.id),
        )
    }
}

/// Whether the peers join one after the other: each is announced before the next one joins, and
/// nobody leaves in between.
pub open spec fn join_in_turn(joinings: Seq<Joining>) -> bool {
    &&& forall|i: int| 0 <= i < joinings.len() ==> (#[trigger] joinings[i]).is_valid()
    &&& forall|i: int, j: int|
        0 <= i && j == i + 1 && j < joinings.len() ==> #[trigger] joinings[i].after()
            == #[trigger] joinings[j].before
}

/// Whether `notices` brings `msg` to the peer `id` once, and brings it nothing else.
pub open spec fn tells_once(
    notices: Seq<Delivery>,
    id: u128,
    mailbox: u64,
    msg: WsExchangeMsg,
) -> bool {
    exists|k: int|
        {
            &&& 0 <= k < notices.len()
            &&& #[trigger] notices[k] == (Delivery { to: id, mailbox, msg })
            &&& forall|m: int| 0 <= m < notices.len() && (#[trigger] notices[m]).to == id ==> m == k
        }
}

proof fn lemma_record_grows(joinings: Seq<Joining>, i: int, j: int)
    requires
        join_in_turn(joinings),
        0 <= i < j < joinings.len(),
    ensures
        forall|id: u128| #[trigger]
            joinings[i].after().mailboxes.contains_key(id)
                ==> joinings[j].before.mailboxes.contains_key(id)
                && joinings[j].before.mailboxes[id] == joinings[i].after().mailboxes[id],
    decreases j - i,
{
    assert(joinings[j - 1].after() == joinings[j].before);
    if i + 1 < j {
        lemma_record_grows(joinings, i, j - 1);
        assert(joinings[j - 1].is_valid());
        assert forall|id: u128| #[trigger] joinings[i].after().mailboxes.contains_key(
            id,
        ) implies joinings[j].before.mailboxes.contains_key(id)
            && joinings[j].before.mailboxes[id] == joinings[i].after().mailboxes[id] by {
            assert(joinings[j - 1].before.mailboxes.contains_key(id));
        }
    }
}

/// The mesh is full, and each link is made once, where each peer is announced before the next one
/// joins: of any two peers the one that joined first is told of the other, exactly once, and is
/// asked by that to connect and make an offer; the one that joined last is never told of the first.
pub proof fn law_every_pair_is_linked_once(
    joinings: Seq<Joining>,
    i: int,
    j: int,
    state: PeerView,
)
    requires
        join_in_turn(joinings),
        0 <= i < j < joinings.len(),
    ensures
        joinings[i].id != joinings[j].id,
        tells_once(
            joinings[j].notices,
            joinings[i].id,
            joinings[i].mailbox,
            WsExchangeMsg::NewPeer(joinings[j].id),
        ),
        forall|m: int|
            0 <= m < joinings[i].notices.len() ==> (#[trigger] joinings[i].notices[m]).to
                != joinings[j].id,
        crate::peer::start(state, WsExchangeMsg::NewPeer(joinings[j].id)) == (PeerStep::Perform {
            stage: PeerStage::Connecting { peer: joinings[j].id, plan: Plan::Offer },
            action: PeerAction::Connect { peer: joinings[j].id },
        }),
{
    let first = joinings[i];
    let last = joinings[j];
    assert(first.is_valid() && last.is_valid());
    lemma_record_grows(joinings, i, j);
    assert(first.after().mailboxes.contains_key(first.id));
    assert(last.after().mailboxes.contains_key(first.id));
    assert(last.after().mailboxes[first.id] == first.mailbox);
    lemma_tells_once(last.notices, last.after().mailboxes, last.id, first.id);
    assert forall|m: int| 0 <= m < first.notices.len() implies (#[trigger] first.notices[m]).to
        != last.id by {
        assert(first.after().mailboxes.contains_key(first.notices[m].to));
    }
}

/// Two peers that are both registered before either is announced are each told of the other, once.
pub proof fn law_peers_that_join_at_once_hear_of_each_other(
    record: RegistryView,
    a: u128,
    b: u128,
    notices_of_a: Seq<Delivery>,
    notices_of_b: Seq<Delivery>,
)
    requires
        a != b,
        record.mailboxes.contains_key(a),
        record.mailboxes.contains_key(b),
        crate::registry::tells_all(
            notices_of_a,
            record.mailboxes,
            Some(a),
            WsExchangeMsg::NewPeer(a),
        ),
        crate::registry::tells_all(
            notices_of_b,
            record.mailboxes,
            Some(b),
            WsExchangeMsg::NewPeer(b),
        ),
    ensures
        tells_once(notices_of_a, b, record.mailboxes[b], WsExchangeMsg::NewPeer(a)),
        tells_once(notices_of_b, a, record.mailboxes[a], WsExchangeMsg::NewPeer(b)),
{
    lemma_tells_once(notices_of_a, record.mailboxes, a, b);
    lemma_tells_once(notices_of_b, record.mailboxes, b, a);
}

proof fn lemma_tells_once(
    notices: Seq<Delivery>,
    mailboxes: Map<u128, u64>,
    joined: u128,
    told: u128,
)
    requires
        joined != told,
        mailboxes.contains_key(told),
        crate::registry::tells_all(
            notices,
            mailboxes,
            Some(joined),
            WsExchangeMsg::NewPeer(joined),
        ),
    ensures
        tells_once(notices, told, mailboxes[told], WsExchangeMsg::NewPeer(joined)),
{
    assert(Some(joined) != Some(told));
    let k = choose|k: int| 0 <= k < notices.len() && (#[trigger] notices[k]).to == told;
    assert(notices[k] == (Delivery {
        to: told,
        mailbox: mailboxes[told],
        msg: WsExchangeMsg::NewPeer(joined),
    }));
    assert forall|m: int| 0 <= m < notices.len() && (#[trigger] notices[m]).to == told implies m
        == k by {
        if m < k {
            assert(notices[m].to != notices[k].to);
        } else if k < m {
            assert(notices[k].to != notices[m].to);
        }
    }
}

/// A peer that says that it leaves is removed, and every peer that remains is told so twice: once
/// when the farewell comes, and once when the connection closes. Its mailbox is dropped once.
pub proof fn law_graceful_leave(
    opened: Session,
    before: RegistryView,
    left: Session,
    between: RegistryView,
    farewell: SessionAction,
    closed: Session,
    after: RegistryView,
    close: SessionAction,
)
    requires
        before.wf(),
        before.residents.get(opened.addr) == Some(opened.id),
        crate::session::steps(
            opened,
            before,
            SessionEvent::Received(WsExchangeMsg::LeavePeerId(opened.id)),
            left,
            between,
            farewell,
        ),
        crate::session::steps(left, between, SessionEvent::Ended, closed, after, close),
    ensures
        closed.phase == SessionPhase::Over,
        between == before.vacated(opened.addr),
        after == between,
        !after.mailboxes.contains_key(opened.id),
        farewell matches SessionAction::Farewell { notices, dropped } && {
            &&& dropped == Some(before.mailboxes[opened.id])
            &&& crate::registry::tells_all(
                notices@,
                after.mailboxes,
                None,
                WsExchangeMsg::LeavePeerId(opened.id),
            )
        },
        close matches SessionAction::Close { notices, dropped } && {
            &&& dropped is None
            &&& crate::registry::tells_all(
                notices@,
                after.mailboxes,
                None,
                WsExchangeMsg::LeavePeerId(opened.id),
            )
        },
{
    assert(before.residents.contains_key(opened.addr));
    let notices = close->Close_notices;
    assert forall|id: u128| #[trigger]
        after.mailboxes.contains_key(id) implies exists|i: int|
        0 <= i < notices@.len() && (#[trigger] notices@[i]).to == id by {
        assert(Some(opened.id) != Some(id));
    }
}

/// A peer whose connection breaks is removed, every other peer is told so once, and its mailbox is
/// dropped.
pub proof fn law_abrupt_leave(
    opened: Session,
    before: RegistryView,
    closed: Session,
    after: RegistryView,
    close: SessionAction,
)
    requires
        before.wf(),
        before.residents.get(opened.addr) == Some(opened.id),
        crate::session::steps(opened, before, SessionEvent::Ended, closed, after, close),
    ensures
        closed.phase == SessionPhase::Over,
        after == before.vacated(opened.addr),
        !after.mailboxes.contains_key(opened.id),
        close matches SessionAction::Close { notices, dropped } && {
            &&& dropped == Some(before.mailboxes[opened.id])
            &&& crate::registry::tells_all(
                notices@,
                after.mailboxes,
                None,
                WsExchangeMsg::LeavePeerId(opened.id),
            )
        },
{
    assert(before.residents.contains_key(opened.addr));
    let notices = close->Close_notices;
    assert forall|i: int| 0 <= i < notices@.len() implies after.mailboxes.contains_key(
        (#[trigger] notices@[i]).to,
    ) by {
        assert(before.mailboxes.contains_key(notices@[i].to));
    }
    assert forall|id: u128| #[trigger]
        after.mailboxes.contains_key(id) implies exists|i: int|
        0 <= i < notices@.len() && (#[trigger] notices@[i]).to == id by {
        assert(before.mailboxes.contains_key(id));
        assert(Some(opened.id) != Some(id));
    }
}

/// Handling a message: the state and the step that the outcomes `replies` of the calls lead to.
pub open spec fn run(state: PeerView, step: PeerStep, replies: Seq<PeerReply>) -> (
    PeerView,
    PeerStep,
)
    decreases replies.len(),
{
    match step {
        PeerStep::Perform { stage, .. } => {
            if replies.len() == 0 {
                (state, step)
            } else {
                let (next_state, next_step) = crate::peer::resumed(state, stage, replies[0]);
                run(next_state, next_step, replies.drop_first())
            }
        },
        _ => (state, step),
    }
}

/// The calls that are made on the way.
pub open spec fn calls(state: PeerView, step: PeerStep, replies: Seq<PeerReply>) -> Seq<PeerAction>
    decreases replies.len(),
{
    match step {
        PeerStep::Perform { stage, action } => {
            if replies.len() == 0 {
                seq![action]
            } else {
                let (next_state, next_step) = crate::peer::resumed(state, stage, replies[0]);
                seq![action] + calls(next_state, next_step, replies.drop_first())
            }
        },
        _ => Seq::empty(),
    }
}

/// What the calls of an offering peer return when all goes well.
pub open spec fn offering_replies(
    info: PeerInfo,
    offer: SessionDescription,
    local: SessionDescription,
) -> Seq<PeerReply> {
    seq![
        PeerReply::Connected(info.conn),
        PeerReply::MediaAdded(info.start_stream_tx),
        PeerReply::Described(offer),
        PeerReply::Done,
        PeerReply::Described(local),
        PeerReply::Done,
    ]
}

/// What the calls of an answering peer return when all goes well.
pub open spec fn answering_replies(
    info: PeerInfo,
    answer: SessionDescription,
    local: SessionDescription,
) -> Seq<PeerReply> {
    seq![
        PeerReply::Connected(info.conn),
        PeerReply::MediaAdded(info.start_stream_tx),
        PeerReply::Done,
        PeerReply::Described(answer),
        PeerReply::Done,
        PeerReply::Described(local),
        PeerReply::Done,
    ]
}

proof fn lemma_run_unfold(state: PeerView, step: PeerStep, reply: PeerReply, rest: Seq<PeerReply>)
    ensures
        step matches PeerStep::Perform { stage, action } ==> {
            let (next_state, next_step) = crate::peer::resumed(state, stage, reply);
            &&& run(state, step, seq![reply] + rest) == run(next_state, next_step, rest)
            &&& calls(state, step, seq![reply] + rest) == seq![action] + calls(
                next_state,
                next_step,
                rest,
            )
        },
{
    assert((seq![reply] + rest).drop_first() =~= rest);
}

/// A peer that is told of a new one, and whose calls all succeed, connects to it, keeps it, and
/// sends it the local description of that very connection.
pub proof fn law_new_peer_gets_an_offer(
    state: PeerView,
    peer: u128,
    info: PeerInfo,
    offer: SessionDescription,
    local: SessionDescription,
)
    ensures
        run(
            state,
            crate::peer::start(state, WsExchangeMsg::NewPeer(peer)),
            offering_replies(info, offer, local),
        ) == (
            PeerView { others: state.others.insert(peer, info), ..state },
            PeerStep::Finished(PeerOutcome::Offered { peer }),
        ),
        calls(
            state,
            crate::peer::start(state, WsExchangeMsg::NewPeer(peer)),
            offering_replies(info, offer, local),
        ) == seq![
            PeerAction::Connect { peer },
            PeerAction::AddMedia { peer, conn: info.conn },
            PeerAction::CreateOffer { conn: info.conn },
            PeerAction::SetLocal { conn: info.conn, sdp: offer },
            PeerAction::QueryLocal { conn: info.conn },
            PeerAction::Send {
                msg: WsExchangeMsg::Sdp { from_id: state.self_id, to_id: peer, sdp: local },
            },
        ],
{
    let kept = PeerView { others: state.others.insert(peer, info), ..state };
    let conn = info.conn;
    let role = Role::Offering;
    let r5 = seq![PeerReply::Done];
    let r4 = seq![PeerReply::Described(local)] + r5;
    let r3 = seq![PeerReply::Done] + r4;
    let r2 = seq![PeerReply::Described(offer)] + r3;
    let r1 = seq![PeerReply::MediaAdded(info.start_stream_tx)] + r2;
    let r0 = seq![PeerReply::Connected(conn)] + r1;
    let s0 = crate::peer::start(state, WsExchangeMsg::NewPeer(peer));
    let s1 = crate::peer::resumed(
        state,
        PeerStage::Connecting { peer, plan: Plan::Offer },
        r0[0],
    ).1;
    let s2 = crate::peer::resumed(
        state,
        PeerStage::AddingMedia { peer, conn, plan: Plan::Offer },
        r1[0],
    ).1;
    let s3 = crate::peer::resumed(
        kept,
        PeerStage::CreatingDescription { role, peer, conn },
        r2[0],
    ).1;
    let s4 = crate::peer::resumed(kept, PeerStage::SettingLocal { role, peer, conn }, r3[0]).1;
    let s5 = crate::peer::resumed(kept, PeerStage::QueryingLocal { role, peer, conn }, r4[0]).1;
    let s6 = crate::peer::resumed(kept, PeerStage::Sending { role, peer }, r5[0]).1;
    assert(r0 =~= offering_replies(info, offer, local));
    assert(r5 =~= seq![PeerReply::Done] + Seq::<PeerReply>::empty());
    lemma_run_unfold(state, s0, PeerReply::Connected(conn), r1);
    lemma_run_unfold(state, s1, PeerReply::MediaAdded(info.start_stream_tx), r2);
    lemma_run_unfold(kept, s2, PeerReply::Described(offer), r3);
    lemma_run_unfold(kept, s3, PeerReply::Done, r4);
    lemma_run_unfold(kept, s4, PeerReply::Described(local), r5);
    lemma_run_unfold(kept, s5, PeerReply::Done, Seq::empty());
    assert(run(kept, s6, Seq::empty()) == (kept, s6));
    assert(calls(kept, s6, Seq::empty()) =~= Seq::<PeerAction>::empty());
    assert(calls(state, s0, r0) =~= seq![
        PeerAction::Connect { peer },
        PeerAction::AddMedia { peer, conn },
        PeerAction::CreateOffer { conn },
        PeerAction::SetLocal { conn, sdp: offer },
        PeerAction::QueryLocal { conn },
        PeerAction::Send {
            msg: WsExchangeMsg::Sdp { from_id: state.self_id, to_id: peer, sdp: local },
        },
    ]);
}

/// A peer that gets an offer from one that it does not know, and whose calls all succeed, connects
/// to it, sets the offer on the connection, keeps the peer, and sends back the local description
/// of that connection.
pub proof fn law_offer_gets_an_answer(
    state: PeerView,
    peer: u128,
    remote: SessionDescription,
    info: PeerInfo,
    answer: SessionDescription,
    local: SessionDescription,
)
    requires
        remote.sdp_type == SdpType::Offer,
        !state.others.contains_key(peer),
    ensures
        run(
            state,
            crate::peer::start(
                state,
                WsExchangeMsg::Sdp { from_id: peer, to_id: state.self_id, sdp: remote },
            ),
            answering_replies(info, answer, local),
        ) == (
            PeerView { others: state.others.insert(peer, info), ..state },
            PeerStep::Finished(PeerOutcome::Answered { peer }),
        ),
        calls(
            state,
            crate::peer::start(
                state,
                WsExchangeMsg::Sdp { from_id: peer, to_id: state.self_id, sdp: remote },
            ),
            answering_replies(info, answer, local),
        ) == seq![
            PeerAction::Connect { peer },
            PeerAction::AddMedia { peer, conn: info.conn },
            PeerAction::SetRemote { conn: info.conn, sdp: remote },
            PeerAction::CreateAnswer { conn: info.conn },
            PeerAction::SetLocal { conn: info.conn, sdp: answer },
            PeerAction::QueryLocal { conn: info.conn },
            PeerAction::Send {
                msg: WsExchangeMsg::Sdp { from_id: state.self_id, to_id: peer, sdp: local },
            },
        ],
{
    let kept = PeerView { others: state.others.insert(peer, info), ..state };
    let conn = info.conn;
    let role = Role::Answering;
    let plan = Plan::Answer(remote);
    let r6 = seq![PeerReply::Done];
    let r5 = seq![PeerReply::Described(local)] + r6;
    let r4 = seq![PeerReply::Done] + r5;
    let r3 = seq![PeerReply::Described(answer)] + r4;
    let r2 = seq![PeerReply::Done] + r3;
    let r1 = seq![PeerReply::MediaAdded(info.start_stream_tx)] + r2;
    let r0 = seq![PeerReply::Connected(conn)] + r1;
    let s0 = crate::peer::start(
        state,
        WsExchangeMsg::Sdp { from_id: peer, to_id: state.self_id, sdp: remote },
    );
    let s1 = crate::peer::resumed(state, PeerStage::Connecting { peer, plan }, r0[0]).1;
    let s2 = crate::peer::resumed(state, PeerStage::AddingMedia { peer, conn, plan }, r1[0]).1;
    let s3 = crate::peer::resumed(state, PeerStage::SettingRemote { peer, info }, r2[0]).1;
    let s4 = crate::peer::resumed(
        kept,
        PeerStage::CreatingDescription { role, peer, conn },
        r3[0],
    ).1;
    let s5 = crate::peer::resumed(kept, PeerStage::SettingLocal { role, peer, conn }, r4[0]).1;
    let s6 = crate::peer::resumed(kept, PeerStage::QueryingLocal { role, peer, conn }, r5[0]).1;
    let s7 = crate::peer::resumed(kept, PeerStage::Sending { role, peer }, r6[0]).1;
    assert(r0 =~= answering_replies(info, answer, local));
    assert(r6 =~= seq![PeerReply::Done] + Seq::<PeerReply>::empty());
    lemma_run_unfold(state, s0, PeerReply::Connected(conn), r1);
    lemma_run_unfold(state, s1, PeerReply::MediaAdded(info.start_stream_tx), r2);
    lemma_run_unfold(state, s2, PeerReply::Done, r3);
    lemma_run_unfold(kept, s3, PeerReply::Described(answer), r4);
    lemma_run_unfold(kept, s4, PeerReply::Done, r5);
    lemma_run_unfold(kept, s5, PeerReply::Described(local), r6);
    lemma_run_unfold(kept, s6, PeerReply::Done, Seq::empty());
    assert(run(kept, s7, Seq::empty()) == (kept, s7));
    assert(calls(kept, s7, Seq::empty()) =~= Seq::<PeerAction>::empty());
    assert(calls(state, s0, r0) =~= seq![
        PeerAction::Connect { peer },
        PeerAction::AddMedia { peer, conn },
        PeerAction::SetRemote { conn, sdp: remote },
        PeerAction::CreateAnswer { conn },
        PeerAction::SetLocal { conn, sdp: answer },
        PeerAction::QueryLocal { conn },
        PeerAction::Send {
            msg: WsExchangeMsg::Sdp { from_id: state.self_id, to_id: peer, sdp: local },
        },
    ]);
}

/// The peer that a message of the server is about, where handling it makes a call.
pub open spec fn counterpart(msg: WsExchangeMsg) -> u128 {
    match msg {
        WsExchangeMsg::JoinPeerId(id) => id,
        WsExchangeMsg::NewPeer(id) => id,
        WsExchangeMsg::LeavePeerId(id) => id,
        WsExchangeMsg::Sdp { from_id, .. } => from_id,
        WsExchangeMsg::IceCandidate { from_id, .. } => from_id,
    }
}

proof fn lemma_run_frame(state: PeerView, step: PeerStep, replies: Seq<PeerReply>, peer: u128)
    requires
        step matches PeerStep::Perform { stage, .. } ==> stage.peer() == peer,
    ensures
        run(state, step, replies).0.self_id == state.self_id,
        forall|other: u128|
            other != peer ==> run(state, step, replies).0.others.get(other) == state.others.get(
                other,
            ),
    decreases replies.len(),
{
    if step is Perform && replies.len() > 0 {
        let stage = step->stage;
        let (next_state, next_step) = crate::peer::resumed(state, stage, replies[0]);
        lemma_run_frame(next_state, next_step, replies.drop_first(), peer);
        assert forall|other: u128| other != peer implies run(state, step, replies).0.others.get(
            other,
        ) == state.others.get(other) by {
            assert(next_state.others.get(other) == state.others.get(other));
        }
    }
}

/// However the calls go, handling a message changes what is kept of one peer at most: the one
/// that the message is about.
pub proof fn law_message_touches_one_peer(
    state: PeerView,
    msg: WsExchangeMsg,
    replies: Seq<PeerReply>,
)
    ensures
        run(state, crate::peer::start(state, msg), replies).0.self_id == state.self_id,
        forall|other: u128|
            other != counterpart(msg) ==> run(
                state,
                crate::peer::start(state, msg),
                replies,
            ).0.others.get(other) == state.others.get(other),
{
    lemma_run_frame(state, crate::peer::start(state, msg), replies, counterpart(msg));
}

/// The state of a peer after it has handled the messages of `history`, each with the outcomes of its
/// calls, one after the other.
pub open spec fn after_messages(
    state: PeerView,
    history: Seq<(WsExchangeMsg, Seq<PeerReply>)>,
) -> PeerView
    decreases history.len(),
{
    if history.len() == 0 {
        state
    } else {
        let before = after_messages(state, history.drop_last());
        let (msg, replies) = history.last();
        run(before, crate::peer::start(before, msg), replies).0
    }
}

/// Whether the handling of a message ended with a description sent to `peer`.
pub open spec fn described_to(step: PeerStep, peer: u128) -> bool {
    step == PeerStep::Finished(PeerOutcome::Offered { peer }) || step == PeerStep::Finished(
        PeerOutcome::Answered { peer },
    )
}

proof fn lemma_run_keeps_peers(state: PeerView, step: PeerStep, replies: Seq<PeerReply>)
    ensures
        run(state, step, replies).0.self_id == state.self_id,
        forall|id: u128| #[trigger]
            state.others.contains_key(id) ==> run(state, step, replies).0.others.contains_key(id),
    decreases replies.len(),
{
    if step is Perform && replies.len() > 0 {
        let (next_state, next_step) = crate::peer::resumed(state, step->stage, replies[0]);
        lemma_run_keeps_peers(next_state, next_step, replies.drop_first());
        assert forall|id: u128| #[trigger] state.others.contains_key(id) implies run(
            state,
            step,
            replies,
        ).0.others.contains_key(id) by {
            assert(next_state.others.contains_key(id));
        }
    }
}

/// A peer that is known stays known, and a peer keeps its name, whatever messages come and however
/// the calls go.
pub proof fn law_known_peers_stay_known(
    state: PeerView,
    history: Seq<(WsExchangeMsg, Seq<PeerReply>)>,
)
    ensures
        after_messages(state, history).self_id == state.self_id,
        forall|id: u128| #[trigger]
            state.others.contains_key(id) ==> after_messages(state, history).others.contains_key(
                id,
            ),
    decreases history.len(),
{
    if history.len() > 0 {
        let before = after_messages(state, history.drop_last());
        let (msg, replies) = history.last();
        law_known_peers_stay_known(state, history.drop_last());
        lemma_run_keeps_peers(before, crate::peer::start(before, msg), replies);
        assert forall|id: u128| #[trigger] state.others.contains_key(id) implies after_messages(
            state,
            history,
        ).others.contains_key(id) by {
            assert(before.others.contains_key(id));
        }
    }
}

/// Whether the step comes after the peer has been kept.
spec fn is_kept(state: PeerView, step: PeerStep) -> bool {
    match step {
        PeerStep::Perform { stage, .. } => match stage {
            PeerStage::CreatingDescription { peer, .. } => state.others.contains_key(peer),
            PeerStage::SettingLocal { peer, .. } => state.others.contains_key(peer),
            PeerStage::QueryingLocal { peer, .. } => state.others.contains_key(peer),
            PeerStage::Sending { peer, .. } => state.others.contains_key(peer),
            _ => true,
        },
        PeerStep::Finished(PeerOutcome::Offered { peer }) => state.others.contains_key(peer),
        PeerStep::Finished(PeerOutcome::Answered { peer }) => state.others.contains_key(peer),
        _ => true,
    }
}

proof fn lemma_run_is_kept(state: PeerView, step: PeerStep, replies: Seq<PeerReply>)
    requires
        is_kept(state, step),
    ensures
        is_kept(run(state, step, replies).0, run(state, step, replies).1),
    decreases replies.len(),
{
    if step is Perform && replies.len() > 0 {
        let (next_state, next_step) = crate::peer::resumed(state, step->stage, replies[0]);
        lemma_run_is_kept(next_state, next_step, replies.drop_first());
    }
}

/// There is one offer between two peers: once a peer has sent its offer to another, or has answered
/// that one's, every later offer of the other is refused, whatever came in between.
pub proof fn law_later_offer_is_refused(
    state: PeerView,
    msg: WsExchangeMsg,
    replies: Seq<PeerReply>,
    peer: u128,
    later: Seq<(WsExchangeMsg, Seq<PeerReply>)>,
    offer: SessionDescription,
)
    requires
        described_to(run(state, crate::peer::start(state, msg), replies).1, peer),
        offer.sdp_type == SdpType::Offer,
    ensures
        crate::peer::start(
            after_messages(run(state, crate::peer::start(state, msg), replies).0, later),
            WsExchangeMsg::Sdp { from_id: peer, to_id: state.self_id, sdp: offer },
        ) == PeerStep::Failed(PeerError::Renegotiation { from_id: peer }),
{
    let step = crate::peer::start(state, msg);
    let described = run(state, step, replies).0;
    lemma_run_is_kept(state, step, replies);
    lemma_run_keeps_peers(state, step, replies);
    law_known_peers_stay_known(described, later);
    assert(described.others.contains_key(peer));
}

/// Whether the step is on the way to an answer, or has sent one.
spec fn is_answering(step: PeerStep) -> bool {
    match step {
        PeerStep::Perform { stage, .. } => match stage {
            PeerStage::Connecting { plan, .. } => plan is Answer,
            PeerStage::AddingMedia { plan, .. } => plan is Answer,
            PeerStage::SettingRemote { .. } => true,
            PeerStage::CreatingDescription { role, .. } => role == Role::Answering,
            PeerStage::SettingLocal { role, .. } => role == Role::Answering,
            PeerStage::QueryingLocal { role, .. } => role == Role::Answering,
            PeerStage::Sending { role, .. } => role == Role::Answering,
            _ => false,
        },
        PeerStep::Finished(outcome) => outcome is Answered,
        PeerStep::Failed(_) => false,
    }
}

proof fn lemma_run_answers(state: PeerView, step: PeerStep, replies: Seq<PeerReply>)
    requires
        is_answering(run(state, step, replies).1),
    ensures
        is_answering(step),
    decreases replies.len(),
{
    if step is Perform && replies.len() > 0 {
        let (next_state, next_step) = crate::peer::resumed(state, step->stage, replies[0]);
        lemma_run_answers(next_state, next_step, replies.drop_first());
    }
}

proof fn lemma_run_concerns(state: PeerView, step: PeerStep, replies: Seq<PeerReply>, peer: u128)
    requires
        step matches PeerStep::Perform { stage, .. } ==> stage.peer() == peer,
        step !is Finished,
    ensures
        run(state, step, replies).1 matches PeerStep::Finished(PeerOutcome::Answered {
            peer: answered,
        }) ==> answered == peer,
    decreases replies.len(),
{
    if step is Perform && replies.len() > 0 {
        let (next_state, next_step) = crate::peer::resumed(state, step->stage, replies[0]);
        if next_step !is Finished {
            lemma_run_concerns(next_state, next_step, replies.drop_first(), peer);
        }
    }
}

/// A peer answers another at most once, and not after an offer of its own to it, whatever came in
/// between.
pub proof fn law_peer_is_answered_once(
    state: PeerView,
    msg: WsExchangeMsg,
    replies: Seq<PeerReply>,
    peer: u128,
    later: Seq<(WsExchangeMsg, Seq<PeerReply>)>,
    next_msg: WsExchangeMsg,
    next_replies: Seq<PeerReply>,
)
    requires
        described_to(run(state, crate::peer::start(state, msg), replies).1, peer),
    ensures
        ({
            let then = after_messages(
                run(state, crate::peer::start(state, msg), replies).0,
                later,
            );
            run(then, crate::peer::start(then, next_msg), next_replies).1 != PeerStep::Finished(
                PeerOutcome::Answered { peer },
            )
        }),
{
    let described = run(state, crate::peer::start(state, msg), replies).0;
    let then = after_messages(described, later);
    let next = crate::peer::start(then, next_msg);
    lemma_run_is_kept(state, crate::peer::start(state, msg), replies);
    law_known_peers_stay_known(described, later);
    assert(described.others.contains_key(peer));
    if run(then, next, next_replies).1 == PeerStep::Finished(PeerOutcome::Answered { peer }) {
        lemma_run_answers(then, next, next_replies);
        lemma_run_concerns(then, next, next_replies, counterpart(next_msg));
        assert(then.others.contains_key(peer));
    }
}

/// Whether the message at hand has not come so far that the peer is kept.
pub open spec fn is_early(step: PeerStep) -> bool {
    match step {
        PeerStep::Perform { stage, .. } => stage is Connecting || stage is AddingMedia
            || stage is SettingRemote,
        PeerStep::Failed(error) => match error {
            PeerError::Connect { .. } => true,
            PeerError::AddMedia { .. } => true,
            PeerError::SetRemote { role, .. } => role == Role::Answering,
            _ => false,
        },
        PeerStep::Finished(_) => false,
    }
}

/// A peer is not kept before its connection has its tracks and, when it answers, the offer: where
/// handling a message stops earlier, nothing is changed.
pub proof fn law_unfinished_connection_is_not_kept(
    state: PeerView,
    step: PeerStep,
    replies: Seq<PeerReply>,
)
    requires
        is_early(run(state, step, replies).1),
    ensures
        run(state, step, replies).0 == state,
        is_early(step),
    decreases replies.len(),
{
    if step is Perform && replies.len() > 0 {
        let stage = step->stage;
        let (next_state, next_step) = crate::peer::resumed(state, stage, replies[0]);
        law_unfinished_connection_is_not_kept(next_state, next_step, replies.drop_first());
        assert(is_early(next_step));
        assert(next_state == state);
    }
}

proof fn lemma_send_is_last(
    state: PeerView,
    step: PeerStep,
    replies: Seq<PeerReply>,
    peer: u128,
    k: int,
)
    requires
        step matches PeerStep::Perform { stage, action } ==> {
            &&& stage.peer() == peer
            &&& action is Send <==> stage is Sending
            &&& action matches PeerAction::Send { msg } ==> (msg matches WsExchangeMsg::Sdp {
                from_id,
                to_id,
                ..
            } && from_id == state.self_id && to_id == peer)
        },
        0 <= k < calls(state, step, replies).len(),
        calls(state, step, replies)[k] is Send,
    ensures
        k == calls(state, step, replies).len() - 1,
        calls(state, step, replies)[k]->msg matches WsExchangeMsg::Sdp { from_id, to_id, .. }
            && from_id == state.self_id && to_id == peer,
    decreases replies.len(),
{
    if step is Perform && replies.len() > 0 {
        let stage = step->stage;
        let (next_state, next_step) = crate::peer::resumed(state, stage, replies[0]);
        let rest = calls(next_state, next_step, replies.drop_first());
        assert(calls(state, step, replies) == seq![step->action] + rest);
        if k > 0 {
            assert(rest[k - 1] == calls(state, step, replies)[k]);
            lemma_send_is_last(next_state, next_step, replies.drop_first(), peer, k - 1);
        }
    }
}

/// However the calls go, handling a message sends at most one message, as the last call: a
/// session description from this peer to the one that the message is about.
pub proof fn law_sends_one_description(
    state: PeerView,
    msg: WsExchangeMsg,
    replies: Seq<PeerReply>,
    k: int,
)
    requires
        0 <= k < calls(state, crate::peer::start(state, msg), replies).len(),
        calls(state, crate::peer::start(state, msg), replies)[k] is Send,
    ensures
        k == calls(state, crate::peer::start(state, msg), replies).len() - 1,
        calls(state, crate::peer::start(state, msg), replies)[k]->msg matches WsExchangeMsg::Sdp {
            from_id,
            to_id,
            ..
        } && from_id == state.self_id && to_id == counterpart(msg),
{
    lemma_send_is_last(state, crate::peer::start(state, msg), replies, counterpart(msg), k);
}

/// The server and the peer agree on who the peer is: the greeting makes a peer of the name that the
/// server delivers its messages under.
pub proof fn law_greeting_names_the_peer(
    record: RegistryView,
    addr: PeerAddr,
    id: u128,
    mailbox: u64,
)
    ensures
        crate::peer::joined(WsExchangeMsg::JoinPeerId(id)) matches Some(state) && {
            &&& state.self_id == id
            &&& record.enrolled(addr, id, mailbox).mailboxes.get(state.self_id) == Some(mailbox)
        },
{
}

/// The server passes a message on as it is, to its recipient alone, if both ends are connected.
pub proof fn law_server_forwards_unchanged(
    session: Session,
    record: RegistryView,
    msg: WsExchangeMsg,
    from_id: u128,
    to_id: u128,
    post: Session,
    after: RegistryView,
    action: SessionAction,
)
    requires
        msg.route_spec() == Some((from_id, to_id)),
        crate::session::steps(session, record, SessionEvent::Received(msg), post, after, action),
    ensures
        post == session,
        after == record,
        action is Forward <==> record.mailboxes.contains_key(from_id)
            && record.mailboxes.contains_key(to_id),
        action matches SessionAction::Forward(delivery) ==> delivery == (Delivery {
            to: to_id,
            mailbox: record.mailboxes[to_id],
            msg,
        }),
{
}

/// Two peers that the server knows come to an agreement: the offer of the one reaches the other
/// through the server, which answers it; the answer reaches the first, which sets it on the
/// connection that it made for the other. Each then keeps the other.
pub proof fn law_offer_and_answer_meet(
    record: RegistryView,
    offerer: PeerView,
    answerer: PeerView,
    offerer_info: PeerInfo,
    answerer_info: PeerInfo,
    offer: SessionDescription,
    sent_offer: SessionDescription,
    answer: SessionDescription,
    sent_answer: SessionDescription,
    offerer_session: Session,
    answerer_session: Session,
    post_offer: Session,
    post_answer: Session,
    after_offer: RegistryView,
    after_answer: RegistryView,
    offer_action: SessionAction,
    answer_action: SessionAction,
)
    requires
        record.mailboxes.contains_key(offerer.self_id),
        record.mailboxes.contains_key(answerer.self_id),
        !answerer.others.contains_key(offerer.self_id),
        sent_offer.sdp_type == SdpType::Offer,
        sent_answer.sdp_type == SdpType::Answer,
        crate::session::steps(
            offerer_session,
            record,
            SessionEvent::Received(
                WsExchangeMsg::Sdp {
                    from_id: offerer.self_id,
                    to_id: answerer.self_id,
                    sdp: sent_offer,
                },
            ),
            post_offer,
            after_offer,
            offer_action,
        ),
        crate::session::steps(
            answerer_session,
            after_offer,
            SessionEvent::Received(
                WsExchangeMsg::Sdp {
                    from_id: answerer.self_id,
                    to_id: offerer.self_id,
                    sdp: sent_answer,
                },
            ),
            post_answer,
            after_answer,
            answer_action,
        ),
    ensures
        ({
            let told = crate::peer::start(offerer, WsExchangeMsg::NewPeer(answerer.self_id));
            let replies = offering_replies(offerer_info, offer, sent_offer);
            let (offered, _) = run(offerer, told, replies);
            let offered_calls = calls(offerer, told, replies);
            let asked = crate::peer::start(answerer, offered_calls.last()->msg);
            let answering = answering_replies(answerer_info, answer, sent_answer);
            let (answered, _) = run(answerer, asked, answering);
            let answered_calls = calls(answerer, asked, answering);
            let agreeing = crate::peer::start(offered, answered_calls.last()->msg);
            &&& offered_calls.last() is Send
            &&& offer_action == SessionAction::Forward(
                Delivery {
                    to: answerer.self_id,
                    mailbox: record.mailboxes[answerer.self_id],
                    msg: offered_calls.last()->msg,
                },
            )
            &&& answered_calls.last() is Send
            &&& answer_action == SessionAction::Forward(
                Delivery {
                    to: offerer.self_id,
                    mailbox: record.mailboxes[offerer.self_id],
                    msg: answered_calls.last()->msg,
                },
            )
            &&& agreeing == (PeerStep::Perform {
                stage: PeerStage::ApplyingAnswer { peer: answerer.self_id },
                action: PeerAction::SetRemote { conn: offerer_info.conn, sdp: sent_answer },
            })
            &&& run(offered, agreeing, seq![PeerReply::Done]) == (
                offered,
                PeerStep::Finished(PeerOutcome::Agreed { peer: answerer.self_id }),
            )
            &&& offered.others.get(answerer.self_id) == Some(offerer_info)
            &&& answered.others.get(offerer.self_id) == Some(answerer_info)
        }),
{
    law_new_peer_gets_an_offer(offerer, answerer.self_id, offerer_info, offer, sent_offer);
    law_offer_gets_an_answer(
        answerer,
        offerer.self_id,
        sent_offer,
        answerer_info,
        answer,
        sent_answer,
    );
    let told = crate::peer::start(offerer, WsExchangeMsg::NewPeer(answerer.self_id));
    let (offered, _) = run(offerer, told, offering_replies(offerer_info, offer, sent_offer));
    let agreeing = crate::peer::start(
        offered,
        WsExchangeMsg::Sdp {
            from_id: answerer.self_id,
            to_id: offerer.self_id,
            sdp: sent_answer,
        },
    );
    assert(seq![PeerReply::Done] =~= seq![PeerReply::Done] + Seq::<PeerReply>::empty());
    lemma_run_unfold(offered, agreeing, PeerReply::Done, Seq::empty());
}

/// A candidate is refused as long as its sender is not kept, and once this peer has made that
/// sender its offer, the candidate goes to the connection of the offer.
pub proof fn law_candidate_waits_for_the_connection(
    state: PeerView,
    peer: u128,
    info: PeerInfo,
    offer: SessionDescription,
    local: SessionDescription,
    candidate: IceCandidateInit,
)
    ensures
        ({
            let msg = WsExchangeMsg::IceCandidate {
                from_id: peer,
                to_id: state.self_id,
                candidate,
            };
            let told = crate::peer::start(state, WsExchangeMsg::NewPeer(peer));
            let (offered, _) = run(state, told, offering_replies(info, offer, local));
            &&& !state.others.contains_key(peer) ==> crate::peer::start(state, msg)
                == PeerStep::Failed(PeerError::UnknownCandidatePeer { from_id: peer })
            &&& crate::peer::start(offered, msg) == (PeerStep::Perform {
                stage: PeerStage::AddingCandidate { peer },
                action: PeerAction::AddCandidate { conn: info.conn, candidate },
            })
        }),
{
    law_new_peer_gets_an_offer(state, peer, info, offer, local);
}

/// A peer that arrives: how its session is opened, and what the server does once it is greeted.
pub struct Arrival {
    pub before: RegistryView,
    pub addr: PeerAddr,
    pub mailbox: u64,
    pub drawn: Seq<u128>,
    pub session: Session,
    pub after: RegistryView,
    pub served: Session,
    pub record: RegistryView,
    pub notices: Vec<Delivery>,
}

impl Arrival {
    /// Whether the server opens the session and takes the step on the greeting like this.
    pub open spec fn is_served(self) -> bool {
        &&& crate::session::opens(
            self.before,
            self.addr,
            self.mailbox,
            self.drawn,
            Some(self.session),
            self.after,
        )
        &&& crate::session::steps(
            self.session,
            self.after,
            SessionEvent::WelcomeSent,
            self.served,
            self.record,
            SessionAction::Announce(self.notices),
        )
    }
}

proof fn lemma_arrived_peers_stay(arrivals: Seq<Arrival>, i: int, j: int)
    requires
        forall|k: int| 0 <= k < arrivals.len() ==> (#[trigger] arrivals[k]).is_served(),
        forall|k: int, m: int|
            0 <= k && m == k + 1 && m < arrivals.len() ==> (#[trigger] arrivals[k]).record == (
            #[trigger] arrivals[m]).before,
        0 <= i < j < arrivals.len(),
    ensures
        forall|id: u128| #[trigger]
            arrivals[i].after.mailboxes.contains_key(id)
                ==> arrivals[j].before.mailboxes.contains_key(id)
                && arrivals[j].before.mailboxes[id] == arrivals[i].after.mailboxes[id],
    decreases j - i,
{
    let last = arrivals[j - 1];
    assert(last.is_served());
    assert(last.record == arrivals[j].before);
    crate::session::law_greeted_peer_is_announced(
        last.session,
        last.after,
        last.served,
        last.record,
        SessionAction::Announce(last.notices),
    );
    if i + 1 < j {
        lemma_arrived_peers_stay(arrivals, i, j - 1);
        crate::session::law_session_opens_under_the_first_free_identifier(
            last.before,
            last.addr,
            last.mailbox,
            last.drawn,
            Some(last.session),
            last.after,
        );
        assert forall|id: u128| #[trigger] arrivals[i].after.mailboxes.contains_key(
            id,
        ) implies arrivals[j].before.mailboxes.contains_key(id)
            && arrivals[j].before.mailboxes[id] == arrivals[i].after.mailboxes[id] by {
            assert(last.before.mailboxes.contains_key(id));
        }
    }
}

/// The server links every two peers that arrive one after the other, and links them once: its step
/// on the greeting of the later one brings `NewPeer` of that one to the mailbox of the earlier one,
/// exactly once, and its step on the greeting of the earlier one brings the later one nothing.
pub proof fn law_server_links_every_pair_once(arrivals: Seq<Arrival>, i: int, j: int)
    requires
        forall|k: int| 0 <= k < arrivals.len() ==> (#[trigger] arrivals[k]).is_served(),
        forall|k: int, m: int|
            0 <= k && m == k + 1 && m < arrivals.len() ==> (#[trigger] arrivals[k]).record == (
            #[trigger] arrivals[m]).before,
        0 <= i < j < arrivals.len(),
    ensures
        arrivals[i].session.id != arrivals[j].session.id,
        exists|k: int|
            {
                &&& 0 <= k < arrivals[j].notices@.len()
                &&& #[trigger] arrivals[j].notices@[k] == (Delivery {
                    to: arrivals[i].session.id,
                    mailbox: arrivals[i].mailbox,
                    msg: WsExchangeMsg::NewPeer(arrivals[j].session.id),
                })
                &&& forall|m: int|
                    0 <= m < arrivals[j].notices@.len() && m != k ==> (
                    #[trigger] arrivals[j].notices@[m]).to != arrivals[i].session.id
            },
        forall|m: int|
            0 <= m < arrivals[i].notices@.len() ==> (#[trigger] arrivals[i].notices@[m]).to
                != arrivals[j].session.id,
{
    let first = arrivals[i];
    let last = arrivals[j];
    assert(first.is_served() && last.is_served());
    lemma_arrived_peers_stay(arrivals, i, j);
    crate::session::law_session_opens_under_the_first_free_identifier(
        first.before,
        first.addr,
        first.mailbox,
        first.drawn,
        Some(first.session),
        first.after,
    );
    crate::session::law_session_opens_under_the_first_free_identifier(
        last.before,
        last.addr,
        last.mailbox,
        last.drawn,
        Some(last.session),
        last.after,
    );
    assert(first.after.mailboxes.contains_key(first.session.id));
    assert(last.after.mailboxes.contains_key(first.session.id));
    crate::session::law_greeted_peer_is_announced(
        last.session,
        last.after,
        last.served,
        last.record,
        SessionAction::Announce(last.notices),
    );
    crate::session::law_greeted_peer_is_announced(
        first.session,
        first.after,
        first.served,
        first.record,
        SessionAction::Announce(first.notices),
    );
}

/// A greeting makes a peer of the name that it gives, which knows nobody. No other message makes
/// one.
pub proof fn law_only_a_greeting_makes_a_peer(first: WsExchangeMsg, id: u128, other: u128)
    ensures
        crate::peer::joined(WsExchangeMsg::JoinPeerId(id)) matches Some(state) && state.self_id
            == id && state.others.get(other) is None,
        !(first is JoinPeerId) ==> crate::peer::joined(first) is None,
{
}

proof fn lemma_no_call(state: PeerView, step: PeerStep, replies: Seq<PeerReply>)
    requires
        !(step is Perform),
    ensures
        run(state, step, replies) == (state, step),
        calls(state, step, replies) == Seq::<PeerAction>::empty(),
{
}

/// That a peer left is only noted: no call is made, nothing is sent, and what is kept of every peer
/// stays, of the one that left too.
pub proof fn law_leaving_peer_is_only_noted(state: PeerView, peer: u128, replies: Seq<PeerReply>)
    ensures
        crate::peer::start(state, WsExchangeMsg::LeavePeerId(peer)) == PeerStep::Finished(
            PeerOutcome::PeerLeft { peer },
        ),
        run(state, crate::peer::start(state, WsExchangeMsg::LeavePeerId(peer)), replies) == (
            state,
            PeerStep::Finished(PeerOutcome::PeerLeft { peer }),
        ),
        calls(
            state,
            crate::peer::start(state, WsExchangeMsg::LeavePeerId(peer)),
            replies,
        ).len() == 0,
{
    lemma_no_call(state, crate::peer::start(state, WsExchangeMsg::LeavePeerId(peer)), replies);
}

/// A peer that has been greeted refuses another greeting, without a call.
pub proof fn law_second_greeting_is_refused(state: PeerView, id: u128, replies: Seq<PeerReply>)
    ensures
        run(state, crate::peer::start(state, WsExchangeMsg::JoinPeerId(id)), replies) == (
            state,
            PeerStep::Failed(PeerError::Unexpected { id }),
        ),
        calls(state, crate::peer::start(state, WsExchangeMsg::JoinPeerId(id)), replies).len() == 0,
{
    lemma_no_call(state, crate::peer::start(state, WsExchangeMsg::JoinPeerId(id)), replies);
}

/// A description or a candidate for somebody else is refused, without a call, whoever sent it.
pub proof fn law_message_for_another_is_refused(
    state: PeerView,
    from_id: u128,
    to_id: u128,
    sdp: SessionDescription,
    candidate: IceCandidateInit,
    replies: Seq<PeerReply>,
)
    requires
        to_id != state.self_id,
    ensures
        ({
            let step = crate::peer::start(state, WsExchangeMsg::Sdp { from_id, to_id, sdp });
            &&& run(state, step, replies) == (
                state,
                PeerStep::Failed(PeerError::MisdirectedSdp { to_id }),
            )
            &&& calls(state, step, replies).len() == 0
        }),
        ({
            let step = crate::peer::start(
                state,
                WsExchangeMsg::IceCandidate { from_id, to_id, candidate },
            );
            &&& run(state, step, replies) == (
                state,
                PeerStep::Failed(PeerError::MisdirectedCandidate { to_id }),
            )
            &&& calls(state, step, replies).len() == 0
        }),
{
    lemma_no_call(
        state,
        crate::peer::start(state, WsExchangeMsg::Sdp { from_id, to_id, sdp }),
        replies,
    );
    lemma_no_call(
        state,
        crate::peer::start(state, WsExchangeMsg::IceCandidate { from_id, to_id, candidate }),
        replies,
    );
}

/// An offer from a peer that is known is refused, without a call.
pub proof fn law_offer_of_a_known_peer_is_refused(
    state: PeerView,
    peer: u128,
    offer: SessionDescription,
    replies: Seq<PeerReply>,
)
    requires
        offer.sdp_type == SdpType::Offer,
        state.others.get(peer) is Some,
    ensures
        ({
            let step = crate::peer::start(
                state,
                WsExchangeMsg::Sdp { from_id: peer, to_id: state.self_id, sdp: offer },
            );
            &&& run(state, step, replies) == (
                state,
                PeerStep::Failed(PeerError::Renegotiation { from_id: peer }),
            )
            &&& calls(state, step, replies).len() == 0
        }),
{
    lemma_no_call(
        state,
        crate::peer::start(
            state,
            WsExchangeMsg::Sdp { from_id: peer, to_id: state.self_id, sdp: offer },
        ),
        replies,
    );
}

/// A description that is neither an offer nor an answer is passed over, without a call.
pub proof fn law_other_descriptions_are_passed_over(
    state: PeerView,
    peer: u128,
    sdp: SessionDescription,
    replies: Seq<PeerReply>,
)
    requires
        sdp.sdp_type != SdpType::Offer,
        sdp.sdp_type != SdpType::Answer,
    ensures
        ({
            let step = crate::peer::start(
                state,
                WsExchangeMsg::Sdp { from_id: peer, to_id: state.self_id, sdp },
            );
            &&& run(state, step, replies) == (
                state,
                PeerStep::Finished(PeerOutcome::UnsupportedSdp { sdp_type: sdp.sdp_type }),
            )
            &&& calls(state, step, replies).len() == 0
        }),
{
    lemma_no_call(
        state,
        crate::peer::start(
            state,
            WsExchangeMsg::Sdp { from_id: peer, to_id: state.self_id, sdp },
        ),
        replies,
    );
}

/// An answer is set on the connection that is kept of its sender, in one call, and then the two
/// agree; what is kept stays. An answer from a peer that is not known is refused, without a call.
pub proof fn law_answer_reaches_its_connection(
    state: PeerView,
    peer: u128,
    answer: SessionDescription,
    replies: Seq<PeerReply>,
)
    requires
        answer.sdp_type == SdpType::Answer,
    ensures
        ({
            let step = crate::peer::start(
                state,
                WsExchangeMsg::Sdp { from_id: peer, to_id: state.self_id, sdp: answer },
            );
            &&& state.others.get(peer) matches Some(info) ==> {
                &&& calls(state, step, replies) == seq![
                    PeerAction::SetRemote { conn: info.conn, sdp: answer },
                ]
                &&& run(state, step, seq![PeerReply::Done]) == (
                    state,
                    PeerStep::Finished(PeerOutcome::Agreed { peer }),
                )
            }
            &&& state.others.get(peer) is None ==> {
                &&& calls(state, step, replies).len() == 0
                &&& run(state, step, replies) == (
                    state,
                    PeerStep::Failed(PeerError::UnknownAnswerer { from_id: peer }),
                )
            }
        }),
{
    let step = crate::peer::start(
        state,
        WsExchangeMsg::Sdp { from_id: peer, to_id: state.self_id, sdp: answer },
    );
    lemma_one_call(state, step, replies);
}

/// A candidate is added to the connection that is kept of its sender, in one call; what is kept
/// stays. A candidate from a peer that is not known is refused, without a call.
pub proof fn law_candidate_reaches_its_connection(
    state: PeerView,
    peer: u128,
    candidate: IceCandidateInit,
    replies: Seq<PeerReply>,
)
    ensures
        ({
            let step = crate::peer::start(
                state,
                WsExchangeMsg::IceCandidate { from_id: peer, to_id: state.self_id, candidate },
            );
            &&& state.others.get(peer) matches Some(info) ==> {
                &&& calls(state, step, replies) == seq![
                    PeerAction::AddCandidate { conn: info.conn, candidate },
                ]
                &&& run(state, step, seq![PeerReply::Done]) == (
                    state,
                    PeerStep::Finished(PeerOutcome::CandidateAdded { peer }),
                )
            }
            &&& state.others.get(peer) is None ==> {
                &&& calls(state, step, replies).len() == 0
                &&& run(state, step, replies) == (
                    state,
                    PeerStep::Failed(PeerError::UnknownCandidatePeer { from_id: peer }),
                )
            }
        }),
{
    let step = crate::peer::start(
        state,
        WsExchangeMsg::IceCandidate { from_id: peer, to_id: state.self_id, candidate },
    );
    lemma_one_call(state, step, replies);
}

proof fn lemma_one_call(state: PeerView, step: PeerStep, replies: Seq<PeerReply>)
    requires
        step matches PeerStep::Perform { stage, .. } ==> stage is ApplyingAnswer
            || stage is AddingCandidate,
    ensures
        step matches PeerStep::Perform { stage, action } ==> {
            &&& calls(state, step, replies) == seq![action]
            &&& run(state, step, seq![PeerReply::Done]) == crate::peer::resumed(
                state,
                stage,
                PeerReply::Done,
            )
        },
        !(step is Perform) ==> run(state, step, replies) == (state, step) && calls(
            state,
            step,
            replies,
        ) == Seq::<PeerAction>::empty(),
{
    if step is Perform {
        let done = crate::peer::resumed(state, step->stage, PeerReply::Done);
        assert(seq![PeerReply::Done] =~= seq![PeerReply::Done] + Seq::<PeerReply>::empty());
        lemma_run_unfold(state, step, PeerReply::Done, Seq::empty());
        lemma_no_call(done.0, done.1, Seq::empty());
        if replies.len() > 0 {
            let next = crate::peer::resumed(state, step->stage, replies[0]);
            lemma_no_call(next.0, next.1, replies.drop_first());
            assert(calls(state, step, replies) =~= seq![step->action]);
        }
    }
}

/// Whether handling `msg` puts the peer on the answering side.
spec fn is_answered(msg: WsExchangeMsg) -> bool {
    msg matches WsExchangeMsg::Sdp { sdp, .. } && sdp.sdp_type == SdpType::Offer
}

/// Whether the call of a step is the one that its stage waits for, in the handling of `msg`.
spec fn fits(msg: WsExchangeMsg, step: PeerStep) -> bool {
    step matches PeerStep::Perform { stage, action } ==> {
        &&& stage.peer() == counterpart(msg)
        &&& match stage {
            PeerStage::Connecting { plan, .. } => action is Connect && (plan is Answer
                <==> is_answered(msg)),
            PeerStage::AddingMedia { plan, .. } => action is AddMedia && (plan is Answer
                <==> is_answered(msg)),
            PeerStage::SettingRemote { .. } => action is SetRemote && is_answered(msg),
            PeerStage::CreatingDescription { role, .. } => (role == Role::Answering
                <==> is_answered(msg)) && if is_answered(msg) {
                action is CreateAnswer
            } else {
                action is CreateOffer
            },
            PeerStage::SettingLocal { role, .. } => action is SetLocal && (role == Role::Answering
                <==> is_answered(msg)),
            PeerStage::QueryingLocal { role, .. } => action is QueryLocal && (role
                == Role::Answering <==> is_answered(msg)),
            PeerStage::Sending { role, .. } => action is Send && (role == Role::Answering
                <==> is_answered(msg)),
            PeerStage::ApplyingAnswer { .. } => action is SetRemote && !is_answered(msg),
            PeerStage::AddingCandidate { .. } => action is AddCandidate,
        }
    }
}

proof fn lemma_run_fits(
    msg: WsExchangeMsg,
    state: PeerView,
    step: PeerStep,
    replies: Seq<PeerReply>,
)
    requires
        fits(msg, step),
    ensures
        fits(msg, run(state, step, replies).1),
    decreases replies.len(),
{
    if step is Perform && replies.len() > 0 {
        let (next_state, next_step) = crate::peer::resumed(state, step->stage, replies[0]);
        lemma_run_fits(msg, next_state, next_step, replies.drop_first());
    }
}

proof fn lemma_run_push(
    state: PeerView,
    step: PeerStep,
    replies: Seq<PeerReply>,
    reply: PeerReply,
)
    requires
        run(state, step, replies).1 is Perform,
    ensures
        run(state, step, replies.push(reply)) == crate::peer::resumed(
            run(state, step, replies).0,
            run(state, step, replies).1->stage,
            reply,
        ),
    decreases replies.len(),
{
    if replies.len() == 0 {
        let next = crate::peer::resumed(state, step->stage, reply);
        assert(replies.push(reply) =~= seq![reply] + Seq::<PeerReply>::empty());
        lemma_run_unfold(state, step, reply, Seq::empty());
        assert(run(next.0, next.1, Seq::empty()) == next);
    } else {
        let (next_state, next_step) = crate::peer::resumed(state, step->stage, replies[0]);
        lemma_run_push(next_state, next_step, replies.drop_first(), reply);
        assert(replies.push(reply).drop_first() =~= replies.drop_first().push(reply));
    }
}

/// Where a call fails, handling the message ends there with an error that names the call, the peer
/// that the message is about, and the side that this peer is on: it answers an offer, and offers
/// else. What is kept is what was kept before the call.
pub proof fn law_failed_call_is_reported(
    state: PeerView,
    msg: WsExchangeMsg,
    replies: Seq<PeerReply>,
    failed: PeerReply,
)
    requires
        run(state, crate::peer::start(state, msg), replies).1 is Perform,
        failed is Failed || failed is Undescribed,
    ensures
        ({
            let step = crate::peer::start(state, msg);
            let (at, waiting) = run(state, step, replies);
            let peer = match msg {
                WsExchangeMsg::NewPeer(id) => id,
                WsExchangeMsg::Sdp { from_id, .. } => from_id,
                WsExchangeMsg::IceCandidate { from_id, .. } => from_id,
                WsExchangeMsg::JoinPeerId(id) => id,
                WsExchangeMsg::LeavePeerId(id) => id,
            };
            let role = if msg matches WsExchangeMsg::Sdp { sdp, .. } && sdp.sdp_type
                == SdpType::Offer {
                Role::Answering
            } else {
                Role::Offering
            };
            run(state, step, replies.push(failed)) == (
                at,
                PeerStep::Failed(
                    match waiting->action {
                        PeerAction::Connect { .. } => PeerError::Connect { role, peer },
                        PeerAction::AddMedia { .. } => PeerError::AddMedia { role, peer },
                        PeerAction::SetRemote { .. } => PeerError::SetRemote { role, peer },
                        PeerAction::CreateOffer { .. } => PeerError::CreateDescription {
                            role: Role::Offering,
                            peer,
                        },
                        PeerAction::CreateAnswer { .. } => PeerError::CreateDescription {
                            role: Role::Answering,
                            peer,
                        },
                        PeerAction::SetLocal { .. } => PeerError::SetLocal { role, peer },
                        PeerAction::QueryLocal { .. } => PeerError::NoLocalDescription {
                            role,
                            peer,
                        },
                        PeerAction::Send { .. } => PeerError::Send { role, peer },
                        PeerAction::AddCandidate { .. } => PeerError::AddCandidate { peer },
                    },
                ),
            )
        }),
{
    let step = crate::peer::start(state, msg);
    lemma_run_fits(msg, state, step, replies);
    lemma_run_push(state, step, replies, failed);
}

/// Which outcomes a call can have: it gives what it is made for, or fails; a query for the local
/// description finds one or none.
pub proof fn law_outcomes_of_a_call(
    state: PeerView,
    msg: WsExchangeMsg,
    replies: Seq<PeerReply>,
    reply: PeerReply,
)
    requires
        run(state, crate::peer::start(state, msg), replies).1 is Perform,
    ensures
        ({
            let waiting = run(state, crate::peer::start(state, msg), replies).1;
            waiting->stage.expects_spec(reply) <==> match waiting->action {
                PeerAction::Connect { .. } => reply is Connected || reply is Failed,
                PeerAction::AddMedia { .. } => reply is MediaAdded || reply is Failed,
                PeerAction::CreateOffer { .. } => reply is Described || reply is Failed,
                PeerAction::CreateAnswer { .. } => reply is Described || reply is Failed,
                PeerAction::QueryLocal { .. } => reply is Described || reply is Undescribed,
                PeerAction::SetRemote { .. } => reply is Done || reply is Failed,
                PeerAction::SetLocal { .. } => reply is Done || reply is Failed,
                PeerAction::Send { .. } => reply is Done || reply is Failed,
                PeerAction::AddCandidate { .. } => reply is Done || reply is Failed,
            }
        }),
{
    lemma_run_fits(msg, state, crate::peer::start(state, msg), replies);
}

/// What the server greets a peer with makes the peer of the session, and what that peer sends last
/// is the farewell that the server removes it for, whatever messages the peer has handled in
/// between.
pub proof fn law_greeting_and_farewell_match(
    session: Session,
    record: RegistryView,
    history: Seq<(WsExchangeMsg, Seq<PeerReply>)>,
    post: Session,
    after: RegistryView,
    action: SessionAction,
)
    requires
        record.residents.get(session.addr) == Some(session.id),
        crate::session::steps(
            session,
            record,
            SessionEvent::Received(
                crate::peer::parting(
                    after_messages(crate::peer::joined(session.greeting()).unwrap(), history),
                ),
            ),
            post,
            after,
            action,
        ),
    ensures
        crate::peer::joined(session.greeting()) matches Some(state) && state.self_id == session.id,
        action is Farewell,
        after.mailboxes == record.mailboxes.remove(session.id),
        after.residents == record.residents.remove(session.addr),
{
    law_known_peers_stay_known(crate::peer::joined(session.greeting()).unwrap(), history);
    crate::session::law_farewell_removes_the_peer(
        session,
        record,
        session.id,
        post,
        after,
        action,
    );
}

/// A candidate that a peer gathers for its connection to another goes through the server to that
/// one, and is added there to the connection that is kept of the first.
pub proof fn law_gathered_candidate_reaches_the_other_peer(
    gatherer: u128,
    other: PeerView,
    info: PeerInfo,
    candidate: IceCandidateInit,
    session: Session,
    record: RegistryView,
    mailbox: u64,
    post: Session,
    after: RegistryView,
    action: SessionAction,
)
    requires
        record.mailboxes.get(gatherer) is Some,
        record.mailboxes.get(other.self_id) == Some(mailbox),
        other.others.get(gatherer) == Some(info),
        crate::session::steps(
            session,
            record,
            SessionEvent::Received(
                crate::handler::candidate_for(gatherer, other.self_id, candidate),
            ),
            post,
            after,
            action,
        ),
    ensures
        action matches SessionAction::Forward(delivery) && {
            &&& delivery.to == other.self_id
            &&& delivery.mailbox == mailbox
            &&& crate::peer::start(other, delivery.msg) == (PeerStep::Perform {
                stage: PeerStage::AddingCandidate { peer: gatherer },
                action: PeerAction::AddCandidate { conn: info.conn, candidate },
            })
        },
{
    crate::session::law_candidate_goes_to_its_recipient(
        session,
        record,
        gatherer,
        other.self_id,
        candidate,
        post,
        after,
        action,
    );
}

} // verus!
