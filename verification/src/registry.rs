//! The signaling server's record of who is connected.
use crate::message::WsExchangeMsg;
use crate::tables::PeerAddr;
use crate::tables::{
    get_mailbox, get_resident, insert_mailbox, insert_resident, mailbox_entries, new_mailboxes,
    new_residents, remove_mailbox, remove_resident,
};
use dashmap::DashMap;
use vstd::prelude::*;

verus! {

/// A message to put into the mailbox of a peer.
#[derive(Clone, Debug, PartialEq, Eq)]
pub struct Delivery {
    pub to: u128,
    pub mailbox: u64,
    pub msg: WsExchangeMsg,
}

/// The record as two maps: the mailbox of each peer, and the peer behind each address.
#[verifier::ext_equal]
pub struct RegistryView {
    pub mailboxes: Map<u128, u64>,
    pub residents: Map<PeerAddr, u128>,
}

impl RegistryView {
    pub open spec fn empty() -> RegistryView {
        RegistryView { mailboxes: Map::empty(), residents: Map::empty() }
    }

    /// Every address belongs to a peer that has a mailbox, and no two to the same peer.
    pub open spec fn wf(self) -> bool {
        &&& forall|addr: PeerAddr| #[trigger]
            self.residents.contains_key(addr) ==> self.mailboxes.contains_key(self.residents[addr])
        &&& forall|a: PeerAddr, b: PeerAddr|
            #![trigger self.residents[a], self.residents[b]]
            self.residents.contains_key(a) && self.residents.contains_key(b) && self.residents[a]
                == self.residents[b] ==> a == b
    }

    /// Every peer that has a mailbox has an address.
    pub open spec fn all_addressed(self) -> bool {
        forall|id: u128| #[trigger]
            self.mailboxes.contains_key(id) ==> exists|addr: PeerAddr| #[trigger]
                self.residents.contains_key(addr) && self.residents[addr] == id
    }

    /// The record after the peer `id` joined from `addr`.
    pub open spec fn enrolled(self, addr: PeerAddr, id: u128, mailbox: u64) -> RegistryView {
        RegistryView {
            mailboxes: self.mailboxes.insert(id, mailbox),
            residents: self.residents.insert(addr, id),
        }
    }

    /// The mailbox of the peer at `addr`.
    pub open spec fn mailbox_at(self, addr: PeerAddr) -> Option<u64> {
        if self.residents.contains_key(addr) {
            self.mailboxes.get(self.residents[addr])
        } else {
            None
        }
    }

    /// The record after the peer at `addr`, if there is one, is removed.
    pub open spec fn vacated(self, addr: PeerAddr) -> RegistryView {
        if self.residents.contains_key(addr) {
            RegistryView {
                mailboxes: self.mailboxes.remove(self.residents[addr]),
                residents: self.residents.remove(addr),
            }
        } else {
            self
        }
    }
}

/// Whether `deliveries` brings `msg` once to each peer of `mailboxes` but `skipped`, and to nobody
/// else.
pub open spec fn tells_all(
    deliveries: Seq<Delivery>,
    mailboxes: Map<u128, u64>,
    skipped: Option<u128>,
    msg: WsExchangeMsg,
) -> bool {
    &&& forall|i: int, j: int|
        0 <= i < j < deliveries.len() ==> (#[trigger] deliveries[i]).to != (
        #[trigger] deliveries[j]).to
    &&& forall|i: int|
        0 <= i < deliveries.len() ==> {
            let delivery = #[trigger] deliveries[i];
            &&& mailboxes.contains_key(delivery.to)
            &&& skipped != Some(delivery.to)
            &&& delivery.mailbox == mailboxes[delivery.to]
            &&& delivery.msg == msg
        }
    &&& forall|id: u128| #[trigger]
        mailboxes.contains_key(id) && skipped != Some(id) ==> exists|i: int|
            0 <= i < deliveries.len() && (#[trigger] deliveries[i]).to == id
}

/// Whether `id` is the first of the identifiers `drawn` that no peer of `mailboxes` goes by, or
/// nothing where all of them are taken.
pub open spec fn is_first_free(
    mailboxes: Map<u128, u64>,
    drawn: Seq<u128>,
    id: Option<u128>,
) -> bool {
    match id {
        Some(id) => exists|k: int|
            {
                &&& 0 <= k < drawn.len()
                &&& #[trigger] drawn[k] == id
                &&& !mailboxes.contains_key(id)
                &&& forall|m: int| 0 <= m < k ==> mailboxes.contains_key(#[trigger] drawn[m])
            },
        None => forall|k: int|
            0 <= k < drawn.len() ==> mailboxes.contains_key(#[trigger] drawn[k]),
    }
}

/// Whether `drawn` holds `count` random identifiers.
pub open spec fn random_ids(drawn: Seq<u128>, count: nat) -> bool {
    &&& drawn.len() == count
    &&& forall|k: int| 0 <= k < drawn.len() ==> crate::ids::is_random_id(#[trigger] drawn[k])
}

/// Draws `count` random identifiers.
pub(crate) fn draw_ids(count: usize) -> (drawn: Vec<u128>)
    ensures
        random_ids(drawn@, count as nat),
{
    let mut drawn: Vec<u128> = Vec::new();
    while drawn.len() < count
        invariant
            drawn.len() <= count,
            random_ids(drawn@, drawn.len() as nat),
        decreases count - drawn.len(),
    {
        drawn.push(crate::ids::random_id());
    }
    drawn
}

/// The kind of notice that is broadcast.
enum Notice {
    Joined,
    Left,
}

spec fn notice_msg(notice: Notice, id: u128) -> WsExchangeMsg {
    match notice {
        Notice::Joined => WsExchangeMsg::NewPeer(id),
        Notice::Left => WsExchangeMsg::LeavePeerId(id),
    }
}

proof fn lemma_enrolled_wf(record: RegistryView, addr: PeerAddr, id: u128, mailbox: u64)
    requires
        record.wf(),
        !record.mailboxes.contains_key(id),
    ensures
        record.enrolled(addr, id, mailbox).wf(),
{
    let after = record.enrolled(addr, id, mailbox);
    assert forall|a: PeerAddr| #[trigger] after.residents.contains_key(a) implies after.mailboxes.contains_key(
        after.residents[a],
    ) by {
        if a != addr {
            assert(record.residents.contains_key(a));
        }
    }
    assert forall|a: PeerAddr, b: PeerAddr|
        #![trigger after.residents[a], after.residents[b]]
        after.residents.contains_key(a) && after.residents.contains_key(b) && after.residents[a]
            == after.residents[b] implies a == b by {
        if a != addr {
            assert(record.residents.contains_key(a));
        }
        if b != addr {
            assert(record.residents.contains_key(b));
        }
    }
}

/// The record of who is connected.
pub struct Registry {
    /// The mailbox of each peer.
    mailboxes: DashMap<u128, u64>,
    /// The peer behind each address.
    residents: DashMap<PeerAddr, u128>,
}

impl View for Registry {
    type V = RegistryView;

    closed spec fn view(&self) -> RegistryView {
        RegistryView {
            mailboxes: crate::tables::mailboxes(self.mailboxes),
            residents: crate::tables::residents(self.residents),
        }
    }
}

impl Registry {
    pub fn new() -> (registry: Registry)
        ensures
            registry@ == RegistryView::empty(),
            registry@.wf(),
    {
        Registry { mailboxes: new_mailboxes(), residents: new_residents() }
    }

    /// The mailbox of the peer `id`.
    pub fn mailbox_of(&self, id: u128) -> (mailbox: Option<u64>)
        ensures
            mailbox == self@.mailboxes.get(id),
    {
        get_mailbox(&self.mailboxes, id)
    }

    /// The peer behind `addr`.
    pub fn resident_of(&self, addr: PeerAddr) -> (id: Option<u128>)
        ensures
            id == self@.residents.get(addr),
    {
        get_resident(&self.residents, addr)
    }

    /// Lets the peer `id` join from `addr`, if no peer goes by `id`; its mailbox is then `mailbox`.
    ///
    /// Returns the message that greets the peer, or nothing if the identifier is taken.
    pub fn enroll(&mut self, addr: PeerAddr, id: u128, mailbox: u64) -> (welcome: Option<
        WsExchangeMsg,
    >)
        requires
            old(self)@.wf(),
        ensures
            final(self)@.wf(),
            old(self)@.mailboxes.contains_key(id) ==> welcome is None && final(self)@
                == old(self)@,
            !old(self)@.mailboxes.contains_key(id) ==> welcome == Some(
                WsExchangeMsg::JoinPeerId(id),
            ) && final(self)@ == old(self)@.enrolled(addr, id, mailbox),
    {
        if self.mailbox_of(id).is_some() {
            return None;
        }
        insert_mailbox(&mut self.mailboxes, id, mailbox);
        insert_resident(&mut self.residents, addr, id);
        proof {
            lemma_enrolled_wf(old(self)@, addr, id, mailbox);
        }
        Some(WsExchangeMsg::JoinPeerId(id))
    }

    /// Lets the peer at `addr` join under the first of the identifiers `drawn` that no peer goes by.
    ///
    /// Returns the identifier, or nothing if all of them are taken.
    pub fn enroll_drawn(&mut self, addr: PeerAddr, drawn: &Vec<u128>, mailbox: u64) -> (id: Option<
        u128,
    >)
        requires
            old(self)@.wf(),
        ensures
            final(self)@.wf(),
            is_first_free(old(self)@.mailboxes, drawn@, id),
            final(self)@ == match id {
                Some(id) => old(self)@.enrolled(addr, id, mailbox),
                None => old(self)@,
            },
    {
        let mut k: usize = 0;
        while k < drawn.len()
            invariant
                k <= drawn.len(),
                self@ == old(self)@,
                self@.wf(),
                forall|m: int|
                    0 <= m < k ==> old(self)@.mailboxes.contains_key(#[trigger] drawn@[m]),
            decreases drawn.len() - k,
        {
            let id: u128 = drawn[k];
            if self.enroll(addr, id, mailbox).is_some() {
                assert(drawn@[k as int] == id);
                return Some(id);
            }
            k = k + 1;
        }
        None
    }

    /// Removes the peer at `addr`, if there is one. Returns its mailbox, which nothing refers to
    /// any more.
    pub fn remove_peer_addr(&mut self, addr: PeerAddr) -> (mailbox: Option<u64>)
        requires
            old(self)@.wf(),
        ensures
            final(self)@ == old(self)@.vacated(addr),
            final(self)@.wf(),
            mailbox == old(self)@.mailbox_at(addr),
    {
        match self.resident_of(addr) {
            Some(id) => {
                let mailbox: Option<u64> = remove_mailbox(&mut self.mailboxes, id);
                remove_resident(&mut self.residents, addr);
                mailbox
            },
            None => None,
        }
    }

    fn broadcast(&self, skipped: Option<u128>, notice: Notice, id: u128) -> (deliveries: Vec<
        Delivery,
    >)
        ensures
            tells_all(deliveries@, self@.mailboxes, skipped, notice_msg(notice, id)),
    {
        let entries: Vec<(u128, u64)> = mailbox_entries(&self.mailboxes);
        let mut deliveries: Vec<Delivery> = Vec::new();
        let mut i: usize = 0;
        while i < entries.len()
            invariant
                i <= entries.len(),
                crate::tables::lists(entries@, self@.mailboxes),
                forall|a: int, b: int|
                    0 <= a < b < deliveries.len() ==> (#[trigger] deliveries[a]).to != (
                    #[trigger] deliveries[b]).to,
                forall|a: int|
                    0 <= a < deliveries.len() ==> {
                        let delivery = #[trigger] deliveries[a];
                        &&& exists|k: int| 0 <= k < i && (#[trigger] entries[k]).0 == delivery.to
                        &&& self@.mailboxes.contains_key(delivery.to)
                        &&& skipped != Some(delivery.to)
                        &&& delivery.mailbox == self@.mailboxes[delivery.to]
                        &&& delivery.msg == notice_msg(notice, id)
                    },
                forall|k: int|
                    0 <= k < i && skipped != Some((#[trigger] entries[k]).0) ==> exists|a: int|
                        0 <= a < deliveries.len() && (#[trigger] deliveries[a]).to == entries[k].0,
            decreases entries.len() - i,
        {
            let (to, mailbox): (u128, u64) = entries[i];
            let skip: bool = match skipped {
                Some(other) => other == to,
                None => false,
            };
            if !skip {
                let msg: WsExchangeMsg = match &notice {
                    Notice::Joined => WsExchangeMsg::NewPeer(id),
                    Notice::Left => WsExchangeMsg::LeavePeerId(id),
                };
                let ghost before = deliveries@;
                deliveries.push(Delivery { to, mailbox, msg });
                assert forall|k: int|
                    0 <= k < i + 1 && skipped != Some((#[trigger] entries[k]).0) implies exists|
                    a: int,
                |
                    0 <= a < deliveries.len() && (#[trigger] deliveries[a]).to == entries[k].0 by {
                    if k < i {
                        let a = choose|a: int|
                            0 <= a < before.len() && (#[trigger] before[a]).to == entries[k].0;
                        assert(deliveries[a].to == entries[k].0);
                    } else {
                        assert(deliveries[before.len() as int].to == entries[k].0);
                    }
                }
            }
            i = i + 1;
        }
        assert forall|other: u128| #[trigger]
            self@.mailboxes.contains_key(other) && skipped != Some(other) implies exists|a: int|
            0 <= a < deliveries.len() && (#[trigger] deliveries[a]).to == other by {
            let k = choose|k: int| 0 <= k < entries.len() && (#[trigger] entries[k]).0 == other;
            assert(skipped != Some(entries[k].0));
        }
        deliveries
    }

    /// Tells every other peer that the peer `id` joined.
    pub fn announce(&self, id: u128) -> (deliveries: Vec<Delivery>)
        ensures
            tells_all(deliveries@, self@.mailboxes, Some(id), WsExchangeMsg::NewPeer(id)),
    {
        self.broadcast(Some(id), Notice::Joined, id)
    }

    /// Tells every peer that the peer `id` left.
    pub fn announce_left(&self, id: u128) -> (deliveries: Vec<Delivery>)
        ensures
            tells_all(deliveries@, self@.mailboxes, None, WsExchangeMsg::LeavePeerId(id)),
    {
        self.broadcast(None, Notice::Left, id)
    }

    /// Tells every other peer that the peer `id` leaves.
    pub fn announce_leaving(&self, id: u128) -> (deliveries: Vec<Delivery>)
        ensures
            tells_all(deliveries@, self@.mailboxes, Some(id), WsExchangeMsg::LeavePeerId(id)),
    {
        self.broadcast(Some(id), Notice::Left, id)
    }

    /// The peers that are connected, each once.
    pub fn peer_ids(&self) -> (ids: Vec<u128>)
        ensures
            ids@.no_duplicates(),
            forall|id: u128| #[trigger] ids@.contains(id) <==> self@.mailboxes.contains_key(id),
    {
        let entries: Vec<(u128, u64)> = mailbox_entries(&self.mailboxes);
        let mut ids: Vec<u128> = Vec::new();
        let mut i: usize = 0;
        while i < entries.len()
            invariant
                i <= entries.len(),
                ids.len() == i,
                forall|k: int| 0 <= k < i ==> #[trigger] ids[k] == entries[k].0,
            decreases entries.len() - i,
        {
            ids.push(entries[i].0);
            i = i + 1;
        }
        assert forall|id: u128| #[trigger] ids@.contains(id) <==> self@.mailboxes.contains_key(
            id,
        ) by {
            if ids@.contains(id) {
                let k = choose|k: int| 0 <= k < ids.len() && ids@[k] == id;
                assert(entries[k].0 == ids[k]);
            }
            if self@.mailboxes.contains_key(id) {
                let k = choose|k: int| 0 <= k < entries.len() && (#[trigger] entries[k]).0 == id;
                assert(ids[k] == id);
            }
        }
        assert forall|a: int, b: int| 0 <= a < ids.len() && 0 <= b < ids.len() && a != b implies ids@[a]
            != ids@[b] by {
            if a < b {
                assert(entries[a].0 != entries[b].0);
            } else {
                assert(entries[b].0 != entries[a].0);
            }
        }
        ids
    }
}

/// At first nobody is connected.
pub proof fn law_nobody_is_connected_at_first()
    ensures
        forall|id: u128| RegistryView::empty().mailboxes.get(id) is None,
        forall|addr: PeerAddr| RegistryView::empty().residents.get(addr) is None,
{
}

/// A record is consistent if and only if the peer behind each address has a mailbox, and addresses
/// that differ have different peers behind them.
pub proof fn law_consistent_record(record: RegistryView)
    ensures
        record.wf() <==> {
            &&& forall|addr: PeerAddr|
                record.residents.get(addr) is Some ==> record.mailboxes.get(
                    #[trigger] record.residents[addr],
                ) is Some
            &&& forall|a: PeerAddr, b: PeerAddr|
                a != b && record.residents.get(a) is Some && record.residents.get(b) is Some
                    ==> #[trigger] record.residents[a] != #[trigger] record.residents[b]
        },
{
    if forall|addr: PeerAddr|
        record.residents.get(addr) is Some ==> record.mailboxes.get(
            #[trigger] record.residents[addr],
        ) is Some {
        assert forall|addr: PeerAddr| #[trigger] record.residents.contains_key(
            addr,
        ) implies record.mailboxes.contains_key(record.residents[addr]) by {
            assert(record.residents.get(addr) is Some);
            assert(record.mailboxes.get(record.residents[addr]) is Some);
        }
    }
    if record.wf() {
        assert forall|addr: PeerAddr| record.residents.get(addr) is Some implies record.mailboxes.get(
            #[trigger] record.residents[addr],
        ) is Some by {
            assert(record.residents.contains_key(addr));
        }
    }
}

/// A peer that joins has the mailbox and the address that it joins with. Every other peer keeps its
/// mailbox, and every other address the peer behind it.
pub proof fn law_joining_adds_one_peer(
    record: RegistryView,
    addr: PeerAddr,
    id: u128,
    mailbox: u64,
    other: u128,
    elsewhere: PeerAddr,
)
    ensures
        record.enrolled(addr, id, mailbox).mailboxes.get(id) == Some(mailbox),
        record.enrolled(addr, id, mailbox).residents.get(addr) == Some(id),
        other != id ==> record.enrolled(addr, id, mailbox).mailboxes.get(other)
            == record.mailboxes.get(other),
        elsewhere != addr ==> record.enrolled(addr, id, mailbox).residents.get(elsewhere)
            == record.residents.get(elsewhere),
{
}

/// What is dropped when the peer at an address is removed is the mailbox of that peer, and nothing
/// where there is none.
pub proof fn law_mailbox_at_an_address_is_its_peers(record: RegistryView, addr: PeerAddr)
    ensures
        record.residents.get(addr) matches Some(id) ==> record.mailbox_at(addr)
            == record.mailboxes.get(id),
        record.residents.get(addr) is None ==> record.mailbox_at(addr) is None,
{
}

/// A notice to all but one reaches each of the others in its own mailbox, once, and nobody else.
pub proof fn law_notice_reaches_each_peer_once(
    deliveries: Seq<Delivery>,
    mailboxes: Map<u128, u64>,
    skipped: Option<u128>,
    msg: WsExchangeMsg,
)
    requires
        tells_all(deliveries, mailboxes, skipped, msg),
    ensures
        forall|id: u128| #[trigger]
            mailboxes.contains_key(id) && skipped != Some(id) ==> exists|k: int|
                {
                    &&& 0 <= k < deliveries.len()
                    &&& #[trigger] deliveries[k] == (Delivery { to: id, mailbox: mailboxes[id], msg })
                    &&& forall|m: int|
                        0 <= m < deliveries.len() && m != k ==> (#[trigger] deliveries[m]).to != id
                },
        forall|k: int|
            0 <= k < deliveries.len() ==> mailboxes.contains_key((#[trigger] deliveries[k]).to)
                && skipped != Some(deliveries[k].to),
{
    assert forall|id: u128| #[trigger]
        mailboxes.contains_key(id) && skipped != Some(id) implies exists|k: int|
        {
            &&& 0 <= k < deliveries.len()
            &&& #[trigger] deliveries[k] == (Delivery { to: id, mailbox: mailboxes[id], msg })
            &&& forall|m: int|
                0 <= m < deliveries.len() && m != k ==> (#[trigger] deliveries[m]).to != id
        } by {
        let k = choose|k: int| 0 <= k < deliveries.len() && (#[trigger] deliveries[k]).to == id;
        assert(deliveries[k] == (Delivery { to: id, mailbox: mailboxes[id], msg }));
        assert forall|m: int| 0 <= m < deliveries.len() && m != k implies (
        #[trigger] deliveries[m]).to != id by {
            if m < k {
                assert(deliveries[m].to != deliveries[k].to);
            } else {
                assert(deliveries[k].to != deliveries[m].to);
            }
        }
    }
}

/// The identifier that is taken of those drawn is a free one, and no free one was drawn before it;
/// none is taken only where none was free.
pub proof fn law_first_free_identifier_is_taken(
    mailboxes: Map<u128, u64>,
    drawn: Seq<u128>,
    id: Option<u128>,
    k: int,
)
    requires
        is_first_free(mailboxes, drawn, id),
        0 <= k < drawn.len(),
    ensures
        id matches Some(id) ==> drawn.contains(id) && !mailboxes.contains_key(id),
        !mailboxes.contains_key(drawn[k]) ==> (id matches Some(id) && drawn.take(k + 1).contains(
            id,
        )),
{
    if id is Some {
        let first = choose|first: int|
            {
                &&& 0 <= first < drawn.len()
                &&& #[trigger] drawn[first] == id.unwrap()
                &&& !mailboxes.contains_key(id.unwrap())
                &&& forall|m: int| 0 <= m < first ==> mailboxes.contains_key(#[trigger] drawn[m])
            };
        assert(drawn[first] == id.unwrap());
        if !mailboxes.contains_key(drawn[k]) {
            assert(first <= k);
            assert(drawn.take(k + 1)[first] == id.unwrap());
        }
    }
}

/// As many identifiers are drawn as were asked for, and each shows that it is random.
pub proof fn law_drawn_identifiers_are_random(drawn: Seq<u128>, count: nat, k: int)
    requires
        random_ids(drawn, count),
        0 <= k < count,
    ensures
        drawn.len() == count,
        crate::ids::hyphenated(drawn[k])[14] == '4',
{
    crate::ids::law_random_id_shows_its_version(drawn[k]);
}

} // verus!
