//! The concurrent tables, as maps.
//!
//! A `DashMap` changes through a shared reference. Here each one is owned, and what changes it
//! takes it by `&mut`, so that its contents are those that the last call left.
use crate::peer::PeerInfo;
use dashmap::DashMap;
use vstd::prelude::*;

verus! {

/// The address of a connected socket: the IP version (4 or 6), the address, the port, and, for
/// version 6, the flow information and the scope.
pub type PeerAddr = (u8, u128, u16, u32, u32);

/// `dashmap::DashMap`, opaque.
#[verifier::external_type_specification]
#[verifier::external_body]
#[verifier::reject_recursive_types(K)]
#[verifier::reject_recursive_types(V)]
#[verifier::reject_recursive_types(S)]
pub struct ExDashMap<K, V, S>(DashMap<K, V, S>);

/// What a table of mailboxes holds: the number of each peer's mailbox, by peer.
pub uninterp spec fn mailboxes(table: DashMap<u128, u64>) -> Map<u128, u64>;

/// What a table of addresses holds: the peer behind each address.
pub uninterp spec fn residents(table: DashMap<PeerAddr, u128>) -> Map<PeerAddr, u128>;

/// What a table of peers holds: what is kept of each peer.
pub uninterp spec fn peer_infos(table: DashMap<u128, PeerInfo>) -> Map<u128, PeerInfo>;

/// Whether `entries` holds each entry of `map` once, in some order.
pub open spec fn lists(entries: Seq<(u128, u64)>, map: Map<u128, u64>) -> bool {
    &&& forall|i: int, j: int|
        0 <= i < j < entries.len() ==> (#[trigger] entries[i]).0 != (#[trigger] entries[j]).0
    &&& forall|i: int|
        0 <= i < entries.len() ==> map.contains_key((#[trigger] entries[i]).0) && map[entries[i].0]
            == entries[i].1
    &&& forall|id: u128| #[trigger]
        map.contains_key(id) ==> exists|i: int|
            0 <= i < entries.len() && (#[trigger] entries[i]).0 == id
}

/// Calls `DashMap::new`: the new map is empty.
#[verifier::external_body]
pub(crate) fn new_mailboxes() -> (table: DashMap<u128, u64>)
    ensures
        (mailboxes(table) == Map::<u128, u64>::empty()),
{
    DashMap::new()
}

/// Calls `DashMap::get` and copies the value out: the value of the key, where the map has it.
#[verifier::external_body]
pub(crate) fn get_mailbox(table: &DashMap<u128, u64>, id: u128) -> (mailbox: Option<u64>)
    ensures
        mailbox == mailboxes(*table).get(id),
{
    table.get(&id).map(|entry| *entry.value())
}

/// Calls `DashMap::insert`: the key has the new value, other keys keep theirs, and the value
/// that the key had before comes back.
#[verifier::external_body]
pub(crate) fn insert_mailbox(table: &mut DashMap<u128, u64>, id: u128, mailbox: u64) -> (previous:
    Option<u64>)
    ensures
        mailboxes(*final(table)) == mailboxes(*old(table)).insert(id, mailbox),
        previous == mailboxes(*old(table)).get(id),
{
    table.insert(id, mailbox)
}

/// Calls `DashMap::remove`: the key is gone, other keys keep their values, and the value that
/// the key had comes back.
#[verifier::external_body]
pub(crate) fn remove_mailbox(table: &mut DashMap<u128, u64>, id: u128) -> (previous: Option<u64>)
    ensures
        mailboxes(*final(table)) == mailboxes(*old(table)).remove(id),
        previous == mailboxes(*old(table)).get(id),
{
    table.remove(&id).map(|entry| entry.1)
}

/// Calls `DashMap::iter` and copies each entry out: every entry comes once. The order is that
/// of a hasher seeded per map, and nothing is said of it.
#[verifier::external_body]
pub(crate) fn mailbox_entries(table: &DashMap<u128, u64>) -> (entries: Vec<(u128, u64)>)
    ensures
        lists(entries@, mailboxes(*table)),
{
    table.iter().map(|entry| (*entry.key(), *entry.value())).collect()
}

/// Calls `DashMap::new`: the new map is empty.
#[verifier::external_body]
pub(crate) fn new_residents() -> (table: DashMap<PeerAddr, u128>)
    ensures
        (residents(table) == Map::<PeerAddr, u128>::empty()),
{
    DashMap::new()
}

/// Calls `DashMap::get` and copies the value out: the value of the key, where the map has it.
#[verifier::external_body]
pub(crate) fn get_resident(table: &DashMap<PeerAddr, u128>, addr: PeerAddr) -> (id: Option<u128>)
    ensures
        id == residents(*table).get(addr),
{
    table.get(&addr).map(|entry| *entry.value())
}

/// Calls `DashMap::insert`: the key has the new value, other keys keep theirs, and the value
/// that the key had before comes back.
#[verifier::external_body]
pub(crate) fn insert_resident(table: &mut DashMap<PeerAddr, u128>, addr: PeerAddr, id: u128) -> (
    previous: Option<u128>)
    ensures
        residents(*final(table)) == residents(*old(table)).insert(addr, id),
        previous == residents(*old(table)).get(addr),
{
    table.insert(addr, id)
}

/// Calls `DashMap::remove`: the key is gone, other keys keep their values, and the value that
/// the key had comes back.
#[verifier::external_body]
pub(crate) fn remove_resident(table: &mut DashMap<PeerAddr, u128>, addr: PeerAddr) -> (previous:
    Option<u128>)
    ensures
        residents(*final(table)) == residents(*old(table)).remove(addr),
        previous == residents(*old(table)).get(addr),
{
    table.remove(&addr).map(|entry| entry.1)
}

/// Calls `DashMap::new`: the new map is empty.
#[verifier::external_body]
pub(crate) fn new_peer_infos() -> (table: DashMap<u128, PeerInfo>)
    ensures
        (peer_infos(table) == Map::<u128, PeerInfo>::empty()),
{
    DashMap::new()
}

/// Calls `DashMap::get` and copies the value out: the value of the key, where the map has it.
#[verifier::external_body]
pub(crate) fn get_peer_info(table: &DashMap<u128, PeerInfo>, id: u128) -> (info: Option<PeerInfo>)
    ensures
        info == peer_infos(*table).get(id),
{
    table.get(&id).map(|entry| *entry.value())
}

/// Calls `DashMap::insert`: the key has the new value, other keys keep theirs, and the value
/// that the key had before comes back.
#[verifier::external_body]
pub(crate) fn insert_peer_info(table: &mut DashMap<u128, PeerInfo>, id: u128, info: PeerInfo) -> (
    previous: Option<PeerInfo>)
    ensures
        peer_infos(*final(table)) == peer_infos(*old(table)).insert(id, info),
        previous == peer_infos(*old(table)).get(id),
{
    table.insert(id, info)
}

} // verus!
