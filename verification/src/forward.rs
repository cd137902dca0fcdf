//! The queue that hands RTCP packets on to the application.
use std::collections::VecDeque;
use vstd::prelude::*;

verus! {

/// The RTCP packets that were read and not yet handed on, the oldest first.
pub struct RtcpForwarder<T> {
    read_queue: VecDeque<T>,
}

impl<T> View for RtcpForwarder<T> {
    type V = Seq<T>;

    closed spec fn view(&self) -> Seq<T> {
        self.read_queue@
    }
}

impl<T> RtcpForwarder<T> {
    pub fn new() -> (forwarder: RtcpForwarder<T>)
        ensures
            forwarder@ == Seq::<T>::empty(),
    {
        RtcpForwarder { read_queue: VecDeque::new() }
    }

    /// Takes a packet that was read: a copy of it if it is an RTCP packet, nothing if it is not.
    pub fn handle_read(&mut self, rtcp: Option<T>)
        ensures
            final(self)@ == match rtcp {
                Some(packet) => old(self)@.push(packet),
                None => old(self)@,
            },
            rtcp matches Some(packet) ==> final(self)@ == after_reads(old(self)@, seq![packet]),
    {
        proof {
            if rtcp is Some {
                lemma_after_reads(self@, seq![rtcp.unwrap()]);
                assert(self@ + seq![rtcp.unwrap()] =~= self@.push(rtcp.unwrap()));
            }
        }
        if let Some(packet) = rtcp {
            self.read_queue.push_back(packet);
        }
    }

    /// The oldest packet that is waiting. Where there is none, the next reader is to be asked.
    pub fn poll_read(&mut self) -> (packet: Option<T>)
        ensures
            old(self)@.len() == 0 ==> packet is None && final(self)@ == old(self)@,
            old(self)@.len() > 0 ==> packet == Some(old(self)@[0]) && final(self)@
                == old(self)@.drop_first(),
            packet is Some ==> final(self)@ == after_polls(old(self)@, 1),
    {
        let packet: Option<T> = self.read_queue.pop_front();
        assert(old(self)@.len() > 0 ==> self@ =~= old(self)@.drop_first());
        proof {
            reveal_with_fuel(after_polls, 2);
        }
        packet
    }

    /// Drops what is waiting.
    pub fn close(&mut self)
        ensures
            final(self)@ == Seq::<T>::empty(),
    {
        self.read_queue.clear();
    }
}

/// What waits after `packets` were read into `queue`, one after the other.
pub open spec fn after_reads<T>(queue: Seq<T>, packets: Seq<T>) -> Seq<T>
    decreases packets.len(),
{
    if packets.len() == 0 {
        queue
    } else {
        after_reads(queue, packets.drop_last()).push(packets.last())
    }
}

/// What waits after `count` packets were handed on from `queue`.
pub open spec fn after_polls<T>(queue: Seq<T>, count: nat) -> Seq<T>
    decreases count,
{
    if count == 0 {
        queue
    } else {
        after_polls(queue, (count - 1) as nat).drop_first()
    }
}

proof fn lemma_after_reads<T>(queue: Seq<T>, packets: Seq<T>)
    ensures
        after_reads(queue, packets) == queue + packets,
    decreases packets.len(),
{
    if packets.len() == 0 {
        assert(queue + packets =~= queue);
    } else {
        lemma_after_reads(queue, packets.drop_last());
        assert((queue + packets.drop_last()).push(packets.last()) =~= queue + packets);
    }
}

proof fn lemma_after_polls<T>(queue: Seq<T>, count: nat)
    requires
        count <= queue.len(),
    ensures
        after_polls(queue, count) == queue.skip(count as int),
    decreases count,
{
    if count == 0 {
        assert(queue.skip(0) =~= queue);
    } else {
        lemma_after_polls(queue, (count - 1) as nat);
        assert(queue.skip(count - 1).drop_first() =~= queue.skip(count as int));
    }
}

/// Packets are handed on in the order in which they were read, after those that waited already:
/// none is lost, and none comes twice.
pub proof fn law_packets_keep_their_order<T>(queue: Seq<T>, packets: Seq<T>, k: int)
    requires
        0 <= k < packets.len(),
    ensures
        after_polls(after_reads(queue, packets), (queue.len() + k) as nat).len() == packets.len()
            - k,
        after_polls(after_reads(queue, packets), (queue.len() + k) as nat)[0] == packets[k],
        after_polls(after_reads(queue, packets), queue.len() + packets.len()).len() == 0,
{
    lemma_after_reads(queue, packets);
    lemma_after_polls(queue + packets, (queue.len() + k) as nat);
    lemma_after_polls(queue + packets, queue.len() + packets.len());
}

} // verus!
