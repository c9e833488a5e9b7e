//! The device session: the one piece of state that outlives a single call —
//! the rumble flag merged into every outbound packet — plus the FIFO queue of
//! decoded events not yet delivered.
use vstd::prelude::*;

use crate::consts::{PACKET_LEN, SETTLE_REGISTER_MILLIS};
use crate::read::spec_decode;
use crate::write::{
    encode_action, lemma_action_packet_len, register_write_packet, spec_action_packets,
    spec_register_write, spec_with_rumble,
};
use crate::{Action, OutPacket, Report};
use std::collections::VecDeque;

verus! {

/// The packets of one command as they leave the session: each raw packet with
/// the rumble flag merged in, settle pauses kept.
pub open spec fn packets_match(out: Seq<OutPacket>, raw: Seq<(Seq<u8>, u64)>, rumble: bool) -> bool {
    &&& out.len() == raw.len()
    &&& forall|i: int|
        0 <= i < out.len() ==> (#[trigger] out[i]).bytes@ == spec_with_rumble(raw[i].0, rumble)
            && out[i].settle_millis == raw[i].1
}

/// Session state for one controller. The transport handle itself stays with
/// the caller: the session decides which bytes leave and which events come
/// back, never performing the blocking reads, writes and pauses itself.
pub struct Wiimote {
    rumble: bool,
    out: VecDeque<Report>,
}

impl Wiimote {
    /// The rumble motor state last requested through
    /// [`crate::Action::RumbleEnable`].
    pub closed spec fn rumble_on(self) -> bool {
        self.rumble
    }

    /// Decoded events waiting to be delivered, front first.
    pub closed spec fn pending(self) -> Seq<Report> {
        self.out@
    }

    /// The event queue never holds more than one physical packet's worth of
    /// events (a packet decodes to at most three, and one is popped at once).
    pub open spec fn wf(self) -> bool {
        self.pending().len() <= 3
    }

    /// A fresh session: rumble off, no pending events.
    pub fn new() -> (w: Wiimote)
        ensures
            !w.rumble_on(),
            w.pending() == Seq::<Report>::empty(),
            w.wf(),
    {
        Wiimote { rumble: false, out: VecDeque::new() }
    }

    /// Deliver the next queued event, if any, front first.
    pub fn pop_event(&mut self) -> (r: Option<Report>)
        ensures
            final(self).rumble_on() == old(self).rumble_on(),
            old(self).pending().len() == 0 ==> r is None
                && final(self).pending() == old(self).pending(),
            old(self).pending().len() > 0 ==> r == Some(old(self).pending()[0])
                && final(self).pending() == old(self).pending().drop_first(),
    {
        self.out.pop_front()
    }

    /// Decode one physical packet pulled from the transport while the queue
    /// was empty: queue every event it carries, then deliver the first (or
    /// none, in which case the caller reads again).
    pub fn accept_packet(&mut self, buf: &[u8]) -> (r: Option<Report>)
        requires
            buf@.len() >= 16,
            old(self).pending().len() == 0,
        ensures
            final(self).rumble_on() == old(self).rumble_on(),
            spec_decode(buf@).len() == 0 ==> r is None && final(self).pending().len() == 0,
            spec_decode(buf@).len() > 0 ==> r == Some(spec_decode(buf@)[0])
                && final(self).pending() == spec_decode(buf@).drop_first(),
            final(self).wf(),
    {
        let events = crate::read::decode_packet(buf);
        let mut i: usize = 0;
        while i < events.len()
            invariant
                i <= events@.len(),
                self.out@ == events@.take(i as int),
                self.rumble == old(self).rumble,
                events@ == spec_decode(buf@),
                buf@.len() >= 16,
            decreases events@.len() - i,
        {
            self.out.push_back(events[i]);
            proof {
                assert(events@.take(i as int).push(events@[i as int]) =~= events@.take(
                    i as int + 1,
                ));
            }
            i = i + 1;
        }
        proof {
            assert(events@.take(events@.len() as int) =~= events@);
            assert(spec_decode(buf@).len() <= 3);
        }
        self.pop_event()
    }

    /// Overwrite bit 0 of the packet's second byte with the rumble flag: the
    /// single point every outbound packet passes on its way to the transport.
    fn seal(&self, p: OutPacket) -> (q: OutPacket)
        requires
            p.bytes@.len() >= 2,
        ensures
            q.bytes@ == spec_with_rumble(p.bytes@, self.rumble_on()),
            q.settle_millis == p.settle_millis,
    {
        let mut p = p;
        let b1 = p.bytes[1];
        if self.rumble {
            p.bytes[1] = b1 | 1;
        } else {
            p.bytes[1] = b1 & 0xfe;
        }
        p
    }

    /// Encode a command into the packets to hand to the transport, in order,
    /// each carrying the required settle pause. The rumble command updates
    /// the session's rumble flag first, so its own packet already carries the
    /// new state; no command changes the event queue.
    pub fn write(&mut self, a: Action) -> (out: Vec<OutPacket>)
        ensures
            final(self).pending() == old(self).pending(),
            final(self).rumble_on() == match a {
                Action::RumbleEnable(on) => on,
                _ => old(self).rumble_on(),
            },
            packets_match(out@, spec_action_packets(a), final(self).rumble_on()),
    {
        match a {
            Action::RumbleEnable(on) => {
                self.rumble = on;
            },
            _ => {},
        }
        let mut raw = encode_action(&a);
        let ghost n = spec_action_packets(a).len();
        let mut out: Vec<OutPacket> = Vec::new();
        while raw.len() > 0
            invariant
                out@.len() + raw@.len() == n,
                n == spec_action_packets(a).len(),
                forall|i: int|
                    0 <= i < raw@.len() ==> (#[trigger] raw@[i]).bytes@ == spec_action_packets(
                        a,
                    )[out@.len() + i].0 && raw@[i].settle_millis == spec_action_packets(a)[out@.len()
                        + i].1,
                forall|i: int|
                    0 <= i < out@.len() ==> (#[trigger] out@[i]).bytes@ == spec_with_rumble(
                        spec_action_packets(a)[i].0,
                        self.rumble,
                    ) && out@[i].settle_millis == spec_action_packets(a)[i].1,
                self.rumble == match a {
                    Action::RumbleEnable(on) => on,
                    _ => old(self).rumble,
                },
                self.out == old(self).out,
            decreases raw@.len(),
        {
            let p = raw.remove(0);
            proof {
                lemma_action_packet_len(a, out@.len() as int);
            }
            let q = self.seal(p);
            out.push(q);
        }
        out
    }

    /// Encode a write to the device's registers or memory: the given 24-bit
    /// address, 1 to 16 data bytes (longer data is capped), the rumble flag
    /// merged in, and the settle pause the device needs after such a write.
    pub fn write_registers(&self, addr: u32, data: &[u8]) -> (p: OutPacket)
        requires
            addr <= 0xffffff,
        ensures
            p.bytes@ == spec_with_rumble(spec_register_write(addr, data@), self.rumble_on()),
            p.settle_millis == SETTLE_REGISTER_MILLIS,
    {
        let bytes = register_write_packet(addr, data);
        self.seal(OutPacket { bytes, settle_millis: SETTLE_REGISTER_MILLIS })
    }
}

/// After rumble is switched on, every packet of every later command carries
/// the flag in bit 0 of its second byte — and carries it cleared once rumble
/// is switched off — whatever the command was.
pub proof fn lemma_rumble_flag_carried(out: Seq<OutPacket>, a: Action, rumble: bool, i: int)
    requires
        packets_match(out, spec_action_packets(a), rumble),
        0 <= i < out.len(),
    ensures
        out[i].bytes@.len() == PACKET_LEN,
        out[i].bytes@[1] & 1 == if rumble {
            1u8
        } else {
            0u8
        },
{
    lemma_action_packet_len(a, i);
    let b = spec_action_packets(a)[i].0[1];
    assert((b | 1) & 1 == 1) by (bit_vector);
    assert((b & 0xfe) & 1 == 0) by (bit_vector);
}

} // verus!
