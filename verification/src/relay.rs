//! The relay engine's decisions: the content-marker filter, the self-origin
//! loop-prevention filter, the per-message fan-out plan, and the step
//! functions the two workers follow. The workers' socket and channel I/O is
//! driven from outside the library; every decision they act on is made here.

use vstd::prelude::*;

use crate::addr::{Endpoint, Ip4, spec_mdns_endpoint, mdns_endpoint};
use crate::snapshot::InterfaceEntry;

verus! {

/// A datagram is copied into a relay message bounded to this many bytes.
pub const MAX_DATAGRAM_LEN: usize = 1024;

/// One received datagram on its way from the receiver to the announcer:
/// the payload bytes and the sender's socket address.
#[derive(Clone, Debug)]
pub struct RelayMessage {
    pub payload: Vec<u8>,
    pub source: Endpoint,
}

/// The marker byte sequence `blizzard` starts at position `i` of `p`.
pub open spec fn spec_marker_at(p: Seq<u8>, i: int) -> bool {
    &&& p[i] == 98
    &&& p[i + 1] == 108
    &&& p[i + 2] == 105
    &&& p[i + 3] == 122
    &&& p[i + 4] == 122
    &&& p[i + 5] == 97
    &&& p[i + 6] == 114
    &&& p[i + 7] == 100
}

/// The payload contains the literal ASCII marker `blizzard` somewhere.
/// Only such payloads are eligible for relay.
pub open spec fn spec_contains_marker(p: Seq<u8>) -> bool {
    exists|i: int| 0 <= i && i + 8 <= p.len() && #[trigger] spec_marker_at(p, i)
}

/// Whether the payload contains the relay marker `blizzard`.
pub fn contains_marker(payload: &Vec<u8>) -> (r: bool)
    ensures
        r == spec_contains_marker(payload@),
{
    if payload.len() < 8 {
        return false;
    }
    let end: usize = payload.len() - 8;
    let mut i: usize = 0;
    while i <= end
        invariant
            payload@.len() >= 8,
            payload@.len() <= usize::MAX,
            end == payload@.len() - 8,
            i <= end + 1,
            forall|k: int| 0 <= k < i ==> !(#[trigger] spec_marker_at(payload@, k)),
        decreases end + 1 - i,
    {
        if payload[i] == 98 && payload[i + 1] == 108 && payload[i + 2] == 105 && payload[i + 3]
            == 122 && payload[i + 4] == 122 && payload[i + 5] == 97 && payload[i + 6] == 114
            && payload[i + 7] == 100 {
            proof {
                assert(spec_marker_at(payload@, i as int));
            }
            return true;
        }
        i = i + 1;
    }
    proof {
        assert(forall|k: int|
            0 <= k && k + 8 <= payload@.len() ==> !(#[trigger] spec_marker_at(payload@, k)));
    }
    false
}

/// The sender's address equals the address of some snapshot entry: the
/// datagram is this host's own echoed traffic and must not be re-relayed.
pub open spec fn spec_origin_in_snapshot(snap: Seq<InterfaceEntry>, ip: Ip4) -> bool {
    exists|i: int| 0 <= i < snap.len() && (#[trigger] snap[i]).address == ip
}

pub fn origin_in_snapshot(snap: &Vec<InterfaceEntry>, ip: Ip4) -> (r: bool)
    ensures
        r == spec_origin_in_snapshot(snap@, ip),
{
    let mut i: usize = 0;
    while i < snap.len()
        invariant
            i <= snap@.len(),
            forall|k: int| 0 <= k < i ==> (#[trigger] snap@[k]).address != ip,
        decreases snap@.len() - i,
    {
        if snap[i].address == ip {
            assert(snap@[i as int].address == ip);
            return true;
        }
        i = i + 1;
    }
    false
}

/// The egress plan for a message from `sender`: the address of every
/// snapshot entry except those equal to the sender's address, in snapshot
/// order. The payload is sent once per planned address.
pub open spec fn spec_egress(snap: Seq<InterfaceEntry>, sender: Ip4) -> Seq<Ip4> {
    snap.filter_map(
        |e: InterfaceEntry|
            if e.address != sender {
                Some(e.address)
            } else {
                None
            },
    )
}

pub fn egress_plan(snap: &Vec<InterfaceEntry>, sender: Ip4) -> (r: Vec<Ip4>)
    ensures
        r@ == spec_egress(snap@, sender),
{
    let ghost f = |e: InterfaceEntry|
        if e.address != sender {
            Some(e.address)
        } else {
            None
        };
    let mut out: Vec<Ip4> = Vec::new();
    let mut i: usize = 0;
    while i < snap.len()
        invariant
            i <= snap@.len(),
            f == (|e: InterfaceEntry|
                if e.address != sender {
                    Some(e.address)
                } else {
                    None
                }),
            out@ == snap@.subrange(0, i as int).filter_map(f),
        decreases snap@.len() - i,
    {
        proof {
            assert(snap@.subrange(0, i as int + 1).drop_last() =~= snap@.subrange(0, i as int));
            assert(snap@.subrange(0, i as int + 1).last() == snap@[i as int]);
        }
        if snap[i].address != sender {
            out.push(snap[i].address);
            proof {
                assert(out@ =~= snap@.subrange(0, i as int).filter_map(f) + seq![
                    snap@[i as int].address,
                ]);
            }
        } else {
            proof {
                assert(f(snap@[i as int]) is None);
            }
        }
        i = i + 1;
    }
    proof {
        assert(snap@.subrange(0, snap@.len() as int) =~= snap@);
    }
    out
}

/// When the sender matches no snapshot entry, the plan is every snapshot
/// address, each exactly once, in snapshot order.
pub proof fn lemma_egress_all_when_foreign(snap: Seq<InterfaceEntry>, sender: Ip4)
    requires
        !spec_origin_in_snapshot(snap, sender),
    ensures
        spec_egress(snap, sender) =~= snap.map_values(|e: InterfaceEntry| e.address),
    decreases snap.len(),
{
    let f = |e: InterfaceEntry|
        if e.address != sender {
            Some(e.address)
        } else {
            None
        };
    if snap.len() > 0 {
        assert(forall|i: int|
            0 <= i < snap.drop_last().len() ==> (#[trigger] snap.drop_last()[i]).address
                != sender) by {
            assert(forall|i: int|
                0 <= i < snap.drop_last().len() ==> snap.drop_last()[i] == (
                #[trigger] snap[i]));
        }
        lemma_egress_all_when_foreign(snap.drop_last(), sender);
        assert(snap.last() == snap[snap.len() - 1]);
        assert(snap.last().address != sender);
        assert(spec_egress(snap, sender) == spec_egress(snap.drop_last(), sender) + seq![
            snap.last().address,
        ]);
    }
}

/// No planned egress address ever equals the sender's address, whatever
/// the snapshot holds — even under a misconfiguration that duplicates one
/// address across several named interfaces, a message is never sent back
/// out the interface it arrived from.
pub proof fn lemma_egress_never_sender(snap: Seq<InterfaceEntry>, sender: Ip4)
    ensures
        forall|i: int|
            0 <= i < spec_egress(snap, sender).len() ==> #[trigger] spec_egress(snap, sender)[i]
                != sender,
    decreases snap.len(),
{
    if snap.len() > 0 {
        lemma_egress_never_sender(snap.drop_last(), sender);
        assert(spec_egress(snap, sender) == if snap.last().address != sender {
            spec_egress(snap.drop_last(), sender) + seq![snap.last().address]
        } else {
            spec_egress(snap.drop_last(), sender)
        });
    }
}

/// What the announcer does with one hand-off message.
#[derive(Debug)]
pub enum RelayDecision {
    /// The message fails a filter and is dropped silently.
    Discard,
    /// Send the payload to the group endpoint once per listed egress address.
    Transmit(Vec<Ip4>),
}

/// The announcer's per-message decision. A payload without the marker, or
/// one whose sender address matches a snapshot entry (this host's own
/// echo), is discarded; anything else is sent out every snapshot interface
/// whose address differs from the sender's.
pub fn decide_relay(snap: &Vec<InterfaceEntry>, payload: &Vec<u8>, source: Endpoint) -> (r:
    RelayDecision)
    ensures
        !spec_contains_marker(payload@) ==> r is Discard,
        spec_origin_in_snapshot(snap@, source.ip) ==> r is Discard,
        spec_contains_marker(payload@) && !spec_origin_in_snapshot(snap@, source.ip) ==> (r matches
        RelayDecision::Transmit(eg) && eg@ == spec_egress(snap@, source.ip)),
{
    if !contains_marker(payload) {
        return RelayDecision::Discard;
    }
    if origin_in_snapshot(snap, source.ip) {
        return RelayDecision::Discard;
    }
    RelayDecision::Transmit(egress_plan(snap, source.ip))
}

/// What the receiver observed in one loop iteration.
pub enum RecvEvent {
    /// A datagram arrived: its bytes and the sender's address.
    Datagram { bytes: Vec<u8>, source: Endpoint },
    /// The receive timed out: a poll tick, not an error.
    TimedOut,
    /// The hand-off channel's peer is gone.
    ChannelClosed,
    /// A non-timeout socket error.
    SocketError,
}

/// What the receiver must do next.
pub enum ReceiverAction {
    /// Push this message onto the hand-off channel.
    Forward(RelayMessage),
    /// Do nothing; poll again.
    Idle,
    /// Set the shutdown flag and return.
    Stop,
}

/// The payload a forwarded message carries: the received bytes, bounded to
/// `MAX_DATAGRAM_LEN`.
pub open spec fn spec_bounded_payload(bytes: Seq<u8>) -> Seq<u8> {
    if bytes.len() <= MAX_DATAGRAM_LEN {
        bytes
    } else {
        bytes.subrange(0, MAX_DATAGRAM_LEN as int)
    }
}

/// One step of the receiver worker: while the shutdown flag is clear,
/// forward each datagram (bounded to `MAX_DATAGRAM_LEN` bytes) with its
/// sender address, treat a timeout as a poll tick, and stop on a socket
/// error or a closed channel; once the flag is set, stop.
pub fn receiver_step(shutdown: bool, event: RecvEvent) -> (r: ReceiverAction)
    ensures
        shutdown ==> r is Stop,
        !shutdown ==> match event {
            RecvEvent::Datagram { bytes, source } => r matches ReceiverAction::Forward(m)
                && m.payload@ == spec_bounded_payload(bytes@) && m.source == source,
            RecvEvent::TimedOut => r is Idle,
            RecvEvent::ChannelClosed => r is Stop,
            RecvEvent::SocketError => r is Stop,
        },
{
    if shutdown {
        return ReceiverAction::Stop;
    }
    match event {
        RecvEvent::Datagram { mut bytes, source } => {
            if bytes.len() > MAX_DATAGRAM_LEN {
                bytes.truncate(MAX_DATAGRAM_LEN);
            }
            ReceiverAction::Forward(RelayMessage { payload: bytes, source })
        },
        RecvEvent::TimedOut => ReceiverAction::Idle,
        RecvEvent::ChannelClosed => ReceiverAction::Stop,
        RecvEvent::SocketError => ReceiverAction::Stop,
    }
}

/// What the announcer observed in one loop iteration.
pub enum HandoffEvent {
    /// The next message from the hand-off channel.
    Message(RelayMessage),
    /// The channel's peer is gone.
    Closed,
}

/// What the announcer must do next.
pub enum AnnouncerAction {
    /// Send `payload` to `destination` once per listed egress address,
    /// selecting each address as the multicast egress interface in turn.
    Transmit { payload: Vec<u8>, egress: Vec<Ip4>, destination: Endpoint },
    /// Drop the message silently and take the next one.
    Discard,
    /// Set the shutdown flag and return.
    Stop,
}

/// One step of the announcer worker: while the shutdown flag is clear,
/// apply the marker filter and the self-origin filter to each message and
/// fan the survivors out to the mDNS group endpoint through every snapshot
/// interface except the sender's own; stop when the flag is set or the
/// channel closes.
pub fn announcer_step(shutdown: bool, snap: &Vec<InterfaceEntry>, event: HandoffEvent) -> (r:
    AnnouncerAction)
    ensures
        shutdown ==> r is Stop,
        !shutdown ==> match event {
            HandoffEvent::Closed => r is Stop,
            HandoffEvent::Message(m) => {
                &&& !spec_contains_marker(m.payload@) ==> r is Discard
                &&& spec_origin_in_snapshot(snap@, m.source.ip) ==> r is Discard
                &&& spec_contains_marker(m.payload@) && !spec_origin_in_snapshot(
                    snap@,
                    m.source.ip,
                ) ==> (r matches AnnouncerAction::Transmit { payload, egress, destination }
                && payload@ == m.payload@ && egress@ == spec_egress(snap@, m.source.ip)
                && destination == spec_mdns_endpoint())
            },
        },
{
    if shutdown {
        return AnnouncerAction::Stop;
    }
    match event {
        HandoffEvent::Message(m) => {
            match decide_relay(snap, &m.payload, m.source) {
                RelayDecision::Discard => AnnouncerAction::Discard,
                RelayDecision::Transmit(eg) => AnnouncerAction::Transmit {
                    payload: m.payload,
                    egress: eg,
                    destination: mdns_endpoint(),
                },
            }
        },
        HandoffEvent::Closed => AnnouncerAction::Stop,
    }
}

/// The shared shutdown flag: initially clear, set at most once, never
/// cleared again. Both workers observe it once per loop iteration; the
/// process mirrors it in whatever shared boolean its threads use.
pub struct ShutdownFlag {
    pub done: bool,
}

impl ShutdownFlag {
    pub fn new() -> (r: ShutdownFlag)
        ensures
            !r.done,
    {
        ShutdownFlag { done: false }
    }

    pub fn is_set(&self) -> (r: bool)
        ensures
            r == self.done,
    {
        self.done
    }

    /// Request shutdown. Idempotent: the flag is set afterwards whatever
    /// it held before, so a flag once set is never cleared.
    pub fn request(&mut self)
        ensures
            final(self).done,
    {
        self.done = true;
    }
}

} // verus!
