//! The connection to a real gimbal.

use vstd::prelude::*;

use crate::orion::stream::{
    frames_in, payload_views, payloads_of, payloads_with_id, rest_of, take_frames,
};
use crate::orion::wire::{frame, frame_of};
use crate::orion::GeolocateTelemetryCorePacket;

verus! {

/// Time between two attempts to connect (ns).
pub const RECONNECT_INTERVAL: u64 = 5_000_000_000;

/// State of the connection to a gimbal.
///
/// Times are nanoseconds since some fixed moment.
#[derive(Debug)]
pub struct GimbalBridge {
    /// Address of the gimbal, with its port.
    pub addr: String,
    /// The connection is up.
    pub connected: bool,
    /// Bytes received and not yet used.
    pub rx_buf: Vec<u8>,
    /// When a connection was last attempted.
    pub last_connect_attempt: Option<u64>,
}

/// What reading from the connection gave.
#[derive(Debug)]
pub enum ReadEvent {
    /// The other side has closed the connection.
    Closed,
    /// Bytes.
    Data(Vec<u8>),
    /// Nothing for now.
    Empty,
    /// An error.
    Failed,
}

/// At least the reconnect interval has passed since `then`.
pub open spec fn interval_passed(then: u64, now: u64) -> bool {
    now - then >= RECONNECT_INTERVAL
}

/// The connection is up after an attempt: it succeeded, or was not needed.
pub open spec fn up_after(connected: bool, success: bool) -> bool {
    success || connected
}

/// A connection is attempted: there is none, and none was attempted for a while.
pub open spec fn attempts(connected: bool, last: Option<u64>, now: u64) -> bool {
    !connected && (match last {
        Some(then) => interval_passed(then, now),
        None => true,
    })
}

/// The bytes to look for packets in after a read; `None` where the connection is gone.
pub open spec fn read_from(connected: bool, buffered: Seq<u8>, event: ReadEvent) -> Option<
    Seq<u8>,
> {
    match event {
        ReadEvent::Data(bytes) if connected => Some(buffered + bytes@),
        ReadEvent::Empty if connected => Some(buffered),
        _ => None,
    }
}

impl GimbalBridge {
    /// A bridge to `host`, not connected yet. The port is always 8008.
    pub fn new(host: &str) -> (r: Self)
        ensures
            r.addr@ == host@ + ":8008"@,
            !r.connected,
            r.rx_buf@ == Seq::<u8>::empty(),
            r.last_connect_attempt is None,
    {
        let addr = host.to_owned().concat(":8008");
        GimbalBridge { addr, connected: false, rx_buf: Vec::new(), last_connect_attempt: None }
    }

    /// Notes that a connection is attempted, and how the attempt ended.
    pub fn connect(&mut self, now: u64, success: bool)
        ensures
            final(self).addr == old(self).addr,
            final(self).rx_buf == old(self).rx_buf,
            final(self).last_connect_attempt == Some(now),
            final(self).connected == up_after(old(self).connected, success),
            final(self).connected == (success || old(self).connected),
    {
        self.last_connect_attempt = Some(now);
        if success {
            self.connected = true;
        }
    }

    /// Whether to attempt a connection now: there is none, and none was attempted
    /// for a while.
    pub fn try_reconnect(&self, now: u64) -> (r: bool)
        ensures
            r == attempts(self.connected, self.last_connect_attempt, now),
            r == (!self.connected && (match self.last_connect_attempt {
                Some(then) => interval_passed(then, now),
                None => true,
            })),
    {
        if self.connected {
            return false;
        }
        match self.last_connect_attempt {
            Some(then) => now >= then && now - then >= RECONNECT_INTERVAL,
            None => true,
        }
    }

    /// The bytes that send a packet, if there is a connection.
    pub fn send_cmd(&self, id: u8, payload: &[u8]) -> (r: Option<Vec<u8>>)
        ensures
            self.connected ==> (r matches Some(bytes) && bytes@ == frame_of(id, payload@)),
            !self.connected ==> r is None,
    {
        if self.connected {
            Some(frame(id, payload))
        } else {
            None
        }
    }

    /// Notes that writing failed: the connection is gone.
    pub fn write_failed(&mut self)
        ensures
            final(self).addr == old(self).addr,
            final(self).rx_buf == old(self).rx_buf,
            final(self).last_connect_attempt == old(self).last_connect_attempt,
            !final(self).connected,
    {
        self.connected = false;
    }

    /// Takes what reading gave, and returns the payloads of the packets with number
    /// `id` that are complete now. A closed or failed connection is gone, and gives
    /// none.
    pub fn recv_telemetry(&mut self, event: ReadEvent, id: u8) -> (r: Vec<Vec<u8>>)
        ensures
            final(self).addr == old(self).addr,
            final(self).last_connect_attempt == old(self).last_connect_attempt,
            match read_from(old(self).connected, old(self).rx_buf@, event) {
                Some(bytes) => {
                    &&& final(self).connected
                    &&& final(self).rx_buf@ == rest_of(bytes)
                    &&& payload_views(r@) == payloads_of(frames_in(bytes), id)
                },
                None => {
                    &&& !final(self).connected
                    &&& final(self).rx_buf@ == old(self).rx_buf@
                    &&& r@ == Seq::<Vec<u8>>::empty()
                },
            },
            old(self).connected && (event is Data || event is Empty) ==> {
                let received = old(self).rx_buf@ + (match event {
                    ReadEvent::Data(bytes) => bytes@,
                    _ => Seq::<u8>::empty(),
                });
                &&& final(self).connected
                &&& final(self).rx_buf@ == rest_of(received)
                &&& payload_views(r@) == payloads_of(frames_in(received), id)
            },
            !(old(self).connected && (event is Data || event is Empty)) ==> {
                &&& !final(self).connected
                &&& final(self).rx_buf@ == old(self).rx_buf@
                &&& r@ == Seq::<Vec<u8>>::empty()
            },
    {
        if !self.connected {
            return Vec::new();
        }
        match event {
            ReadEvent::Closed | ReadEvent::Failed => {
                self.connected = false;
                return Vec::new();
            },
            ReadEvent::Data(bytes) => {
                let mut bytes = bytes;
                self.rx_buf.append(&mut bytes);
            },
            ReadEvent::Empty => {
                proof {
                    assert(self.rx_buf@ + Seq::<u8>::empty() =~= self.rx_buf@);
                }
            },
        }
        let frames = take_frames(&mut self.rx_buf);
        payloads_with_id(&frames, id)
    }
}

/// The last packet among `decoded` that could be decoded.
pub open spec fn latest_of(decoded: Seq<Option<GeolocateTelemetryCorePacket>>) -> Option<
    GeolocateTelemetryCorePacket,
>
    decreases decoded.len(),
{
    if decoded.len() == 0 {
        None
    } else if decoded.last() is Some {
        decoded.last()
    } else {
        latest_of(decoded.drop_last())
    }
}

/// The last packet among `decoded` that could be decoded.
pub fn latest_telemetry(decoded: &Vec<Option<GeolocateTelemetryCorePacket>>) -> (r: Option<
    GeolocateTelemetryCorePacket,
>)
    ensures
        r == latest_of(decoded@),
{
    let mut last: Option<GeolocateTelemetryCorePacket> = None;
    let mut i: usize = 0;
    while i < decoded.len()
        invariant
            i <= decoded.len(),
            last == latest_of(decoded@.take(i as int)),
        decreases decoded.len() - i,
    {
        proof {
            assert(decoded@.take(i + 1).drop_last() =~= decoded@.take(i as int));
        }
        if decoded[i].is_some() {
            last = decoded[i];
        }
        i = i + 1;
    }
    proof {
        assert(decoded@.take(i as int) =~= decoded@);
    }
    last
}

// ── Laws ───────────────────────────────────────────────────────────────

/// How the received bytes are cut into reads makes no difference to the packets
/// that come out.
pub proof fn reads_independent_of_chunking(buffered: Seq<u8>, first: Seq<u8>, second: Seq<u8>, id: u8)
    ensures
        payloads_of(frames_in(buffered + first + second), id) == payloads_of(
            frames_in(buffered + first),
            id,
        ) + payloads_of(frames_in(rest_of(buffered + first) + second), id),
{
    crate::orion::stream::frames_independent_of_chunking(buffered + first, second);
    payloads_concat(
        frames_in(buffered + first),
        frames_in(rest_of(buffered + first) + second),
        id,
    );
}

/// Selecting payloads distributes over concatenation.
proof fn payloads_concat(
    a: Seq<crate::orion::wire::FrameView>,
    b: Seq<crate::orion::wire::FrameView>,
    id: u8,
)
    ensures
        payloads_of(a + b, id) == payloads_of(a, id) + payloads_of(b, id),
    decreases a.len(),
{
    if a.len() == 0 {
        assert(a + b =~= b);
        assert(Seq::<Seq<u8>>::empty() + payloads_of(b, id) =~= payloads_of(b, id));
    } else {
        payloads_concat(a.skip(1), b, id);
        assert((a + b).skip(1) =~= a.skip(1) + b);
        assert((a + b)[0] == a[0]);
        assert(seq![a[0].data] + (payloads_of(a.skip(1), id) + payloads_of(b, id)) =~= (seq![
            a[0].data,
        ] + payloads_of(a.skip(1), id)) + payloads_of(b, id));
    }
}

/// A frame that was sent by one side is what the other side receives, if nothing
/// was received before.
pub proof fn sent_frame_received(id: u8, payload: Seq<u8>)
    requires
        payload.len() <= 255,
    ensures
        payloads_of(frames_in(frame_of(id, payload)), id) == seq![payload],
        rest_of(frame_of(id, payload)) == Seq::<u8>::empty(),
{
    let one = seq![crate::orion::wire::FrameView { id, data: payload }];
    crate::orion::stream::stream_roundtrip(one);
    reveal_with_fuel(crate::orion::stream::stream_of, 2);
    reveal_with_fuel(payloads_of, 2);
    assert(one.skip(1) =~= Seq::<crate::orion::wire::FrameView>::empty());
    assert(crate::orion::stream::stream_of(one) =~= frame_of(id, payload));
    assert(payloads_of(one, id) =~= seq![payload]);
}

/// The latest packet that could be decoded counts: packets behind it that could not be
/// decoded change nothing, and none in front of it matters.
pub proof fn latest_packet_counts(
    before: Seq<Option<GeolocateTelemetryCorePacket>>,
    packet: GeolocateTelemetryCorePacket,
    n: nat,
)
    ensures
        latest_of(before.push(Some(packet)) + Seq::new(n, |i: int| None)) == Some(packet),
        latest_of(Seq::new(n, |i: int| None)) is None,
    decreases n,
{
    let none = Seq::new(n, |i: int| None::<GeolocateTelemetryCorePacket>);
    let all = before.push(Some(packet)) + none;
    if n == 0 {
        assert(all =~= before.push(Some(packet)));
    } else {
        let fewer = Seq::new((n - 1) as nat, |i: int| None::<GeolocateTelemetryCorePacket>);
        latest_packet_counts(before, packet, (n - 1) as nat);
        assert(all.drop_last() =~= before.push(Some(packet)) + fewer);
        assert(none.drop_last() =~= fewer);
    }
}

/// Attempts are spaced: after one at `then`, the next comes five seconds later at the
/// earliest, and then at any time until it is made. A connection that is up is never
/// attempted again, and the first attempt comes at once.
pub proof fn attempts_are_spaced(connected: bool, then: u64, now: u64, later: u64)
    requires
        then <= now <= later,
    ensures
        attempts(connected, Some(then), now) <==> !connected && now >= then + 5_000_000_000,
        attempts(connected, Some(then), now) ==> attempts(connected, Some(then), later),
        attempts(connected, None, now) <==> !connected,
{
}

/// A successful attempt brings the connection up, and a failed one changes nothing.
pub proof fn attempt_decides(connected: bool)
    ensures
        up_after(connected, true),
        up_after(connected, false) == connected,
{
}

/// Bytes are added behind those that are waiting, in the order they came; without a
/// connection, or where it was closed or has failed, nothing is read.
pub proof fn reads_are_appended(connected: bool, buffered: Seq<u8>, event: ReadEvent)
    ensures
        connected ==> (event matches ReadEvent::Data(bytes) ==> (read_from(
            connected,
            buffered,
            event,
        ) matches Some(all) && all.take(buffered.len() as int) == buffered && all.skip(
            buffered.len() as int,
        ) == bytes@)),
        connected && event is Empty ==> read_from(connected, buffered, event) == Some(buffered),
        !connected || event is Closed || event is Failed ==> read_from(connected, buffered, event)
            is None,
{
    if let ReadEvent::Data(bytes) = event {
        let all = buffered + bytes@;
        assert(all.take(buffered.len() as int) =~= buffered);
        assert(all.skip(buffered.len() as int) =~= bytes@);
    }
}

} // verus!
