//! One connection of a Trillium controller.

use vstd::prelude::*;

use crate::bridge::ReadEvent;
use crate::orion::stream::{
    frames_in, payload_views, payloads_of, payloads_with_id, rest_of, take_frames,
};
use crate::orion::wire::{frame, frame_of};

verus! {

/// The most bytes that are kept for one connection. A client that sends more
/// without a complete frame is disconnected.
pub const MAX_RX_BUF: usize = 65_536;

/// State of a connection.
#[derive(Debug)]
pub struct Connection {
    /// Bytes received and not yet used.
    pub rx_buf: Vec<u8>,
}

/// What to do after a read.
#[derive(Debug)]
pub enum ReadAction {
    /// Close the connection.
    Close,
    /// Go on; these are the payloads of the commands received, in order.
    Commands(Vec<Vec<u8>>),
}

/// What to do after a read, on `buffered` bytes.
pub open spec fn closes(buffered: Seq<u8>, event: ReadEvent) -> bool {
    match event {
        ReadEvent::Closed => true,
        ReadEvent::Failed => true,
        ReadEvent::Empty => false,
        ReadEvent::Data(bytes) => buffered.len() + bytes@.len() > MAX_RX_BUF,
    }
}

/// The bytes to look for frames in after a read.
pub open spec fn received(buffered: Seq<u8>, event: ReadEvent) -> Seq<u8> {
    match event {
        ReadEvent::Data(bytes) => buffered + bytes@,
        _ => buffered,
    }
}

impl Connection {
    /// A new connection.
    pub fn new() -> (r: Self)
        ensures
            r.rx_buf@ == Seq::<u8>::empty(),
    {
        Connection { rx_buf: Vec::new() }
    }

    /// The bytes that send a telemetry packet.
    pub fn send_telemetry(&self, id: u8, payload: &[u8]) -> (r: Vec<u8>)
        ensures
            r@ == frame_of(id, payload@),
    {
        frame(id, payload)
    }

    /// Takes what reading gave. A closed or failed connection is closed, and so is
    /// one with too many bytes unused. Otherwise the payloads of the packets with
    /// number `id` that are complete now are commands.
    pub fn on_read(&mut self, event: ReadEvent, id: u8) -> (r: ReadAction)
        ensures
            r is Close <==> closes(old(self).rx_buf@, event),
            r is Close ==> final(self).rx_buf@ == old(self).rx_buf@,
            r matches ReadAction::Commands(payloads) ==> payload_views(payloads@) == payloads_of(
                frames_in(received(old(self).rx_buf@, event)),
                id,
            ) && final(self).rx_buf@ == rest_of(received(old(self).rx_buf@, event)),
    {
        match event {
            ReadEvent::Closed | ReadEvent::Failed => {
                return ReadAction::Close;
            },
            ReadEvent::Data(bytes) => {
                let mut bytes = bytes;
                if self.rx_buf.len() > MAX_RX_BUF || bytes.len() > MAX_RX_BUF - self.rx_buf.len() {
                    return ReadAction::Close;
                }
                self.rx_buf.append(&mut bytes);
            },
            ReadEvent::Empty => {},
        }
        let frames = take_frames(&mut self.rx_buf);
        ReadAction::Commands(payloads_with_id(&frames, id))
    }
}

// ── Laws ───────────────────────────────────────────────────────────────

/// What is left of some bytes once their frames are taken is no longer than they
/// were.
proof fn rest_is_shorter(buf: Seq<u8>)
    ensures
        rest_of(buf).len() <= buf.len(),
    decreases buf.len(),
{
    match crate::orion::wire::first_frame_from(buf, 0) {
        Some(start) => {
            crate::orion::wire::first_frame_is_valid(buf, 0);
            rest_is_shorter(buf.skip(crate::orion::wire::frame_end(buf, start)));
        },
        None => {},
    }
}

/// A connection that stays open never keeps more than the allowed number of
/// bytes.
pub proof fn buffer_bounded(buffered: Seq<u8>, event: ReadEvent)
    requires
        buffered.len() <= MAX_RX_BUF,
        !closes(buffered, event),
    ensures
        rest_of(received(buffered, event)).len() <= MAX_RX_BUF,
{
    rest_is_shorter(received(buffered, event));
}

/// A connection is closed where the other side has closed it, where it has failed, and
/// where more bytes would be waiting than are kept, which is 65536. Nothing else closes
/// it.
pub proof fn closed_only_for_cause(buffered: Seq<u8>, event: ReadEvent)
    ensures
        event is Closed || event is Failed ==> closes(buffered, event),
        event is Empty ==> !closes(buffered, event),
        event matches ReadEvent::Data(bytes) ==> (closes(buffered, event) <==> buffered.len()
            + bytes@.len() > 65536),
{
}

/// Bytes that come in stand behind those that are waiting, in the order they came.
pub proof fn bytes_are_appended(buffered: Seq<u8>, event: ReadEvent)
    ensures
        event matches ReadEvent::Data(bytes) ==> {
            let all = received(buffered, event);
            &&& all.take(buffered.len() as int) == buffered
            &&& all.skip(buffered.len() as int) == bytes@
        },
        event is Empty ==> received(buffered, event) == buffered,
{
    if let ReadEvent::Data(bytes) = event {
        let all = received(buffered, event);
        assert(all.take(buffered.len() as int) =~= buffered);
        assert(all.skip(buffered.len() as int) =~= bytes@);
    }
}

} // verus!
