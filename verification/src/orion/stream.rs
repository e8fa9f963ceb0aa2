//! Frames out of a byte stream that arrives in pieces.

use vstd::prelude::*;
use vstd::slice::slice_subrange;

use crate::orion::wire::{
    first_frame_from, first_frame_is_stable, first_frame_is_valid, frame_end, frame_of,
    frame_parse_roundtrip, frame_view_at, parse, valid_at, FrameView,
};

verus! {

/// A frame received from a stream.
#[derive(Debug, Clone)]
pub struct Frame {
    /// Packet number.
    pub id: u8,
    /// Payload.
    pub data: Vec<u8>,
}

impl View for Frame {
    type V = FrameView;

    open spec fn view(&self) -> FrameView {
        FrameView { id: self.id, data: self.data@ }
    }
}

/// The frames of `buf`, first to last.
pub open spec fn frames_in(buf: Seq<u8>) -> Seq<FrameView>
    decreases buf.len(),
{
    match first_frame_from(buf, 0) {
        Some(start) => {
            proof {
                first_frame_is_valid(buf, 0);
            }
            seq![frame_view_at(buf, start)] + frames_in(buf.skip(frame_end(buf, start)))
        },
        None => Seq::empty(),
    }
}

/// What is left of `buf` once all its frames are taken: the bytes that the next
/// frame may begin in.
pub open spec fn rest_of(buf: Seq<u8>) -> Seq<u8>
    decreases buf.len(),
{
    match first_frame_from(buf, 0) {
        Some(start) => {
            proof {
                first_frame_is_valid(buf, 0);
            }
            rest_of(buf.skip(frame_end(buf, start)))
        },
        None => buf,
    }
}

/// The contents of a list of frames.
pub open spec fn frame_views(frames: Seq<Frame>) -> Seq<FrameView> {
    frames.map_values(|f: Frame| f@)
}

/// Takes every complete frame out of the receive buffer, in order, and leaves
/// the unconsumed tail in it.
pub fn take_frames(rx_buf: &mut Vec<u8>) -> (r: Vec<Frame>)
    ensures
        frame_views(r@) == frames_in(old(rx_buf)@),
        final(rx_buf)@ == rest_of(old(rx_buf)@),
{
    let mut frames: Vec<Frame> = Vec::new();
    let mut consumed: usize = 0;
    let mut more: bool = true;
    proof {
        assert(rx_buf@.skip(0) =~= rx_buf@);
        assert(frame_views(frames@) =~= Seq::<FrameView>::empty());
    }
    while more
        invariant
            rx_buf@ == old(rx_buf)@,
            consumed <= rx_buf.len(),
            frames_in(rx_buf@) == frame_views(frames@) + frames_in(rx_buf@.skip(consumed as int)),
            rest_of(rx_buf@) == rest_of(rx_buf@.skip(consumed as int)),
            !more ==> first_frame_from(rx_buf@.skip(consumed as int), 0) is None,
        decreases rx_buf.len() - consumed, (if more { 1int } else { 0int }),
    {
        let ghost tail = rx_buf@.skip(consumed as int);
        let ghost before = frame_views(frames@);
        let rest = slice_subrange(rx_buf.as_slice(), consumed, rx_buf.len());
        proof {
            assert(rest@ =~= tail);
            first_frame_is_valid(tail, 0);
        }
        match parse(rest) {
            Some((id, data, used)) => {
                let mut copy: Vec<u8> = Vec::new();
                copy.extend_from_slice(data);
                let frame = Frame { id, data: copy };
                proof {
                    assert(copy@ =~= data@);
                    let start = first_frame_from(tail, 0)->0;
                    assert(frame@ == frame_view_at(tail, start));
                    assert(tail.skip(used as int) =~= rx_buf@.skip(consumed + used));
                    assert(frame_views(frames@.push(frame)) =~= before + seq![frame@]);
                    assert(before + (seq![frame@] + frames_in(tail.skip(used as int))) =~= (before
                        + seq![frame@]) + frames_in(tail.skip(used as int)));
                }
                frames.push(frame);
                consumed = consumed + used;
            },
            None => {
                more = false;
            },
        }
    }
    proof {
        assert(frame_views(frames@) + Seq::<FrameView>::empty() =~= frame_views(frames@));
    }
    let rest = rx_buf.split_off(consumed);
    *rx_buf = rest;
    frames
}

/// The payloads of the packets with number `id`, in order.
pub open spec fn payloads_of(frames: Seq<FrameView>, id: u8) -> Seq<Seq<u8>>
    decreases frames.len(),
{
    if frames.len() == 0 {
        Seq::empty()
    } else if frames[0].id == id {
        seq![frames[0].data] + payloads_of(frames.skip(1), id)
    } else {
        payloads_of(frames.skip(1), id)
    }
}

/// The contents of a list of payloads.
pub open spec fn payload_views(payloads: Seq<Vec<u8>>) -> Seq<Seq<u8>> {
    payloads.map_values(|p: Vec<u8>| p@)
}

/// The payloads of the packets with number `id`, in order.
pub fn payloads_with_id(frames: &Vec<Frame>, id: u8) -> (r: Vec<Vec<u8>>)
    ensures
        payload_views(r@) == payloads_of(frame_views(frames@), id),
{
    let mut out: Vec<Vec<u8>> = Vec::new();
    let mut i: usize = 0;
    let ghost views = frame_views(frames@);
    proof {
        assert(views.skip(0) =~= views);
        assert(payload_views(out@) + payloads_of(views, id) =~= payloads_of(views, id));
    }
    while i < frames.len()
        invariant
            i <= frames.len(),
            views == frame_views(frames@),
            payloads_of(views, id) == payload_views(out@) + payloads_of(views.skip(i as int), id),
        decreases frames.len() - i,
    {
        let ghost before = out@;
        let ghost tail = views.skip(i as int);
        proof {
            assert(tail[0] == frames@[i as int]@);
            assert(tail.skip(1) =~= views.skip(i + 1));
        }
        if frames[i].id == id {
            let mut data: Vec<u8> = Vec::new();
            data.extend_from_slice(frames[i].data.as_slice());
            let ghost bytes = data@;
            proof {
                assert(bytes =~= frames@[i as int].data@);
            }
            out.push(data);
            proof {
                let rest = payloads_of(views.skip(i + 1), id);
                assert(payload_views(out@) =~= payload_views(before) + seq![bytes]);
                assert(payload_views(before) + (seq![bytes] + rest) =~= payload_views(out@) + rest);
            }
        }
        i = i + 1;
    }
    proof {
        assert(views.skip(i as int) =~= Seq::<FrameView>::empty());
        assert(payload_views(out@) + Seq::<Seq<u8>>::empty() =~= payload_views(out@));
    }
    out
}

/// The bytes of a list of frames, one after the other.
pub open spec fn stream_of(frames: Seq<FrameView>) -> Seq<u8>
    decreases frames.len(),
{
    if frames.len() == 0 {
        Seq::empty()
    } else {
        frame_of(frames[0].id, frames[0].data) + stream_of(frames.skip(1))
    }
}

/// A stream of frames is cut into exactly those frames, with nothing left over.
pub proof fn stream_roundtrip(frames: Seq<FrameView>)
    requires
        forall|i: int| 0 <= i < frames.len() ==> (#[trigger] frames[i]).data.len() <= 255,
    ensures
        frames_in(stream_of(frames)) == frames,
        rest_of(stream_of(frames)) == Seq::<u8>::empty(),
    decreases frames.len(),
{
    if frames.len() == 0 {
        assert(frames =~= Seq::<FrameView>::empty());
    } else {
        let tail = frames.skip(1);
        assert forall|i: int| 0 <= i < tail.len() implies (#[trigger] tail[i]).data.len()
            <= 255 by {
            assert(tail[i] == frames[i + 1]);
        }
        stream_roundtrip(tail);
        let f = frames[0];
        let buf = stream_of(frames);
        frame_parse_roundtrip(f.id, f.data, stream_of(tail));
        assert(buf.skip(frame_end(buf, 0)) =~= stream_of(tail));
        assert(frame_view_at(buf, 0) == f);
        assert(seq![f] + tail =~= frames);
    }
}

/// How a stream is cut into pieces makes no difference: taking the frames of
/// the first piece and then those of what was left over together with the
/// second piece gives the frames, and the remainder, of the whole.
pub proof fn frames_independent_of_chunking(first: Seq<u8>, second: Seq<u8>)
    ensures
        frames_in(first + second) == frames_in(first) + frames_in(rest_of(first) + second),
        rest_of(first + second) == rest_of(rest_of(first) + second),
    decreases first.len(),
{
    match first_frame_from(first, 0) {
        Some(start) => {
            first_frame_is_valid(first, 0);
            first_frame_is_stable(first, second, 0);
            let end = frame_end(first, start);
            let view = frame_view_at(first, start);
            frames_independent_of_chunking(first.skip(end), second);
            assert((first + second).skip(end) =~= first.skip(end) + second);
            assert(seq![view] + (frames_in(first.skip(end)) + frames_in(
                rest_of(first.skip(end)) + second,
            )) =~= (seq![view] + frames_in(first.skip(end))) + frames_in(
                rest_of(first.skip(end)) + second,
            ));
        },
        None => {
            assert(Seq::<FrameView>::empty() + frames_in(first + second) =~= frames_in(
                first + second,
            ));
        },
    }
}

/// Selecting distributes over concatenation.
proof fn lemma_payloads_concat(a: Seq<FrameView>, b: Seq<FrameView>, id: u8)
    ensures
        payloads_of(a + b, id) == payloads_of(a, id) + payloads_of(b, id),
    decreases a.len(),
{
    if a.len() == 0 {
        assert(a + b =~= b);
        assert(Seq::<Seq<u8>>::empty() + payloads_of(b, id) =~= payloads_of(b, id));
    } else {
        lemma_payloads_concat(a.skip(1), b, id);
        assert((a + b).skip(1) =~= a.skip(1) + b);
        assert((a + b)[0] == a[0]);
        assert(seq![a[0].data] + (payloads_of(a.skip(1), id) + payloads_of(b, id)) =~= (seq![
            a[0].data,
        ] + payloads_of(a.skip(1), id)) + payloads_of(b, id));
    }
}

/// The payload of a frame with the wanted number is selected where it stands, and a
/// frame with another number is left out: nothing is reordered or repeated.
pub proof fn wanted_payloads_selected(
    before: Seq<FrameView>,
    frame: FrameView,
    after: Seq<FrameView>,
    id: u8,
)
    ensures
        ({
            let all = payloads_of(before + seq![frame] + after, id);
            let (front, back) = (payloads_of(before, id), payloads_of(after, id));
            &&& frame.id == id ==> all == front + seq![frame.data] + back
            &&& frame.id != id ==> all == front + back
        }),
{
    let one = seq![frame];
    lemma_payloads_concat(before + one, after, id);
    lemma_payloads_concat(before, one, id);
    reveal_with_fuel(payloads_of, 2);
    assert(one.skip(1) =~= Seq::<FrameView>::empty());
    assert(seq![frame.data] + Seq::<Seq<u8>>::empty() =~= seq![frame.data]);
    assert(payloads_of(before, id) + Seq::<Seq<u8>>::empty() =~= payloads_of(before, id));
}

/// The contents of lists are those of their elements, in order.
pub proof fn contents_in_order(frames: Seq<Frame>, payloads: Seq<Vec<u8>>, i: int)
    ensures
        frame_views(frames).len() == frames.len(),
        0 <= i < frames.len() ==> frame_views(frames)[i].id == frames[i].id && frame_views(
            frames,
        )[i].data == frames[i].data@,
        payload_views(payloads).len() == payloads.len(),
        0 <= i < payloads.len() ==> payload_views(payloads)[i] == payloads[i]@,
{
}

} // verus!
