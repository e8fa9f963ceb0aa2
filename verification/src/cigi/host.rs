//! The host side: datagrams to the scene generator, and its responses.

use vstd::prelude::*;
use vstd::slice::slice_subrange;

use crate::cigi::messages::{
    EntityControl, IgControl, SensorControl, SensorExtendedResponse, StartOfFrame,
};
use crate::cigi::packets::{is_packet, packet_first, packet_size, packets_from, size_at};

verus! {

/// Encoded packets that go out as one datagram.
pub type CigiDatagram = Vec<u8>;

/// A response of the scene generator.
#[derive(Debug, Clone, Copy, PartialEq, Eq, Structural)]
pub enum CigiResponse {
    StartOfFrame(StartOfFrame),
    SensorResponse(SensorExtendedResponse),
}

/// The response in packet `p`, if its type is known and it is long enough.
pub open spec fn response_in(p: Seq<u8>) -> Option<CigiResponse> {
    if p[0] == StartOfFrame::TYPE_ID {
        match StartOfFrame::spec_decode(p) {
            Some(sof) => Some(CigiResponse::StartOfFrame(sof)),
            None => None,
        }
    } else if p[0] == SensorExtendedResponse::TYPE_ID {
        match SensorExtendedResponse::spec_decode(p) {
            Some(ser) => Some(CigiResponse::SensorResponse(ser)),
            None => None,
        }
    } else {
        None
    }
}

/// The responses in `packets`, in order.
pub open spec fn responses_in(packets: Seq<Seq<u8>>) -> Seq<CigiResponse>
    decreases packets.len(),
{
    if packets.len() == 0 {
        Seq::empty()
    } else {
        let rest = responses_in(packets.skip(1));
        match response_in(packets[0]) {
            Some(resp) => seq![resp] + rest,
            None => rest,
        }
    }
}

/// The response in one packet, if its type is known and it is long enough.
fn read_response(p: &[u8]) -> (r: Option<CigiResponse>)
    requires
        p.len() >= 2,
    ensures
        r == response_in(p@),
{
    if p[0] == StartOfFrame::TYPE_ID {
        match StartOfFrame::decode(p) {
            Some(sof) => Some(CigiResponse::StartOfFrame(sof)),
            None => None,
        }
    } else if p[0] == SensorExtendedResponse::TYPE_ID {
        match SensorExtendedResponse::decode(p) {
            Some(ser) => Some(CigiResponse::SensorResponse(ser)),
            None => None,
        }
    } else {
        None
    }
}

/// The responses in a datagram, in order. Packets of other types are skipped; a
/// packet that is cut short ends the datagram.
pub fn parse_responses(data: &[u8]) -> (r: Vec<CigiResponse>)
    ensures
        r@ == responses_in(packets_from(data@, 0)),
{
    let mut out: Vec<CigiResponse> = Vec::new();
    let mut offset: usize = 0;
    let mut n: usize = packet_size(data, offset);
    let ghost total = responses_in(packets_from(data@, 0));
    proof {
        assert(out@ + total =~= total);
    }
    while n > 0
        invariant
            offset <= data.len(),
            n == size_at(data@, offset as int),
            total == out@ + responses_in(packets_from(data@, offset as int)),
        decreases data.len() - offset,
    {
        let ghost before = out@;
        let ghost packets = packets_from(data@, offset as int);
        let ghost rest = packets_from(data@, offset + n);
        proof {
            assert(packets.skip(1) =~= rest);
        }
        let p = slice_subrange(data, offset, offset + n);
        if let Some(resp) = read_response(p) {
            out.push(resp);
            proof {
                assert(before + (seq![resp] + responses_in(rest)) =~= out@ + responses_in(rest));
            }
        }
        offset = offset + n;
        n = packet_size(data, offset);
    }
    proof {
        assert(out@ + Seq::<CigiResponse>::empty() =~= out@);
    }
    out
}

/// The bytes of a datagram of IG Control, Entity Control and, if there is one,
/// Sensor Control.
pub open spec fn datagram_of(ig: IgControl, ec: EntityControl, sc: Option<SensorControl>) -> Seq<
    u8,
> {
    ig.spec_encode() + ec.spec_encode() + (match sc {
        Some(s) => s.spec_encode(),
        None => Seq::<u8>::empty(),
    })
}

/// Encodes IG Control, Entity Control and, if there is one, Sensor Control into
/// one datagram.
pub fn build_datagram(ig: &IgControl, ec: &EntityControl, sc: Option<&SensorControl>) -> (r:
    CigiDatagram)
    ensures
        r@ == datagram_of(
            *ig,
            *ec,
            match sc {
                Some(s) => Some(*s),
                None => None,
            },
        ),
{
    let mut out: Vec<u8> = ig.encode();
    let mut entity: Vec<u8> = ec.encode();
    out.append(&mut entity);
    if let Some(s) = sc {
        let mut sensor: Vec<u8> = s.encode();
        out.append(&mut sensor);
    }
    proof {
        assert(ig.spec_encode() + ec.spec_encode() + Seq::<u8>::empty() =~= ig.spec_encode()
            + ec.spec_encode());
    }
    out
}

// ── Laws ───────────────────────────────────────────────────────────────

/// A packet in front of a datagram adds its response, if it is one, and changes
/// nothing else.
pub proof fn response_first(p: Seq<u8>, rest: Seq<u8>)
    requires
        is_packet(p),
    ensures
        responses_in(packets_from(p + rest, 0)) == (match response_in(p) {
            Some(resp) => seq![resp],
            None => Seq::<CigiResponse>::empty(),
        }) + responses_in(packets_from(rest, 0)),
{
    packet_first(p, rest);
    let packets = packets_from(p + rest, 0);
    assert(packets[0] == p);
    assert(packets.skip(1) =~= packets_from(rest, 0));
    let tail = responses_in(packets_from(rest, 0));
    assert(Seq::<CigiResponse>::empty() + tail =~= tail);
}

/// An encoded Start Of Frame is one packet, and is read as itself.
pub proof fn start_of_frame_read_back(sof: StartOfFrame, rest: Seq<u8>)
    requires
        sof.ig_mode <= 3,
        sof.minor_version <= 15,
        -128 <= sof.db_number <= 127,
        sof.timestamp_10us <= u32::MAX,
    ensures
        responses_in(packets_from(sof.spec_encode() + rest, 0)) == seq![
            CigiResponse::StartOfFrame(sof),
        ] + responses_in(packets_from(rest, 0)),
{
    let p = sof.spec_encode();
    crate::cigi::messages::start_of_frame_roundtrip(sof);
    response_first(p, rest);
}

/// Type 101 is a Start Of Frame and type 107 a Sensor Extended Response; each is read
/// if the packet is long enough. No other type is a response.
pub proof fn response_types(p: Seq<u8>)
    requires
        is_packet(p),
    ensures
        p[0] == 101 && p.len() >= 24 ==> (response_in(p) matches Some(
            CigiResponse::StartOfFrame(sof),
        ) && StartOfFrame::spec_decode(p) == Some(sof)),
        p[0] == 107 && p.len() >= 48 ==> (response_in(p) matches Some(
            CigiResponse::SensorResponse(ser),
        ) && SensorExtendedResponse::spec_decode(p) == Some(ser)),
        p[0] == 101 && p.len() < 24 ==> response_in(p) is None,
        p[0] == 107 && p.len() < 48 ==> response_in(p) is None,
        p[0] != 101 && p[0] != 107 ==> response_in(p) is None,
{
}

/// A datagram is an IG Control, an Entity Control and, if there is one, a Sensor
/// Control, in this order and with nothing between.
pub proof fn datagram_is_in_order(ig: IgControl, ec: EntityControl, sc: Option<SensorControl>)
    ensures
        ({
            let d = datagram_of(ig, ec, sc);
            &&& d.take(24) == ig.spec_encode()
            &&& d.subrange(24, 72) == ec.spec_encode()
            &&& sc matches Some(s) ==> d.len() == 96 && d.skip(72) == s.spec_encode()
            &&& sc is None ==> d.len() == 72
        }),
{
    crate::cigi::messages::ig_control_layout(ig);
    crate::cigi::messages::entity_control_layout(ec);
    let d = datagram_of(ig, ec, sc);
    assert(d.take(24) =~= ig.spec_encode());
    assert(d.subrange(24, 72) =~= ec.spec_encode());
    match sc {
        Some(s) => {
            crate::cigi::messages::sensor_control_layout(s);
            assert(d.skip(72) =~= s.spec_encode());
        },
        None => {},
    }
}

} // verus!
