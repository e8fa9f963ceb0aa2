//! The image generator side: the packets that a host sends.

use vstd::prelude::*;
use vstd::slice::slice_subrange;

use crate::cigi::host::datagram_of;
use crate::cigi::messages::{
    entity_control_roundtrip, ig_control_roundtrip, sensor_control_roundtrip, EntityControl,
    IgControl, SensorControl,
};
use crate::cigi::packets::{is_packet, packet_first, packet_size, packets_from, size_at};

verus! {

/// A packet from a host.
#[derive(Debug)]
pub enum CigiPacket {
    IgControl(IgControl),
    EntityControl(EntityControl),
    SensorControl(SensorControl),
    /// Type and bytes of a packet of any other type.
    Unknown(u8, Vec<u8>),
}

/// A packet from a host, as a value.
pub enum PacketView {
    IgControl(IgControl),
    EntityControl(EntityControl),
    SensorControl(SensorControl),
    Unknown(u8, Seq<u8>),
}

impl View for CigiPacket {
    type V = PacketView;

    open spec fn view(&self) -> PacketView {
        match *self {
            CigiPacket::IgControl(m) => PacketView::IgControl(m),
            CigiPacket::EntityControl(m) => PacketView::EntityControl(m),
            CigiPacket::SensorControl(m) => PacketView::SensorControl(m),
            CigiPacket::Unknown(t, bytes) => PacketView::Unknown(t, bytes@),
        }
    }
}

/// What packet `p` is; `None` if its type is known and it is too short.
pub open spec fn packet_in(p: Seq<u8>) -> Option<PacketView> {
    if p[0] == IgControl::TYPE_ID {
        match IgControl::spec_decode(p) {
            Some(m) => Some(PacketView::IgControl(m)),
            None => None,
        }
    } else if p[0] == EntityControl::TYPE_ID {
        match EntityControl::spec_decode(p) {
            Some(m) => Some(PacketView::EntityControl(m)),
            None => None,
        }
    } else if p[0] == SensorControl::TYPE_ID {
        match SensorControl::spec_decode(p) {
            Some(m) => Some(PacketView::SensorControl(m)),
            None => None,
        }
    } else {
        Some(PacketView::Unknown(p[0], p))
    }
}

/// The host packets among `packets`, in order.
pub open spec fn host_packets(packets: Seq<Seq<u8>>) -> Seq<PacketView>
    decreases packets.len(),
{
    if packets.len() == 0 {
        Seq::empty()
    } else {
        let rest = host_packets(packets.skip(1));
        match packet_in(packets[0]) {
            Some(pkt) => seq![pkt] + rest,
            None => rest,
        }
    }
}

/// The views of parsed packets.
pub open spec fn packet_views(packets: Seq<CigiPacket>) -> Seq<PacketView> {
    packets.map_values(|p: CigiPacket| p@)
}

/// What one packet is; `None` if its type is known and it is too short.
fn read_packet(p: &[u8]) -> (r: Option<CigiPacket>)
    requires
        p.len() >= 2,
    ensures
        packet_in(p@) == (match r {
            Some(pkt) => Some(pkt@),
            None => None,
        }),
{
    let type_id: u8 = p[0];
    if type_id == IgControl::TYPE_ID {
        match IgControl::decode(p) {
            Some(m) => Some(CigiPacket::IgControl(m)),
            None => None,
        }
    } else if type_id == EntityControl::TYPE_ID {
        match EntityControl::decode(p) {
            Some(m) => Some(CigiPacket::EntityControl(m)),
            None => None,
        }
    } else if type_id == SensorControl::TYPE_ID {
        match SensorControl::decode(p) {
            Some(m) => Some(CigiPacket::SensorControl(m)),
            None => None,
        }
    } else {
        let mut bytes: Vec<u8> = Vec::new();
        bytes.extend_from_slice(p);
        proof {
            assert(bytes@ =~= p@);
        }
        Some(CigiPacket::Unknown(type_id, bytes))
    }
}

/// The packets in a datagram, in order. A packet that is cut short ends the
/// datagram; one of a known type whose size is too small is left out.
pub fn parse_cigi_datagram(data: &[u8]) -> (r: Vec<CigiPacket>)
    ensures
        packet_views(r@) == host_packets(packets_from(data@, 0)),
{
    let mut out: Vec<CigiPacket> = Vec::new();
    let mut offset: usize = 0;
    let mut n: usize = packet_size(data, offset);
    let ghost total = host_packets(packets_from(data@, 0));
    proof {
        assert(packet_views(out@) + total =~= total);
    }
    while n > 0
        invariant
            offset <= data.len(),
            n == size_at(data@, offset as int),
            total == packet_views(out@) + host_packets(packets_from(data@, offset as int)),
        decreases data.len() - offset,
    {
        let ghost before = out@;
        let ghost packets = packets_from(data@, offset as int);
        let ghost rest = packets_from(data@, offset + n);
        proof {
            assert(packets.skip(1) =~= rest);
        }
        let p = slice_subrange(data, offset, offset + n);
        if let Some(pkt) = read_packet(p) {
            let ghost view = pkt@;
            out.push(pkt);
            proof {
                assert(packet_views(out@) =~= packet_views(before) + seq![view]);
                assert(packet_views(before) + (seq![view] + host_packets(rest)) =~= packet_views(
                    out@,
                ) + host_packets(rest));
            }
        }
        offset = offset + n;
        n = packet_size(data, offset);
    }
    proof {
        assert(packet_views(out@) + Seq::<PacketView>::empty() =~= packet_views(out@));
    }
    out
}

// ── Laws ───────────────────────────────────────────────────────────────

/// A packet in front of a datagram adds what it is and changes nothing else.
pub proof fn host_packet_first(p: Seq<u8>, rest: Seq<u8>)
    requires
        is_packet(p),
    ensures
        host_packets(packets_from(p + rest, 0)) == (match packet_in(p) {
            Some(pkt) => seq![pkt],
            None => Seq::<PacketView>::empty(),
        }) + host_packets(packets_from(rest, 0)),
{
    packet_first(p, rest);
    let packets = packets_from(p + rest, 0);
    assert(packets[0] == p);
    assert(packets.skip(1) =~= packets_from(rest, 0));
    let tail = host_packets(packets_from(rest, 0));
    assert(Seq::<PacketView>::empty() + tail =~= tail);
}

/// Three parts in a row: two packets and a rest.
proof fn packets_in_row(a: Seq<u8>, b: Seq<u8>, c: Seq<u8>, pa: PacketView, pb: PacketView)
    requires
        is_packet(a),
        is_packet(b),
        packet_in(a) == Some(pa),
        packet_in(b) == Some(pb),
    ensures
        host_packets(packets_from(a + b + c, 0)) == seq![pa, pb] + host_packets(
            packets_from(c, 0),
        ),
{
    assert(a + b + c =~= a + (b + c));
    host_packet_first(a, b + c);
    host_packet_first(b, c);
    assert(seq![pa] + (seq![pb] + host_packets(packets_from(c, 0))) =~= seq![pa, pb] + host_packets(
        packets_from(c, 0),
    ));
}

/// One packet and nothing else.
proof fn single_packet(c: Seq<u8>, pc: PacketView)
    requires
        is_packet(c),
        packet_in(c) == Some(pc),
    ensures
        host_packets(packets_from(c, 0)) == seq![pc],
{
    let none = Seq::<u8>::empty();
    assert(c + none =~= c);
    host_packet_first(c, none);
    assert(host_packets(packets_from(none, 0)) =~= Seq::<PacketView>::empty());
    assert(seq![pc] + Seq::<PacketView>::empty() =~= seq![pc]);
}

/// An encoded IG Control is one packet, and is read as itself.
pub proof fn ig_control_read_back(m: IgControl)
    requires
        m.ig_mode <= 3,
    ensures
        is_packet(m.spec_encode()),
        packet_in(m.spec_encode()) == Some(PacketView::IgControl(m)),
{
    ig_control_roundtrip(m);
}

/// An encoded Entity Control is one packet, and is read as itself.
pub proof fn entity_control_read_back(m: EntityControl)
    requires
        m.entity_state <= 3,
        m.animation_mode <= 3,
        m.animation_state <= 3,
    ensures
        is_packet(m.spec_encode()),
        packet_in(m.spec_encode()) == Some(PacketView::EntityControl(m)),
{
    entity_control_roundtrip(m);
}

/// An encoded Sensor Control that its bits can tell is one packet, and is read
/// as itself.
pub proof fn sensor_control_read_back(m: SensorControl)
    requires
        m.sensor_state <= 4,
        m.sensor_state == 4 ==> !m.polarity && !m.line_of_sight_enable,
        m.sensor_state == 0 ==> !m.polarity,
        m.track_mode <= 7,
    ensures
        is_packet(m.spec_encode()),
        packet_in(m.spec_encode()) == Some(PacketView::SensorControl(m)),
{
    sensor_control_roundtrip(m);
}

/// What the host puts into a datagram is what the image generator reads from it,
/// where the fields fit their bits.
pub proof fn datagram_read_back(ig: IgControl, ec: EntityControl, sc: Option<SensorControl>)
    requires
        ig.ig_mode <= 3,
        ec.entity_state <= 3,
        ec.animation_mode <= 3,
        ec.animation_state <= 3,
        sc matches Some(s) ==> {
            &&& s.sensor_state <= 4
            &&& s.sensor_state == 4 ==> !s.polarity && !s.line_of_sight_enable
            &&& s.sensor_state == 0 ==> !s.polarity
            &&& s.track_mode <= 7
        },
    ensures
        host_packets(packets_from(datagram_of(ig, ec, sc), 0)) == seq![
            PacketView::IgControl(ig),
            PacketView::EntityControl(ec),
        ] + (match sc {
            Some(s) => seq![PacketView::SensorControl(s)],
            None => Seq::<PacketView>::empty(),
        }),
{
    let a = ig.spec_encode();
    let b = ec.spec_encode();
    ig_control_read_back(ig);
    entity_control_read_back(ec);
    match sc {
        Some(s) => {
            sensor_control_read_back(s);
            packets_in_row(
                a,
                b,
                s.spec_encode(),
                PacketView::IgControl(ig),
                PacketView::EntityControl(ec),
            );
            single_packet(s.spec_encode(), PacketView::SensorControl(s));
        },
        None => {
            let none = Seq::<u8>::empty();
            packets_in_row(a, b, none, PacketView::IgControl(ig), PacketView::EntityControl(ec));
            assert(host_packets(packets_from(none, 0)) =~= Seq::<PacketView>::empty());
        },
    }
}

/// A packet of a type that is not known is kept with its type and all its bytes.
pub proof fn unknown_packet_kept(p: Seq<u8>, rest: Seq<u8>)
    requires
        is_packet(p),
        p[0] != 1,
        p[0] != 2,
        p[0] != 17,
    ensures
        host_packets(packets_from(p + rest, 0)) == seq![PacketView::Unknown(p[0], p)]
            + host_packets(packets_from(rest, 0)),
{
    host_packet_first(p, rest);
}

/// A packet of a known type that is too small for it is left out, and the ones behind
/// it are read all the same.
pub proof fn small_packet_left_out(p: Seq<u8>, rest: Seq<u8>)
    requires
        is_packet(p),
        ((p[0] == 1 || p[0] == 17) && p.len() < 24) || (p[0] == 2 && p.len() < 48),
    ensures
        host_packets(packets_from(p + rest, 0)) == host_packets(packets_from(rest, 0)),
{
    host_packet_first(p, rest);
    let tail = host_packets(packets_from(rest, 0));
    assert(Seq::<PacketView>::empty() + tail =~= tail);
}

/// The contents of a list of packets are those of the packets, in order, each of its own
/// kind.
pub proof fn packets_in_order(packets: Seq<CigiPacket>, i: int)
    requires
        0 <= i < packets.len(),
    ensures
        packet_views(packets).len() == packets.len(),
        packets[i] matches CigiPacket::IgControl(m) ==> packet_views(packets)[i]
            == PacketView::IgControl(m),
        packets[i] matches CigiPacket::EntityControl(m) ==> packet_views(packets)[i]
            == PacketView::EntityControl(m),
        packets[i] matches CigiPacket::SensorControl(m) ==> packet_views(packets)[i]
            == PacketView::SensorControl(m),
        packets[i] matches CigiPacket::Unknown(t, bytes) ==> packet_views(packets)[i]
            == PacketView::Unknown(t, bytes@),
{
}

} // verus!
