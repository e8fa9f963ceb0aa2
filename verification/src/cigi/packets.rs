//! Splitting a datagram into packets.
//!
//! Each packet begins with its type and its size in bytes.

use vstd::prelude::*;

verus! {

/// A whole packet begins at `offset`.
pub open spec fn packet_at(data: Seq<u8>, offset: int) -> bool {
    &&& 0 <= offset
    &&& offset + 2 <= data.len()
    &&& data[offset + 1] >= 2
    &&& offset + data[offset + 1] <= data.len()
}

/// The packets of `data` from `offset` on, up to the first that is not whole.
pub open spec fn packets_from(data: Seq<u8>, offset: int) -> Seq<Seq<u8>>
    decreases data.len() - offset,
{
    if packet_at(data, offset) {
        let end = offset + data[offset + 1];
        seq![data.subrange(offset, end)] + packets_from(data, end)
    } else {
        Seq::empty()
    }
}

/// `p` is one packet: its size field is its length.
pub open spec fn is_packet(p: Seq<u8>) -> bool {
    &&& p.len() >= 2
    &&& p[1] == p.len()
}

/// The size of the packet at `offset`; 0 if no whole packet begins there.
pub open spec fn size_at(data: Seq<u8>, offset: int) -> int {
    if packet_at(data, offset) {
        data[offset + 1] as int
    } else {
        0
    }
}

/// The size of the packet at `offset`; 0 if no whole packet begins there.
pub fn packet_size(data: &[u8], offset: usize) -> (r: usize)
    requires
        offset <= data.len(),
    ensures
        r == size_at(data@, offset as int),
{
    if data.len() - offset < 2 {
        return 0;
    }
    let size: usize = data[offset + 1] as usize;
    if size < 2 || data.len() - offset < size {
        return 0;
    }
    size
}

/// What stands in front of the splitting position does not matter.
pub proof fn packets_shift(front: Seq<u8>, rest: Seq<u8>, offset: int)
    requires
        0 <= offset <= rest.len(),
    ensures
        packets_from(front + rest, front.len() + offset) == packets_from(rest, offset),
    decreases rest.len() - offset,
{
    let all = front + rest;
    let j = front.len() + offset;
    if packet_at(rest, offset) {
        let n = rest[offset + 1] as int;
        assert(all[j + 1] == rest[offset + 1]);
        assert(packet_at(all, j));
        packets_shift(front, rest, offset + n);
        assert(all.subrange(j, j + n) =~= rest.subrange(offset, offset + n));
    } else if offset + 2 <= rest.len() {
        assert(all[j + 1] == rest[offset + 1]);
    }
}

/// A datagram that begins with a packet splits into that packet and the packets
/// of what follows.
pub proof fn packet_first(p: Seq<u8>, rest: Seq<u8>)
    requires
        is_packet(p),
    ensures
        packets_from(p + rest, 0) == seq![p] + packets_from(rest, 0),
{
    let all = p + rest;
    assert(all[1] == p[1]);
    assert(packet_at(all, 0));
    assert(all.subrange(0, p.len() as int) =~= p);
    packets_shift(p, rest, 0);
}

/// A packet that is cut short ends the splitting.
pub proof fn truncated_packet_dropped(p: Seq<u8>, n: int)
    requires
        is_packet(p),
        0 <= n < p.len(),
    ensures
        packets_from(p.take(n), 0) == Seq::<Seq<u8>>::empty(),
{
}

/// Every packet of a datagram is whole.
pub proof fn packets_are_whole(data: Seq<u8>, offset: int, i: int)
    requires
        0 <= i < packets_from(data, offset).len(),
    ensures
        is_packet(packets_from(data, offset)[i]),
    decreases data.len() - offset,
{
    if packet_at(data, offset) {
        let end = offset + data[offset + 1];
        assert(data.subrange(offset, end)[1] == data[offset + 1]);
        if i > 0 {
            packets_are_whole(data, end, i - 1);
        }
    }
}

} // verus!
