//! Orion wire framing.
//!
//! A frame is `[0xD0, 0x0D, id, len, data.., ck0, ck1]`. The two checksum bytes
//! are a Fletcher-16 sum modulo 251 over everything before them.

use vstd::prelude::*;
use vstd::slice::slice_subrange;

verus! {

/// First synchronisation byte.
pub const SYNC0: u8 = 0xD0;

/// Second synchronisation byte.
pub const SYNC1: u8 = 0x0D;

/// The modulus of the checksum.
pub const CHECKSUM_MODULUS: u16 = 251;

// ── Model ──────────────────────────────────────────────────────────────

/// One more than the sum of the bytes.
pub open spec fn fletcher_a(s: Seq<u8>) -> int
    decreases s.len(),
{
    if s.len() == 0 {
        1
    } else {
        fletcher_a(s.drop_last()) + s.last()
    }
}

/// The sum of `fletcher_a` over all non-empty prefixes.
pub open spec fn fletcher_b(s: Seq<u8>) -> int
    decreases s.len(),
{
    if s.len() == 0 {
        0
    } else {
        fletcher_b(s.drop_last()) + fletcher_a(s)
    }
}

/// The two checksum bytes of `s`.
pub open spec fn checksum_of(s: Seq<u8>) -> (u8, u8) {
    if s.len() == 0 {
        (1, 1)
    } else {
        ((fletcher_a(s) % 251) as u8, (fletcher_b(s) % 251) as u8)
    }
}

/// The four bytes in front of a payload; the length field holds the low 8 bits.
pub open spec fn header_of(id: u8, payload_len: nat) -> Seq<u8> {
    seq![SYNC0, SYNC1, id, (payload_len % 256) as u8]
}

/// The complete frame around `payload`.
pub open spec fn frame_of(id: u8, payload: Seq<u8>) -> Seq<u8> {
    let covered = header_of(id, payload.len()) + payload;
    covered + seq![checksum_of(covered).0, checksum_of(covered).1]
}

/// A frame header can be read at `start`.
pub open spec fn sync_at(buf: Seq<u8>, start: int) -> bool {
    &&& 0 <= start
    &&& start + 4 <= buf.len()
    &&& buf[start] == SYNC0
    &&& buf[start + 1] == SYNC1
}

/// Where the frame whose header is at `start` ends.
pub open spec fn frame_end(buf: Seq<u8>, start: int) -> int {
    start + 6 + buf[start + 3]
}

/// A whole frame with the right checksum is at `start`.
pub open spec fn valid_at(buf: Seq<u8>, start: int) -> bool {
    let end = frame_end(buf, start);
    &&& sync_at(buf, start)
    &&& end <= buf.len()
    &&& checksum_of(buf.subrange(start, end - 2)) == (buf[end - 2], buf[end - 1])
}

/// A header is at `start`, but the frame it announces is not there yet.
pub open spec fn incomplete_at(buf: Seq<u8>, start: int) -> bool {
    sync_at(buf, start) && frame_end(buf, start) > buf.len()
}

/// The scan for a frame goes no further than `start`.
pub open spec fn scan_stops_at(buf: Seq<u8>, start: int) -> bool {
    valid_at(buf, start) || incomplete_at(buf, start)
}

/// Where the first frame at or after `start` begins. A header whose frame is
/// still incomplete hides whatever follows it.
pub open spec fn first_frame_from(buf: Seq<u8>, start: int) -> Option<int>
    decreases buf.len() - start,
{
    if start < 0 || start + 4 > buf.len() || incomplete_at(buf, start) {
        None
    } else if valid_at(buf, start) {
        Some(start)
    } else {
        first_frame_from(buf, start + 1)
    }
}

/// A frame cut out of a stream.
#[verifier::ext_equal]
pub struct FrameView {
    /// Packet number.
    pub id: u8,
    /// Payload.
    pub data: Seq<u8>,
}

/// The frame that begins at `start`.
pub open spec fn frame_view_at(buf: Seq<u8>, start: int) -> FrameView {
    FrameView {
        id: buf[start + 2],
        data: buf.subrange(start + 4, frame_end(buf, start) - 2),
    }
}

// ── Code ───────────────────────────────────────────────────────────────

/// Computes the two checksum bytes of `bytes`.
pub fn checksum(bytes: &[u8]) -> (r: (u8, u8))
    ensures
        r == checksum_of(bytes@),
{
    if bytes.len() == 0 {
        return (1, 1);
    }
    let mut a: u16 = (bytes[0] as u16 + 1) % CHECKSUM_MODULUS;
    let mut b: u16 = a;
    let mut i: usize = 1;
    proof {
        let first = bytes@.take(1);
        assert(first.drop_last() =~= Seq::<u8>::empty());
        reveal_with_fuel(fletcher_a, 2);
        reveal_with_fuel(fletcher_b, 2);
    }
    while i < bytes.len()
        invariant
            1 <= i <= bytes.len(),
            a == fletcher_a(bytes@.take(i as int)) % 251,
            b == fletcher_b(bytes@.take(i as int)) % 251,
        decreases bytes.len() - i,
    {
        proof {
            assert(bytes@.take(i + 1).drop_last() =~= bytes@.take(i as int));
        }
        a = (a + bytes[i] as u16) % CHECKSUM_MODULUS;
        b = (b + a) % CHECKSUM_MODULUS;
        i = i + 1;
    }
    proof {
        assert(bytes@.take(i as int) =~= bytes@);
    }
    (a as u8, b as u8)
}

/// Wraps `payload` in a frame. The length field holds 8 bits: a payload of 256
/// bytes or more is framed under its length modulo 256.
pub fn frame(id: u8, payload: &[u8]) -> (r: Vec<u8>)
    ensures
        r@ == frame_of(id, payload@),
{
    let mut pkt: Vec<u8> = Vec::new();
    pkt.push(SYNC0);
    pkt.push(SYNC1);
    pkt.push(id);
    pkt.push((payload.len() % 256) as u8);
    pkt.extend_from_slice(payload);
    proof {
        assert(pkt@ =~= header_of(id, payload@.len()) + payload@);
    }
    let (ck0, ck1) = checksum(pkt.as_slice());
    pkt.push(ck0);
    pkt.push(ck1);
    pkt
}

/// Scans `buf` for the first valid frame: its number, its payload, and how many
/// bytes of `buf` end with it.
///
/// The scan waits at a header whose frame is incomplete, since the missing
/// bytes may still arrive.
pub fn parse(buf: &[u8]) -> (r: Option<(u8, &[u8], usize)>)
    ensures
        match first_frame_from(buf@, 0) {
            Some(start) => r matches Some((id, data, consumed)) && (FrameView { id, data: data@ })
                == frame_view_at(buf@, start) && consumed == frame_end(buf@, start),
            None => r is None,
        },
{
    let mut start: usize = 0;
    while start < buf.len() && buf.len() - start >= 4
        invariant
            start <= buf.len(),
            first_frame_from(buf@, 0) == first_frame_from(buf@, start as int),
        decreases buf.len() - start,
    {
        if buf[start] == SYNC0 && buf[start + 1] == SYNC1 {
            let len: usize = buf[start + 3] as usize;
            if buf.len() - start < 6 + len {
                return None;
            }
            let covered = slice_subrange(buf, start, start + 4 + len);
            let (ck0, ck1) = checksum(covered);
            if ck0 == buf[start + 4 + len] && ck1 == buf[start + 5 + len] {
                let data = slice_subrange(buf, start + 4, start + 4 + len);
                return Some((buf[start + 2], data, start + 6 + len));
            }
        }
        start = start + 1;
    }
    None
}

// ── Laws ───────────────────────────────────────────────────────────────

/// What the scan finds is a valid frame, and nothing before it stops the scan.
pub proof fn first_frame_is_valid(buf: Seq<u8>, from: int)
    ensures
        first_frame_from(buf, from) matches Some(start) ==> from <= start && valid_at(buf, start)
            && forall|j: int| from <= j < start ==> !scan_stops_at(buf, j),
    decreases buf.len() - from,
{
    if from < 0 || from + 4 > buf.len() || incomplete_at(buf, from) || valid_at(buf, from) {
    } else {
        first_frame_is_valid(buf, from + 1);
    }
}

/// The scan passes every place that does not stop it.
pub proof fn scan_passes(buf: Seq<u8>, from: int, to: int)
    requires
        0 <= from <= to,
        to + 3 <= buf.len(),
        forall|j: int| from <= j < to ==> !scan_stops_at(buf, j),
    ensures
        first_frame_from(buf, from) == first_frame_from(buf, to),
    decreases to - from,
{
    if from < to {
        assert(!scan_stops_at(buf, from));
        scan_passes(buf, from + 1, to);
    }
}

/// A framed payload stands as a valid frame wherever it is found.
proof fn lemma_frame_valid_at(junk: Seq<u8>, id: u8, payload: Seq<u8>, rest: Seq<u8>)
    requires
        payload.len() <= 255,
    ensures
        ({
            let buf = junk + frame_of(id, payload) + rest;
            &&& valid_at(buf, junk.len() as int)
            &&& frame_view_at(buf, junk.len() as int) == (FrameView { id, data: payload })
            &&& frame_end(buf, junk.len() as int) == junk.len() + frame_of(id, payload).len()
        }),
{
    let f = frame_of(id, payload);
    let covered = header_of(id, payload.len()) + payload;
    let buf = junk + f + rest;
    let n = junk.len() as int;
    assert(buf[n] == f[0] && buf[n + 1] == f[1] && buf[n + 2] == f[2] && buf[n + 3] == f[3]);
    let end = n + 6 + payload.len();
    assert(buf.subrange(n, end - 2) =~= covered);
    assert(buf[end - 2] == f[f.len() - 2]);
    assert(buf[end - 1] == f[f.len() - 1]);
    assert(buf.subrange(n + 4, end - 2) =~= payload);
}

/// Parsing a frame gives back the number and the payload that were framed,
/// whatever follows it.
pub proof fn frame_parse_roundtrip(id: u8, payload: Seq<u8>, rest: Seq<u8>)
    requires
        payload.len() <= 255,
    ensures
        ({
            let buf = frame_of(id, payload) + rest;
            &&& first_frame_from(buf, 0) == Some(0int)
            &&& frame_view_at(buf, 0) == (FrameView { id, data: payload })
            &&& frame_end(buf, 0) == frame_of(id, payload).len()
        }),
{
    lemma_frame_valid_at(Seq::empty(), id, payload, rest);
    assert(Seq::<u8>::empty() + frame_of(id, payload) + rest =~= frame_of(id, payload) + rest);
}

/// Bytes in front of a frame are skipped, as long as none of them begins a
/// valid frame or announces one that has not arrived.
pub proof fn parse_skips_junk(junk: Seq<u8>, id: u8, payload: Seq<u8>, rest: Seq<u8>)
    requires
        payload.len() <= 255,
        forall|j: int|
            0 <= j < junk.len() ==> !scan_stops_at(junk + frame_of(id, payload) + rest, j),
    ensures
        ({
            let buf = junk + frame_of(id, payload) + rest;
            &&& first_frame_from(buf, 0) == Some(junk.len() as int)
            &&& frame_view_at(buf, junk.len() as int) == (FrameView { id, data: payload })
            &&& frame_end(buf, junk.len() as int) == junk.len() + frame_of(id, payload).len()
        }),
{
    lemma_frame_valid_at(junk, id, payload, rest);
    scan_passes(junk + frame_of(id, payload) + rest, 0, junk.len() as int);
}

/// Bytes that hold no pair of synchronisation bytes are always skipped.
pub proof fn parse_skips_unsynchronised_junk(junk: Seq<u8>, id: u8, payload: Seq<u8>, rest: Seq<u8>)
    requires
        payload.len() <= 255,
        forall|j: int|
            0 <= j < junk.len() - 1 ==> !(junk[j] == SYNC0 && #[trigger] junk[j + 1] == SYNC1),
    ensures
        ({
            let buf = junk + frame_of(id, payload) + rest;
            &&& first_frame_from(buf, 0) == Some(junk.len() as int)
            &&& frame_view_at(buf, junk.len() as int) == (FrameView { id, data: payload })
            &&& frame_end(buf, junk.len() as int) == junk.len() + payload.len() + 6
        }),
{
    let buf = junk + frame_of(id, payload) + rest;
    assert forall|j: int| 0 <= j < junk.len() implies !scan_stops_at(buf, j) by {
        assert(buf[j] == junk[j]);
        if j + 1 < junk.len() {
            assert(buf[j + 1] == junk[j + 1]);
        } else {
            assert(buf[j + 1] == frame_of(id, payload)[0]);
        }
    }
    parse_skips_junk(junk, id, payload, rest);
}

/// More bytes behind a buffer do not change the frame found in it.
pub proof fn first_frame_is_stable(buf: Seq<u8>, more: Seq<u8>, from: int)
    ensures
        first_frame_from(buf, from) matches Some(start) ==> {
            &&& first_frame_from(buf + more, from) == Some(start)
            &&& frame_view_at(buf + more, start) == frame_view_at(buf, start)
            &&& frame_end(buf + more, start) == frame_end(buf, start)
        },
    decreases buf.len() - from,
{
    if first_frame_from(buf, from) is Some {
        let both = buf + more;
        assert(both[from] == buf[from] && both[from + 1] == buf[from + 1]);
        assert(both[from + 2] == buf[from + 2] && both[from + 3] == buf[from + 3]);
        if sync_at(buf, from) {
            let end = frame_end(buf, from);
            assert(both.subrange(from, end - 2) =~= buf.subrange(from, end - 2));
            assert(both.subrange(from + 4, end - 2) =~= buf.subrange(from + 4, end - 2));
            assert(both[end - 2] == buf[end - 2] && both[end - 1] == buf[end - 1]);
        }
        if !valid_at(buf, from) {
            first_frame_is_stable(buf, more, from + 1);
        }
    }
}

/// The sum of the bytes of `s`, each times its weight: `base` for the last byte, and one
/// more for each byte before it.
pub open spec fn weighted_sum(s: Seq<u8>, base: int) -> int
    decreases s.len(),
{
    if s.len() == 0 {
        0
    } else {
        s[0] * (base + s.len() - 1) + weighted_sum(s.skip(1), base)
    }
}

/// The sum of the bytes of `s`.
pub open spec fn byte_total(s: Seq<u8>) -> int
    decreases s.len(),
{
    if s.len() == 0 {
        0
    } else {
        s[0] + byte_total(s.skip(1))
    }
}

/// A last byte counts once.
proof fn lemma_total_of_push(s: Seq<u8>, b: u8)
    ensures
        byte_total(s.push(b)) == byte_total(s) + b,
    decreases s.len(),
{
    let t = s.push(b);
    if s.len() > 0 {
        lemma_total_of_push(s.skip(1), b);
        assert(t.skip(1) =~= s.skip(1).push(b));
        assert(t[0] == s[0]);
    } else {
        assert(t.skip(1).len() == 0);
        assert(byte_total(t.skip(1)) == 0);
    }
}

/// A last byte puts one more on the weight of every other.
proof fn lemma_weighted_of_push(s: Seq<u8>, b: u8)
    ensures
        weighted_sum(s.push(b), 1) == weighted_sum(s, 1) + byte_total(s) + b,
    decreases s.len(),
{
    let t = s.push(b);
    if s.len() > 0 {
        lemma_weighted_of_push(s.skip(1), b);
        assert(t.skip(1) =~= s.skip(1).push(b));
        assert(t[0] == s[0]);
        let n = s.len() as int;
        assert(t[0] * (1 + t.len() - 1) == s[0] * (1 + n - 1) + s[0]) by (nonlinear_arith)
            requires
                t[0] == s[0],
                t.len() == n + 1,
        ;
    } else {
        assert(t.skip(1).len() == 0);
        assert(weighted_sum(t.skip(1), 1) == 0);
        assert(t[0] * (1 + t.len() - 1) == b) by (nonlinear_arith)
            requires
                t[0] == b,
                t.len() == 1,
        ;
    }
}

/// The checksum in closed form: its first byte is one more than the sum of all bytes,
/// its second the number of bytes and their sum weighted by their distance from the
/// end, both modulo 251.
pub proof fn checksum_is_fletcher(s: Seq<u8>)
    requires
        s.len() > 0,
    ensures
        checksum_of(s).0 == (1 + byte_total(s)) % 251,
        checksum_of(s).1 == (s.len() + weighted_sum(s, 1)) % 251,
{
    lemma_fletcher_closed(s);
}

/// The two sums in closed form.
proof fn lemma_fletcher_closed(s: Seq<u8>)
    ensures
        fletcher_a(s) == 1 + byte_total(s),
        fletcher_b(s) == s.len() + weighted_sum(s, 1),
    decreases s.len(),
{
    if s.len() > 0 {
        let front = s.drop_last();
        lemma_fletcher_closed(front);
        lemma_total_of_push(front, s.last());
        lemma_weighted_of_push(front, s.last());
        assert(front.push(s.last()) =~= s);
    }
}

/// A frame byte by byte: the synchronisation bytes, the number, the length, the payload,
/// and the checksum of all of that, the plain sum first.
pub proof fn frame_layout(id: u8, payload: Seq<u8>)
    requires
        payload.len() <= 255,
    ensures
        ({
            let f = frame_of(id, payload);
            let n = payload.len() as int;
            &&& f.len() == n + 6
            &&& f[0] == 0xD0 && f[1] == 0x0D
            &&& f[2] == id
            &&& f[3] == n
            &&& f.subrange(4, 4 + n) == payload
            &&& f[n + 4] == (1 + byte_total(f.take(n + 4))) % 251
            &&& f[n + 5] == (n + 4 + weighted_sum(f.take(n + 4), 1)) % 251
        }),
{
    let f = frame_of(id, payload);
    let n = payload.len() as int;
    let covered = header_of(id, payload.len()) + payload;
    assert(f.subrange(4, 4 + n) =~= payload);
    assert(f.take(n + 4) =~= covered);
    checksum_is_fletcher(covered);
}

/// A byte changed by anything but a multiple of 251 changes the checksum.
pub proof fn changed_byte_shows(s: Seq<u8>, i: int, b: u8)
    requires
        0 <= i < s.len(),
        (b - s[i]) % 251 != 0,
    ensures
        checksum_of(s.update(i, b)).0 != checksum_of(s).0,
{
    lemma_total_of_update(s, i, b);
    checksum_is_fletcher(s);
    checksum_is_fletcher(s.update(i, b));
    let x = 1 + byte_total(s);
    let d = b - s[i];
    assert(x % 251 != (x + d) % 251);
}

/// A changed byte changes the sum by what it changed by.
proof fn lemma_total_of_update(s: Seq<u8>, i: int, b: u8)
    requires
        0 <= i < s.len(),
    ensures
        byte_total(s.update(i, b)) == byte_total(s) + b - s[i],
    decreases s.len(),
{
    let t = s.update(i, b);
    if i == 0 {
        assert(t.skip(1) =~= s.skip(1));
    } else {
        lemma_total_of_update(s.skip(1), i - 1, b);
        assert(t.skip(1) =~= s.skip(1).update(i - 1, b));
    }
}

/// A header whose frame has not arrived in full holds the scan: nothing behind it is
/// taken for a frame.
pub proof fn scan_waits_for_frame(id: u8, payload: Seq<u8>, n: int)
    requires
        payload.len() <= 255,
        0 <= n < payload.len() + 6,
    ensures
        first_frame_from(frame_of(id, payload).take(n), 0) is None,
{
    let f = frame_of(id, payload);
    let part = f.take(n);
    if n >= 4 {
        assert(part[0] == f[0] && part[1] == f[1] && part[3] == f[3]);
        assert(incomplete_at(part, 0));
    }
}

/// A payload of any length stands in its frame whole, under its length modulo 256.
pub proof fn long_payload_is_framed(id: u8, payload: Seq<u8>)
    ensures
        frame_of(id, payload).len() == payload.len() + 6,
        frame_of(id, payload)[3] == payload.len() % 256,
        frame_of(id, payload).subrange(4, payload.len() + 4int) == payload,
        checksum_of(Seq::<u8>::empty()) == (1u8, 1u8),
{
    assert(frame_of(id, payload).subrange(4, payload.len() + 4int) =~= payload);
}

} // verus!
