//! RDP_SEGMENTED_DATA (ZGFX) framing in uncompressed mode.
//!
//! Every graphics-pipeline PDU travels over the dynamic virtual channel inside
//! this framing. The server only emits uncompressed segments: a single segment
//! (`0xE0`, compression type `0x04`, data) when the payload fits in one
//! segment, a multipart record (`0xE1`, segment count, total size, segments)
//! otherwise.
use vstd::prelude::*;

verus! {

/// Descriptor of a single-segment record.
pub const ZGFX_SINGLE: u8 = 0xE0;

/// Descriptor of a multipart record.
pub const ZGFX_MULTIPART: u8 = 0xE1;

/// Compression type byte of an uncompressed segment.
pub const ZGFX_UNCOMPRESSED: u8 = 0x04;

/// Largest payload of one segment: its 32-bit size field counts the
/// compression-type byte too, and must stay within 0xFFFF.
pub const ZGFX_MAX_SEGMENT_DATA: usize = 65534;

/// Little-endian bytes of a 16-bit value.
pub open spec fn le16_bytes(v: u16) -> Seq<u8> {
    seq![(v & 0xff) as u8, (v >> 8u16) as u8]
}

/// Little-endian bytes of a 32-bit value.
pub open spec fn le32_bytes(v: u32) -> Seq<u8> {
    seq![
        (v & 0xff) as u8,
        ((v >> 8u32) & 0xff) as u8,
        ((v >> 16u32) & 0xff) as u8,
        (v >> 24u32) as u8,
    ]
}

/// The 16-bit value of two little-endian bytes.
pub open spec fn le16_value(b0: u8, b1: u8) -> u16 {
    (b0 as u16) | ((b1 as u16) << 8u16)
}

/// The 32-bit value of four little-endian bytes.
pub open spec fn le32_value(b0: u8, b1: u8, b2: u8, b3: u8) -> u32 {
    (b0 as u32) | ((b1 as u32) << 8u32) | ((b2 as u32) << 16u32) | ((b3 as u32) << 24u32)
}

/// Number of segments a payload of `n` bytes is cut into.
pub open spec fn zgfx_segment_count(n: nat) -> nat {
    ((n + 65533) / 65534) as nat
}

/// The segments of a multipart record: each is its size (data length plus
/// one), the compression type and up to 65534 data bytes, in order.
pub open spec fn zgfx_segments(d: Seq<u8>) -> Seq<u8>
    decreases d.len(),
{
    if d.len() == 0 {
        Seq::empty()
    } else if d.len() <= 65534 {
        le32_bytes((d.len() + 1) as u32) + seq![ZGFX_UNCOMPRESSED] + d
    } else {
        le32_bytes(65535u32) + seq![ZGFX_UNCOMPRESSED] + d.subrange(0, 65534) + zgfx_segments(
            d.subrange(65534, d.len() as int),
        )
    }
}

/// The record that frames `d`. The segment count and the total size are
/// written truncated to 16 and 32 bits.
pub open spec fn zgfx_wrapped(d: Seq<u8>) -> Seq<u8> {
    if d.len() <= 65534 {
        seq![ZGFX_SINGLE, ZGFX_UNCOMPRESSED] + d
    } else {
        seq![ZGFX_MULTIPART] + le16_bytes(zgfx_segment_count(d.len()) as u16) + le32_bytes(
            d.len() as u32,
        ) + zgfx_segments(d)
    }
}

/// The 32-bit little-endian value stored at `d[i..i + 4]`.
pub open spec fn le32_at(d: Seq<u8>, i: int) -> u32 {
    le32_value(d[i], d[i + 1], d[i + 2], d[i + 3])
}

/// Reading of at most `count` segments of `d` from `offset` on: the data
/// collected, and whether a segment of declared size zero stops the reading
/// with an empty range that starts after its end.
///
/// Reading stops early at a truncated size field or at a segment whose
/// compression type is not "uncompressed"; a segment that claims more bytes
/// than remain yields what remains.
pub open spec fn zgfx_walk(d: Seq<u8>, offset: int, count: nat) -> (Seq<u8>, bool)
    decreases count,
{
    if count == 0 || offset + 4 > d.len() {
        (Seq::empty(), false)
    } else {
        let seg_size = le32_at(d, offset);
        let o = offset + 4;
        if o < d.len() && d[o] == ZGFX_UNCOMPRESSED {
            let start = o + 1;
            if seg_size == 0 {
                (Seq::empty(), true)
            } else {
                let end = if start + seg_size - 1 < d.len() {
                    start + seg_size - 1
                } else {
                    d.len() as int
                };
                let rest = zgfx_walk(d, end, (count - 1) as nat);
                (d.subrange(start, end) + rest.0, rest.1)
            }
        } else {
            (Seq::empty(), false)
        }
    }
}

/// The payload framed by `d`, or `None` when `d` is not a ZGFX record the
/// server understands (empty, unknown descriptor, single segment that is
/// compressed or carries no data, multipart record shorter than its header
/// or holding, within its segment count, an uncompressed segment of declared
/// size zero).
pub open spec fn zgfx_unwrapped(d: Seq<u8>) -> Option<Seq<u8>> {
    if d.len() == 0 {
        None
    } else if d[0] == ZGFX_SINGLE {
        if d.len() > 2 && d[1] == ZGFX_UNCOMPRESSED {
            Some(d.subrange(2, d.len() as int))
        } else {
            None
        }
    } else if d[0] == ZGFX_MULTIPART {
        if d.len() < 7 || zgfx_walk(d, 7, le16_value(d[1], d[2]) as nat).1 {
            None
        } else {
            Some(zgfx_walk(d, 7, le16_value(d[1], d[2]) as nat).0)
        }
    } else {
        None
    }
}

/// Whether unwrapping `d` reaches an uncompressed segment of declared size
/// zero: the slice of that segment would start past its end.
pub open spec fn zgfx_unwrap_faults(d: Seq<u8>) -> bool {
    &&& d.len() >= 7
    &&& d[0] == ZGFX_MULTIPART
    &&& zgfx_walk(d, 7, le16_value(d[1], d[2]) as nat).1
}

proof fn lemma_le16_roundtrip(v: u16)
    ensures
        le16_value(le16_bytes(v)[0], le16_bytes(v)[1]) == v,
{
    let b0 = (v & 0xff) as u8;
    let b1 = (v >> 8u16) as u8;
    assert((b0 as u16) | ((b1 as u16) << 8u16) == v) by (bit_vector)
        requires
            b0 == (v & 0xff) as u8,
            b1 == (v >> 8u16) as u8,
    ;
}

proof fn lemma_le32_roundtrip(v: u32)
    ensures
        le32_at(le32_bytes(v), 0) == v,
{
    let b0 = (v & 0xff) as u8;
    let b1 = ((v >> 8u32) & 0xff) as u8;
    let b2 = ((v >> 16u32) & 0xff) as u8;
    let b3 = (v >> 24u32) as u8;
    assert((b0 as u32) | ((b1 as u32) << 8u32) | ((b2 as u32) << 16u32) | ((b3 as u32) << 24u32)
        == v) by (bit_vector)
        requires
            b0 == (v & 0xff) as u8,
            b1 == ((v >> 8u32) & 0xff) as u8,
            b2 == ((v >> 16u32) & 0xff) as u8,
            b3 == (v >> 24u32) as u8,
    ;
}

/// Appends `src[from..to]` to `out`.
fn append_range(out: &mut Vec<u8>, src: &[u8], from: usize, to: usize)
    requires
        from <= to <= src@.len(),
    ensures
        final(out)@ == old(out)@ + src@.subrange(from as int, to as int),
{
    let ghost start = out@;
    let mut i = from;
    while i < to
        invariant
            from <= i <= to <= src@.len(),
            out@ == start + src@.subrange(from as int, i as int),
        decreases to - i,
    {
        out.push(src[i]);
        i = i + 1;
        assert(out@ =~= start + src@.subrange(from as int, i as int));
    }
}

fn push_le16(out: &mut Vec<u8>, v: u16)
    ensures
        final(out)@ == old(out)@ + le16_bytes(v),
{
    out.push((v & 0xff) as u8);
    out.push((v >> 8u16) as u8);
    assert(out@ =~= old(out)@ + le16_bytes(v));
}

fn push_le32(out: &mut Vec<u8>, v: u32)
    ensures
        final(out)@ == old(out)@ + le32_bytes(v),
{
    out.push((v & 0xff) as u8);
    out.push(((v >> 8u32) & 0xff) as u8);
    out.push(((v >> 16u32) & 0xff) as u8);
    out.push((v >> 24u32) as u8);
    assert(out@ =~= old(out)@ + le32_bytes(v));
}

/// Cutting `d` after a whole number of full segments cuts its segment list
/// there too.
proof fn lemma_segments_split(d: Seq<u8>, k: nat)
    requires
        k * 65534 <= d.len(),
    ensures
        zgfx_segments(d) == zgfx_segments(d.subrange(0, (k * 65534) as int)) + zgfx_segments(
            d.subrange((k * 65534) as int, d.len() as int),
        ),
    decreases k,
{
    if k == 0 {
        assert(d.subrange(0, 0) =~= Seq::<u8>::empty());
        assert(d.subrange(0, d.len() as int) =~= d);
        assert(zgfx_segments(d) =~= Seq::<u8>::empty() + zgfx_segments(d));
    } else {
        let off: int = (k * 65534) as int;
        let head = d.subrange(0, off);
        if d.len() <= 65534 {
            assert(off == 65534 && d.len() == 65534);
            assert(head =~= d);
            assert(d.subrange(off, d.len() as int) =~= Seq::<u8>::empty());
            assert(zgfx_segments(d) =~= zgfx_segments(head) + Seq::<u8>::empty());
        } else {
            let rest = d.subrange(65534, d.len() as int);
            lemma_segments_split(rest, (k - 1) as nat);
            let off2: int = (((k - 1) as nat) * 65534) as int;
            assert(off2 == off - 65534);
            assert(rest.subrange(off2, rest.len() as int) =~= d.subrange(off, d.len() as int));
            assert(head.subrange(0, 65534) =~= d.subrange(0, 65534));
            if k == 1 {
                assert(rest.subrange(0, off2) =~= Seq::<u8>::empty());
                assert(head.len() == 65534);
                assert(zgfx_segments(d) =~= zgfx_segments(head) + zgfx_segments(
                    d.subrange(off, d.len() as int),
                ));
            } else {
                assert(head.len() > 65534);
                assert(head.subrange(65534, head.len() as int) =~= rest.subrange(0, off2));
                assert(zgfx_segments(d) =~= zgfx_segments(head) + zgfx_segments(
                    d.subrange(off, d.len() as int),
                ));
            }
        }
    }
}

/// Frames `data` as an uncompressed ZGFX record: one segment when it holds
/// at most 65534 bytes, a multipart record of 65534-byte segments otherwise.
pub fn wrap_zgfx(data: &[u8]) -> (out: Vec<u8>)
    ensures
        out@ == zgfx_wrapped(data@),
{
    let n = data.len();
    let mut out: Vec<u8> = Vec::new();
    if n <= ZGFX_MAX_SEGMENT_DATA {
        out.push(ZGFX_SINGLE);
        out.push(ZGFX_UNCOMPRESSED);
        append_range(&mut out, data, 0, n);
        assert(data@.subrange(0, n as int) =~= data@);
        assert(out@ =~= zgfx_wrapped(data@));
        out
    } else {
        let seg_count: usize = n / ZGFX_MAX_SEGMENT_DATA + if n % ZGFX_MAX_SEGMENT_DATA == 0 {
            0
        } else {
            1
        };
        assert(seg_count == zgfx_segment_count(n as nat)) by (nonlinear_arith)
            requires
                seg_count == n / 65534 + if n % 65534 == 0 {
                    0int
                } else {
                    1int
                },
        ;
        out.push(ZGFX_MULTIPART);
        push_le16(&mut out, seg_count as u16);
        push_le32(&mut out, n as u32);
        let ghost header = out@;
        let mut off: usize = 0;
        let ghost mut k: nat = 0;
        while off < n
            invariant
                n == data@.len(),
                off <= n,
                off < n ==> off == k * 65534,
                out@ == header + zgfx_segments(data@.subrange(0, off as int)),
            decreases n - off,
        {
            let take = if n - off < ZGFX_MAX_SEGMENT_DATA {
                n - off
            } else {
                ZGFX_MAX_SEGMENT_DATA
            };
            push_le32(&mut out, (take + 1) as u32);
            out.push(ZGFX_UNCOMPRESSED);
            append_range(&mut out, data, off, off + take);
            proof {
                let e = data@.subrange(0, (off + take) as int);
                lemma_segments_split(e, k);
                assert(e.subrange(0, off as int) =~= data@.subrange(0, off as int));
                let chunk = data@.subrange(off as int, (off + take) as int);
                assert(e.subrange(off as int, e.len() as int) =~= chunk);
                assert(zgfx_segments(chunk) == le32_bytes((take + 1) as u32) + seq![
                    ZGFX_UNCOMPRESSED,
                ] + chunk);
                assert(out@ =~= header + zgfx_segments(e));
            }
            off = off + take;
            proof {
                if take == ZGFX_MAX_SEGMENT_DATA {
                    k = k + 1;
                }
            }
        }
        assert(data@.subrange(0, n as int) =~= data@);
        assert(out@ =~= zgfx_wrapped(data@));
        out
    }
}


fn read_le32(data: &[u8], i: usize) -> (v: u32)
    requires
        i + 4 <= data@.len(),
    ensures
        v == le32_at(data@, i as int),
{
    (data[i] as u32) | ((data[i + 1] as u32) << 8u32) | ((data[i + 2] as u32) << 16u32) | ((
    data[i + 3] as u32) << 24u32)
}

/// Returns the payload of a ZGFX record received from the client, or `None`
/// when `data` is not such a record (see `zgfx_unwrapped`).
///
/// A multipart record is read segment by segment, up to the segment count
/// of its header: reading stops at a truncated size field or at a segment
/// that is not uncompressed, and a segment that claims more bytes than remain
/// yields what remains. A record holding an uncompressed segment of declared
/// size zero within that count is malformed and gives `None`.
pub fn unwrap_zgfx(data: &[u8]) -> (out: Option<Vec<u8>>)
    ensures
        match out {
            Some(v) => zgfx_unwrapped(data@) == Some(v@),
            None => zgfx_unwrapped(data@) is None,
        },
{
    if zgfx_unwrap_would_fault(data) {
        return None;
    }
    read_record(data)
}

/// Reads a ZGFX record known to hold no uncompressed segment of declared
/// size zero.
fn read_record(data: &[u8]) -> (out: Option<Vec<u8>>)
    requires
        !zgfx_unwrap_faults(data@),
    ensures
        match out {
            Some(v) => zgfx_unwrapped(data@) == Some(v@),
            None => zgfx_unwrapped(data@) is None,
        },
{
    let n = data.len();
    if n == 0 {
        return None;
    }
    if data[0] == ZGFX_SINGLE {
        if n > 2 && data[1] == ZGFX_UNCOMPRESSED {
            let mut v: Vec<u8> = Vec::new();
            append_range(&mut v, data, 2, n);
            assert(v@ =~= data@.subrange(2, n as int));
            Some(v)
        } else {
            None
        }
    } else if data[0] == ZGFX_MULTIPART {
        if n < 7 {
            return None;
        }
        let seg_count = ((data[1] as u16) | ((data[2] as u16) << 8u16)) as usize;
        let ghost count = le16_value(data@[1], data@[2]) as nat;
        let mut offset: usize = 7;
        let mut result: Vec<u8> = Vec::new();
        let mut i: usize = 0;
        while i < seg_count
            invariant_except_break
                n == data@.len(),
                seg_count == count,
                7 <= offset <= n,
                i <= seg_count,
                !zgfx_walk(data@, 7, count).1,
                zgfx_walk(data@, 7, count).0 == result@ + zgfx_walk(
                    data@,
                    offset as int,
                    (seg_count - i) as nat,
                ).0,
                zgfx_walk(data@, 7, count).1 == zgfx_walk(
                    data@,
                    offset as int,
                    (seg_count - i) as nat,
                ).1,
            ensures
                zgfx_walk(data@, 7, count).0 == result@,
            decreases seg_count - i,
        {
            if n - offset < 4 {
                assert(result@ + Seq::<u8>::empty() =~= result@);
                break;
            }
            let seg_size = read_le32(data, offset) as usize;
            offset = offset + 4;
            if offset < n && data[offset] == ZGFX_UNCOMPRESSED {
                offset = offset + 1;
                let end = if seg_size - 1 < n - offset {
                    offset + seg_size - 1
                } else {
                    n
                };
                let ghost before = result@;
                append_range(&mut result, data, offset, end);
                assert(before + (data@.subrange(offset as int, end as int) + zgfx_walk(
                    data@,
                    end as int,
                    (seg_count - i - 1) as nat,
                ).0) =~= result@ + zgfx_walk(data@, end as int, (seg_count - i - 1) as nat).0);
                offset = end;
            } else {
                assert(result@ + Seq::<u8>::empty() =~= result@);
                break;
            }
            i = i + 1;
        }
        Some(result)
    } else {
        None
    }
}

/// Whether `data` is a multipart record that holds, within its segment
/// count, an uncompressed segment of declared size zero; `unwrap_zgfx`
/// gives `None` for such a record.
pub fn zgfx_unwrap_would_fault(data: &[u8]) -> (b: bool)
    ensures
        b == zgfx_unwrap_faults(data@),
{
    let n = data.len();
    if n < 7 || data[0] != ZGFX_MULTIPART {
        return false;
    }
    let seg_count = ((data[1] as u16) | ((data[2] as u16) << 8u16)) as usize;
    let ghost count = le16_value(data@[1], data@[2]) as nat;
    let mut offset: usize = 7;
    let mut i: usize = 0;
    while i < seg_count
        invariant
            n == data@.len(),
            n >= 7,
            data@[0] == ZGFX_MULTIPART,
            count == le16_value(data@[1], data@[2]) as nat,
            seg_count == count,
            7 <= offset <= n,
            i <= seg_count,
            zgfx_walk(data@, 7, count).1 == zgfx_walk(data@, offset as int, (seg_count - i) as nat).1,
        decreases seg_count - i,
    {
        if n - offset < 4 {
            return false;
        }
        let seg_size = read_le32(data, offset) as usize;
        offset = offset + 4;
        if offset < n && data[offset] == ZGFX_UNCOMPRESSED {
            offset = offset + 1;
            if seg_size == 0 {
                return true;
            }
            let end = if seg_size - 1 < n - offset {
                offset + seg_size - 1
            } else {
                n
            };
            offset = end;
        } else {
            return false;
        }
        i = i + 1;
    }
    false
}


proof fn lemma_segment_count_step(n: nat)
    ensures
        n == 0 ==> zgfx_segment_count(n) == 0,
        0 < n <= 65534 ==> zgfx_segment_count(n) == 1,
        n > 65534 ==> zgfx_segment_count(n) == 1 + zgfx_segment_count((n - 65534) as nat),
        n <= 65534 * 65535 ==> zgfx_segment_count(n) <= 65535,
{
    assert(n == 0 ==> (n + 65533) / 65534 == 0) by (nonlinear_arith);
    assert(0 < n <= 65534 ==> (n + 65533) / 65534 == 1) by (nonlinear_arith);
    assert(n > 65534 ==> (n + 65533) / 65534 == 1 + (n - 65534 + 65533) / 65534) by (
    nonlinear_arith);
    assert(n <= 65534 * 65535 ==> (n + 65533) / 65534 <= 65535) by (nonlinear_arith);
}

/// Reading back the segment list of `d`, placed after any prefix, yields
/// `d` without fault.
proof fn lemma_walk_segments(p: Seq<u8>, d: Seq<u8>)
    ensures
        zgfx_walk(p + zgfx_segments(d), p.len() as int, zgfx_segment_count(d.len())) == (
            d,
            false,
        ),
    decreases d.len(),
{
    let w = p + zgfx_segments(d);
    let off = p.len() as int;
    lemma_segment_count_step(d.len());
    if d.len() == 0 {
        assert(d =~= Seq::<u8>::empty());
    } else if d.len() <= 65534 {
        let n = d.len();
        let head = le32_bytes((n + 1) as u32);
        assert(zgfx_segments(d) == head + seq![ZGFX_UNCOMPRESSED] + d);
        lemma_le32_roundtrip((n + 1) as u32);
        assert(w[off] == head[0] && w[off + 1] == head[1] && w[off + 2] == head[2] && w[off + 3]
            == head[3]);
        assert(le32_at(w, off) == (n + 1) as u32);
        assert(w[off + 4] == ZGFX_UNCOMPRESSED);
        assert(w.len() == off + 5 + n);
        assert(w.subrange(off + 5, w.len() as int) =~= d);
        assert(zgfx_walk(w, w.len() as int, 0).0 =~= Seq::<u8>::empty());
        assert(d + Seq::<u8>::empty() =~= d);
    } else {
        let first = d.subrange(0, 65534);
        let rest = d.subrange(65534, d.len() as int);
        let head = le32_bytes(65535u32);
        assert(zgfx_segments(d) == head + seq![ZGFX_UNCOMPRESSED] + first + zgfx_segments(rest));
        lemma_le32_roundtrip(65535u32);
        assert(w[off] == head[0] && w[off + 1] == head[1] && w[off + 2] == head[2] && w[off + 3]
            == head[3]);
        assert(le32_at(w, off) == 65535u32);
        assert(w[off + 4] == ZGFX_UNCOMPRESSED);
        lemma_segment_count_step(rest.len());
        assert(zgfx_segments(rest).len() > 0);
        let end = off + 5 + 65534;
        assert(end < w.len());
        let p2 = p + head + seq![ZGFX_UNCOMPRESSED] + first;
        assert(w =~= p2 + zgfx_segments(rest));
        assert(p2.len() == end);
        lemma_walk_segments(p2, rest);
        assert(w.subrange(off + 5, end) =~= first);
        assert(first + rest =~= d);
    }
}

/// Framing then unframing gives the payload back: for every payload of 1 to
/// 65534 * 65535 bytes, `zgfx_unwrapped(zgfx_wrapped(d)) == Some(d)`, and
/// unwrapping that record never faults. (An empty payload frames to a single
/// segment without data, which does not unwrap.)
pub proof fn lemma_zgfx_roundtrip(d: Seq<u8>)
    requires
        0 < d.len() <= 65534 * 65535,
    ensures
        zgfx_unwrapped(zgfx_wrapped(d)) == Some(d),
        !zgfx_unwrap_faults(zgfx_wrapped(d)),
{
    let w = zgfx_wrapped(d);
    if d.len() <= 65534 {
        assert(w.subrange(2, w.len() as int) =~= d);
    } else {
        lemma_segment_count_step(d.len());
        let cnt = zgfx_segment_count(d.len());
        let c16 = cnt as u16;
        assert(c16 as nat == cnt);
        lemma_le16_roundtrip(c16);
        let p = seq![ZGFX_MULTIPART] + le16_bytes(c16) + le32_bytes(d.len() as u32);
        assert(w =~= p + zgfx_segments(d));
        assert(w[1] == le16_bytes(c16)[0] && w[2] == le16_bytes(c16)[1]);
        assert(le16_value(w[1], w[2]) as nat == cnt);
        lemma_walk_segments(p, d);
    }
}

} // verus!
