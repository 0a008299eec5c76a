//! H.264 Annex B byte streams: start codes, NAL unit splitting and the
//! RTP payloads (single NAL unit or FU-A fragments) that carry NAL units.

use vstd::prelude::*;

verus! {

/// Largest RTP payload produced by the packetisers.
pub const MAX_RTP_PAYLOAD_SIZE: usize = 1200;

/// A three-byte start code `00 00 01` begins at `i`.
pub open spec fn sc3(d: Seq<u8>, i: int) -> bool {
    0 <= i && i + 3 <= d.len() && d[i] == 0 && d[i + 1] == 0 && d[i + 2] == 1
}

/// A four-byte start code `00 00 00 01` begins at `i`.
pub open spec fn sc4(d: Seq<u8>, i: int) -> bool {
    0 <= i && i + 4 <= d.len() && d[i] == 0 && d[i + 1] == 0 && d[i + 2] == 0 && d[i + 3] == 1
}

/// Whether a start code begins at `i` of `d` (executable form).
pub fn has_sc4(d: &[u8], i: usize) -> (r: bool)
    ensures
        r == sc4(d@, i as int),
{
    i <= d.len() && d.len() - i >= 4 && d[i] == 0 && d[i + 1] == 0 && d[i + 2] == 0 && d[i + 3] == 1
}

/// Whether a three-byte start code begins at `i` of `d` (executable form).
pub fn has_sc3(d: &[u8], i: usize) -> (r: bool)
    ensures
        r == sc3(d@, i as int),
{
    i <= d.len() && d.len() - i >= 3 && d[i] == 0 && d[i + 1] == 0 && d[i + 2] == 1
}

/// `d` with a leading four- or three-byte start code removed.
pub open spec fn spec_strip_annex_b(d: Seq<u8>) -> Seq<u8> {
    if sc4(d, 0) {
        d.subrange(4, d.len() as int)
    } else if sc3(d, 0) {
        d.subrange(3, d.len() as int)
    } else {
        d
    }
}

/// The FU-A fragments of `nal` from payload offset `off` on (the payload is
/// `nal` without its header byte), each with its RTP marker bit; the marker
/// is set on the final fragment of the final NAL unit.
pub open spec fn fu_a_fragments(nal: Seq<u8>, off: int, last_nal: bool) -> Seq<(Seq<u8>, bool)>
    decreases nal.len() - 1 - off,
{
    let plen = nal.len() - 1;
    if off < 0 || off >= plen {
        Seq::empty()
    } else {
        let size = if plen - off < MAX_RTP_PAYLOAD_SIZE - 2 { plen - off } else { MAX_RTP_PAYLOAD_SIZE - 2 };
        let last = off + size >= plen;
        let t = nal[0] & 0x1fu8;
        let nri = nal[0] & 0x60u8;
        let fu_header: u8 = if off == 0 { 0x80u8 | t } else if last { 0x40u8 | t } else { t };
        let frag = seq![nri | 28u8, fu_header] + nal.subrange(1 + off, 1 + off + size);
        seq![(frag, last && last_nal)] + fu_a_fragments(nal, off + size, last_nal)
    }
}

/// The RTP payloads that carry `nal`: the unit itself when it fits, FU-A fragments otherwise.
pub open spec fn nal_payloads(nal: Seq<u8>, last_nal: bool) -> Seq<(Seq<u8>, bool)> {
    if nal.len() <= MAX_RTP_PAYLOAD_SIZE {
        seq![(nal, last_nal)]
    } else {
        fu_a_fragments(nal, 0, last_nal)
    }
}

/// The payloads of the first `k` of `nals`, in order.
pub open spec fn payloads_upto(nals: Seq<Seq<u8>>, k: int) -> Seq<(Seq<u8>, bool)>
    decreases k,
{
    if k <= 0 {
        Seq::empty()
    } else {
        payloads_upto(nals, k - 1) + nal_payloads(nals[k - 1], k == nals.len())
    }
}

/// The payloads of all of `nals`.
pub open spec fn all_payloads(nals: Seq<Seq<u8>>) -> Seq<(Seq<u8>, bool)> {
    payloads_upto(nals, nals.len() as int)
}

proof fn lemma_fu_header_bits(h: u8)
    ensures
        (0x80u8 | (h & 0x1fu8)) & 0x1fu8 == h & 0x1fu8,
        (0x40u8 | (h & 0x1fu8)) & 0x1fu8 == h & 0x1fu8,
        (h & 0x1fu8) & 0x1fu8 == h & 0x1fu8,
        (0x80u8 | (h & 0x1fu8)) & 0x80u8 != 0,
        (0x80u8 | (h & 0x1fu8)) & 0x40u8 == 0,
        (0x40u8 | (h & 0x1fu8)) & 0x80u8 == 0,
        (0x40u8 | (h & 0x1fu8)) & 0x40u8 != 0,
        (h & 0x1fu8) & 0x80u8 == 0,
        (h & 0x1fu8) & 0x40u8 == 0,
{
    assert((0x80u8 | (h & 0x1fu8)) & 0x1fu8 == h & 0x1fu8) by (bit_vector);
    assert((0x40u8 | (h & 0x1fu8)) & 0x1fu8 == h & 0x1fu8) by (bit_vector);
    assert((h & 0x1fu8) & 0x1fu8 == h & 0x1fu8) by (bit_vector);
    assert((0x80u8 | (h & 0x1fu8)) & 0x80u8 != 0) by (bit_vector);
    assert((0x80u8 | (h & 0x1fu8)) & 0x40u8 == 0) by (bit_vector);
    assert((0x40u8 | (h & 0x1fu8)) & 0x80u8 == 0) by (bit_vector);
    assert((0x40u8 | (h & 0x1fu8)) & 0x40u8 != 0) by (bit_vector);
    assert((h & 0x1fu8) & 0x80u8 == 0) by (bit_vector);
    assert((h & 0x1fu8) & 0x40u8 == 0) by (bit_vector);
}

/// The shape of the FU-A fragments of `nal` from payload offset `off` on.
pub open spec fn fu_a_shape(nal: Seq<u8>, off: int, last_nal: bool, f: Seq<(Seq<u8>, bool)>) -> bool {
    &&& f.len() > 0
    &&& f.last().1 == last_nal
    &&& forall|i: int| 0 <= i < f.len() ==> {
        &&& 3 <= (#[trigger] f[i]).0.len() <= MAX_RTP_PAYLOAD_SIZE
        &&& f[i].0[0] == ((nal[0] & 0x60u8) | 28u8)
        &&& f[i].0[1] & 0x1fu8 == nal[0] & 0x1fu8
        &&& ((f[i].0[1] & 0x80u8 != 0) <==> (off == 0 && i == 0))
        &&& ((f[i].0[1] & 0x40u8 != 0) <==> i == f.len() - 1)
        &&& (i < f.len() - 1 ==> !f[i].1)
    }
}

proof fn lemma_fu_a_from(nal: Seq<u8>, off: int, last_nal: bool)
    requires
        nal.len() > MAX_RTP_PAYLOAD_SIZE,
        0 <= off < nal.len() - 1,
    ensures
        fu_a_shape(nal, off, last_nal, fu_a_fragments(nal, off, last_nal)),
    decreases nal.len() - 1 - off,
{
    let plen = nal.len() - 1;
    let size = if plen - off < MAX_RTP_PAYLOAD_SIZE - 2 { plen - off } else { MAX_RTP_PAYLOAD_SIZE - 2 };
    let last = off + size >= plen;
    let h = nal[0];
    let t = h & 0x1fu8;
    let nri = h & 0x60u8;
    let fu_header: u8 = if off == 0 { 0x80u8 | t } else if last { 0x40u8 | t } else { t };
    let frag = seq![nri | 28u8, fu_header] + nal.subrange(1 + off, 1 + off + size);
    let f = fu_a_fragments(nal, off, last_nal);
    let rest = fu_a_fragments(nal, off + size, last_nal);
    assert(f == seq![(frag, last && last_nal)] + rest);
    lemma_fu_header_bits(h);
    assert(off == 0 ==> !last);
    if last {
        assert(rest =~= Seq::<(Seq<u8>, bool)>::empty());
        assert(f =~= seq![(frag, last && last_nal)]);
    } else {
        lemma_fu_a_from(nal, off + size, last_nal);
        assert forall|i: int| 0 <= i < f.len() implies {
            &&& 3 <= (#[trigger] f[i]).0.len() <= MAX_RTP_PAYLOAD_SIZE
            &&& f[i].0[0] == ((nal[0] & 0x60u8) | 28u8)
            &&& f[i].0[1] & 0x1fu8 == nal[0] & 0x1fu8
            &&& ((f[i].0[1] & 0x80u8 != 0) <==> (off == 0 && i == 0))
            &&& ((f[i].0[1] & 0x40u8 != 0) <==> i == f.len() - 1)
            &&& (i < f.len() - 1 ==> !f[i].1)
        } by {
            if i > 0 {
                assert(f[i] == rest[i - 1]);
            }
        }
    }
}

/// The bytes the fragments `f` carry after their two header bytes, joined.
pub open spec fn fu_bodies(f: Seq<(Seq<u8>, bool)>) -> Seq<u8>
    decreases f.len(),
{
    if f.len() == 0 {
        Seq::empty()
    } else {
        f[0].0.subrange(2, f[0].0.len() as int) + fu_bodies(f.drop_first())
    }
}

proof fn lemma_fu_bodies_from(nal: Seq<u8>, off: int, last_nal: bool)
    requires
        nal.len() > MAX_RTP_PAYLOAD_SIZE,
        0 <= off <= nal.len() - 1,
    ensures
        fu_bodies(fu_a_fragments(nal, off, last_nal)) == nal.subrange(1 + off, nal.len() as int),
    decreases nal.len() - 1 - off,
{
    let plen = nal.len() - 1;
    if off == plen {
        assert(fu_a_fragments(nal, off, last_nal) =~= Seq::<(Seq<u8>, bool)>::empty());
        assert(nal.subrange(1 + off, nal.len() as int) =~= Seq::<u8>::empty());
    } else {
        let size = if plen - off < MAX_RTP_PAYLOAD_SIZE - 2 { plen - off } else { MAX_RTP_PAYLOAD_SIZE - 2 };
        let last = off + size >= plen;
        let h = nal[0];
        let t = h & 0x1fu8;
        let nri = h & 0x60u8;
        let fu_header: u8 = if off == 0 { 0x80u8 | t } else if last { 0x40u8 | t } else { t };
        let frag = seq![nri | 28u8, fu_header] + nal.subrange(1 + off, 1 + off + size);
        let f = fu_a_fragments(nal, off, last_nal);
        let rest = fu_a_fragments(nal, off + size, last_nal);
        assert(f == seq![(frag, last && last_nal)] + rest);
        assert(f.drop_first() =~= rest);
        lemma_fu_bodies_from(nal, off + size, last_nal);
        assert(frag.subrange(2, frag.len() as int) =~= nal.subrange(1 + off, 1 + off + size));
        assert(nal.subrange(1 + off, nal.len() as int) =~= nal.subrange(1 + off, 1 + off + size)
            + nal.subrange(1 + off + size, nal.len() as int));
    }
}

/// The payloads that carry one unit: a unit that fits is carried whole in
/// one payload (with the marker when it is the frame's last); a longer one
/// is carried as FU-A fragments whose bytes after their two header bytes,
/// joined in order, are the unit without its header byte.
pub proof fn lemma_unit_payloads(nal: Seq<u8>, last_nal: bool)
    ensures
        nal.len() <= MAX_RTP_PAYLOAD_SIZE ==> nal_payloads(nal, last_nal) == seq![(nal, last_nal)],
        nal.len() > MAX_RTP_PAYLOAD_SIZE ==> nal_payloads(nal, last_nal) == fu_a_fragments(nal, 0, last_nal)
            && fu_a_shape(nal, 0, last_nal, fu_a_fragments(nal, 0, last_nal))
            && fu_bodies(fu_a_fragments(nal, 0, last_nal)) == nal.subrange(1, nal.len() as int),
{
    if nal.len() > MAX_RTP_PAYLOAD_SIZE {
        lemma_fu_a_from(nal, 0, last_nal);
        lemma_fu_bodies_from(nal, 0, last_nal);
    }
}

/// The FU-A fragments of a unit too long for one payload: at least one;
/// each holds the FU indicator (the unit's NRI bits, type 28), an FU header
/// with the unit's type, and at least one byte, within the payload limit;
/// the start bit is set on the first fragment only, the end bit on the last
/// only; the marker can only be on the last, and is there exactly when the
/// unit is the frame's last.
pub proof fn lemma_fu_a_fragments_shape(nal: Seq<u8>, last_nal: bool)
    requires
        nal.len() > MAX_RTP_PAYLOAD_SIZE,
    ensures
        fu_a_shape(nal, 0, last_nal, fu_a_fragments(nal, 0, last_nal)),
{
    lemma_fu_a_from(nal, 0, last_nal);
}

proof fn lemma_nal_payloads_shape(nal: Seq<u8>, last_nal: bool)
    ensures
        nal_payloads(nal, last_nal).len() > 0,
        nal_payloads(nal, last_nal).last().1 == last_nal,
        forall|i: int| 0 <= i < nal_payloads(nal, last_nal).len() ==>
            (#[trigger] nal_payloads(nal, last_nal)[i]).0.len() <= MAX_RTP_PAYLOAD_SIZE
            && (i < nal_payloads(nal, last_nal).len() - 1 ==> !nal_payloads(nal, last_nal)[i].1),
{
    if nal.len() > MAX_RTP_PAYLOAD_SIZE {
        lemma_fu_a_from(nal, 0, last_nal);
    }
}

proof fn lemma_payloads_upto_shape(nals: Seq<Seq<u8>>, k: int)
    requires
        0 <= k <= nals.len(),
    ensures
        forall|i: int| 0 <= i < payloads_upto(nals, k).len() ==>
            (#[trigger] payloads_upto(nals, k)[i]).0.len() <= MAX_RTP_PAYLOAD_SIZE
            && (payloads_upto(nals, k)[i].1 ==> k == nals.len() && i == payloads_upto(nals, k).len() - 1),
        k == nals.len() && k > 0 ==> payloads_upto(nals, k).len() > 0 && payloads_upto(nals, k).last().1,
    decreases k,
{
    if k > 0 {
        lemma_payloads_upto_shape(nals, k - 1);
        let a = payloads_upto(nals, k - 1);
        let b = nal_payloads(nals[k - 1], k == nals.len());
        lemma_nal_payloads_shape(nals[k - 1], k == nals.len());
        let ps = payloads_upto(nals, k);
        assert(ps == a + b);
        assert forall|i: int| 0 <= i < ps.len() implies
            (#[trigger] ps[i]).0.len() <= MAX_RTP_PAYLOAD_SIZE && (ps[i].1 ==> k == nals.len() && i == ps.len() - 1) by {
            if i < a.len() {
                assert(ps[i] == a[i]);
            } else {
                assert(ps[i] == b[i - a.len()]);
            }
        }
        if k == nals.len() {
            assert(ps.last() == b.last());
        }
    }
}

/// The RTP payloads of a frame's units: each within the payload limit, and
/// the marker bit on exactly one of them, the last, when there is a unit.
pub proof fn lemma_packetizer_shape(nals: Seq<Seq<u8>>)
    ensures
        forall|i: int| 0 <= i < all_payloads(nals).len() ==>
            (#[trigger] all_payloads(nals)[i]).0.len() <= MAX_RTP_PAYLOAD_SIZE,
        forall|i: int| 0 <= i < all_payloads(nals).len() && (#[trigger] all_payloads(nals)[i]).1 ==>
            i == all_payloads(nals).len() - 1,
        nals.len() > 0 ==> all_payloads(nals).len() > 0 && all_payloads(nals).last().1,
{
    lemma_payloads_upto_shape(nals, nals.len() as int);
}

/// Fragments `nal` (longer than the payload limit) into FU-A payloads and
/// appends them to `out`.
pub fn push_fu_a(nal: &[u8], last_nal: bool, out: &mut Vec<(Vec<u8>, bool)>)
    requires
        nal@.len() > MAX_RTP_PAYLOAD_SIZE,
    ensures
        final(out)@.map_values(|p: (Vec<u8>, bool)| (p.0@, p.1))
            == old(out)@.map_values(|p: (Vec<u8>, bool)| (p.0@, p.1)) + fu_a_fragments(nal@, 0, last_nal),
{
    let ghost start = old(out)@.map_values(|p: (Vec<u8>, bool)| (p.0@, p.1));
    let nal_header = nal[0];
    let nal_type = nal_header & 0x1f;
    let nri = nal_header & 0x60;
    let plen = nal.len() - 1;
    let mut offset: usize = 0;
    while offset < plen
        invariant
            nal@.len() > MAX_RTP_PAYLOAD_SIZE,
            plen == nal@.len() - 1,
            nal@.len() == nal.len(),
            offset <= plen,
            nal_type == nal@[0] & 0x1fu8,
            nri == nal@[0] & 0x60u8,
            out@.map_values(|p: (Vec<u8>, bool)| (p.0@, p.1)) + fu_a_fragments(nal@, offset as int, last_nal)
                == start + fu_a_fragments(nal@, 0, last_nal),
        decreases plen - offset,
    {
        let remaining = plen - offset;
        let chunk = if remaining < MAX_RTP_PAYLOAD_SIZE - 2 { remaining } else { MAX_RTP_PAYLOAD_SIZE - 2 };
        let last = offset + chunk >= plen;
        let fu_header: u8 = if offset == 0 { 0x80 | nal_type } else if last { 0x40 | nal_type } else { nal_type };
        let mut frag: Vec<u8> = Vec::new();
        frag.push(nri | 28);
        frag.push(fu_header);
        frag.extend_from_slice(vstd::slice::slice_subrange(nal, 1 + offset, 1 + offset + chunk));
        let ghost before = out@.map_values(|p: (Vec<u8>, bool)| (p.0@, p.1));
        let ghost rest = fu_a_fragments(nal@, offset as int, last_nal);
        assert(frag@ =~= rest[0].0);
        out.push((frag, last && last_nal));
        assert(out@.map_values(|p: (Vec<u8>, bool)| (p.0@, p.1)) =~= before.push(rest[0]));
        assert(rest =~= seq![rest[0]] + fu_a_fragments(nal@, (offset + chunk) as int, last_nal));
        offset = offset + chunk;
        assert(out@.map_values(|p: (Vec<u8>, bool)| (p.0@, p.1)) + fu_a_fragments(nal@, offset as int, last_nal)
            =~= before + rest);
    }
    assert(fu_a_fragments(nal@, offset as int, last_nal) =~= Seq::<(Seq<u8>, bool)>::empty());
    assert(out@.map_values(|p: (Vec<u8>, bool)| (p.0@, p.1)) =~= out@.map_values(|p: (Vec<u8>, bool)| (p.0@, p.1)) + fu_a_fragments(nal@, offset as int, last_nal));
}

/// The contents of each of `units`, in order.
pub open spec fn units_view(units: Seq<&[u8]>) -> Seq<Seq<u8>> {
    units.map_values(|u: &[u8]| u@)
}

/// The payloads of `out` with their marker bits, as sequences.
pub open spec fn payloads_view(out: Seq<(Vec<u8>, bool)>) -> Seq<(Seq<u8>, bool)> {
    out.map_values(|p: (Vec<u8>, bool)| (p.0@, p.1))
}

/// The RTP payloads that carry `units`, in order: each unit whole when it
/// fits, FU-A fragments otherwise; the marker goes with the last payload of
/// the last unit.
pub fn h264_payloads(units: &Vec<&[u8]>) -> (r: Vec<(Vec<u8>, bool)>)
    ensures
        payloads_view(r@) == all_payloads(units_view(units@)),
{
    let ghost nals = units_view(units@);
    let mut out: Vec<(Vec<u8>, bool)> = Vec::new();
    let n = units.len();
    let mut k: usize = 0;
    while k < n
        invariant
            n == units@.len(),
            k <= n,
            nals == units_view(units@),
            payloads_view(out@) == payloads_upto(nals, k as int),
        decreases n - k,
    {
        let nal: &[u8] = units[k];
        let last = k + 1 == n;
        let ghost before = payloads_view(out@);
        assert(nals[k as int] == nal@);
        if nal.len() <= MAX_RTP_PAYLOAD_SIZE {
            let v = vstd::slice::slice_to_vec(nal);
            out.push((v, last));
            assert(payloads_view(out@) =~= before.push((nal@, last)));
        } else {
            push_fu_a(nal, last, &mut out);
        }
        assert(payloads_upto(nals, k + 1) == payloads_upto(nals, k as int) + nal_payloads(nals[k as int], k + 1 == nals.len()));
        k = k + 1;
    }
    out
}

} // verus!
