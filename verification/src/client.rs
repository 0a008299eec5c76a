//! The receiving side of a WHEP session: the resources a WHEP client keeps
//! between requests, the H.264 depacketiser that turns RTP payloads back
//! into Annex B NAL units, and the parameter sets announced in the SDP.

use vstd::prelude::*;
use vstd::slice::{slice_subrange, slice_to_vec};
use vstd::string::StringExecFns;
use vstd::utf8::encode_utf8;
use crate::nal::{sc3, sc4, has_sc3, has_sc4, fu_a_fragments, nal_payloads, MAX_RTP_PAYLOAD_SIZE};
use crate::b64::{base64_decode_lenient, spec_base64_decode_lenient};
use crate::textscan::{
    find_sub, find_char, first_index, lemma_find_from_found, lemma_first_index, lines_of,
    spec_find_sub, spec_lines, spec_trim, split_at_char, split_char, starts_with,
    starts_with_str, trim,
};

verus! {

/// Resources of a WHEP session, kept for later PATCH and DELETE requests.
#[derive(Clone, Debug)]
pub struct WhepClient {
    pub resource_id: Option<String>,
    pub location: Option<String>,
    pub etag: Option<String>,
    pub auth_token: Option<String>,
}

/// Why a conditional WHEP request cannot be made.
#[derive(Clone, Copy, Debug, PartialEq, Eq, Structural)]
pub enum WhepClientError {
    /// No resource identifier is stored.
    NoResourceId,
    /// No entity tag is stored for the `If-Match` header.
    NoEtag,
}

impl WhepClientError {
    /// The error's message.
    pub fn message(&self) -> (r: &'static str)
        ensures
            *self == WhepClientError::NoResourceId ==> r@ == "No WHEP resource ID stored"@,
            *self == WhepClientError::NoEtag ==> r@ == "No ETag available for conditional request"@,
    {
        match self {
            WhepClientError::NoResourceId => "No WHEP resource ID stored",
            WhepClientError::NoEtag => "No ETag available for conditional request",
        }
    }
}

/// The view of an optional string.
pub open spec fn opt_str(o: Option<String>) -> Option<Seq<char>> {
    match o {
        Some(s) => Some(s@),
        None => None,
    }
}

/// A conditional request to a WHEP resource: its URL, the `If-Match`
/// value and the bearer token, if any.
#[derive(Clone, Debug)]
pub struct ConditionalRequest {
    pub url: String,
    pub if_match: String,
    pub bearer: Option<String>,
}

/// The body of a quality PATCH request.
#[derive(Clone, Debug)]
pub struct QualityPatch {
    pub quality_tier: String,
    pub bitrate_kbps: Option<u32>,
}

/// What a conditional request needs from the client: the resource, then
/// the entity tag.
pub open spec fn spec_conditional(c: WhepClient) -> Result<(Seq<char>, Seq<char>), WhepClientError> {
    match c.resource_id {
        None => Err(WhepClientError::NoResourceId),
        Some(id) => match c.etag {
            None => Err(WhepClientError::NoEtag),
            Some(tag) => Ok((id@, tag@)),
        },
    }
}

fn clone_opt(o: &Option<String>) -> (r: Option<String>)
    ensures
        opt_str(r) == opt_str(*o),
{
    match o {
        Some(s) => Some(s.clone()),
        None => None,
    }
}

fn as_opt_str(o: &Option<String>) -> (r: Option<&str>)
    ensures
        r matches Some(s) ==> opt_str(*o) == Some(s@),
        r is None ==> o is None,
{
    match o {
        Some(s) => Some(s.as_str()),
        None => None,
    }
}

impl WhepClient {
    /// A client with no resources yet.
    pub fn new(auth_token: Option<String>) -> (r: WhepClient)
        ensures
            r.resource_id is None,
            r.location is None,
            r.etag is None,
            r.auth_token == auth_token,
    {
        WhepClient { resource_id: None, location: None, etag: None, auth_token }
    }

    /// Keeps the resources of a WHEP answer.
    pub fn store_resources(&mut self, resource_id: String, location: String, etag: String)
        ensures
            final(self).resource_id == Some(resource_id),
            final(self).location == Some(location),
            final(self).etag == Some(etag),
            final(self).auth_token == old(self).auth_token,
    {
        self.resource_id = Some(resource_id);
        self.location = Some(location);
        self.etag = Some(etag);
    }

    /// The stored resource identifier.
    pub fn get_resource_id(&self) -> (r: Option<&str>)
        ensures
            r matches Some(s) ==> opt_str(self.resource_id) == Some(s@),
            r is None ==> self.resource_id is None,
    {
        as_opt_str(&self.resource_id)
    }

    /// The stored entity tag.
    pub fn get_etag(&self) -> (r: Option<&str>)
        ensures
            r matches Some(s) ==> opt_str(self.etag) == Some(s@),
            r is None ==> self.etag is None,
    {
        as_opt_str(&self.etag)
    }

    /// The stored `Location` header.
    pub fn get_location(&self) -> (r: Option<&str>)
        ensures
            r matches Some(s) ==> opt_str(self.location) == Some(s@),
            r is None ==> self.location is None,
    {
        as_opt_str(&self.location)
    }

    /// Replaces the entity tag with the one a response carried.
    pub fn update_etag(&mut self, new_etag: String)
        ensures
            final(self).etag == Some(new_etag),
            final(self).resource_id == old(self).resource_id,
            final(self).location == old(self).location,
            final(self).auth_token == old(self).auth_token,
    {
        self.etag = Some(new_etag);
    }

    fn conditional(&self) -> (r: Result<ConditionalRequest, WhepClientError>)
        ensures
            match (r, spec_conditional(*self)) {
                (Ok(req), Ok((id, tag))) => req.url@ == id && req.if_match@ == tag
                    && opt_str(req.bearer) == opt_str(self.auth_token),
                (Err(e), Err(f)) => e == f,
                _ => false,
            },
    {
        match &self.resource_id {
            None => Err(WhepClientError::NoResourceId),
            Some(id) => match &self.etag {
                None => Err(WhepClientError::NoEtag),
                Some(tag) => Ok(ConditionalRequest {
                    url: id.clone(),
                    if_match: tag.clone(),
                    bearer: clone_opt(&self.auth_token),
                }),
            },
        }
    }

    /// The PATCH that changes the stream quality: sent to the resource, on
    /// condition of the stored entity tag.
    pub fn patch_request(&self, quality_tier: &str, bitrate_kbps: Option<u32>) -> (r: Result<(ConditionalRequest, QualityPatch), WhepClientError>)
        ensures
            match (r, spec_conditional(*self)) {
                (Ok((req, body)), Ok((id, tag))) => req.url@ == id && req.if_match@ == tag
                    && opt_str(req.bearer) == opt_str(self.auth_token)
                    && body.quality_tier@ == quality_tier@ && body.bitrate_kbps == bitrate_kbps,
                (Err(e), Err(f)) => e == f,
                _ => false,
            },
    {
        match self.conditional() {
            Err(e) => Err(e),
            Ok(req) => Ok((req, QualityPatch { quality_tier: String::from_str(quality_tier), bitrate_kbps })),
        }
    }

    /// The DELETE that ends the stream, on condition of the stored entity tag.
    pub fn delete_request(&self) -> (r: Result<ConditionalRequest, WhepClientError>)
        ensures
            match (r, spec_conditional(*self)) {
                (Ok(req), Ok((id, tag))) => req.url@ == id && req.if_match@ == tag
                    && opt_str(req.bearer) == opt_str(self.auth_token),
                (Err(e), Err(f)) => e == f,
                _ => false,
            },
    {
        self.conditional()
    }

    /// Forgets the resources once the stream was deleted.
    pub fn clear_resources(&mut self)
        ensures
            final(self).resource_id is None,
            final(self).location is None,
            final(self).etag is None,
            final(self).auth_token == old(self).auth_token,
    {
        self.resource_id = None;
        self.location = None;
        self.etag = None;
    }
}

/// `nal` begins with a three- or four-byte start code.
pub open spec fn has_start_code(nal: Seq<u8>) -> bool {
    sc3(nal, 0) || sc4(nal, 0)
}

/// `nal` with a four-byte start code in front, unless it has one already.
pub open spec fn spec_with_start_code(nal: Seq<u8>) -> Seq<u8> {
    if has_start_code(nal) {
        nal
    } else {
        seq![0u8, 0u8, 0u8, 1u8] + nal
    }
}

/// The NAL unit type of a unit, after its start code if it has one.
pub open spec fn spec_nal_unit_type(nal: Seq<u8>) -> Option<u8> {
    if nal.len() == 0 {
        None
    } else {
        let off: int = if sc4(nal, 0) { 4 } else if sc3(nal, 0) { 3 } else { 0 };
        if off < nal.len() {
            Some(nal[off] & 0x1fu8)
        } else {
            None
        }
    }
}

/// Reads the NAL unit type of a unit.
pub fn nal_unit_type(nal: &[u8]) -> (r: Option<u8>)
    ensures
        r == spec_nal_unit_type(nal@),
{
    if nal.len() == 0 {
        return None;
    }
    let offset: usize = if has_sc4(nal, 0) { 4 } else if has_sc3(nal, 0) { 3 } else { 0 };
    if offset < nal.len() {
        Some(nal[offset] & 0x1f)
    } else {
        None
    }
}

/// Puts a four-byte start code in front of a unit that has none.
pub fn with_start_code(nal: &[u8]) -> (r: Vec<u8>)
    ensures
        r@ == spec_with_start_code(nal@),
{
    if has_sc3(nal, 0) || has_sc4(nal, 0) {
        return slice_to_vec(nal);
    }
    let mut out: Vec<u8> = Vec::new();
    out.push(0);
    out.push(0);
    out.push(0);
    out.push(1);
    out.extend_from_slice(nal);
    assert(out@ =~= seq![0u8, 0u8, 0u8, 1u8] + nal@);
    out
}

/// The units of a STAP-A payload from `off` on: each is a two-byte
/// big-endian size followed by that many bytes; a size that runs past the
/// payload ends the list.
pub open spec fn stap_a_units(p: Seq<u8>, off: int) -> Seq<Seq<u8>>
    decreases p.len() - off,
{
    if off < 0 || off + 2 > p.len() {
        Seq::empty()
    } else {
        let size = p[off] as int * 256 + p[off + 1] as int;
        let start = off + 2;
        if start + size > p.len() {
            Seq::empty()
        } else {
            seq![spec_with_start_code(p.subrange(start, start + size))] + stap_a_units(p, start + size)
        }
    }
}

/// Reassembly of FU-A fragments: the units completed by payload `p` and the
/// buffer left after it, from the buffer `buf`.
pub open spec fn spec_fu_a(buf: Seq<u8>, p: Seq<u8>) -> (Seq<Seq<u8>>, Seq<u8>) {
    if p.len() < 2 {
        (Seq::empty(), buf)
    } else {
        let fu = p[1];
        let start = fu & 0x80u8 != 0;
        let end = fu & 0x40u8 != 0;
        let header = (p[0] & 0xe0u8) | (fu & 0x1fu8);
        let b1 = if start { seq![0u8, 0u8, 0u8, 1u8, header] } else { buf };
        let b2 = if b1.len() > 0 { b1 + p.subrange(2, p.len() as int) } else { b1 };
        if end && b2.len() > 0 {
            (seq![b2], Seq::empty())
        } else {
            (Seq::empty(), b2)
        }
    }
}

/// What one RTP payload yields and the reassembly buffer after it: a single
/// unit (types 1 to 23) is passed on, a STAP-A (24) is split, an FU-A (28)
/// is reassembled; other payloads yield nothing.
pub open spec fn spec_depacketize(buf: Seq<u8>, p: Seq<u8>) -> (Seq<Seq<u8>>, Seq<u8>) {
    if p.len() == 0 {
        (Seq::empty(), buf)
    } else {
        let t = p[0] & 0x1fu8;
        if 1 <= t <= 23 {
            (seq![spec_with_start_code(p)], buf)
        } else if t == 24 {
            (stap_a_units(p, 1), buf)
        } else if t == 28 {
            spec_fu_a(buf, p)
        } else {
            (Seq::empty(), buf)
        }
    }
}

/// The contents of each of `v`.
pub open spec fn vecs_view(v: Seq<Vec<u8>>) -> Seq<Seq<u8>> {
    v.map_values(|x: Vec<u8>| x@)
}

/// Turns the RTP payloads of an H.264 stream back into Annex B NAL units.
#[derive(Debug)]
pub struct H264Depacketizer {
    pub fu_buffer: Vec<u8>,
}

impl H264Depacketizer {
    /// A depacketiser with an empty reassembly buffer.
    pub fn new() -> (r: H264Depacketizer)
        ensures
            r.fu_buffer@.len() == 0,
    {
        H264Depacketizer { fu_buffer: Vec::new() }
    }

    /// The units that the RTP payload `payload` yields.
    pub fn depacketize(&mut self, payload: &[u8]) -> (r: Vec<Vec<u8>>)
        ensures
            (vecs_view(r@), final(self).fu_buffer@) == spec_depacketize(old(self).fu_buffer@, payload@),
    {
        if payload.len() == 0 {
            let r: Vec<Vec<u8>> = Vec::new();
            assert(vecs_view(r@) =~= Seq::<Seq<u8>>::empty());
            return r;
        }
        let nal_type = payload[0] & 0x1f;
        if 1 <= nal_type && nal_type <= 23 {
            let mut r: Vec<Vec<u8>> = Vec::new();
            r.push(self.with_start_code(payload));
            assert(vecs_view(r@) =~= seq![spec_with_start_code(payload@)]);
            r
        } else if nal_type == 24 {
            self.unpack_stap_a(payload)
        } else if nal_type == 28 {
            self.unpack_fu_a(payload)
        } else {
            let r: Vec<Vec<u8>> = Vec::new();
            assert(vecs_view(r@) =~= Seq::<Seq<u8>>::empty());
            r
        }
    }

    /// Puts a four-byte start code in front of a unit that has none.
    pub fn with_start_code(&self, nal: &[u8]) -> (r: Vec<u8>)
        ensures
            r@ == spec_with_start_code(nal@),
    {
        with_start_code(nal)
    }

    /// Splits a STAP-A payload into its units.
    pub fn unpack_stap_a(&self, payload: &[u8]) -> (r: Vec<Vec<u8>>)
        ensures
            vecs_view(r@) == stap_a_units(payload@, 1),
    {
        let ghost all = stap_a_units(payload@, 1);
        let mut output: Vec<Vec<u8>> = Vec::new();
        let mut offset: usize = 1;
        let n = payload.len();
        while offset <= n && n - offset >= 2
            invariant
                n == payload@.len(),
                1 <= offset,
                vecs_view(output@) + stap_a_units(payload@, offset as int) == all,
            ensures
                vecs_view(output@) == all,
            decreases n - offset,
        {
            let size: usize = payload[offset] as usize * 256 + payload[offset + 1] as usize;
            let start = offset + 2;
            if size > n - start {
                assert(stap_a_units(payload@, offset as int) =~= Seq::<Seq<u8>>::empty());
                assert(vecs_view(output@) =~= all);
                break;
            }
            let ghost before = vecs_view(output@);
            let unit = self.with_start_code(slice_subrange(payload, start, start + size));
            output.push(unit);
            assert(vecs_view(output@) =~= before.push(unit@));
            assert(stap_a_units(payload@, offset as int) == seq![unit@] + stap_a_units(payload@, (start + size) as int));
            assert(before + stap_a_units(payload@, offset as int) =~= vecs_view(output@) + stap_a_units(payload@, (start + size) as int));
            offset = start + size;
        }
        proof {
            if !(offset <= n && n - offset >= 2) {
                assert(stap_a_units(payload@, offset as int) =~= Seq::<Seq<u8>>::empty());
                assert(vecs_view(output@) =~= all);
            }
        }
        output
    }

    /// Adds an FU-A fragment to the reassembly buffer and yields the unit
    /// it completes, if any.
    pub fn unpack_fu_a(&mut self, payload: &[u8]) -> (r: Vec<Vec<u8>>)
        ensures
            (vecs_view(r@), final(self).fu_buffer@) == spec_fu_a(old(self).fu_buffer@, payload@),
    {
        let mut r: Vec<Vec<u8>> = Vec::new();
        if payload.len() < 2 {
            assert(vecs_view(r@) =~= Seq::<Seq<u8>>::empty());
            return r;
        }
        let fu_header = payload[1];
        let start = fu_header & 0x80 != 0;
        let end = fu_header & 0x40 != 0;
        let nal_type = fu_header & 0x1f;
        let nal_header = (payload[0] & 0xe0) | nal_type;
        if start {
            self.fu_buffer.clear();
            self.fu_buffer.push(0);
            self.fu_buffer.push(0);
            self.fu_buffer.push(0);
            self.fu_buffer.push(1);
            self.fu_buffer.push(nal_header);
            assert(self.fu_buffer@ =~= seq![0u8, 0u8, 0u8, 1u8, nal_header]);
        }
        if self.fu_buffer.len() > 0 {
            self.fu_buffer.extend_from_slice(slice_subrange(payload, 2, payload.len()));
        }
        let ghost b2 = self.fu_buffer@;
        proof {
            let hdr = (payload@[0] & 0xe0u8) | (payload@[1] & 0x1fu8);
            let sb1 = if start { seq![0u8, 0u8, 0u8, 1u8, hdr] } else { old(self).fu_buffer@ };
            let sb2 = if sb1.len() > 0 { sb1 + payload@.subrange(2, payload@.len() as int) } else { sb1 };
            assert(b2 =~= sb2);
        }
        if end && self.fu_buffer.len() > 0 {
            let complete = self.fu_buffer.clone();
            assert(complete@ =~= self.fu_buffer@);
            self.fu_buffer.clear();
            r.push(complete);
            assert(vecs_view(r@) =~= seq![complete@]);
            assert(self.fu_buffer@ =~= Seq::<u8>::empty());
            return r;
        }
        assert(vecs_view(r@) =~= Seq::<Seq<u8>>::empty());
        r
    }
}

/// The comma-separated parameter sets of an `a=fmtp:` line: the value of
/// its `sprop-parameter-sets=` parameter, up to the next `;`, trimmed and
/// split at commas. Other lines have none.
pub open spec fn sprop_pieces(line: Seq<char>) -> Seq<Seq<char>> {
    if !starts_with(line, "a=fmtp:"@) {
        Seq::empty()
    } else {
        let fmtp = line.subrange("a=fmtp:"@.len() as int, line.len() as int);
        match spec_find_sub(fmtp, "sprop-parameter-sets="@) {
            None => Seq::empty(),
            Some(pos) => {
                let params = fmtp.subrange(pos + "sprop-parameter-sets="@.len(), fmtp.len() as int);
                let end = match first_index(params, ';', 0) {
                    Some(e) => e,
                    None => params.len() as int,
                };
                split_char(spec_trim(params.subrange(0, end)), ',')
            },
        }
    }
}

/// The parameter sets that decode: each piece trimmed, empty pieces and
/// pieces that are not valid base64 skipped.
/// The text a parameter set is decoded from: padding is optional, and a
/// last character that cannot complete a byte (one past a group of four)
/// is left out.
pub open spec fn sprop_text(t: Seq<char>) -> Seq<char> {
    if t.len() % 4 == 1 {
        t.drop_last()
    } else {
        t
    }
}

pub open spec fn decode_pieces(ps: Seq<Seq<char>>) -> Seq<Seq<u8>>
    decreases ps.len(),
{
    if ps.len() == 0 {
        Seq::empty()
    } else {
        let t = spec_trim(ps[0]);
        let head: Seq<Seq<u8>> = if t.len() == 0 {
            Seq::empty()
        } else {
            match spec_base64_decode_lenient(encode_utf8(sprop_text(t))) {
                Some(b) => seq![b],
                None => Seq::empty(),
            }
        };
        head + decode_pieces(ps.drop_first())
    }
}

/// The parameter sets of each line in turn.
pub open spec fn decode_lines(ls: Seq<Seq<char>>) -> Seq<Seq<u8>>
    decreases ls.len(),
{
    if ls.len() == 0 {
        Seq::empty()
    } else {
        decode_pieces(sprop_pieces(ls[0])) + decode_lines(ls.drop_first())
    }
}

/// The H.264 parameter sets announced in an SDP, in order.
pub open spec fn spec_extract_sprop(sdp: Seq<char>) -> Seq<Seq<u8>> {
    decode_lines(spec_lines(sdp))
}

fn line_pieces(line: &Vec<char>) -> (r: Vec<Vec<char>>)
    ensures
        r@.map_values(|v: Vec<char>| v@) == sprop_pieces(line@),
{
    proof {
        reveal_strlit("a=fmtp:");
        reveal_strlit("sprop-parameter-sets=");
    }
    if !starts_with_str(line.as_slice(), "a=fmtp:") {
        let r: Vec<Vec<char>> = Vec::new();
        assert(r@.map_values(|v: Vec<char>| v@) =~= Seq::<Seq<char>>::empty());
        return r;
    }
    let fmtp: Vec<char> = slice_to_vec(slice_subrange(line.as_slice(), 7, line.len()));
    match find_sub(&fmtp, "sprop-parameter-sets=") {
        None => {
            let r: Vec<Vec<char>> = Vec::new();
            assert(r@.map_values(|v: Vec<char>| v@) =~= Seq::<Seq<char>>::empty());
            r
        },
        Some(pos) => {
            proof {
                lemma_find_from_found(fmtp@, "sprop-parameter-sets="@, 0);
                assert(fmtp@.len() == fmtp.len());
            }
            let params = slice_subrange(fmtp.as_slice(), pos + 21, fmtp.len());
            let end = match find_char(params, ';', 0) {
                Some(e) => e,
                None => params.len(),
            };
            proof {
                lemma_first_index(params@, ';', 0);
            }
            let value = trim(slice_subrange(params, 0, end));
            split_at_char(value, ',')
        },
    }
}

fn decode_all(ps: &Vec<Vec<char>>) -> (r: Vec<Vec<u8>>)
    ensures
        vecs_view(r@) == decode_pieces(ps@.map_values(|v: Vec<char>| v@)),
{
    let ghost all = ps@.map_values(|v: Vec<char>| v@);
    let mut out: Vec<Vec<u8>> = Vec::new();
    let mut k: usize = 0;
    assert(all.subrange(0, all.len() as int) =~= all);
    while k < ps.len()
        invariant
            all == ps@.map_values(|v: Vec<char>| v@),
            k <= ps@.len(),
            vecs_view(out@) + decode_pieces(all.subrange(k as int, all.len() as int)) == decode_pieces(all),
        decreases ps.len() - k,
    {
        let ghost before = vecs_view(out@);
        let ghost rest = all.subrange(k as int, all.len() as int);
        assert(rest.drop_first() =~= all.subrange(k + 1, all.len() as int));
        assert(rest[0] == ps@[k as int]@);
        let t = trim(ps[k].as_slice());
        if t.len() > 0 {
            let u = if t.len() % 4 == 1 { vstd::slice::slice_subrange(t, 0, t.len() - 1) } else { t };
            assert(u@ == sprop_text(t@));
            let text = crate::text::string_of(u);
            let bytes = text.as_str().as_bytes();
            match base64_decode_lenient(bytes) {
                Some(v) => {
                    out.push(v);
                    assert(vecs_view(out@) =~= before + seq![v@]);
                },
                None => {
                    assert(vecs_view(out@) =~= before + Seq::<Seq<u8>>::empty());
                },
            }
        } else {
            assert(vecs_view(out@) =~= before + Seq::<Seq<u8>>::empty());
        }
        k = k + 1;
    }
    assert(all.subrange(k as int, all.len() as int) =~= Seq::<Seq<char>>::empty());
    assert(vecs_view(out@) =~= vecs_view(out@) + decode_pieces(all.subrange(k as int, all.len() as int)));
    out
}

/// Reads the H.264 parameter sets (SPS, PPS) announced by the
/// `sprop-parameter-sets` of the `a=fmtp:` lines of an SDP. Each
/// comma-separated value is decoded as base64 (see [`sprop_text`]); values
/// that do not decode are skipped.
pub fn extract_sprop_parameter_sets(sdp: &str) -> (r: Vec<Vec<u8>>)
    ensures
        vecs_view(r@) == spec_extract_sprop(sdp@),
{
    let text = crate::text::chars_of(sdp);
    let lines = lines_of(text.as_slice());
    let ghost all = lines@.map_values(|v: Vec<char>| v@);
    let mut out: Vec<Vec<u8>> = Vec::new();
    let mut k: usize = 0;
    assert(all.subrange(0, all.len() as int) =~= all);
    while k < lines.len()
        invariant
            all == lines@.map_values(|v: Vec<char>| v@),
            all == spec_lines(sdp@),
            k <= lines@.len(),
            vecs_view(out@) + decode_lines(all.subrange(k as int, all.len() as int)) == decode_lines(all),
        decreases lines.len() - k,
    {
        let ghost before = vecs_view(out@);
        let ghost rest = all.subrange(k as int, all.len() as int);
        assert(rest.drop_first() =~= all.subrange(k + 1, all.len() as int));
        let pieces = line_pieces(&lines[k]);
        let mut sets = decode_all(&pieces);
        let ghost got = vecs_view(sets@);
        out.append(&mut sets);
        assert(vecs_view(out@) =~= before + got);
        k = k + 1;
    }
    assert(all.subrange(k as int, all.len() as int) =~= Seq::<Seq<char>>::empty());
    assert(vecs_view(out@) =~= vecs_view(out@) + decode_lines(all.subrange(k as int, all.len() as int)));
    out
}

/// The units yielded by a sequence of RTP payloads, and the buffer left,
/// starting from the buffer `buf`.
pub open spec fn depacketize_all(buf: Seq<u8>, ps: Seq<Seq<u8>>) -> (Seq<Seq<u8>>, Seq<u8>)
    decreases ps.len(),
{
    if ps.len() == 0 {
        (Seq::empty(), buf)
    } else {
        let first = spec_depacketize(buf, ps[0]);
        let rest = depacketize_all(first.1, ps.drop_first());
        (first.0 + rest.0, rest.1)
    }
}

/// The bytes of each payload.
pub open spec fn payload_bytes(ps: Seq<(Seq<u8>, bool)>) -> Seq<Seq<u8>> {
    ps.map_values(|p: (Seq<u8>, bool)| p.0)
}

proof fn lemma_fu_bits(h: u8)
    requires
        h & 0x80u8 == 0,
    ensures
        ((h & 0x60u8) | 28u8) & 0x1fu8 == 28u8,
        (((h & 0x60u8) | 28u8) & 0xe0u8) | ((0x80u8 | (h & 0x1fu8)) & 0x1fu8) == h,
        (0x80u8 | (h & 0x1fu8)) & 0x80u8 != 0,
        (0x80u8 | (h & 0x1fu8)) & 0x40u8 == 0,
        (0x40u8 | (h & 0x1fu8)) & 0x80u8 == 0,
        (0x40u8 | (h & 0x1fu8)) & 0x40u8 != 0,
        (h & 0x1fu8) & 0x80u8 == 0,
        (h & 0x1fu8) & 0x40u8 == 0,
{
    assert(((h & 0x60u8) | 28u8) & 0x1fu8 == 28u8) by (bit_vector);
    assert(h & 0x80u8 == 0 ==> (((h & 0x60u8) | 28u8) & 0xe0u8) | ((0x80u8 | (h & 0x1fu8)) & 0x1fu8) == h) by (bit_vector);
    assert((0x80u8 | (h & 0x1fu8)) & 0x80u8 != 0) by (bit_vector);
    assert((0x80u8 | (h & 0x1fu8)) & 0x40u8 == 0) by (bit_vector);
    assert((0x40u8 | (h & 0x1fu8)) & 0x80u8 == 0) by (bit_vector);
    assert((0x40u8 | (h & 0x1fu8)) & 0x40u8 != 0) by (bit_vector);
    assert((h & 0x1fu8) & 0x80u8 == 0) by (bit_vector);
    assert((h & 0x1fu8) & 0x40u8 == 0) by (bit_vector);
}

/// From a buffer holding the start of `nal` up to payload offset `off`, the
/// remaining FU-A fragments complete `nal` behind a start code and leave
/// the buffer empty.
proof fn lemma_fu_a_tail(nal: Seq<u8>, off: int, last_nal: bool)
    requires
        nal.len() > MAX_RTP_PAYLOAD_SIZE,
        nal[0] & 0x80u8 == 0,
        0 < off < nal.len() - 1,
    ensures
        depacketize_all(
            seq![0u8, 0u8, 0u8, 1u8, nal[0]] + nal.subrange(1, 1 + off),
            payload_bytes(fu_a_fragments(nal, off, last_nal)),
        ) == (seq![seq![0u8, 0u8, 0u8, 1u8] + nal], Seq::<u8>::empty()),
    decreases nal.len() - 1 - off,
{
    let plen = nal.len() - 1;
    let size = if plen - off < MAX_RTP_PAYLOAD_SIZE - 2 { plen - off } else { MAX_RTP_PAYLOAD_SIZE - 2 };
    let last = off + size >= plen;
    let h = nal[0];
    let t = h & 0x1fu8;
    let nri = h & 0x60u8;
    let fu_header: u8 = if last { 0x40u8 | t } else { t };
    let frag = seq![nri | 28u8, fu_header] + nal.subrange(1 + off, 1 + off + size);
    let frags = fu_a_fragments(nal, off, last_nal);
    assert(frags == seq![(frag, last && last_nal)] + fu_a_fragments(nal, off + size, last_nal));
    let ps = payload_bytes(frags);
    assert(ps[0] == frag);
    assert(ps.drop_first() =~= payload_bytes(fu_a_fragments(nal, off + size, last_nal)));
    lemma_fu_bits(h);
    let buf = seq![0u8, 0u8, 0u8, 1u8, h] + nal.subrange(1, 1 + off);
    let grown = buf + frag.subrange(2, frag.len() as int);
    assert(frag[0] & 0x1fu8 == 28u8);
    assert(grown =~= seq![0u8, 0u8, 0u8, 1u8, h] + nal.subrange(1, 1 + off + size));
    if last {
        assert(fu_a_fragments(nal, off + size, last_nal) =~= Seq::<(Seq<u8>, bool)>::empty());
        assert(grown =~= seq![0u8, 0u8, 0u8, 1u8] + nal);
        assert(spec_depacketize(buf, frag) == (seq![grown], Seq::<u8>::empty()));
        assert(depacketize_all(Seq::<u8>::empty(), ps.drop_first()) == (Seq::<Seq<u8>>::empty(), Seq::<u8>::empty()));
        assert(seq![grown] + Seq::<Seq<u8>>::empty() =~= seq![grown]);
    } else {
        assert(spec_depacketize(buf, frag) == (Seq::<Seq<u8>>::empty(), grown));
        lemma_fu_a_tail(nal, off + size, last_nal);
        let rest = depacketize_all(grown, ps.drop_first());
        assert(Seq::<Seq<u8>>::empty() + rest.0 =~= rest.0);
    }
}

/// Depacketising undoes packetising: the RTP payloads that carry a NAL
/// unit (whole, or as FU-A fragments) yield that unit behind a four-byte
/// start code, whatever the reassembly buffer held before. A unit sent
/// whole leaves the buffer as it was; a fragmented one leaves it empty.
/// The unit's forbidden bit is zero, as H.264 requires, and a unit sent
/// whole has one of the single-unit types 1 to 23.
pub proof fn lemma_depacketize_undoes_packetize(nal: Seq<u8>, last_nal: bool, buf: Seq<u8>)
    requires
        nal.len() > 0,
        nal[0] & 0x80u8 == 0,
        nal.len() <= MAX_RTP_PAYLOAD_SIZE ==> 1 <= (nal[0] & 0x1fu8) <= 23,
    ensures
        depacketize_all(buf, payload_bytes(nal_payloads(nal, last_nal))).0 == seq![seq![0u8, 0u8, 0u8, 1u8] + nal],
        depacketize_all(buf, payload_bytes(nal_payloads(nal, last_nal))).1
            == (if nal.len() <= MAX_RTP_PAYLOAD_SIZE { buf } else { Seq::<u8>::empty() }),
{
    let ps = payload_bytes(nal_payloads(nal, last_nal));
    if nal.len() <= MAX_RTP_PAYLOAD_SIZE {
        assert(ps =~= seq![nal]);
        let h = nal[0];
        assert(h & 0x1fu8 >= 1 ==> h != 0) by (bit_vector);
        assert(!has_start_code(nal));
        assert(ps.drop_first() =~= Seq::<Seq<u8>>::empty());
        assert(spec_depacketize(buf, ps[0]) == (seq![spec_with_start_code(nal)], buf));
        let first = spec_depacketize(buf, ps[0]);
        let rest = depacketize_all(first.1, ps.drop_first());
        assert(rest.0 =~= Seq::<Seq<u8>>::empty());
        assert(seq![spec_with_start_code(nal)] + Seq::<Seq<u8>>::empty() =~= seq![seq![0u8, 0u8, 0u8, 1u8] + nal]);
    } else {
        let plen = nal.len() - 1;
        let size = MAX_RTP_PAYLOAD_SIZE - 2;
        let h = nal[0];
        let t = h & 0x1fu8;
        let nri = h & 0x60u8;
        let frag = seq![nri | 28u8, 0x80u8 | t] + nal.subrange(1, 1 + size);
        let frags = fu_a_fragments(nal, 0, last_nal);
        assert(frags == seq![(frag, false && last_nal)] + fu_a_fragments(nal, size, last_nal));
        assert(ps[0] == frag);
        assert(ps.drop_first() =~= payload_bytes(fu_a_fragments(nal, size, last_nal)));
        lemma_fu_bits(h);
        assert(frag[0] & 0x1fu8 == 28u8);
        let grown = seq![0u8, 0u8, 0u8, 1u8, h] + frag.subrange(2, frag.len() as int);
        assert(grown =~= seq![0u8, 0u8, 0u8, 1u8, h] + nal.subrange(1, 1 + size));
        assert(spec_depacketize(buf, frag) == (Seq::<Seq<u8>>::empty(), grown));
        lemma_fu_a_tail(nal, size, last_nal);
        assert(grown =~= seq![0u8, 0u8, 0u8, 1u8, nal[0]] + nal.subrange(1, 1 + size));
        let rest = depacketize_all(grown, ps.drop_first());
        assert(rest.0 == seq![seq![0u8, 0u8, 0u8, 1u8] + nal]);
        assert(Seq::<Seq<u8>>::empty() + rest.0 =~= rest.0);
    }
}

/// What each payload of `ps` yields, one entry per payload, fed in order
/// from the buffer `buf`.
pub open spec fn per_packet_outputs(buf: Seq<u8>, ps: Seq<Seq<u8>>) -> Seq<Seq<Seq<u8>>>
    decreases ps.len(),
{
    if ps.len() == 0 {
        Seq::empty()
    } else {
        let first = spec_depacketize(buf, ps[0]);
        seq![first.0] + per_packet_outputs(first.1, ps.drop_first())
    }
}

/// Every payload but the last yields nothing; the last yields `unit`.
pub open spec fn only_last_yields(o: Seq<Seq<Seq<u8>>>, unit: Seq<u8>) -> bool {
    &&& o.len() > 0
    &&& o.last() == seq![unit]
    &&& forall|k: int| 0 <= k < o.len() - 1 ==> (#[trigger] o[k]).len() == 0
}

proof fn lemma_fu_a_tail_outputs(nal: Seq<u8>, off: int, last_nal: bool)
    requires
        nal.len() > MAX_RTP_PAYLOAD_SIZE,
        nal[0] & 0x80u8 == 0,
        0 < off < nal.len() - 1,
    ensures
        only_last_yields(
            per_packet_outputs(
                seq![0u8, 0u8, 0u8, 1u8, nal[0]] + nal.subrange(1, 1 + off),
                payload_bytes(fu_a_fragments(nal, off, last_nal)),
            ),
            seq![0u8, 0u8, 0u8, 1u8] + nal,
        ),
    decreases nal.len() - 1 - off,
{
    let plen = nal.len() - 1;
    let size = if plen - off < MAX_RTP_PAYLOAD_SIZE - 2 { plen - off } else { MAX_RTP_PAYLOAD_SIZE - 2 };
    let last = off + size >= plen;
    let h = nal[0];
    let t = h & 0x1fu8;
    let nri = h & 0x60u8;
    let fu_header: u8 = if last { 0x40u8 | t } else { t };
    let frag = seq![nri | 28u8, fu_header] + nal.subrange(1 + off, 1 + off + size);
    let frags = fu_a_fragments(nal, off, last_nal);
    assert(frags == seq![(frag, last && last_nal)] + fu_a_fragments(nal, off + size, last_nal));
    let ps = payload_bytes(frags);
    assert(ps[0] == frag);
    assert(ps.drop_first() =~= payload_bytes(fu_a_fragments(nal, off + size, last_nal)));
    lemma_fu_bits(h);
    let buf = seq![0u8, 0u8, 0u8, 1u8, h] + nal.subrange(1, 1 + off);
    let grown = buf + frag.subrange(2, frag.len() as int);
    assert(frag[0] & 0x1fu8 == 28u8);
    assert(grown =~= seq![0u8, 0u8, 0u8, 1u8, h] + nal.subrange(1, 1 + off + size));
    let o = per_packet_outputs(buf, ps);
    if last {
        assert(fu_a_fragments(nal, off + size, last_nal) =~= Seq::<(Seq<u8>, bool)>::empty());
        assert(grown =~= seq![0u8, 0u8, 0u8, 1u8] + nal);
        assert(spec_depacketize(buf, frag) == (seq![grown], Seq::<u8>::empty()));
        assert(ps.drop_first() =~= Seq::<Seq<u8>>::empty());
        assert(per_packet_outputs(Seq::<u8>::empty(), ps.drop_first()) =~= Seq::<Seq<Seq<u8>>>::empty());
        assert(o == seq![seq![grown]] + per_packet_outputs(Seq::<u8>::empty(), ps.drop_first()));
        assert(o =~= seq![seq![grown]]);
    } else {
        assert(spec_depacketize(buf, frag) == (Seq::<Seq<u8>>::empty(), grown));
        lemma_fu_a_tail_outputs(nal, off + size, last_nal);
        let rest = per_packet_outputs(grown, ps.drop_first());
        assert(o == seq![Seq::<Seq<u8>>::empty()] + rest);
        assert forall|k: int| 0 <= k < o.len() - 1 implies (#[trigger] o[k]).len() == 0 by {
            if k > 0 {
                assert(o[k] == rest[k - 1]);
            }
        }
        assert(o.last() == rest.last());
    }
}

/// FU-A reassembly, payload by payload: the fragments of a unit too long
/// for one payload, fed in order from any buffer, yield nothing until the
/// last one, which yields the unit behind a four-byte start code; the
/// buffer is empty afterwards.
pub proof fn lemma_fu_a_reassembly_per_packet(nal: Seq<u8>, last_nal: bool, buf: Seq<u8>)
    requires
        nal.len() > MAX_RTP_PAYLOAD_SIZE,
        nal[0] & 0x80u8 == 0,
    ensures
        per_packet_outputs(buf, payload_bytes(fu_a_fragments(nal, 0, last_nal))).len()
            == fu_a_fragments(nal, 0, last_nal).len(),
        only_last_yields(per_packet_outputs(buf, payload_bytes(fu_a_fragments(nal, 0, last_nal))),
            seq![0u8, 0u8, 0u8, 1u8] + nal),
        depacketize_all(buf, payload_bytes(fu_a_fragments(nal, 0, last_nal))).1 == Seq::<u8>::empty(),
{
    lemma_depacketize_undoes_packetize(nal, last_nal, buf);
    assert(nal_payloads(nal, last_nal) == fu_a_fragments(nal, 0, last_nal));
    lemma_per_packet_len(buf, payload_bytes(fu_a_fragments(nal, 0, last_nal)));
    let size = MAX_RTP_PAYLOAD_SIZE - 2;
    let h = nal[0];
    let t = h & 0x1fu8;
    let nri = h & 0x60u8;
    let frag = seq![nri | 28u8, 0x80u8 | t] + nal.subrange(1, 1 + size);
    let frags = fu_a_fragments(nal, 0, last_nal);
    assert(frags == seq![(frag, false && last_nal)] + fu_a_fragments(nal, size, last_nal));
    let ps = payload_bytes(frags);
    assert(ps[0] == frag);
    assert(ps.drop_first() =~= payload_bytes(fu_a_fragments(nal, size, last_nal)));
    lemma_fu_bits(h);
    assert(frag[0] & 0x1fu8 == 28u8);
    let grown = seq![0u8, 0u8, 0u8, 1u8, h] + frag.subrange(2, frag.len() as int);
    assert(grown =~= seq![0u8, 0u8, 0u8, 1u8, h] + nal.subrange(1, 1 + size));
    assert(spec_depacketize(buf, frag) == (Seq::<Seq<u8>>::empty(), grown));
    lemma_fu_a_tail_outputs(nal, size, last_nal);
    let o = per_packet_outputs(buf, ps);
    let rest = per_packet_outputs(grown, ps.drop_first());
    assert(o == seq![Seq::<Seq<u8>>::empty()] + rest);
    assert forall|k: int| 0 <= k < o.len() - 1 implies (#[trigger] o[k]).len() == 0 by {
        if k > 0 {
            assert(o[k] == rest[k - 1]);
        }
    }
    assert(o.last() == rest.last());
}

/// One output per payload.
proof fn lemma_per_packet_len(buf: Seq<u8>, ps: Seq<Seq<u8>>)
    ensures
        per_packet_outputs(buf, ps).len() == ps.len(),
    decreases ps.len(),
{
    if ps.len() > 0 {
        lemma_per_packet_len(spec_depacketize(buf, ps[0]).1, ps.drop_first());
    }
}

} // verus!
