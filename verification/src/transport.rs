//! WebRTC transport for a single HDMI source fanned out to many viewers:
//! configuration, signalling records, the connection-state mapping, and the
//! H.264 packetiser that turns an encoded frame into shared RTP payloads.

use vstd::prelude::*;
use vstd::slice::slice_subrange;
use vstd::string::StringExecFns;
use crate::media::Error;
use crate::b64::{base64_encode, spec_base64_encode};
use crate::nal::{
    all_payloads, h264_payloads, payloads_view, units_view, spec_strip_annex_b, has_sc3, has_sc4,
    sc3, sc4,
};

verus! {

/// A shared RTP payload (a whole NAL unit or one FU-A fragment) with its marker bit.
#[derive(Clone, Debug)]
pub struct SharedPacket {
    pub payload: Vec<u8>,
    pub marker: bool,
}

impl SharedPacket {
    pub fn new(payload: Vec<u8>, marker: bool) -> (r: SharedPacket)
        ensures
            r.payload@ == payload@,
            r.marker == marker,
    {
        SharedPacket { payload, marker }
    }
}

/// A STUN or TURN server.
#[derive(Clone, Debug)]
pub struct IceServer {
    pub urls: Vec<String>,
    pub username: Option<String>,
    pub credential: Option<String>,
}

/// The strings of `v`, as character sequences.
pub open spec fn strings_view(v: Seq<String>) -> Seq<Seq<char>> {
    v.map_values(|s: String| s@)
}

/// The view of an optional string.
pub open spec fn opt_view(o: Option<String>) -> Option<Seq<char>> {
    match o {
        Some(s) => Some(s@),
        None => None,
    }
}

impl IceServer {
    /// A STUN server at `url`, without credentials.
    pub fn stun(url: &str) -> (r: IceServer)
        ensures
            strings_view(r.urls@) == seq![url@],
            r.username is None,
            r.credential is None,
    {
        let mut urls: Vec<String> = Vec::new();
        urls.push(String::from_str(url));
        proof {
            assert(strings_view(urls@) =~= seq![url@]);
        }
        IceServer { urls, username: None, credential: None }
    }

    /// A TURN server at `url` with its credentials.
    pub fn turn(url: &str, username: &str, credential: &str) -> (r: IceServer)
        ensures
            strings_view(r.urls@) == seq![url@],
            opt_view(r.username) == Some(username@),
            opt_view(r.credential) == Some(credential@),
    {
        let mut urls: Vec<String> = Vec::new();
        urls.push(String::from_str(url));
        proof {
            assert(strings_view(urls@) =~= seq![url@]);
        }
        IceServer {
            urls,
            username: Some(String::from_str(username)),
            credential: Some(String::from_str(credential)),
        }
    }
}

/// The video codecs offered to viewers.
#[derive(Clone, Copy, Debug, PartialEq, Eq, Structural)]
pub enum VideoCodecType {
    H264,
    VP8,
}

impl Default for VideoCodecType {
    fn default() -> (r: VideoCodecType)
        ensures
            r == VideoCodecType::H264,
    {
        VideoCodecType::H264
    }
}

/// Transport configuration.
#[derive(Clone, Debug)]
pub struct WebRtcConfig {
    pub ice_servers: Vec<IceServer>,
    pub ice_trickle: bool,
    pub ice_connection_timeout_secs: u64,
    pub max_peers_per_source: usize,
    pub video_codec: VideoCodecType,
    pub video_payload_type: u8,
    pub video_clock_rate: u32,
}

/// URL of the public STUN server used when none is configured.
pub const DEFAULT_STUN_URL: &'static str = "stun:stun.l.google.com:19302";

/// Default for a missing `ice_trickle` setting.
pub fn default_ice_trickle() -> (r: bool)
    ensures
        r,
{
    true
}

/// Default for a missing ICE connection timeout, in seconds.
pub fn default_ice_timeout() -> (r: u64)
    ensures
        r == 30,
{
    30
}

/// Default for a missing per-source viewer limit.
pub fn default_max_peers() -> (r: usize)
    ensures
        r == 10,
{
    10
}

/// Default for a missing video codec.
pub fn default_video_codec() -> (r: VideoCodecType)
    ensures
        r == VideoCodecType::H264,
{
    VideoCodecType::H264
}

/// Default RTP payload type for video.
pub fn default_payload_type() -> (r: u8)
    ensures
        r == 96,
{
    96
}

/// Default RTP clock rate for video.
pub fn default_clock_rate() -> (r: u32)
    ensures
        r == 90000,
{
    90000
}

/// The ICE server list holds exactly the default STUN server.
pub open spec fn is_default_stun_list(servers: Seq<IceServer>) -> bool {
    &&& servers.len() == 1
    &&& strings_view(servers[0].urls@) == seq![DEFAULT_STUN_URL@]
    &&& servers[0].username is None
    &&& servers[0].credential is None
}

impl WebRtcConfig {
    /// An empty builder.
    pub fn builder() -> (r: WebRtcConfigBuilder)
        ensures
            r.ice_servers@.len() == 0,
            r.ice_trickle is None,
            r.ice_timeout is None,
            r.max_peers is None,
            r.video_codec is None,
    {
        WebRtcConfigBuilder::default()
    }

    /// The default configuration, with the public STUN server.
    pub fn default_with_stun() -> (r: WebRtcConfig)
        ensures
            is_default_stun_list(r.ice_servers@),
            r.ice_trickle,
            r.ice_connection_timeout_secs == 30,
            r.max_peers_per_source == 10,
            r.video_codec == VideoCodecType::H264,
            r.video_payload_type == 96,
            r.video_clock_rate == 90000,
    {
        let mut servers: Vec<IceServer> = Vec::new();
        servers.push(IceServer::stun(DEFAULT_STUN_URL));
        WebRtcConfig {
            ice_servers: servers,
            ice_trickle: true,
            ice_connection_timeout_secs: 30,
            max_peers_per_source: 10,
            video_codec: VideoCodecType::H264,
            video_payload_type: 96,
            video_clock_rate: 90000,
        }
    }
}

/// Builder of a [`WebRtcConfig`]; settings left unset take their defaults.
#[derive(Debug)]
pub struct WebRtcConfigBuilder {
    pub ice_servers: Vec<IceServer>,
    pub ice_trickle: Option<bool>,
    pub ice_timeout: Option<u64>,
    pub max_peers: Option<usize>,
    pub video_codec: Option<VideoCodecType>,
}

impl Default for WebRtcConfigBuilder {
    fn default() -> (r: WebRtcConfigBuilder)
        ensures
            r.ice_servers@.len() == 0,
            r.ice_trickle is None,
            r.ice_timeout is None,
            r.max_peers is None,
            r.video_codec is None,
    {
        WebRtcConfigBuilder {
            ice_servers: Vec::new(),
            ice_trickle: None,
            ice_timeout: None,
            max_peers: None,
            video_codec: None,
        }
    }
}

/// The configuration a builder produces: its servers, or the default STUN
/// server when it has none, and each unset setting at its default.
pub open spec fn built_config(b: WebRtcConfigBuilder, c: WebRtcConfig) -> bool {
    &&& (if b.ice_servers@.len() == 0 {
        is_default_stun_list(c.ice_servers@)
    } else {
        c.ice_servers@ == b.ice_servers@
    })
    &&& c.ice_trickle == (match b.ice_trickle { Some(v) => v, None => true })
    &&& c.ice_connection_timeout_secs == (match b.ice_timeout { Some(v) => v, None => 30 })
    &&& c.max_peers_per_source == (match b.max_peers { Some(v) => v, None => 10 })
    &&& c.video_codec == (match b.video_codec { Some(v) => v, None => VideoCodecType::H264 })
    &&& c.video_payload_type == 96
    &&& c.video_clock_rate == 90000
}

impl WebRtcConfigBuilder {
    /// Appends a STUN server.
    pub fn add_stun_server(self, url: &str) -> (r: WebRtcConfigBuilder)
        ensures
            r.ice_servers@.len() == self.ice_servers@.len() + 1,
            r.ice_servers@.subrange(0, self.ice_servers@.len() as int) == self.ice_servers@,
            strings_view(r.ice_servers@.last().urls@) == seq![url@],
            r.ice_servers@.last().username is None,
            r.ice_servers@.last().credential is None,
            r.ice_trickle == self.ice_trickle,
            r.ice_timeout == self.ice_timeout,
            r.max_peers == self.max_peers,
            r.video_codec == self.video_codec,
    {
        let mut b = self;
        b.ice_servers.push(IceServer::stun(url));
        b
    }

    /// Appends a TURN server with its credentials.
    pub fn add_turn_server(self, url: &str, username: &str, credential: &str) -> (r: WebRtcConfigBuilder)
        ensures
            r.ice_servers@.len() == self.ice_servers@.len() + 1,
            r.ice_servers@.subrange(0, self.ice_servers@.len() as int) == self.ice_servers@,
            strings_view(r.ice_servers@.last().urls@) == seq![url@],
            opt_view(r.ice_servers@.last().username) == Some(username@),
            opt_view(r.ice_servers@.last().credential) == Some(credential@),
            r.ice_trickle == self.ice_trickle,
            r.ice_timeout == self.ice_timeout,
            r.max_peers == self.max_peers,
            r.video_codec == self.video_codec,
    {
        let mut b = self;
        b.ice_servers.push(IceServer::turn(url, username, credential));
        b
    }

    /// The configuration; it is always produced.
    pub fn build(self) -> (r: Result<WebRtcConfig, Error>)
        ensures
            r matches Ok(c) && built_config(self, c),
    {
        let ghost b = self;
        let WebRtcConfigBuilder { ice_servers, ice_trickle, ice_timeout, max_peers, video_codec } = self;
        let servers = if ice_servers.len() == 0 {
            let mut v: Vec<IceServer> = Vec::new();
            v.push(IceServer::stun(DEFAULT_STUN_URL));
            v
        } else {
            ice_servers
        };
        Ok(WebRtcConfig {
            ice_servers: servers,
            ice_trickle: match ice_trickle { Some(v) => v, None => true },
            ice_connection_timeout_secs: match ice_timeout { Some(v) => v, None => 30 },
            max_peers_per_source: match max_peers { Some(v) => v, None => 10 },
            video_codec: match video_codec { Some(v) => v, None => VideoCodecType::H264 },
            video_payload_type: 96,
            video_clock_rate: 90000,
        })
    }
}

/// An SDP offer.
#[derive(Clone, Debug)]
pub struct SdpOffer {
    pub sdp_type: String,
    pub sdp: String,
}

/// An SDP answer.
#[derive(Clone, Debug)]
pub struct SdpAnswer {
    pub sdp_type: String,
    pub sdp: String,
}

/// A trickled ICE candidate.
#[derive(Clone, Debug)]
pub struct IceCandidate {
    pub candidate: String,
    pub sdp_m_line_index: Option<u16>,
    pub sdp_mid: Option<String>,
    pub username_fragment: Option<String>,
}

/// State of a peer connection as the WebRTC engine reports it.
#[derive(Clone, Copy, Debug, PartialEq, Eq, Structural)]
pub enum PeerConnectionState {
    Unspecified,
    New,
    Connecting,
    Connected,
    Disconnected,
    Failed,
    Closed,
}

/// State of a viewer's connection.
#[derive(Clone, Copy, Debug, PartialEq, Eq, Structural)]
pub enum ConnectionState {
    Connecting,
    Connected,
    Disconnected,
    Failed,
    Closed,
}

/// The viewer state for an engine state: new and connecting are
/// connecting, an unspecified state counts as disconnected.
pub open spec fn spec_connection_state(s: PeerConnectionState) -> ConnectionState {
    match s {
        PeerConnectionState::New => ConnectionState::Connecting,
        PeerConnectionState::Connecting => ConnectionState::Connecting,
        PeerConnectionState::Connected => ConnectionState::Connected,
        PeerConnectionState::Disconnected => ConnectionState::Disconnected,
        PeerConnectionState::Failed => ConnectionState::Failed,
        PeerConnectionState::Closed => ConnectionState::Closed,
        PeerConnectionState::Unspecified => ConnectionState::Disconnected,
    }
}

impl From<PeerConnectionState> for ConnectionState {
    fn from(state: PeerConnectionState) -> (r: ConnectionState) {
        match state {
            PeerConnectionState::New | PeerConnectionState::Connecting => ConnectionState::Connecting,
            PeerConnectionState::Connected => ConnectionState::Connected,
            PeerConnectionState::Disconnected => ConnectionState::Disconnected,
            PeerConnectionState::Failed => ConnectionState::Failed,
            PeerConnectionState::Closed => ConnectionState::Closed,
            PeerConnectionState::Unspecified => ConnectionState::Disconnected,
        }
    }
}

impl vstd::std_specs::convert::FromSpecImpl<PeerConnectionState> for ConnectionState {
    open spec fn obeys_from_spec() -> bool {
        true
    }

    open spec fn from_spec(state: PeerConnectionState) -> ConnectionState {
        spec_connection_state(state)
    }
}

/// A viewer's connection as reported to callers.
#[derive(Clone, Debug)]
pub struct PeerInfo {
    pub connection_id: String,
    pub source_id: String,
    pub state: ConnectionState,
    pub ice_state: String,
    pub created_at_ms: u64,
}

/// SPS and PPS of an H.264 source.
#[derive(Clone, Debug)]
pub struct H264ParameterSets {
    pub sps: Vec<u8>,
    pub pps: Vec<u8>,
}

/// Events published by the connection manager.
#[derive(Clone, Debug)]
pub enum PeerEvent {
    Connected { connection_id: String, source_id: String },
    Disconnected { connection_id: String, source_id: String },
    IceCandidate { connection_id: String, candidate: IceCandidate },
}

/// A WHEP subscription request.
#[derive(Clone, Debug)]
pub struct WhepRequest {
    pub source_id: String,
    pub offer_sdp: String,
}

/// The answer to a WHEP subscription.
#[derive(Clone, Debug)]
pub struct WhepResponse {
    pub location: String,
    pub etag: String,
    pub answer_sdp: String,
}

// ---------------------------------------------------------------------------
// Splitting an Annex B frame: the search looks for each byte 0x01 and checks
// whether it ends a start code.
// ---------------------------------------------------------------------------

/// The first index at or after `i` that holds the byte 1.
pub open spec fn first_one(d: Seq<u8>, i: int) -> Option<int>
    decreases d.len() - i,
{
    if i < 0 || i >= d.len() {
        None
    } else if d[i] == 1 {
        Some(i)
    } else {
        first_one(d, i + 1)
    }
}

/// The byte 1 at `p` is preceded by two zero bytes, so it ends a start code.
pub open spec fn ends_start_code(d: Seq<u8>, p: int) -> bool {
    p >= 2 && d[p - 1] == 0 && d[p - 2] == 0
}

/// The first byte 1 at or after `i` that ends a start code.
pub open spec fn next_code_one(d: Seq<u8>, i: int) -> Option<int>
    decreases d.len() - i,
{
    if i < 0 || i >= d.len() {
        None
    } else if d[i] == 1 && ends_start_code(d, i) {
        Some(i)
    } else {
        next_code_one(d, i + 1)
    }
}

/// Where the unit that starts at `s` ends: where the next start code
/// (`00 00 01` or `00 00 00 01`) begins, or at the end of the data.
pub open spec fn unit_end(d: Seq<u8>, s: int) -> int {
    match next_code_one(d, s) {
        Some(q) => {
            let e = q - 2;
            if e > 0 && d[e - 1] == 0 { e - 1 } else { e }
        },
        None => d.len() as int,
    }
}

/// `next_code_one` finds a byte 1 ending a start code at or after `i`, and
/// no earlier one.
pub proof fn lemma_next_code_one(d: Seq<u8>, i: int)
    ensures
        next_code_one(d, i) matches Some(p) ==> i <= p < d.len() && d[p] == 1 && ends_start_code(d, p)
            && forall|k: int| i <= k < p ==> !(d[k] == 1 && ends_start_code(d, k)),
    decreases d.len() - i,
{
    if !(i < 0 || i >= d.len()) && !(d[i] == 1 && ends_start_code(d, i)) {
        lemma_next_code_one(d, i + 1);
    }
}

/// Searching for a start code from `i` can skip to the first byte 1.
proof fn lemma_next_code_via_one(d: Seq<u8>, i: int)
    requires
        0 <= i <= d.len(),
    ensures
        first_one(d, i) is None ==> next_code_one(d, i) is None,
        first_one(d, i) matches Some(p) ==> (ends_start_code(d, p) ==> next_code_one(d, i) == Some(p))
            && (!ends_start_code(d, p) ==> next_code_one(d, i) == next_code_one(d, p + 1)),
    decreases d.len() - i,
{
    if i < d.len() && d[i] != 1 {
        lemma_next_code_via_one(d, i + 1);
    }
}

/// `first_one` finds a byte 1 at or after `i`, and no earlier one.
pub proof fn lemma_first_one(d: Seq<u8>, i: int)
    ensures
        first_one(d, i) matches Some(p) ==> i <= p < d.len() && d[p] == 1
            && forall|k: int| i <= k < p ==> d[k] != 1,
        first_one(d, i) is None ==> forall|k: int| 0 <= i <= k < d.len() ==> d[k] != 1,
    decreases d.len() - i,
{
    if !(i < 0 || i >= d.len()) && d[i] != 1 {
        lemma_first_one(d, i + 1);
    }
}

/// The unit after a start code ending at `p` ends no earlier than it starts.
pub proof fn lemma_unit_end(d: Seq<u8>, p: int)
    requires
        0 <= p < d.len(),
        d[p] == 1,
    ensures
        p + 1 <= unit_end(d, p + 1) <= d.len(),
{
    lemma_next_code_one(d, p + 1);
}

/// The index ranges of the units found from `i` on.
pub open spec fn scan_ranges(d: Seq<u8>, i: int) -> Seq<(int, int)>
    decreases d.len() - i,
{
    if i < 0 || i > d.len() {
        Seq::empty()
    } else {
        match first_one(d, i) {
            None => Seq::empty(),
            Some(p) => {
                proof {
                    lemma_first_one(d, i);
                }
                if ends_start_code(d, p) {
                    let s = p + 1;
                    proof {
                        lemma_unit_end(d, p);
                    }
                    let e = unit_end(d, s);
                    let head: Seq<(int, int)> = if s < e { seq![(s, e)] } else { Seq::empty() };
                    head + scan_ranges(d, e)
                } else {
                    scan_ranges(d, p + 1)
                }
            },
        }
    }
}

/// The byte ranges `r` of `d`.
pub open spec fn ranges_units(d: Seq<u8>, r: Seq<(int, int)>) -> Seq<Seq<u8>> {
    r.map_values(|p: (int, int)| d.subrange(p.0, p.1))
}

/// The NAL units of a frame: the units between start codes, or the whole
/// frame when it has none.
pub open spec fn transport_nal_units(d: Seq<u8>) -> Seq<Seq<u8>> {
    let u = ranges_units(d, scan_ranges(d, 0));
    if u.len() == 0 && d.len() > 0 {
        seq![d]
    } else {
        u
    }
}

/// `memchr::memchr`: the index of the first occurrence of `needle` in
/// `haystack`, or `None` when it does not occur.
#[verifier::external_body]
fn memchr_byte(needle: u8, haystack: &[u8]) -> (r: Option<usize>)
    ensures
        r matches Some(p) ==> p < haystack@.len() && haystack@[p as int] == needle
            && forall|k: int| 0 <= k < p ==> haystack@[k] != needle,
        r is None ==> forall|k: int| 0 <= k < haystack@.len() ==> haystack@[k] != needle,
{
    memchr::memchr(needle, haystack)
}

/// The first byte 1 at or after `i` that ends a start code.
fn next_code(data: &[u8], i: usize) -> (r: Option<usize>)
    requires
        i <= data@.len(),
    ensures
        r matches Some(p) ==> next_code_one(data@, i as int) == Some(p as int),
        r is None ==> next_code_one(data@, i as int) is None,
{
    let mut j = i;
    loop
        invariant
            i <= j <= data@.len(),
            next_code_one(data@, i as int) == next_code_one(data@, j as int),
        decreases data@.len() - j,
    {
        proof {
            lemma_next_code_via_one(data@, j as int);
            lemma_first_one(data@, j as int);
        }
        match next_one(data, j) {
            None => {
                return None;
            },
            Some(p) => {
                if p >= 2 && data[p - 1] == 0 && data[p - 2] == 0 {
                    return Some(p);
                }
                j = p + 1;
            },
        }
    }
}

/// The first byte 1 at or after `i`, found with `memchr`.
fn next_one(data: &[u8], i: usize) -> (r: Option<usize>)
    requires
        i <= data@.len(),
    ensures
        r matches Some(p) ==> first_one(data@, i as int) == Some(p as int),
        r is None ==> first_one(data@, i as int) is None,
{
    let hay = slice_subrange(data, i, data.len());
    let found = memchr_byte(1, hay);
    proof {
        lemma_first_one(data@, i as int);
        match found {
            Some(pos) => {
                assert(hay@[pos as int] == data@[i + pos]);
                if first_one(data@, i as int) != Some((i + pos) as int) {
                    match first_one(data@, i as int) {
                        Some(q) => {
                            if q < i + pos {
                                assert(hay@[q - i] == data@[q]);
                            }
                        },
                        None => {},
                    }
                }
            },
            None => {
                match first_one(data@, i as int) {
                    Some(q) => {
                        assert(hay@[q - i] == data@[q]);
                    },
                    None => {},
                }
            },
        }
    }
    match found {
        Some(pos) => Some(i + pos),
        None => None,
    }
}

/// Splits an Annex B frame into its NAL units (without start codes).
pub fn find_nal_units<'a>(data: &'a [u8]) -> (units: Vec<&'a [u8]>)
    ensures
        units_view(units@) == transport_nal_units(data@),
{
    let ghost d = data@;
    let ghost all = ranges_units(d, scan_ranges(d, 0));
    let mut units: Vec<&'a [u8]> = Vec::new();
    let mut i: usize = 0;
    loop
        invariant
            d == data@,
            all == ranges_units(d, scan_ranges(d, 0)),
            i <= data@.len(),
            units_view(units@) + ranges_units(d, scan_ranges(d, i as int)) == all,
        ensures
            units_view(units@) == all,
        decreases data@.len() - i,
    {
        let ghost before = units_view(units@);
        match next_one(data, i) {
            None => {
                assert(scan_ranges(d, i as int) =~= Seq::<(int, int)>::empty());
                assert(units_view(units@) =~= all);
                break;
            },
            Some(abs_pos) => {
                proof {
                    lemma_first_one(d, i as int);
                }
                if abs_pos >= 2 && data[abs_pos - 1] == 0 && data[abs_pos - 2] == 0 {
                    let start = abs_pos + 1;
                    proof {
                        lemma_unit_end(d, abs_pos as int);
                        lemma_next_code_one(d, start as int);
                    }
                    let mut end = data.len();
                    match next_code(data, start) {
                        Some(abs_next) => {
                            end = abs_next - 2;
                            if end > 0 && data[end - 1] == 0 {
                                end = end - 1;
                            }
                        },
                        None => {},
                    }
                    assert(end as int == crate::transport::unit_end(d, start as int));
                    let ghost rest = scan_ranges(d, end as int);
                    if start < end {
                        let unit = slice_subrange(data, start, end);
                        units.push(unit);
                        assert(scan_ranges(d, i as int) == seq![(start as int, end as int)] + rest);
                        assert(ranges_units(d, scan_ranges(d, i as int)) =~= seq![unit@] + ranges_units(d, rest));
                        assert(units_view(units@) =~= before.push(unit@));
                    } else {
                        assert(scan_ranges(d, i as int) =~= rest);
                    }
                    i = end;
                } else {
                    assert(scan_ranges(d, i as int) == scan_ranges(d, abs_pos + 1));
                    i = abs_pos + 1;
                }
            },
        }
    }
    if units.len() == 0 && data.len() > 0 {
        units.push(data);
        assert(units_view(units@) =~= seq![data@]);
    }
    units
}

/// Splits a frame into NAL units and those into shared RTP payloads, whole
/// units when they fit and FU-A fragments otherwise; the last payload of
/// the frame carries the marker bit.
pub fn packetize_h264_optimized(data: &[u8]) -> (r: Vec<SharedPacket>)
    ensures
        r@.map_values(|p: SharedPacket| (p.payload@, p.marker)) == all_payloads(transport_nal_units(data@)),
{
    let units = find_nal_units(data);
    let payloads = h264_payloads(&units);
    let ghost want = all_payloads(transport_nal_units(data@));
    let mut packets: Vec<SharedPacket> = Vec::new();
    let mut k: usize = 0;
    let n = payloads.len();
    while k < n
        invariant
            n == payloads@.len(),
            k <= n,
            payloads_view(payloads@) == want,
            packets@.map_values(|p: SharedPacket| (p.payload@, p.marker)) == want.subrange(0, k as int),
        decreases n - k,
    {
        let bytes = payloads[k].0.clone();
        let marker = payloads[k].1;
        assert(bytes@ =~= payloads@[k as int].0@);
        let ghost before = packets@.map_values(|p: SharedPacket| (p.payload@, p.marker));
        assert(want[k as int] == (payloads@[k as int].0@, payloads@[k as int].1));
        let pk = SharedPacket::new(bytes, marker);
        assert((pk.payload@, pk.marker) == want[k as int]);
        packets.push(pk);
        assert(packets@.map_values(|p: SharedPacket| (p.payload@, p.marker)) =~= before.push((pk.payload@, pk.marker)));
        assert(want.subrange(0, k + 1) =~= want.subrange(0, k as int).push(want[k as int]));
        k = k + 1;
    }
    assert(want.subrange(0, n as int) =~= want);
    packets
}

/// `data` without a leading four- or three-byte start code.
pub fn strip_annex_b(data: &[u8]) -> (r: &[u8])
    ensures
        r@ == spec_strip_annex_b(data@),
{
    if has_sc4(data, 0) {
        slice_subrange(data, 4, data.len())
    } else if has_sc3(data, 0) {
        slice_subrange(data, 3, data.len())
    } else {
        data
    }
}

/// The lower-case hexadecimal digit for `v` (below 16).
pub open spec fn hex_digit(v: int) -> char {
    if v < 10 { (v + 48) as char } else { (v - 10 + 97) as char }
}

/// The two lower-case hexadecimal digits of `b`.
pub open spec fn hex2(b: u8) -> Seq<char> {
    seq![hex_digit(b as int / 16), hex_digit(b as int % 16)]
}

/// The `profile-level-id` of an SPS: its bytes 1 to 3 in hexadecimal, when
/// the SPS has at least four bytes.
pub open spec fn spec_profile_level_id(sps: Seq<u8>) -> Option<Seq<char>> {
    if sps.len() < 4 {
        None
    } else {
        Some(hex2(sps[1]) + hex2(sps[2]) + hex2(sps[3]))
    }
}

fn hex_char(v: u8) -> (c: char)
    requires
        v < 16,
    ensures
        c == hex_digit(v as int),
{
    if v < 10 { (v + 48) as char } else { (v - 10 + 97) as char }
}

/// Reads the `profile-level-id` of an SPS.
pub fn h264_profile_level_id(sps: &[u8]) -> (r: Option<String>)
    ensures
        r matches Some(s) ==> spec_profile_level_id(sps@) == Some(s@),
        r is None ==> spec_profile_level_id(sps@) is None,
{
    if sps.len() < 4 {
        return None;
    }
    let mut cs: Vec<char> = Vec::new();
    let mut k: usize = 1;
    while k < 4
        invariant
            1 <= k <= 4,
            sps@.len() >= 4,
            sps@.len() == sps.len(),
            cs@ == (if k == 1 { Seq::<char>::empty() } else if k == 2 { hex2(sps@[1]) } else if k == 3 {
                hex2(sps@[1]) + hex2(sps@[2])
            } else {
                hex2(sps@[1]) + hex2(sps@[2]) + hex2(sps@[3])
            }),
        decreases 4 - k,
    {
        let b = sps[k];
        let ghost before = cs@;
        cs.push(hex_char(b / 16));
        cs.push(hex_char(b % 16));
        assert(cs@ =~= before + hex2(b));
        k = k + 1;
    }
    Some(crate::text::string_of(cs.as_slice()))
}

/// The `a=fmtp` parameters announced for an H.264 source: packetisation
/// mode 1, the profile read from the SPS when it has one, and both
/// parameter sets in base64 (each without its start code).
pub open spec fn spec_h264_fmtp_line(sps: Seq<u8>, pps: Seq<u8>) -> Seq<char> {
    let s = spec_strip_annex_b(sps);
    let p = spec_strip_annex_b(pps);
    let profile = match spec_profile_level_id(s) {
        Some(id) => ";profile-level-id="@ + id,
        None => Seq::empty(),
    };
    "packetization-mode=1"@ + profile + ";sprop-parameter-sets="@ + spec_base64_encode(s) + ","@
        + spec_base64_encode(p)
}

/// Builds the `a=fmtp` parameters for an H.264 source from its SPS and PPS.
pub fn h264_fmtp_line(sps: &[u8], pps: &[u8]) -> (r: String)
    requires
        sps@.len() <= usize::MAX / 2,
        pps@.len() <= usize::MAX / 2,
    ensures
        r@ == spec_h264_fmtp_line(sps@, pps@),
{
    let s = strip_annex_b(sps);
    let p = strip_annex_b(pps);
    let mut line = String::from_str("packetization-mode=1");
    match h264_profile_level_id(s) {
        Some(id) => {
            line.append(";profile-level-id=");
            line.append(id.as_str());
        },
        None => {},
    }
    line.append(";sprop-parameter-sets=");
    let es = base64_encode(s);
    line.append(es.as_str());
    line.append(",");
    let ep = base64_encode(p);
    line.append(ep.as_str());
    proof {
        let profile = match spec_profile_level_id(s@) {
            Some(id) => ";profile-level-id="@ + id,
            None => Seq::empty(),
        };
        assert(line@ =~= "packetization-mode=1"@ + profile + ";sprop-parameter-sets="@
            + spec_base64_encode(s@) + ","@ + spec_base64_encode(p@));
    }
    line
}

} // verus!
