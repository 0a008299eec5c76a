//! WebRTC streaming of camera feeds: configuration with its builder,
//! signalling messages, WHEP resources, and the RTP packetiser for H.264.

use vstd::prelude::*;
use vstd::slice::slice_subrange;
use vstd::string::StringExecFns;
use crate::media::Error;
use crate::nal::{all_payloads, h264_payloads, payloads_view, units_view, sc3, sc4, has_sc3, has_sc4};
use crate::transport::ranges_units;

pub use crate::transport::{ConnectionState, IceCandidate, IceServer, SdpAnswer, SdpOffer, PeerConnectionState};

verus! {

/// The video codecs a camera can be streamed with.
#[derive(Clone, Copy, Debug, PartialEq, Eq, Structural)]
pub enum VideoCodecType {
    H264,
    H265,
    VP8,
}

impl Default for VideoCodecType {
    fn default() -> (r: VideoCodecType)
        ensures
            r == VideoCodecType::H264,
    {
        VideoCodecType::H264
    }
}

/// Streaming configuration.
#[derive(Clone, Debug)]
pub struct WebRtcConfig {
    pub ice_servers: Vec<IceServer>,
    pub ice_trickle: bool,
    pub ice_connection_timeout_secs: u64,
    pub max_peers_per_camera: usize,
    pub video_codec: VideoCodecType,
    pub video_payload_type: u8,
    pub video_clock_rate: u32,
}

/// URLs of the two public STUN servers used when none is configured.
pub const DEFAULT_STUN_URL: &'static str = "stun:stun.l.google.com:19302";
pub const SECOND_STUN_URL: &'static str = "stun:stun1.l.google.com:19302";

/// The server list holds exactly the two default STUN servers.
pub open spec fn is_default_stun_pair(servers: Seq<IceServer>) -> bool {
    &&& servers.len() == 2
    &&& crate::transport::strings_view(servers[0].urls@) == seq![DEFAULT_STUN_URL@]
    &&& crate::transport::strings_view(servers[1].urls@) == seq![SECOND_STUN_URL@]
    &&& servers[0].username is None && servers[0].credential is None
    &&& servers[1].username is None && servers[1].credential is None
}

fn default_stun_servers() -> (r: Vec<IceServer>)
    ensures
        is_default_stun_pair(r@),
{
    let mut v: Vec<IceServer> = Vec::new();
    v.push(IceServer::stun(DEFAULT_STUN_URL));
    v.push(IceServer::stun(SECOND_STUN_URL));
    v
}

impl WebRtcConfig {
    /// An empty builder.
    pub fn builder() -> (r: WebRtcConfigBuilder)
        ensures
            r.ice_servers@.len() == 0,
            r.ice_trickle is None,
            r.ice_timeout is None,
            r.max_peers is None,
            r.video_codec is None,
    {
        WebRtcConfigBuilder::default()
    }

    /// The default configuration, with two public STUN servers.
    pub fn default_with_stun() -> (r: WebRtcConfig)
        ensures
            is_default_stun_pair(r.ice_servers@),
            r.ice_trickle,
            r.ice_connection_timeout_secs == 30,
            r.max_peers_per_camera == 10,
            r.video_codec == VideoCodecType::H264,
            r.video_payload_type == 96,
            r.video_clock_rate == 90000,
    {
        WebRtcConfig {
            ice_servers: default_stun_servers(),
            ice_trickle: true,
            ice_connection_timeout_secs: 30,
            max_peers_per_camera: 10,
            video_codec: VideoCodecType::H264,
            video_payload_type: 96,
            video_clock_rate: 90000,
        }
    }
}

/// Builder of a [`WebRtcConfig`]; settings left unset take their defaults.
#[derive(Debug)]
pub struct WebRtcConfigBuilder {
    pub ice_servers: Vec<IceServer>,
    pub ice_trickle: Option<bool>,
    pub ice_timeout: Option<u64>,
    pub max_peers: Option<usize>,
    pub video_codec: Option<VideoCodecType>,
}

impl Default for WebRtcConfigBuilder {
    fn default() -> (r: WebRtcConfigBuilder)
        ensures
            r.ice_servers@.len() == 0,
            r.ice_trickle is None,
            r.ice_timeout is None,
            r.max_peers is None,
            r.video_codec is None,
    {
        WebRtcConfigBuilder {
            ice_servers: Vec::new(),
            ice_trickle: None,
            ice_timeout: None,
            max_peers: None,
            video_codec: None,
        }
    }
}

/// The settings of `r` other than the server list are those of `b`.
pub open spec fn same_settings(r: WebRtcConfigBuilder, b: WebRtcConfigBuilder) -> bool {
    &&& r.ice_trickle == b.ice_trickle
    &&& r.ice_timeout == b.ice_timeout
    &&& r.max_peers == b.max_peers
    &&& r.video_codec == b.video_codec
}

/// The configuration a builder produces: its servers, or the two default
/// STUN servers when it has none, and each unset setting at its default.
pub open spec fn built_config(b: WebRtcConfigBuilder, c: WebRtcConfig) -> bool {
    &&& (if b.ice_servers@.len() == 0 {
        is_default_stun_pair(c.ice_servers@)
    } else {
        c.ice_servers@ == b.ice_servers@
    })
    &&& c.ice_trickle == (match b.ice_trickle { Some(v) => v, None => true })
    &&& c.ice_connection_timeout_secs == (match b.ice_timeout { Some(v) => v, None => 30 })
    &&& c.max_peers_per_camera == (match b.max_peers { Some(v) => v, None => 10 })
    &&& c.video_codec == (match b.video_codec { Some(v) => v, None => VideoCodecType::H264 })
    &&& c.video_payload_type == 96
    &&& c.video_clock_rate == 90000
}

impl WebRtcConfigBuilder {
    /// Appends a STUN server.
    pub fn add_stun_server(self, url: &str) -> (r: WebRtcConfigBuilder)
        ensures
            r.ice_servers@.len() == self.ice_servers@.len() + 1,
            r.ice_servers@.subrange(0, self.ice_servers@.len() as int) == self.ice_servers@,
            crate::transport::strings_view(r.ice_servers@.last().urls@) == seq![url@],
            r.ice_servers@.last().username is None,
            r.ice_servers@.last().credential is None,
            same_settings(r, self),
    {
        let mut b = self;
        b.ice_servers.push(IceServer::stun(url));
        b
    }

    /// Appends a TURN server with its credentials.
    pub fn add_turn_server(self, url: &str, username: &str, credential: &str) -> (r: WebRtcConfigBuilder)
        ensures
            r.ice_servers@.len() == self.ice_servers@.len() + 1,
            r.ice_servers@.subrange(0, self.ice_servers@.len() as int) == self.ice_servers@,
            crate::transport::strings_view(r.ice_servers@.last().urls@) == seq![url@],
            crate::transport::opt_view(r.ice_servers@.last().username) == Some(username@),
            crate::transport::opt_view(r.ice_servers@.last().credential) == Some(credential@),
            same_settings(r, self),
    {
        let mut b = self;
        b.ice_servers.push(IceServer::turn(url, username, credential));
        b
    }

    /// Appends a server as given.
    pub fn add_ice_server(self, server: IceServer) -> (r: WebRtcConfigBuilder)
        ensures
            r.ice_servers@ == self.ice_servers@.push(server),
            same_settings(r, self),
    {
        let mut b = self;
        b.ice_servers.push(server);
        b
    }

    /// Sets whether ICE candidates are trickled.
    pub fn ice_trickle(self, enabled: bool) -> (r: WebRtcConfigBuilder)
        ensures
            r.ice_servers@ == self.ice_servers@,
            r.ice_trickle == Some(enabled),
            r.ice_timeout == self.ice_timeout,
            r.max_peers == self.max_peers,
            r.video_codec == self.video_codec,
    {
        let mut b = self;
        b.ice_trickle = Some(enabled);
        b
    }

    /// Sets the ICE connection timeout, in seconds.
    pub fn ice_timeout_secs(self, secs: u64) -> (r: WebRtcConfigBuilder)
        ensures
            r.ice_servers@ == self.ice_servers@,
            r.ice_trickle == self.ice_trickle,
            r.ice_timeout == Some(secs),
            r.max_peers == self.max_peers,
            r.video_codec == self.video_codec,
    {
        let mut b = self;
        b.ice_timeout = Some(secs);
        b
    }

    /// Sets the largest number of viewers of one camera.
    pub fn max_peers_per_camera(self, max: usize) -> (r: WebRtcConfigBuilder)
        ensures
            r.ice_servers@ == self.ice_servers@,
            r.ice_trickle == self.ice_trickle,
            r.ice_timeout == self.ice_timeout,
            r.max_peers == Some(max),
            r.video_codec == self.video_codec,
    {
        let mut b = self;
        b.max_peers = Some(max);
        b
    }

    /// Sets the video codec.
    pub fn video_codec(self, codec: VideoCodecType) -> (r: WebRtcConfigBuilder)
        ensures
            r.ice_servers@ == self.ice_servers@,
            r.ice_trickle == self.ice_trickle,
            r.ice_timeout == self.ice_timeout,
            r.max_peers == self.max_peers,
            r.video_codec == Some(codec),
    {
        let mut b = self;
        b.video_codec = Some(codec);
        b
    }

    /// The configuration; it is always produced.
    pub fn build(self) -> (r: Result<WebRtcConfig, Error>)
        ensures
            r matches Ok(c) && built_config(self, c),
    {
        let WebRtcConfigBuilder { ice_servers, ice_trickle, ice_timeout, max_peers, video_codec } = self;
        let servers = if ice_servers.len() == 0 { default_stun_servers() } else { ice_servers };
        Ok(WebRtcConfig {
            ice_servers: servers,
            ice_trickle: match ice_trickle { Some(v) => v, None => true },
            ice_connection_timeout_secs: match ice_timeout { Some(v) => v, None => 30 },
            max_peers_per_camera: match max_peers { Some(v) => v, None => 10 },
            video_codec: match video_codec { Some(v) => v, None => VideoCodecType::H264 },
            video_payload_type: 96,
            video_clock_rate: 90000,
        })
    }
}

/// Signalling messages exchanged while negotiating a stream.
#[derive(Clone, Debug)]
pub enum SignalingMessage {
    Offer(SdpOffer),
    Answer(SdpAnswer),
    IceCandidate(IceCandidate),
    Error { message: String },
}

/// A viewer's connection as reported to callers.
#[derive(Clone, Debug)]
pub struct PeerInfo {
    pub connection_id: String,
    pub camera_id: String,
    pub state: ConnectionState,
    pub ice_state: String,
    pub created_at_ms: u64,
}

/// SPS and PPS of an H.264 camera.
#[derive(Clone, Debug)]
pub struct H264ParameterSets {
    pub sps: Vec<u8>,
    pub pps: Vec<u8>,
}

/// VPS, SPS and PPS of an H.265 camera.
#[derive(Clone, Debug)]
pub struct H265ParameterSets {
    pub vps: Vec<u8>,
    pub sps: Vec<u8>,
    pub pps: Vec<u8>,
}

/// Events published by the connection manager.
#[derive(Clone, Debug)]
pub enum PeerEvent {
    Connected { connection_id: String, camera_id: String },
    Disconnected { connection_id: String, camera_id: String },
    IceCandidate { connection_id: String, candidate: IceCandidate },
    StateChanged { connection_id: String, state: ConnectionState },
}

/// A WHEP resource: one active stream.
#[derive(Clone, Debug)]
pub struct WhepResource {
    pub resource_id: String,
    pub connection_id: String,
    pub camera_id: String,
    pub etag: String,
}

/// A WHEP request for a new resource.
#[derive(Clone, Debug)]
pub struct WhepRequest {
    pub camera_id: String,
    pub offer_sdp: String,
}

/// The answer to a WHEP request.
#[derive(Clone, Debug)]
pub struct WhepResponse {
    pub resource_id: String,
    pub answer_sdp: String,
    pub location: String,
    pub etag: String,
}

// ---------------------------------------------------------------------------
// Splitting an Annex B frame by scanning for start codes.
// ---------------------------------------------------------------------------

/// A three- or four-byte start code begins at `j`.
pub open spec fn sc_at(d: Seq<u8>, j: int) -> bool {
    sc4(d, j) || sc3(d, j)
}

/// The search for the end of a unit stops two bytes before the end.
pub open spec fn scan_limit(d: Seq<u8>) -> int {
    if d.len() >= 2 { d.len() - 2 } else { 0 }
}

/// Where a unit starting at `j` ends: at the next start code found before
/// the scan limit, or at the end of the data.
pub open spec fn next_start_code(d: Seq<u8>, j: int) -> int
    decreases scan_limit(d) - j,
{
    if j < 0 || j >= scan_limit(d) {
        d.len() as int
    } else if sc_at(d, j) {
        j
    } else {
        next_start_code(d, j + 1)
    }
}

/// The next start code is found at or after `j`, within the data.
pub proof fn lemma_next_start_code(d: Seq<u8>, j: int)
    requires
        0 <= j <= d.len(),
    ensures
        j <= next_start_code(d, j) <= d.len(),
    decreases scan_limit(d) - j,
{
    if j < scan_limit(d) && !sc_at(d, j) {
        lemma_next_start_code(d, j + 1);
    }
}

/// The index ranges of the units found from `i` on.
pub open spec fn unit_ranges(d: Seq<u8>, i: int) -> Seq<(int, int)>
    decreases d.len() - i,
{
    if i < 0 || i >= d.len() {
        Seq::empty()
    } else if sc_at(d, i) {
        let start = if sc4(d, i) { i + 4 } else { i + 3 };
        if start >= d.len() {
            Seq::empty()
        } else {
            proof {
                lemma_next_start_code(d, start);
            }
            let end = next_start_code(d, start);
            let head: Seq<(int, int)> = if start < end { seq![(start, end)] } else { Seq::empty() };
            head + unit_ranges(d, end)
        }
    } else {
        unit_ranges(d, i + 1)
    }
}

/// The NAL units of a frame: the units between start codes, or the whole
/// frame when it has none.
pub open spec fn camera_nal_units(d: Seq<u8>) -> Seq<Seq<u8>> {
    let u = ranges_units(d, unit_ranges(d, 0));
    if u.len() == 0 && d.len() > 0 {
        seq![d]
    } else {
        u
    }
}

/// Splits an Annex B frame into its NAL units (without start codes).
pub fn find_nal_units<'a>(data: &'a [u8]) -> (units: Vec<&'a [u8]>)
    ensures
        units_view(units@) == camera_nal_units(data@),
{
    let ghost d = data@;
    let ghost all = ranges_units(d, unit_ranges(d, 0));
    let n = data.len();
    let mut units: Vec<&'a [u8]> = Vec::new();
    let mut i: usize = 0;
    while i < n
        invariant_except_break
            units_view(units@) + ranges_units(d, unit_ranges(d, i as int)) == all,
        invariant
            d == data@,
            n == d.len(),
            all == ranges_units(d, unit_ranges(d, 0)),
            i <= n,
        ensures
            units_view(units@) == all,
        decreases n - i,
    {
        let ghost before = units_view(units@);
        if has_sc4(data, i) || has_sc3(data, i) {
            let start: usize = if has_sc4(data, i) { i + 4 } else { i + 3 };
            if start >= n {
                assert(unit_ranges(d, i as int) =~= Seq::<(int, int)>::empty());
                assert(units_view(units@) =~= all);
                break;
            }
            let limit: usize = if n >= 2 { n - 2 } else { 0 };
            let mut end = n;
            let mut j = start;
            while j < limit
                invariant_except_break
                    end == n,
                invariant
                    d == data@,
                    n == d.len(),
                    limit == scan_limit(d),
                    start <= j,
                    next_start_code(d, start as int) == next_start_code(d, j as int),
                ensures
                    end == next_start_code(d, start as int),
                decreases limit - j,
            {
                if has_sc4(data, j) || has_sc3(data, j) {
                    end = j;
                    break;
                }
                j = j + 1;
            }
            proof {
                lemma_next_start_code(d, start as int);
            }
            let ghost rest = unit_ranges(d, end as int);
            if start < end {
                let unit = slice_subrange(data, start, end);
                units.push(unit);
                assert(unit_ranges(d, i as int) == seq![(start as int, end as int)] + rest);
                assert(ranges_units(d, unit_ranges(d, i as int)) =~= seq![unit@] + ranges_units(d, rest));
                assert(units_view(units@) =~= before.push(unit@));
            } else {
                assert(unit_ranges(d, i as int) =~= rest);
            }
            i = end;
        } else {
            i = i + 1;
        }
    }
    proof {
        if i >= n {
            assert(unit_ranges(d, i as int) =~= Seq::<(int, int)>::empty());
            assert(units_view(units@) =~= units_view(units@) + ranges_units(d, unit_ranges(d, i as int)));
        }
    }
    if units.len() == 0 && n > 0 {
        units.push(data);
        assert(units_view(units@) =~= seq![data@]);
    }
    units
}

// ---------------------------------------------------------------------------
// RTP packets.
// ---------------------------------------------------------------------------

/// The four big-endian bytes of `v`.
pub open spec fn be32(v: u32) -> Seq<u8> {
    seq![(v / 0x1000000) as u8, (v / 0x10000 % 0x100) as u8, (v / 0x100 % 0x100) as u8, (v % 0x100) as u8]
}

/// The twelve-byte RTP header: version 2, no padding, extension or CSRC,
/// the marker bit, payload type 96, then sequence number, timestamp and
/// SSRC in big-endian order.
pub open spec fn rtp_header(marker: bool, seq: int, timestamp: u32, ssrc: u32) -> Seq<u8> {
    seq![0x80u8, if marker { 0x80u8 | 96u8 } else { 96u8 }, (seq / 0x100) as u8, (seq % 0x100) as u8]
        + be32(timestamp) + be32(ssrc)
}

/// The RTP packets carrying `payloads` with consecutive sequence numbers
/// from `seq` on, wrapping at 2^16.
pub open spec fn rtp_packets(payloads: Seq<(Seq<u8>, bool)>, seq: u16, timestamp: u32, ssrc: u32) -> Seq<Seq<u8>> {
    Seq::new(
        payloads.len(),
        |k: int| rtp_header(payloads[k].1, (seq + k) % 0x10000, timestamp, ssrc) + payloads[k].0,
    )
}

fn push_be32(out: &mut Vec<u8>, v: u32)
    ensures
        final(out)@ == old(out)@ + be32(v),
{
    let ghost start = out@;
    out.push((v / 0x1000000) as u8);
    out.push((v / 0x10000 % 0x100) as u8);
    out.push((v / 0x100 % 0x100) as u8);
    out.push((v % 0x100) as u8);
    assert(out@ =~= start + be32(v));
}

/// One RTP packet: the header, then the payload.
pub fn rtp_packet(payload: &[u8], marker: bool, seq: u16, timestamp: u32, ssrc: u32) -> (r: Vec<u8>)
    ensures
        r@ == rtp_header(marker, seq as int, timestamp, ssrc) + payload@,
{
    let mut packet: Vec<u8> = Vec::new();
    packet.push(0x80);
    packet.push(if marker { 0x80u8 | 96u8 } else { 96u8 });
    packet.push((seq / 0x100) as u8);
    packet.push((seq % 0x100) as u8);
    push_be32(&mut packet, timestamp);
    push_be32(&mut packet, ssrc);
    packet.extend_from_slice(payload);
    assert(packet@ =~= rtp_header(marker, seq as int, timestamp, ssrc) + payload@);
    packet
}

/// Packs an H.264 frame into RTP packets: each NAL unit whole when it fits,
/// FU-A fragments otherwise, with sequence numbers counting up from `seq`
/// and the marker bit on the last packet of the frame. It always succeeds.
pub fn packetize_h264(data: &[u8], seq: u16, timestamp: u32, ssrc: u32) -> (r: Result<Vec<Vec<u8>>, Error>)
    ensures
        r matches Ok(v) && v@.map_values(|p: Vec<u8>| p@) == rtp_packets(
            all_payloads(camera_nal_units(data@)),
            seq,
            timestamp,
            ssrc,
        ),
{
    let units = find_nal_units(data);
    let payloads = h264_payloads(&units);
    let ghost want = rtp_packets(payloads_view(payloads@), seq, timestamp, ssrc);
    let mut packets: Vec<Vec<u8>> = Vec::new();
    let mut cur: u16 = seq;
    let n = payloads.len();
    let mut k: usize = 0;
    while k < n
        invariant
            n == payloads@.len(),
            k <= n,
            want == rtp_packets(payloads_view(payloads@), seq, timestamp, ssrc),
            cur as int == (seq + k) % 0x10000,
            packets@.map_values(|p: Vec<u8>| p@) == want.subrange(0, k as int),
        decreases n - k,
    {
        let ghost before = packets@.map_values(|p: Vec<u8>| p@);
        let packet = rtp_packet(payloads[k].0.as_slice(), payloads[k].1, cur, timestamp, ssrc);
        assert(payloads_view(payloads@)[k as int] == (payloads@[k as int].0@, payloads@[k as int].1));
        assert(packet@ == want[k as int]);
        packets.push(packet);
        assert(packets@.map_values(|p: Vec<u8>| p@) =~= before.push(want[k as int]));
        assert(want.subrange(0, k + 1) =~= want.subrange(0, k as int).push(want[k as int]));
        cur = cur.wrapping_add(1);
        k = k + 1;
    }
    assert(want.subrange(0, n as int) =~= want);
    Ok(packets)
}

/// The codec a viewer is sent: an H.265 stream goes as H.265 to a viewer
/// that decodes it and as H.264 otherwise; H.264 and VP8 streams go as
/// they are. A viewer that cannot decode the H.264 it would get is refused.
pub open spec fn spec_offer_codec(stream: VideoCodecType, caps: crate::media::ClientCapabilities) -> Result<VideoCodecType, Seq<char>> {
    let sel = match stream {
        VideoCodecType::H265 => if caps.supports_h265 { VideoCodecType::H265 } else { VideoCodecType::H264 },
        VideoCodecType::H264 => VideoCodecType::H264,
        VideoCodecType::VP8 => VideoCodecType::VP8,
    };
    if sel == VideoCodecType::H264 && !caps.supports_h264 {
        Err("Client does not support H264; cannot deliver stream without transcoding"@)
    } else {
        Ok(sel)
    }
}

/// The first decisions on a viewer's offer for a camera: refused when the
/// camera already has its most viewers (`count` of `max_peers`), otherwise
/// the codec of [`spec_offer_codec`] for the camera's stream codec and the
/// viewer's capabilities.
pub fn select_offer_codec(
    camera_id: &str,
    count: usize,
    max_peers: usize,
    stream_codec: VideoCodecType,
    caps: crate::media::ClientCapabilities,
) -> (r: Result<VideoCodecType, Error>)
    ensures
        count >= max_peers ==> (r matches Err(Error::Transport(m)) && m@ == "Maximum peers ("@
            + crate::textscan::spec_dec(max_peers as nat) + ") reached for camera "@ + camera_id@),
        count < max_peers ==> match spec_offer_codec(stream_codec, caps) {
            Ok(c) => r == Ok::<VideoCodecType, Error>(c),
            Err(e) => r matches Err(Error::Transport(m)) && m@ == e,
        },
{
    if count >= max_peers {
        let mut m = String::from_str("Maximum peers (");
        let n = crate::textscan::dec_string(max_peers as u64);
        m.append(n.as_str());
        m.append(") reached for camera ");
        m.append(camera_id);
        return Err(Error::Transport(m));
    }
    let sel = match stream_codec {
        VideoCodecType::H265 => if caps.supports_h265 { VideoCodecType::H265 } else { VideoCodecType::H264 },
        VideoCodecType::H264 => VideoCodecType::H264,
        VideoCodecType::VP8 => VideoCodecType::VP8,
    };
    if sel == VideoCodecType::H264 && !caps.supports_h264 {
        return Err(Error::Transport(String::from_str(
            "Client does not support H264; cannot deliver stream without transcoding",
        )));
    }
    Ok(sel)
}

} // verus!
