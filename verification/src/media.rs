//! Media types shared by the WebRTC transport, signalling and client code:
//! frame kinds, quality tiers, client capabilities and the error type.

use vstd::prelude::*;
use crate::textscan::{find_sub, contains_sub, parse_u64, spec_find_sub, spec_parse_u64, has_sub, lemma_find_from_found, occurs_at};

verus! {

/// Errors of the WebRTC layer. Errors of the I/O layer and of the WebRTC
/// engine are carried as their messages.
#[derive(Debug)]
pub enum Error {
    Transport(String),
    Config(String),
    Internal(String),
    Io(String),
    WebRtc(String),
}

/// Kind of an encoded video frame.
#[derive(Debug, Clone, Copy, PartialEq, Eq, Structural)]
pub enum FrameType {
    H264,
    H265,
    VP8,
    MJPEG,
}

/// An encoded video frame with its presentation time.
#[derive(Clone, Debug)]
pub struct VideoFrame {
    pub data: Vec<u8>,
    pub frame_type: FrameType,
    pub pts: u64,
}

/// An H.264 frame for direct clients: the RTP payloads it was cut into and
/// its raw bytes. The timestamp is in microseconds since capture started.
#[derive(Clone, Debug)]
pub struct H264Frame {
    pub is_keyframe: bool,
    pub timestamp: u64,
    pub packets: Vec<crate::transport::SharedPacket>,
    pub raw_data: Vec<u8>,
}

/// The parameter sets of a stream: SPS and PPS, and the VPS for H.265.
#[derive(Clone, Debug)]
pub struct ParameterSets {
    pub sps: Vec<u8>,
    pub pps: Vec<u8>,
    pub vps: Option<Vec<u8>>,
}

/// Quality tier requested by a viewer.
#[derive(Debug, Clone, Copy, PartialEq, Eq, Structural)]
pub enum QualityTier {
    Low,
    Medium,
    High,
    Auto,
}

/// What a viewer's SDP offer says it can decode.
#[derive(Debug, Clone, Copy, PartialEq, Eq, Structural)]
pub struct ClientCapabilities {
    pub supports_h264: bool,
    pub supports_h265: bool,
    pub max_bitrate_kbps: Option<u64>,
}

/// The bitrate announced by the first `b=AS:` line of `sdp`: the text after
/// the marker up to the next CRLF, read as a decimal `u64`.
pub open spec fn spec_sdp_bitrate(sdp: Seq<char>) -> Option<u64> {
    match spec_find_sub(sdp, "b=AS:"@) {
        None => None,
        Some(pos) => {
            let rest = sdp.subrange(pos + 5, sdp.len() as int);
            match spec_find_sub(rest, "\r\n"@) {
                None => None,
                Some(end) => spec_parse_u64(rest.subrange(0, end)),
            }
        },
    }
}

impl ClientCapabilities {
    /// Reads the capabilities from an SDP offer: H.264 when the text names
    /// `H264`, H.265 when it names `H265` or `HEVC`, and the bitrate of the
    /// first `b=AS:` line when that line ends in CRLF and holds a number.
    pub fn from_sdp(sdp: &str) -> (r: ClientCapabilities)
        ensures
            r.supports_h264 == has_sub(sdp@, "H264"@),
            r.supports_h265 == (has_sub(sdp@, "H265"@) || has_sub(sdp@, "HEVC"@)),
            r.max_bitrate_kbps == spec_sdp_bitrate(sdp@),
    {
        let text = crate::text::chars_of(sdp);
        let h264 = contains_sub(&text, "H264");
        let h265 = contains_sub(&text, "H265") || contains_sub(&text, "HEVC");
        let mut bitrate: Option<u64> = None;
        match find_sub(&text, "b=AS:") {
            None => {},
            Some(pos) => {
                proof {
                    reveal_strlit("b=AS:");
                    lemma_find_from_found(text@, "b=AS:"@, 0);
                    assert(occurs_at(text@, "b=AS:"@, pos as int));
                    assert(pos + 5 <= text@.len());
                    assert(text@.len() == text.len());
                }
                let rest: Vec<char> = vstd::slice::slice_to_vec(vstd::slice::slice_subrange(text.as_slice(), pos + 5, text.len()));
                match find_sub(&rest, "\r\n") {
                    None => {},
                    Some(end) => {
                        proof {
                            reveal_strlit("\r\n");
                            lemma_find_from_found(rest@, "\r\n"@, 0);
                        }
                        let digits = vstd::slice::slice_subrange(rest.as_slice(), 0, end);
                        bitrate = parse_u64(digits);
                    },
                }
            },
        }
        ClientCapabilities { supports_h264: h264, supports_h265: h265, max_bitrate_kbps: bitrate }
    }
}

} // verus!
