//! Audio capture: its errors, and the conversion of captured PCM bytes
//! (16-bit little-endian, interleaved stereo) into samples for the encoder,
//! with the RTP clock of the encoded frames.

use vstd::prelude::*;
use vstd::string::StringExecFns;
use crate::textscan::{dec_string_signed, spec_dec_signed};

verus! {

/// Why audio capture failed; the numbers are the driver's error codes.
#[derive(Clone, Copy, Debug)]
pub enum AudioError {
    OpenFailed(i32),
    ReadFailed(i32),
    InvalidConfig,
}

impl AudioError {
    /// The error's message.
    pub fn message(&self) -> (r: String)
        ensures
            self matches AudioError::OpenFailed(c) ==> r@ == "Failed to open PCM device: "@ + spec_dec_signed(c as int),
            self matches AudioError::ReadFailed(c) ==> r@ == "Failed to read from PCM device: "@ + spec_dec_signed(
                c as int,
            ),
            self is InvalidConfig ==> r@ == "Invalid configuration"@,
    {
        match self {
            AudioError::OpenFailed(c) => {
                let mut s = String::from_str("Failed to open PCM device: ");
                let n = dec_string_signed(*c as i64);
                s.append(n.as_str());
                s
            },
            AudioError::ReadFailed(c) => {
                let mut s = String::from_str("Failed to read from PCM device: ");
                let n = dec_string_signed(*c as i64);
                s.append(n.as_str());
                s
            },
            AudioError::InvalidConfig => String::from_str("Invalid configuration"),
        }
    }
}

/// Samples per encoded frame: 20 ms at 48 kHz.
pub const AUDIO_PTS_STEP: u32 = 960;

/// The sample held by two bytes, low byte first (`i16::from_le_bytes`).
pub open spec fn le_sample(lo: u8, hi: u8) -> i16 {
    let v = hi as int * 256 + lo as int;
    (if v >= 0x8000 { v - 0x10000 } else { v }) as i16
}

/// The samples of the PCM bytes, two bytes each; a last odd byte is left out.
pub fn pcm_to_samples(bytes: &[u8]) -> (r: Vec<i16>)
    ensures
        r@.len() == bytes@.len() / 2,
        forall|i: int| 0 <= i < r@.len() ==> #[trigger] r@[i] == le_sample(bytes@[2 * i], bytes@[2 * i + 1]),
{
    let mut out: Vec<i16> = Vec::new();
    let n = bytes.len() / 2;
    assert(bytes@.len() == bytes.len());
    let mut k: usize = 0;
    while k < n
        invariant
            n == bytes@.len() / 2,
            bytes@.len() == bytes.len(),
            k <= n,
            out@.len() == k,
            forall|i: int| 0 <= i < k ==> #[trigger] out@[i] == le_sample(bytes@[2 * i], bytes@[2 * i + 1]),
        decreases n - k,
    {
        let len = bytes.len();
        assert(2 * k + 1 < len) by (nonlinear_arith)
            requires
                k < n,
                n == len / 2,
        ;
        let lo = bytes[2 * k];
        let hi = bytes[2 * k + 1];
        let v: u32 = (hi as u32) * 256 + (lo as u32);
        let s: i16 = if v >= 0x8000 { (v as i32 - 0x10000) as i16 } else { v as i16 };
        out.push(s);
        k = k + 1;
    }
    out
}

/// The RTP time of the next audio frame, wrapping.
pub fn next_audio_pts(pts: u32) -> (r: u32)
    ensures
        r == vstd::wrapping::u32_specs::wrapping_add(pts, AUDIO_PTS_STEP),
{
    pts.wrapping_add(AUDIO_PTS_STEP)
}

} // verus!
