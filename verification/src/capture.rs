//! The capture loops' decisions: when a frame is read from the encoder,
//! how a frame's delivery counts for adaptive quality, and how the RTP
//! clock and frame counter advance.

use vstd::prelude::*;
use crate::kvm::KvmError;
use crate::textscan::str_eq;

verus! {

/// The RTP clock rate of video, in ticks per second.
pub const VIDEO_CLOCK_RATE: u64 = 90000;

/// An MJPEG frame is read only when someone watches the MJPEG stream and
/// MJPEG is the configured stream type.
pub fn should_capture_mjpeg(receivers: usize, stream_type: &str) -> (r: bool)
    ensures
        r == (receivers > 0 && stream_type@ == "mjpeg"@),
{
    receivers > 0 && str_eq(stream_type, "mjpeg")
}

/// An H.264 frame is read only when H.264 is the configured stream type
/// and either a WebRTC peer is connected or a direct client listens.
pub fn should_capture_h264(stream_type: &str, webrtc_connections: usize, direct_receivers: usize) -> (r: bool)
    ensures
        r == (stream_type@ == "h264"@ && (webrtc_connections > 0 || direct_receivers > 0)),
{
    str_eq(stream_type, "h264") && (webrtc_connections > 0 || direct_receivers > 0)
}

/// Capture errors that are part of normal operation (no frame yet, still
/// reading, no HDMI signal, no encoder library) and are not logged.
pub open spec fn spec_quiet_error(e: KvmError) -> bool {
    e is NotExist || e is Retrieving || e is NotInitialized || e is LibraryNotLoaded
}

/// Whether a capture error is one of the expected ones.
pub fn is_quiet_capture_error(e: &KvmError) -> (r: bool)
    ensures
        r == spec_quiet_error(*e),
{
    match e {
        KvmError::NotExist => true,
        KvmError::Retrieving => true,
        KvmError::NotInitialized => true,
        KvmError::LibraryNotLoaded => true,
        _ => false,
    }
}

/// Whether a frame counts as delivered: every WebRTC peer it was sent to
/// got it (when there were any), and the direct channel took it (when it
/// has listeners).
pub open spec fn spec_frame_delivered(peers: nat, sent: nat, direct: Option<bool>) -> bool {
    (peers == 0 || sent == peers) && match direct {
        Some(ok) => ok,
        None => true,
    }
}

/// Computes whether a frame counts as delivered.
pub fn frame_delivered(peers: usize, sent: usize, direct: Option<bool>) -> (r: bool)
    ensures
        r == spec_frame_delivered(peers as nat, sent as nat, direct),
{
    let webrtc_ok = peers == 0 || sent == peers;
    let direct_ok = match direct {
        Some(ok) => ok,
        None => true,
    };
    webrtc_ok && direct_ok
}

/// The RTP time between frames at `fps`: the clock rate over the frame
/// rate (at least one frame per second), and at least one tick.
pub open spec fn spec_pts_step(fps: u16) -> u64 {
    let f: u64 = if fps == 0 { 1 } else { fps as u64 };
    let q = (VIDEO_CLOCK_RATE / f) as u64;
    if q == 0 { 1 } else { q }
}

/// Computes the RTP time between frames.
pub fn pts_step(fps: u16) -> (r: u64)
    ensures
        r == spec_pts_step(fps),
        r >= 1,
{
    let f: u64 = if fps == 0 { 1 } else { fps as u64 };
    let q = VIDEO_CLOCK_RATE / f;
    if q == 0 { 1 } else { q }
}

/// The H.264 loop's running state: the RTP time of the next frame, the
/// number of frames sent, and whether parameter sets were found yet.
#[derive(Clone, Copy, Debug)]
pub struct H264LoopState {
    pub pts: u64,
    pub frame_counter: u64,
    pub parameter_sets_initialized: bool,
}

/// `a + b` modulo 2^64.
pub open spec fn wrap_add(a: u64, b: u64) -> u64 {
    if a + b > u64::MAX {
        (a + b - 0x1_0000_0000_0000_0000) as u64
    } else {
        (a + b) as u64
    }
}

impl H264LoopState {
    /// The state before the first frame.
    pub fn new() -> (r: H264LoopState)
        ensures
            r.pts == 0 && r.frame_counter == 0 && !r.parameter_sets_initialized,
    {
        H264LoopState { pts: 0, frame_counter: 0, parameter_sets_initialized: false }
    }

    /// After a frame was handled at `fps`: the RTP time advances by one
    /// frame and the counter by one, both wrapping.
    pub fn after_frame(&mut self, fps: u16)
        ensures
            final(self).pts == wrap_add(old(self).pts, spec_pts_step(fps)),
            final(self).frame_counter == wrap_add(old(self).frame_counter, 1),
            final(self).parameter_sets_initialized == old(self).parameter_sets_initialized,
    {
        let step = pts_step(fps);
        self.pts = self.pts.wrapping_add(step);
        self.frame_counter = self.frame_counter.wrapping_add(1);
    }

    /// Records that parameter sets were taken from a keyframe.
    pub fn parameter_sets_found(&mut self)
        ensures
            final(self).parameter_sets_initialized,
            final(self).pts == old(self).pts,
            final(self).frame_counter == old(self).frame_counter,
    {
        self.parameter_sets_initialized = true;
    }

    /// Whether this frame is one on which the loop reports its throughput
    /// (once per `fps` frames).
    pub fn reports_now(&self, fps: u16) -> (r: bool)
        ensures
            r == (fps > 0 && self.frame_counter % (fps as u64) == 0),
    {
        fps > 0 && self.frame_counter % (fps as u64) == 0
    }
}

} // verus!
