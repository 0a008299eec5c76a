//! The video settings of the HDMI capture (stream type, frame rate,
//! quality, size, bitrate, GOP) and the frame-detection switch.

use vstd::prelude::*;
use vstd::string::StringExecFns;

verus! {

/// The video settings.
#[derive(Clone, Debug)]
pub struct ScreenConfig {
    pub stream_type: String,
    pub fps: u16,
    pub quality: u16,
    pub width: u16,
    pub height: u16,
    pub bitrate: u16,
    pub gop: u8,
}

impl ScreenConfig {
    /// The settings at start-up: MJPEG at 30 fps, quality 80, 1280x720,
    /// 2000 kbps, GOP 30.
    pub fn new() -> (r: ScreenConfig)
        ensures
            r.stream_type@ == "mjpeg"@,
            r.fps == 30,
            r.quality == 80,
            r.width == 1280,
            r.height == 720,
            r.bitrate == 2000,
            r.gop == 30,
    {
        ScreenConfig {
            stream_type: String::from_str("mjpeg"),
            fps: 30,
            quality: 80,
            width: 1280,
            height: 720,
            bitrate: 2000,
            gop: 30,
        }
    }

    /// Applies the settings that a request gives, each replacing the
    /// current value; the others stay.
    pub fn apply(&mut self, req: SetScreenReq)
        ensures
            final(self).stream_type@ == (match req.stream_type { Some(s) => s@, None => old(self).stream_type@ }),
            final(self).fps == (match req.fps { Some(v) => v, None => old(self).fps }),
            final(self).quality == (match req.quality { Some(v) => v, None => old(self).quality }),
            final(self).width == (match req.width { Some(v) => v, None => old(self).width }),
            final(self).height == (match req.height { Some(v) => v, None => old(self).height }),
            final(self).bitrate == (match req.bitrate { Some(v) => v, None => old(self).bitrate }),
            final(self).gop == (match req.gop { Some(v) => v, None => old(self).gop }),
    {
        if let Some(stream_type) = req.stream_type {
            self.stream_type = stream_type;
        }
        if let Some(fps) = req.fps {
            self.fps = fps;
        }
        if let Some(quality) = req.quality {
            self.quality = quality;
        }
        if let Some(width) = req.width {
            self.width = width;
        }
        if let Some(height) = req.height {
            self.height = height;
        }
        if let Some(bitrate) = req.bitrate {
            self.bitrate = bitrate;
        }
        if let Some(gop) = req.gop {
            self.gop = gop;
        }
    }

    /// The settings as reported to clients.
    pub fn response(&self) -> (r: ScreenConfigResponse)
        ensures
            r.stream_type@ == self.stream_type@,
            r.fps == self.fps,
            r.quality == self.quality,
            r.width == self.width,
            r.height == self.height,
            r.bitrate == self.bitrate,
            r.gop == self.gop,
    {
        ScreenConfigResponse {
            stream_type: self.stream_type.clone(),
            fps: self.fps,
            quality: self.quality,
            width: self.width,
            height: self.height,
            bitrate: self.bitrate,
            gop: self.gop,
        }
    }
}

/// Switches frame detection on or off.
#[derive(Clone, Copy, Debug)]
pub struct UpdateFrameDetectReq {
    pub enabled: bool,
}

/// Pauses frame detection for a while (seconds; ten when not given).
#[derive(Clone, Copy, Debug)]
pub struct StopFrameDetectReq {
    pub duration: Option<u64>,
}

/// The frame-detection interval when it is on.
pub const FRAME_DETECT_INTERVAL: u8 = 60;

/// The frame-detection interval for a request: the standard interval when
/// switched on, zero when off.
pub fn frame_detect_interval(req: UpdateFrameDetectReq) -> (r: u8)
    ensures
        r == (if req.enabled { FRAME_DETECT_INTERVAL } else { 0 }),
{
    if req.enabled { FRAME_DETECT_INTERVAL } else { 0 }
}

/// How long frame detection pauses, in seconds.
pub fn frame_detect_pause(req: StopFrameDetectReq) -> (r: u64)
    ensures
        r == (match req.duration { Some(d) => d, None => 10 }),
{
    match req.duration {
        Some(d) => d,
        None => 10,
    }
}

/// A request to change some of the video settings.
#[derive(Clone, Debug)]
pub struct SetScreenReq {
    pub stream_type: Option<String>,
    pub fps: Option<u16>,
    pub quality: Option<u16>,
    pub width: Option<u16>,
    pub height: Option<u16>,
    pub bitrate: Option<u16>,
    pub gop: Option<u8>,
}

/// The video settings as reported to clients.
#[derive(Clone, Debug)]
pub struct ScreenConfigResponse {
    pub stream_type: String,
    pub fps: u16,
    pub quality: u16,
    pub width: u16,
    pub height: u16,
    pub bitrate: u16,
    pub gop: u8,
}

} // verus!
