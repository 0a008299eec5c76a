//! The video capture hardware as a state machine: lazy initialisation with
//! back-off after failures, the active encoder, the result codes of a frame
//! read, and which requests reach the hardware. The caller performs the
//! hardware calls that the decisions ask for.

use vstd::prelude::*;

verus! {

/// Errors of the capture hardware.
#[derive(Clone, Copy, Debug, PartialEq, Eq, Structural)]
pub enum KvmError {
    BufferFull,
    VencError,
    NotExist,
    HdmiResError,
    UnsupportedRes,
    Retrieving,
    ModifyingRes,
    Unknown(i32),
    NotInitialized,
    LibraryNotLoaded,
}

/// The error for a negative result code of a frame read.
pub open spec fn spec_error_of_code(code: i32) -> KvmError {
    if code == -1 {
        KvmError::NotExist
    } else if code == -2 {
        KvmError::VencError
    } else if code == -3 {
        KvmError::BufferFull
    } else if code == -4 {
        KvmError::ModifyingRes
    } else if code == -5 {
        KvmError::Retrieving
    } else if code == -6 {
        KvmError::UnsupportedRes
    } else if code == -7 {
        KvmError::HdmiResError
    } else {
        KvmError::Unknown(code)
    }
}

impl KvmError {
    /// The error for a negative result code of a frame read.
    pub fn from_code(code: i32) -> (r: KvmError)
        ensures
            r == spec_error_of_code(code),
    {
        match code {
            -1 => KvmError::NotExist,
            -2 => KvmError::VencError,
            -3 => KvmError::BufferFull,
            -4 => KvmError::ModifyingRes,
            -5 => KvmError::Retrieving,
            -6 => KvmError::UnsupportedRes,
            -7 => KvmError::HdmiResError,
            x => KvmError::Unknown(x),
        }
    }
}

/// Kind of an H.264 frame, as the encoder reports it.
#[derive(Clone, Copy, Debug, PartialEq, Eq, Structural)]
pub enum H264FrameType {
    Sps,
    Pps,
    IFrame,
    PFrame,
    Unknown,
}

/// The frame kind of an encoder result code: 1 to 4 name SPS, PPS, I and
/// P frames; anything else is unknown.
pub open spec fn spec_frame_type(v: i32) -> H264FrameType {
    if v == 1 {
        H264FrameType::Sps
    } else if v == 2 {
        H264FrameType::Pps
    } else if v == 3 {
        H264FrameType::IFrame
    } else if v == 4 {
        H264FrameType::PFrame
    } else {
        H264FrameType::Unknown
    }
}

impl From<i32> for H264FrameType {
    fn from(v: i32) -> (r: H264FrameType) {
        match v {
            1 => H264FrameType::Sps,
            2 => H264FrameType::Pps,
            3 => H264FrameType::IFrame,
            4 => H264FrameType::PFrame,
            _ => H264FrameType::Unknown,
        }
    }
}

impl vstd::std_specs::convert::FromSpecImpl<i32> for H264FrameType {
    open spec fn obeys_from_spec() -> bool {
        true
    }

    open spec fn from_spec(v: i32) -> H264FrameType {
        spec_frame_type(v)
    }
}

/// A captured frame.
#[derive(Clone, Debug)]
pub struct KvmFrame {
    pub data: Vec<u8>,
    pub frame_type: H264FrameType,
}

impl KvmFrame {
    /// The frame's length in bytes.
    pub fn len(&self) -> (r: usize)
        ensures
            r == self.data@.len(),
    {
        self.data.len()
    }

    /// Whether the frame has no bytes.
    pub fn is_empty(&self) -> (r: bool)
        ensures
            r == (self.data@.len() == 0),
    {
        self.data.len() == 0
    }
}

/// Initialisation state of the hardware.
#[derive(Clone, Copy, Debug, PartialEq, Eq, Structural)]
pub enum InitState {
    NotStarted,
    Initializing,
    Ready,
    Failed,
}

/// The encoder that is active.
#[derive(Clone, Copy, Debug, PartialEq, Eq, Structural)]
pub enum EncoderMode {
    /// No encoder has run yet.
    Inactive,
    Mjpeg,
    H264,
}

/// Image types of a frame read.
pub const IMG_MJPEG_TYPE: u8 = 0;
pub const IMG_H264_TYPE_SPS: u8 = 1;

/// Failures after which a failed initialisation is not retried until the
/// state is reset.
pub const MAX_INIT_FAILURES: u8 = 5;

/// What an initialisation attempt decides.
#[derive(Clone, Copy, Debug, PartialEq, Eq, Structural)]
pub enum InitStep {
    /// The hardware is ready.
    AlreadyReady,
    /// Another caller is initialising: wait, then check readiness again.
    WaitForOther,
    /// Initialise the hardware now, then report with `finish_init`.
    StartHardwareInit,
}

/// A frame read to perform: the arguments of the read, whether the
/// hardware must be initialised first, and whether to pause for an encoder
/// switch.
#[derive(Clone, Copy, Debug)]
pub struct ReadRequest {
    pub width: u16,
    pub height: u16,
    pub img_type: u8,
    pub quality: u16,
    pub init_hardware: bool,
    pub pause_for_switch: bool,
}

/// A call into the capture library.
#[derive(Clone, Copy, Debug, PartialEq, Eq, Structural)]
pub enum HwCall {
    /// `kvmv_init` with this argument.
    KvmvInit(u8),
    /// `set_venc_auto_recyc` with this argument.
    SetVencAutoRecyc(u8),
    /// `set_frame_detect` with this argument.
    SetFrameDetect(u8),
    /// `free_all_kvmv_data`.
    FreeAllKvmvData,
    /// `kvmv_deinit`.
    KvmvDeinit,
}

/// The calls that initialise the hardware, in order: start the library,
/// let the encoder recycle its buffers, and check for frame changes every
/// 60 frames.
pub open spec fn spec_init_calls() -> Seq<HwCall> {
    seq![HwCall::KvmvInit(0), HwCall::SetVencAutoRecyc(1), HwCall::SetFrameDetect(60)]
}

/// The calls that shut the hardware down, in order.
pub open spec fn spec_deinit_calls() -> Seq<HwCall> {
    seq![HwCall::FreeAllKvmvData, HwCall::KvmvDeinit]
}

/// The state once the hardware initialisation finished.
pub open spec fn spec_finish_init(k: Kvm) -> Kvm {
    Kvm { state: InitState::Ready, init_failures: 0, ..k }
}

/// The state of the capture hardware. The state is the process's: one
/// value of this type is kept for the whole process and shared by every
/// user of the hardware (the library holds no global state of its own).
#[derive(Clone, Copy, Debug)]
pub struct Kvm {
    pub state: InitState,
    pub init_failures: u8,
    pub encoder_mode: EncoderMode,
}

/// The outcome of an initialisation attempt from a state.
pub open spec fn spec_begin_init(k: Kvm, library_loaded: bool) -> (Result<InitStep, KvmError>, Kvm) {
    match k.state {
        InitState::Ready => (Ok(InitStep::AlreadyReady), k),
        InitState::Initializing => (Ok(InitStep::WaitForOther), k),
        _ => if k.state == InitState::Failed && k.init_failures >= MAX_INIT_FAILURES {
            (Err(KvmError::NotInitialized), k)
        } else if !library_loaded {
            (Err(KvmError::LibraryNotLoaded), Kvm { state: InitState::Failed, ..k })
        } else {
            (Ok(InitStep::StartHardwareInit), Kvm { state: InitState::Initializing, ..k })
        },
    }
}

impl Kvm {
    /// The hardware before initialisation, which is deferred to first use.
    pub fn new() -> (r: Kvm)
        ensures
            r.state == InitState::NotStarted,
            r.init_failures == 0,
            r.encoder_mode == EncoderMode::Inactive,
    {
        Kvm { state: InitState::NotStarted, init_failures: 0, encoder_mode: EncoderMode::Inactive }
    }

    /// Same as [`Kvm::new`].
    pub fn init() -> (r: Kvm)
        ensures
            r.state == InitState::NotStarted,
            r.init_failures == 0,
            r.encoder_mode == EncoderMode::Inactive,
    {
        Self::new()
    }

    /// Whether the hardware is initialised.
    pub fn is_ready(&self) -> (r: bool)
        ensures
            r == (self.state == InitState::Ready),
    {
        self.state == InitState::Ready
    }

    /// Decides an initialisation attempt: ready hardware needs nothing,
    /// after too many failures nothing is tried, a missing library fails.
    pub fn begin_init(&mut self, library_loaded: bool) -> (r: Result<InitStep, KvmError>)
        ensures
            (r, *final(self)) == spec_begin_init(*old(self), library_loaded),
    {
        match self.state {
            InitState::Ready => Ok(InitStep::AlreadyReady),
            InitState::Initializing => Ok(InitStep::WaitForOther),
            _ => {
                if self.state == InitState::Failed && self.init_failures >= MAX_INIT_FAILURES {
                    Err(KvmError::NotInitialized)
                } else if !library_loaded {
                    self.state = InitState::Failed;
                    Err(KvmError::LibraryNotLoaded)
                } else {
                    self.state = InitState::Initializing;
                    Ok(InitStep::StartHardwareInit)
                }
            },
        }
    }

    /// The calls into the capture library that an initialisation step
    /// asks for: all of [`spec_init_calls`], in order, when the hardware is
    /// to be initialised now, and none otherwise.
    pub fn init_calls(step: InitStep) -> (r: Vec<HwCall>)
        ensures
            step == InitStep::StartHardwareInit ==> r@ == spec_init_calls(),
            step != InitStep::StartHardwareInit ==> r@ == Seq::<HwCall>::empty(),
    {
        if step == InitStep::StartHardwareInit {
            let v = vec![HwCall::KvmvInit(0), HwCall::SetVencAutoRecyc(1), HwCall::SetFrameDetect(60)];
            assert(v@ =~= spec_init_calls());
            v
        } else {
            Vec::new()
        }
    }

    /// Records that the hardware initialisation (the calls of
    /// [`Kvm::init_calls`]) finished.
    pub fn finish_init(&mut self)
        ensures
            *final(self) == spec_finish_init(*old(self)),
            final(self).state == InitState::Ready,
            final(self).init_failures == 0,
            final(self).encoder_mode == old(self).encoder_mode,
    {
        self.state = InitState::Ready;
        self.init_failures = 0;
    }

    /// Allows a failed initialisation to be retried.
    pub fn reset_init_state(&mut self)
        ensures
            old(self).state == InitState::Failed ==> final(self).state == InitState::NotStarted && final(self).init_failures == 0,
            old(self).state != InitState::Failed ==> *final(self) == *old(self),
            final(self).encoder_mode == old(self).encoder_mode,
    {
        if self.state == InitState::Failed {
            self.state = InitState::NotStarted;
            self.init_failures = 0;
        }
    }

    /// Shuts the hardware down when it is ready: gives the calls into the
    /// capture library to make, each once and in order (freeing the frame
    /// buffers, then closing the library), or none when it is not ready.
    pub fn deinit(&mut self) -> (calls: Vec<HwCall>)
        ensures
            old(self).state == InitState::Ready ==> calls@ == spec_deinit_calls()
                && final(self).state == InitState::NotStarted && final(self).encoder_mode == EncoderMode::Inactive
                && final(self).init_failures == old(self).init_failures,
            old(self).state != InitState::Ready ==> calls@ == Seq::<HwCall>::empty() && *final(self) == *old(self),
    {
        if self.state == InitState::Ready {
            self.state = InitState::NotStarted;
            self.encoder_mode = EncoderMode::Inactive;
            let v = vec![HwCall::FreeAllKvmvData, HwCall::KvmvDeinit];
            assert(v@ =~= spec_deinit_calls());
            v
        } else {
            Vec::new()
        }
    }

    /// The active encoder.
    pub fn get_encoder_mode(&self) -> (r: EncoderMode)
        ensures
            r == self.encoder_mode,
    {
        self.encoder_mode
    }

    /// Switches the active encoder; tells whether to pause for pending
    /// frames, which is needed when one encoder replaces another.
    pub fn switch_encoder_mode(&mut self, new_mode: EncoderMode) -> (pause: bool)
        ensures
            final(self).encoder_mode == new_mode,
            final(self).state == old(self).state,
            final(self).init_failures == old(self).init_failures,
            pause == (old(self).encoder_mode != new_mode && old(self).encoder_mode != EncoderMode::Inactive),
    {
        let current = self.encoder_mode;
        if current == new_mode {
            return false;
        }
        self.encoder_mode = new_mode;
        current != EncoderMode::Inactive
    }

    fn prepare_read(&mut self, library_loaded: bool, mode: EncoderMode, width: u16, height: u16, img_type: u8, quality: u16) -> (r: Result<ReadRequest, KvmError>)
        ensures
            ({
                let (step, k1) = spec_begin_init(*old(self), library_loaded);
                match step {
                    Err(e) => r == Err::<ReadRequest, KvmError>(e) && *final(self) == k1,
                    Ok(s) => (r matches Ok(req) && req.width == width && req.height == height
                        && req.img_type == img_type && req.quality == quality
                        && req.init_hardware == (s == InitStep::StartHardwareInit)
                        && req.pause_for_switch == (k1.encoder_mode != mode && k1.encoder_mode != EncoderMode::Inactive))
                        && final(self).encoder_mode == mode && final(self).state == k1.state
                        && final(self).init_failures == k1.init_failures,
                }
            }),
    {
        match self.begin_init(library_loaded) {
            Err(e) => Err(e),
            Ok(step) => {
                let pause = self.switch_encoder_mode(mode);
                Ok(ReadRequest {
                    width,
                    height,
                    img_type,
                    quality,
                    init_hardware: step == InitStep::StartHardwareInit,
                    pause_for_switch: pause,
                })
            },
        }
    }

    /// Prepares an MJPEG frame read at the given quality.
    pub fn get_mjpeg(&mut self, library_loaded: bool, width: u16, height: u16, quality: u16) -> (r: Result<ReadRequest, KvmError>)
        ensures
            ({
                let (step, k1) = spec_begin_init(*old(self), library_loaded);
                match step {
                    Err(e) => r == Err::<ReadRequest, KvmError>(e) && *final(self) == k1,
                    Ok(s) => (r matches Ok(req) && req.width == width && req.height == height
                        && req.img_type == IMG_MJPEG_TYPE && req.quality == quality
                        && req.init_hardware == (s == InitStep::StartHardwareInit)
                        && req.pause_for_switch == (k1.encoder_mode != EncoderMode::Mjpeg && k1.encoder_mode != EncoderMode::Inactive))
                        && final(self).encoder_mode == EncoderMode::Mjpeg && final(self).state == k1.state
                        && final(self).init_failures == k1.init_failures,
                }
            }),
    {
        self.prepare_read(library_loaded, EncoderMode::Mjpeg, width, height, IMG_MJPEG_TYPE, quality)
    }

    /// Prepares an H.264 frame read at the given bitrate.
    pub fn get_h264(&mut self, library_loaded: bool, width: u16, height: u16, bitrate: u16) -> (r: Result<ReadRequest, KvmError>)
        ensures
            ({
                let (step, k1) = spec_begin_init(*old(self), library_loaded);
                match step {
                    Err(e) => r == Err::<ReadRequest, KvmError>(e) && *final(self) == k1,
                    Ok(s) => (r matches Ok(req) && req.width == width && req.height == height
                        && req.img_type == IMG_H264_TYPE_SPS && req.quality == bitrate
                        && req.init_hardware == (s == InitStep::StartHardwareInit)
                        && req.pause_for_switch == (k1.encoder_mode != EncoderMode::H264 && k1.encoder_mode != EncoderMode::Inactive))
                        && final(self).encoder_mode == EncoderMode::H264 && final(self).state == k1.state
                        && final(self).init_failures == k1.init_failures,
                }
            }),
    {
        self.prepare_read(library_loaded, EncoderMode::H264, width, height, IMG_H264_TYPE_SPS, bitrate)
    }

    /// Interprets the result of a frame read: a negative code is an error
    /// (HDMI and encoder errors count as failures), a success resets the
    /// failure count, and an empty frame does not exist.
    pub fn complete_read(&mut self, ret: i32, has_data: bool) -> (r: Result<H264FrameType, KvmError>)
        ensures
            ret < 0 ==> r == Err::<H264FrameType, KvmError>(spec_error_of_code(ret))
                && final(self).init_failures == (if ret == -7 || ret == -2 {
                    ((old(self).init_failures as int + 1) % 256) as u8
                } else {
                    old(self).init_failures
                }),
            ret >= 0 ==> final(self).init_failures == 0,
            ret >= 0 && !has_data ==> r == Err::<H264FrameType, KvmError>(KvmError::NotExist),
            ret >= 0 && has_data ==> r == Ok::<H264FrameType, KvmError>(spec_frame_type(ret)),
            final(self).state == old(self).state,
            final(self).encoder_mode == old(self).encoder_mode,
    {
        if ret < 0 {
            if ret == -7 || ret == -2 {
                self.init_failures = self.init_failures.wrapping_add(1);
            }
            return Err(KvmError::from_code(ret));
        }
        self.init_failures = 0;
        if !has_data {
            return Err(KvmError::NotExist);
        }
        Ok(H264FrameType::from(ret))
    }

    /// The GOP to hand to the encoder: only when the hardware is ready.
    pub fn set_h264_gop(&self, gop: u8) -> (r: Option<u8>)
        ensures
            r == (if self.state == InitState::Ready { Some(gop) } else { None }),
    {
        if self.is_ready() { Some(gop) } else { None }
    }

    /// The frame-detection interval to hand to the hardware: only when ready.
    pub fn set_frame_detect(&self, frame: u8) -> (r: Option<u8>)
        ensures
            r == (if self.state == InitState::Ready { Some(frame) } else { None }),
    {
        if self.is_ready() { Some(frame) } else { None }
    }

    /// Switches the HDMI input: refused without the library; otherwise the
    /// value to hand to the hardware, and switching on allows a failed
    /// initialisation to be retried.
    pub fn set_hdmi(&mut self, enable: bool, library_loaded: bool) -> (r: Result<u8, KvmError>)
        ensures
            !library_loaded ==> r == Err::<u8, KvmError>(KvmError::LibraryNotLoaded) && *final(self) == *old(self),
            library_loaded ==> r == Ok::<u8, KvmError>(if enable { 1u8 } else { 0u8 }),
            library_loaded && enable && old(self).state == InitState::Failed ==>
                final(self).state == InitState::NotStarted && final(self).init_failures == 0,
            library_loaded && !(enable && old(self).state == InitState::Failed) ==> *final(self) == *old(self),
    {
        if !library_loaded {
            return Err(KvmError::LibraryNotLoaded);
        }
        let val: u8 = if enable { 1 } else { 0 };
        if enable {
            self.reset_init_state();
        }
        Ok(val)
    }
}

/// After as many failed initialisations as the back-off allows, attempts
/// are refused and change nothing until the state is reset; after a reset
/// an attempt with the library present starts the hardware again.
pub proof fn lemma_backoff_until_reset(k: Kvm, library_loaded: bool)
    requires
        k.state == InitState::Failed,
        k.init_failures >= MAX_INIT_FAILURES,
    ensures
        spec_begin_init(k, library_loaded) == (Err::<InitStep, KvmError>(KvmError::NotInitialized), k),
        spec_begin_init(Kvm { state: InitState::NotStarted, init_failures: 0, ..k }, true).0
            == Ok::<InitStep, KvmError>(InitStep::StartHardwareInit),
{
}

/// From a fresh state with the library present, an initialisation attempt
/// makes the three initialisation calls in order and leaves the hardware
/// ready with no failures counted; the attempt after it finds the hardware
/// ready and makes no call.
pub proof fn lemma_init_sequence(k: Kvm)
    requires
        k.state == InitState::NotStarted,
    ensures
        ({
            let (step, k1) = spec_begin_init(k, true);
            let k2 = spec_finish_init(k1);
            &&& step == Ok::<InitStep, KvmError>(InitStep::StartHardwareInit)
            &&& k2.state == InitState::Ready && k2.init_failures == 0
            &&& spec_begin_init(k2, true) == (Ok::<InitStep, KvmError>(InitStep::AlreadyReady), k2)
        }),
{
}

impl Default for Kvm {
    fn default() -> (r: Kvm)
        ensures
            r.state == InitState::NotStarted,
            r.init_failures == 0,
            r.encoder_mode == EncoderMode::Inactive,
    {
        Kvm::new()
    }
}

} // verus!
