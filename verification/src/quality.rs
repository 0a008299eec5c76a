//! Adaptive stream quality: an AIMD-style controller that steps between five
//! quality tiers according to frame delivery results and receiver bitrate estimates.

use vstd::prelude::*;

verus! {

/// A quality tier: encoder settings used while it is selected.
#[derive(Clone, Copy, Debug)]
pub struct QualityTier {
    pub name: &'static str,
    /// H.264 bitrate in kbps.
    pub h264_bitrate: u16,
    /// MJPEG quality, 1 to 100.
    pub mjpeg_quality: u16,
}

/// Number of tiers; index 0 is the highest quality.
pub const QUALITY_TIER_COUNT: usize = 5;
/// Tier selected at start and when auto mode is switched on ("high").
pub const DEFAULT_TIER: usize = 1;
/// Consecutive delivered frames before the quality may rise.
pub const INCREASE_THRESHOLD: u32 = 90;
/// Consecutive failed frames before the quality falls.
pub const DECREASE_THRESHOLD: u32 = 3;
/// Minimum time between two tier changes, in milliseconds.
pub const MIN_CHANGE_INTERVAL_MS: u64 = 2000;

/// H.264 bitrate of tier `i`.
pub open spec fn tier_bitrate(i: int) -> u16 {
    if i == 0 { 4000 } else if i == 1 { 2500 } else if i == 2 { 1500 } else if i == 3 { 800 } else { 400 }
}

/// MJPEG quality of tier `i`.
pub open spec fn tier_quality(i: int) -> u16 {
    if i == 0 { 95 } else if i == 1 { 80 } else if i == 2 { 65 } else if i == 3 { 45 } else { 30 }
}

/// Name of tier `i`.
pub open spec fn tier_name(i: int) -> Seq<char> {
    if i == 0 { "ultra"@ } else if i == 1 { "high"@ } else if i == 2 { "medium"@ } else if i == 3 { "low"@ } else { "lowest"@ }
}

/// The tier at `index` (ultra, high, medium, low, lowest).
pub fn quality_tier(index: usize) -> (t: QualityTier)
    requires
        index < QUALITY_TIER_COUNT,
    ensures
        t.h264_bitrate == tier_bitrate(index as int),
        t.mjpeg_quality == tier_quality(index as int),
        t.name@ == tier_name(index as int),
{
    if index == 0 {
        QualityTier { name: "ultra", h264_bitrate: 4000, mjpeg_quality: 95 }
    } else if index == 1 {
        QualityTier { name: "high", h264_bitrate: 2500, mjpeg_quality: 80 }
    } else if index == 2 {
        QualityTier { name: "medium", h264_bitrate: 1500, mjpeg_quality: 65 }
    } else if index == 3 {
        QualityTier { name: "low", h264_bitrate: 800, mjpeg_quality: 45 }
    } else {
        QualityTier { name: "lowest", h264_bitrate: 400, mjpeg_quality: 30 }
    }
}

/// Abstract state of the controller.
pub struct QualityState {
    pub auto_enabled: bool,
    pub current_tier: usize,
    pub consecutive_successes: u32,
    pub consecutive_failures: u32,
    /// Time of the last tier change, in milliseconds.
    pub last_change_ms: u64,
    pub total_frames: u64,
    pub dropped_frames: u64,
}

/// `x + 1`, saturating at the type's maximum.
pub open spec fn inc32(x: u32) -> u32 {
    if x < u32::MAX { (x + 1) as u32 } else { x }
}

/// `x + 1`, saturating at the type's maximum.
pub open spec fn inc64(x: u64) -> u64 {
    if x < u64::MAX { (x + 1) as u64 } else { x }
}

/// Whether a change is allowed at `now`: at least `MIN_CHANGE_INTERVAL_MS` since the last one.
pub open spec fn may_change(s: QualityState, now: u64) -> bool {
    now >= s.last_change_ms && now - s.last_change_ms >= MIN_CHANGE_INTERVAL_MS
}

/// The state after a frame result at `now`, and whether the tier changed.
pub open spec fn spec_on_frame_result(s: QualityState, success: bool, now: u64) -> (QualityState, bool) {
    if !s.auto_enabled {
        (s, false)
    } else {
        let s1 = QualityState {
            total_frames: inc64(s.total_frames),
            dropped_frames: if success { s.dropped_frames } else { inc64(s.dropped_frames) },
            ..s
        };
        if success {
            let s2 = QualityState { consecutive_successes: inc32(s.consecutive_successes), consecutive_failures: 0, ..s1 };
            if may_change(s, now) && s2.consecutive_successes >= INCREASE_THRESHOLD && s.current_tier > 0 {
                (QualityState { current_tier: (s.current_tier - 1) as usize, consecutive_successes: 0, last_change_ms: now, ..s2 }, true)
            } else {
                (s2, false)
            }
        } else {
            let s2 = QualityState { consecutive_failures: inc32(s.consecutive_failures), consecutive_successes: 0, ..s1 };
            if may_change(s, now) && s2.consecutive_failures >= DECREASE_THRESHOLD && s.current_tier < QUALITY_TIER_COUNT - 1 {
                (QualityState { current_tier: (s.current_tier + 1) as usize, consecutive_failures: 0, last_change_ms: now, ..s2 }, true)
            } else {
                (s2, false)
            }
        }
    }
}

/// The highest-quality tier whose bitrate fits within `kbps`, or the lowest tier.
pub open spec fn remb_target(kbps: u32) -> int {
    if tier_bitrate(0) <= kbps { 0 } else if tier_bitrate(1) <= kbps { 1 } else if tier_bitrate(2) <= kbps { 2 }
    else if tier_bitrate(3) <= kbps { 3 } else { 4 }
}

/// The state after a receiver estimate of `bitrate_bps` at `now`: the highest
/// tier whose H.264 bitrate fits the estimate (in kbps), or the lowest tier.
pub open spec fn spec_on_remb(s: QualityState, bitrate_bps: u32, now: u64) -> QualityState {
    let target = remb_target(bitrate_bps / 1000);
    if !s.auto_enabled || target == s.current_tier || !may_change(s, now) {
        s
    } else {
        QualityState { current_tier: target as usize, last_change_ms: now, consecutive_successes: 0, consecutive_failures: 0, ..s }
    }
}

/// A tier change happens only after `MIN_CHANGE_INTERVAL_MS` since the previous
/// one and stamps the new change time; a frame result moves the tier by at most
/// one step, towards higher quality on success and lower quality on failure.
pub proof fn lemma_frame_result_step(s: QualityState, success: bool, now: u64)
    requires
        s.current_tier < QUALITY_TIER_COUNT,
    ensures
        ({
            let (t, changed) = spec_on_frame_result(s, success, now);
            &&& t.current_tier < QUALITY_TIER_COUNT
            &&& changed <==> t.current_tier != s.current_tier
            &&& changed ==> now >= s.last_change_ms + MIN_CHANGE_INTERVAL_MS && t.last_change_ms == now
            &&& changed && success ==> t.current_tier == s.current_tier - 1
            &&& changed && !success ==> t.current_tier == s.current_tier + 1
        }),
{
}

/// In auto mode a frame result counts the frame (and a failed one as
/// dropped), and resets the opposite streak: after a failure no success is
/// counted, after a success no failure. A failure never raises the quality
/// and a success never lowers it; the quality rises only when this success
/// completes `INCREASE_THRESHOLD` in a row, and falls only when this failure
/// completes `DECREASE_THRESHOLD` in a row.
pub proof fn lemma_frame_result_streaks(s: QualityState, success: bool, now: u64)
    requires
        s.auto_enabled,
        s.total_frames < u64::MAX,
        s.dropped_frames < u64::MAX,
        s.consecutive_successes < u32::MAX,
        s.consecutive_failures < u32::MAX,
    ensures
        ({
            let t = spec_on_frame_result(s, success, now).0;
            &&& t.total_frames == s.total_frames + 1
            &&& t.dropped_frames == s.dropped_frames + (if success { 0int } else { 1int })
            &&& !success ==> t.consecutive_successes == 0 && t.current_tier >= s.current_tier
            &&& success ==> t.consecutive_failures == 0 && t.current_tier <= s.current_tier
            &&& t.current_tier < s.current_tier ==> s.consecutive_successes + 1 >= INCREASE_THRESHOLD
            &&& t.current_tier > s.current_tier ==> s.consecutive_failures + 1 >= DECREASE_THRESHOLD
            &&& t.current_tier == s.current_tier && success ==> t.consecutive_successes == s.consecutive_successes + 1
            &&& t.current_tier == s.current_tier && !success ==> t.consecutive_failures == s.consecutive_failures + 1
        }),
{
}

/// A receiver estimate in auto mode, when a change is allowed, selects the
/// highest-quality tier whose H.264 bitrate (in kbps) fits the estimate: that
/// tier fits and every better tier does not; when none fits, the lowest tier.
/// A change moves the tier only to that target and stamps `now`.
pub proof fn lemma_remb_selects_highest_fitting(s: QualityState, bitrate_bps: u32, now: u64)
    requires
        s.auto_enabled,
        may_change(s, now),
    ensures
        ({
            let t = spec_on_remb(s, bitrate_bps, now);
            let kbps = bitrate_bps / 1000;
            &&& 0 <= t.current_tier < QUALITY_TIER_COUNT
            &&& (t.current_tier < QUALITY_TIER_COUNT - 1 ==> tier_bitrate(t.current_tier as int) <= kbps)
            &&& forall|j: int| 0 <= j < t.current_tier ==> tier_bitrate(j) > kbps
            &&& t.current_tier != s.current_tier ==> t.last_change_ms == now
        }),
{
}

/// With auto mode off, frame results and receiver estimates change nothing.
pub proof fn lemma_manual_mode_is_stable(s: QualityState, success: bool, bitrate_bps: u32, now: u64)
    requires
        !s.auto_enabled,
    ensures
        spec_on_frame_result(s, success, now) == (s, false),
        spec_on_remb(s, bitrate_bps, now) == s,
{
}

/// The third consecutive failure lowers the quality when a change is allowed
/// and a lower tier exists; the ninetieth consecutive success raises it when a
/// higher tier exists.
pub proof fn lemma_thresholds_trigger_change(s: QualityState, now: u64)
    requires
        s.auto_enabled,
        may_change(s, now),
    ensures
        s.consecutive_failures + 1 == DECREASE_THRESHOLD && s.current_tier < QUALITY_TIER_COUNT - 1
            ==> spec_on_frame_result(s, false, now).1,
        s.consecutive_successes + 1 == INCREASE_THRESHOLD && s.current_tier > 0
            ==> spec_on_frame_result(s, true, now).1,
{
}

/// Adaptive quality controller.
pub struct QualityController {
    state: QualityState,
}

impl QualityController {
    /// The abstract state.
    pub closed spec fn view(&self) -> QualityState {
        self.state
    }

    /// The tier index is always valid.
    pub closed spec fn wf(&self) -> bool {
        self.state.current_tier < QUALITY_TIER_COUNT
    }

    /// A controller created at `now_ms`: auto mode on, default tier, no statistics.
    pub fn new_at(now_ms: u64) -> (r: Self)
        ensures
            r.wf(),
            r@ == (QualityState {
                auto_enabled: true,
                current_tier: DEFAULT_TIER,
                consecutive_successes: 0,
                consecutive_failures: 0,
                last_change_ms: now_ms,
                total_frames: 0,
                dropped_frames: 0,
            }),
    {
        QualityController {
            state: QualityState {
                auto_enabled: true,
                current_tier: DEFAULT_TIER,
                consecutive_successes: 0,
                consecutive_failures: 0,
                last_change_ms: now_ms,
                total_frames: 0,
                dropped_frames: 0,
            },
        }
    }

    /// A controller created now (by the system clock).
    pub fn new() -> (r: Self)
        ensures
            r.wf(),
            r@.auto_enabled,
            r@.current_tier == DEFAULT_TIER,
            r@.consecutive_successes == 0,
            r@.consecutive_failures == 0,
            r@.total_frames == 0,
            r@.dropped_frames == 0,
    {
        Self::new_at(crate::clock::unix_now_millis())
    }

    /// Whether auto mode is on.
    pub fn is_auto_enabled(&self) -> (r: bool)
        ensures
            r == self@.auto_enabled,
    {
        self.state.auto_enabled
    }

    /// Switches auto mode; switching it on returns to the default tier and
    /// resets the consecutive counters.
    pub fn set_auto_enabled(&mut self, enabled: bool)
        requires
            old(self).wf(),
        ensures
            final(self).wf(),
            final(self)@ == (if enabled {
                QualityState {
                    auto_enabled: true,
                    current_tier: DEFAULT_TIER,
                    consecutive_successes: 0,
                    consecutive_failures: 0,
                    ..old(self)@
                }
            } else {
                QualityState { auto_enabled: false, ..old(self)@ }
            }),
    {
        self.state.auto_enabled = enabled;
        if enabled {
            self.state.current_tier = DEFAULT_TIER;
            self.state.consecutive_successes = 0;
            self.state.consecutive_failures = 0;
        }
    }

    /// Index of the current tier.
    pub fn current_tier_index(&self) -> (r: usize)
        ensures
            r == self@.current_tier,
    {
        self.state.current_tier
    }

    /// The current tier.
    pub fn current_tier(&self) -> (t: QualityTier)
        requires
            self.wf(),
        ensures
            t.h264_bitrate == tier_bitrate(self@.current_tier as int),
            t.mjpeg_quality == tier_quality(self@.current_tier as int),
            t.name@ == tier_name(self@.current_tier as int),
    {
        quality_tier(self.state.current_tier)
    }

    /// The H.264 bitrate to use: the tier's in auto mode, `manual_bitrate` otherwise.
    pub fn get_h264_bitrate(&self, manual_bitrate: u16) -> (r: u16)
        requires
            self.wf(),
        ensures
            r == (if self@.auto_enabled { tier_bitrate(self@.current_tier as int) } else { manual_bitrate }),
    {
        if self.state.auto_enabled {
            quality_tier(self.state.current_tier).h264_bitrate
        } else {
            manual_bitrate
        }
    }

    /// The MJPEG quality to use: the tier's in auto mode, `manual_quality` otherwise.
    pub fn get_mjpeg_quality(&self, manual_quality: u16) -> (r: u16)
        requires
            self.wf(),
        ensures
            r == (if self@.auto_enabled { tier_quality(self@.current_tier as int) } else { manual_quality }),
    {
        if self.state.auto_enabled {
            quality_tier(self.state.current_tier).mjpeg_quality
        } else {
            manual_quality
        }
    }

    /// Reports whether a frame was delivered, at `now_ms`; returns whether the tier changed.
    pub fn on_frame_result_at(&mut self, success: bool, now_ms: u64) -> (changed: bool)
        requires
            old(self).wf(),
        ensures
            final(self).wf(),
            (final(self)@, changed) == spec_on_frame_result(old(self)@, success, now_ms),
    {
        if !self.state.auto_enabled {
            return false;
        }
        self.state.total_frames = self.state.total_frames.saturating_add(1);
        if !success {
            self.state.dropped_frames = self.state.dropped_frames.saturating_add(1);
        }
        let can_change = now_ms >= self.state.last_change_ms
            && now_ms - self.state.last_change_ms >= MIN_CHANGE_INTERVAL_MS;
        if success {
            self.state.consecutive_successes = self.state.consecutive_successes.saturating_add(1);
            self.state.consecutive_failures = 0;
            if can_change && self.state.consecutive_successes >= INCREASE_THRESHOLD {
                if self.state.current_tier > 0 {
                    self.state.current_tier = self.state.current_tier - 1;
                    self.state.consecutive_successes = 0;
                    self.state.last_change_ms = now_ms;
                    return true;
                }
            }
        } else {
            self.state.consecutive_failures = self.state.consecutive_failures.saturating_add(1);
            self.state.consecutive_successes = 0;
            if can_change && self.state.consecutive_failures >= DECREASE_THRESHOLD {
                if self.state.current_tier < QUALITY_TIER_COUNT - 1 {
                    self.state.current_tier = self.state.current_tier + 1;
                    self.state.consecutive_failures = 0;
                    self.state.last_change_ms = now_ms;
                    return true;
                }
            }
        }
        false
    }

    /// Reports whether a frame was delivered, now (by the system clock).
    pub fn on_frame_result(&mut self, success: bool) -> (changed: bool)
        requires
            old(self).wf(),
        ensures
            final(self).wf(),
            exists|now: u64| (final(self)@, changed) == spec_on_frame_result(old(self)@, success, now),
    {
        let now = crate::clock::unix_now_millis();
        self.on_frame_result_at(success, now)
    }

    /// Applies a receiver bitrate estimate (REMB) at `now_ms`.
    pub fn on_remb_received_at(&mut self, bitrate_bps: u32, now_ms: u64)
        requires
            old(self).wf(),
        ensures
            final(self).wf(),
            final(self)@ == spec_on_remb(old(self)@, bitrate_bps, now_ms),
    {
        if !self.state.auto_enabled {
            return;
        }
        let bitrate_kbps: u32 = bitrate_bps / 1000;
        let mut target: usize = 0;
        while target < QUALITY_TIER_COUNT - 1 && (quality_tier(target).h264_bitrate as u32) > bitrate_kbps
            invariant
                target < QUALITY_TIER_COUNT,
                forall|j: int| 0 <= j < target ==> tier_bitrate(j) > bitrate_kbps,
            decreases QUALITY_TIER_COUNT - target,
        {
            target = target + 1;
        }
        assert(target as int == remb_target(bitrate_kbps));
        if target != self.state.current_tier {
            if now_ms >= self.state.last_change_ms && now_ms - self.state.last_change_ms >= MIN_CHANGE_INTERVAL_MS {
                self.state.current_tier = target;
                self.state.last_change_ms = now_ms;
                self.state.consecutive_successes = 0;
                self.state.consecutive_failures = 0;
            }
        }
    }

    /// Applies a receiver bitrate estimate (REMB) now (by the system clock).
    pub fn on_remb_received(&mut self, bitrate_bps: u32)
        requires
            old(self).wf(),
        ensures
            final(self).wf(),
            exists|now: u64| final(self)@ == spec_on_remb(old(self)@, bitrate_bps, now),
    {
        let now = crate::clock::unix_now_millis();
        self.on_remb_received_at(bitrate_bps, now)
    }

    /// Frames reported since the last statistics reset.
    pub fn total_frames(&self) -> (r: u64)
        ensures
            r == self@.total_frames,
    {
        self.state.total_frames
    }

    /// Failed frames reported since the last statistics reset.
    pub fn dropped_frames(&self) -> (r: u64)
        ensures
            r == self@.dropped_frames,
    {
        self.state.dropped_frames
    }

    /// Resets the frame statistics; the tier is kept.
    pub fn reset_stats(&mut self)
        requires
            old(self).wf(),
        ensures
            final(self).wf(),
            final(self)@ == (QualityState { total_frames: 0, dropped_frames: 0, ..old(self)@ }),
    {
        self.state.total_frames = 0;
        self.state.dropped_frames = 0;
    }
}

} // verus!
