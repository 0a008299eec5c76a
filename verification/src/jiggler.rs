//! The mouse jiggler: while it is on, it nudges the mouse every fifteen
//! seconds, unless the user was active in that time. Its mode (relative or
//! absolute moves) is the content of its configuration file.

use vstd::prelude::*;
use vstd::string::StringExecFns;
use crate::textscan::{spec_trim, str_eq, trim};

verus! {

/// The file whose presence turns the jiggler on; it holds the mode.
pub const JIGGLER_CONFIG_FILE: &'static str = "/etc/kvm/mouse-jiggler";
/// Time between nudges, and the quiet time that allows one, in milliseconds.
pub const JIGGLER_INTERVAL_MS: u64 = 15000;

/// The jiggler's record of the last user activity, in milliseconds since
/// the Unix epoch by the wall clock. A clock set back makes the quiet time
/// count as zero until it passes the recorded time again.
#[derive(Clone, Copy, Debug)]
pub struct MouseJiggler {
    pub last_activity_ms: u64,
}

/// `a - b`, not below zero.
pub open spec fn sat_sub(a: u64, b: u64) -> u64 {
    if a >= b { (a - b) as u64 } else { 0 }
}

impl MouseJiggler {
    /// A jiggler created at `now_ms` counts as just active, so that it does
    /// not nudge right after start.
    pub fn new_at(now_ms: u64) -> (r: MouseJiggler)
        ensures
            r.last_activity_ms == now_ms,
    {
        MouseJiggler { last_activity_ms: now_ms }
    }

    /// A jiggler created now (by the wall clock).
    pub fn new() -> (r: MouseJiggler) {
        MouseJiggler::new_at(crate::clock::unix_now_millis())
    }

    /// Records user activity at `now_ms`.
    pub fn update_activity_at(&mut self, now_ms: u64)
        ensures
            final(self).last_activity_ms == now_ms,
    {
        self.last_activity_ms = now_ms;
    }

    /// Records user activity now (by the wall clock).
    pub fn update_activity(&mut self) {
        let now = crate::clock::unix_now_millis();
        self.update_activity_at(now);
    }

    /// Whether a nudge is due at `now_ms`: the user has been quiet for a
    /// whole interval.
    pub fn jiggle_due_at(&self, now_ms: u64) -> (r: bool)
        ensures
            r == (sat_sub(now_ms, self.last_activity_ms) >= JIGGLER_INTERVAL_MS),
    {
        let quiet = if now_ms >= self.last_activity_ms { now_ms - self.last_activity_ms } else { 0 };
        quiet >= JIGGLER_INTERVAL_MS
    }
}

/// No nudge comes within an interval after activity.
pub proof fn lemma_no_jiggle_after_activity(j: MouseJiggler, now_ms: u64)
    requires
        now_ms >= j.last_activity_ms,
        now_ms - j.last_activity_ms < JIGGLER_INTERVAL_MS,
    ensures
        !(sat_sub(now_ms, j.last_activity_ms) >= JIGGLER_INTERVAL_MS),
{
}

/// The mode written in the configuration file (trimmed), or `relative`
/// when there is no file.
pub fn mode_from_config(content: Option<&str>) -> (r: String)
    ensures
        content matches Some(c) ==> r@ == spec_trim(c@),
        content is None ==> r@ == "relative"@,
{
    match content {
        Some(c) => {
            let chars = crate::text::chars_of(c);
            crate::text::string_of(trim(chars.as_slice()))
        },
        None => String::from_str("relative"),
    }
}

/// The two mouse reports of a nudge: in absolute mode a jump to one point
/// and to another (6-byte reports); otherwise ten counts right and down,
/// then back (4-byte reports).
pub fn jiggle_reports(mode: &str) -> (r: (Vec<u8>, Vec<u8>))
    ensures
        mode@ == "absolute"@ ==> r.0@ == seq![0x00u8, 0x00u8, 0x3fu8, 0x00u8, 0x3fu8, 0x00u8]
            && r.1@ == seq![0x00u8, 0xffu8, 0x3fu8, 0xffu8, 0x3fu8, 0x00u8],
        mode@ != "absolute"@ ==> r.0@ == seq![0x00u8, 0x0au8, 0x0au8, 0x00u8] && r.1@ == seq![
            0x00u8,
            0xf6u8,
            0xf6u8,
            0x00u8,
        ],
{
    if str_eq(mode, "absolute") {
        let a = vec![0x00u8, 0x00u8, 0x3fu8, 0x00u8, 0x3fu8, 0x00u8];
        let b = vec![0x00u8, 0xffu8, 0x3fu8, 0xffu8, 0x3fu8, 0x00u8];
        assert(a@ =~= seq![0x00u8, 0x00u8, 0x3fu8, 0x00u8, 0x3fu8, 0x00u8]);
        assert(b@ =~= seq![0x00u8, 0xffu8, 0x3fu8, 0xffu8, 0x3fu8, 0x00u8]);
        (a, b)
    } else {
        let a = vec![0x00u8, 0x0au8, 0x0au8, 0x00u8];
        let b = vec![0x00u8, 0xf6u8, 0xf6u8, 0x00u8];
        assert(a@ =~= seq![0x00u8, 0x0au8, 0x0au8, 0x00u8]);
        assert(b@ =~= seq![0x00u8, 0xf6u8, 0xf6u8, 0x00u8]);
        (a, b)
    }
}

} // verus!
