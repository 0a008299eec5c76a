//! Health of the SD card: a score from wear, end-of-life state, I/O errors
//! and temperature, the status derived from it, and the readings taken
//! from the kernel's files.

use vstd::prelude::*;
use crate::textscan::{
    parse_u64, spec_parse_u64, spec_trim, split_whitespace, str_eq, trim, ws_tokens, lines_of, spec_lines,
};

verus! {

/// Overall health of the card.
#[derive(Clone, Copy, Debug, PartialEq, Eq, Structural)]
pub enum HealthStatus {
    Good,
    Fair,
    Warning,
    Fail,
    Unknown,
}

impl HealthStatus {
    /// The status as shown to users.
    pub fn name(&self) -> (r: &'static str)
        ensures
            *self == HealthStatus::Good ==> r@ == "GOOD"@,
            *self == HealthStatus::Fair ==> r@ == "FAIR"@,
            *self == HealthStatus::Warning ==> r@ == "WARNING"@,
            *self == HealthStatus::Fail ==> r@ == "FAIL"@,
            *self == HealthStatus::Unknown ==> r@ == "UNKNOWN"@,
    {
        match self {
            HealthStatus::Good => "GOOD",
            HealthStatus::Fair => "FAIR",
            HealthStatus::Warning => "WARNING",
            HealthStatus::Fail => "FAIL",
            HealthStatus::Unknown => "UNKNOWN",
        }
    }
}

/// End-of-life state reported by the card.
#[derive(Clone, Copy, Debug, PartialEq, Eq, Structural)]
pub enum EolStatus {
    Normal,
    PreEolWarning,
    EndOfLife,
    Unknown,
}

/// A health report. Times are seconds since the Unix epoch.
#[derive(Clone, Copy, Debug)]
pub struct SdHealth {
    pub status: HealthStatus,
    pub wear_level: Option<u8>,
    pub pre_eol_status: Option<EolStatus>,
    pub io_errors: u32,
    pub temperature: Option<i32>,
    pub power_cycles: Option<u32>,
    pub read_count: u64,
    pub write_count: u64,
    pub capacity_bytes: u64,
    pub health_score: u8,
    pub last_check: i64,
    pub next_check: i64,
}

/// I/O errors above which the card fails, and above which it warns.
pub const MAX_IO_ERRORS_THRESHOLD: u32 = 50;
pub const WARNING_IO_ERRORS_THRESHOLD: u32 = 10;

/// Hours a stored report stays valid.
pub const HEALTH_CACHE_TTL_HOURS: i64 = 24;

/// `a - b`, not below zero.
pub open spec fn sat_sub(a: int, b: int) -> int {
    if a >= b { a - b } else { 0 }
}

/// The penalty for the wear level (remaining life in percent): 50 up to
/// 10, 25 up to 30, 10 below 50.
pub open spec fn wear_penalty(wear: Option<u8>) -> int {
    match wear {
        Some(w) => if w <= 10 { 50 } else if w <= 30 { 25 } else if w < 50 { 10 } else { 0 },
        None => 0,
    }
}

/// The penalty for I/O errors: 40 above 100, 25 above 50, 10 above 10,
/// 3 for any.
pub open spec fn io_penalty(io_errors: u32) -> int {
    if io_errors > 100 { 40 } else if io_errors > 50 { 25 } else if io_errors > 10 { 10 } else if io_errors > 0 { 3 } else { 0 }
}

/// The penalty for the temperature: 20 above 70, 10 above 60, 5 above 50.
pub open spec fn temp_penalty(temp: Option<i32>) -> int {
    match temp {
        Some(t) => if t > 70 { 20 } else if t > 60 { 10 } else if t > 50 { 5 } else { 0 },
        None => 0,
    }
}

/// The health score: 0 at end of life; otherwise 100 less 30 for a
/// pre-end-of-life warning and the wear, error and temperature penalties,
/// each taken away in turn and never below zero.
pub open spec fn spec_health_score(wear: Option<u8>, io_errors: u32, temp: Option<i32>, pre_eol: Option<EolStatus>) -> int {
    if pre_eol == Some(EolStatus::EndOfLife) {
        0
    } else {
        let s0 = if pre_eol == Some(EolStatus::PreEolWarning) { 70 } else { 100 };
        sat_sub(sat_sub(sat_sub(s0, wear_penalty(wear)), io_penalty(io_errors)), temp_penalty(temp))
    }
}

/// Computes the health score.
pub fn compute_health_score(wear_level: Option<u8>, io_errors: u32, temp: Option<i32>, pre_eol: Option<EolStatus>) -> (r: u8)
    ensures
        r as int == spec_health_score(wear_level, io_errors, temp, pre_eol),
        r <= 100,
{
    let mut score: u8 = 100;
    if pre_eol == Some(EolStatus::EndOfLife) {
        return 0;
    }
    if pre_eol == Some(EolStatus::PreEolWarning) {
        score = score.saturating_sub(30);
    }
    if let Some(wear) = wear_level {
        if wear <= 10 {
            score = score.saturating_sub(50);
        } else if wear <= 30 {
            score = score.saturating_sub(25);
        } else if wear < 50 {
            score = score.saturating_sub(10);
        }
    }
    if io_errors > 100 {
        score = score.saturating_sub(40);
    } else if io_errors > 50 {
        score = score.saturating_sub(25);
    } else if io_errors > 10 {
        score = score.saturating_sub(10);
    } else if io_errors > 0 {
        score = score.saturating_sub(3);
    }
    if let Some(t) = temp {
        if t > 70 {
            score = score.saturating_sub(20);
        } else if t > 60 {
            score = score.saturating_sub(10);
        } else if t > 50 {
            score = score.saturating_sub(5);
        }
    }
    if score > 100 { 100 } else { score }
}

/// The status for a score: end of life fails and a pre-end-of-life
/// warning warns whatever the score; then more than 50 I/O errors fail and
/// more than 10 warn; then 80 and above is good, 50 and above fair, 20 and
/// above a warning, and below that a failure.
pub open spec fn spec_assess_status(score: u8, io_errors: u32, pre_eol: Option<EolStatus>) -> HealthStatus {
    if pre_eol == Some(EolStatus::EndOfLife) {
        HealthStatus::Fail
    } else if pre_eol == Some(EolStatus::PreEolWarning) {
        HealthStatus::Warning
    } else if io_errors > MAX_IO_ERRORS_THRESHOLD {
        HealthStatus::Fail
    } else if io_errors > WARNING_IO_ERRORS_THRESHOLD {
        HealthStatus::Warning
    } else if 80 <= score <= 100 {
        HealthStatus::Good
    } else if 50 <= score <= 79 {
        HealthStatus::Fair
    } else if 20 <= score <= 49 {
        HealthStatus::Warning
    } else {
        HealthStatus::Fail
    }
}

/// Derives the status.
pub fn assess_status(score: u8, io_errors: u32, pre_eol: Option<EolStatus>) -> (r: HealthStatus)
    ensures
        r == spec_assess_status(score, io_errors, pre_eol),
{
    match pre_eol {
        Some(EolStatus::EndOfLife) => {
            return HealthStatus::Fail;
        },
        Some(EolStatus::PreEolWarning) => {
            return HealthStatus::Warning;
        },
        _ => {},
    }
    if io_errors > MAX_IO_ERRORS_THRESHOLD {
        return HealthStatus::Fail;
    }
    if io_errors > WARNING_IO_ERRORS_THRESHOLD {
        return HealthStatus::Warning;
    }
    if 80 <= score && score <= 100 {
        HealthStatus::Good
    } else if 50 <= score && score <= 79 {
        HealthStatus::Fair
    } else if 20 <= score && score <= 49 {
        HealthStatus::Warning
    } else {
        HealthStatus::Fail
    }
}

/// More I/O errors never raise the score, with the other readings the same.
pub proof fn lemma_score_monotone_in_errors(wear: Option<u8>, e1: u32, e2: u32, temp: Option<i32>, pre_eol: Option<EolStatus>)
    requires
        e1 <= e2,
    ensures
        spec_health_score(wear, e2, temp, pre_eol) <= spec_health_score(wear, e1, temp, pre_eol),
{
}

/// How the readings move the score: a card with nothing to report scores
/// 100 and is good; every score lies in 0..=100; a pre-end-of-life warning
/// caps it at 70 and the status warns; less remaining life (wear) and a
/// higher temperature never raise it.
pub proof fn lemma_score_readings(wear: Option<u8>, io_errors: u32, temp: Option<i32>, pre_eol: Option<EolStatus>,
    w1: u8, w2: u8, t1: i32, t2: i32)
    ensures
        spec_health_score(None, 0, None, None) == 100,
        spec_assess_status(100, 0, None) == HealthStatus::Good,
        0 <= spec_health_score(wear, io_errors, temp, pre_eol) <= 100,
        spec_health_score(wear, io_errors, temp, Some(EolStatus::PreEolWarning)) <= 70,
        spec_assess_status(spec_health_score(wear, io_errors, temp, Some(EolStatus::PreEolWarning)) as u8, io_errors,
            Some(EolStatus::PreEolWarning)) == HealthStatus::Warning,
        w1 <= w2 ==> spec_health_score(Some(w1), io_errors, temp, pre_eol) <= spec_health_score(Some(w2), io_errors, temp, pre_eol),
        t1 <= t2 ==> spec_health_score(wear, io_errors, Some(t2), pre_eol) <= spec_health_score(wear, io_errors, Some(t1), pre_eol),
{
}

/// A card at end of life scores zero and fails.
pub proof fn lemma_end_of_life_fails(wear: Option<u8>, io_errors: u32, temp: Option<i32>)
    ensures
        spec_health_score(wear, io_errors, temp, Some(EolStatus::EndOfLife)) == 0,
        spec_assess_status(0, io_errors, Some(EolStatus::EndOfLife)) == HealthStatus::Fail,
{
}

/// The end-of-life state a sysfs text names.
pub open spec fn spec_eol_from_text(t: Seq<char>) -> EolStatus {
    if t == "1"@ || t == "01"@ || t == "normal"@ {
        EolStatus::Normal
    } else if t == "2"@ || t == "02"@ || t == "pre-eol"@ || t == "warning"@ {
        EolStatus::PreEolWarning
    } else if t == "3"@ || t == "03"@ || t == "eol"@ || t == "end of life"@ {
        EolStatus::EndOfLife
    } else {
        EolStatus::Unknown
    }
}

/// The card's pre-EOL code, in either form (`n` or `0n`), or its name:
/// 1 is normal, 2 a pre-EOL warning, 3 end of life; anything else is unknown.
pub proof fn lemma_eol_codes()
    ensures
        spec_eol_from_text("1"@) == EolStatus::Normal,
        spec_eol_from_text("01"@) == EolStatus::Normal,
        spec_eol_from_text("normal"@) == EolStatus::Normal,
        spec_eol_from_text("2"@) == EolStatus::PreEolWarning,
        spec_eol_from_text("02"@) == EolStatus::PreEolWarning,
        spec_eol_from_text("pre-eol"@) == EolStatus::PreEolWarning,
        spec_eol_from_text("warning"@) == EolStatus::PreEolWarning,
        spec_eol_from_text("3"@) == EolStatus::EndOfLife,
        spec_eol_from_text("03"@) == EolStatus::EndOfLife,
        spec_eol_from_text("eol"@) == EolStatus::EndOfLife,
        spec_eol_from_text("end of life"@) == EolStatus::EndOfLife,
        spec_eol_from_text("0"@) == EolStatus::Unknown,
        spec_eol_from_text("4"@) == EolStatus::Unknown,
        spec_eol_from_text(""@) == EolStatus::Unknown,
{
    reveal_strlit("1");
    reveal_strlit("01");
    reveal_strlit("normal");
    reveal_strlit("2");
    reveal_strlit("02");
    reveal_strlit("pre-eol");
    reveal_strlit("warning");
    reveal_strlit("3");
    reveal_strlit("03");
    reveal_strlit("eol");
    reveal_strlit("end of life");
    reveal_strlit("0");
    reveal_strlit("4");
    reveal_strlit("");
    assert("2"@[0] != "1"@[0]);
    assert("2"@.len() != "01"@.len());
    assert("2"@.len() != "normal"@.len());
    assert("02"@.len() != "1"@.len());
    assert("02"@[1] != "01"@[1]);
    assert("02"@.len() != "normal"@.len());
    assert("pre-eol"@.len() != "1"@.len());
    assert("pre-eol"@.len() != "01"@.len());
    assert("pre-eol"@.len() != "normal"@.len());
    assert("warning"@.len() != "1"@.len());
    assert("warning"@.len() != "01"@.len());
    assert("warning"@.len() != "normal"@.len());
    assert("3"@[0] != "1"@[0]);
    assert("3"@.len() != "01"@.len());
    assert("3"@.len() != "normal"@.len());
    assert("3"@[0] != "2"@[0]);
    assert("3"@.len() != "02"@.len());
    assert("3"@.len() != "pre-eol"@.len());
    assert("3"@.len() != "warning"@.len());
    assert("03"@.len() != "1"@.len());
    assert("03"@[1] != "01"@[1]);
    assert("03"@.len() != "normal"@.len());
    assert("03"@.len() != "2"@.len());
    assert("03"@[1] != "02"@[1]);
    assert("03"@.len() != "pre-eol"@.len());
    assert("03"@.len() != "warning"@.len());
    assert("eol"@.len() != "1"@.len());
    assert("eol"@.len() != "01"@.len());
    assert("eol"@.len() != "normal"@.len());
    assert("eol"@.len() != "2"@.len());
    assert("eol"@.len() != "02"@.len());
    assert("eol"@.len() != "pre-eol"@.len());
    assert("eol"@.len() != "warning"@.len());
    assert("end of life"@.len() != "1"@.len());
    assert("end of life"@.len() != "01"@.len());
    assert("end of life"@.len() != "normal"@.len());
    assert("end of life"@.len() != "2"@.len());
    assert("end of life"@.len() != "02"@.len());
    assert("end of life"@.len() != "pre-eol"@.len());
    assert("end of life"@.len() != "warning"@.len());
    assert("0"@[0] != "1"@[0]);
    assert("0"@.len() != "01"@.len());
    assert("0"@.len() != "normal"@.len());
    assert("0"@[0] != "2"@[0]);
    assert("0"@.len() != "02"@.len());
    assert("0"@.len() != "pre-eol"@.len());
    assert("0"@.len() != "warning"@.len());
    assert("0"@[0] != "3"@[0]);
    assert("0"@.len() != "03"@.len());
    assert("0"@.len() != "eol"@.len());
    assert("0"@.len() != "end of life"@.len());
    assert("4"@[0] != "1"@[0]);
    assert("4"@.len() != "01"@.len());
    assert("4"@.len() != "normal"@.len());
    assert("4"@[0] != "2"@[0]);
    assert("4"@.len() != "02"@.len());
    assert("4"@.len() != "pre-eol"@.len());
    assert("4"@.len() != "warning"@.len());
    assert("4"@[0] != "3"@[0]);
    assert("4"@.len() != "03"@.len());
    assert("4"@.len() != "eol"@.len());
    assert("4"@.len() != "end of life"@.len());
    assert(""@.len() != "1"@.len());
    assert(""@.len() != "01"@.len());
    assert(""@.len() != "normal"@.len());
    assert(""@.len() != "2"@.len());
    assert(""@.len() != "02"@.len());
    assert(""@.len() != "pre-eol"@.len());
    assert(""@.len() != "warning"@.len());
    assert(""@.len() != "3"@.len());
    assert(""@.len() != "03"@.len());
    assert(""@.len() != "eol"@.len());
    assert(""@.len() != "end of life"@.len());
}

/// Reads the end-of-life state from the (already trimmed) sysfs text.
pub fn eol_from_text(t: &str) -> (r: EolStatus)
    ensures
        r == spec_eol_from_text(t@),
{
    if str_eq(t, "1") || str_eq(t, "01") || str_eq(t, "normal") {
        EolStatus::Normal
    } else if str_eq(t, "2") || str_eq(t, "02") || str_eq(t, "pre-eol") || str_eq(t, "warning") {
        EolStatus::PreEolWarning
    } else if str_eq(t, "3") || str_eq(t, "03") || str_eq(t, "eol") || str_eq(t, "end of life") {
        EolStatus::EndOfLife
    } else {
        EolStatus::Unknown
    }
}

/// The wear level of a `life_time` text: its first word as a number, kept
/// to its low eight bits.
pub open spec fn spec_wear_level(text: Seq<char>) -> Option<u8> {
    let words = ws_tokens(text);
    if words.len() == 0 {
        None
    } else {
        match spec_parse_u64(words[0]) {
            Some(v) => Some((v % 256) as u8),
            None => None,
        }
    }
}

/// Reads the wear level.
pub fn wear_level_from_text(text: &str) -> (r: Option<u8>)
    ensures
        r == spec_wear_level(text@),
{
    let chars = crate::text::chars_of(text);
    let words = split_whitespace(chars.as_slice());
    if words.len() == 0 {
        return None;
    }
    assert(words@.map_values(|v: Vec<char>| v@)[0] == words@[0]@);
    match parse_u64(words[0].as_slice()) {
        Some(v) => Some((v % 256) as u8),
        None => None,
    }
}

/// A word read as a number, or 0 when it is not one.
pub open spec fn u64_or_zero(w: Seq<char>) -> u64 {
    match spec_parse_u64(w) {
        Some(v) => v,
        None => 0,
    }
}

/// A word read as a `u32`, or 0 when it is not one.
pub open spec fn u32_or_zero(w: Seq<char>) -> u32 {
    match spec_parse_u64(w) {
        Some(v) => if v <= u32::MAX { v as u32 } else { 0 },
        None => 0,
    }
}

fn word_u64(w: &Vec<char>) -> (r: u64)
    ensures
        r == u64_or_zero(w@),
{
    match parse_u64(w.as_slice()) {
        Some(v) => v,
        None => 0,
    }
}

fn word_u32(w: &Vec<char>) -> (r: u32)
    ensures
        r == u32_or_zero(w@),
{
    match parse_u64(w.as_slice()) {
        Some(v) => if v <= 0xffff_ffffu64 { v as u32 } else { 0 },
        None => 0,
    }
}

/// The read and write error counts of a block device's `stat` text: its
/// fifth and eleventh words, when it has at least fourteen.
pub open spec fn spec_io_errors(text: Seq<char>) -> (u32, u32) {
    let words = ws_tokens(text);
    if words.len() < 14 { (0, 0) } else { (u32_or_zero(words[4]), u32_or_zero(words[10])) }
}

/// Reads the I/O error counts.
pub fn io_errors_from_stat(text: &str) -> (r: (u32, u32))
    ensures
        r == spec_io_errors(text@),
{
    let chars = crate::text::chars_of(text);
    let words = split_whitespace(chars.as_slice());
    if words.len() < 14 {
        return (0, 0);
    }
    assert(words@.map_values(|v: Vec<char>| v@)[4] == words@[4]@);
    assert(words@.map_values(|v: Vec<char>| v@)[10] == words@[10]@);
    (word_u32(&words[4]), word_u32(&words[10]))
}

/// The line of `/proc/diskstats` for the card: at least fourteen words,
/// with the device name third or fourth.
pub open spec fn is_card_line(words: Seq<Seq<char>>) -> bool {
    words.len() >= 14 && (words[2] == "mmcblk0"@ || words[3] == "mmcblk0"@)
}

/// The read and write counts of the first card line from line `i` on.
pub open spec fn diskstats_from(lines: Seq<Seq<char>>, i: int) -> (u64, u64)
    decreases lines.len() - i,
{
    if i < 0 || i >= lines.len() {
        (0, 0)
    } else {
        let words = ws_tokens(lines[i]);
        if is_card_line(words) {
            (u64_or_zero(words[5]), u64_or_zero(words[9]))
        } else {
            diskstats_from(lines, i + 1)
        }
    }
}

/// Reads the card's read and write counts from `/proc/diskstats`.
pub fn diskstats_counts(text: &str) -> (r: (u64, u64))
    ensures
        r == diskstats_from(spec_lines(text@), 0),
{
    let chars = crate::text::chars_of(text);
    let lines = lines_of(chars.as_slice());
    let ghost all = lines@.map_values(|v: Vec<char>| v@);
    let mut k: usize = 0;
    while k < lines.len()
        invariant
            all == lines@.map_values(|v: Vec<char>| v@),
            all == spec_lines(text@),
            k <= all.len(),
            diskstats_from(all, 0) == diskstats_from(all, k as int),
        decreases lines.len() - k,
    {
        let words = split_whitespace(lines[k].as_slice());
        let ghost ws = words@.map_values(|v: Vec<char>| v@);
        assert(all[k as int] == lines@[k as int]@);
        if words.len() >= 14 {
            let w2 = crate::text::string_of(words[2].as_slice());
            let w3 = crate::text::string_of(words[3].as_slice());
            assert(ws[2] == words@[2]@ && ws[3] == words@[3]@ && ws[5] == words@[5]@ && ws[9] == words@[9]@);
            if str_eq(w2.as_str(), "mmcblk0") || str_eq(w3.as_str(), "mmcblk0") {
                return (word_u64(&words[5]), word_u64(&words[9]));
            }
        }
        k = k + 1;
    }
    (0, 0)
}

/// The card's capacity from its size in 512-byte sectors.
pub fn capacity_bytes(sectors: u64) -> (r: u64)
    requires
        sectors <= u64::MAX / 512,
    ensures
        r == sectors * 512,
{
    sectors * 512
}

/// A stored report is used while its age in whole hours (rounded toward
/// zero) is below the time-to-live, that is while it is less than a day
/// old; a report from the future counts as fresh.
pub fn cache_is_fresh(now_secs: i64, cached_secs: i64) -> (r: bool)
    requires
        i64::MIN <= now_secs - cached_secs <= i64::MAX,
    ensures
        r == (now_secs - cached_secs < HEALTH_CACHE_TTL_HOURS * 3600),
{
    let age = now_secs - cached_secs;
    age < HEALTH_CACHE_TTL_HOURS * 3600
}

/// A change of status is logged when the card got worse: to a warning or
/// a failure.
pub fn should_warn(previous: HealthStatus, current: HealthStatus) -> (r: bool)
    ensures
        r == (previous != current && (current == HealthStatus::Warning || current == HealthStatus::Fail)),
{
    previous != current && (current == HealthStatus::Warning || current == HealthStatus::Fail)
}

/// The status shown by the short health endpoint.
#[derive(Clone, Debug)]
pub struct HealthStatusResponse {
    pub status: String,
}

/// The summary shown by the health endpoint.
#[derive(Clone, Debug)]
pub struct HealthResponse {
    pub status: String,
    pub wear_level: Option<u8>,
    pub health_score: u8,
    pub temperature: Option<i32>,
    pub io_errors: u32,
    pub last_check: String,
}

} // verus!
