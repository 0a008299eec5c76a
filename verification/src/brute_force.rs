//! Brute-force protection for logins: failed attempts are counted per client
//! address, and an address is locked for the configured duration once it
//! reaches the configured number of failures.

use vstd::prelude::*;
use vstd::string::StringExecFns;
use crate::api::LOCKED;
use crate::strmap::StrMap;

verus! {

/// Most addresses tracked at once; reaching it forgets every record.
pub const MAX_RECORDS: usize = 3000;
/// Seconds after the last failure at which an unlocked record is dropped by cleanup.
pub const IDLE_TTL_SECS: u64 = 1800;
/// Message returned with the `LOCKED` code.
pub const LOCKED_MESSAGE: &'static str = "Account locked due to too many failed attempts, please try again later";

/// Lockout settings.
#[derive(Clone, Copy, Debug)]
pub struct Security {
    /// Lockout duration and failure-counting window, in seconds.
    pub login_lockout_duration: i32,
    /// Failures that trigger a lockout.
    pub login_max_failures: i32,
    /// Whether proxy headers may name the client address.
    pub trust_forwarded_headers: bool,
}

/// Failed-login record of one address.
#[derive(Clone, Copy, Debug, PartialEq, Eq)]
pub struct LoginAttempt {
    pub failures: u32,
    /// Time of the last failure (seconds since the epoch).
    pub last_failed: u64,
    /// End of the lockout (seconds since the epoch), 0 when none.
    pub lockout_end: u64,
}

impl Default for LoginAttempt {
    fn default() -> (r: Self)
        ensures
            r == zero_attempt(),
    {
        LoginAttempt { failures: 0, last_failed: 0, lockout_end: 0 }
    }
}

/// A record with no failures.
pub open spec fn zero_attempt() -> LoginAttempt {
    LoginAttempt { failures: 0, last_failed: 0, lockout_end: 0 }
}

/// Protection is on when both the duration and the failure threshold are positive.
pub open spec fn spec_enabled(sec: Security) -> bool {
    sec.login_lockout_duration > 0 && sec.login_max_failures > 0
}

/// Whether `ip` is locked at `now` in `m`.
pub open spec fn spec_locked(sec: Security, m: Map<Seq<char>, LoginAttempt>, ip: Seq<char>, now: u64) -> bool {
    spec_enabled(sec) && m.contains_key(ip) && m[ip].lockout_end > 0 && now < m[ip].lockout_end
}

/// `x - y`, or 0 when `y > x`.
pub open spec fn sat_sub(x: u64, y: u64) -> u64 {
    if x >= y { (x - y) as u64 } else { 0 }
}

/// `x + y`, or `u64::MAX` when the sum does not fit.
pub open spec fn sat_add(x: u64, y: u64) -> u64 {
    if x + y <= u64::MAX { (x + y) as u64 } else { u64::MAX }
}

/// The records after a failed login from `ip` at `now`, and whether it locks `ip`.
pub open spec fn spec_record_failure(sec: Security, m: Map<Seq<char>, LoginAttempt>, ip: Seq<char>, now: u64)
    -> (Map<Seq<char>, LoginAttempt>, bool)
{
    if !spec_enabled(sec) {
        (m, false)
    } else {
        let base = if m.dom().len() >= MAX_RECORDS { Map::empty() } else { m };
        let a0 = if base.contains_key(ip) { base[ip] } else { zero_attempt() };
        let window = sec.login_lockout_duration as u64;
        let a1 = if a0.last_failed > 0 && sat_sub(now, a0.last_failed) > window {
            LoginAttempt { failures: 0, lockout_end: 0, ..a0 }
        } else {
            a0
        };
        let failures: u32 = if a1.failures < u32::MAX { (a1.failures + 1) as u32 } else { u32::MAX };
        let locked = failures >= sec.login_max_failures as u32;
        let a2 = LoginAttempt {
            failures,
            last_failed: now,
            lockout_end: if locked { sat_add(now, window) } else { a1.lockout_end },
        };
        (base.insert(ip, a2), locked)
    }
}

/// Whether cleanup at `now` keeps a record: a running lockout, or an
/// unlocked record whose last failure is recent.
pub open spec fn spec_keep(a: LoginAttempt, now: u64) -> bool {
    (a.lockout_end > 0 && now < a.lockout_end) || (a.lockout_end == 0 && sat_sub(now, a.last_failed) < IDLE_TTL_SECS)
}

/// A lockout is only ever recorded where the failure count reached the threshold.
pub open spec fn records_consistent(sec: Security, m: Map<Seq<char>, LoginAttempt>) -> bool {
    forall|k: Seq<char>| #[trigger] m.contains_key(k) && m[k].lockout_end > 0
        ==> m[k].failures >= sec.login_max_failures as u32
}

/// The records and the lock verdict after failed logins from `ip` at each of `times`, in order.
pub open spec fn spec_run_failures(sec: Security, m: Map<Seq<char>, LoginAttempt>, ip: Seq<char>, times: Seq<u64>)
    -> (Map<Seq<char>, LoginAttempt>, bool)
    decreases times.len(),
{
    if times.len() == 0 {
        (m, false)
    } else {
        spec_record_failure(sec, spec_run_failures(sec, m, ip, times.drop_last()).0, ip, times.last())
    }
}

/// A failed login reports a lockout exactly when the address is locked right
/// after it (unless the clock stands at its last representable second).
pub proof fn lemma_failure_reports_lock(sec: Security, m: Map<Seq<char>, LoginAttempt>, ip: Seq<char>, now: u64)
    requires
        records_consistent(sec, m),
        now < u64::MAX,
    ensures
        spec_record_failure(sec, m, ip, now).1 == spec_locked(sec, spec_record_failure(sec, m, ip, now).0, ip, now),
        records_consistent(sec, spec_record_failure(sec, m, ip, now).0),
{
}

/// A failure that comes more than the lockout duration after the address's
/// last failure starts a new count: the address's record then holds one
/// failure, at `now`, and with a threshold above one the failure neither
/// reports a lockout nor leaves the address locked.
pub proof fn lemma_stale_failure_restarts_count(sec: Security, m: Map<Seq<char>, LoginAttempt>, ip: Seq<char>, now: u64)
    requires
        spec_enabled(sec),
        m.contains_key(ip),
        m[ip].last_failed > 0,
        now > m[ip].last_failed + sec.login_lockout_duration,
    ensures
        spec_record_failure(sec, m, ip, now).0.contains_key(ip),
        spec_record_failure(sec, m, ip, now).0[ip].failures == 1,
        spec_record_failure(sec, m, ip, now).0[ip].last_failed == now,
        sec.login_max_failures > 1 ==> !spec_record_failure(sec, m, ip, now).1
            && !spec_locked(sec, spec_record_failure(sec, m, ip, now).0, ip, now),
{
}

/// A failure within the lockout duration of the address's last one (or its
/// first) adds one to its count and stamps `now`; it locks the address
/// exactly when the count reaches the threshold, until `now` plus the
/// duration. While the table is below its size limit, the records of other
/// addresses stay as they were.
pub proof fn lemma_failure_counts_within_window(sec: Security, m: Map<Seq<char>, LoginAttempt>, ip: Seq<char>, now: u64)
    requires
        spec_enabled(sec),
        m.dom().len() < MAX_RECORDS,
        m.contains_key(ip) ==> m[ip].last_failed == 0 || now <= m[ip].last_failed + sec.login_lockout_duration,
        m.contains_key(ip) ==> m[ip].failures < u32::MAX,
        now + sec.login_lockout_duration <= u64::MAX,
    ensures
        ({
            let (m2, locked) = spec_record_failure(sec, m, ip, now);
            let before: int = if m.contains_key(ip) { m[ip].failures as int } else { 0 };
            &&& m2.contains_key(ip)
            &&& m2[ip].failures == before + 1
            &&& m2[ip].last_failed == now
            &&& locked == (before + 1 >= sec.login_max_failures)
            &&& locked ==> m2[ip].lockout_end == now + sec.login_lockout_duration
            &&& forall|k: Seq<char>| k != ip ==> (m2.contains_key(k) == m.contains_key(k))
                && (m.contains_key(k) ==> m2[k] == m[k])
        }),
{
}

/// After `clear`, an address is not locked at any time.
pub proof fn lemma_clear_unlocks(sec: Security, m: Map<Seq<char>, LoginAttempt>, ip: Seq<char>, now: u64)
    ensures
        !spec_locked(sec, m.remove(ip), ip, now),
{
}

/// With protection off nothing is ever locked and failures change nothing.
pub proof fn lemma_disabled_never_locks(sec: Security, m: Map<Seq<char>, LoginAttempt>, ip: Seq<char>, now: u64)
    requires
        !spec_enabled(sec),
    ensures
        !spec_locked(sec, m, ip, now),
        spec_record_failure(sec, m, ip, now) == (m, false),
{
}

/// Consecutive failures from a new address, each within the lockout window
/// of the previous one, lock it exactly from the threshold-th failure on,
/// provided the table is not about to overflow.
pub proof fn lemma_failures_lock_at_threshold(sec: Security, m: Map<Seq<char>, LoginAttempt>, ip: Seq<char>, times: Seq<u64>)
    requires
        spec_enabled(sec),
        m.dom().finite(),
        !m.contains_key(ip),
        m.dom().len() + 1 < MAX_RECORDS,
        1 <= times.len() < u32::MAX,
        forall|j: int| 0 < j < times.len() ==> #[trigger] sat_sub(times[j], times[j - 1]) <= sec.login_lockout_duration as u64,
    ensures
        spec_run_failures(sec, m, ip, times).1 == (times.len() >= sec.login_max_failures as u32),
        spec_run_failures(sec, m, ip, times).0.contains_key(ip),
        spec_run_failures(sec, m, ip, times).0[ip].failures == times.len(),
        spec_run_failures(sec, m, ip, times).0[ip].last_failed == times.last(),
        spec_run_failures(sec, m, ip, times).0.dom().finite(),
        spec_run_failures(sec, m, ip, times).0.dom().len() == m.dom().len() + 1,
    decreases times.len(),
{
    let p = times.drop_last();
    if times.len() == 1 {
        assert(p.len() == 0);
        assert(spec_run_failures(sec, m, ip, p) == (m, false));
        assert(m.insert(ip, LoginAttempt { failures: 1, last_failed: times.last(), lockout_end: 0 }).dom() =~= m.dom().insert(ip));
    } else {
        assert forall|j: int| 0 < j < p.len() implies #[trigger] sat_sub(p[j], p[j - 1]) <= sec.login_lockout_duration as u64 by {
            assert(sat_sub(times[j], times[j - 1]) <= sec.login_lockout_duration as u64);
        }
        lemma_failures_lock_at_threshold(sec, m, ip, p);
        let prev = spec_run_failures(sec, m, ip, p).0;
        assert(sat_sub(times[times.len() - 1], times[times.len() - 2]) <= sec.login_lockout_duration as u64);
        assert(p.last() == times[times.len() - 2]);
        let r = spec_record_failure(sec, prev, ip, times.last()).0;
        assert(r.dom() =~= prev.dom().insert(ip));
        assert(prev.dom().insert(ip) =~= prev.dom());
    }
}

/// Failed-login bookkeeping per client address.
pub struct BruteForce {
    attempts: StrMap<LoginAttempt>,
    security: Security,
}

impl BruteForce {
    /// The records by address.
    pub closed spec fn view(&self) -> Map<Seq<char>, LoginAttempt> {
        self.attempts.view()
    }

    /// The settings.
    pub closed spec fn settings(&self) -> Security {
        self.security
    }

    /// Internal consistency: distinct keys, at most `MAX_RECORDS` records, and a
    /// lockout only where the failure count reached the threshold.
    pub closed spec fn wf(&self) -> bool {
        &&& self.attempts.wf()
        &&& self.attempts.view().dom().finite()
        &&& self.attempts.view().dom().len() <= MAX_RECORDS
        &&& records_consistent(self.security, self.attempts.view())
    }

    /// A tracker with no records.
    pub fn new(security: Security) -> (r: Self)
        ensures
            r.wf(),
            r@ == Map::<Seq<char>, LoginAttempt>::empty(),
            r.settings() == security,
    {
        BruteForce { attempts: StrMap::new(), security }
    }

    /// Whether protection is on.
    pub fn is_enabled(&self) -> (r: bool)
        ensures
            r == spec_enabled(self.settings()),
    {
        self.security.login_lockout_duration > 0 && self.security.login_max_failures > 0
    }

    /// The lock error if `ip` is locked at `now`.
    pub fn check_at(&self, ip: &str, now: u64) -> (r: Option<(i32, String)>)
        requires
            self.wf(),
        ensures
            r is Some <==> spec_locked(self.settings(), self@, ip@, now),
            r matches Some(e) ==> e.0 == LOCKED && e.1@ == LOCKED_MESSAGE@,
    {
        if !self.is_enabled() {
            return None;
        }
        let key = String::from_str(ip);
        match self.attempts.get(&key) {
            Some(a) => {
                if a.lockout_end > 0 && now < a.lockout_end {
                    Some((LOCKED, String::from_str(LOCKED_MESSAGE)))
                } else {
                    None
                }
            },
            None => None,
        }
    }

    /// The lock error if `ip` is locked now (by the system clock).
    pub fn check(&self, ip: &str) -> (r: Option<(i32, String)>)
        requires
            self.wf(),
        ensures
            exists|now: u64| (r is Some <==> spec_locked(self.settings(), self@, ip@, now)),
            r matches Some(e) ==> e.0 == LOCKED && e.1@ == LOCKED_MESSAGE@,
    {
        let now = crate::clock::unix_now_secs();
        self.check_at(ip, now)
    }

    /// Records a failed login from `ip` at `now`; returns the lock error when
    /// this failure locks the address.
    pub fn record_failure_at(&mut self, ip: &str, now: u64) -> (r: Option<(i32, String)>)
        requires
            old(self).wf(),
        ensures
            final(self).wf(),
            final(self).settings() == old(self).settings(),
            final(self)@ == spec_record_failure(old(self).settings(), old(self)@, ip@, now).0,
            r is Some <==> spec_record_failure(old(self).settings(), old(self)@, ip@, now).1,
            r matches Some(e) ==> e.0 == LOCKED && e.1@ == LOCKED_MESSAGE@,
    {
        if !self.is_enabled() {
            return None;
        }
        let window = self.security.login_lockout_duration as u64;
        let max_failures = self.security.login_max_failures as u32;
        if self.attempts.len() >= MAX_RECORDS {
            self.attempts.clear();
        }
        let key = String::from_str(ip);
        let mut a = match self.attempts.get(&key) {
            Some(a) => a,
            None => LoginAttempt::default(),
        };
        if a.last_failed > 0 && now.saturating_sub(a.last_failed) > window {
            a.failures = 0;
            a.lockout_end = 0;
        }
        a.failures = a.failures.saturating_add(1);
        a.last_failed = now;
        let locked = a.failures >= max_failures;
        if locked {
            a.lockout_end = now.saturating_add(window);
        }
        let ghost before = self.attempts.view();
        self.attempts.insert(&key, a);
        proof {
            if before.contains_key(ip@) {
                assert(before.dom().insert(ip@) =~= before.dom());
            }
            assert(self.attempts.view().dom() =~= before.dom().insert(ip@));
        }
        if locked {
            Some((LOCKED, String::from_str(LOCKED_MESSAGE)))
        } else {
            None
        }
    }

    /// Records a failed login from `ip` now (by the system clock).
    pub fn record_failure(&mut self, ip: &str) -> (r: Option<(i32, String)>)
        requires
            old(self).wf(),
        ensures
            final(self).wf(),
            final(self).settings() == old(self).settings(),
            exists|now: u64| {
                &&& final(self)@ == spec_record_failure(old(self).settings(), old(self)@, ip@, now).0
                &&& (r is Some <==> spec_record_failure(old(self).settings(), old(self)@, ip@, now).1)
            },
            r matches Some(e) ==> e.0 == LOCKED && e.1@ == LOCKED_MESSAGE@,
    {
        let now = crate::clock::unix_now_secs();
        self.record_failure_at(ip, now)
    }

    /// Forgets the record of `ip` (after a successful login); does nothing when protection is off.
    pub fn clear(&mut self, ip: &str)
        requires
            old(self).wf(),
        ensures
            final(self).wf(),
            final(self).settings() == old(self).settings(),
            final(self)@ == (if spec_enabled(old(self).settings()) { old(self)@.remove(ip@) } else { old(self)@ }),
    {
        if !self.is_enabled() {
            return;
        }
        let key = String::from_str(ip);
        let ghost before = self.attempts.view();
        self.attempts.remove(&key);
        proof {
            assert(self.attempts.view().dom() =~= before.dom().remove(ip@));
            if before.contains_key(ip@) {
                assert(before.dom().remove(ip@).len() == before.dom().len() - 1);
            } else {
                assert(before.dom().remove(ip@) =~= before.dom());
            }
        }
    }

    /// Periodic cleanup at `now`: drops expired lockouts and idle records, and
    /// forgets everything if more than `MAX_RECORDS` records remain.
    pub fn cleanup_at(&mut self, now: u64)
        requires
            old(self).wf(),
        ensures
            final(self).wf(),
            final(self).settings() == old(self).settings(),
            ({
                let kept = old(self)@.restrict(old(self)@.dom().filter(|k: Seq<char>| spec_keep(old(self)@[k], now)));
                final(self)@ == (if kept.dom().len() > MAX_RECORDS { Map::empty() } else { kept })
            }),
    {
        let ghost before = self.attempts.view();
        let ghost keep = |a: LoginAttempt| spec_keep(a, now);
        let f = |a: LoginAttempt| -> (b: bool)
            ensures
                b == spec_keep(a, now),
        {
            (a.lockout_end > 0 && now < a.lockout_end) || (a.lockout_end == 0 && now.saturating_sub(a.last_failed) < IDLE_TTL_SECS)
        };
        self.attempts.retain(f, Ghost(keep));
        proof {
            let kept = before.restrict(before.dom().filter(|k: Seq<char>| spec_keep(before[k], now)));
            assert(before.dom().filter(|k: Seq<char>| keep(before[k]))
                =~= before.dom().filter(|k: Seq<char>| spec_keep(before[k], now)));
            assert(self.attempts.view() == kept);
            assert(kept.dom() =~= before.dom().filter(|k: Seq<char>| spec_keep(before[k], now)));
            assert(kept.dom().subset_of(before.dom()));
            vstd::set_lib::lemma_len_subset(kept.dom(), before.dom());
        }
        if self.attempts.len() > MAX_RECORDS {
            self.attempts.clear();
        }
    }
}

} // verus!
