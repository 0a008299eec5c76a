//! Passkey enrolment and recovery: the stored records, pending challenges
//! with their lifetime, recovery codes (generation, rate-limited use) and
//! the QR code that carries an enrolment link.

use vstd::prelude::*;
use vstd::string::{StringExecFns, StrSliceExecFns};
use crate::b64::{base64_encode, spec_base64_encode};
use crate::cose::CoseKey;
use crate::strmap::StrMap;
use crate::textscan::{
    contains_sub, dec_string, find_char, find_sub, first_index, has_sub, lemma_find_from_found, lemma_first_index,
    spec_dec, spec_find_sub, spec_trim, starts_with, starts_with_str, str_eq, trim,
};

verus! {

pub const PASSKEYS_FILE: &'static str = "/etc/kvm/passkeys.json";
pub const RECOVERY_CODES_FILE: &'static str = "/etc/kvm/recovery_codes.json";

/// A registered passkey. Times are seconds since the Unix epoch.
#[derive(Clone, Debug)]
pub struct PasskeyCredential {
    pub id: String,
    pub public_key: CoseKey,
    pub counter: u32,
    pub transports: Vec<String>,
    pub created: i64,
    pub device_name: Option<String>,
    pub rp_id: String,
}

/// The registered passkeys.
#[derive(Clone, Debug)]
pub struct PasskeyStorage {
    pub credentials: Vec<PasskeyCredential>,
    pub updated_at: i64,
}

/// A recovery code and whether it was used.
#[derive(Clone, Debug)]
pub struct RecoveryCode {
    pub code: String,
    pub used: bool,
}

/// The recovery codes, created at a time in seconds since the Unix epoch.
#[derive(Clone, Debug)]
pub struct RecoveryStorage {
    pub codes: Vec<RecoveryCode>,
    pub created: i64,
}

#[derive(Clone, Debug)]
pub struct PasskeyResponse {
    pub id: String,
    pub raw_id: String,
    pub type_field: String,
    pub response: AttestationResponse,
    pub client_extension_results: ClientExtensionResults,
}

#[derive(Clone, Debug)]
pub struct AttestationResponse {
    pub client_data_json: String,
    pub attestation_object: Option<String>,
    pub authenticator_data: Option<String>,
    pub signature: Option<String>,
}

#[derive(Clone, Copy, Debug)]
pub struct ClientExtensionResults {}

#[derive(Clone, Debug)]
pub struct LoginChallengeResponse {
    pub challenge: String,
    pub challenge_id: String,
    pub rp_id: String,
    pub timeout: u32,
}

#[derive(Clone, Debug)]
pub struct SetupResponse {
    pub success: bool,
    pub funnel_url: String,
    pub enrollment_url: String,
    pub qr_code: String,
    pub expires_at: String,
    pub challenge_id: String,
    pub setup_token: String,
}

#[derive(Clone, Debug)]
pub struct VerifyResponse {
    pub success: bool,
    pub token: Option<String>,
    pub requires_password_change: Option<bool>,
    pub error: Option<String>,
}

#[derive(Clone, Debug)]
pub struct RecoverResponse {
    pub success: bool,
    pub token: Option<String>,
    pub remaining_codes: Option<u32>,
    pub error: Option<String>,
}

#[derive(Clone, Debug)]
pub struct RecoveryCodesResponse {
    pub success: bool,
    pub codes: Vec<String>,
}

#[derive(Clone, Debug)]
pub struct PasskeySetupRequest {
    pub device_name: Option<String>,
}

/// What the passkey page can offer.
#[derive(Clone, Debug)]
pub struct Capabilities {
    pub tailscale_installed: bool,
    pub tailscale_connected: bool,
    pub tailscale_funnel_active: bool,
    pub funnel_url: Option<String>,
    pub passkey_configured: bool,
    pub passkey_reason: Option<String>,
}

#[derive(Clone, Debug)]
pub struct QrQuery {
    pub text: String,
}

/// Whether passkey login is available, and why not: it needs an active
/// Funnel, then a registered passkey.
pub fn passkey_availability(funnel_active: bool, passkey_exists: bool) -> (r: (bool, Option<String>))
    ensures
        !funnel_active ==> !r.0 && (r.1 matches Some(m) && m@ == "funnel_not_active"@),
        funnel_active && !passkey_exists ==> !r.0 && (r.1 matches Some(m) && m@ == "no_passkey_configured"@),
        funnel_active && passkey_exists ==> r.0 && r.1 is None,
{
    if !funnel_active {
        (false, Some(String::from_str("funnel_not_active")))
    } else if !passkey_exists {
        (false, Some(String::from_str("no_passkey_configured")))
    } else {
        (true, None)
    }
}

/// Lifetime of a challenge, in seconds (five minutes).
pub const CHALLENGE_TTL_SECS: i64 = 300;

/// A challenge waiting for its answer. Times are seconds since the Unix epoch.
#[derive(Clone, Debug)]
pub struct PendingChallenge {
    pub challenge_id: String,
    pub challenge: String,
    pub user_id: Vec<u8>,
    pub created_at: i64,
    pub expires_at: i64,
    pub is_enrollment: bool,
    pub rp_id: String,
    pub credential_id: Option<String>,
    pub setup_token: String,
}

impl PendingChallenge {
    /// Whether the challenge has expired at `now`.
    pub fn is_expired_at(&self, now: i64) -> (r: bool)
        ensures
            r == (now >= self.expires_at),
    {
        now >= self.expires_at
    }

    /// An enrolment challenge created at `now`.
    pub fn new_enrollment(
        challenge_id: String,
        challenge: String,
        user_id: Vec<u8>,
        rp_id: String,
        credential_id: Option<String>,
        setup_token: String,
        now: i64,
    ) -> (r: PendingChallenge)
        requires
            now <= i64::MAX - CHALLENGE_TTL_SECS,
        ensures
            r.is_enrollment,
            r.created_at == now,
            r.expires_at == now + CHALLENGE_TTL_SECS,
            r.challenge_id == challenge_id && r.challenge == challenge && r.user_id == user_id
                && r.rp_id == rp_id && r.credential_id == credential_id && r.setup_token == setup_token,
    {
        PendingChallenge {
            challenge_id,
            challenge,
            user_id,
            created_at: now,
            expires_at: now + CHALLENGE_TTL_SECS,
            is_enrollment: true,
            rp_id,
            credential_id,
            setup_token,
        }
    }

    /// A login challenge created at `now`: no user id and no setup token.
    pub fn new_login(challenge_id: String, challenge: String, rp_id: String, credential_id: Option<String>, now: i64) -> (r: PendingChallenge)
        requires
            now <= i64::MAX - CHALLENGE_TTL_SECS,
        ensures
            !r.is_enrollment,
            r.created_at == now,
            r.expires_at == now + CHALLENGE_TTL_SECS,
            r.user_id@.len() == 0,
            r.setup_token@.len() == 0,
            r.challenge_id == challenge_id && r.challenge == challenge && r.rp_id == rp_id && r.credential_id == credential_id,
    {
        proof {
            reveal_strlit("");
        }
        PendingChallenge {
            challenge_id,
            challenge,
            user_id: Vec::new(),
            created_at: now,
            expires_at: now + CHALLENGE_TTL_SECS,
            is_enrollment: false,
            rp_id,
            credential_id,
            setup_token: String::from_str(""),
        }
    }
}

/// `t` is a UUID in its hyphenated lower-case text form
/// (`xxxxxxxx-xxxx-xxxx-xxxx-xxxxxxxxxxxx`, hexadecimal digits).
pub open spec fn is_hyphenated_uuid(t: Seq<char>) -> bool {
    &&& t.len() == 36
    &&& t[8] == '-' && t[13] == '-' && t[18] == '-' && t[23] == '-'
    &&& forall|i: int| 0 <= i < 36 && i != 8 && i != 13 && i != 18 && i != 23
        ==> "0123456789abcdef"@.contains(#[trigger] t[i])
}

/// `uuid::Uuid::new_v4().to_string()`: a random version 4 UUID, written in
/// its hyphenated lower-case form. Which UUID comes out is not stated.
#[verifier::external_body]
fn uuid_v4_text() -> (r: String)
    ensures
        is_hyphenated_uuid(r@),
{
    uuid::Uuid::new_v4().to_string()
}

/// Thirty-two random bytes from the thread's generator (`rand::Rng::fill`).
/// Which bytes come out is not stated.
#[verifier::external_body]
fn generate_random_challenge() -> (r: Vec<u8>)
    ensures
        r@.len() == 32,
{
    let mut challenge = [0u8; 32];
    rand::Rng::fill(&mut rand::thread_rng(), &mut challenge);
    challenge.to_vec()
}

/// A fresh random challenge of thirty-two bytes.
pub fn new_challenge_bytes() -> (r: Vec<u8>)
    ensures
        r@.len() == 32,
{
    generate_random_challenge()
}

/// The user handle passkeys are registered under: the administrator's.
pub fn generate_user_id() -> (r: Vec<u8>)
    ensures
        r@ == seq![97u8, 100u8, 109u8, 105u8, 110u8],
{
    vec![97u8, 100u8, 109u8, 105u8, 110u8]
}

/// A clock reading usable as a challenge time: not before the epoch, and
/// low enough that adding the challenge lifetime cannot overflow.
pub open spec fn challenge_time_ok(now: i64) -> bool {
    0 <= now <= i64::MAX - CHALLENGE_TTL_SECS
}

/// The present time in seconds since the Unix epoch, as a challenge time:
/// kept low enough that adding the challenge lifetime cannot overflow.
fn challenge_clock() -> (r: i64)
    ensures
        challenge_time_ok(r),
{
    let now = crate::clock::unix_now_secs();
    if now > (i64::MAX - CHALLENGE_TTL_SECS) as u64 {
        i64::MAX - CHALLENGE_TTL_SECS
    } else {
        now as i64
    }
}

impl PendingChallenge {
    /// Whether the challenge has expired now.
    pub fn is_expired(&self) -> (r: bool)
        ensures
            exists|now: i64| #[trigger] challenge_time_ok(now) && r == (now >= self.expires_at),
    {
        let now = challenge_clock();
        let r = self.is_expired_at(now);
        assert(challenge_time_ok(now) && r == (now >= self.expires_at));
        r
    }
}

/// The passkey state of the server: the one pending challenge, and the
/// recovery codes of the last enrolment, shown once.
pub struct PasskeyState {
    pub pending_challenge: Option<PendingChallenge>,
    pub pending_recovery_codes: Option<Vec<String>>,
}

impl PasskeyState {
    /// No challenge and no codes pending.
    pub fn new() -> (r: PasskeyState)
        ensures
            r.pending_challenge is None,
            r.pending_recovery_codes is None,
    {
        PasskeyState { pending_challenge: None, pending_recovery_codes: None }
    }

    /// A new challenge id: a random UUID in its hyphenated form.
    pub fn generate_challenge_id() -> (r: String)
        ensures
            is_hyphenated_uuid(r@),
    {
        uuid_v4_text()
    }

    /// An enrolment challenge that starts now and lives five minutes.
    pub fn new_enrollment_challenge(
        &self,
        challenge_id: String,
        challenge: String,
        user_id: Vec<u8>,
        rp_id: String,
        credential_id: Option<String>,
        setup_token: String,
    ) -> (r: PendingChallenge)
        ensures
            r.is_enrollment,
            r.expires_at == r.created_at + CHALLENGE_TTL_SECS,
            r.challenge_id == challenge_id && r.challenge == challenge && r.user_id == user_id
                && r.rp_id == rp_id && r.credential_id == credential_id && r.setup_token == setup_token,
    {
        let now = challenge_clock();
        PendingChallenge::new_enrollment(challenge_id, challenge, user_id, rp_id, credential_id, setup_token, now)
    }

    /// A login challenge that starts now and lives five minutes.
    pub fn new_login_challenge(
        &self,
        challenge_id: String,
        challenge: String,
        rp_id: String,
        credential_id: Option<String>,
    ) -> (r: PendingChallenge)
        ensures
            !r.is_enrollment,
            r.expires_at == r.created_at + CHALLENGE_TTL_SECS,
            r.user_id@.len() == 0,
            r.setup_token@.len() == 0,
            r.challenge_id == challenge_id && r.challenge == challenge && r.rp_id == rp_id && r.credential_id == credential_id,
    {
        let now = challenge_clock();
        PendingChallenge::new_login(challenge_id, challenge, rp_id, credential_id, now)
    }
}

impl Default for PasskeyState {
    fn default() -> (r: PasskeyState)
        ensures
            r.pending_challenge is None,
            r.pending_recovery_codes is None,
    {
        PasskeyState::new()
    }
}

// ---------------------------------------------------------------------------
// Recovery codes.
// ---------------------------------------------------------------------------

/// Length of the window in which recovery attempts are counted, in seconds.
pub const RATE_LIMIT_WINDOW_SECONDS: u64 = 900;

/// Recovery attempts allowed per window.
pub const MAX_ATTEMPTS_PER_WINDOW: u8 = 5;

/// The recovery attempts of one address.
#[derive(Clone, Copy, Debug)]
pub struct RateLimitState {
    pub last_attempt: u64,
    pub attempts: u8,
}

/// The recovery attempts of every address.
pub struct RateLimitStore {
    pub by_ip: StrMap<RateLimitState>,
}

/// `a - b`, not below zero.
pub open spec fn sat_sub(a: u64, b: u64) -> u64 {
    if a >= b { (a - b) as u64 } else { 0 }
}

/// The decision on a recovery attempt from an address with record `e` (a
/// fresh record when there is none) at `now`: after a quiet window a new
/// window starts with this attempt; within the window the attempt counts
/// while fewer than the allowed number were made; otherwise it is refused
/// and nothing changes.
pub open spec fn spec_rate_step(e: Option<RateLimitState>, now: u64) -> (bool, Option<RateLimitState>) {
    let cur = match e { Some(s) => s, None => RateLimitState { last_attempt: 0, attempts: 0 } };
    if sat_sub(now, cur.last_attempt) > RATE_LIMIT_WINDOW_SECONDS {
        (true, Some(RateLimitState { last_attempt: now, attempts: 1 }))
    } else if cur.attempts < MAX_ATTEMPTS_PER_WINDOW {
        (true, Some(RateLimitState { last_attempt: cur.last_attempt, attempts: (cur.attempts + 1) as u8 }))
    } else {
        (false, Some(cur))
    }
}

impl RateLimitStore {
    /// A store with no attempts.
    pub fn new() -> (r: RateLimitStore)
        ensures
            r.by_ip.wf(),
            r.by_ip@ == Map::<Seq<char>, RateLimitState>::empty(),
    {
        RateLimitStore { by_ip: StrMap::new() }
    }

    /// Counts a recovery attempt from `ip` at `now`; tells whether it is allowed.
    pub fn check_rate_limit_at(&mut self, ip: &str, now: u64) -> (allowed: bool)
        requires
            old(self).by_ip.wf(),
        ensures
            final(self).by_ip.wf(),
            ({
                let e = if old(self).by_ip@.contains_key(ip@) { Some(old(self).by_ip@[ip@]) } else { None };
                let (ok, next) = spec_rate_step(e, now);
                &&& allowed == ok
                &&& final(self).by_ip@ == old(self).by_ip@.insert(ip@, next->Some_0)
            }),
    {
        let key = String::from_str(ip);
        let cur = match self.by_ip.get(&key) {
            Some(s) => s,
            None => RateLimitState { last_attempt: 0, attempts: 0 },
        };
        let elapsed = if now >= cur.last_attempt { now - cur.last_attempt } else { 0 };
        if elapsed > RATE_LIMIT_WINDOW_SECONDS {
            self.by_ip.insert(&key, RateLimitState { last_attempt: now, attempts: 1 });
            return true;
        }
        if cur.attempts < MAX_ATTEMPTS_PER_WINDOW {
            self.by_ip.insert(&key, RateLimitState { last_attempt: cur.last_attempt, attempts: cur.attempts + 1 });
            return true;
        }
        self.by_ip.insert(&key, cur);
        false
    }

    /// How long `ip` must wait, in seconds, before its window ends.
    pub fn wait_time_at(&self, ip: &str, now: u64) -> (r: u64)
        requires
            self.by_ip.wf(),
        ensures
            self.by_ip@.contains_key(ip@) ==> r == sat_sub(RATE_LIMIT_WINDOW_SECONDS, sat_sub(now, self.by_ip@[ip@].last_attempt)),
            !self.by_ip@.contains_key(ip@) ==> r == 0,
    {
        let key = String::from_str(ip);
        match self.by_ip.get(&key) {
            Some(s) => {
                let elapsed = if now >= s.last_attempt { now - s.last_attempt } else { 0 };
                if RATE_LIMIT_WINDOW_SECONDS >= elapsed { RATE_LIMIT_WINDOW_SECONDS - elapsed } else { 0 }
            },
            None => 0,
        }
    }
}

/// Within a window, an address that used all its attempts is refused, and
/// its record stays as it was.
pub proof fn lemma_rate_limit_refuses_when_spent(s: RateLimitState, now: u64)
    requires
        sat_sub(now, s.last_attempt) <= RATE_LIMIT_WINDOW_SECONDS,
        s.attempts >= MAX_ATTEMPTS_PER_WINDOW,
    ensures
        spec_rate_step(Some(s), now) == (false, Some(s)),
{
}

/// The message shown when the attempts are spent.
pub fn rate_limit_message(wait_secs: u64) -> (r: String)
    ensures
        r@ == "Too many attempts. Please wait "@ + spec_dec(wait_secs as nat) + " seconds."@,
{
    let mut s = String::from_str("Too many attempts. Please wait ");
    let n = dec_string(wait_secs);
    s.append(n.as_str());
    s.append(" seconds.");
    s
}

/// `s` without dashes.
pub open spec fn strip_dashes(s: Seq<char>) -> Seq<char> {
    s.filter(|c: char| c != '-')
}

fn strip_dashes_exec(s: &[char]) -> (r: Vec<char>)
    ensures
        r@ == strip_dashes(s@),
{
    let mut out: Vec<char> = Vec::new();
    let mut k: usize = 0;
    while k < s.len()
        invariant
            k <= s@.len(),
            out@ == s@.subrange(0, k as int).filter(|c: char| c != '-'),
        decreases s.len() - k,
    {
        proof {
            reveal(Seq::filter);
            assert(s@.subrange(0, k + 1).drop_last() =~= s@.subrange(0, k as int));
        }
        if s[k] != '-' {
            out.push(s[k]);
        }
        k = k + 1;
    }
    assert(s@.subrange(0, s@.len() as int) =~= s@);
    out
}

/// A code as typed, normalised: trimmed, in upper case, without dashes.
pub open spec fn spec_normalize_code(input: Seq<char>) -> Seq<char> {
    strip_dashes(crate::network::spec_to_uppercase(spec_trim(input)))
}

/// Normalises a code as typed.
pub fn normalize_code(input: &str) -> (r: Vec<char>)
    ensures
        r@ == spec_normalize_code(input@),
{
    let chars = crate::text::chars_of(input);
    let t = crate::text::string_of(trim(chars.as_slice()));
    let upper = crate::network::to_uppercase(t.as_str());
    let uc = crate::text::chars_of(upper.as_str());
    strip_dashes_exec(uc.as_slice())
}

/// Code `c` matches a normalised input: unused, and equal without dashes.
pub open spec fn code_matches(c: RecoveryCode, input: Seq<char>) -> bool {
    !c.used && strip_dashes(c.code@) == input
}

/// Uses the first unused code that matches a normalised input: it is
/// marked used. Returns whether one matched and how many unused codes are
/// left afterwards.
pub fn consume_code(codes: &mut Vec<RecoveryCode>, normalized_input: &Vec<char>) -> (r: (bool, u32))
    requires
        old(codes)@.len() <= u32::MAX,
    ensures
        r.0 == exists|i: int| 0 <= i < old(codes)@.len() && code_matches(#[trigger] old(codes)@[i], normalized_input@),
        r.1 as nat == unused_codes(final(codes)@).len(),
        final(codes)@.len() == old(codes)@.len(),
        r.0 ==> exists|i: int| 0 <= i < old(codes)@.len() && code_matches(#[trigger] old(codes)@[i], normalized_input@)
            && (forall|j: int| 0 <= j < i ==> !code_matches(old(codes)@[j], normalized_input@))
            && final(codes)@[i].used && final(codes)@[i].code == old(codes)@[i].code
            && (forall|j: int| 0 <= j < old(codes)@.len() && j != i ==> final(codes)@[j] == old(codes)@[j]),
        !r.0 ==> final(codes)@ == old(codes)@,
{
    let ghost orig = codes@;
    let input = crate::text::string_of(normalized_input.as_slice());
    let mut found: Option<usize> = None;
    let mut k: usize = 0;
    while k < codes.len()
        invariant
            codes@ == orig,
            orig.len() <= u32::MAX,
            input@ == normalized_input@,
            k <= orig.len(),
            found matches Some(f) ==> f < k && code_matches(orig[f as int], normalized_input@)
                && forall|j: int| 0 <= j < f ==> !code_matches(orig[j], normalized_input@),
            found is None ==> forall|j: int| 0 <= j < k ==> !code_matches(orig[j], normalized_input@),
        decreases codes.len() - k,
    {
        let chars = crate::text::chars_of(codes[k].code.as_str());
        let stripped = crate::text::string_of(strip_dashes_exec(chars.as_slice()).as_slice());
        let matches = !codes[k].used && str_eq(stripped.as_str(), input.as_str());
        if matches && found.is_none() {
            found = Some(k);
        }
        k = k + 1;
    }
    let hit = match found {
        Some(i) => {
            let c = RecoveryCode { code: codes[i].code.clone(), used: true };
            codes.set(i, c);
            true
        },
        None => false,
    };
    (hit, count_unused(codes))
}

/// A recovery code works once: once a successful recovery has marked the
/// code it used, that code no longer matches, and a second recovery with
/// the same input can only use a later code.
pub proof fn lemma_recovery_code_single_use(before: Seq<RecoveryCode>, after: Seq<RecoveryCode>, input: Seq<char>, i: int)
    requires
        0 <= i < before.len(),
        code_matches(before[i], input),
        forall|j: int| 0 <= j < i ==> !code_matches(before[j], input),
        after.len() == before.len(),
        after[i].used,
        after[i].code == before[i].code,
        forall|j: int| 0 <= j < before.len() && j != i ==> after[j] == before[j],
    ensures
        !code_matches(after[i], input),
        forall|j: int| 0 <= j < after.len() && code_matches(#[trigger] after[j], input) ==> j > i,
{
    assert forall|j: int| 0 <= j < after.len() && code_matches(#[trigger] after[j], input) implies j > i by {
        if j < i {
            assert(after[j] == before[j]);
        }
    }
}

/// The codes that were not used, in order.
pub open spec fn unused_codes(codes: Seq<RecoveryCode>) -> Seq<Seq<char>>
    decreases codes.len(),
{
    if codes.len() == 0 {
        Seq::empty()
    } else {
        unused_codes(codes.drop_last()) + if codes.last().used { Seq::empty() } else { seq![codes.last().code@] }
    }
}

/// The codes to show: those not used yet.
pub fn format_recovery_codes_for_display(storage: &RecoveryStorage) -> (r: Vec<String>)
    ensures
        r@.map_values(|s: String| s@) == unused_codes(storage.codes@),
{
    let mut out: Vec<String> = Vec::new();
    let mut k: usize = 0;
    while k < storage.codes.len()
        invariant
            k <= storage.codes@.len(),
            out@.map_values(|s: String| s@) == unused_codes(storage.codes@.subrange(0, k as int)),
        decreases storage.codes.len() - k,
    {
        assert(storage.codes@.subrange(0, k + 1).drop_last() =~= storage.codes@.subrange(0, k as int));
        let ghost before = out@.map_values(|s: String| s@);
        if !storage.codes[k].used {
            out.push(storage.codes[k].code.clone());
            assert(out@.map_values(|s: String| s@) =~= before + seq![storage.codes@[k as int].code@]);
        } else {
            assert(out@.map_values(|s: String| s@) =~= before + Seq::<Seq<char>>::empty());
        }
        k = k + 1;
    }
    assert(storage.codes@.subrange(0, storage.codes@.len() as int) =~= storage.codes@);
    out
}

/// How many codes are not used.
pub fn remaining_codes_count(storage: &RecoveryStorage) -> (r: u32)
    requires
        storage.codes@.len() <= u32::MAX,
    ensures
        r as nat == unused_codes(storage.codes@).len(),
{
    count_unused(&storage.codes)
}

/// The number of codes not used yet.
fn count_unused(codes: &Vec<RecoveryCode>) -> (r: u32)
    requires
        codes@.len() <= u32::MAX,
    ensures
        r as nat == unused_codes(codes@).len(),
{
    let mut n: u32 = 0;
    let mut k: usize = 0;
    while k < codes.len()
        invariant
            k <= codes@.len(),
            codes@.len() <= u32::MAX,
            n as nat == unused_codes(codes@.subrange(0, k as int)).len(),
            n <= k,
        decreases codes.len() - k,
    {
        assert(codes@.subrange(0, k + 1).drop_last() =~= codes@.subrange(0, k as int));
        if !codes[k].used {
            n = n + 1;
        }
        k = k + 1;
    }
    assert(codes@.subrange(0, codes@.len() as int) =~= codes@);
    n
}

/// The characters a recovery code is made of (no I, O, 0 or 1).
pub open spec fn recovery_charset() -> Seq<char> {
    "ABCDEFGHJKLMNPQRSTUVWXYZ23456789"@
}

/// A recovery code has the form `XXXX-XXXX-XXXX-XXXX` over its alphabet.
pub open spec fn is_recovery_code_form(s: Seq<char>) -> bool {
    &&& s.len() == 19
    &&& s[4] == '-' && s[9] == '-' && s[14] == '-'
    &&& forall|i: int| 0 <= i < 19 && i != 4 && i != 9 && i != 14 ==> recovery_charset().contains(#[trigger] s[i])
}

/// Generates a recovery code: sixteen random characters in four groups.
pub fn generate_recovery_code() -> (r: String)
    ensures
        is_recovery_code_form(r@),
{
    let charset = crate::text::chars_of("ABCDEFGHJKLMNPQRSTUVWXYZ23456789");
    proof {
        reveal_strlit("ABCDEFGHJKLMNPQRSTUVWXYZ23456789");
    }
    assert(recovery_charset().len() == 32);
    let mut out: Vec<char> = Vec::new();
    let mut k: usize = 0;
    while k < 16
        invariant
            charset@ == recovery_charset(),
            recovery_charset().len() == 32,
            k <= 16,
            out@.len() == k + (if k > 0 { (k - 1) / 4 } else { 0 }),
            forall|i: int| 0 <= i < out@.len() ==> (if i == 4 || i == 9 || i == 14 {
                out@[i] == '-'
            } else {
                recovery_charset().contains(#[trigger] out@[i])
            }),
        decreases 16 - k,
    {
        if k > 0 && k % 4 == 0 {
            out.push('-');
        }
        let idx = crate::secret::random_below(charset.len());
        let c = charset[idx];
        assert(recovery_charset()[idx as int] == c);
        out.push(c);
        k = k + 1;
    }
    crate::text::string_of(out.as_slice())
}

/// Generates `count` unused recovery codes, created at `now`.
pub fn generate_recovery_codes(count: usize, now: i64) -> (r: RecoveryStorage)
    ensures
        r.codes@.len() == count,
        r.created == now,
        forall|i: int| 0 <= i < count ==> !(#[trigger] r.codes@[i]).used && is_recovery_code_form(r.codes@[i].code@),
{
    let mut codes: Vec<RecoveryCode> = Vec::new();
    let mut k: usize = 0;
    while k < count
        invariant
            k <= count,
            codes@.len() == k,
            forall|i: int| 0 <= i < k ==> !(#[trigger] codes@[i]).used && is_recovery_code_form(codes@[i].code@),
        decreases count - k,
    {
        codes.push(RecoveryCode { code: generate_recovery_code(), used: false });
        k = k + 1;
    }
    RecoveryStorage { codes, created: now }
}

// ---------------------------------------------------------------------------
// QR codes.
// ---------------------------------------------------------------------------

/// The SVG image of the QR code of `data` (at least 256 by 256), or the
/// encoder's error message when the data does not fit in a QR code.
pub uninterp spec fn spec_qr_svg(data: Seq<u8>) -> Result<Seq<char>, Seq<char>>;

/// `qrcode::QrCode::new`, then `render::<svg::Color>().min_dimensions(256, 256).build()`;
/// the encoder's error is converted to its message.
#[verifier::external_body]
fn qr_svg(data: &str) -> (r: Result<String, String>)
    ensures
        match (r, spec_qr_svg(vstd::utf8::encode_utf8(data@))) {
            (Ok(s), Ok(t)) => s@ == t,
            (Err(s), Err(t)) => s@ == t,
            _ => false,
        },
{
    match qrcode::QrCode::new(data) {
        Ok(code) => Ok(code.render::<qrcode::render::svg::Color>().min_dimensions(256, 256).build()),
        Err(e) => Err(e.to_string()),
    }
}

/// The QR code of `data` as SVG, or why it cannot be made.
pub fn generate_qr_code(data: &str, size: u32) -> (r: Result<String, String>)
    ensures
        match (r, spec_qr_svg(vstd::utf8::encode_utf8(data@))) {
            (Ok(s), Ok(t)) => s@ == t,
            (Err(s), Err(t)) => s@ == "Failed to generate QR code: "@ + t,
            _ => false,
        },
{
    match qr_svg(data) {
        Ok(svg) => Ok(svg),
        Err(e) => {
            let mut msg = String::from_str("Failed to generate QR code: ");
            msg.append(e.as_str());
            Err(msg)
        },
    }
}

/// The QR code of `data` as SVG.
pub fn generate_qr_svg(data: &str) -> (r: Result<String, String>)
    ensures
        match (r, spec_qr_svg(vstd::utf8::encode_utf8(data@))) {
            (Ok(s), Ok(t)) => s@ == t,
            (Err(s), Err(t)) => s@ == "Failed to generate QR code: "@ + t,
            _ => false,
        },
{
    generate_qr_code(data, 256)
}

/// The QR code of `data` as an SVG data URL.
pub fn generate_qr_code_simple(data: &str) -> (r: Result<String, String>)
    ensures
        match (r, spec_qr_svg(vstd::utf8::encode_utf8(data@))) {
            (Ok(s), Ok(t)) => s@ == "data:image/svg+xml;base64,"@ + spec_base64_encode(vstd::utf8::encode_utf8(t)),
            (Err(s), Err(t)) => s@ == "Failed to generate QR code: "@ + t,
            (Err(s), Ok(t)) => vstd::utf8::encode_utf8(t).len() > usize::MAX / 2,
            _ => false,
        },
{
    match generate_qr_code(data, 256) {
        Ok(svg) => {
            let bytes = svg.as_str().as_bytes();
            if bytes.len() > usize::MAX / 2 {
                return Err(String::from_str("Failed to generate QR code: image too large"));
            }
            let b64 = base64_encode(bytes);
            let mut url = String::from_str("data:image/svg+xml;base64,");
            url.append(b64.as_str());
            Ok(url)
        },
        Err(e) => Err(e),
    }
}


// ---------------------------------------------------------------------------
// Tailscale status as the passkey pages read it.
// ---------------------------------------------------------------------------

/// The first line feed or space at or after `i` in `s`, or its end.
pub open spec fn first_space_or_nl(s: Seq<char>, i: int) -> int
    decreases s.len() - i,
{
    if i < 0 || i >= s.len() {
        s.len() as int
    } else if s[i] == '\n' || s[i] == ' ' {
        i
    } else {
        first_space_or_nl(s, i + 1)
    }
}

proof fn lemma_first_space_or_nl(s: Seq<char>, i: int)
    requires
        0 <= i <= s.len(),
    ensures
        i <= first_space_or_nl(s, i) <= s.len(),
    decreases s.len() - i,
{
    if i < s.len() && !(s[i] == '\n' || s[i] == ' ') {
        lemma_first_space_or_nl(s, i + 1);
    }
}

/// The URL in the output of `tailscale serve status`: from the first
/// `https://` to the next line feed or space. With `require_ts_net`, only
/// a `.ts.net` address counts.
pub open spec fn spec_status_url(status: Seq<char>, require_ts_net: bool) -> Option<Seq<char>> {
    match spec_find_sub(status, "https://"@) {
        None => None,
        Some(start) => {
            let part = status.subrange(start, status.len() as int);
            let url = part.subrange(0, first_space_or_nl(part, 0));
            if require_ts_net && !has_sub(url, ".ts.net"@) {
                None
            } else {
                Some(url)
            }
        },
    }
}

/// Reads the URL from the output of `tailscale serve status`.
pub fn funnel_url_from_status(status: &str, require_ts_net: bool) -> (r: Option<String>)
    ensures
        r matches Some(u) ==> spec_status_url(status@, require_ts_net) == Some(u@),
        r is None ==> spec_status_url(status@, require_ts_net) is None,
{
    let chars = crate::text::chars_of(status);
    match find_sub(&chars, "https://") {
        None => None,
        Some(start) => {
            proof {
                lemma_find_from_found(chars@, "https://"@, 0);
            }
            let part = vstd::slice::slice_subrange(chars.as_slice(), start, chars.len());
            let mut end: usize = 0;
            while end < part.len() && !(part[end] == '\n' || part[end] == ' ')
                invariant
                    end <= part@.len(),
                    first_space_or_nl(part@, 0) == first_space_or_nl(part@, end as int),
                decreases part.len() - end,
            {
                end = end + 1;
            }
            proof {
                lemma_first_space_or_nl(part@, 0);
            }
            let url_chars = vstd::slice::slice_subrange(part, 0, end);
            let url = vstd::slice::slice_to_vec(url_chars);
            if require_ts_net && !contains_sub(&url, ".ts.net") {
                None
            } else {
                Some(crate::text::string_of(url_chars))
            }
        },
    }
}

/// Whether `tailscale serve status` shows a Funnel: it names an `https://`
/// address or a forwarding.
pub fn status_shows_funnel(status: &str) -> (r: bool)
    ensures
        r == (has_sub(status@, "https://"@) || has_sub(status@, "forwarding"@)),
{
    let chars = crate::text::chars_of(status);
    contains_sub(&chars, "https://") || contains_sub(&chars, "forwarding")
}

/// Whether `tailscale status --json` says this node is online.
pub fn status_says_connected(json: &str) -> (r: bool)
    ensures
        r == (has_sub(json@, "\"Online\": true"@)
            || (has_sub(json@, "\"Self\":{"@) && has_sub(json@, "\"Online\":true"@))),
{
    let chars = crate::text::chars_of(json);
    contains_sub(&chars, "\"Online\": true")
        || (contains_sub(&chars, "\"Self\":{") && contains_sub(&chars, "\"Online\":true"))
}

/// What the page can offer, from what was found on the machine; the Funnel
/// URL is looked up only when the Funnel is active.
pub fn detect_capabilities(
    tailscale_installed: bool,
    tailscale_connected: bool,
    funnel_active: bool,
    passkey_exists: bool,
    funnel_url: Option<String>,
) -> (r: Capabilities)
    ensures
        r.tailscale_installed == tailscale_installed,
        r.tailscale_connected == tailscale_connected,
        r.tailscale_funnel_active == funnel_active,
        r.funnel_url == (if funnel_active { funnel_url } else { None }),
        !funnel_active ==> !r.passkey_configured && (r.passkey_reason matches Some(m) && m@ == "funnel_not_active"@),
        funnel_active && !passkey_exists ==> !r.passkey_configured
            && (r.passkey_reason matches Some(m) && m@ == "no_passkey_configured"@),
        funnel_active && passkey_exists ==> r.passkey_configured && r.passkey_reason is None,
{
    let (passkey_configured, passkey_reason) = passkey_availability(funnel_active, passkey_exists);
    Capabilities {
        tailscale_installed,
        tailscale_connected,
        tailscale_funnel_active: funnel_active,
        funnel_url: if funnel_active { funnel_url } else { None },
        passkey_configured,
        passkey_reason,
    }
}

// ---------------------------------------------------------------------------
// Setup, login and recovery replies.
// ---------------------------------------------------------------------------

/// What passkey setup does next, from the capabilities found.
#[derive(Clone, Debug)]
pub enum SetupAction {
    /// Setup cannot go on.
    Fail,
    /// The Funnel runs: go on with this URL.
    UseFunnel(String),
    /// Turn the Funnel on, then wait for its URL.
    EnableFunnel,
}

/// The first decision of setup: Tailscale must be installed and connected;
/// an active Funnel gives its URL (none known is a failure), otherwise the
/// Funnel is to be turned on.
pub fn setup_first_step(caps: &Capabilities) -> (r: SetupAction)
    ensures
        !caps.tailscale_installed || !caps.tailscale_connected ==> r is Fail,
        caps.tailscale_installed && caps.tailscale_connected && caps.tailscale_funnel_active ==> match caps.funnel_url {
            Some(u) => r matches SetupAction::UseFunnel(v) && v@ == u@,
            None => r is Fail,
        },
        caps.tailscale_installed && caps.tailscale_connected && !caps.tailscale_funnel_active ==> r is EnableFunnel,
{
    if !caps.tailscale_installed || !caps.tailscale_connected {
        SetupAction::Fail
    } else if caps.tailscale_funnel_active {
        match &caps.funnel_url {
            Some(u) => SetupAction::UseFunnel(u.clone()),
            None => SetupAction::Fail,
        }
    } else {
        SetupAction::EnableFunnel
    }
}

/// The reply to a setup that failed: everything empty.
pub fn setup_failed_response() -> (r: SetupResponse)
    ensures
        !r.success,
        r.funnel_url@.len() == 0 && r.enrollment_url@.len() == 0 && r.qr_code@.len() == 0,
        r.expires_at@.len() == 0 && r.challenge_id@.len() == 0 && r.setup_token@.len() == 0,
{
    proof {
        reveal_strlit("");
    }
    SetupResponse {
        success: false,
        funnel_url: String::from_str(""),
        enrollment_url: String::from_str(""),
        qr_code: String::from_str(""),
        expires_at: String::from_str(""),
        challenge_id: String::from_str(""),
        setup_token: String::from_str(""),
    }
}

/// The enrolment link: `<funnel>/passkey/enroll/<challenge id>`.
pub open spec fn spec_enrollment_url(funnel_url: Seq<char>, challenge_id: Seq<char>) -> Seq<char> {
    funnel_url + "/passkey/enroll/"@ + challenge_id
}

/// Builds the enrolment link.
pub fn enrollment_url(funnel_url: &str, challenge_id: &str) -> (r: String)
    ensures
        r@ == spec_enrollment_url(funnel_url@, challenge_id@),
{
    let mut s = String::from_str(funnel_url);
    s.append("/passkey/enroll/");
    s.append(challenge_id);
    s
}

/// The reply to a setup that found its Funnel URL: the enrolment link and
/// its QR code as a data URL (empty when the code cannot be made).
pub fn setup_success_response(funnel_url: String, challenge_id: &str, expires_at: String) -> (r: SetupResponse)
    ensures
        r.success,
        r.funnel_url@ == funnel_url@,
        r.enrollment_url@ == spec_enrollment_url(funnel_url@, challenge_id@),
        r.expires_at@ == expires_at@,
        r.challenge_id@.len() == 0 && r.setup_token@.len() == 0,
        match spec_qr_svg(vstd::utf8::encode_utf8(spec_enrollment_url(funnel_url@, challenge_id@))) {
            Ok(t) => vstd::utf8::encode_utf8(t).len() <= usize::MAX / 2 ==> r.qr_code@
                == "data:image/svg+xml;base64,"@ + spec_base64_encode(vstd::utf8::encode_utf8(t)),
            Err(_) => r.qr_code@.len() == 0,
        },
{
    proof {
        reveal_strlit("");
    }
    let url = enrollment_url(funnel_url.as_str(), challenge_id);
    let qr_code = match generate_qr_code_simple(url.as_str()) {
        Ok(q) => q,
        Err(_) => String::from_str(""),
    };
    SetupResponse {
        success: true,
        funnel_url,
        enrollment_url: url,
        qr_code,
        expires_at,
        challenge_id: String::from_str(""),
        setup_token: String::from_str(""),
    }
}

/// `s` with every occurrence of `pat` taken out, scanning from the left.
pub open spec fn remove_all(s: Seq<char>, pat: Seq<char>) -> Seq<char>
    decreases s.len(),
{
    if s.len() == 0 || pat.len() == 0 {
        s
    } else if starts_with(s, pat) {
        remove_all(s.subrange(pat.len() as int, s.len() as int), pat)
    } else {
        seq![s[0]] + remove_all(s.subrange(1, s.len() as int), pat)
    }
}

fn remove_all_exec(s: &[char], pat: &str) -> (r: Vec<char>)
    ensures
        r@ == remove_all(s@, pat@),
{
    let plen = crate::text::chars_of(pat).len();
    let mut out: Vec<char> = Vec::new();
    let mut k: usize = 0;
    assert(s@.subrange(0, s@.len() as int) =~= s@);
    while k < s.len()
        invariant
            k <= s@.len(),
            plen == pat@.len(),
            out@ + remove_all(s@.subrange(k as int, s@.len() as int), pat@) == remove_all(s@, pat@),
        decreases s.len() - k,
    {
        let rest = vstd::slice::slice_subrange(s, k, s.len());
        let ghost before = out@;
        if plen > 0 && starts_with_str(rest, pat) {
            assert(rest@.subrange(pat@.len() as int, rest@.len() as int) =~= s@.subrange(k + plen, s@.len() as int));
            k = k + plen;
        } else {
            if plen == 0 {
                assert(remove_all(rest@, pat@) == rest@);
                assert(before + rest@ =~= before + seq![s@[k as int]] + s@.subrange(k + 1, s@.len() as int));
                let mut j: usize = k;
                while j < s.len()
                    invariant
                        k <= j <= s@.len(),
                        out@ == before + s@.subrange(k as int, j as int),
                    decreases s.len() - j,
                {
                    out.push(s[j]);
                    assert(out@ =~= before + s@.subrange(k as int, j + 1));
                    j = j + 1;
                }
                assert(out@ =~= before + rest@);
                assert(remove_all(s@.subrange(s@.len() as int, s@.len() as int), pat@) =~= Seq::<char>::empty());
                assert(out@ + Seq::<char>::empty() =~= out@);
                k = s.len();
            } else {
                assert(rest@.subrange(1, rest@.len() as int) =~= s@.subrange(k + 1, s@.len() as int));
                out.push(s[k]);
                assert(out@ + remove_all(s@.subrange(k + 1, s@.len() as int), pat@)
                    =~= before + (seq![s@[k as int]] + remove_all(s@.subrange(k + 1, s@.len() as int), pat@)));
                k = k + 1;
            }
        }
    }
    assert(remove_all(s@.subrange(s@.len() as int, s@.len() as int), pat@) =~= Seq::<char>::empty());
    assert(out@ + Seq::<char>::empty() =~= out@);
    out
}

/// The relying-party id for a login: the Funnel host without the scheme
/// and without its first label (the tailnet's domain), or `nanokvm` when
/// no Funnel URL is known.
pub open spec fn spec_login_rp_id(funnel_url: Option<Seq<char>>) -> Seq<char> {
    match funnel_url {
        None => "nanokvm"@,
        Some(u) => {
            let h = remove_all(u, "https://"@);
            match first_index(h, '.', 0) {
                Some(i) => h.subrange(i + 1, h.len() as int),
                None => Seq::empty(),
            }
        },
    }
}

/// Computes the relying-party id for a login.
pub fn login_rp_id(funnel_url: Option<&str>) -> (r: String)
    ensures
        r@ == spec_login_rp_id(match funnel_url { Some(u) => Some(u@), None => None }),
{
    match funnel_url {
        None => String::from_str("nanokvm"),
        Some(u) => {
            let chars = crate::text::chars_of(u);
            let h = remove_all_exec(chars.as_slice(), "https://");
            match find_char(h.as_slice(), '.', 0) {
                Some(i) => {
                    proof {
                        lemma_first_index(h@, '.', 0);
                    }
                    let n = h.len();
                    assert(i < n);
                    let start = i + 1;
                    crate::text::string_of(vstd::slice::slice_subrange(h.as_slice(), start, n))
                },
                None => {
                    proof {
                        reveal_strlit("");
                    }
                    String::from_str("")
                },
            }
        },
    }
}

/// Lifetime of a challenge as the browser is told it, in milliseconds.
pub const LOGIN_TIMEOUT_MS: u32 = 300000;

/// The reply that hands out a login challenge.
pub fn login_challenge_response(challenge: &[u8], challenge_id: String, rp_id: String) -> (r: LoginChallengeResponse)
    requires
        challenge@.len() <= usize::MAX / 2,
    ensures
        r.challenge@ == spec_base64_encode(challenge@),
        r.challenge_id == challenge_id,
        r.rp_id == rp_id,
        r.timeout == LOGIN_TIMEOUT_MS,
{
    LoginChallengeResponse { challenge: base64_encode(challenge), challenge_id, rp_id, timeout: LOGIN_TIMEOUT_MS }
}

/// A pending challenge that can answer an enrolment (or, with
/// `enrollment` false, a login) at `now`.
pub open spec fn challenge_usable(p: Option<PendingChallenge>, enrollment: bool, now: i64) -> bool {
    p matches Some(c) && now < c.expires_at && c.is_enrollment == enrollment
}

/// Whether the pending challenge can be answered, as an enrolment or a login.
pub fn usable_challenge(pending: &Option<PendingChallenge>, enrollment: bool, now: i64) -> (r: bool)
    ensures
        r == challenge_usable(*pending, enrollment, now),
{
    match pending {
        Some(c) => !c.is_expired_at(now) && c.is_enrollment == enrollment,
        None => false,
    }
}

/// The reply to a login: the credential id is the base64 text of the id
/// the browser sent; it must be one of the stored credentials.
pub fn login_verify_response(challenge_ok: bool, known: bool) -> (r: VerifyResponse)
    ensures
        !challenge_ok ==> !r.success && r.token is None && r.requires_password_change is None
            && (r.error matches Some(e) && e@ == "Invalid or expired challenge"@),
        challenge_ok && known ==> r.success && (r.token matches Some(t) && t@ == "verified"@)
            && r.requires_password_change == Some(false) && r.error is None,
        challenge_ok && !known ==> !r.success && r.token is None && r.requires_password_change is None
            && (r.error matches Some(e) && e@ == "Unknown credential"@),
{
    if !challenge_ok {
        VerifyResponse {
            success: false,
            token: None,
            requires_password_change: None,
            error: Some(String::from_str("Invalid or expired challenge")),
        }
    } else if known {
        VerifyResponse {
            success: true,
            token: Some(String::from_str("verified")),
            requires_password_change: Some(false),
            error: None,
        }
    } else {
        VerifyResponse {
            success: false,
            token: None,
            requires_password_change: None,
            error: Some(String::from_str("Unknown credential")),
        }
    }
}

/// Whether a stored credential has the id `id`.
pub fn has_credential(storage: &PasskeyStorage, id: &str) -> (r: bool)
    ensures
        r == exists|i: int| 0 <= i < storage.credentials@.len() && (#[trigger] storage.credentials@[i]).id@ == id@,
{
    let mut k: usize = 0;
    while k < storage.credentials.len()
        invariant
            k <= storage.credentials@.len(),
            forall|i: int| 0 <= i < k ==> (#[trigger] storage.credentials@[i]).id@ != id@,
        decreases storage.credentials.len() - k,
    {
        if str_eq(storage.credentials[k].id.as_str(), id) {
            return true;
        }
        k = k + 1;
    }
    false
}

/// The reply to a recovery attempt: `None` when no code was given, else
/// the outcome of checking it.
pub fn recover_response(outcome: Option<Result<(bool, u32), String>>) -> (r: RecoverResponse)
    ensures
        outcome is None ==> !r.success && r.token is None && r.remaining_codes is None
            && (r.error matches Some(e) && e@ == "Recovery code required"@),
        outcome matches Some(Ok((true, n))) ==> r.success && (r.token matches Some(t) && t@ == "recovered"@)
            && r.remaining_codes == Some(n) && r.error is None,
        outcome matches Some(Ok((false, _))) ==> !r.success && r.token is None && r.remaining_codes is None
            && (r.error matches Some(e) && e@ == "Invalid recovery code"@),
        outcome matches Some(Err(_)) ==> !r.success && r.token is None && r.remaining_codes is None
            && (r.error matches Some(e) && e@ == "Recovery failed"@),
{
    match outcome {
        None => RecoverResponse {
            success: false,
            token: None,
            remaining_codes: None,
            error: Some(String::from_str("Recovery code required")),
        },
        Some(Ok((true, n))) => RecoverResponse {
            success: true,
            token: Some(String::from_str("recovered")),
            remaining_codes: Some(n),
            error: None,
        },
        Some(Ok((false, _))) => RecoverResponse {
            success: false,
            token: None,
            remaining_codes: None,
            error: Some(String::from_str("Invalid recovery code")),
        },
        Some(Err(_)) => RecoverResponse {
            success: false,
            token: None,
            remaining_codes: None,
            error: Some(String::from_str("Recovery failed")),
        },
    }
}

/// The lines joined with line feeds.
pub open spec fn join_lines(lines: Seq<Seq<char>>) -> Seq<char>
    decreases lines.len(),
{
    if lines.len() == 0 {
        Seq::empty()
    } else if lines.len() == 1 {
        lines[0]
    } else {
        join_lines(lines.drop_last()) + "\n"@ + lines.last()
    }
}

fn join_lines_exec(lines: &Vec<String>) -> (r: String)
    ensures
        r@ == join_lines(lines@.map_values(|s: String| s@)),
{
    let ghost all = lines@.map_values(|s: String| s@);
    let mut out = String::from_str("");
    proof {
        reveal_strlit("");
    }
    let mut k: usize = 0;
    while k < lines.len()
        invariant
            all == lines@.map_values(|s: String| s@),
            k <= lines@.len(),
            out@ == join_lines(all.subrange(0, k as int)),
        decreases lines.len() - k,
    {
        assert(all.subrange(0, k + 1).drop_last() =~= all.subrange(0, k as int));
        if k > 0 {
            out.append("\n");
        } else {
            assert(out@ + lines@[k as int]@ =~= lines@[k as int]@);
        }
        out.append(lines[k].as_str());
        k = k + 1;
    }
    assert(all.subrange(0, all.len() as int) =~= all);
    out
}

/// The text offered for download: the codes one per line between a title
/// and a reminder; without a readable file only the notice that there are
/// none. `codes` is `None` when the file holds no list of codes.
pub open spec fn spec_recovery_download_text(file_read: bool, codes: Option<Seq<Seq<char>>>) -> Seq<char> {
    if !file_read {
        "No recovery codes found"@
    } else {
        let body = match codes {
            Some(c) => join_lines(c),
            None => "No recovery codes found"@,
        };
        "Recovery Codes\n\n"@ + body + "\n\nSave these codes in a safe place.\nOne-time use only."@
    }
}

/// Builds the text offered for download.
pub fn recovery_download_text(file_read: bool, codes: Option<Vec<String>>) -> (r: String)
    ensures
        r@ == spec_recovery_download_text(file_read, match codes {
            Some(c) => Some(c@.map_values(|s: String| s@)),
            None => None,
        }),
{
    if !file_read {
        return String::from_str("No recovery codes found");
    }
    let body = match &codes {
        Some(c) => join_lines_exec(c),
        None => String::from_str("No recovery codes found"),
    };
    let mut s = String::from_str("Recovery Codes\n\n");
    s.append(body.as_str());
    s.append("\n\nSave these codes in a safe place.\nOne-time use only.");
    s
}

/// What checking `input` against the codes `before` gives: `found` tells
/// whether an unused code matches; if so the first such code is marked used
/// and nothing else changes, otherwise nothing changes; `remaining` is the
/// number of unused codes left afterwards.
pub open spec fn recovery_outcome(
    before: Seq<RecoveryCode>,
    after: Seq<RecoveryCode>,
    input: Seq<char>,
    found: bool,
    remaining: u32,
) -> bool {
    &&& found == (exists|i: int| 0 <= i < before.len() && code_matches(#[trigger] before[i], input))
    &&& remaining as nat == unused_codes(after).len()
    &&& found ==> (exists|i: int| 0 <= i < before.len() && code_matches(#[trigger] before[i], input)
        && (forall|j: int| 0 <= j < i ==> !code_matches(before[j], input))
        && after.len() == before.len()
        && after[i].used && after[i].code == before[i].code
        && (forall|j: int| 0 <= j < before.len() && j != i ==> after[j] == before[j]))
    &&& !found ==> after == before
}

/// Checks a recovery code from `client_ip` at `now` against the stored
/// codes (`loaded`, or why they could not be read). The attempt is first
/// counted against the address's limit; a refused attempt gets the wait
/// message and reads nothing. Otherwise the first unused code equal to
/// the input (trimmed, upper case, dashes ignored) is marked used in
/// `loaded`, and the reply tells whether one was found and how many unused
/// codes are left.
pub fn validate_and_consume_code(
    rate: &mut RateLimitStore,
    loaded: &mut Result<RecoveryStorage, String>,
    input_code: &str,
    client_ip: &str,
    now: u64,
) -> (r: Result<(bool, u32), String>)
    requires
        old(rate).by_ip.wf(),
        *old(loaded) matches Ok(st) ==> st.codes@.len() <= u32::MAX,
    ensures
        final(rate).by_ip.wf(),
        ({
            let e = if old(rate).by_ip@.contains_key(client_ip@) { Some(old(rate).by_ip@[client_ip@]) } else { None };
            let (ok, next) = spec_rate_step(e, now);
            let input = spec_normalize_code(input_code@);
            &&& final(rate).by_ip@ == old(rate).by_ip@.insert(client_ip@, next->Some_0)
            &&& !ok ==> *final(loaded) == *old(loaded) && (r matches Err(m) && m@ == "Too many attempts. Please wait "@
                + spec_dec(sat_sub(RATE_LIMIT_WINDOW_SECONDS, sat_sub(now, next->Some_0.last_attempt)) as nat) + " seconds."@)
            &&& ok ==> match *old(loaded) {
                Err(e) => *final(loaded) == *old(loaded) && r == Err::<(bool, u32), String>(e),
                Ok(st) => *final(loaded) matches Ok(st2) && st2.created == st.created
                    && st2.codes@.len() == st.codes@.len()
                    && (r matches Ok((found, remaining)) && recovery_outcome(st.codes@, st2.codes@, input, found, remaining)),
            }
        }),
{
    if !rate.check_rate_limit_at(client_ip, now) {
        let wait = rate.wait_time_at(client_ip, now);
        return Err(rate_limit_message(wait));
    }
    let input = normalize_code(input_code);
    match loaded {
        Err(e) => Err(e.clone()),
        Ok(st) => {
            let (found, remaining) = consume_code(&mut st.codes, &input);
            Ok((found, remaining))
        },
    }
}

} // verus!
