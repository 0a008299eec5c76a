//! Login and session rules: which address a request comes from, the
//! credential check with its brute-force protection, where a session that
//! must change its password may go, and the bearer token of a request.

use vstd::prelude::*;
use vstd::string::{StringExecFns, StrSliceExecFns};
use subtle::ConstantTimeEq;
use crate::api;
use crate::brute_force::{BruteForce, spec_enabled, spec_locked, spec_record_failure, LOCKED_MESSAGE};
use crate::textscan::{first_index, find_char, lemma_first_index, spec_trim, starts_with, starts_with_str, str_eq, trim};

verus! {

/// Name of the session cookie.
pub const COOKIE_NAME: &'static str = "nano-kvm-token";

/// The claims of a session token.
#[derive(Clone, Debug)]
pub struct Claims {
    pub username: String,
    pub exp: usize,
    pub requires_password_change: bool,
    pub session_id: String,
}

#[derive(Clone, Debug)]
pub struct LoginReq {
    pub username: String,
    pub password: String,
}

#[derive(Clone, Debug)]
pub struct LoginRsp {
    pub token: String,
    pub requires_password_change: bool,
    pub password_expiry_days: Option<i64>,
}

/// The stored account.
#[derive(Clone, Debug)]
pub struct Account {
    pub username: String,
    pub password: String,
    pub last_password_change: Option<u64>,
    pub failed_attempts: u8,
    pub locked_until: Option<u64>,
    pub must_change_password: bool,
}

/// One line of the audit log.
#[derive(Clone, Debug)]
pub struct AuditLogEntry {
    pub timestamp: String,
    pub event_type: String,
    pub username: String,
    pub ip_address: Option<String>,
    pub success: bool,
    pub details: String,
}

#[derive(Clone, Debug)]
pub struct ChangePasswordReq {
    pub username: String,
    pub password: String,
}

#[derive(Clone, Copy, Debug)]
pub struct IsPasswordUpdatedRsp {
    pub is_updated: bool,
}

#[derive(Clone, Debug)]
pub struct GetAccountRsp {
    pub username: String,
}

#[derive(Clone, Debug)]
pub struct EncryptionKeyRsp {
    pub key: String,
}

/// The first comma-separated entry of `h`, trimmed.
pub open spec fn first_forwarded(h: Seq<char>) -> Seq<char> {
    match first_index(h, ',', 0) {
        Some(k) => spec_trim(h.subrange(0, k)),
        None => spec_trim(h),
    }
}

/// The address a request is attributed to: with forwarded headers trusted,
/// the first entry of `X-Forwarded-For`, then `X-Real-IP`, when not empty;
/// otherwise the peer's address, or `unknown`.
pub open spec fn spec_client_ip(forwarded_for: Option<Seq<char>>, real_ip: Option<Seq<char>>, peer: Option<Seq<char>>, trust: bool) -> Seq<char> {
    if trust && (forwarded_for matches Some(h) && first_forwarded(h).len() > 0) {
        first_forwarded(forwarded_for->Some_0)
    } else if trust && (real_ip matches Some(h) && spec_trim(h).len() > 0) {
        spec_trim(real_ip->Some_0)
    } else {
        match peer {
            Some(p) => p,
            None => "unknown"@,
        }
    }
}

/// The view of an optional text.
pub open spec fn opt_text(o: Option<&str>) -> Option<Seq<char>> {
    match o {
        Some(s) => Some(s@),
        None => None,
    }
}

/// Resolves the address a request is attributed to. `peer` is the socket
/// peer's address as text.
pub fn client_ip(forwarded_for: Option<&str>, real_ip: Option<&str>, peer: Option<&str>, trust_forwarded: bool) -> (r: String)
    ensures
        r@ == spec_client_ip(opt_text(forwarded_for), opt_text(real_ip), opt_text(peer), trust_forwarded),
{
    if trust_forwarded {
        if let Some(h) = forwarded_for {
            let chars = crate::text::chars_of(h);
            proof {
                lemma_first_index(chars@, ',', 0);
            }
            let piece = match find_char(chars.as_slice(), ',', 0) {
                Some(k) => trim(vstd::slice::slice_subrange(chars.as_slice(), 0, k)),
                None => trim(chars.as_slice()),
            };
            if piece.len() > 0 {
                return crate::text::string_of(piece);
            }
        }
        if let Some(h) = real_ip {
            let chars = crate::text::chars_of(h);
            let ip = trim(chars.as_slice());
            if ip.len() > 0 {
                return crate::text::string_of(ip);
            }
        }
    }
    match peer {
        Some(p) => String::from_str(p),
        None => String::from_str("unknown"),
    }
}

/// The routes a session that must change its password may use.
pub open spec fn spec_allowed_during_password_change(path: Seq<char>) -> bool {
    path == "/api/auth/password"@ || path == "/api/auth/account"@ || path == "/api/auth/logout"@ || path == "/api/logout"@
}

/// Whether a session that must change its password may use a route.
pub fn allows_during_password_change(path: &str) -> (r: bool)
    ensures
        r == spec_allowed_during_password_change(path@),
{
    str_eq(path, "/api/auth/password") || str_eq(path, "/api/auth/account") || str_eq(path, "/api/auth/logout")
        || str_eq(path, "/api/logout")
}

/// What the middleware does with a request.
#[derive(Clone, Copy, Debug, PartialEq, Eq, Structural)]
pub enum AuthVerdict {
    /// Pass the request on.
    Allow,
    /// Refuse: the password must be changed first.
    PasswordChangeRequired,
    /// Refuse: no valid session.
    Unauthorized,
}

/// Decides a request from the validated token's claim (`None` when there
/// is no valid token): everything passes with authentication disabled; a
/// valid session passes unless it must change its password and the route
/// is not one of those allowed then.
pub fn auth_verdict(auth_disabled: bool, requires_password_change: Option<bool>, path: &str) -> (r: AuthVerdict)
    ensures
        auth_disabled ==> r == AuthVerdict::Allow,
        !auth_disabled && requires_password_change is None ==> r == AuthVerdict::Unauthorized,
        !auth_disabled && requires_password_change == Some(false) ==> r == AuthVerdict::Allow,
        !auth_disabled && requires_password_change == Some(true) ==> r == (if spec_allowed_during_password_change(path@) {
            AuthVerdict::Allow
        } else {
            AuthVerdict::PasswordChangeRequired
        }),
{
    if auth_disabled {
        return AuthVerdict::Allow;
    }
    match requires_password_change {
        None => AuthVerdict::Unauthorized,
        Some(must) => {
            if !must || allows_during_password_change(path) {
                AuthVerdict::Allow
            } else {
                AuthVerdict::PasswordChangeRequired
            }
        },
    }
}

/// The session token of a request: the session cookie, else the bearer
/// token of the `Authorization` header.
pub fn request_token(cookie: Option<&str>, authorization: Option<&str>) -> (r: Option<String>)
    ensures
        cookie matches Some(c) ==> (r matches Some(t) && t@ == c@),
        cookie is None && (authorization matches Some(a) && starts_with(a@, "Bearer "@)) ==>
            (r matches Some(t) && authorization matches Some(a) && t@ == a@.subrange(7, a@.len() as int)),
        cookie is None && !(authorization matches Some(a) && starts_with(a@, "Bearer "@)) ==> r is None,
{
    proof {
        reveal_strlit("Bearer ");
    }
    match cookie {
        Some(c) => Some(String::from_str(c)),
        None => match authorization {
            Some(a) => {
                let chars = crate::text::chars_of(a);
                if starts_with_str(chars.as_slice(), "Bearer ") {
                    Some(crate::text::string_of(vstd::slice::slice_subrange(chars.as_slice(), 7, chars.len())))
                } else {
                    None
                }
            },
            None => None,
        },
    }
}

/// Whether a password matches a bcrypt hash, or `None` when the hash is
/// malformed.
pub uninterp spec fn spec_bcrypt_verify(password: Seq<u8>, hash: Seq<char>) -> Option<bool>;

/// `bcrypt::verify`; its error (a malformed hash) becomes `None`.
#[verifier::external_body]
fn bcrypt_verify(password: &str, hash: &str) -> (r: Option<bool>)
    ensures
        r == spec_bcrypt_verify(vstd::utf8::encode_utf8(password@), hash@),
{
    match bcrypt::verify(password, hash) {
        Ok(b) => Some(b),
        Err(_) => None,
    }
}

/// `subtle::ConstantTimeEq::ct_eq` on the bytes of two strings: whether they
/// are equal, in time that does not depend on where they differ.
#[verifier::external_body]
fn bytes_equal_ct(a: &str, b: &str) -> (r: bool)
    ensures
        r == (vstd::utf8::encode_utf8(a@) == vstd::utf8::encode_utf8(b@)),
{
    a.as_bytes().ct_eq(b.as_bytes()).into()
}

/// Whether a password matches the stored hash (a malformed hash matches nothing).
pub fn password_matches(password: &str, hash: &str) -> (r: bool)
    ensures
        r == (spec_bcrypt_verify(vstd::utf8::encode_utf8(password@), hash@) == Some(true)),
{
    match bcrypt_verify(password, hash) {
        Some(b) => b,
        None => false,
    }
}

/// The credentials match the account: the password its hash, the user
/// name its name (compared in constant time).
pub open spec fn spec_credentials_ok(username: Seq<char>, password: Seq<char>, account: Account) -> bool {
    spec_bcrypt_verify(vstd::utf8::encode_utf8(password), account.password@) == Some(true)
        && vstd::utf8::encode_utf8(username) == vstd::utf8::encode_utf8(account.username@)
}

/// Checks login credentials against the account.
pub fn credentials_ok(username: &str, password: &str, account: &Account) -> (r: bool)
    ensures
        r == spec_credentials_ok(username@, password@, *account),
{
    let password_valid = password_matches(password, account.password.as_str());
    let username_matches = bytes_equal_ct(username, account.username.as_str());
    password_valid && username_matches
}

/// Whether the account's password was changed from the default `admin`.
pub fn password_updated(account: &Account) -> (r: bool)
    ensures
        r == !(spec_bcrypt_verify(vstd::utf8::encode_utf8("admin"@), account.password@) == Some(true)),
{
    !password_matches("admin", account.password.as_str())
}

/// The outcome of a login attempt.
#[derive(Clone, Debug)]
pub enum LoginOutcome {
    /// Authentication is disabled: the session token is `disabled`.
    Disabled,
    /// The attempt is refused with this error code and message.
    Refused { code: i32, message: String },
    /// The credentials are right: issue a session.
    Accepted { requires_password_change: bool },
}

/// The first decision on a login attempt, taken before the credentials
/// are looked at.
#[derive(Clone, Debug)]
pub enum LoginPrecheck {
    /// Authentication is disabled: the session token is `disabled`.
    Disabled,
    /// The address is locked: refused with this error, credentials unchecked.
    Refused { code: i32, message: String },
    /// The credentials are to be checked next.
    CheckCredentials,
}

/// The first check of a login attempt from `ip` at `now`: with authentication
/// disabled every attempt passes; a locked address is refused with the
/// lock error; otherwise the credentials are to be checked.
pub fn login_precheck(guard: &BruteForce, auth_disabled: bool, ip: &str, now: u64) -> (r: LoginPrecheck)
    requires
        guard.wf(),
    ensures
        auth_disabled ==> r is Disabled,
        !auth_disabled && spec_locked(guard.settings(), guard@, ip@, now) ==>
            (r matches LoginPrecheck::Refused { code, message } && code == api::LOCKED && message@ == LOCKED_MESSAGE@),
        !auth_disabled && !spec_locked(guard.settings(), guard@, ip@, now) ==> r is CheckCredentials,
{
    if auth_disabled {
        return LoginPrecheck::Disabled;
    }
    match guard.check_at(ip, now) {
        Some((code, message)) => LoginPrecheck::Refused { code, message },
        None => LoginPrecheck::CheckCredentials,
    }
}

/// The end of a login attempt that passed its first check, once the credentials
/// were checked: wrong ones are recorded as a failure and refused (with the
/// lock error when this failure locks the address); right ones clear the
/// address's record and open a session.
pub fn login_complete(
    guard: &mut BruteForce,
    ip: &str,
    now: u64,
    credentials_valid: bool,
    must_change_password: bool,
) -> (r: LoginOutcome)
    requires
        old(guard).wf(),
    ensures
        final(guard).wf(),
        final(guard).settings() == old(guard).settings(),
        !credentials_valid ==> ({
            let (m, locks) = spec_record_failure(old(guard).settings(), old(guard)@, ip@, now);
            &&& final(guard)@ == m
            &&& r matches LoginOutcome::Refused { code, message }
            &&& locks ==> code == api::LOCKED && message@ == LOCKED_MESSAGE@
            &&& !locks ==> code == api::AUTH && message@ == "Invalid username or password"@
        }),
        credentials_valid ==>
            (r matches LoginOutcome::Accepted { requires_password_change } && requires_password_change == must_change_password)
            && final(guard)@ == (if spec_enabled(old(guard).settings()) { old(guard)@.remove(ip@) } else { old(guard)@ }),
{
    if !credentials_valid {
        return match guard.record_failure_at(ip, now) {
            Some((code, message)) => LoginOutcome::Refused { code, message },
            None => LoginOutcome::Refused { code: api::AUTH, message: String::from_str("Invalid username or password") },
        };
    }
    guard.clear(ip);
    LoginOutcome::Accepted { requires_password_change: must_change_password }
}

/// Decides a login attempt from `ip` at `now` with the given user name and
/// (decrypted) password: the lock is checked first, and only for an attempt
/// that passes are the credentials checked against `account`, then the
/// attempt completed. With authentication disabled every attempt passes; a
/// locked address is refused and its record stays as it was.
pub fn login_step(
    guard: &mut BruteForce,
    auth_disabled: bool,
    ip: &str,
    now: u64,
    username: &str,
    password: &str,
    account: &Account,
) -> (r: LoginOutcome)
    requires
        old(guard).wf(),
    ensures
        final(guard).wf(),
        final(guard).settings() == old(guard).settings(),
        auth_disabled ==> r is Disabled && final(guard)@ == old(guard)@,
        !auth_disabled && spec_locked(old(guard).settings(), old(guard)@, ip@, now) ==>
            (r matches LoginOutcome::Refused { code, message } && code == api::LOCKED && message@ == LOCKED_MESSAGE@)
            && final(guard)@ == old(guard)@,
        !auth_disabled && !spec_locked(old(guard).settings(), old(guard)@, ip@, now)
            && !spec_credentials_ok(username@, password@, *account) ==> ({
            let (m, locks) = spec_record_failure(old(guard).settings(), old(guard)@, ip@, now);
            &&& final(guard)@ == m
            &&& r matches LoginOutcome::Refused { code, message }
            &&& locks ==> code == api::LOCKED && message@ == LOCKED_MESSAGE@
            &&& !locks ==> code == api::AUTH && message@ == "Invalid username or password"@
        }),
        !auth_disabled && !spec_locked(old(guard).settings(), old(guard)@, ip@, now)
            && spec_credentials_ok(username@, password@, *account) ==>
            (r matches LoginOutcome::Accepted { requires_password_change }
                && requires_password_change == account.must_change_password)
            && final(guard)@ == (if spec_enabled(old(guard).settings()) { old(guard)@.remove(ip@) } else { old(guard)@ }),
{
    match login_precheck(guard, auth_disabled, ip, now) {
        LoginPrecheck::Disabled => LoginOutcome::Disabled,
        LoginPrecheck::Refused { code, message } => LoginOutcome::Refused { code, message },
        LoginPrecheck::CheckCredentials => {
            let valid = credentials_ok(username, password, account);
            login_complete(guard, ip, now, valid, account.must_change_password)
        },
    }
}

/// Why a password change is refused before anything is written: another
/// user name (compared in constant time), or a password that does not
/// decrypt to a non-empty text.
pub fn password_change_refusal(req_username: &str, account: &Account, decrypted: Option<&str>) -> (r: Option<(i32, String)>)
    ensures
        vstd::utf8::encode_utf8(req_username@) != vstd::utf8::encode_utf8(account.username@) ==>
            (r matches Some((code, m)) && code == api::AUTH && m@ == "Invalid username"@),
        vstd::utf8::encode_utf8(req_username@) == vstd::utf8::encode_utf8(account.username@)
            && !(decrypted matches Some(p) && p@.len() > 0) ==>
            (r matches Some((code, m)) && code == api::VALIDATION && m@ == "invalid password"@),
        vstd::utf8::encode_utf8(req_username@) == vstd::utf8::encode_utf8(account.username@)
            && (decrypted matches Some(p) && p@.len() > 0) ==> r is None,
{
    if !bytes_equal_ct(req_username, account.username.as_str()) {
        return Some((api::AUTH, String::from_str("Invalid username")));
    }
    match decrypted {
        Some(p) => {
            if p.unicode_len() > 0 {
                None
            } else {
                Some((api::VALIDATION, String::from_str("invalid password")))
            }
        },
        None => Some((api::VALIDATION, String::from_str("invalid password"))),
    }
}

} // verus!
