//! The server's configuration and its defaults: HTTP first (HTTPS needs
//! certificates), authentication on, a public STUN server, a strict
//! password policy and a random token-signing secret.

use vstd::prelude::*;
use vstd::string::StringExecFns;
use crate::b64::{base64_encode, spec_base64_encode};

verus! {

pub const DEFAULT_PROTO: &'static str = "http";
pub const DEFAULT_AUTH: &'static str = "enable";
pub const DEFAULT_STUN: &'static str = "stun.l.google.com:19302";
pub const DEFAULT_LOG_LEVEL: &'static str = "info";
pub const DEFAULT_LOG_FILE: &'static str = "stdout";
pub const DEFAULT_HTTP_PORT: u16 = 80;
pub const DEFAULT_HTTPS_PORT: u16 = 443;
pub const DEFAULT_CERT_FILE: &'static str = "server.crt";
pub const DEFAULT_KEY_FILE: &'static str = "server.key";
/// Thirty-one days, in seconds.
pub const DEFAULT_JWT_DURATION: u64 = 2678400;
pub const DEFAULT_PW_MIN_LENGTH: u8 = 8;
pub const DEFAULT_PW_MAX_LENGTH: u8 = 128;
pub const DEFAULT_PW_SPECIAL_CHARS: &'static str = "!@#$%^&*()_+-=[]{}|;:,.<>?";
pub const DEFAULT_PW_MAX_AGE_DAYS: u16 = 90;
pub const DEFAULT_PW_MIN_AGE_DAYS: u16 = 1;
pub const DEFAULT_PW_HISTORY_COUNT: u8 = 12;
pub const DEFAULT_LOCKOUT_THRESHOLD: u8 = 5;
pub const DEFAULT_LOCKOUT_DURATION_MIN: u16 = 30;
pub const CONFIG_FILE: &'static str = "/etc/kvm/config.yaml";

/// Where the log goes and how much of it.
#[derive(Clone, Debug)]
pub struct Logger {
    pub level: String,
    pub file: String,
}

impl Default for Logger {
    fn default() -> (r: Logger)
        ensures
            r.level@ == DEFAULT_LOG_LEVEL@,
            r.file@ == DEFAULT_LOG_FILE@,
    {
        Logger { level: String::from_str(DEFAULT_LOG_LEVEL), file: String::from_str(DEFAULT_LOG_FILE) }
    }
}

/// The listening ports.
#[derive(Clone, Copy, Debug)]
pub struct Port {
    pub http: u16,
    pub https: u16,
}

impl Default for Port {
    fn default() -> (r: Port)
        ensures
            r.http == DEFAULT_HTTP_PORT,
            r.https == DEFAULT_HTTPS_PORT,
    {
        Port { http: DEFAULT_HTTP_PORT, https: DEFAULT_HTTPS_PORT }
    }
}

/// The TLS certificate and key files.
#[derive(Clone, Debug)]
pub struct Cert {
    pub crt: String,
    pub key: String,
}

impl Default for Cert {
    fn default() -> (r: Cert)
        ensures
            r.crt@ == DEFAULT_CERT_FILE@,
            r.key@ == DEFAULT_KEY_FILE@,
    {
        Cert { crt: String::from_str(DEFAULT_CERT_FILE), key: String::from_str(DEFAULT_KEY_FILE) }
    }
}

/// Token settings: the signing secret, how long a token lives (seconds)
/// and whether logging out revokes tokens.
#[derive(Clone, Debug)]
pub struct JwtConfig {
    pub secret_key: String,
    pub refresh_token_duration: u64,
    pub revoke_tokens_on_logout: bool,
}

/// Thirty-two bytes from the operating system's generator
/// (`ring::rand::SystemRandom::fill`). Which bytes is not stated. When the
/// generator cannot be read the program stops, as ring's callers here
/// always did.
#[verifier::external_body]
fn system_random_32() -> (r: Vec<u8>)
    ensures
        r@.len() == 32,
{
    let rng = ring::rand::SystemRandom::new();
    let mut key = [0u8; 32];
    ring::rand::SecureRandom::fill(&rng, &mut key).expect("RNG failure");
    key.to_vec()
}

/// A new signing secret: the base64 text of thirty-two random bytes.
pub fn generate_random_secret() -> (r: String)
    ensures
        exists|b: Seq<u8>| b.len() == 32 && r@ == spec_base64_encode(b),
{
    let key = system_random_32();
    base64_encode(key.as_slice())
}

impl Default for JwtConfig {
    fn default() -> (r: JwtConfig)
        ensures
            exists|b: Seq<u8>| b.len() == 32 && r.secret_key@ == spec_base64_encode(b),
            r.refresh_token_duration == DEFAULT_JWT_DURATION,
            r.revoke_tokens_on_logout,
    {
        JwtConfig {
            secret_key: generate_random_secret(),
            refresh_token_duration: DEFAULT_JWT_DURATION,
            revoke_tokens_on_logout: true,
        }
    }
}

/// The TURN relay, empty when there is none.
#[derive(Clone, Debug)]
pub struct Turn {
    pub turn_addr: String,
    pub turn_user: String,
    pub turn_cred: String,
}

impl Default for Turn {
    fn default() -> (r: Turn)
        ensures
            r.turn_addr@.len() == 0 && r.turn_user@.len() == 0 && r.turn_cred@.len() == 0,
    {
        proof {
            reveal_strlit("");
        }
        Turn { turn_addr: String::from_str(""), turn_user: String::from_str(""), turn_cred: String::from_str("") }
    }
}

/// The rules passwords and logins follow.
#[derive(Clone, Debug)]
pub struct PasswordPolicy {
    pub min_length: u8,
    pub max_length: u8,
    pub require_uppercase: bool,
    pub require_lowercase: bool,
    pub require_digit: bool,
    pub require_special: bool,
    pub special_chars: String,
    pub max_age_days: u16,
    pub min_age_days: u16,
    pub history_count: u8,
    pub lockout_threshold: u8,
    pub lockout_duration_minutes: u16,
    pub force_first_password_change: bool,
}

impl Default for PasswordPolicy {
    fn default() -> (r: PasswordPolicy)
        ensures
            r.min_length == DEFAULT_PW_MIN_LENGTH && r.max_length == DEFAULT_PW_MAX_LENGTH,
            r.require_uppercase && r.require_lowercase && r.require_digit && r.require_special,
            r.special_chars@ == DEFAULT_PW_SPECIAL_CHARS@,
            r.max_age_days == DEFAULT_PW_MAX_AGE_DAYS && r.min_age_days == DEFAULT_PW_MIN_AGE_DAYS,
            r.history_count == DEFAULT_PW_HISTORY_COUNT,
            r.lockout_threshold == DEFAULT_LOCKOUT_THRESHOLD,
            r.lockout_duration_minutes == DEFAULT_LOCKOUT_DURATION_MIN,
            r.force_first_password_change,
    {
        PasswordPolicy {
            min_length: DEFAULT_PW_MIN_LENGTH,
            max_length: DEFAULT_PW_MAX_LENGTH,
            require_uppercase: true,
            require_lowercase: true,
            require_digit: true,
            require_special: true,
            special_chars: String::from_str(DEFAULT_PW_SPECIAL_CHARS),
            max_age_days: DEFAULT_PW_MAX_AGE_DAYS,
            min_age_days: DEFAULT_PW_MIN_AGE_DAYS,
            history_count: DEFAULT_PW_HISTORY_COUNT,
            lockout_threshold: DEFAULT_LOCKOUT_THRESHOLD,
            lockout_duration_minutes: DEFAULT_LOCKOUT_DURATION_MIN,
            force_first_password_change: true,
        }
    }
}

/// The whole configuration.
#[derive(Clone, Debug)]
pub struct Config {
    pub proto: String,
    pub port: Port,
    pub cert: Cert,
    pub logger: Logger,
    pub authentication: String,
    pub jwt: JwtConfig,
    pub stun: String,
    pub turn: Turn,
    pub password_policy: PasswordPolicy,
}

impl Default for Config {
    /// Every part at its default; the signing secret is new.
    fn default() -> (r: Config)
        ensures
            r.proto@ == DEFAULT_PROTO@,
            r.port.http == DEFAULT_HTTP_PORT && r.port.https == DEFAULT_HTTPS_PORT,
            r.cert.crt@ == DEFAULT_CERT_FILE@ && r.cert.key@ == DEFAULT_KEY_FILE@,
            r.logger.level@ == DEFAULT_LOG_LEVEL@ && r.logger.file@ == DEFAULT_LOG_FILE@,
            r.authentication@ == DEFAULT_AUTH@,
            exists|b: Seq<u8>| b.len() == 32 && r.jwt.secret_key@ == spec_base64_encode(b),
            r.jwt.refresh_token_duration == DEFAULT_JWT_DURATION && r.jwt.revoke_tokens_on_logout,
            r.stun@ == DEFAULT_STUN@,
            r.turn.turn_addr@.len() == 0 && r.turn.turn_user@.len() == 0 && r.turn.turn_cred@.len() == 0,
            r.password_policy.min_length == DEFAULT_PW_MIN_LENGTH,
            r.password_policy.max_length == DEFAULT_PW_MAX_LENGTH,
            r.password_policy.lockout_threshold == DEFAULT_LOCKOUT_THRESHOLD,
            r.password_policy.lockout_duration_minutes == DEFAULT_LOCKOUT_DURATION_MIN,
            r.password_policy.special_chars@ == DEFAULT_PW_SPECIAL_CHARS@,
            r.password_policy.force_first_password_change,
    {
        Config {
            proto: String::from_str(DEFAULT_PROTO),
            port: Port::default(),
            cert: Cert::default(),
            logger: Logger::default(),
            authentication: String::from_str(DEFAULT_AUTH),
            jwt: JwtConfig::default(),
            stun: String::from_str(DEFAULT_STUN),
            turn: Turn::default(),
            password_policy: PasswordPolicy::default(),
        }
    }
}

} // verus!
