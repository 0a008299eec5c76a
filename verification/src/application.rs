//! Application updates: the release description, the checks an uploaded
//! (offline) package must pass before it is installed, and the checks on a
//! downloaded one.

use vstd::prelude::*;
use vstd::string::{StringExecFns, StrSliceExecFns};
use crate::api::{GENERIC, VALIDATION};
use crate::b64::{base64_encode, spec_base64_encode};
use crate::textscan::{contains_sub, has_sub, spec_trim, str_eq, trim};

verus! {

pub const DEFAULT_STABLE_URL: &'static str = "https://github.com/lazerusrm/RUSTYKVM/releases/latest/download";
pub const DEFAULT_PREVIEW_URL: &'static str = "https://github.com/lazerusrm/RUSTYKVM/releases/download/preview";
pub const CACHE_DIR: &'static str = "/root/.kvmcache";
pub const PREVIEW_FLAG: &'static str = "/etc/kvm/preview_updates";
/// The name an upload without a file name is stored under.
pub const DEFAULT_OFFLINE_NAME: &'static str = "offline_update.tar.gz";

/// The running and the latest version.
#[derive(Clone, Debug)]
pub struct GetVersionRsp {
    pub current: String,
    pub latest: String,
}

/// The description of the latest release (`latest.json`): the package's
/// name, its SHA-512 (base64), its size and where to fetch it.
#[derive(Clone, Debug)]
pub struct LatestInfo {
    pub version: String,
    pub name: String,
    pub sha512: String,
    pub size: u64,
    pub url: String,
}

/// Whether preview releases are followed.
#[derive(Clone, Copy, Debug)]
pub struct GetPreviewRsp {
    pub enabled: bool,
}

/// Turns preview releases on or off.
#[derive(Clone, Copy, Debug)]
pub struct SetPreviewReq {
    pub enable: bool,
}

/// The version reply: the latest version is the running one when the
/// release description could not be had.
pub fn version_response(current: String, latest: Option<LatestInfo>) -> (r: GetVersionRsp)
    ensures
        r.current@ == current@,
        latest matches Some(l) ==> r.latest@ == l.version@,
        latest is None ==> r.latest@ == current@,
{
    let latest_version = match latest {
        Some(l) => l.version,
        None => current.clone(),
    };
    GetVersionRsp { current, latest: latest_version }
}

/// `s` without its trailing slashes.
pub open spec fn trim_slashes(s: Seq<char>) -> Seq<char>
    decreases s.len(),
{
    if s.len() > 0 && s.last() == '/' {
        trim_slashes(s.drop_last())
    } else {
        s
    }
}

/// Takes the trailing slashes off a base URL.
pub fn trim_trailing_slashes(s: &str) -> (r: String)
    ensures
        r@ == trim_slashes(s@),
{
    let chars = crate::text::chars_of(s);
    let mut n: usize = chars.len();
    assert(chars@.subrange(0, n as int) =~= chars@);
    while n > 0 && chars[n - 1] == '/'
        invariant
            n <= chars@.len(),
            trim_slashes(chars@.subrange(0, n as int)) == trim_slashes(chars@),
        decreases n,
    {
        assert(chars@.subrange(0, n as int).drop_last() =~= chars@.subrange(0, n - 1));
        n = n - 1;
    }
    assert(chars@.subrange(0, n as int).len() == 0 || chars@.subrange(0, n as int).last() != '/');
    crate::text::string_of(vstd::slice::slice_subrange(chars.as_slice(), 0, n))
}

/// A release description without a URL gets `<base>/<name>`.
pub fn fill_latest_url(latest: LatestInfo, base_url: &str) -> (r: LatestInfo)
    ensures
        r.version == latest.version && r.name == latest.name && r.sha512 == latest.sha512 && r.size == latest.size,
        latest.url@.len() == 0 ==> r.url@ == base_url@ + "/"@ + latest.name@,
        latest.url@.len() != 0 ==> r.url == latest.url,
{
    if latest.url.as_str().unicode_len() == 0 {
        let mut url = String::from_str(base_url);
        url.append("/");
        url.append(latest.name.as_str());
        LatestInfo { url, ..latest }
    } else {
        latest
    }
}

// ---------------------------------------------------------------------------
// Digests.
// ---------------------------------------------------------------------------

/// SHA-512 of `data`.
pub uninterp spec fn spec_sha512(data: Seq<u8>) -> Seq<u8>;

/// SHA-512 through `sha2::Sha512::digest`; the digest has 64 bytes.
#[verifier::external_body]
fn sha512_digest(data: &[u8]) -> (r: Vec<u8>)
    ensures
        r@ == spec_sha512(data@),
        r@.len() == 64,
{
    <sha2::Sha512 as sha2::Digest>::digest(data).to_vec()
}

/// The SHA-512 of `data`, as standard base64 text.
pub fn sha512_base64(data: &[u8]) -> (r: String)
    ensures
        r@ == spec_base64_encode(spec_sha512(data@)),
{
    let d = sha512_digest(data);
    base64_encode(d.as_slice())
}

/// Checks a downloaded package against the digest the release announces.
pub fn verify_download(data: &[u8], expected_sha512: &str) -> (r: Result<(), String>)
    ensures
        spec_base64_encode(spec_sha512(data@)) == expected_sha512@ ==> r is Ok,
        spec_base64_encode(spec_sha512(data@)) != expected_sha512@ ==> (r matches Err(m) && m@
            == "Checksum mismatch: expected "@ + expected_sha512@ + ", got "@ + spec_base64_encode(spec_sha512(data@))),
{
    let hash = sha512_base64(data);
    if str_eq(hash.as_str(), expected_sha512) {
        Ok(())
    } else {
        let mut m = String::from_str("Checksum mismatch: expected ");
        m.append(expected_sha512);
        m.append(", got ");
        m.append(hash.as_str());
        Err(m)
    }
}

// ---------------------------------------------------------------------------
// Offline updates.
// ---------------------------------------------------------------------------

/// The last component of a path, as `Path::file_name` gives it (none for
/// an empty path, a root, or one that ends in `..`).
pub uninterp spec fn spec_path_file_name(path: Seq<char>) -> Option<Seq<char>>;

/// `std::path::Path::file_name`, converted to a string.
#[verifier::external_body]
fn path_file_name(path: &str) -> (r: Option<String>)
    ensures
        r matches Some(n) ==> spec_path_file_name(path@) == Some(n@),
        r is None ==> spec_path_file_name(path@) is None,
{
    std::path::Path::new(path).file_name().map(|n| n.to_string_lossy().to_string())
}

/// Two texts name the same path, component by component (`Path == Path`).
pub uninterp spec fn spec_same_path(a: Seq<char>, b: Seq<char>) -> bool;

/// `std::path::Path`'s equality, which compares the paths' components.
#[verifier::external_body]
fn same_path(a: &str, b: &str) -> (r: bool)
    ensures
        r == spec_same_path(a@, b@),
{
    std::path::Path::new(a) == std::path::Path::new(b)
}

/// A character allowed in the name of an uploaded package: an ASCII letter
/// or digit, a dot, an underscore or a dash.
pub open spec fn offline_name_char(c: char) -> bool {
    ('a' <= c && c <= 'z') || ('A' <= c && c <= 'Z') || ('0' <= c && c <= '9') || c == '.' || c == '_' || c == '-'
}

/// The name an uploaded package is stored under, or why it is refused: no
/// `..`, nothing but a bare file name, and only allowed characters.
pub open spec fn spec_validate_offline_filename(f: Seq<char>) -> Result<Seq<char>, Seq<char>> {
    if has_sub(f, ".."@) {
        Err("invalid filename: path traversal detected"@)
    } else {
        match spec_path_file_name(f) {
            None => Err("invalid filename"@),
            Some(base) => if !spec_same_path(f, base) {
                Err("path detected in filename"@)
            } else if !(forall|i: int| 0 <= i < base.len() ==> offline_name_char(#[trigger] base[i])) {
                Err("invalid filename: contains invalid characters"@)
            } else {
                Ok(base)
            },
        }
    }
}

fn all_offline_name_chars(s: &str) -> (r: bool)
    ensures
        r == (forall|i: int| 0 <= i < s@.len() ==> offline_name_char(#[trigger] s@[i])),
{
    let chars = crate::text::chars_of(s);
    let mut k: usize = 0;
    while k < chars.len()
        invariant
            chars@ == s@,
            k <= chars@.len(),
            forall|i: int| 0 <= i < k ==> offline_name_char(#[trigger] s@[i]),
        decreases chars.len() - k,
    {
        let c = chars[k];
        if !(('a' <= c && c <= 'z') || ('A' <= c && c <= 'Z') || ('0' <= c && c <= '9') || c == '.' || c == '_'
            || c == '-') {
            assert(!offline_name_char(s@[k as int]));
            return false;
        }
        k = k + 1;
    }
    true
}

/// Checks the name of an uploaded package.
pub fn validate_offline_filename(filename: &str) -> (r: Result<String, String>)
    ensures
        match (r, spec_validate_offline_filename(filename@)) {
            (Ok(a), Ok(b)) => a@ == b,
            (Err(a), Err(b)) => a@ == b,
            _ => false,
        },
{
    let chars = crate::text::chars_of(filename);
    if contains_sub(&chars, "..") {
        return Err(String::from_str("invalid filename: path traversal detected"));
    }
    let base = match path_file_name(filename) {
        Some(b) => b,
        None => {
            return Err(String::from_str("invalid filename"));
        },
    };
    if !same_path(filename, base.as_str()) {
        return Err(String::from_str("path detected in filename"));
    }
    if !all_offline_name_chars(base.as_str()) {
        return Err(String::from_str("invalid filename: contains invalid characters"));
    }
    Ok(base)
}

/// The digest field of an upload: the text trimmed, if anything is left.
pub fn sha512_field(text: &str) -> (r: Option<String>)
    ensures
        spec_trim(text@).len() > 0 ==> (r matches Some(t) && t@ == spec_trim(text@)),
        spec_trim(text@).len() == 0 ==> r is None,
{
    let chars = crate::text::chars_of(text);
    let t = trim(chars.as_slice());
    if t.len() > 0 {
        Some(crate::text::string_of(t))
    } else {
        None
    }
}

/// The first checks on an uploaded package: there is a file, and its
/// name (or the default name) is acceptable. Gives the name to store it
/// under, or the error code and message.
pub fn offline_upload_precheck(data: &[u8], upload_name: Option<&str>) -> (r: Result<String, (i32, String)>)
    ensures
        data@.len() == 0 ==> (r matches Err((c, m)) && c == VALIDATION && m@ == "no file uploaded"@),
        data@.len() > 0 ==> ({
            let name = match upload_name {
                Some(n) => n@,
                None => DEFAULT_OFFLINE_NAME@,
            };
            match spec_validate_offline_filename(name) {
                Ok(b) => r matches Ok(s) && s@ == b,
                Err(e) => r matches Err((c, m)) && c == VALIDATION && m@ == e,
            }
        }),
{
    if data.len() == 0 {
        return Err((VALIDATION, String::from_str("no file uploaded")));
    }
    let name = match upload_name {
        Some(n) => n,
        None => DEFAULT_OFFLINE_NAME,
    };
    match validate_offline_filename(name) {
        Ok(s) => Ok(s),
        Err(e) => Err((VALIDATION, e)),
    }
}

/// The digest an upload must have when none was sent with it: the one of
/// the latest release, if that release has the upload's size.
pub fn expected_from_latest(latest: Option<LatestInfo>, data_len: usize) -> (r: Result<String, (i32, String)>)
    ensures
        match latest {
            Some(l) => if l.size == data_len {
                r == Ok::<String, (i32, String)>(l.sha512)
            } else {
                r matches Err((c, m)) && c == VALIDATION
                    && m@ == "sha512 required (upload size does not match latest.json)"@
            },
            None => r matches Err((c, m)) && c == VALIDATION && m@ == "sha512 field required for offline update"@,
        },
{
    match latest {
        Some(l) => if l.size == data_len as u64 {
            Ok(l.sha512)
        } else {
            Err((VALIDATION, String::from_str("sha512 required (upload size does not match latest.json)")))
        },
        None => Err((VALIDATION, String::from_str("sha512 field required for offline update"))),
    }
}

/// The last check on an uploaded package: its digest is the expected one.
pub fn offline_checksum(data: &[u8], expected: &str) -> (r: Result<(), (i32, String)>)
    ensures
        spec_base64_encode(spec_sha512(data@)) == expected@ ==> r is Ok,
        spec_base64_encode(spec_sha512(data@)) != expected@ ==> (r matches Err((c, m)) && c == VALIDATION
            && m@ == "checksum mismatch"@),
{
    let actual = sha512_base64(data);
    if str_eq(actual.as_str(), expected) {
        Ok(())
    } else {
        Err((VALIDATION, String::from_str("checksum mismatch")))
    }
}

/// The message when the package cannot be stored.
pub fn cache_failure_message(prepare: bool, detail: &str) -> (r: (i32, String))
    ensures
        r.0 == GENERIC,
        prepare ==> r.1@ == "failed to prepare cache dir: "@ + detail@,
        !prepare ==> r.1@ == "failed to write upload: "@ + detail@,
{
    let mut m = if prepare {
        String::from_str("failed to prepare cache dir: ")
    } else {
        String::from_str("failed to write upload: ")
    };
    m.append(detail);
    (GENERIC, m)
}

/// Whether an update is being installed; one update runs at a time.
#[derive(Clone, Copy, Debug)]
pub struct UpdateFlag {
    pub updating: bool,
}

/// What an offline update does next.
#[derive(Clone, Debug)]
pub enum OfflineStep {
    /// Answer with this error.
    Refused { code: i32, message: String },
    /// No digest came with the upload: fetch the latest release's
    /// description, then go on with [`offline_update_with_latest`].
    FetchLatest { name: String },
    /// The package passed every check: store it in the cache under `name`,
    /// then go on with [`offline_update_stored`].
    Store { name: String },
}

/// The name an upload is checked under: its own, or the default one.
pub open spec fn offline_name(upload_name: Option<Seq<char>>) -> Seq<char> {
    match upload_name {
        Some(n) => n,
        None => DEFAULT_OFFLINE_NAME@,
    }
}

/// The first checks of an upload: there is a file, and its name passes.
pub open spec fn spec_offline_precheck(data: Seq<u8>, name: Seq<char>) -> Result<Seq<char>, Seq<char>> {
    if data.len() == 0 {
        Err("no file uploaded"@)
    } else {
        spec_validate_offline_filename(name)
    }
}

/// The step after the digest is known: store the package when its digest
/// matches, else refuse it.
pub open spec fn checksum_step_ok(r: OfflineStep, data: Seq<u8>, expected: Seq<char>, name: Seq<char>) -> bool {
    if spec_base64_encode(spec_sha512(data)) == expected {
        r matches OfflineStep::Store { name: n } && n@ == name
    } else {
        r matches OfflineStep::Refused { code, message } && code == VALIDATION && message@ == "checksum mismatch"@
    }
}

fn checksum_step(flag: &mut UpdateFlag, data: &[u8], expected: &str, name: String) -> (r: OfflineStep)
    requires
        old(flag).updating,
    ensures
        checksum_step_ok(r, data@, expected@, name@),
        final(flag).updating == (r is Store),
{
    match offline_checksum(data, expected) {
        Ok(()) => OfflineStep::Store { name },
        Err((code, message)) => {
            flag.updating = false;
            OfflineStep::Refused { code, message }
        },
    }
}

/// The start of an offline update, with the uploaded bytes, the upload's
/// file name and the text of its digest field (if any), in this order: an
/// update already running refuses it and is left running; otherwise the
/// update begins, and an empty upload, a bad name or a wrong digest end it
/// with a refusal. With no digest given, the latest release's description
/// is to be fetched next; with a matching digest the package is stored next.
pub fn offline_update_begin(
    flag: &mut UpdateFlag,
    data: &[u8],
    upload_name: Option<&str>,
    sha512_text: Option<&str>,
) -> (r: OfflineStep)
    ensures
        old(flag).updating ==> (r matches OfflineStep::Refused { code, message } && code == GENERIC
            && message@ == "update already in progress"@) && final(flag).updating,
        !old(flag).updating ==> ({
            let name = offline_name(match upload_name { Some(n) => Some(n@), None => None });
            match spec_offline_precheck(data@, name) {
                Err(e) => (r matches OfflineStep::Refused { code, message } && code == VALIDATION && message@ == e)
                    && !final(flag).updating,
                Ok(safe) => match sha512_text {
                    Some(t) if spec_trim(t@).len() > 0 => checksum_step_ok(r, data@, spec_trim(t@), safe)
                        && final(flag).updating == (r is Store),
                    _ => (r matches OfflineStep::FetchLatest { name: n } && n@ == safe) && final(flag).updating,
                },
            }
        }),
{
    if flag.updating {
        return OfflineStep::Refused { code: GENERIC, message: String::from_str("update already in progress") };
    }
    flag.updating = true;
    let safe = match offline_upload_precheck(data, upload_name) {
        Ok(n) => n,
        Err((code, message)) => {
            flag.updating = false;
            return OfflineStep::Refused { code, message };
        },
    };
    let expected = match sha512_text {
        Some(t) => sha512_field(t),
        None => None,
    };
    match expected {
        Some(e) => checksum_step(flag, data, e.as_str(), safe),
        None => OfflineStep::FetchLatest { name: safe },
    }
}

/// The offline update after the latest release's description was fetched
/// (`None` when it could not be): the package's digest must be the
/// release's, and the release must have the package's size; otherwise the
/// update ends with a refusal.
pub fn offline_update_with_latest(
    flag: &mut UpdateFlag,
    data: &[u8],
    name: String,
    latest: Option<LatestInfo>,
) -> (r: OfflineStep)
    requires
        old(flag).updating,
    ensures
        match latest {
            Some(l) => if l.size == data@.len() {
                checksum_step_ok(r, data@, l.sha512@, name@) && final(flag).updating == (r is Store)
            } else {
                (r matches OfflineStep::Refused { code, message } && code == VALIDATION
                    && message@ == "sha512 required (upload size does not match latest.json)"@) && !final(flag).updating
            },
            None => (r matches OfflineStep::Refused { code, message } && code == VALIDATION
                && message@ == "sha512 field required for offline update"@) && !final(flag).updating,
        },
{
    match expected_from_latest(latest, data.len()) {
        Ok(e) => checksum_step(flag, data, e.as_str(), name),
        Err((code, message)) => {
            flag.updating = false;
            OfflineStep::Refused { code, message }
        },
    }
}

/// The offline update after the package was to be stored: `Ok` when it was
/// written (it is then installed, and [`offline_update_finished`] ends the
/// update), else where it failed (preparing the cache directory or writing)
/// and why, which ends the update with that error.
pub fn offline_update_stored(flag: &mut UpdateFlag, outcome: Result<(), (bool, String)>) -> (r: Result<(), (i32, String)>)
    requires
        old(flag).updating,
    ensures
        outcome is Ok ==> r is Ok && final(flag).updating,
        outcome matches Err((prepare, detail)) ==> (r matches Err((code, m)) && code == GENERIC
            && (prepare ==> m@ == "failed to prepare cache dir: "@ + detail@)
            && (!prepare ==> m@ == "failed to write upload: "@ + detail@)) && !final(flag).updating,
{
    match outcome {
        Ok(()) => Ok(()),
        Err((prepare, detail)) => {
            flag.updating = false;
            Err(cache_failure_message(prepare, detail.as_str()))
        },
    }
}

/// The end of an install: another update may begin.
pub fn offline_update_finished(flag: &mut UpdateFlag)
    ensures
        !final(flag).updating,
{
    flag.updating = false;
}

} // verus!
