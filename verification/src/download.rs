//! Disk images fetched into the data partition: the progress marker that a
//! transfer leaves, the names accepted for uploads and downloads, and the
//! ISO 9660 signature an image must carry.

use vstd::prelude::*;
use vstd::string::{StringExecFns, StrSliceExecFns};
use crate::textscan::{split_at_char, split_char};

verus! {

/// The marker file that exists while a transfer runs: `<file>;<progress>`.
pub const SENTINEL_PATH: &'static str = "/tmp/.download_in_progress";
/// Where images are stored.
pub const DATA_DIR: &'static str = "/data";
/// The name a download gets when its URL has no path segment.
pub const DEFAULT_IMAGE_NAME: &'static str = "image.iso";
/// Offset of the ISO 9660 standard identifier in an image.
pub const ISO_MAGIC_OFFSET: u64 = 0x8001;

/// Whether images can be stored.
#[derive(Clone, Copy, Debug)]
pub struct ImageEnabledRsp {
    pub enabled: bool,
}

/// The state of a transfer.
#[derive(Clone, Debug)]
pub struct StatusImageRsp {
    pub status: String,
    pub file: String,
    pub percentage: String,
}

/// A download request; `file` holds the URL.
#[derive(Clone, Debug)]
pub struct DownloadImageUrlReq {
    pub file: String,
}

/// The transfer state read from the marker: running, with the file and the
/// progress (the first two `;`-separated fields, empty when missing), or
/// idle when there is no marker.
pub open spec fn spec_transfer_status(marker: Option<Seq<char>>) -> (Seq<char>, Seq<char>, Seq<char>) {
    match marker {
        None => ("idle"@, Seq::empty(), Seq::empty()),
        Some(m) => {
            let parts = split_char(m, ';');
            ("in_progress"@, parts[0], if parts.len() > 1 { parts[1] } else { Seq::empty() })
        },
    }
}

/// Reads the transfer state from the marker's content, if there is a marker.
pub fn status_from_marker(marker: Option<&str>) -> (r: StatusImageRsp)
    ensures
        (r.status@, r.file@, r.percentage@) == spec_transfer_status(match marker {
            Some(m) => Some(m@),
            None => None,
        }),
{
    proof {
        reveal_strlit("");
    }
    match marker {
        None => StatusImageRsp {
            status: String::from_str("idle"),
            file: String::from_str(""),
            percentage: String::from_str(""),
        },
        Some(m) => {
            let chars = crate::text::chars_of(m);
            let parts = split_at_char(chars.as_slice(), ';');
            let ghost pv = parts@.map_values(|v: Vec<char>| v@);
            assert(pv.len() >= 1) by {
                reveal_with_fuel(split_char, 2);
            }
            let file = crate::text::string_of(parts[0].as_slice());
            let percentage = if parts.len() > 1 {
                crate::text::string_of(parts[1].as_slice())
            } else {
                String::from_str("")
            };
            StatusImageRsp { status: String::from_str("in_progress"), file, percentage }
        },
    }
}

/// `s` ends with `suffix`.
pub open spec fn ends_with(s: Seq<char>, suffix: Seq<char>) -> bool {
    suffix.len() <= s.len() && s.subrange(s.len() - suffix.len(), s.len() as int) == suffix
}

/// Only ISO images may be uploaded: the name must end in `.iso`, in any case.
pub fn upload_name_allowed(name: &str) -> (r: bool)
    ensures
        r == ends_with(crate::text::spec_to_lowercase(name@), ".iso"@),
{
    let lower = crate::text::to_lowercase(name);
    let chars = crate::text::chars_of(lower.as_str());
    let suffix = crate::text::chars_of(".iso");
    proof {
        reveal_strlit(".iso");
    }
    if chars.len() < 4 {
        return false;
    }
    let n = chars.len();
    let ok = chars[n - 4] == suffix[0] && chars[n - 3] == suffix[1] && chars[n - 2] == suffix[2] && chars[n - 1]
        == suffix[3];
    assert(ok == (chars@.subrange(n - 4, n as int) =~= suffix@));
    ok
}

/// The last path segment of a URL: `None` when the text is not a URL,
/// `Some(None)` when the URL has no path segments (it cannot be a base).
pub uninterp spec fn spec_url_last_segment(text: Seq<char>) -> Option<Option<Seq<char>>>;

/// `url::Url::parse`, then the last of `path_segments`.
#[verifier::external_body]
fn url_last_segment(text: &str) -> (r: Option<Option<String>>)
    ensures
        match (r, spec_url_last_segment(text@)) {
            (None, None) => true,
            (Some(None), Some(None)) => true,
            (Some(Some(a)), Some(Some(b))) => a@ == b,
            _ => false,
        },
{
    match url::Url::parse(text) {
        Ok(u) => match u.path_segments() {
            Some(segments) => match segments.last() {
                Some(last) => Some(Some(last.to_string())),
                None => Some(None),
            },
            None => Some(None),
        },
        Err(_) => None,
    }
}

/// The name a downloaded image is stored under: the URL's last path
/// segment, or `image.iso`; `None` when the text is not a URL.
pub fn download_file_name(url: &str) -> (r: Option<String>)
    ensures
        match spec_url_last_segment(url@) {
            None => r is None,
            Some(None) => r matches Some(n) && n@ == DEFAULT_IMAGE_NAME@,
            Some(Some(s)) => r matches Some(n) && n@ == s,
        },
{
    match url_last_segment(url) {
        None => None,
        Some(None) => Some(String::from_str(DEFAULT_IMAGE_NAME)),
        Some(Some(s)) => Some(s),
    }
}

/// The marker written when a transfer starts: `<file>;0%`.
pub fn start_marker(file: &str) -> (r: String)
    ensures
        r@ == file@ + ";0%"@,
{
    let mut s = String::from_str(file);
    s.append(";0%");
    s
}

/// The marker written while an upload of unknown size runs:
/// `<file>;<n> bytes`.
pub fn bytes_marker(file: &str, written: u64) -> (r: String)
    ensures
        r@ == file@ + ";"@ + crate::textscan::spec_dec(written as nat) + " bytes"@,
{
    let mut s = String::from_str(file);
    s.append(";");
    let n = crate::textscan::dec_string(written);
    s.append(n.as_str());
    s.append(" bytes");
    s
}

/// The reply to a download that started.
pub fn download_started(url: String) -> (r: StatusImageRsp)
    ensures
        r.status@ == "in_progress"@,
        r.file@ == url@,
        r.percentage@ == "0%"@,
{
    StatusImageRsp { status: String::from_str("in_progress"), file: url, percentage: String::from_str("0%") }
}

/// The ISO 9660 standard identifier, `CD001`.
pub open spec fn iso_magic() -> Seq<u8> {
    seq![67u8, 68u8, 48u8, 48u8, 49u8]
}

/// Whether the five bytes read at the identifier's offset are `CD001`.
pub fn is_iso_magic(bytes: &[u8]) -> (r: bool)
    ensures
        r == (bytes@ == iso_magic()),
{
    let ok = bytes.len() == 5 && bytes[0] == 67 && bytes[1] == 68 && bytes[2] == 48 && bytes[3] == 48 && bytes[4] == 49;
    assert(ok ==> bytes@ =~= iso_magic());
    ok
}

} // verus!
