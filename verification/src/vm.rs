//! Device management requests: video settings from the web UI, user
//! scripts, host name, web title, memory limit, swap, virtual USB devices
//! and the records these requests carry.

use vstd::prelude::*;
use vstd::string::{StringExecFns, StrSliceExecFns};
use crate::screen::ScreenConfig;
use crate::text::{is_alphanumeric, spec_is_alphanumeric, spec_to_lowercase, to_lowercase};
use crate::textscan::{
    dec_string, dec_string_signed, has_sub, contains_sub, lines_of, spec_dec, spec_dec_signed,
    spec_lines, spec_parse_i64, parse_i64, spec_trim, str_eq, trim,
};

verus! {

#[derive(Clone, Debug)]
pub struct SetGpioReq {
    pub gpio_type: String,
    pub duration: u64,
}

/// How long a button is held when the request does not say, in ms.
pub fn default_duration() -> (r: u64)
    ensures
        r == 800,
{
    800
}

#[derive(Clone, Copy, Debug)]
pub struct GetGpioRsp {
    pub pwr: bool,
    pub hdd: bool,
}

#[derive(Clone, Debug)]
pub struct GetMouseJigglerRsp {
    pub enabled: bool,
    pub mode: String,
}

#[derive(Clone, Debug)]
pub struct SetMouseJigglerReq {
    pub enabled: bool,
    pub mode: Option<String>,
}

/// An address of a network interface.
#[derive(Clone, Debug)]
pub struct IP {
    pub name: String,
    pub addr: String,
    pub version: String,
    pub ip_type: String,
}

#[derive(Clone, Debug)]
pub struct GetInfoRsp {
    pub ips: Vec<IP>,
    pub mdns: String,
    pub image: String,
    pub application: String,
    pub device_key: String,
}

#[derive(Clone, Debug)]
pub struct GetHardwareRsp {
    pub version: String,
}

#[derive(Clone, Copy, Debug)]
pub struct SetOledReq {
    pub sleep: i32,
}

#[derive(Clone, Copy, Debug)]
pub struct GetOLEDRsp {
    pub exist: bool,
    pub sleep: i32,
}

#[derive(Clone, Copy, Debug)]
pub struct GetHdmiStateRsp {
    pub enabled: bool,
}

/// Size of a terminal window.
#[derive(Clone, Copy, Debug)]
pub struct WinSize {
    pub rows: u16,
    pub cols: u16,
}

#[derive(Clone, Debug)]
pub struct GetScriptsRsp {
    pub files: Vec<String>,
}

#[derive(Clone, Debug)]
pub struct UploadScriptRsp {
    pub file: String,
}

#[derive(Clone, Debug)]
pub struct RunScriptReq {
    pub name: String,
    pub script_type: String,
}

#[derive(Clone, Debug)]
pub struct RunScriptRsp {
    pub log: String,
}

#[derive(Clone, Debug)]
pub struct DeleteScriptReq {
    pub name: String,
}

#[derive(Clone, Copy, Debug)]
pub struct GetVirtualDeviceRsp {
    pub network: bool,
    pub disk: bool,
}

#[derive(Clone, Debug)]
pub struct UpdateVirtualDeviceReq {
    pub device: String,
}

#[derive(Clone, Copy, Debug)]
pub struct UpdateVirtualDeviceRsp {
    pub on: bool,
}

#[derive(Clone, Copy, Debug)]
pub struct GetMdnsStateRsp {
    pub enabled: bool,
}

#[derive(Clone, Copy, Debug)]
pub struct GetSSHStateRsp {
    pub enabled: bool,
}

#[derive(Clone, Copy, Debug)]
pub struct GetSwapRsp {
    pub size: i64,
}

#[derive(Clone, Copy, Debug)]
pub struct SetSwapReq {
    pub size: i64,
}

#[derive(Clone, Debug)]
pub struct GetHostnameRsp {
    pub hostname: String,
}

#[derive(Clone, Debug)]
pub struct SetHostnameReq {
    pub hostname: String,
}

#[derive(Clone, Debug)]
pub struct GetWebTitleRsp {
    pub title: String,
}

#[derive(Clone, Debug)]
pub struct SetWebTitleReq {
    pub title: String,
}

#[derive(Clone, Debug)]
pub struct GetAutostartRsp {
    pub files: Vec<String>,
}

#[derive(Clone, Debug)]
pub struct UploadAutostartReq {
    pub content: String,
}

#[derive(Clone, Copy, Debug)]
pub struct GetMemoryLimitRsp {
    pub enabled: bool,
    pub limit: i64,
}

#[derive(Clone, Copy, Debug)]
pub struct SetMemoryLimitReq {
    pub enabled: bool,
    pub limit: i64,
}

#[derive(Clone, Copy, Debug)]
pub struct SetTlsReq {
    pub enabled: bool,
}

/// One video setting from the web UI: its kind (`type`, `fps`, `quality`,
/// `resolution` or `gop`) and value.
#[derive(Clone, Debug)]
pub struct SetScreenReq {
    pub screen_type: String,
    pub value: i32,
}

// ---------------------------------------------------------------------------
// Scripts.
// ---------------------------------------------------------------------------

/// A character kept in a script's file name.
pub open spec fn file_char_ok(c: char) -> bool {
    spec_is_alphanumeric(c) || c == '_' || c == '-' || c == '.' || c == ' '
}

/// The file name kept from a requested one: its letters, digits, `_`, `-`,
/// `.` and spaces; refused when nothing is left or it holds `..`.
pub open spec fn spec_sanitize_file_name(name: Seq<char>) -> Option<Seq<char>> {
    let s = name.filter(|c: char| file_char_ok(c));
    if s.len() == 0 || has_sub(s, ".."@) { None } else { Some(s) }
}

/// Sanitises a script's file name.
pub fn sanitize_file_name(file_name: &str) -> (r: Option<String>)
    ensures
        r matches Some(s) ==> spec_sanitize_file_name(file_name@) == Some(s@),
        r is None ==> spec_sanitize_file_name(file_name@) is None,
{
    let chars = crate::text::chars_of(file_name);
    let mut kept: Vec<char> = Vec::new();
    let mut k: usize = 0;
    while k < chars.len()
        invariant
            chars@ == file_name@,
            k <= chars@.len(),
            kept@ == chars@.subrange(0, k as int).filter(|c: char| file_char_ok(c)),
        decreases chars.len() - k,
    {
        proof {
            reveal(Seq::filter);
            assert(chars@.subrange(0, k + 1).drop_last() =~= chars@.subrange(0, k as int));
        }
        let c = chars[k];
        if is_alphanumeric(c) || c == '_' || c == '-' || c == '.' || c == ' ' {
            kept.push(c);
        }
        k = k + 1;
    }
    assert(chars@.subrange(0, chars@.len() as int) =~= chars@);
    if kept.len() == 0 || contains_sub(&kept, "..") {
        None
    } else {
        Some(crate::text::string_of(kept.as_slice()))
    }
}

/// The path of a file named `name` in directory `base` (`Path::join` of a
/// single name, which never leaves the directory).
pub open spec fn join_path(base: Seq<char>, name: Seq<char>) -> Seq<char> {
    if base.len() > 0 && base.last() == '/' { base + name } else { base + "/"@ + name }
}

/// The path of a script in `base_dir`, from its sanitised name.
pub fn validate_script_path(base_dir: &str, file_name: &str) -> (r: Option<String>)
    ensures
        r matches Some(p) ==> (spec_sanitize_file_name(file_name@) matches Some(s) && p@ == join_path(base_dir@, s)),
        r is None ==> spec_sanitize_file_name(file_name@) is None,
{
    let sanitized = match sanitize_file_name(file_name) {
        Some(s) => s,
        None => {
            return None;
        },
    };
    let base = crate::text::chars_of(base_dir);
    let mut path = String::from_str(base_dir);
    if base.len() > 0 && base[base.len() - 1] == '/' {
        path.append(sanitized.as_str());
    } else {
        path.append("/");
        path.append(sanitized.as_str());
    }
    Some(path)
}

/// `s` ends with `suffix`.
pub open spec fn ends_with(s: Seq<char>, suffix: Seq<char>) -> bool {
    suffix.len() <= s.len() && s.subrange(s.len() - suffix.len(), s.len() as int) == suffix
}

fn ends_with_str(s: &str, suffix: &str) -> (r: bool)
    ensures
        r == ends_with(s@, suffix@),
{
    let a = crate::text::chars_of(s);
    let b = crate::text::chars_of(suffix);
    if b.len() > a.len() {
        return false;
    }
    let start = a.len() - b.len();
    let tail = crate::text::string_of(vstd::slice::slice_subrange(a.as_slice(), start, a.len()));
    str_eq(tail.as_str(), suffix)
}

/// A file is a script when its lower-cased name ends in `.sh` or `.py`.
pub open spec fn spec_is_script_name(name: Seq<char>) -> bool {
    ends_with(spec_to_lowercase(name), ".sh"@) || ends_with(spec_to_lowercase(name), ".py"@)
}

/// Whether a file is a script.
pub fn is_script_name(name: &str) -> (r: bool)
    ensures
        r == spec_is_script_name(name@),
{
    let lower = to_lowercase(name);
    ends_with_str(lower.as_str(), ".sh") || ends_with_str(lower.as_str(), ".py")
}

// ---------------------------------------------------------------------------
// Video settings from the web UI.
// ---------------------------------------------------------------------------

/// The video setting a request changes.
#[derive(Clone, Copy, Debug, PartialEq, Eq, Structural)]
pub enum ScreenSetting {
    StreamType,
    Fps,
    Quality,
    Resolution,
    Gop,
}

/// The setting named by a request's kind.
pub open spec fn spec_screen_setting(kind: Seq<char>) -> Option<ScreenSetting> {
    if kind == "type"@ {
        Some(ScreenSetting::StreamType)
    } else if kind == "fps"@ {
        Some(ScreenSetting::Fps)
    } else if kind == "quality"@ {
        Some(ScreenSetting::Quality)
    } else if kind == "resolution"@ {
        Some(ScreenSetting::Resolution)
    } else if kind == "gop"@ {
        Some(ScreenSetting::Gop)
    } else {
        None
    }
}

/// Reads the setting named by a request's kind.
pub fn screen_setting(kind: &str) -> (r: Option<ScreenSetting>)
    ensures
        r == spec_screen_setting(kind@),
{
    if str_eq(kind, "type") {
        Some(ScreenSetting::StreamType)
    } else if str_eq(kind, "fps") {
        Some(ScreenSetting::Fps)
    } else if str_eq(kind, "quality") {
        Some(ScreenSetting::Quality)
    } else if str_eq(kind, "resolution") {
        Some(ScreenSetting::Resolution)
    } else if str_eq(kind, "gop") {
        Some(ScreenSetting::Gop)
    } else {
        None
    }
}

/// `v` limited to `[lo, hi]`.
pub open spec fn clamp(v: int, lo: int, hi: int) -> int {
    if v < lo { lo } else if v > hi { hi } else { v }
}

fn clamp_i32(v: i32, lo: i32, hi: i32) -> (r: i32)
    requires
        lo <= hi,
    ensures
        r == clamp(v as int, lo as int, hi as int),
{
    if v < lo { lo } else if v > hi { hi } else { v }
}

/// The stream type a value selects: 0 is MJPEG, anything else H.264.
pub open spec fn stream_type_of(value: i32) -> Seq<char> {
    if value == 0 { "mjpeg"@ } else { "h264"@ }
}

/// The frame size a resolution value selects: the height (1080, 720, 600,
/// 480) or its index (1 to 4); 0 is automatic; other values keep the size.
pub open spec fn resolution_of(value: i32, width: u16, height: u16) -> (u16, u16) {
    if value == 0 {
        (0, 0)
    } else if value == 1080 || value == 1 {
        (1920, 1080)
    } else if value == 720 || value == 2 {
        (1280, 720)
    } else if value == 600 || value == 3 {
        (800, 600)
    } else if value == 480 || value == 4 {
        (640, 480)
    } else {
        (width, height)
    }
}

/// Where a setting is kept on disk, with the text written there; the GOP
/// is not kept.
#[derive(Clone, Debug)]
pub struct ScreenFileWrite {
    pub path: &'static str,
    pub content: String,
}

/// What a setting change does besides updating the settings: the file it
/// writes and the GOP to hand to the encoder.
#[derive(Clone, Debug)]
pub struct ScreenEffects {
    pub file: Option<ScreenFileWrite>,
    pub encoder_gop: Option<u8>,
}

pub const SCREEN_TYPE_FILE: &'static str = "/kvmapp/kvm/type";
pub const SCREEN_FPS_FILE: &'static str = "/kvmapp/kvm/fps";
pub const SCREEN_QUALITY_FILE: &'static str = "/kvmapp/kvm/qlty";
pub const SCREEN_RES_FILE: &'static str = "/kvmapp/kvm/res";

/// The settings after a change: the stream type from the value, the frame
/// rate limited to 1..60, a quality of at most 100 as JPEG quality (1..100)
/// and a larger one as H.264 bitrate (100..20000), the GOP limited to
/// 1..100, the frame size from the resolution value.
pub open spec fn screen_after(old: ScreenConfig, new: ScreenConfig, setting: ScreenSetting, value: i32) -> bool {
    let same_but = |f: int| {
        &&& (f != 0 ==> new.stream_type@ == old.stream_type@)
        &&& (f != 1 ==> new.fps == old.fps)
        &&& (f != 2 ==> new.quality == old.quality)
        &&& (f != 3 ==> new.bitrate == old.bitrate)
        &&& (f != 4 ==> new.gop == old.gop)
        &&& (f != 5 ==> new.width == old.width && new.height == old.height)
    };
    match setting {
        ScreenSetting::StreamType => new.stream_type@ == stream_type_of(value) && same_but(0),
        ScreenSetting::Fps => new.fps == clamp(value as int, 1, 60) && same_but(1),
        ScreenSetting::Quality => if value <= 100 {
            new.quality == clamp(value as int, 1, 100) && same_but(2)
        } else {
            new.bitrate == clamp(value as int, 100, 20000) && same_but(3)
        },
        ScreenSetting::Gop => new.gop == clamp(value as int, 1, 100) && same_but(4),
        ScreenSetting::Resolution => (new.width, new.height) == resolution_of(value, old.width, old.height)
            && same_but(5),
    }
}

/// The file a setting change writes, with its text.
pub open spec fn screen_file(setting: ScreenSetting, value: i32) -> Option<(Seq<char>, Seq<char>)> {
    match setting {
        ScreenSetting::StreamType => Some((SCREEN_TYPE_FILE@, stream_type_of(value))),
        ScreenSetting::Fps => Some((SCREEN_FPS_FILE@, spec_dec_signed(value as int))),
        ScreenSetting::Quality => Some((SCREEN_QUALITY_FILE@, spec_dec_signed(value as int))),
        ScreenSetting::Resolution => Some((SCREEN_RES_FILE@, spec_dec_signed(value as int))),
        ScreenSetting::Gop => None,
    }
}

/// Applies one video setting from the web UI. An unknown kind changes
/// nothing and is refused.
pub fn apply_screen_setting(config: &mut ScreenConfig, req: &SetScreenReq) -> (r: Option<ScreenEffects>)
    ensures
        spec_screen_setting(req.screen_type@) is None ==> r is None && final(config).stream_type@ == old(config).stream_type@
            && final(config).fps == old(config).fps && final(config).quality == old(config).quality
            && final(config).bitrate == old(config).bitrate && final(config).gop == old(config).gop
            && final(config).width == old(config).width && final(config).height == old(config).height,
        spec_screen_setting(req.screen_type@) matches Some(setting) ==> (r matches Some(fx)
            && screen_after(*old(config), *final(config), setting, req.value)
            && (match (fx.file, screen_file(setting, req.value)) {
                (Some(w), Some((p, c))) => w.path@ == p && w.content@ == c,
                (None, None) => true,
                _ => false,
            })
            && fx.encoder_gop == (if setting == ScreenSetting::Gop { Some(final(config).gop) } else { None })),
{
    let setting = match screen_setting(req.screen_type.as_str()) {
        Some(s) => s,
        None => {
            return None;
        },
    };
    let value = req.value;
    match setting {
        ScreenSetting::StreamType => {
            let t = if value == 0 { "mjpeg" } else { "h264" };
            config.stream_type = String::from_str(t);
            Some(ScreenEffects {
                file: Some(ScreenFileWrite { path: SCREEN_TYPE_FILE, content: String::from_str(t) }),
                encoder_gop: None,
            })
        },
        ScreenSetting::Fps => {
            config.fps = clamp_i32(value, 1, 60) as u16;
            Some(ScreenEffects {
                file: Some(ScreenFileWrite { path: SCREEN_FPS_FILE, content: dec_string_signed(value as i64) }),
                encoder_gop: None,
            })
        },
        ScreenSetting::Quality => {
            if value <= 100 {
                config.quality = clamp_i32(value, 1, 100) as u16;
            } else {
                config.bitrate = clamp_i32(value, 100, 20000) as u16;
            }
            Some(ScreenEffects {
                file: Some(ScreenFileWrite { path: SCREEN_QUALITY_FILE, content: dec_string_signed(value as i64) }),
                encoder_gop: None,
            })
        },
        ScreenSetting::Resolution => {
            let (w, h): (u16, u16) = if value == 0 {
                (0, 0)
            } else if value == 1080 || value == 1 {
                (1920, 1080)
            } else if value == 720 || value == 2 {
                (1280, 720)
            } else if value == 600 || value == 3 {
                (800, 600)
            } else if value == 480 || value == 4 {
                (640, 480)
            } else {
                (config.width, config.height)
            };
            config.width = w;
            config.height = h;
            Some(ScreenEffects {
                file: Some(ScreenFileWrite { path: SCREEN_RES_FILE, content: dec_string_signed(value as i64) }),
                encoder_gop: None,
            })
        },
        ScreenSetting::Gop => {
            config.gop = clamp_i32(value, 1, 100) as u8;
            Some(ScreenEffects { file: None, encoder_gop: Some(config.gop) })
        },
    }
}

// ---------------------------------------------------------------------------
// Host name, web title, memory limit, swap, OLED.
// ---------------------------------------------------------------------------

/// A host name is valid when it has 1 to 63 bytes, does not begin or end
/// with a dot, and holds only letters, digits, `-` and `.`.
pub open spec fn spec_valid_hostname(host: &str) -> bool {
    let h = host@;
    &&& h.len() > 0
    &&& host.len() <= 63
    &&& h[0] != '.'
    &&& h.last() != '.'
    &&& forall|i: int| 0 <= i < h.len() ==> (spec_is_alphanumeric(#[trigger] h[i]) || h[i] == '-' || h[i] == '.')
}

/// Checks a host name.
pub fn validate_hostname(hostname: &str) -> (r: bool)
    ensures
        r == spec_valid_hostname(hostname),
{
    let chars = crate::text::chars_of(hostname);
    if chars.len() == 0 || hostname.len() > 63 {
        return false;
    }
    if chars[0] == '.' || chars[chars.len() - 1] == '.' {
        return false;
    }
    let mut k: usize = 0;
    while k < chars.len()
        invariant
            chars@ == hostname@,
            k <= chars@.len(),
            forall|i: int| 0 <= i < k ==> (spec_is_alphanumeric(#[trigger] chars@[i]) || chars@[i] == '-' || chars@[i] == '.'),
        decreases chars.len() - k,
    {
        let c = chars[k];
        if !(is_alphanumeric(c) || c == '-' || c == '.') {
            return false;
        }
        k = k + 1;
    }
    true
}

/// The web title to keep: `None` (remove the file) when the title is empty
/// or the default `NanoKVM`.
pub fn web_title_to_store(title: &str) -> (r: Option<String>)
    ensures
        (title@.len() == 0 || title@ == "NanoKVM"@) ==> r is None,
        !(title@.len() == 0 || title@ == "NanoKVM"@) ==> (r matches Some(t) && t@ == title@),
{
    if title.unicode_len() == 0 || str_eq(title, "NanoKVM") {
        None
    } else {
        Some(String::from_str(title))
    }
}

/// The smallest memory limit kept, in MB.
pub const MIN_MEMORY_LIMIT: i64 = 50;

/// The memory limit to write: the requested one raised to at least
/// [`MIN_MEMORY_LIMIT`] when enabled; `None` (remove the file) when disabled.
pub fn memory_limit_to_store(req: SetMemoryLimitReq) -> (r: Option<i64>)
    ensures
        req.enabled ==> r == Some(if req.limit < MIN_MEMORY_LIMIT { MIN_MEMORY_LIMIT } else { req.limit }),
        !req.enabled ==> r is None,
{
    if req.enabled {
        Some(if req.limit < MIN_MEMORY_LIMIT { MIN_MEMORY_LIMIT } else { req.limit })
    } else {
        None
    }
}

/// The memory limit a file holds: its trimmed text as a number, 0 otherwise.
pub fn memory_limit_from_text(content: &str) -> (r: i64)
    ensures
        r == (match spec_parse_i64(spec_trim(content@)) { Some(v) => v, None => 0 }),
{
    let chars = crate::text::chars_of(content);
    match parse_i64(trim(chars.as_slice())) {
        Some(v) => v,
        None => 0,
    }
}

/// The OLED sleep time a file holds: its trimmed text as an `i32`, 0 otherwise.
pub fn oled_sleep_from_text(content: &str) -> (r: i32)
    ensures
        r == (match spec_parse_i64(spec_trim(content@)) {
            Some(v) => if i32::MIN <= v <= i32::MAX { v as i32 } else { 0 },
            None => 0,
        }),
{
    let chars = crate::text::chars_of(content);
    match parse_i64(trim(chars.as_slice())) {
        Some(v) => if i32::MIN as i64 <= v && v <= i32::MAX as i64 { v as i32 } else { 0 },
        None => 0,
    }
}

/// What changing the swap size does.
#[derive(Clone, Copy, Debug, PartialEq, Eq, Structural)]
pub enum SwapPlan {
    /// The size is already the requested one.
    Keep,
    /// Remove the swap file and its boot entry.
    Disable,
    /// Create a swap file of the requested size, removing the old one first when there is one.
    Create { remove_old: bool },
}

/// Decides a swap change from the requested size and the current one (MB).
pub fn swap_plan(requested: i64, current_mb: u64) -> (r: SwapPlan)
    ensures
        requested == current_mb ==> r == SwapPlan::Keep,
        requested != current_mb && requested == 0 ==> r == SwapPlan::Disable,
        requested != current_mb && requested != 0 ==> r == (SwapPlan::Create { remove_old: current_mb > 0 }),
{
    if requested >= 0 && requested as u64 == current_mb {
        SwapPlan::Keep
    } else if requested == 0 {
        SwapPlan::Disable
    } else {
        SwapPlan::Create { remove_old: current_mb > 0 }
    }
}

/// The command that creates and enables a swap file of `size` MB.
pub fn swap_create_command(size: i64) -> (r: String)
    ensures
        r@ == "fallocate -l "@ + spec_dec_signed(size as int) + "M /swapfile && chmod 600 /swapfile && mkswap /swapfile && swapon /swapfile"@,
{
    let mut cmd = String::from_str("fallocate -l ");
    let n = dec_string_signed(size);
    cmd.append(n.as_str());
    cmd.append("M /swapfile && chmod 600 /swapfile && mkswap /swapfile && swapon /swapfile");
    cmd
}

/// The lines of `ls` that do not mention the swap file, joined by line feeds.
pub open spec fn join_without_swap(ls: Seq<Seq<char>>) -> Seq<char>
    decreases ls.len(),
{
    if ls.len() == 0 {
        Seq::empty()
    } else {
        let rest = join_without_swap(ls.drop_last());
        if has_sub(ls.last(), "/swapfile"@) {
            rest
        } else if kept_count(ls.drop_last()) == 0 {
            ls.last()
        } else {
            rest + "\n"@ + ls.last()
        }
    }
}

/// How many of `ls` do not mention the swap file.
pub open spec fn kept_count(ls: Seq<Seq<char>>) -> nat
    decreases ls.len(),
{
    if ls.len() == 0 {
        0
    } else {
        kept_count(ls.drop_last()) + if has_sub(ls.last(), "/swapfile"@) { 0nat } else { 1nat }
    }
}

/// The boot table without the lines that mount the swap file.
pub fn inittab_without_swap(content: &str) -> (r: String)
    ensures
        r@ == join_without_swap(spec_lines(content@)),
{
    let text = crate::text::chars_of(content);
    let lines = lines_of(text.as_slice());
    let ghost all = lines@.map_values(|v: Vec<char>| v@);
    let mut out: Vec<char> = Vec::new();
    let mut kept: usize = 0;
    let mut k: usize = 0;
    while k < lines.len()
        invariant
            all == lines@.map_values(|v: Vec<char>| v@),
            all == spec_lines(content@),
            k <= all.len(),
            kept <= k,
            kept as nat == kept_count(all.subrange(0, k as int)),
            out@ == join_without_swap(all.subrange(0, k as int)),
        decreases lines.len() - k,
    {
        let ghost pre = all.subrange(0, k as int);
        assert(all.subrange(0, k + 1).drop_last() =~= pre);
        assert(all.subrange(0, k + 1).last() == lines@[k as int]@);
        if !contains_sub(&lines[k], "/swapfile") {
            let ghost before = out@;
            if kept > 0 {
                out.push('\n');
            }
            let mut line = lines[k].clone();
            assert(line@ =~= lines@[k as int]@);
            let ghost mid = out@;
            out.append(&mut line);
            assert(out@ =~= mid + lines@[k as int]@);
            proof {
                lemma_join_empty_when_none_kept(pre);
                reveal_strlit("\n");
                let next = all.subrange(0, k + 1);
                assert(next.drop_last() == pre);
                assert(!has_sub(next.last(), "/swapfile"@));
                assert(join_without_swap(next) == (if kept_count(pre) == 0 { next.last() } else {
                    join_without_swap(pre) + "\n"@ + next.last()
                }));
            }
            assert(out@ =~= join_without_swap(all.subrange(0, k + 1)));
            kept = kept + 1;
        }
        k = k + 1;
    }
    assert(all.subrange(0, all.len() as int) =~= all);
    crate::text::string_of(out.as_slice())
}

/// With no line kept, the joined text is empty; with some, it is not
/// tracked here beyond what the definition gives.
proof fn lemma_join_empty_when_none_kept(ls: Seq<Seq<char>>)
    ensures
        kept_count(ls) == 0 ==> join_without_swap(ls).len() == 0,
    decreases ls.len(),
{
    if ls.len() > 0 {
        lemma_join_empty_when_none_kept(ls.drop_last());
    }
}

// ---------------------------------------------------------------------------
// Virtual USB devices and interfaces.
// ---------------------------------------------------------------------------

/// The virtual USB devices.
#[derive(Clone, Copy, Debug, PartialEq, Eq, Structural)]
pub enum VirtualDevice {
    Network,
    Disk,
}

/// The device named by a request (`network` or `disk`).
pub fn virtual_device(name: &str) -> (r: Option<VirtualDevice>)
    ensures
        name@ == "network"@ ==> r == Some(VirtualDevice::Network),
        name@ == "disk"@ ==> r == Some(VirtualDevice::Disk),
        name@ != "network"@ && name@ != "disk"@ ==> r is None,
{
    proof {
        reveal_strlit("network");
        reveal_strlit("disk");
        assert("network"@[0] != "disk"@[0]);
    }
    if str_eq(name, "network") {
        Some(VirtualDevice::Network)
    } else if str_eq(name, "disk") {
        Some(VirtualDevice::Disk)
    } else {
        None
    }
}

impl VirtualDevice {
    /// The flag file whose presence means the device is on.
    pub fn flag_file(self) -> (r: &'static str)
        ensures
            self == VirtualDevice::Network ==> r@ == "/boot/usb.rndis0"@,
            self == VirtualDevice::Disk ==> r@ == "/boot/usb.disk0"@,
    {
        match self {
            VirtualDevice::Network => "/boot/usb.rndis0",
            VirtualDevice::Disk => "/boot/usb.disk0",
        }
    }

    /// The commands that switch the device: on when it is off, off when it is on.
    pub fn toggle_commands(self, currently_on: bool) -> (r: Vec<&'static str>)
        ensures
            !currently_on ==> r@.len() == 3 && r@[1]@ == "/etc/init.d/S03usbdev stop"@
                && r@[2]@ == "/etc/init.d/S03usbdev start"@,
            currently_on ==> r@.len() == 4 && r@[0]@ == "/etc/init.d/S03usbdev stop"@
                && r@[3]@ == "/etc/init.d/S03usbdev start"@,
            !currently_on && self == VirtualDevice::Network ==> r@[0]@ == "touch /boot/usb.rndis0"@,
            !currently_on && self == VirtualDevice::Disk ==> r@[0]@ == "touch /boot/usb.disk0"@,
            currently_on && self == VirtualDevice::Network ==>
                r@[1]@ == "rm -rf /sys/kernel/config/usb_gadget/g0/configs/c.1/rndis.usb0"@
                && r@[2]@ == "rm /boot/usb.rndis0"@,
            currently_on && self == VirtualDevice::Disk ==>
                r@[1]@ == "rm -rf /sys/kernel/config/usb_gadget/g0/configs/c.1/mass_storage.disk0"@
                && r@[2]@ == "rm /boot/usb.disk0"@,
    {
        let mut v: Vec<&'static str> = Vec::new();
        if !currently_on {
            match self {
                VirtualDevice::Network => v.push("touch /boot/usb.rndis0"),
                VirtualDevice::Disk => v.push("touch /boot/usb.disk0"),
            }
            v.push("/etc/init.d/S03usbdev stop");
            v.push("/etc/init.d/S03usbdev start");
        } else {
            v.push("/etc/init.d/S03usbdev stop");
            match self {
                VirtualDevice::Network => {
                    v.push("rm -rf /sys/kernel/config/usb_gadget/g0/configs/c.1/rndis.usb0");
                    v.push("rm /boot/usb.rndis0");
                },
                VirtualDevice::Disk => {
                    v.push("rm -rf /sys/kernel/config/usb_gadget/g0/configs/c.1/mass_storage.disk0");
                    v.push("rm /boot/usb.disk0");
                },
            }
            v.push("/etc/init.d/S03usbdev start");
        }
        v
    }
}

/// `s` begins with `p`.
pub open spec fn begins(s: Seq<char>, p: Seq<char>) -> bool {
    p.len() <= s.len() && s.subrange(0, p.len() as int) == p
}

/// The kind of an interface by its name: wired for `eth*` and `en*`,
/// wireless for `wlan*` and `wl*`; others are not listed.
pub open spec fn spec_interface_kind(name: Seq<char>) -> Option<Seq<char>> {
    if begins(name, "eth"@) || begins(name, "en"@) {
        Some("Wired"@)
    } else if begins(name, "wlan"@) || begins(name, "wl"@) {
        Some("Wireless"@)
    } else {
        None
    }
}

/// The kind of an interface by its name.
pub fn interface_kind(name: &str) -> (r: Option<&'static str>)
    ensures
        r matches Some(k) ==> spec_interface_kind(name@) == Some(k@),
        r is None ==> spec_interface_kind(name@) is None,
{
    let chars = crate::text::chars_of(name);
    if crate::textscan::starts_with_str(chars.as_slice(), "eth") || crate::textscan::starts_with_str(chars.as_slice(), "en") {
        Some("Wired")
    } else if crate::textscan::starts_with_str(chars.as_slice(), "wlan") || crate::textscan::starts_with_str(chars.as_slice(), "wl") {
        Some("Wireless")
    } else {
        None
    }
}

/// The mDNS name of a host: the trimmed host name with `.local`, or
/// nothing for an empty name.
pub fn mdns_name(hostname: &str) -> (r: String)
    ensures
        spec_trim(hostname@).len() == 0 ==> r@.len() == 0,
        spec_trim(hostname@).len() > 0 ==> r@ == spec_trim(hostname@) + ".local"@,
{
    let chars = crate::text::chars_of(hostname);
    let t = trim(chars.as_slice());
    if t.len() == 0 {
        proof {
            reveal_strlit("");
        }
        return String::from_str("");
    }
    let mut s = crate::text::string_of(t);
    s.append(".local");
    s
}

} // verus!
