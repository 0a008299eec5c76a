//! The Tailscale extension: the state shown for the daemon's backend
//! state, and what is read from the output of the `tailscale` command
//! (login URL, Funnel URL, connection, version).

use vstd::prelude::*;
use vstd::string::StringExecFns;
use crate::textscan::{
    find_sub, has_sub, contains_sub, lemma_find_from_found, lines_of, spec_find_sub, spec_lines, spec_trim,
    split_whitespace, starts_with, starts_with_str, str_eq, trim, ws_tokens,
};

verus! {

/// Status as the installation page shows it.
#[derive(Clone, Debug)]
pub struct TsStatusResponse {
    pub installed: bool,
    pub running: bool,
    pub connected: bool,
    pub backend_state: String,
    pub hostname: String,
    pub tailnet_name: String,
    pub ips: Vec<String>,
}

/// The login URL to open.
#[derive(Clone, Debug)]
pub struct LoginRsp {
    pub url: String,
}

/// Status as the web UI shows it.
#[derive(Clone, Debug)]
pub struct GetTailscaleStatusRsp {
    pub state: String,
    pub name: String,
    pub ip: String,
    pub account: String,
}

#[derive(Clone, Copy, Debug)]
pub struct GetAutoUpdateRsp {
    pub enabled: bool,
}

#[derive(Clone, Copy, Debug)]
pub struct SetAutoUpdateReq {
    pub enabled: bool,
}

/// What the capabilities endpoint reports of Tailscale.
#[derive(Clone, Debug)]
pub struct TailscaleCapabilities {
    pub installed: bool,
    pub connected: bool,
    pub funnel_active: bool,
    pub funnel_url: Option<String>,
}

/// The UI state for a backend state.
pub open spec fn spec_ui_state(state: Seq<char>) -> Seq<char> {
    if state == "NeedsLogin"@ {
        "notLogin"@
    } else if state == "Running"@ {
        "running"@
    } else if state == "Stopped"@ {
        "stopped"@
    } else {
        "notRunning"@
    }
}

/// Maps the daemon's backend state to the UI state: needs-login, running
/// and stopped map to themselves; starting, no state and anything else
/// count as not running.
pub fn ui_state_from_backend_state(state: &str) -> (r: &'static str)
    ensures
        r@ == spec_ui_state(state@),
{
    if str_eq(state, "NoState") || str_eq(state, "Starting") {
        proof {
            reveal_strlit("NoState");
            reveal_strlit("Starting");
            reveal_strlit("NeedsLogin");
            reveal_strlit("Running");
            reveal_strlit("Stopped");
            assert("NoState"@[0] != "NeedsLogin"@[0] || "NoState"@[1] != "NeedsLogin"@[1]);
            assert("NoState"@[0] != "Running"@[0] && "NoState"@[0] != "Stopped"@[0]);
            assert("Starting"@[2] != "Stopped"@[2] && "Starting"@[0] != "Running"@[0]);
            assert("Starting"@[0] != "NeedsLogin"@[0]);
        }
        "notRunning"
    } else if str_eq(state, "NeedsLogin") {
        "notLogin"
    } else if str_eq(state, "Running") {
        "running"
    } else if str_eq(state, "Stopped") {
        "stopped"
    } else {
        "notRunning"
    }
}

/// The login URL on a line of the login command's output: the word that
/// starts at the first `https://`, when it is a Tailscale login URL.
pub open spec fn login_url_of_line(line: Seq<char>) -> Option<Seq<char>> {
    match spec_find_sub(line, "https://"@) {
        None => None,
        Some(i) => {
            let words = ws_tokens(line.subrange(i, line.len() as int));
            let url = if words.len() > 0 { words[0] } else { Seq::empty() };
            if starts_with(url, "https://login.tailscale.com"@) { Some(url) } else { None }
        },
    }
}

/// The first login URL among `lines` from line `k` on.
pub open spec fn login_url_from(lines: Seq<Seq<char>>, k: int) -> Option<Seq<char>>
    decreases lines.len() - k,
{
    if k < 0 || k >= lines.len() {
        None
    } else {
        match login_url_of_line(lines[k]) {
            Some(u) => Some(u),
            None => login_url_from(lines, k + 1),
        }
    }
}

fn line_login_url(line: &Vec<char>) -> (r: Option<String>)
    ensures
        r matches Some(u) ==> login_url_of_line(line@) == Some(u@),
        r is None ==> login_url_of_line(line@) is None,
{
    match find_sub(line, "https://") {
        None => None,
        Some(i) => {
            proof {
                lemma_find_from_found(line@, "https://"@, 0);
                assert(line@.len() == line.len());
            }
            let words = split_whitespace(vstd::slice::slice_subrange(line.as_slice(), i, line.len()));
            let url: Vec<char> = if words.len() > 0 { words[0].clone() } else { Vec::new() };
            proof {
                if words@.len() > 0 {
                    assert(words@.map_values(|v: Vec<char>| v@)[0] == words@[0]@);
                    assert(url@ =~= words@[0]@);
                }
            }
            if starts_with_str(url.as_slice(), "https://login.tailscale.com") {
                Some(crate::text::string_of(url.as_slice()))
            } else {
                None
            }
        },
    }
}

/// Finds the login URL in the output (error output first, then standard
/// output) of `tailscale login`.
pub fn extract_login_url(stderr: &str, stdout: &str) -> (r: Option<String>)
    ensures
        ({
            let lines = spec_lines(stderr@ + stdout@);
            &&& r matches Some(u) ==> login_url_from(lines, 0) == Some(u@)
            &&& r is None ==> login_url_from(lines, 0) is None
        }),
{
    let mut combined = String::from_str(stderr);
    combined.append(stdout);
    let chars = crate::text::chars_of(combined.as_str());
    let lines = lines_of(chars.as_slice());
    let ghost all = lines@.map_values(|v: Vec<char>| v@);
    let mut k: usize = 0;
    while k < lines.len()
        invariant
            all == lines@.map_values(|v: Vec<char>| v@),
            all == spec_lines(stderr@ + stdout@),
            k <= all.len(),
            login_url_from(all, 0) == login_url_from(all, k as int),
        decreases lines.len() - k,
    {
        assert(all[k as int] == lines@[k as int]@);
        match line_login_url(&lines[k]) {
            Some(u) => {
                return Some(u);
            },
            None => {},
        }
        k = k + 1;
    }
    None
}

/// The Funnel URL in the output of `tailscale serve status`: the text from
/// the first `https://` to the next line feed, space or tab, trimmed, when
/// it is a `.ts.net` address.
pub open spec fn spec_funnel_url(status: Seq<char>) -> Option<Seq<char>> {
    match spec_find_sub(status, "https://"@) {
        None => None,
        Some(start) => {
            let part = status.subrange(start, status.len() as int);
            let end = first_separator(part, 0);
            let url = spec_trim(part.subrange(0, end));
            if has_sub(url, ".ts.net"@) { Some(url) } else { None }
        },
    }
}

/// A line feed, space or tab.
pub open spec fn is_separator(c: char) -> bool {
    c == '\n' || c == ' ' || c == '\t'
}

/// The first separator at or after `i`, or the end.
pub open spec fn first_separator(s: Seq<char>, i: int) -> int
    decreases s.len() - i,
{
    if i < 0 || i >= s.len() {
        s.len() as int
    } else if is_separator(s[i]) {
        i
    } else {
        first_separator(s, i + 1)
    }
}

proof fn lemma_first_separator(s: Seq<char>, i: int)
    requires
        0 <= i <= s.len(),
    ensures
        i <= first_separator(s, i) <= s.len(),
    decreases s.len() - i,
{
    if i < s.len() && !is_separator(s[i]) {
        lemma_first_separator(s, i + 1);
    }
}

/// Reads the Funnel URL from the output of `tailscale serve status`.
pub fn extract_funnel_url(status: &str) -> (r: Option<String>)
    ensures
        r matches Some(u) ==> spec_funnel_url(status@) == Some(u@),
        r is None ==> spec_funnel_url(status@) is None,
{
    let chars = crate::text::chars_of(status);
    match find_sub(&chars, "https://") {
        None => None,
        Some(start) => {
            proof {
                lemma_find_from_found(chars@, "https://"@, 0);
                assert(chars@.len() == chars.len());
            }
            let part = vstd::slice::slice_subrange(chars.as_slice(), start, chars.len());
            let mut end: usize = 0;
            while end < part.len() && !(part[end] == '\n' || part[end] == ' ' || part[end] == '\t')
                invariant
                    end <= part@.len(),
                    first_separator(part@, 0) == first_separator(part@, end as int),
                decreases part.len() - end,
            {
                end = end + 1;
            }
            proof {
                lemma_first_separator(part@, 0);
            }
            let url_chars = trim(vstd::slice::slice_subrange(part, 0, end));
            let url = vstd::slice::slice_to_vec(url_chars);
            if contains_sub(&url, ".ts.net") {
                Some(crate::text::string_of(url_chars))
            } else {
                None
            }
        },
    }
}

/// Whether `tailscale status --json` says the node is online.
pub fn output_says_online(json: &str) -> (r: bool)
    ensures
        r == (has_sub(json@, "\"Online\":true"@) || has_sub(json@, "\"Online\": true"@)),
{
    let chars = crate::text::chars_of(json);
    contains_sub(&chars, "\"Online\":true") || contains_sub(&chars, "\"Online\": true")
}

/// Whether `tailscale serve status` shows an active Funnel.
pub fn output_shows_funnel(status: &str) -> (r: bool)
    ensures
        r == (has_sub(status@, "https://"@) || has_sub(status@, "funnel"@)),
{
    let chars = crate::text::chars_of(status);
    contains_sub(&chars, "https://") || contains_sub(&chars, "funnel")
}

/// Whether a failed `tailscale update` means the command does not exist,
/// so that the binaries are to be updated by hand.
pub fn update_command_missing(stderr: &str) -> (r: bool)
    ensures
        r == (has_sub(stderr@, "unknown command"@) || has_sub(stderr@, "not recognized"@)),
{
    let chars = crate::text::chars_of(stderr);
    contains_sub(&chars, "unknown command") || contains_sub(&chars, "not recognized")
}

/// The version `tailscale version` prints: its first line.
pub fn version_from_output(output: &str) -> (r: String)
    ensures
        spec_lines(output@).len() > 0 ==> r@ == spec_lines(output@)[0],
        spec_lines(output@).len() == 0 ==> r@.len() == 0,
{
    let chars = crate::text::chars_of(output);
    let lines = lines_of(chars.as_slice());
    if lines.len() > 0 {
        assert(lines@.map_values(|v: Vec<char>| v@)[0] == lines@[0]@);
        crate::text::string_of(lines[0].as_slice())
    } else {
        proof {
            reveal_strlit("");
        }
        String::from_str("")
    }
}

/// The command that turns automatic updates on or off.
pub fn auto_update_command(enabled: bool) -> (r: String)
    ensures
        r@ == "tailscale set --auto-update="@ + (if enabled { "true"@ } else { "false"@ }),
{
    let mut cmd = String::from_str("tailscale set --auto-update=");
    cmd.append(if enabled { "true" } else { "false" });
    cmd
}

/// The capabilities when Tailscale is not installed: nothing is available.
pub fn capabilities_not_installed() -> (r: TailscaleCapabilities)
    ensures
        !r.installed && !r.connected && !r.funnel_active && r.funnel_url is None,
{
    TailscaleCapabilities { installed: false, connected: false, funnel_active: false, funnel_url: None }
}

/// The first of a node's addresses that is a dotted IPv4 address, or the
/// empty text when none is.
pub open spec fn spec_first_ipv4(ips: Seq<Seq<char>>, i: int) -> Seq<char>
    decreases ips.len() - i,
{
    if i < 0 || i >= ips.len() {
        Seq::empty()
    } else if crate::network::spec_is_ipv4_text(ips[i]) {
        ips[i]
    } else {
        spec_first_ipv4(ips, i + 1)
    }
}

/// The address a node is shown with: its first IPv4 address.
pub fn first_ipv4(ips: &Vec<String>) -> (r: String)
    ensures
        r@ == spec_first_ipv4(ips@.map_values(|s: String| s@), 0),
{
    let ghost v = ips@.map_values(|s: String| s@);
    let mut k: usize = 0;
    while k < ips.len()
        invariant
            v == ips@.map_values(|s: String| s@),
            k <= ips@.len(),
            spec_first_ipv4(v, 0) == spec_first_ipv4(v, k as int),
        decreases ips.len() - k,
    {
        assert(v[k as int] == ips@[k as int]@);
        if crate::network::NetworkManager::is_ipv4_text(ips[k].as_str()) {
            return ips[k].clone();
        }
        k = k + 1;
    }
    proof {
        reveal_strlit("");
    }
    String::from_str("")
}

} // verus!
