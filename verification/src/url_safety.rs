//! Guards for HTTP fetches that the server makes on a client's behalf:
//! only http(s) URLs to public hosts are allowed.

use vstd::prelude::*;
use vstd::string::StringExecFns;
use crate::text::{spec_to_lowercase, to_lowercase};
use crate::textscan::{is_ws, spec_trim, str_eq, trim};

verus! {

/// An IP address, as its octets or its 16-bit segments.
#[derive(Clone, Copy, Debug)]
pub enum IpAddress {
    V4([u8; 4]),
    V6([u16; 8]),
}

/// The IPv4 addresses that fetches may not reach: the private ranges
/// (10/8, 172.16/12, 192.168/16), loopback (127/8), link-local (169.254/16),
/// the unspecified and broadcast addresses, 0/8 and shared address space
/// (100.64/10).
pub open spec fn blocked_v4(a: u8, b: u8, c: u8, d: u8) -> bool {
    ||| a == 10
    ||| (a == 172 && 16 <= b <= 31)
    ||| (a == 192 && b == 168)
    ||| a == 127
    ||| (a == 169 && b == 254)
    ||| (a == 0 && b == 0 && c == 0 && d == 0)
    ||| (a == 255 && b == 255 && c == 255 && d == 255)
    ||| a == 0
    ||| (a == 100 && 64 <= b <= 127)
}

/// The addresses that fetches may not reach: the IPv4 ones of
/// [`blocked_v4`]; for IPv6 loopback, unspecified, unique-local (fc00::/7),
/// link-local (fe80::/10), and an IPv4-mapped address (::ffff:a.b.c.d) whose
/// IPv4 address is blocked.
pub open spec fn spec_is_blocked_ip(ip: IpAddress) -> bool {
    match ip {
        IpAddress::V4(o) => blocked_v4(o@[0], o@[1], o@[2], o@[3]),
        IpAddress::V6(s) => {
            ||| (s@[0] == 0 && s@[1] == 0 && s@[2] == 0 && s@[3] == 0 && s@[4] == 0 && s@[5] == 0 && s@[6] == 0 && s@[7] == 1)
            ||| (s@[0] == 0 && s@[1] == 0 && s@[2] == 0 && s@[3] == 0 && s@[4] == 0 && s@[5] == 0 && s@[6] == 0 && s@[7] == 0)
            ||| (s@[0] & 0xfe00u16) == 0xfc00u16
            ||| (s@[0] & 0xffc0u16) == 0xfe80u16
            ||| (s@[0] == 0 && s@[1] == 0 && s@[2] == 0 && s@[3] == 0 && s@[4] == 0 && s@[5] == 0xffff
                && blocked_v4((s@[6] / 256) as u8, (s@[6] % 256) as u8, (s@[7] / 256) as u8, (s@[7] % 256) as u8))
        },
    }
}

fn blocked_v4_exec(a: u8, b: u8, c: u8, d: u8) -> (r: bool)
    ensures
        r == blocked_v4(a, b, c, d),
{
    let private = a == 10 || (a == 172 && 16 <= b && b <= 31) || (a == 192 && b == 168);
    let loopback = a == 127;
    let link_local = a == 169 && b == 254;
    let unspecified = a == 0 && b == 0 && c == 0 && d == 0;
    let broadcast = a == 255 && b == 255 && c == 255 && d == 255;
    private || loopback || link_local || unspecified || broadcast || a == 0 || (a == 100 && 64 <= b && b <= 127)
}

/// Whether fetches may not reach an address.
pub fn is_blocked_ip(ip: IpAddress) -> (r: bool)
    ensures
        r == spec_is_blocked_ip(ip),
{
    match ip {
        IpAddress::V4(o) => blocked_v4_exec(o[0], o[1], o[2], o[3]),
        IpAddress::V6(s) => {
            let loopback = s[0] == 0 && s[1] == 0 && s[2] == 0 && s[3] == 0 && s[4] == 0 && s[5] == 0 && s[6] == 0 && s[7] == 1;
            let unspecified = s[0] == 0 && s[1] == 0 && s[2] == 0 && s[3] == 0 && s[4] == 0 && s[5] == 0 && s[6] == 0 && s[7] == 0;
            let mapped = s[0] == 0 && s[1] == 0 && s[2] == 0 && s[3] == 0 && s[4] == 0 && s[5] == 0xffff
                && blocked_v4_exec((s[6] / 256) as u8, (s[6] % 256) as u8, (s[7] / 256) as u8, (s[7] % 256) as u8);
            loopback || unspecified || (s[0] & 0xfe00) == 0xfc00 || (s[0] & 0xffc0) == 0xfe80 || mapped
        },
    }
}

/// The parts of a URL that the guard reads: scheme, host (if any), the
/// host as an IP address when it is one, and the serialised URL.
#[derive(Clone, Debug)]
pub struct ParsedUrl {
    pub scheme: String,
    pub host: Option<String>,
    pub ip: Option<IpAddress>,
    pub href: String,
}

/// What `url::Url::parse` gives for a text: `None` when it is not a valid
/// URL, otherwise its scheme, its host as `host_str` gives it, its host as
/// an address when `host()` is `Ipv4` or `Ipv6` (by octets or segments),
/// and its serialisation.
pub uninterp spec fn spec_url_parse(text: Seq<char>) -> Option<(Seq<char>, Option<Seq<char>>, Option<IpAddress>, Seq<char>)>;

/// `url::Url::parse`, with the scheme, `host_str`, `host` (as an address
/// when it is one) and serialisation of the result.
#[verifier::external_body]
fn parse_url(text: &str) -> (r: Option<ParsedUrl>)
    ensures
        r matches Some(u) ==> spec_url_parse(text@) matches Some((s, h, a, x)) && u.scheme@ == s && u.href@ == x
            && u.ip == a && (match (u.host, h) { (Some(p), Some(q)) => p@ == q, (None, None) => true, _ => false }),
        r is None ==> spec_url_parse(text@) is None,
{
    match url::Url::parse(text) {
        Ok(u) => Some(ParsedUrl {
            scheme: u.scheme().to_string(),
            host: u.host_str().map(|h| h.to_string()),
            ip: match u.host() {
                Some(url::Host::Ipv4(a)) => Some(IpAddress::V4(a.octets())),
                Some(url::Host::Ipv6(a)) => Some(IpAddress::V6(a.segments())),
                _ => None,
            },
            href: u.as_str().to_string(),
        }),
        Err(_) => None,
    }
}

/// A bracket around an IPv6 literal.
pub open spec fn is_bracket(c: char) -> bool {
    c == '[' || c == ']'
}

/// `s` without brackets at either end (`str::trim_matches`).
pub open spec fn strip_brackets(s: Seq<char>) -> Seq<char>
    decreases s.len(),
{
    if s.len() > 0 && is_bracket(s[0]) {
        strip_brackets(s.drop_first())
    } else if s.len() > 0 && is_bracket(s.last()) {
        strip_brackets(s.drop_last())
    } else {
        s
    }
}

fn strip_brackets_exec(s: &[char]) -> (r: Vec<char>)
    ensures
        r@ == strip_brackets(s@),
{
    let mut v: Vec<char> = vstd::slice::slice_to_vec(s);
    while v.len() > 0 && (v[0] == '[' || v[0] == ']' || v[v.len() - 1] == '[' || v[v.len() - 1] == ']')
        invariant
            strip_brackets(v@) == strip_brackets(s@),
        decreases v@.len(),
    {
        if v[0] == '[' || v[0] == ']' {
            let next = vstd::slice::slice_to_vec(vstd::slice::slice_subrange(v.as_slice(), 1, v.len()));
            assert(next@ =~= v@.drop_first());
            v = next;
        } else {
            let next = vstd::slice::slice_to_vec(vstd::slice::slice_subrange(v.as_slice(), 0, v.len() - 1));
            assert(next@ =~= v@.drop_last());
            v = next;
        }
    }
    v
}

/// `s` ends with `suffix`.
pub open spec fn ends_with(s: Seq<char>, suffix: Seq<char>) -> bool {
    suffix.len() <= s.len() && s.subrange(s.len() - suffix.len(), s.len() as int) == suffix
}

/// The host a URL is checked by: trimmed, without brackets, in lower case.
pub open spec fn normal_host(h: Seq<char>) -> Seq<char> {
    spec_to_lowercase(strip_brackets(spec_trim(h)))
}

/// Why a URL is refused, if it is: not a URL, not http(s), no host, a
/// `localhost` host, or a host that is a private or reserved address.
pub open spec fn spec_url_refusal(text: Seq<char>) -> Option<Seq<char>> {
    match spec_url_parse(text) {
        None => Some("invalid url"@),
        Some((scheme, host, ip, _)) => if !(scheme == "http"@ || scheme == "https"@) {
            Some("only http and https URLs are allowed"@)
        } else {
            match host {
                None => Some("missing host"@),
                Some(h) => {
                    let n = normal_host(h);
                    if n.len() == 0 {
                        Some("missing host"@)
                    } else if n == "localhost"@ || ends_with(n, ".localhost"@) {
                        Some("localhost is not allowed"@)
                    } else if ip matches Some(a) && spec_is_blocked_ip(a) {
                        Some("private or reserved addresses are not allowed"@)
                    } else {
                        None
                    }
                },
            }
        },
    }
}

/// A URL that passed the guard, with its normalised host.
#[derive(Clone, Debug)]
pub struct RemoteUrl {
    pub href: String,
    pub host: String,
}

/// Checks that a URL is an http(s) URL whose host is neither `localhost`
/// nor a private or reserved address.
pub fn validate_remote_http_url(url_str: &str) -> (r: Result<RemoteUrl, String>)
    ensures
        spec_url_refusal(url_str@) matches Some(m) ==> (r matches Err(e) && e@ == m),
        spec_url_refusal(url_str@) is None ==> (r matches Ok(u)
            && spec_url_parse(url_str@) matches Some((_, Some(h), _, x)) && u.href@ == x && u.host@ == normal_host(h)),
{
    let url = match parse_url(url_str) {
        Some(u) => u,
        None => {
            return Err(String::from_str("invalid url"));
        },
    };
    if !(str_eq(url.scheme.as_str(), "http") || str_eq(url.scheme.as_str(), "https")) {
        return Err(String::from_str("only http and https URLs are allowed"));
    }
    let raw = match &url.host {
        Some(h) => h,
        None => {
            return Err(String::from_str("missing host"));
        },
    };
    let chars = crate::text::chars_of(raw.as_str());
    let stripped = strip_brackets_exec(trim(chars.as_slice()));
    let stripped_str = crate::text::string_of(stripped.as_slice());
    let host = to_lowercase(stripped_str.as_str());
    let host_chars = crate::text::chars_of(host.as_str());
    if host_chars.len() == 0 {
        return Err(String::from_str("missing host"));
    }
    let is_localhost = str_eq(host.as_str(), "localhost") || {
        proof {
            reveal_strlit(".localhost");
        }
        let n = host_chars.len();
        n >= 10 && {
            let tail = crate::text::string_of(vstd::slice::slice_subrange(host_chars.as_slice(), n - 10, n));
            str_eq(tail.as_str(), ".localhost")
        }
    };
    if is_localhost {
        return Err(String::from_str("localhost is not allowed"));
    }
    if let Err(e) = check_host_address(url.ip) {
        return Err(e);
    }
    Ok(RemoteUrl { href: url.href.clone(), host })
}

/// The verdict on a host that is an IP address: refused when the address
/// is private or reserved. A host that is not an address passes.
pub fn check_host_address(addr: Option<IpAddress>) -> (r: Result<(), String>)
    ensures
        (addr matches Some(ip) && spec_is_blocked_ip(ip)) ==> (r matches Err(e) && e@ == "private or reserved addresses are not allowed"@),
        !(addr matches Some(ip) && spec_is_blocked_ip(ip)) ==> r is Ok,
{
    match addr {
        Some(ip) => {
            if is_blocked_ip(ip) {
                Err(String::from_str("private or reserved addresses are not allowed"))
            } else {
                Ok(())
            }
        },
        None => Ok(()),
    }
}

} // verus!
