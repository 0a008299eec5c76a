//! Network settings of the device: Wake-on-LAN targets, Wi-Fi state and the
//! Ethernet configuration (DHCP or a static address).

use vstd::prelude::*;
use vstd::string::{StringExecFns, StrSliceExecFns};
use crate::text::{is_alphanumeric, spec_is_alphanumeric};
use crate::textscan::{
    dec_string, spec_dec, spec_parse_u64, parse_u64, split_at_char, split_char, first_index,
    lemma_first_index, find_char, lines_of, spec_lines, str_eq, starts_with, starts_with_str,
    spec_trim, trim, split_whitespace, ws_tokens, strip_cr,
};

verus! {

/// Errors of the network settings; I/O errors are carried as messages.
#[derive(Clone, Debug)]
pub enum NetworkError {
    Io(String),
    InvalidMac(String),
    CommandFailed(String),
}

/// A Wake-on-LAN target: its MAC address and an optional name.
#[derive(Clone, Debug)]
pub struct WolEntry {
    pub mac: String,
    pub name: String,
}

/// An Ethernet configuration.
#[derive(Clone, Debug)]
pub struct EthernetConfig {
    pub dhcp: bool,
    pub ip: Option<String>,
    pub netmask: Option<String>,
    pub gateway: Option<String>,
    pub dns1: Option<String>,
    pub dns2: Option<String>,
}

/// The saved and the live Ethernet configuration.
#[derive(Clone, Debug)]
pub struct GetEthernetConfigRsp {
    pub config: EthernetConfig,
    pub current: EthernetConfig,
}

/// A request to change the Ethernet configuration.
#[derive(Clone, Debug)]
pub struct SetEthernetConfigReq {
    pub dhcp: bool,
    pub ip: Option<String>,
    pub netmask: Option<String>,
    pub gateway: Option<String>,
    pub dns1: Option<String>,
    pub dns2: Option<String>,
}

/// The network settings of the device.
pub struct NetworkManager;

/// `s` in upper case, as `str::to_uppercase` maps it (Unicode case mapping).
pub uninterp spec fn spec_to_uppercase(s: Seq<char>) -> Seq<char>;

/// `str::to_uppercase`.
#[verifier::external_body]
pub(crate) fn to_uppercase(s: &str) -> (r: String)
    ensures
        r@ == spec_to_uppercase(s@),
{
    s.to_uppercase()
}

/// `c` is an upper-case hexadecimal digit.
pub open spec fn is_upper_hex(c: char) -> bool {
    ('0' <= c <= '9') || ('A' <= c <= 'F')
}

/// `s` is exactly twelve upper-case hexadecimal digits.
pub open spec fn is_bare_mac(s: Seq<char>) -> bool {
    s.len() == 12 && forall|i: int| 0 <= i < 12 ==> is_upper_hex(#[trigger] s[i])
}

/// `regex::Regex::is_match` for the pattern `^[0-9A-F]{12}$`: the text is
/// twelve characters, each a digit or one of `A` to `F`. The pattern is a
/// valid literal, so building it does not fail.
#[verifier::external_body]
fn matches_bare_mac(text: &str) -> (r: bool)
    ensures
        r == is_bare_mac(text@),
{
    regex::Regex::new("^[0-9A-F]{12}$").unwrap().is_match(text)
}

/// `c` separates the bytes of a written MAC address.
pub open spec fn is_mac_separator(c: char) -> bool {
    c == '-' || c == ':' || c == '.'
}

/// `s` without separators.
pub open spec fn strip_separators(s: Seq<char>) -> Seq<char> {
    s.filter(|c: char| !is_mac_separator(c))
}

/// Twelve hexadecimal digits written as six colon-separated pairs.
pub open spec fn colon_mac(s: Seq<char>) -> Seq<char> {
    s.subrange(0, 2) + seq![':'] + s.subrange(2, 4) + seq![':'] + s.subrange(4, 6) + seq![':']
        + s.subrange(6, 8) + seq![':'] + s.subrange(8, 10) + seq![':'] + s.subrange(10, 12)
}

/// The normal form of a MAC address: upper case, separators removed, then
/// colon-separated pairs; `None` when that leaves anything but twelve
/// hexadecimal digits.
pub open spec fn spec_parse_mac(mac: Seq<char>) -> Option<Seq<char>> {
    let clean = strip_separators(spec_to_uppercase(mac));
    if is_bare_mac(clean) {
        Some(colon_mac(clean))
    } else {
        None
    }
}

/// A character allowed in a target's name.
pub open spec fn name_char_ok(c: char) -> bool {
    spec_is_alphanumeric(c) || c == '_' || c == '-' || c == '.'
}

/// The bytes of a netmask in dotted form: four dot-separated parts, each
/// read as `str::parse::<u8>` does.
pub open spec fn spec_parse_u8(s: Seq<char>) -> Option<u8> {
    match spec_parse_u64(s) {
        Some(v) => if v <= 255 { Some(v as u8) } else { None },
        None => None,
    }
}

/// The four bytes of a dotted netmask, if it has that form.
pub open spec fn spec_netmask_octets(s: Seq<char>) -> Option<Seq<u8>> {
    let parts = split_char(s, '.');
    if parts.len() != 4 {
        None
    } else {
        match (spec_parse_u8(parts[0]), spec_parse_u8(parts[1]), spec_parse_u8(parts[2]), spec_parse_u8(parts[3])) {
            (Some(a), Some(b), Some(c), Some(d)) => Some(seq![a, b, c, d]),
            _ => None,
        }
    }
}

/// The four bytes as a 32-bit value, most significant first.
pub open spec fn mask_bits(o: Seq<u8>) -> u32 {
    ((o[0] as u32) << 24u32) | ((o[1] as u32) << 16u32) | ((o[2] as u32) << 8u32) | (o[3] as u32)
}

/// The set bits of `bits` form one run from the top: the complement plus
/// one has no bit in common with the complement.
pub open spec fn contiguous_mask(bits: u32) -> bool {
    let inv = !bits;
    inv & (((inv as int + 1) % 0x1_0000_0000) as u32) == 0
}

/// A netmask is valid when it is four bytes whose bits form one run from the top.
pub open spec fn spec_valid_netmask(s: Seq<char>) -> bool {
    match spec_netmask_octets(s) {
        Some(o) => contiguous_mask(mask_bits(o)),
        None => false,
    }
}

/// Bit `j` of the bytes `o`, counting from the top bit of the first byte.
pub open spec fn bit_set(o: Seq<u8>, j: int) -> bool {
    (o[j / 8] >> ((7 - j % 8) as u8)) & 1u8 == 1u8
}

/// The number of set bits before the first clear one, from bit `j` on.
pub open spec fn leading_ones_from(o: Seq<u8>, j: int) -> int
    decreases 32 - j,
{
    if j < 0 || j >= 32 {
        32
    } else if bit_set(o, j) {
        leading_ones_from(o, j + 1)
    } else {
        j
    }
}

/// The prefix length of a netmask: its set bits before the first clear one.
pub open spec fn spec_netmask_to_cidr(s: Seq<char>) -> Result<u8, Seq<char>> {
    let parts = split_char(s, '.');
    if parts.len() != 4 {
        Err("Invalid netmask format"@)
    } else {
        match spec_netmask_octets(s) {
            Some(o) => Ok(leading_ones_from(o, 0) as u8),
            None => Err("Invalid netmask octets"@),
        }
    }
}

/// The 32-bit mask of a prefix length (at most 32).
pub open spec fn cidr_mask(cidr: u8) -> u32 {
    if cidr == 0 { 0u32 } else { (0xFFFF_FFFFu32 << ((32 - cidr) as u32)) }
}

/// A 32-bit value in dotted decimal form.
pub open spec fn dotted(m: u32) -> Seq<char> {
    spec_dec(((m >> 24u32) & 0xFFu32) as nat) + "."@ + spec_dec(((m >> 16u32) & 0xFFu32) as nat) + "."@
        + spec_dec(((m >> 8u32) & 0xFFu32) as nat) + "."@ + spec_dec((m & 0xFFu32) as nat)
}

/// The dotted netmask of a prefix length; lengths above 32 give 255.255.255.0.
pub open spec fn spec_cidr_to_netmask(cidr: u8) -> Seq<char> {
    if cidr > 32 {
        "255.255.255.0"@
    } else {
        dotted(cidr_mask(cidr))
    }
}

fn parse_u8(s: &[char]) -> (r: Option<u8>)
    ensures
        r == spec_parse_u8(s@),
{
    match parse_u64(s) {
        Some(v) => if v <= 255 { Some(v as u8) } else { None },
        None => None,
    }
}

fn netmask_octets(netmask: &str) -> (r: Option<[u8; 4]>)
    ensures
        r matches Some(a) ==> spec_netmask_octets(netmask@) == Some(a@),
        r is None ==> spec_netmask_octets(netmask@) is None,
{
    let text = crate::text::chars_of(netmask);
    let parts = split_at_char(text.as_slice(), '.');
    if parts.len() != 4 {
        return None;
    }
    let ghost pv = parts@.map_values(|v: Vec<char>| v@);
    assert(pv[0] == parts@[0]@ && pv[1] == parts@[1]@ && pv[2] == parts@[2]@ && pv[3] == parts@[3]@);
    let a = parse_u8(parts[0].as_slice());
    let b = parse_u8(parts[1].as_slice());
    let c = parse_u8(parts[2].as_slice());
    let d = parse_u8(parts[3].as_slice());
    match (a, b, c, d) {
        (Some(a), Some(b), Some(c), Some(d)) => {
            let arr: [u8; 4] = [a, b, c, d];
            assert(arr@ =~= seq![a, b, c, d]);
            Some(arr)
        },
        _ => None,
    }
}

fn bits_of(o: &[u8; 4]) -> (r: u32)
    ensures
        r == mask_bits(o@),
{
    ((o[0] as u32) << 24) | ((o[1] as u32) << 16) | ((o[2] as u32) << 8) | (o[3] as u32)
}

/// Formats a 32-bit value in dotted decimal form.
fn dotted_string(m: u32) -> (r: String)
    ensures
        r@ == dotted(m),
{
    let mut s = dec_string(((m >> 24) & 0xFF) as u64);
    s.append(".");
    let b = dec_string(((m >> 16) & 0xFF) as u64);
    s.append(b.as_str());
    s.append(".");
    let c = dec_string(((m >> 8) & 0xFF) as u64);
    s.append(c.as_str());
    s.append(".");
    let d = dec_string((m & 0xFF) as u64);
    s.append(d.as_str());
    proof {
        reveal_strlit(".");
    }
    s
}

impl NetworkManager {
    /// Normalises a MAC address to colon-separated upper-case pairs.
    pub fn parse_mac(mac: &str) -> (r: Result<String, NetworkError>)
        ensures
            r matches Ok(s) ==> spec_parse_mac(mac@) == Some(s@),
            r is Err ==> spec_parse_mac(mac@) is None,
            r matches Err(e) ==> (e matches NetworkError::InvalidMac(m) && m@ == mac@),
    {
        let upper = to_uppercase(mac);
        let chars = crate::text::chars_of(upper.as_str());
        let ghost u = chars@;
        let mut clean: Vec<char> = Vec::new();
        let mut k: usize = 0;
        while k < chars.len()
            invariant
                u == chars@,
                u == spec_to_uppercase(mac@),
                k <= u.len(),
                clean@ == u.subrange(0, k as int).filter(|c: char| !is_mac_separator(c)),
            decreases chars.len() - k,
        {
            proof {
                reveal(Seq::filter);
                assert(u.subrange(0, k + 1).drop_last() =~= u.subrange(0, k as int));
            }
            let c = chars[k];
            if !(c == '-' || c == ':' || c == '.') {
                clean.push(c);
            }
            k = k + 1;
        }
        assert(u.subrange(0, u.len() as int) =~= u);
        let clean_str = crate::text::string_of(clean.as_slice());
        if !matches_bare_mac(clean_str.as_str()) {
            return Err(NetworkError::InvalidMac(String::from_str(mac)));
        }
        let mut out: Vec<char> = Vec::new();
        let mut i: usize = 0;
        while i < 12
            invariant
                clean@.len() == 12,
                i <= 12,
                i % 2 == 0,
                out@ == (if i == 0 { Seq::<char>::empty() } else { colon_prefix(clean@, i as int) }),
            decreases 12 - i,
        {
            let ghost before = out@;
            if i > 0 {
                out.push(':');
            }
            out.push(clean[i]);
            out.push(clean[i + 1]);
            assert(out@ =~= colon_prefix(clean@, i + 2));
            i = i + 2;
        }
        proof {
            reveal_with_fuel(colon_prefix, 7);
        }
        assert(colon_prefix(clean@, 12) =~= colon_mac(clean@));
        Ok(crate::text::string_of(out.as_slice()))
    }

    /// Keeps the letters, digits, `_`, `-` and `.` of a target's name.
    pub fn sanitize_name(name: &str) -> (r: String)
        ensures
            r@ == name@.filter(|c: char| name_char_ok(c)),
    {
        let chars = crate::text::chars_of(name);
        let mut kept: Vec<char> = Vec::new();
        let mut k: usize = 0;
        while k < chars.len()
            invariant
                chars@ == name@,
                k <= chars@.len(),
                kept@ == chars@.subrange(0, k as int).filter(|c: char| name_char_ok(c)),
            decreases chars.len() - k,
        {
            proof {
                reveal(Seq::filter);
                assert(chars@.subrange(0, k + 1).drop_last() =~= chars@.subrange(0, k as int));
            }
            let c = chars[k];
            if is_alphanumeric(c) || c == '_' || c == '-' || c == '.' {
                kept.push(c);
            }
            k = k + 1;
        }
        assert(chars@.subrange(0, chars@.len() as int) =~= chars@);
        crate::text::string_of(kept.as_slice())
    }

    /// Whether a netmask is four bytes whose set bits form one run from the top.
    pub fn is_valid_netmask(netmask: &str) -> (r: bool)
        ensures
            r == spec_valid_netmask(netmask@),
    {
        match netmask_octets(netmask) {
            None => false,
            Some(o) => {
                let bits = bits_of(&o);
                let inverted = !bits;
                (inverted & inverted.wrapping_add(1)) == 0
            },
        }
    }

    /// The prefix length of a netmask.
    pub fn netmask_to_cidr(netmask: &str) -> (r: Result<u8, NetworkError>)
        ensures
            match (r, spec_netmask_to_cidr(netmask@)) {
                (Ok(c), Ok(d)) => c == d,
                (Err(NetworkError::CommandFailed(m)), Err(n)) => m@ == n,
                _ => false,
            },
    {
        let text = crate::text::chars_of(netmask);
        let parts = split_at_char(text.as_slice(), '.');
        if parts.len() != 4 {
            return Err(NetworkError::CommandFailed(String::from_str("Invalid netmask format")));
        }
        assert(parts@.map_values(|v: Vec<char>| v@).len() == parts@.len());
        let octets = match netmask_octets(netmask) {
            Some(o) => o,
            None => {
                return Err(NetworkError::CommandFailed(String::from_str("Invalid netmask octets")));
            },
        };
        let mut cidr: u8 = 0;
        let mut j: usize = 0;
        while j < 32
            invariant
                j <= 32,
                cidr as int == j,
                split_char(netmask@, '.').len() == 4,
                spec_netmask_octets(netmask@) == Some(octets@),
                leading_ones_from(octets@, 0) == leading_ones_from(octets@, j as int),
            decreases 32 - j,
        {
            let octet = octets[j / 8];
            let shift = (7 - j % 8) as u8;
            assert(octet == octets@[j as int / 8]);
            assert(shift == ((7 - j as int % 8) as u8));
            if (octet >> shift) & 1 == 1 {
                assert(bit_set(octets@, j as int));
                cidr = cidr + 1;
            } else {
                assert(!bit_set(octets@, j as int));
                assert(leading_ones_from(octets@, j as int) == j);
                return Ok(cidr);
            }
            j = j + 1;
        }
        Ok(cidr)
    }

    /// The dotted netmask of a prefix length.
    pub fn cidr_to_netmask(cidr: u8) -> (r: String)
        ensures
            r@ == spec_cidr_to_netmask(cidr),
    {
        if cidr > 32 {
            return String::from_str("255.255.255.0");
        }
        let mask: u32 = if cidr == 0 { 0 } else { 0xFFFF_FFFFu32 << ((32 - cidr) as u32) };
        dotted_string(mask)
    }
}

/// Splitting at `c` a text that begins with a piece free of `c` and then
/// `c` gives that piece, then the pieces of the rest.
proof fn lemma_split_char_cons(a: Seq<char>, rest: Seq<char>, c: char)
    requires
        forall|i: int| 0 <= i < a.len() ==> a[i] != c,
    ensures
        split_char(a + seq![c] + rest, c) == seq![a] + split_char(rest, c),
{
    let s = a + seq![c] + rest;
    lemma_first_index(s, c, 0);
    assert(s[a.len() as int] == c);
    match first_index(s, c, 0) {
        Some(p) => {
            if p < a.len() {
                assert(s[p] == a[p]);
            }
            assert(p == a.len());
        },
        None => {},
    }
    assert(s.subrange(0, a.len() as int) =~= a);
    assert(s.subrange(a.len() as int + 1, s.len() as int) =~= rest);
}

/// A text free of `c` is one piece.
proof fn lemma_split_char_none(a: Seq<char>, c: char)
    requires
        forall|i: int| 0 <= i < a.len() ==> a[i] != c,
    ensures
        split_char(a, c) == seq![a],
{
    lemma_first_index(a, c, 0);
}

/// A byte of the mask, written in decimal, reads back as that byte.
proof fn lemma_octet_reads_back(x: u32)
    requires
        x <= 255,
    ensures
        spec_parse_u8(spec_dec(x as nat)) == Some(x as u8),
        forall|i: int| 0 <= i < spec_dec(x as nat).len() ==> spec_dec(x as nat)[i] != '.',
{
    crate::textscan::lemma_dec_digits(x as nat);
    let d = spec_dec(x as nat);
    assert(crate::textscan::is_digit(d[0]));
    assert forall|i: int| 0 <= i < d.len() implies d[i] != '.' by {
        assert(crate::textscan::is_digit(d[i]));
    }
}

/// The bytes of a prefix mask, most significant first, and their bits.
proof fn lemma_prefix_mask_bytes(m: u32, c: u32, s: u32, r: u32)
    by (bit_vector)
    requires
        1 <= c <= 32,
        s == 32 - c,
        m == 0xFFFF_FFFFu32 << s,
        r < 8,
    ensures
        ((((m >> 24u32) & 0xFFu32) as u8 >> ((7 - r) as u8)) & 1u8 == 1u8) == (r < c),
        ((((m >> 16u32) & 0xFFu32) as u8 >> ((7 - r) as u8)) & 1u8 == 1u8) == (8 + r < c),
        ((((m >> 8u32) & 0xFFu32) as u8 >> ((7 - r) as u8)) & 1u8 == 1u8) == (16 + r < c),
        (((m & 0xFFu32) as u8 >> ((7 - r) as u8)) & 1u8 == 1u8) == (24 + r < c),
{
}

/// A value is its four bytes put back together; each byte is below 256.
proof fn lemma_bytes_rejoin(m: u32)
    by (bit_vector)
    ensures
        (m >> 24u32) & 0xFFu32 <= 255u32,
        (m >> 16u32) & 0xFFu32 <= 255u32,
        (m >> 8u32) & 0xFFu32 <= 255u32,
        m & 0xFFu32 <= 255u32,
        ((((m >> 24u32) & 0xFFu32) << 24u32) | (((m >> 16u32) & 0xFFu32) << 16u32)
            | (((m >> 8u32) & 0xFFu32) << 8u32) | (m & 0xFFu32)) == m,
{
}

/// The complement of a prefix mask and its successor share no bit.
proof fn lemma_prefix_mask_contiguous(m: u32, c: u32, s: u32)
    by (bit_vector)
    requires
        c <= 32,
        s == 32 - c,
        m == (if c == 0 { 0u32 } else { 0xFFFF_FFFFu32 << s }),
    ensures
        !m & ((!m + 1) as u32) == 0,
        c > 0 ==> !m < 0x8000_0000u32,
{
}

/// Counting leading set bits from `j` on, when exactly the bits below `c` are set.
proof fn lemma_leading_ones_prefix(o: Seq<u8>, c: int, j: int)
    requires
        0 <= j <= c <= 32,
        forall|k: int| 0 <= k < 32 ==> (bit_set(o, k) <==> k < c),
    ensures
        leading_ones_from(o, j) == c,
    decreases c - j,
{
    if j < c {
        assert(bit_set(o, j));
        lemma_leading_ones_prefix(o, c, j + 1);
    } else if c < 32 {
        assert(!bit_set(o, c));
    }
}

/// A prefix length up to 32 is written as a valid netmask, which reads
/// back as the same length.
pub proof fn lemma_cidr_netmask_round_trip(cidr: u8)
    requires
        cidr <= 32,
    ensures
        spec_valid_netmask(spec_cidr_to_netmask(cidr)),
        spec_netmask_to_cidr(spec_cidr_to_netmask(cidr)) == Ok::<u8, Seq<char>>(cidr),
{
    let m = cidr_mask(cidr);
    let x0 = (m >> 24u32) & 0xFFu32;
    let x1 = (m >> 16u32) & 0xFFu32;
    let x2 = (m >> 8u32) & 0xFFu32;
    let x3 = m & 0xFFu32;
    lemma_bytes_rejoin(m);
    lemma_octet_reads_back(x0);
    lemma_octet_reads_back(x1);
    lemma_octet_reads_back(x2);
    lemma_octet_reads_back(x3);
    let (d0, d1, d2, d3) = (spec_dec(x0 as nat), spec_dec(x1 as nat), spec_dec(x2 as nat), spec_dec(x3 as nat));
    let text = spec_cidr_to_netmask(cidr);
    reveal_strlit(".");
    assert(text =~= d0 + seq!['.'] + (d1 + seq!['.'] + (d2 + seq!['.'] + d3)));
    lemma_split_char_none(d3, '.');
    lemma_split_char_cons(d2, d3, '.');
    lemma_split_char_cons(d1, d2 + seq!['.'] + d3, '.');
    lemma_split_char_cons(d0, d1 + seq!['.'] + (d2 + seq!['.'] + d3), '.');
    let parts = split_char(text, '.');
    assert(parts =~= seq![d0, d1, d2, d3]);
    let o = seq![x0 as u8, x1 as u8, x2 as u8, x3 as u8];
    assert(spec_netmask_octets(text) == Some(o));
    assert(mask_bits(o) == m);
    let c = cidr as u32;
    let sh = (32 - cidr) as u32;
    lemma_prefix_mask_contiguous(m, c, sh);
    if cidr == 0 {
        assert(!0u32 == 0xFFFF_FFFFu32 && 0xFFFF_FFFFu32 & 0u32 == 0u32) by (bit_vector);
        assert((0u32 >> 24u32) & 0xFFu32 == 0u32 && (0u8 >> 7u8) & 1u8 != 1u8) by (bit_vector);
        assert(o[0] == 0u8);
        assert(!bit_set(o, 0));
    } else {
        assert(((!m) as int + 1) % 0x1_0000_0000 == !m + 1);
        assert forall|k: int| 0 <= k < 32 implies (bit_set(o, k) <==> k < cidr) by {
            let r = (k % 8) as u32;
            lemma_prefix_mask_bytes(m, c, sh, r);
            assert(((7 - k % 8) as u8) == ((7 - r) as u8));
        }
        lemma_leading_ones_prefix(o, cidr as int, 0);
    }
}

/// The first `i` digits of `s` as colon-separated pairs.
pub open spec fn colon_prefix(s: Seq<char>, i: int) -> Seq<char>
    decreases i,
{
    if i <= 2 {
        s.subrange(0, 2)
    } else {
        colon_prefix(s, i - 2) + seq![':'] + s.subrange(i - 2, i)
    }
}

/// One part of a dotted IPv4 address: one to three ASCII digits, no
/// leading zero, at most 255; its value.
pub open spec fn spec_ipv4_part(p: Seq<char>) -> Option<u8> {
    if 1 <= p.len() <= 3 && crate::textscan::all_digits(p) && (p.len() == 1 || p[0] != '0')
        && crate::textscan::dec_value(p) <= 255 {
        Some(crate::textscan::dec_value(p) as u8)
    } else {
        None
    }
}

/// The four octets of a dotted IPv4 address (`a.b.c.d`), if `s` is one.
pub open spec fn spec_ipv4_octets(s: Seq<char>) -> Option<Seq<u8>> {
    let parts = split_char(s, '.');
    if parts.len() != 4 {
        None
    } else {
        match (spec_ipv4_part(parts[0]), spec_ipv4_part(parts[1]), spec_ipv4_part(parts[2]), spec_ipv4_part(parts[3])) {
            (Some(a), Some(b), Some(c), Some(d)) => Some(seq![a, b, c, d]),
            _ => None,
        }
    }
}

/// `s` is a dotted IPv4 address: four parts of one to three digits, each
/// at most 255 and without a leading zero.
pub open spec fn spec_is_ipv4_text(s: Seq<char>) -> bool {
    spec_ipv4_octets(s) is Some
}

fn ipv4_part(p: &[char]) -> (r: Option<u8>)
    ensures
        r == spec_ipv4_part(p@),
{
    let n = p.len();
    if n < 1 || n > 3 {
        return None;
    }
    if n > 1 && p[0] == '0' {
        return None;
    }
    let mut v: u32 = 0;
    let mut k: usize = 0;
    while k < n
        invariant
            n == p@.len(),
            1 <= n <= 3,
            k <= n,
            crate::textscan::all_digits(p@.subrange(0, k as int)),
            v as int == crate::textscan::dec_value(p@.subrange(0, k as int)),
            v < 1000,
            (k < 1 ==> v < 1) && (k < 2 ==> v < 10) && (k < 3 ==> v < 100),
        decreases n - k,
    {
        assert(p@.subrange(0, k + 1).drop_last() =~= p@.subrange(0, k as int));
        let c = p[k];
        if !('0' <= c && c <= '9') {
            assert(!crate::textscan::all_digits(p@)) by {
                assert(!crate::textscan::is_digit(p@[k as int]));
            }
            return None;
        }
        v = v * 10 + (c as u32 - '0' as u32);
        k = k + 1;
    }
    assert(p@.subrange(0, n as int) =~= p@);
    if v > 255 {
        return None;
    }
    Some(v as u8)
}

/// The octets of a dotted IPv4 address, if the text is one.
fn ipv4_octets(s: &str) -> (r: Option<[u8; 4]>)
    ensures
        r matches Some(a) ==> spec_ipv4_octets(s@) == Some(a@),
        r is None ==> spec_ipv4_octets(s@) is None,
{
    let text = crate::text::chars_of(s);
    let parts = split_at_char(text.as_slice(), '.');
    if parts.len() != 4 {
        return None;
    }
    let ghost pv = parts@.map_values(|v: Vec<char>| v@);
    assert(pv[0] == parts@[0]@ && pv[1] == parts@[1]@ && pv[2] == parts@[2]@ && pv[3] == parts@[3]@);
    let a = match ipv4_part(parts[0].as_slice()) { Some(x) => x, None => return None };
    let b = match ipv4_part(parts[1].as_slice()) { Some(x) => x, None => return None };
    let c = match ipv4_part(parts[2].as_slice()) { Some(x) => x, None => return None };
    let d = match ipv4_part(parts[3].as_slice()) { Some(x) => x, None => return None };
    let r = [a, b, c, d];
    assert(r@ =~= seq![a, b, c, d]);
    Some(r)
}

impl NetworkManager {
    /// Whether a text is a dotted IPv4 address.
    pub fn is_ipv4_text(s: &str) -> (r: bool)
        ensures
            r == spec_is_ipv4_text(s@),
    {
        ipv4_octets(s).is_some()
    }
}

/// Two addresses lie on the same subnet of a mask: they agree on every bit
/// the mask sets.
pub open spec fn same_subnet(a: Seq<u8>, b: Seq<u8>, m: Seq<u8>) -> bool {
    &&& a[0] & m[0] == b[0] & m[0]
    &&& a[1] & m[1] == b[1] & m[1]
    &&& a[2] & m[2] == b[2] & m[2]
    &&& a[3] & m[3] == b[3] & m[3]
}

/// What applying an Ethernet configuration writes: the static-address file
/// (`None`: remove it, DHCP), the resolver file (`None`: leave it), and the
/// configuration to save.
#[derive(Clone, Debug)]
pub struct EthernetPlan {
    pub nodhcp: Option<String>,
    pub resolv: Option<String>,
    pub saved: EthernetConfig,
}

/// The view of an optional string.
pub open spec fn opt_chars(o: Option<String>) -> Option<Seq<char>> {
    match o {
        Some(s) => Some(s@),
        None => None,
    }
}

/// A DNS server is given, not empty, and not an IPv4 address.
pub open spec fn bad_dns(d: Option<String>) -> bool {
    match d {
        Some(s) => s@.len() > 0 && !spec_is_ipv4_text(s@),
        None => false,
    }
}

/// Why a static configuration is refused, checked in this order: missing
/// addresses, an address that is not IPv4, a netmask that is not one run of
/// set bits, a gateway off the configured subnet, a DNS server that is
/// given and not IPv4.
pub open spec fn static_error(req: SetEthernetConfigReq) -> Option<Seq<char>> {
    if req.ip is None {
        Some("IP address required for static mode"@)
    } else if req.netmask is None {
        Some("Netmask required for static mode"@)
    } else if req.gateway is None {
        Some("Gateway required for static mode"@)
    } else if !spec_is_ipv4_text(req.ip->Some_0@) {
        Some("Invalid IP address"@)
    } else if !spec_valid_netmask(req.netmask->Some_0@) {
        Some("Invalid netmask"@)
    } else if !spec_is_ipv4_text(req.gateway->Some_0@) {
        Some("Invalid gateway"@)
    } else if !same_subnet(spec_ipv4_octets(req.ip->Some_0@)->Some_0, spec_ipv4_octets(req.gateway->Some_0@)->Some_0,
        spec_netmask_octets(req.netmask->Some_0@)->Some_0) {
        Some("Gateway is not on the configured subnet"@)
    } else if bad_dns(req.dns1) {
        Some("Invalid DNS1"@)
    } else if bad_dns(req.dns2) {
        Some("Invalid DNS2"@)
    } else {
        None
    }
}

/// The resolver line for a DNS server that is given, not empty and valid.
pub open spec fn dns_line(d: Option<String>) -> Seq<char> {
    match d {
        Some(s) => if s@.len() > 0 && spec_is_ipv4_text(s@) { "nameserver "@ + s@ + "\n"@ } else { Seq::empty() },
        None => Seq::empty(),
    }
}

/// The resolver file is written with `content`, or left alone when there is none.
pub open spec fn resolv_matches(resolv: Option<String>, content: Seq<char>) -> bool {
    if content.len() == 0 {
        resolv is None
    } else {
        opt_chars(resolv) == Some(content)
    }
}

/// The static-address line: address, prefix length and gateway.
pub open spec fn nodhcp_line(ip: Seq<char>, cidr: u8, gateway: Seq<char>) -> Seq<char> {
    ip + "/"@ + spec_dec(cidr as nat) + " "@ + gateway + "\n"@
}

/// The configuration saved for a request: DHCP alone, or the static
/// addresses as requested.
pub open spec fn saved_matches(c: EthernetConfig, req: SetEthernetConfigReq) -> bool {
    if req.dhcp {
        c.dhcp && c.ip is None && c.netmask is None && c.gateway is None && c.dns1 is None && c.dns2 is None
    } else {
        !c.dhcp && opt_chars(c.ip) == opt_chars(req.ip) && opt_chars(c.netmask) == opt_chars(req.netmask)
            && opt_chars(c.gateway) == opt_chars(req.gateway) && opt_chars(c.dns1) == opt_chars(req.dns1)
            && opt_chars(c.dns2) == opt_chars(req.dns2)
    }
}

fn copy_opt(o: &Option<String>) -> (r: Option<String>)
    ensures
        opt_chars(r) == opt_chars(*o),
{
    match o {
        Some(s) => Some(s.clone()),
        None => None,
    }
}

fn append_dns(content: &mut String, d: &Option<String>)
    ensures
        final(content)@ == old(content)@ + dns_line(*d),
{
    match d {
        Some(s) => {
            if s.as_str().unicode_len() > 0 && NetworkManager::is_ipv4_text(s.as_str()) {
                content.append("nameserver ");
                content.append(s.as_str());
                content.append("\n");
            }
        },
        None => {},
    }
}

impl NetworkManager {
    /// Decides what applying an Ethernet configuration writes, or refuses a
    /// static configuration with the first rule it breaks.
    pub fn plan_ethernet_config(req: &SetEthernetConfigReq) -> (r: Result<EthernetPlan, NetworkError>)
        ensures
            req.dhcp ==> (r matches Ok(p) && p.nodhcp is None && p.resolv is None && saved_matches(p.saved, *req)),
            !req.dhcp && static_error(*req) is Some ==> (r matches Err(NetworkError::CommandFailed(m))
                && static_error(*req) == Some(m@)),
            !req.dhcp && static_error(*req) is None ==> (r matches Ok(p)
                && opt_chars(p.nodhcp) == Some(nodhcp_line(req.ip->Some_0@,
                    spec_netmask_to_cidr(req.netmask->Some_0@)->Ok_0, req.gateway->Some_0@))
                && resolv_matches(p.resolv, dns_line(req.dns1) + dns_line(req.dns2))
                && saved_matches(p.saved, *req)),
    {
        if req.dhcp {
            let config = EthernetConfig { dhcp: true, ip: None, netmask: None, gateway: None, dns1: None, dns2: None };
            return Ok(EthernetPlan { nodhcp: None, resolv: None, saved: config });
        }
        let ip = match &req.ip {
            Some(s) => s,
            None => {
                return Err(NetworkError::CommandFailed(String::from_str("IP address required for static mode")));
            },
        };
        let netmask = match &req.netmask {
            Some(s) => s,
            None => {
                return Err(NetworkError::CommandFailed(String::from_str("Netmask required for static mode")));
            },
        };
        let gateway = match &req.gateway {
            Some(s) => s,
            None => {
                return Err(NetworkError::CommandFailed(String::from_str("Gateway required for static mode")));
            },
        };
        let ip_o = match ipv4_octets(ip.as_str()) {
            Some(o) => o,
            None => {
                return Err(NetworkError::CommandFailed(String::from_str("Invalid IP address")));
            },
        };
        let mask_o = match netmask_octets(netmask.as_str()) {
            Some(o) => o,
            None => {
                return Err(NetworkError::CommandFailed(String::from_str("Invalid netmask")));
            },
        };
        if !Self::is_valid_netmask(netmask.as_str()) {
            return Err(NetworkError::CommandFailed(String::from_str("Invalid netmask")));
        }
        let gw_o = match ipv4_octets(gateway.as_str()) {
            Some(o) => o,
            None => {
                return Err(NetworkError::CommandFailed(String::from_str("Invalid gateway")));
            },
        };
        if !((ip_o[0] & mask_o[0]) == (gw_o[0] & mask_o[0]) && (ip_o[1] & mask_o[1]) == (gw_o[1] & mask_o[1])
            && (ip_o[2] & mask_o[2]) == (gw_o[2] & mask_o[2]) && (ip_o[3] & mask_o[3]) == (gw_o[3] & mask_o[3])) {
            return Err(NetworkError::CommandFailed(String::from_str("Gateway is not on the configured subnet")));
        }
        match &req.dns1 {
            Some(d) => {
                if d.as_str().unicode_len() > 0 && !Self::is_ipv4_text(d.as_str()) {
                    return Err(NetworkError::CommandFailed(String::from_str("Invalid DNS1")));
                }
            },
            None => {},
        }
        match &req.dns2 {
            Some(d) => {
                if d.as_str().unicode_len() > 0 && !Self::is_ipv4_text(d.as_str()) {
                    return Err(NetworkError::CommandFailed(String::from_str("Invalid DNS2")));
                }
            },
            None => {},
        }
        let cidr = match Self::netmask_to_cidr(netmask.as_str()) {
            Ok(c) => c,
            Err(e) => {
                return Err(e);
            },
        };
        let mut line = ip.clone();
        line.append("/");
        let c = dec_string(cidr as u64);
        line.append(c.as_str());
        line.append(" ");
        line.append(gateway.as_str());
        line.append("\n");
        let mut content = String::from_str("");
        append_dns(&mut content, &req.dns1);
        append_dns(&mut content, &req.dns2);
        proof {
            reveal_strlit("");
        }
        let resolv = if content.as_str().unicode_len() > 0 { Some(content) } else { None };
        let saved = EthernetConfig {
            dhcp: false,
            ip: Some(ip.clone()),
            netmask: Some(netmask.clone()),
            gateway: Some(gateway.clone()),
            dns1: copy_opt(&req.dns1),
            dns2: copy_opt(&req.dns2),
        };
        Ok(EthernetPlan { nodhcp: Some(line), resolv, saved })
    }
}

/// The entry a line of the target file describes: the text before the
/// first space is the MAC, the rest the name; lines with an empty MAC
/// describe none.
pub open spec fn wol_line_entry(line: Seq<char>) -> Option<(Seq<char>, Seq<char>)> {
    let (mac, name) = match first_index(line, ' ', 0) {
        Some(k) => (line.subrange(0, k), line.subrange(k + 1, line.len() as int)),
        None => (line, Seq::<char>::empty()),
    };
    if mac.len() > 0 { Some((mac, name)) } else { None }
}

/// The entries described by `lines`, in order.
pub open spec fn wol_entries_of(lines: Seq<Seq<char>>) -> Seq<(Seq<char>, Seq<char>)>
    decreases lines.len(),
{
    if lines.len() == 0 {
        Seq::empty()
    } else {
        let head = match wol_line_entry(lines[0]) {
            Some(e) => seq![e],
            None => Seq::empty(),
        };
        head + wol_entries_of(lines.drop_first())
    }
}

/// The entries as pairs of character sequences.
pub open spec fn wol_view(v: Seq<WolEntry>) -> Seq<(Seq<char>, Seq<char>)> {
    v.map_values(|e: WolEntry| (e.mac@, e.name@))
}

/// The line that stores an entry: the MAC, then a space and the name when
/// there is one.
pub open spec fn wol_entry_line(mac: Seq<char>, name: Seq<char>) -> Seq<char> {
    if name.len() == 0 { mac + "\n"@ } else { mac + " "@ + name + "\n"@ }
}

/// The target file holding `v`.
pub open spec fn wol_file(v: Seq<(Seq<char>, Seq<char>)>) -> Seq<char>
    decreases v.len(),
{
    if v.len() == 0 {
        Seq::empty()
    } else {
        wol_file(v.drop_last()) + wol_entry_line(v.last().0, v.last().1)
    }
}

/// An entry that the targets file stores faithfully: a non-empty MAC
/// without spaces or line breaks, and a name without line breaks.
pub open spec fn storable_entry(e: (Seq<char>, Seq<char>)) -> bool {
    &&& e.0.len() > 0
    &&& forall|i: int| 0 <= i < e.0.len() ==> e.0[i] != ' ' && e.0[i] != '\n' && e.0[i] != '\r'
    &&& forall|i: int| 0 <= i < e.1.len() ==> e.1[i] != '\n' && e.1[i] != '\r'
}

/// Writing the first entry, then the rest.
proof fn lemma_wol_file_cons(e: (Seq<char>, Seq<char>), v: Seq<(Seq<char>, Seq<char>)>)
    ensures
        wol_file(seq![e] + v) == wol_entry_line(e.0, e.1) + wol_file(v),
    decreases v.len(),
{
    let w = seq![e] + v;
    if v.len() == 0 {
        assert(w.drop_last() =~= Seq::<(Seq<char>, Seq<char>)>::empty());
        assert(w.last() == e);
        assert(wol_file(w) == wol_file(w.drop_last()) + wol_entry_line(e.0, e.1));
        assert(wol_file(w.drop_last()) =~= Seq::<char>::empty());
        assert(wol_file(v) =~= Seq::<char>::empty());
        assert(wol_file(w) =~= wol_entry_line(e.0, e.1) + wol_file(v));
    } else {
        lemma_wol_file_cons(e, v.drop_last());
        assert(w.drop_last() =~= seq![e] + v.drop_last());
        assert(w.last() == v.last());
        assert(wol_entry_line(e.0, e.1) + wol_file(v) =~= wol_entry_line(e.0, e.1) + wol_file(v.drop_last())
            + wol_entry_line(v.last().0, v.last().1));
    }
}

/// A line without line feeds, then a line feed, is read back as that line.
proof fn lemma_lines_first(body: Seq<char>, rest: Seq<char>)
    requires
        forall|i: int| 0 <= i < body.len() ==> body[i] != '\n',
    ensures
        spec_lines(body + "\n"@ + rest) == seq![strip_cr(body)] + spec_lines(rest),
{
    reveal_strlit("\n");
    let s = body + "\n"@ + rest;
    assert(s[body.len() as int] == '\n');
    lemma_first_index(s, '\n', 0);
    assert(forall|i: int| 0 <= i < body.len() ==> s[i] == body[i]);
    assert(first_index(s, '\n', 0) == Some(body.len() as int)) by {
        if first_index(s, '\n', 0) != Some(body.len() as int) {
            match first_index(s, '\n', 0) {
                Some(p) => {
                    if p < body.len() {
                        assert(s[p] == body[p]);
                    }
                },
                None => {},
            }
        }
    }
    assert(s.subrange(0, body.len() as int) =~= body);
    assert(s.subrange(body.len() as int + 1, s.len() as int) =~= rest);
}

/// The targets file gives back the entries written to it.
pub proof fn lemma_wol_file_round_trip(v: Seq<(Seq<char>, Seq<char>)>)
    requires
        forall|i: int| 0 <= i < v.len() ==> storable_entry(#[trigger] v[i]),
    ensures
        wol_entries_of(spec_lines(wol_file(v))) == v,
    decreases v.len(),
{
    if v.len() == 0 {
        assert(wol_file(v) =~= Seq::<char>::empty());
        assert(wol_entries_of(spec_lines(wol_file(v))) =~= v);
    } else {
        let e = v[0];
        let rest = v.drop_first();
        assert(v =~= seq![e] + rest);
        assert(storable_entry(e));
        assert forall|i: int| 0 <= i < rest.len() implies storable_entry(#[trigger] rest[i]) by {
            assert(rest[i] == v[i + 1]);
        }
        lemma_wol_file_round_trip(rest);
        lemma_wol_file_cons(e, rest);
        reveal_strlit(" ");
        reveal_strlit("\n");
        let body = if e.1.len() == 0 { e.0 } else { e.0 + " "@ + e.1 };
        assert(wol_entry_line(e.0, e.1) == body + "\n"@) by {
            if e.1.len() == 0 {
            } else {
                assert(e.0 + " "@ + e.1 + "\n"@ =~= body + "\n"@);
            }
        }
        assert forall|i: int| 0 <= i < body.len() implies body[i] != '\n' && body[i] != '\r' by {
            if e.1.len() != 0 {
                if i < e.0.len() {
                    assert(body[i] == e.0[i]);
                } else if i == e.0.len() {
                    assert(body[i] == ' ');
                } else {
                    assert(body[i] == e.1[i - e.0.len() - 1]);
                }
            }
        }
        lemma_lines_first(body, wol_file(rest));
        assert(body + "\n"@ + wol_file(rest) =~= wol_file(v));
        assert(strip_cr(body) == body) by {
            if body.len() > 0 {
                assert(body.last() != '\r');
            }
        }
        let lines = spec_lines(wol_file(v));
        assert(lines == seq![body] + spec_lines(wol_file(rest)));
        assert(lines[0] == body);
        assert(lines.drop_first() =~= spec_lines(wol_file(rest)));
        // The first line holds the first entry.
        lemma_first_index(body, ' ', 0);
        if e.1.len() == 0 {
            assert(first_index(body, ' ', 0) is None) by {
                if let Some(p) = first_index(body, ' ', 0) {
                    assert(body[p] == e.0[p]);
                }
            }
            assert(wol_line_entry(body) == Some(e));
        } else {
            assert(body[e.0.len() as int] == ' ');
            assert(first_index(body, ' ', 0) == Some(e.0.len() as int)) by {
                match first_index(body, ' ', 0) {
                    Some(p) => {
                        if p < e.0.len() {
                            assert(body[p] == e.0[p]);
                        }
                    },
                    None => {},
                }
            }
            assert(body.subrange(0, e.0.len() as int) =~= e.0);
            assert(body.subrange(e.0.len() as int + 1, body.len() as int) =~= e.1);
            assert(wol_line_entry(body) == Some(e));
        }
        assert(wol_entries_of(lines) =~= seq![e] + wol_entries_of(spec_lines(wol_file(rest))));
    }
}

fn line_entry(line: &Vec<char>) -> (r: Option<WolEntry>)
    ensures
        r matches Some(e) ==> wol_line_entry(line@) == Some((e.mac@, e.name@)),
        r is None ==> wol_line_entry(line@) is None,
{
    proof {
        lemma_first_index(line@, ' ', 0);
    }
    let (mac, name): (Vec<char>, Vec<char>) = match find_char(line.as_slice(), ' ', 0) {
        Some(k) => {
            assert(k < line@.len());
            assert(line@.len() == line.len());
            (
                vstd::slice::slice_to_vec(vstd::slice::slice_subrange(line.as_slice(), 0, k)),
                vstd::slice::slice_to_vec(vstd::slice::slice_subrange(line.as_slice(), k + 1, line.len())),
            )
        },
        None => {
            assert(line@.subrange(0, line@.len() as int) =~= line@);
            (vstd::slice::slice_to_vec(line.as_slice()), Vec::new())
        },
    };
    if mac.len() > 0 {
        Some(WolEntry { mac: crate::text::string_of(mac.as_slice()), name: crate::text::string_of(name.as_slice()) })
    } else {
        None
    }
}

impl NetworkManager {
    /// Reads the entries of the target file.
    pub fn parse_wol_entries(content: &str) -> (r: Vec<WolEntry>)
        ensures
            wol_view(r@) == wol_entries_of(spec_lines(content@)),
    {
        let text = crate::text::chars_of(content);
        let lines = lines_of(text.as_slice());
        let ghost all = lines@.map_values(|v: Vec<char>| v@);
        let mut out: Vec<WolEntry> = Vec::new();
        let mut k: usize = 0;
        assert(all.subrange(0, all.len() as int) =~= all);
        while k < lines.len()
            invariant
                all == lines@.map_values(|v: Vec<char>| v@),
                all == spec_lines(content@),
                k <= lines@.len(),
                wol_view(out@) + wol_entries_of(all.subrange(k as int, all.len() as int)) == wol_entries_of(all),
            decreases lines.len() - k,
        {
            let ghost before = wol_view(out@);
            let ghost rest = all.subrange(k as int, all.len() as int);
            assert(rest.drop_first() =~= all.subrange(k + 1, all.len() as int));
            match line_entry(&lines[k]) {
                Some(e) => {
                    let ghost ev = (e.mac@, e.name@);
                    out.push(e);
                    assert(wol_view(out@) =~= before + seq![ev]);
                },
                None => {
                    assert(wol_view(out@) =~= before + Seq::<(Seq<char>, Seq<char>)>::empty());
                },
            }
            k = k + 1;
        }
        assert(all.subrange(k as int, all.len() as int) =~= Seq::<Seq<char>>::empty());
        assert(wol_view(out@) =~= wol_view(out@) + wol_entries_of(all.subrange(k as int, all.len() as int)));
        out
    }

    /// The target file holding `entries`.
    pub fn format_wol_entries(entries: &Vec<WolEntry>) -> (r: String)
        ensures
            r@ == wol_file(wol_view(entries@)),
    {
        let mut content = String::from_str("");
        proof {
            reveal_strlit("");
        }
        let mut k: usize = 0;
        while k < entries.len()
            invariant
                k <= entries@.len(),
                content@ == wol_file(wol_view(entries@.subrange(0, k as int))),
            decreases entries.len() - k,
        {
            let ghost pre = wol_view(entries@.subrange(0, k as int));
            assert(wol_view(entries@.subrange(0, k + 1)).drop_last() =~= pre);
            let e = &entries[k];
            content.append(e.mac.as_str());
            if e.name.as_str().unicode_len() > 0 {
                content.append(" ");
                content.append(e.name.as_str());
            }
            content.append("\n");
            k = k + 1;
        }
        assert(entries@.subrange(0, entries@.len() as int) =~= entries@);
        content
    }

    /// The line that records a new target, with its name sanitised.
    pub fn wol_record_line(mac: &str, name: &str) -> (r: String)
        ensures
            r@ == wol_entry_line(mac@, name@.filter(|c: char| name_char_ok(c))),
    {
        let clean = Self::sanitize_name(name);
        let mut line = String::from_str(mac);
        if clean.as_str().unicode_len() > 0 {
            line.append(" ");
            line.append(clean.as_str());
        }
        line.append("\n");
        line
    }

    /// Names the first target with MAC `mac`, or reports that there is none.
    pub fn rename_wol_entry(entries: &mut Vec<WolEntry>, mac: &str, name: &str) -> (r: Result<(), NetworkError>)
        ensures
            match r {
                Ok(()) => exists|i: int| #![trigger old(entries)@[i]]
                    0 <= i < old(entries)@.len() && old(entries)@[i].mac@ == mac@
                    && (forall|j: int| 0 <= j < i ==> old(entries)@[j].mac@ != mac@)
                    && wol_view(final(entries)@) == wol_view(old(entries)@).update(i, (mac@, name@)),
                Err(e) => (forall|i: int| 0 <= i < old(entries)@.len() ==> old(entries)@[i].mac@ != mac@)
                    && final(entries)@ == old(entries)@
                    && (e matches NetworkError::InvalidMac(m)
                    && m@ == "MAC "@ + mac@ + " not found in cache"@),
            },
    {
        let mut k: usize = 0;
        while k < entries.len()
            invariant
                entries@ == old(entries)@,
                k <= entries@.len(),
                forall|j: int| 0 <= j < k ==> entries@[j].mac@ != mac@,
            decreases entries.len() - k,
        {
            if str_eq(entries[k].mac.as_str(), mac) {
                let ghost i = k as int;
                let ghost before = wol_view(entries@);
                let new_entry = WolEntry { mac: String::from_str(mac), name: String::from_str(name) };
                entries.set(k, new_entry);
                assert(wol_view(entries@) =~= before.update(i, (mac@, name@)));
                assert(old(entries)@[i].mac@ == mac@);
                return Ok(());
            }
            k = k + 1;
        }
        let mut msg = String::from_str("MAC ");
        msg.append(mac);
        msg.append(" not found in cache");
        Err(NetworkError::InvalidMac(msg))
    }

    /// Removes the targets with MAC `mac`; tells whether the list changed.
    pub fn remove_wol_entry(entries: &mut Vec<WolEntry>, mac: &str) -> (removed: bool)
        ensures
            wol_view(final(entries)@) == wol_view(old(entries)@).filter(|e: (Seq<char>, Seq<char>)| e.0 != mac@),
            removed == (final(entries)@.len() != old(entries)@.len()),
    {
        let ghost orig = entries@;
        let ghost pred = |e: (Seq<char>, Seq<char>)| e.0 != mac@;
        let mut kept: Vec<WolEntry> = Vec::new();
        let n = entries.len();
        let mut k: usize = 0;
        while k < n
            invariant
                n == orig.len(),
                entries@ == orig,
                k <= n,
                pred == (|e: (Seq<char>, Seq<char>)| e.0 != mac@),
                wol_view(kept@) == wol_view(orig.subrange(0, k as int)).filter(pred),
            decreases n - k,
        {
            let ghost before = wol_view(kept@);
            let ghost next = wol_view(orig.subrange(0, k + 1));
            assert(next.drop_last() =~= wol_view(orig.subrange(0, k as int)));
            proof {
                reveal(Seq::filter);
            }
            if !str_eq(entries[k].mac.as_str(), mac) {
                let copy = WolEntry { mac: entries[k].mac.clone(), name: entries[k].name.clone() };
                kept.push(copy);
                assert(wol_view(kept@) =~= before.push((orig[k as int].mac@, orig[k as int].name@)));
            }
            k = k + 1;
        }
        assert(orig.subrange(0, n as int) =~= orig);
        proof {
            wol_view(orig).lemma_filter_len(pred);
        }
        *entries = kept;
        entries.len() != n
    }
}

/// `s` with every leading copy of `p` removed (`str::trim_start_matches`).
pub open spec fn strip_all_prefix(s: Seq<char>, p: Seq<char>) -> Seq<char>
    decreases s.len(),
{
    if p.len() > 0 && starts_with(s, p) {
        strip_all_prefix(s.subrange(p.len() as int, s.len() as int), p)
    } else {
        s
    }
}

/// The name server of a resolver line, if it is one.
pub open spec fn nameserver_of(line: Seq<char>) -> Option<Seq<char>> {
    let t = spec_trim(line);
    if starts_with(t, "nameserver "@) {
        Some(spec_trim(strip_all_prefix(t, "nameserver "@)))
    } else {
        None
    }
}

/// The name servers of `lines`, in order.
pub open spec fn nameservers(lines: Seq<Seq<char>>) -> Seq<Seq<char>>
    decreases lines.len(),
{
    if lines.len() == 0 {
        Seq::empty()
    } else {
        let head = match nameserver_of(lines[0]) {
            Some(s) => seq![s],
            None => Seq::empty(),
        };
        head + nameservers(lines.drop_first())
    }
}

fn strip_prefixes(s: &[char], p: &str) -> (r: Vec<char>)
    ensures
        r@ == strip_all_prefix(s@, p@),
{
    let pc = crate::text::chars_of(p);
    let mut cur: Vec<char> = vstd::slice::slice_to_vec(s);
    if pc.len() == 0 {
        return cur;
    }
    while starts_with_str(cur.as_slice(), p)
        invariant
            pc@ == p@,
            pc@.len() > 0,
            strip_all_prefix(cur@, p@) == strip_all_prefix(s@, p@),
        decreases cur@.len(),
    {
        let next: Vec<char> = vstd::slice::slice_to_vec(vstd::slice::slice_subrange(cur.as_slice(), pc.len(), cur.len()));
        cur = next;
    }
    cur
}

fn line_nameserver(line: &Vec<char>) -> (r: Option<String>)
    ensures
        r matches Some(s) ==> nameserver_of(line@) == Some(s@),
        r is None ==> nameserver_of(line@) is None,
{
    let t = trim(line.as_slice());
    if !starts_with_str(t, "nameserver ") {
        return None;
    }
    let rest = strip_prefixes(t, "nameserver ");
    let server = trim(rest.as_slice());
    Some(crate::text::string_of(server))
}

impl NetworkManager {
    /// The first two name servers of a resolver file.
    pub fn parse_dns_servers(content: &str) -> (r: (Option<String>, Option<String>))
        ensures
            ({
                let ns = nameservers(spec_lines(content@));
                &&& opt_chars(r.0) == (if ns.len() > 0 { Some(ns[0]) } else { None })
                &&& opt_chars(r.1) == (if ns.len() > 1 { Some(ns[1]) } else { None })
            }),
    {
        let text = crate::text::chars_of(content);
        let lines = lines_of(text.as_slice());
        let ghost all = lines@.map_values(|v: Vec<char>| v@);
        let ghost ns = nameservers(all);
        let mut dns1: Option<String> = None;
        let mut dns2: Option<String> = None;
        let mut k: usize = 0;
        assert(all.subrange(0, all.len() as int) =~= all);
        while k < lines.len()
            invariant_except_break
                ({
                    let done = nameservers(all.subrange(0, k as int));
                    &&& done.len() <= 1
                    &&& dns2 is None
                    &&& opt_chars(dns1) == (if done.len() > 0 { Some(done[0]) } else { None })
                }),
            invariant
                all == lines@.map_values(|v: Vec<char>| v@),
                all == spec_lines(content@),
                ns == nameservers(all),
                k <= lines@.len(),
                nameservers(all.subrange(0, k as int)) + nameservers(all.subrange(k as int, all.len() as int)) == ns,
            ensures
                opt_chars(dns1) == (if ns.len() > 0 { Some(ns[0]) } else { None }),
                opt_chars(dns2) == (if ns.len() > 1 { Some(ns[1]) } else { None }),
            decreases lines.len() - k,
        {
            let ghost rest = all.subrange(k as int, all.len() as int);
            assert(rest.drop_first() =~= all.subrange(k + 1, all.len() as int));
            assert(rest[0] == all[k as int]);
            proof {
                lemma_nameservers_split(all.subrange(0, k + 1));
                assert(all.subrange(0, k + 1).drop_last() =~= all.subrange(0, k as int));
            }
            match line_nameserver(&lines[k]) {
                Some(server) => {
                    if dns1.is_none() {
                        dns1 = Some(server);
                    } else {
                        dns2 = Some(server);
                        k = k + 1;
                        break;
                    }
                },
                None => {},
            }
            k = k + 1;
        }
        (dns1, dns2)
    }
}

/// The name servers of a list of lines are those of all but the last line,
/// then those of the last line.
proof fn lemma_nameservers_split(ls: Seq<Seq<char>>)
    ensures
        ls.len() > 0 ==> nameservers(ls) == nameservers(ls.drop_last()) + match nameserver_of(ls.last()) {
            Some(s) => seq![s],
            None => Seq::<Seq<char>>::empty(),
        },
    decreases ls.len(),
{
    if ls.len() > 1 {
        lemma_nameservers_split(ls.drop_first());
        assert(ls.drop_first().drop_last() =~= ls.drop_last().drop_first());
        assert(ls.drop_last()[0] == ls[0]);
    } else if ls.len() == 1 {
        assert(ls.drop_first() =~= Seq::<Seq<char>>::empty());
        assert(ls.drop_last() =~= Seq::<Seq<char>>::empty());
    }
}

/// The gateway of `ip route show default`: the word after the first `via`
/// that has a word after it.
pub open spec fn gateway_from(words: Seq<Seq<char>>, i: int) -> Option<Seq<char>>
    decreases words.len() - i,
{
    if i < 0 || i >= words.len() {
        None
    } else if words[i] == "via"@ && i + 1 < words.len() {
        Some(words[i + 1])
    } else {
        gateway_from(words, i + 1)
    }
}

impl NetworkManager {
    /// Reads the default gateway from the output of `ip route show default`.
    pub fn parse_default_gateway(output: &str) -> (r: Option<String>)
        ensures
            opt_chars(r) == gateway_from(ws_tokens(output@), 0),
    {
        let text = crate::text::chars_of(output);
        let words = split_whitespace(text.as_slice());
        let ghost ws = words@.map_values(|v: Vec<char>| v@);
        let mut i: usize = 0;
        while i < words.len()
            invariant
                ws == words@.map_values(|v: Vec<char>| v@),
                ws == ws_tokens(output@),
                i <= words@.len(),
                gateway_from(ws, 0) == gateway_from(ws, i as int),
            decreases words.len() - i,
        {
            let w = crate::text::string_of(words[i].as_slice());
            if str_eq(w.as_str(), "via") && i + 1 < words.len() {
                return Some(crate::text::string_of(words[i + 1].as_slice()));
            }
            i = i + 1;
        }
        None
    }

    /// Whether the Wi-Fi state file says connected (its trimmed text is `1`).
    pub fn wifi_state_connected(content: &str) -> (r: bool)
        ensures
            r == (spec_trim(content@) == "1"@),
    {
        let text = crate::text::chars_of(content);
        let t = trim(text.as_slice());
        let s = crate::text::string_of(t);
        str_eq(s.as_str(), "1")
    }
}

/// What one line of `ip addr show` says of the IPv4 address: on an `inet`
/// line (not `inet6`), the word after `inet` split at `/` gives the address
/// and, when the prefix length reads as a byte, the netmask.
pub open spec fn inet_line(line: Seq<char>) -> Option<(Seq<char>, Option<Seq<char>>)> {
    let words = ws_tokens(line);
    if crate::textscan::has_sub(line, "inet "@) && !crate::textscan::has_sub(line, "inet6"@) && words.len() >= 2 {
        let w = words[1];
        match first_index(w, '/', 0) {
            Some(k) => Some((w.subrange(0, k), match spec_parse_u8(w.subrange(k + 1, w.len() as int)) {
                Some(c) => Some(spec_cidr_to_netmask(c)),
                None => None,
            })),
            None => None,
        }
    } else {
        None
    }
}

/// The address and netmask after reading the first `k` lines: each `inet`
/// line sets the address, and the netmask when its prefix reads.
pub open spec fn inet_fold(lines: Seq<Seq<char>>, k: int) -> (Option<Seq<char>>, Option<Seq<char>>)
    decreases k,
{
    if k <= 0 {
        (None, None)
    } else {
        let prev = inet_fold(lines, k - 1);
        match inet_line(lines[k - 1]) {
            Some((a, m)) => (Some(a), match m { Some(n) => Some(n), None => prev.1 }),
            None => prev,
        }
    }
}

impl NetworkManager {
    /// Reads the IPv4 address and netmask of an interface from the output
    /// of `ip addr show`: the last `inet` line gives the address, the last
    /// one whose prefix length reads gives the netmask.
    pub fn parse_inet_address(output: &str) -> (r: (Option<String>, Option<String>))
        ensures
            (opt_chars(r.0), opt_chars(r.1)) == inet_fold(spec_lines(output@), spec_lines(output@).len() as int),
    {
        let text = crate::text::chars_of(output);
        let lines = lines_of(text.as_slice());
        let ghost ls = lines@.map_values(|v: Vec<char>| v@);
        let mut ip: Option<String> = None;
        let mut netmask: Option<String> = None;
        let mut k: usize = 0;
        while k < lines.len()
            invariant
                ls == lines@.map_values(|v: Vec<char>| v@),
                ls == spec_lines(output@),
                k <= lines@.len(),
                (opt_chars(ip), opt_chars(netmask)) == inet_fold(ls, k as int),
            decreases lines.len() - k,
        {
            let line = &lines[k];
            assert(ls[k as int] == line@);
            proof {
                reveal_strlit("inet ");
                reveal_strlit("inet6");
            }
            if crate::textscan::contains_sub(line, "inet ") && !crate::textscan::contains_sub(line, "inet6") {
                let words = split_whitespace(line.as_slice());
                let ghost wv = words@.map_values(|v: Vec<char>| v@);
                if words.len() >= 2 {
                    assert(wv[1] == words@[1]@);
                    let w = &words[1];
                    match find_char(w.as_slice(), '/', 0) {
                        Some(p) => {
                            proof {
                                lemma_first_index(w@, '/', 0);
                            }
                            let addr = crate::text::string_of(vstd::slice::slice_subrange(w.as_slice(), 0, p));
                            let tail = vstd::slice::slice_subrange(w.as_slice(), p + 1, w.len());
                            ip = Some(addr);
                            match parse_u8(tail) {
                                Some(c) => {
                                    netmask = Some(Self::cidr_to_netmask(c));
                                },
                                None => {},
                            }
                        },
                        None => {},
                    }
                }
            }
            k = k + 1;
        }
        (ip, netmask)
    }
}

/// A Wake-on-LAN request.
#[derive(Clone, Debug)]
pub struct WakeOnLANReq {
    pub mac: String,
}

/// The known Wake-on-LAN targets, one `MAC [name]` text each.
#[derive(Clone, Debug)]
pub struct GetMacRsp {
    pub macs: Vec<String>,
}

#[derive(Clone, Debug)]
pub struct SetMacNameReq {
    pub mac: String,
    pub name: String,
}

#[derive(Clone, Debug)]
pub struct DeleteMacReq {
    pub mac: String,
}

/// The Wi-Fi state.
#[derive(Clone, Debug)]
pub struct GetWifiRsp {
    pub supported: bool,
    pub connected: bool,
    pub ssid: String,
    pub ap_mode: bool,
}

#[derive(Clone, Debug)]
pub struct ConnectWifiReq {
    pub ssid: String,
    pub password: String,
}

impl NetworkError {
    /// The error's text.
    pub fn message(&self) -> (r: String)
        ensures
            self matches NetworkError::Io(m) ==> r@ == "IO Error: "@ + m@,
            self matches NetworkError::InvalidMac(m) ==> r@ == "Invalid MAC address: "@ + m@,
            self matches NetworkError::CommandFailed(m) ==> r@ == "Command failed: "@ + m@,
    {
        let (prefix, m) = match self {
            NetworkError::Io(m) => ("IO Error: ", m),
            NetworkError::InvalidMac(m) => ("Invalid MAC address: ", m),
            NetworkError::CommandFailed(m) => ("Command failed: ", m),
        };
        let mut s = String::from_str(prefix);
        s.append(m.as_str());
        s
    }
}

/// Whether a target with this MAC is stored.
pub fn wol_has_mac(entries: &Vec<WolEntry>, mac: &str) -> (r: bool)
    ensures
        r == exists|i: int| 0 <= i < entries@.len() && #[trigger] entries@[i].mac@ == mac@,
{
    let mut k: usize = 0;
    while k < entries.len()
        invariant
            k <= entries@.len(),
            forall|i: int| 0 <= i < k ==> #[trigger] entries@[i].mac@ != mac@,
        decreases entries.len() - k,
    {
        if str_eq(entries[k].mac.as_str(), mac) {
            return true;
        }
        k = k + 1;
    }
    false
}

/// The error code and message a failed renaming is answered with: -3 with
/// the message of an unknown MAC, -1 with the error's text otherwise.
pub fn wol_rename_error_reply(e: &NetworkError) -> (r: (i32, String))
    ensures
        e matches NetworkError::InvalidMac(m) ==> r.0 == -3 && r.1@ == m@,
        !(e is InvalidMac) ==> r.0 == -1 && (e matches NetworkError::Io(m) ==> r.1@ == "IO Error: "@ + m@)
            && (e matches NetworkError::CommandFailed(m) ==> r.1@ == "Command failed: "@ + m@),
{
    match e {
        NetworkError::InvalidMac(m) => (-3, m.clone()),
        _ => (-1, e.message()),
    }
}

/// How a target is listed: its MAC, then a space and its name when it has one.
pub open spec fn wol_display(mac: Seq<char>, name: Seq<char>) -> Seq<char> {
    if name.len() == 0 { mac } else { mac + " "@ + name }
}

/// The listing of the stored targets, one string per entry, in order.
pub fn wol_display_list(entries: &Vec<WolEntry>) -> (r: Vec<String>)
    ensures
        r@.len() == entries@.len(),
        forall|i: int| 0 <= i < entries@.len() ==> #[trigger] r@[i]@ == wol_display(entries@[i].mac@, entries@[i].name@),
{
    let mut out: Vec<String> = Vec::new();
    let mut k: usize = 0;
    while k < entries.len()
        invariant
            k <= entries@.len(),
            out@.len() == k,
            forall|i: int| 0 <= i < k ==> #[trigger] out@[i]@ == wol_display(entries@[i].mac@, entries@[i].name@),
        decreases entries.len() - k,
    {
        let e = &entries[k];
        let mut line = e.mac.clone();
        if e.name.as_str().unicode_len() > 0 {
            line.append(" ");
            line.append(e.name.as_str());
        }
        out.push(line);
        k = k + 1;
    }
    out
}

/// The error code and message a failed Wake-on-LAN request is answered
/// with: -2 for an invalid MAC, -3 with the command's message, -1 otherwise.
pub fn wol_error_reply(e: &NetworkError) -> (r: (i32, String))
    ensures
        e is InvalidMac ==> r.0 == -2 && r.1@ == "invalid MAC address"@,
        e matches NetworkError::CommandFailed(m) ==> r.0 == -3 && r.1@ == m@,
        e matches NetworkError::Io(m) ==> r.0 == -1 && r.1@ == "IO Error: "@ + m@,
{
    match e {
        NetworkError::InvalidMac(_) => (-2, String::from_str("invalid MAC address")),
        NetworkError::CommandFailed(m) => (-3, m.clone()),
        NetworkError::Io(m) => {
            let mut s = String::from_str("IO Error: ");
            s.append(m.as_str());
            (-1, s)
        },
    }
}

} // verus!
