//! Serial ports: which device files are offered (sorted by path), which
//! ports may be attached, and how bytes are relayed between a port and a
//! WebSocket.

use vstd::prelude::*;
use vstd::multiset::Multiset;
use vstd::string::{StringExecFns, StrSliceExecFns};
use crate::textscan::{contains_sub, has_sub, starts_with, starts_with_str};

verus! {

/// A serial port and what kind it is.
#[derive(Clone, Debug)]
pub struct SerialPortInfo {
    pub path: String,
    pub description: String,
}

/// The ports offered.
#[derive(Clone, Debug)]
pub struct GetSerialPortsRsp {
    pub ports: Vec<SerialPortInfo>,
}

/// The speed to open a port at.
#[derive(Clone, Copy, Debug)]
pub struct SerialQuery {
    pub baud: u32,
}

/// The speed used when none is asked for.
pub const DEFAULT_BAUD: u32 = 115200;

impl Default for SerialQuery {
    fn default() -> (r: SerialQuery)
        ensures
            r.baud == DEFAULT_BAUD,
    {
        SerialQuery { baud: DEFAULT_BAUD }
    }
}

/// A device file is offered when it is an onboard UART, a USB serial
/// adapter or a USB modem-class device.
pub open spec fn is_serial_device(path: Seq<char>) -> bool {
    starts_with(path, "/dev/ttyS"@) || starts_with(path, "/dev/ttyUSB"@) || starts_with(path, "/dev/ttyACM"@)
}

/// The description of a port: USB when its path says so.
pub open spec fn port_description(path: Seq<char>) -> Seq<char> {
    if has_sub(path, "USB"@) || has_sub(path, "ACM"@) {
        "USB Serial"@
    } else {
        "Onboard UART"@
    }
}

/// The port a device file stands for, if it is one that is offered.
pub fn serial_port_info(path: &str) -> (r: Option<SerialPortInfo>)
    ensures
        is_serial_device(path@) ==> (r matches Some(p) && p.path@ == path@ && p.description@
            == port_description(path@)),
        !is_serial_device(path@) ==> r is None,
{
    let chars = crate::text::chars_of(path);
    let offered = starts_with_str(chars.as_slice(), "/dev/ttyS") || starts_with_str(chars.as_slice(), "/dev/ttyUSB")
        || starts_with_str(chars.as_slice(), "/dev/ttyACM");
    if !offered {
        return None;
    }
    let description = if contains_sub(&chars, "USB") || contains_sub(&chars, "ACM") {
        String::from_str("USB Serial")
    } else {
        String::from_str("Onboard UART")
    };
    Some(SerialPortInfo { path: String::from_str(path), description })
}

// ---------------------------------------------------------------------------
// Ordering ports by path.
// ---------------------------------------------------------------------------

/// `a` comes before `b` or equals it, comparing character by character
/// (the order of `str`'s comparison).
pub open spec fn chars_le(a: Seq<char>, b: Seq<char>) -> bool
    decreases a.len(),
{
    if a.len() == 0 {
        true
    } else if b.len() == 0 {
        false
    } else if a[0] != b[0] {
        a[0] < b[0]
    } else {
        chars_le(a.drop_first(), b.drop_first())
    }
}

/// Any two texts are ordered one way or the other.
pub proof fn lemma_chars_le_total(a: Seq<char>, b: Seq<char>)
    ensures
        chars_le(a, b) || chars_le(b, a),
    decreases a.len(),
{
    if a.len() > 0 && b.len() > 0 && a[0] == b[0] {
        lemma_chars_le_total(a.drop_first(), b.drop_first());
    }
}

/// The order is transitive.
pub proof fn lemma_chars_le_trans(a: Seq<char>, b: Seq<char>, c: Seq<char>)
    requires
        chars_le(a, b),
        chars_le(b, c),
    ensures
        chars_le(a, c),
    decreases a.len(),
{
    if a.len() > 0 && b.len() > 0 && c.len() > 0 && a[0] == b[0] && b[0] == c[0] {
        lemma_chars_le_trans(a.drop_first(), b.drop_first(), c.drop_first());
    }
}

fn chars_le_exec(a: &[char], b: &[char]) -> (r: bool)
    ensures
        r == chars_le(a@, b@),
{
    let mut k: usize = 0;
    assert(a@.subrange(0, a@.len() as int) =~= a@);
    assert(b@.subrange(0, b@.len() as int) =~= b@);
    while k < a.len() && k < b.len() && a[k] == b[k]
        invariant
            k <= a@.len(),
            k <= b@.len(),
            chars_le(a@, b@) == chars_le(a@.subrange(k as int, a@.len() as int), b@.subrange(k as int, b@.len() as int)),
        decreases a.len() - k,
    {
        let ghost sa = a@.subrange(k as int, a@.len() as int);
        let ghost sb = b@.subrange(k as int, b@.len() as int);
        assert(sa.drop_first() =~= a@.subrange(k + 1, a@.len() as int));
        assert(sb.drop_first() =~= b@.subrange(k + 1, b@.len() as int));
        k = k + 1;
    }
    if k == a.len() {
        true
    } else if k == b.len() {
        false
    } else {
        a[k] < b[k]
    }
}

/// The ports' paths are in order.
pub open spec fn ports_sorted(s: Seq<SerialPortInfo>) -> bool {
    forall|i: int, j: int| 0 <= i < j < s.len() ==> chars_le(s[i].path@, s[j].path@)
}

fn copy_port(p: &SerialPortInfo) -> (r: SerialPortInfo)
    ensures
        r == *p,
{
    SerialPortInfo { path: p.path.clone(), description: p.description.clone() }
}

/// Inserting `x` where every port before it comes no later and every port
/// after it comes strictly later keeps the ports sorted.
proof fn lemma_insert_sorted(s: Seq<SerialPortInfo>, j: int, x: SerialPortInfo)
    requires
        ports_sorted(s),
        0 <= j <= s.len(),
        j > 0 ==> chars_le(s[j - 1].path@, x.path@),
        forall|t: int| j <= t < s.len() ==> !chars_le(#[trigger] s[t].path@, x.path@),
    ensures
        ports_sorted(s.insert(j, x)),
{
    let u = s.insert(j, x);
    assert forall|a: int, b: int| 0 <= a < b < u.len() implies chars_le(u[a].path@, u[b].path@) by {
        if a < j && b == j {
            if a < j - 1 {
                lemma_chars_le_trans(s[a].path@, s[j - 1].path@, x.path@);
            }
        } else if a == j {
            lemma_chars_le_total(s[b - 1].path@, x.path@);
        } else if a < j && b > j {
            assert(u[b] == s[b - 1]);
        } else if a > j {
            assert(u[a] == s[a - 1] && u[b] == s[b - 1]);
        }
    }
}

/// Sorts ports by path (an insertion sort: ports with equal paths keep
/// their order).
pub fn sort_ports(ports: Vec<SerialPortInfo>) -> (r: Vec<SerialPortInfo>)
    ensures
        ports_sorted(r@),
        r@.to_multiset() == ports@.to_multiset(),
{
    let ghost all = ports@;
    let mut rest = ports;
    let mut out: Vec<SerialPortInfo> = Vec::new();
    broadcast use vstd::seq_lib::group_to_multiset_ensures;
    assert(out@.to_multiset() =~= Multiset::<SerialPortInfo>::empty());
    while rest.len() > 0
        invariant
            ports_sorted(out@),
            out@.to_multiset().add(rest@.to_multiset()) == all.to_multiset(),
        decreases rest.len(),
    {
        let ghost before_rest = rest@;
        let ghost before_out = out@;
        let x = rest.remove(0);
        proof {
            vstd::seq_lib::to_multiset_remove(before_rest, 0);
            vstd::seq_lib::to_multiset_contains(before_rest, x);
            assert(before_rest.contains(x)) by {
                assert(before_rest[0] == x);
            }
        }
        let xk = crate::text::chars_of(x.path.as_str());
        let mut j: usize = out.len();
        loop
            invariant
                out@ == before_out,
                j <= out@.len(),
                xk@ == x.path@,
                forall|t: int| j <= t < out@.len() ==> !chars_le(#[trigger] out@[t].path@, x.path@),
            ensures
                j <= out@.len(),
                j > 0 ==> chars_le(out@[j - 1].path@, x.path@),
                forall|t: int| j <= t < out@.len() ==> !chars_le(#[trigger] out@[t].path@, x.path@),
            decreases j,
        {
            if j == 0 {
                break;
            }
            let yk = crate::text::chars_of(out[j - 1].path.as_str());
            if chars_le_exec(yk.as_slice(), xk.as_slice()) {
                break;
            }
            j = j - 1;
        }
        proof {
            lemma_insert_sorted(before_out, j as int, x);
            vstd::seq_lib::to_multiset_insert(before_out, j as int, x);
        }
        out.insert(j, x);
        assert(out@.to_multiset() == before_out.to_multiset().insert(x));
        assert(rest@.to_multiset() == before_rest.to_multiset().remove(x));
        assert(before_rest.to_multiset().count(x) > 0);
        assert(out@.to_multiset().add(rest@.to_multiset()) =~= before_out.to_multiset().add(before_rest.to_multiset()));
    }
    assert(rest@.to_multiset() =~= Multiset::<SerialPortInfo>::empty());
    assert(out@.to_multiset() =~= all.to_multiset());
    out
}

/// A port by its texts.
pub open spec fn port_view(p: SerialPortInfo) -> (Seq<char>, Seq<char>) {
    (p.path@, p.description@)
}

/// The ports offered among device files, in the files' order.
pub open spec fn spec_offered(paths: Seq<Seq<char>>) -> Seq<(Seq<char>, Seq<char>)>
    decreases paths.len(),
{
    if paths.len() == 0 {
        Seq::empty()
    } else {
        let p = paths.last();
        spec_offered(paths.drop_last()) + if is_serial_device(p) {
            seq![(p, port_description(p))]
        } else {
            Seq::empty()
        }
    }
}

/// The ports among device files, in the files' order.
pub fn offered_ports(paths: &Vec<String>) -> (r: Vec<SerialPortInfo>)
    ensures
        r@.map_values(|p: SerialPortInfo| port_view(p)) == spec_offered(paths@.map_values(|s: String| s@)),
{
    let ghost all = paths@.map_values(|s: String| s@);
    let mut out: Vec<SerialPortInfo> = Vec::new();
    let mut k: usize = 0;
    while k < paths.len()
        invariant
            all == paths@.map_values(|s: String| s@),
            k <= paths@.len(),
            out@.map_values(|p: SerialPortInfo| port_view(p)) == spec_offered(all.subrange(0, k as int)),
        decreases paths.len() - k,
    {
        assert(all.subrange(0, k + 1).drop_last() =~= all.subrange(0, k as int));
        let ghost before = out@.map_values(|p: SerialPortInfo| port_view(p));
        match serial_port_info(paths[k].as_str()) {
            Some(p) => {
                out.push(p);
                assert(out@.map_values(|p: SerialPortInfo| port_view(p)) =~= before + seq![
                    (all[k as int], port_description(all[k as int])),
                ]);
            },
            None => {
                assert(out@.map_values(|p: SerialPortInfo| port_view(p)) =~= before + Seq::<
                    (Seq<char>, Seq<char>),
                >::empty());
            },
        }
        k = k + 1;
    }
    assert(all.subrange(0, all.len() as int) =~= all);
    out
}

/// The ports offered among the device files found, sorted by path.
pub fn list_serial_ports(paths: &Vec<String>) -> (r: GetSerialPortsRsp)
    ensures
        ports_sorted(r.ports@),
        exists|o: Seq<SerialPortInfo>|
            o.map_values(|p: SerialPortInfo| port_view(p)) == spec_offered(paths@.map_values(|s: String| s@))
                && r.ports@.to_multiset() == #[trigger] o.to_multiset(),
{
    let offered = offered_ports(paths);
    let ghost o = offered@;
    let sorted = sort_ports(offered);
    assert(o.map_values(|p: SerialPortInfo| port_view(p)) == spec_offered(paths@.map_values(|s: String| s@))
        && sorted@.to_multiset() == o.to_multiset());
    GetSerialPortsRsp { ports: sorted }
}

/// The device path of a port named in a URL, which may have lost its
/// leading slash.
pub fn normalize_port_path(port: &str) -> (r: String)
    ensures
        (port@.len() > 0 && port@[0] == '/') ==> r@ == port@,
        !(port@.len() > 0 && port@[0] == '/') ==> r@ == "/"@ + port@,
{
    let chars = crate::text::chars_of(port);
    if chars.len() > 0 && chars[0] == '/' {
        String::from_str(port)
    } else {
        let mut s = String::from_str("/");
        s.append(port);
        s
    }
}

/// A port may be attached when it is a terminal device and its path does
/// not climb out of `/dev`.
pub fn port_allowed(port: &str) -> (r: bool)
    ensures
        r == (starts_with(port@, "/dev/tty"@) && !has_sub(port@, ".."@)),
{
    let chars = crate::text::chars_of(port);
    starts_with_str(chars.as_slice(), "/dev/tty") && !contains_sub(&chars, "..")
}

/// The message sent when a port cannot be opened.
pub fn open_failed_message(detail: &str) -> (r: String)
    ensures
        r@ == "Open failed: "@ + detail@,
{
    let mut s = String::from_str("Open failed: ");
    s.append(detail);
    s
}

/// What happens while a port is attached to a WebSocket.
#[derive(Clone, Debug)]
pub enum SerialEvent {
    /// The port gave these bytes (none: it closed).
    SerialRead(Vec<u8>),
    /// Reading the port failed.
    SerialError,
    /// The socket sent bytes.
    SocketBinary(Vec<u8>),
    /// The socket sent text.
    SocketText(String),
    /// The socket closed or ended.
    SocketClosed,
    /// Receiving from the socket failed.
    SocketError,
    /// The socket sent something else (a ping or a pong).
    SocketOther,
    /// Sending to the socket or writing to the port failed.
    DeliveryFailed,
}

/// What the relay does in answer.
#[derive(Clone, Debug)]
pub enum SerialAction {
    /// Send these bytes to the socket.
    SendToSocket(Vec<u8>),
    /// Write these bytes to the port.
    WriteToPort(Vec<u8>),
    /// Nothing to do.
    Ignore,
    /// End the session.
    Stop,
}

/// The relay between a port and a socket: bytes read from the port go to
/// the socket, bytes and text from the socket go to the port; an end or a
/// failure on either side ends the session.
pub fn serial_relay_step(event: SerialEvent) -> (r: SerialAction)
    ensures
        match event {
            SerialEvent::SerialRead(b) => if b@.len() == 0 {
                r is Stop
            } else {
                r matches SerialAction::SendToSocket(s) && s@ == b@
            },
            SerialEvent::SocketBinary(b) => r matches SerialAction::WriteToPort(w) && w@ == b@,
            SerialEvent::SocketText(t) => r matches SerialAction::WriteToPort(w) && w@ == vstd::utf8::encode_utf8(t@),
            SerialEvent::SocketOther => r is Ignore,
            _ => r is Stop,
        },
{
    match event {
        SerialEvent::SerialRead(b) => if b.len() == 0 {
            SerialAction::Stop
        } else {
            SerialAction::SendToSocket(b)
        },
        SerialEvent::SocketBinary(b) => SerialAction::WriteToPort(b),
        SerialEvent::SocketText(t) => SerialAction::WriteToPort(t.as_str().as_bytes_vec()),
        SerialEvent::SocketOther => SerialAction::Ignore,
        _ => SerialAction::Stop,
    }
}

} // verus!
