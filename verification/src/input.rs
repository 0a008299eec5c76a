//! Keyboard and mouse input from the browser's WebSocket, turned into HID
//! reports. Two framings exist: a binary frame whose first byte is the
//! kind and whose rest is a raw report, and (older clients) a JSON array of
//! integers `[kind, ...]`.

use vstd::prelude::*;
use vstd::slice::{slice_subrange, slice_to_vec};

verus! {

/// Message kinds.
pub const MSG_HEARTBEAT: i32 = 0;
pub const MSG_KEYBOARD: i32 = 1;
pub const MSG_MOUSE: i32 = 2;

/// Mouse event kinds of the JSON framing.
pub const MOUSE_UP: i32 = 0;
pub const MOUSE_DOWN: i32 = 1;
pub const MOUSE_MOVE_ABSOLUTE: i32 = 2;
pub const MOUSE_MOVE_RELATIVE: i32 = 3;
pub const MOUSE_SCROLL: i32 = 4;

/// A report for one of the HID devices.
#[derive(Clone, Debug)]
pub enum HidReport {
    Keyboard(Vec<u8>),
    Mouse(Vec<u8>),
}

/// A report as (is it for the keyboard, its bytes).
pub open spec fn report_view(r: HidReport) -> (bool, Seq<u8>) {
    match r {
        HidReport::Keyboard(b) => (true, b@),
        HidReport::Mouse(b) => (false, b@),
    }
}

/// What one message leads to: whether it counts as user activity (for
/// the mouse jiggler), and the report to send, if any.
#[derive(Clone, Debug)]
pub struct InputDecision {
    pub activity: bool,
    pub report: Option<HidReport>,
}

/// A decision as (activity, report view).
pub open spec fn decision_view(d: InputDecision) -> (bool, Option<(bool, Seq<u8>)>) {
    (d.activity, match d.report {
        Some(r) => Some(report_view(r)),
        None => None,
    })
}

/// A binary frame: kind 0 is a heartbeat; kind 1 carries an 8-byte
/// keyboard report; kind 2 a 4- or 6-byte mouse report. Reports of another
/// length are dropped, but the frame still counts as activity; unknown
/// kinds and empty frames are ignored.
pub open spec fn spec_binary_input(bin: Seq<u8>) -> (bool, Option<(bool, Seq<u8>)>) {
    if bin.len() == 0 {
        (false, None)
    } else {
        let report = bin.subrange(1, bin.len() as int);
        if bin[0] == 0 {
            (true, None)
        } else if bin[0] == 1 {
            (true, if report.len() == 8 { Some((true, report)) } else { None })
        } else if bin[0] == 2 {
            (true, if report.len() == 4 || report.len() == 6 { Some((false, report)) } else { None })
        } else {
            (false, None)
        }
    }
}

/// Binary frames, by their kind byte and the bytes after it: a heartbeat
/// (0) is activity and sends nothing; a keyboard frame (1) sends its
/// 8-byte report to the keyboard unchanged; a mouse frame (2) sends its 4-
/// or 6-byte report (relative or absolute) to the mouse unchanged; a
/// keyboard or mouse frame of another length is activity but sends
/// nothing; any other kind, and an empty frame, is ignored.
pub proof fn lemma_binary_frames(kind: u8, rest: Seq<u8>)
    ensures
        spec_binary_input(Seq::<u8>::empty()) == (false, None::<(bool, Seq<u8>)>),
        kind == 0 ==> spec_binary_input(seq![kind] + rest) == (true, None::<(bool, Seq<u8>)>),
        kind == 1 && rest.len() == 8 ==> spec_binary_input(seq![kind] + rest) == (true, Some((true, rest))),
        kind == 2 && (rest.len() == 4 || rest.len() == 6) ==>
            spec_binary_input(seq![kind] + rest) == (true, Some((false, rest))),
        kind == 1 && rest.len() != 8 ==> spec_binary_input(seq![kind] + rest) == (true, None::<(bool, Seq<u8>)>),
        kind == 2 && rest.len() != 4 && rest.len() != 6 ==>
            spec_binary_input(seq![kind] + rest) == (true, None::<(bool, Seq<u8>)>),
        kind > 2 ==> spec_binary_input(seq![kind] + rest) == (false, None::<(bool, Seq<u8>)>),
{
    let bin = seq![kind] + rest;
    assert(bin[0] == kind);
    assert(bin.subrange(1, bin.len() as int) =~= rest);
}

/// A JSON key event `[1, keycode, ctrl, shift, alt, meta?]` sends an
/// 8-byte keyboard report whose first byte has every bit of each modifier
/// flag given, whose third byte is the key code (its low byte), and whose
/// other bytes are zero.
pub proof fn lemma_key_event_report(e: Seq<i32>)
    requires
        e.len() >= 5,
        e[0] == MSG_KEYBOARD,
    ensures
        spec_text_input(e).0,
        spec_text_input(e).1 matches Some((kb, r)) && kb && r.len() == 8
            && r[2] == e[1] as u8 && r[1] == 0 && r[3] == 0 && r[4] == 0 && r[5] == 0 && r[6] == 0 && r[7] == 0
            && r[0] & (e[2] as u8) == e[2] as u8 && r[0] & (e[3] as u8) == e[3] as u8
            && r[0] & (e[4] as u8) == e[4] as u8
            && (e.len() > 5 ==> r[0] & (e[5] as u8) == e[5] as u8),
{
    let (a, b, c) = (e[2] as u8, e[3] as u8, e[4] as u8);
    let d: u8 = if e.len() > 5 { e[5] as u8 } else { 0u8 };
    let m = a | b | c | d;
    assert(m & a == a && m & b == b && m & c == c && m & d == d) by (bit_vector)
        requires m == a | b | c | d;
}

/// A JSON absolute move `[2, 2, _, x, y]` sends a 6-byte report from which
/// the position reads back: bytes 1-2 are `x` and bytes 3-4 are `y`, each
/// as a little-endian 16-bit value (the low 16 bits of the number sent).
pub proof fn lemma_absolute_move_position(e: Seq<i32>)
    requires
        e.len() >= 5,
        e[0] == MSG_MOUSE,
        e[1] == MOUSE_MOVE_ABSOLUTE,
    ensures
        spec_text_input(e).0,
        spec_text_input(e).1 matches Some((kb, r)) && !kb && r.len() == 6 && r[0] == 0 && r[5] == 0
            && r[1] as int + 256 * r[2] as int == (e[3] as u16) as int
            && r[3] as int + 256 * r[4] as int == (e[4] as u16) as int,
{
    let x = e[3] as u16;
    let y = e[4] as u16;
    assert(((x & 0xFF) as u8) as int + 256 * ((x >> 8) as u8) as int == x as int) by (bit_vector);
    assert(((y & 0xFF) as u8) as int + 256 * ((y >> 8) as u8) as int == y as int) by (bit_vector);
}

/// Decodes a binary frame.
pub fn decode_binary(bin: &[u8]) -> (r: InputDecision)
    ensures
        decision_view(r) == spec_binary_input(bin@),
{
    if bin.len() == 0 {
        return InputDecision { activity: false, report: None };
    }
    let report = slice_subrange(bin, 1, bin.len());
    if bin[0] == 0 {
        InputDecision { activity: true, report: None }
    } else if bin[0] == 1 {
        if report.len() == 8 {
            InputDecision { activity: true, report: Some(HidReport::Keyboard(slice_to_vec(report))) }
        } else {
            InputDecision { activity: true, report: None }
        }
    } else if bin[0] == 2 {
        if report.len() == 4 || report.len() == 6 {
            InputDecision { activity: true, report: Some(HidReport::Mouse(slice_to_vec(report))) }
        } else {
            InputDecision { activity: true, report: None }
        }
    } else {
        InputDecision { activity: false, report: None }
    }
}

/// The keyboard report of a JSON key event `[1, keycode, ctrl, shift, alt,
/// meta?]`: the modifier byte is the four flags or-ed together, the key
/// code goes in the first key slot.
pub open spec fn spec_key_report(e: Seq<i32>) -> Seq<u8> {
    let modifier = (e[2] as u8) | (e[3] as u8) | (e[4] as u8) | (if e.len() > 5 { e[5] as u8 } else { 0u8 });
    seq![modifier, 0u8, e[1] as u8, 0u8, 0u8, 0u8, 0u8, 0u8]
}

/// The mouse report of a JSON mouse event `[2, kind, ...]`: release;
/// press of button `e[2]`; move to the absolute position `(e[3], e[4])`
/// (little-endian, 6-byte report); relative move by `(e[3], e[4])` with
/// buttons `e[2]`; a wheel step down when `e[4]` is negative, up otherwise.
/// Events without their arguments give nothing.
pub open spec fn spec_mouse_report(e: Seq<i32>) -> Option<Seq<u8>> {
    let t = e[1];
    if t == MOUSE_UP {
        Some(seq![0u8, 0u8, 0u8, 0u8])
    } else if t == MOUSE_DOWN && e.len() >= 3 {
        Some(seq![e[2] as u8, 0u8, 0u8, 0u8])
    } else if t == MOUSE_MOVE_ABSOLUTE && e.len() >= 5 {
        let x = e[3] as u16;
        let y = e[4] as u16;
        Some(seq![0u8, (x & 0xFF) as u8, (x >> 8) as u8, (y & 0xFF) as u8, (y >> 8) as u8, 0u8])
    } else if t == MOUSE_MOVE_RELATIVE && e.len() >= 5 {
        Some(seq![e[2] as u8, (e[3] as i8) as u8, (e[4] as i8) as u8, 0u8])
    } else if t == MOUSE_SCROLL && e.len() >= 5 {
        Some(seq![0u8, 0u8, 0u8, if e[4] < 0 { 0xFFu8 } else { 0x01u8 }])
    } else {
        None
    }
}

/// A JSON event: a heartbeat; a key event with at least its four flags; a
/// mouse event with its kind. Anything else is ignored.
pub open spec fn spec_text_input(e: Seq<i32>) -> (bool, Option<(bool, Seq<u8>)>) {
    if e.len() == 0 {
        (false, None)
    } else if e[0] == MSG_HEARTBEAT {
        (true, None)
    } else if e[0] == MSG_KEYBOARD && e.len() >= 5 {
        (true, Some((true, spec_key_report(e))))
    } else if e[0] == MSG_MOUSE && e.len() >= 2 {
        (true, match spec_mouse_report(e) {
            Some(m) => Some((false, m)),
            None => None,
        })
    } else {
        (false, None)
    }
}

/// Decodes a JSON event already read as integers.
pub fn decode_event(e: &[i32]) -> (r: InputDecision)
    ensures
        decision_view(r) == spec_text_input(e@),
{
    if e.len() == 0 {
        return InputDecision { activity: false, report: None };
    }
    if e[0] == MSG_HEARTBEAT {
        InputDecision { activity: true, report: None }
    } else if e[0] == MSG_KEYBOARD && e.len() >= 5 {
        let keycode = e[1] as u8;
        let modifier = (e[2] as u8) | (e[3] as u8) | (e[4] as u8) | (if e.len() > 5 { e[5] as u8 } else { 0u8 });
        let report = vec![modifier, 0u8, keycode, 0u8, 0u8, 0u8, 0u8, 0u8];
        assert(report@ =~= spec_key_report(e@));
        InputDecision { activity: true, report: Some(HidReport::Keyboard(report)) }
    } else if e[0] == MSG_MOUSE && e.len() >= 2 {
        let t = e[1];
        let report: Option<Vec<u8>> = if t == MOUSE_UP {
            Some(vec![0u8, 0u8, 0u8, 0u8])
        } else if t == MOUSE_DOWN && e.len() >= 3 {
            Some(vec![e[2] as u8, 0u8, 0u8, 0u8])
        } else if t == MOUSE_MOVE_ABSOLUTE && e.len() >= 5 {
            let x = e[3] as u16;
            let y = e[4] as u16;
            Some(vec![0u8, (x & 0xFF) as u8, (x >> 8) as u8, (y & 0xFF) as u8, (y >> 8) as u8, 0u8])
        } else if t == MOUSE_MOVE_RELATIVE && e.len() >= 5 {
            Some(vec![e[2] as u8, (e[3] as i8) as u8, (e[4] as i8) as u8, 0u8])
        } else if t == MOUSE_SCROLL && e.len() >= 5 {
            Some(vec![0u8, 0u8, 0u8, if e[4] < 0 { 0xFFu8 } else { 0x01u8 }])
        } else {
            None
        };
        proof {
            let m = spec_mouse_report(e@);
            assert(match report {
                Some(v) => m == Some(v@),
                None => m is None,
            }) by {
                if let Some(v) = report {
                    assert(v@ =~= m->Some_0);
                }
            }
        }
        match report {
            Some(v) => InputDecision { activity: true, report: Some(HidReport::Mouse(v)) },
            None => InputDecision { activity: true, report: None },
        }
    } else {
        InputDecision { activity: false, report: None }
    }
}

/// The integers of a JSON array of 32-bit integers, as `serde_json` reads
/// it; `None` when the text is not such an array.
pub uninterp spec fn spec_json_i32_array(text: Seq<char>) -> Option<Seq<i32>>;

/// `serde_json::from_str::<Vec<i32>>`, its error dropped.
#[verifier::external_body]
fn json_i32_array(text: &str) -> (r: Option<Vec<i32>>)
    ensures
        match (r, spec_json_i32_array(text@)) {
            (Some(a), Some(b)) => a@ == b,
            (None, None) => true,
            _ => false,
        },
{
    serde_json::from_str::<Vec<i32>>(text).ok()
}

/// Decodes a text frame: a JSON array of integers, else nothing.
pub fn decode_text(text: &str) -> (r: InputDecision)
    ensures
        match spec_json_i32_array(text@) {
            Some(e) => decision_view(r) == spec_text_input(e),
            None => decision_view(r) == (false, Option::<(bool, Seq<u8>)>::None),
        },
{
    match json_i32_array(text) {
        Some(e) => decode_event(e.as_slice()),
        None => InputDecision { activity: false, report: None },
    }
}

/// The reports that let go of every key and button when the socket
/// closes: an empty keyboard report, then empty 4- and 6-byte mouse reports.
pub fn release_reports() -> (r: Vec<HidReport>)
    ensures
        r@.len() == 3,
        report_view(r@[0]) == (true, seq![0u8, 0u8, 0u8, 0u8, 0u8, 0u8, 0u8, 0u8]),
        report_view(r@[1]) == (false, seq![0u8, 0u8, 0u8, 0u8]),
        report_view(r@[2]) == (false, seq![0u8, 0u8, 0u8, 0u8, 0u8, 0u8]),
{
    let k = vec![0u8, 0u8, 0u8, 0u8, 0u8, 0u8, 0u8, 0u8];
    let m4 = vec![0u8, 0u8, 0u8, 0u8];
    let m6 = vec![0u8, 0u8, 0u8, 0u8, 0u8, 0u8];
    assert(k@ =~= seq![0u8, 0u8, 0u8, 0u8, 0u8, 0u8, 0u8, 0u8]);
    assert(m4@ =~= seq![0u8, 0u8, 0u8, 0u8]);
    assert(m6@ =~= seq![0u8, 0u8, 0u8, 0u8, 0u8, 0u8]);
    vec![HidReport::Keyboard(k), HidReport::Mouse(m4), HidReport::Mouse(m6)]
}

} // verus!
