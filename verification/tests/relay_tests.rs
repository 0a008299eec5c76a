use nanokvm::input::{decode_binary, decode_event, decode_text, release_reports, HidReport};
use nanokvm::serial::{
    list_serial_ports, normalize_port_path, open_failed_message, port_allowed, serial_port_info, serial_relay_step,
    SerialAction, SerialEvent, SerialQuery,
};
use nanokvm::terminal::{terminal_step, TerminalAction, TerminalEvent};
use nanokvm::vm::WinSize;
use nanokvm::ws_signaling::{answer_message, heartbeat_message, offer_from_sdp, ws_signal_action, WsSignalAction};

fn report(d: &nanokvm::input::InputDecision) -> Option<(bool, Vec<u8>)> {
    match &d.report {
        Some(HidReport::Keyboard(b)) => Some((true, b.clone())),
        Some(HidReport::Mouse(b)) => Some((false, b.clone())),
        None => None,
    }
}

#[test]
fn binary_frames_carry_raw_reports() {
    let k = decode_binary(&[1, 0, 0, 4, 0, 0, 0, 0, 0]);
    assert!(k.activity);
    assert_eq!(report(&k), Some((true, vec![0, 0, 4, 0, 0, 0, 0, 0])));
    let m = decode_binary(&[2, 1, 2, 3, 4]);
    assert_eq!(report(&m), Some((false, vec![1, 2, 3, 4])));
    let bad = decode_binary(&[2, 1, 2, 3]);
    assert!(bad.activity);
    assert!(bad.report.is_none());
    let hb = decode_binary(&[0]);
    assert!(hb.activity && hb.report.is_none());
    let unknown = decode_binary(&[9, 1]);
    assert!(!unknown.activity);
    assert!(!decode_binary(&[]).activity);
}

#[test]
fn json_key_event_builds_a_keyboard_report() {
    let d = decode_text("[1, 4, 1, 2, 0, 8]");
    assert_eq!(report(&d), Some((true, vec![1 | 2 | 8, 0, 4, 0, 0, 0, 0, 0])));
    let short = decode_event(&[1, 4, 1, 2]);
    assert!(!short.activity);
    assert!(decode_text("not json").report.is_none());
    assert!(!decode_text("not json").activity);
}

#[test]
fn json_mouse_events_build_mouse_reports() {
    assert_eq!(report(&decode_event(&[2, 0])), Some((false, vec![0, 0, 0, 0])));
    assert_eq!(report(&decode_event(&[2, 1, 2])), Some((false, vec![2, 0, 0, 0])));
    assert_eq!(report(&decode_event(&[2, 2, 0, 0x1234, 0x0506])), Some((false, vec![0, 0x34, 0x12, 0x06, 0x05, 0])));
    assert_eq!(report(&decode_event(&[2, 3, 1, -1, 5])), Some((false, vec![1, 0xFF, 5, 0])));
    assert_eq!(report(&decode_event(&[2, 4, 0, 0, -3])), Some((false, vec![0, 0, 0, 0xFF])));
    assert_eq!(report(&decode_event(&[2, 4, 0, 0, 3])), Some((false, vec![0, 0, 0, 1])));
    let no_args = decode_event(&[2, 2, 0]);
    assert!(no_args.activity);
    assert!(no_args.report.is_none());
}

#[test]
fn closing_releases_every_key_and_button() {
    let r = release_reports();
    assert_eq!(r.len(), 3);
    assert!(matches!(&r[0], HidReport::Keyboard(b) if b == &vec![0u8; 8]));
    assert!(matches!(&r[1], HidReport::Mouse(b) if b == &vec![0u8; 4]));
    assert!(matches!(&r[2], HidReport::Mouse(b) if b == &vec![0u8; 6]));
}

#[test]
fn serial_ports_are_classified_and_sorted() {
    let paths = vec![
        "/dev/ttyUSB0".to_string(),
        "/dev/null".to_string(),
        "/dev/ttyS1".to_string(),
        "/dev/ttyACM0".to_string(),
        "/dev/ttyS0".to_string(),
    ];
    let rsp = list_serial_ports(&paths);
    let got: Vec<(String, String)> = rsp.ports.iter().map(|p| (p.path.clone(), p.description.clone())).collect();
    assert_eq!(
        got,
        vec![
            ("/dev/ttyACM0".to_string(), "USB Serial".to_string()),
            ("/dev/ttyS0".to_string(), "Onboard UART".to_string()),
            ("/dev/ttyS1".to_string(), "Onboard UART".to_string()),
            ("/dev/ttyUSB0".to_string(), "USB Serial".to_string()),
        ]
    );
    assert!(serial_port_info("/dev/tty1").is_none());
    assert_eq!(SerialQuery::default().baud, 115200);
}

#[test]
fn serial_ports_must_be_terminals() {
    assert_eq!(normalize_port_path("dev/ttyS1"), "/dev/ttyS1");
    assert_eq!(normalize_port_path("/dev/ttyS1"), "/dev/ttyS1");
    assert!(port_allowed("/dev/ttyS1"));
    assert!(!port_allowed("/dev/../etc/passwd"));
    assert!(!port_allowed("/dev/tty/../../x"));
    assert!(!port_allowed("/etc/passwd"));
    assert_eq!(open_failed_message("busy"), "Open failed: busy");
}

#[test]
fn serial_relay_moves_bytes_both_ways() {
    assert!(matches!(serial_relay_step(SerialEvent::SerialRead(vec![1, 2])), SerialAction::SendToSocket(b) if b == vec![1, 2]));
    assert!(matches!(serial_relay_step(SerialEvent::SerialRead(vec![])), SerialAction::Stop));
    assert!(matches!(serial_relay_step(SerialEvent::SocketText("hi".to_string())), SerialAction::WriteToPort(b) if b == b"hi".to_vec()));
    assert!(matches!(serial_relay_step(SerialEvent::SocketBinary(vec![7])), SerialAction::WriteToPort(b) if b == vec![7]));
    assert!(matches!(serial_relay_step(SerialEvent::SocketOther), SerialAction::Ignore));
    assert!(matches!(serial_relay_step(SerialEvent::SocketClosed), SerialAction::Stop));
    assert!(matches!(serial_relay_step(SerialEvent::DeliveryFailed), SerialAction::Stop));
}

#[test]
fn terminal_resizes_on_window_size_frames() {
    let ev = TerminalEvent::SocketBinary { bytes: b"{\"rows\":40,\"cols\":100}".to_vec(), win_size: Some(WinSize { rows: 40, cols: 100 }) };
    assert!(matches!(terminal_step(ev), TerminalAction::Resize { rows: 40, cols: 100 }));
    let ev = TerminalEvent::SocketBinary { bytes: b"ls\n".to_vec(), win_size: None };
    assert!(matches!(terminal_step(ev), TerminalAction::WriteToShell(b) if b == b"ls\n".to_vec()));
    assert!(matches!(terminal_step(TerminalEvent::ShellOutput(vec![])), TerminalAction::Stop));
    assert!(matches!(terminal_step(TerminalEvent::SocketText("é".to_string())), TerminalAction::WriteToShell(b) if b == "é".as_bytes().to_vec()));
}

#[test]
fn ws_signalling_dispatches_events() {
    assert!(matches!(ws_signal_action("video-offer", None), WsSignalAction::HandleOffer));
    assert!(matches!(ws_signal_action("video-candidate", None), WsSignalAction::CandidateBeforeOffer));
    assert!(matches!(ws_signal_action("video-candidate", Some("c1")), WsSignalAction::AddCandidate(c) if c == "c1"));
    assert!(matches!(ws_signal_action("heartbeat", Some("c1")), WsSignalAction::ReplyHeartbeat));
    assert!(matches!(ws_signal_action("bye", None), WsSignalAction::Ignore));
    let hb = heartbeat_message();
    assert_eq!((hb.event.as_str(), hb.data.as_str()), ("heartbeat", ""));
    assert_eq!(answer_message("{}".to_string()).event, "video-answer");
    assert_eq!(offer_from_sdp("v=0".to_string()).sdp_type, "offer");
}
