//! The web terminal: a shell on a pseudo-terminal relayed to a WebSocket.
//! Output of the shell goes to the socket; input from the socket goes to
//! the shell, except a binary frame holding a window size, which resizes
//! the terminal.

use vstd::prelude::*;
use vstd::string::StrSliceExecFns;
use crate::vm::WinSize;

verus! {

/// The size the pseudo-terminal opens with.
pub const PTY_ROWS: u16 = 24;
pub const PTY_COLS: u16 = 80;

/// What happens while the terminal is attached.
#[derive(Clone, Debug)]
pub enum TerminalEvent {
    /// The shell wrote these bytes (none: it ended or reading failed).
    ShellOutput(Vec<u8>),
    /// The socket sent a binary frame; `win_size` is the window size it
    /// holds when it is one.
    SocketBinary { bytes: Vec<u8>, win_size: Option<WinSize> },
    /// The socket sent text.
    SocketText(String),
    /// The socket sent something else.
    SocketOther,
    /// Sending to the socket failed.
    SendFailed,
}

/// What the relay does in answer.
#[derive(Clone, Debug)]
pub enum TerminalAction {
    /// Send the shell's output to the socket.
    SendToSocket(Vec<u8>),
    /// Write input to the shell.
    WriteToShell(Vec<u8>),
    /// Resize the terminal.
    Resize { rows: u16, cols: u16 },
    /// Nothing to do.
    Ignore,
    /// End the session (the shell is killed).
    Stop,
}

/// The relay's answer to one event.
pub fn terminal_step(event: TerminalEvent) -> (r: TerminalAction)
    ensures
        match event {
            TerminalEvent::ShellOutput(b) => if b@.len() == 0 {
                r is Stop
            } else {
                r matches TerminalAction::SendToSocket(s) && s@ == b@
            },
            TerminalEvent::SocketBinary { bytes, win_size } => match win_size {
                Some(w) => r matches TerminalAction::Resize { rows, cols } && rows == w.rows && cols == w.cols,
                None => r matches TerminalAction::WriteToShell(s) && s@ == bytes@,
            },
            TerminalEvent::SocketText(t) => r matches TerminalAction::WriteToShell(s) && s@
                == vstd::utf8::encode_utf8(t@),
            TerminalEvent::SocketOther => r is Ignore,
            TerminalEvent::SendFailed => r is Stop,
        },
{
    match event {
        TerminalEvent::ShellOutput(b) => if b.len() == 0 {
            TerminalAction::Stop
        } else {
            TerminalAction::SendToSocket(b)
        },
        TerminalEvent::SocketBinary { bytes, win_size } => match win_size {
            Some(w) => TerminalAction::Resize { rows: w.rows, cols: w.cols },
            None => TerminalAction::WriteToShell(bytes),
        },
        TerminalEvent::SocketText(t) => TerminalAction::WriteToShell(t.as_str().as_bytes_vec()),
        TerminalEvent::SocketOther => TerminalAction::Ignore,
        TerminalEvent::SendFailed => TerminalAction::Stop,
    }
}

} // verus!
