//! The WebSocket signalling of the H.264 player: messages `{event, data}`
//! carrying an offer, ICE candidates and heartbeats, and what the server
//! does with each.

use vstd::prelude::*;
use vstd::string::StringExecFns;
use crate::textscan::str_eq;
use crate::transport::SdpOffer;

verus! {

/// A signalling message.
#[derive(Clone, Debug)]
pub struct SignalingMessage {
    pub event: String,
    pub data: String,
}

/// What the server does with a message.
#[derive(Clone, Debug)]
pub enum WsSignalAction {
    /// Answer the offer in the data.
    HandleOffer,
    /// Add the candidate in the data to this connection.
    AddCandidate(String),
    /// A candidate came before any offer: it is dropped.
    CandidateBeforeOffer,
    /// Answer with a heartbeat.
    ReplyHeartbeat,
    /// Not a known event.
    Ignore,
}

/// The action for an event, given the connection the socket's offer
/// created, if any.
pub fn ws_signal_action(event: &str, connection: Option<&str>) -> (r: WsSignalAction)
    ensures
        event@ == "video-offer"@ ==> r is HandleOffer,
        event@ == "video-candidate"@ ==> match connection {
            Some(c) => r matches WsSignalAction::AddCandidate(id) && id@ == c@,
            None => r is CandidateBeforeOffer,
        },
        event@ == "heartbeat"@ ==> r is ReplyHeartbeat,
        event@ != "video-offer"@ && event@ != "video-candidate"@ && event@ != "heartbeat"@ ==> r is Ignore,
{
    proof {
        reveal_strlit("video-offer");
        reveal_strlit("video-candidate");
        reveal_strlit("heartbeat");
        assert("video-offer"@[6] != "video-candidate"@[6]);
        assert("video-offer"@[0] != "heartbeat"@[0]);
        assert("video-candidate"@[0] != "heartbeat"@[0]);
    }
    if str_eq(event, "video-offer") {
        WsSignalAction::HandleOffer
    } else if str_eq(event, "video-candidate") {
        match connection {
            Some(c) => WsSignalAction::AddCandidate(String::from_str(c)),
            None => WsSignalAction::CandidateBeforeOffer,
        }
    } else if str_eq(event, "heartbeat") {
        WsSignalAction::ReplyHeartbeat
    } else {
        WsSignalAction::Ignore
    }
}

/// The offer handed to the peer-connection manager for an SDP.
pub fn offer_from_sdp(sdp: String) -> (r: SdpOffer)
    ensures
        r.sdp_type@ == "offer"@,
        r.sdp == sdp,
{
    SdpOffer { sdp_type: String::from_str("offer"), sdp }
}

/// The heartbeat reply.
pub fn heartbeat_message() -> (r: SignalingMessage)
    ensures
        r.event@ == "heartbeat"@,
        r.data@.len() == 0,
{
    proof {
        reveal_strlit("");
    }
    SignalingMessage { event: String::from_str("heartbeat"), data: String::from_str("") }
}

/// The message carrying the answer (its data is the answer's JSON).
pub fn answer_message(data: String) -> (r: SignalingMessage)
    ensures
        r.event@ == "video-answer"@,
        r.data == data,
{
    SignalingMessage { event: String::from_str("video-answer"), data }
}

/// The message carrying a local ICE candidate (its data is the
/// candidate's JSON).
pub fn candidate_message(data: String) -> (r: SignalingMessage)
    ensures
        r.event@ == "video-candidate"@,
        r.data == data,
{
    SignalingMessage { event: String::from_str("video-candidate"), data }
}

} // verus!
