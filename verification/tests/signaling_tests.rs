use nanokvm::media::QualityTier;
use nanokvm::signaling::{
    ClientFeedback, PeerState, QualitySwitchResponse, SdpAnswer, SignalingError, SignalingEvent, WebRtcSignaling,
};

#[test]
fn test_create_offer() {
    let mut signaling = WebRtcSignaling::new_default();
    let response = signaling.create_offer("cam-001").unwrap();
    assert!(!response.peer_id.is_empty());
    assert!(!response.offer.sdp.is_empty());
}

#[test]
fn test_close_peer() {
    let mut signaling = WebRtcSignaling::new_default();
    let response = signaling.create_offer("cam-001").unwrap();
    signaling.close_peer(&response.peer_id).unwrap();
    assert!(signaling.get_peer_state(&response.peer_id).is_none());
}

#[test]
fn test_list_peers() {
    let mut signaling = WebRtcSignaling::new_default();
    signaling.create_offer("cam-001").unwrap();
    signaling.create_offer("cam-002").unwrap();

    let peers = signaling.list_active_peers();
    assert_eq!(peers.len(), 2);
}

#[test]
fn offers_number_their_peers_and_count_them() {
    let mut s = WebRtcSignaling::new_default();
    let a = s.create_offer("cam").unwrap();
    let b = s.create_offer("cam").unwrap();
    assert_eq!(a.peer_id, "peer-0");
    assert_eq!(b.peer_id, "peer-1");
    assert!(a.offer.sdp.starts_with("v=0\no=- 0 0 IN IP4 0.0.0.0\n"));
    assert!(a.offer.sdp.ends_with("a=rtpmap:97 VP8/90000"));
    assert_eq!(a.config.ice_servers[0].urls, vec!["stun:stun.l.google.com:19302"]);
    assert_eq!(s.get_peer_state("peer-0"), Some(PeerState::New));
    s.close_peer("peer-0").unwrap();
    let m = s.metrics();
    assert_eq!(m.total_peers, 2);
    assert_eq!(m.active_peers, 1);
    assert_eq!(m.closed_peers, 1);
    assert_eq!(m.failed_peers, 0);
}

#[test]
fn answer_moves_peer_to_connecting() {
    let mut s = WebRtcSignaling::new_default();
    let a = s.create_offer("cam").unwrap();
    s.handle_answer(&a.peer_id, SdpAnswer { sdp: "v=0".to_string(), session_id: 1 }).unwrap();
    assert_eq!(s.get_peer_state(&a.peer_id), Some(PeerState::Connecting));
}

#[test]
fn unknown_peers_are_refused() {
    let mut s = WebRtcSignaling::new_default();
    assert!(matches!(s.close_peer("peer-9"), Err(SignalingError::PeerNotFound)));
    assert!(matches!(
        s.handle_answer("peer-9", SdpAnswer { sdp: String::new(), session_id: 0 }),
        Err(SignalingError::PeerNotFound)
    ));
    let fb = ClientFeedback {
        peer_id: "peer-9".to_string(),
        camera_id: "cam".to_string(),
        estimated_bandwidth_kbps: Some(100),
        buffer_ms: None,
    };
    assert!(matches!(s.handle_client_feedback(fb), Err(SignalingError::PeerNotFound)));
    assert_eq!(SignalingError::PeerNotFound.message(), "Peer not found");
    assert_eq!(SignalingError::Signalling("x".to_string()).message(), "Signaling error: x");
}

#[test]
fn quality_switch_events_name_the_peer_camera() {
    let mut s = WebRtcSignaling::new_default();
    let a = s.create_offer("cam-7").unwrap();
    match s.request_quality_switch(&a.peer_id, QualityTier::High, QualityTier::Low).unwrap() {
        SignalingEvent::QualitySwitchRequested { request } => {
            assert_eq!(request.camera_id, "cam-7");
            assert_eq!(request.from_tier, QualityTier::High);
            assert_eq!(request.to_tier, QualityTier::Low);
        },
        _ => panic!("wrong event"),
    }
    let resp = QualitySwitchResponse {
        peer_id: a.peer_id.clone(),
        camera_id: "cam-7".to_string(),
        accepted: true,
        reason: None,
    };
    assert!(matches!(s.complete_quality_switch(resp), Ok(SignalingEvent::QualitySwitchCompleted { .. })));
}
