use nanokvm::webrtc::{
    find_nal_units, packetize_h264, ConnectionState, IceServer, PeerConnectionState, VideoCodecType,
    WebRtcConfig, WhepResource,
};

#[test]
fn test_ice_server_stun() {
    let server = IceServer::stun("stun:stun.example.com:3478");
    assert_eq!(server.urls, vec!["stun:stun.example.com:3478"]);
    assert!(server.username.is_none());
    assert!(server.credential.is_none());
}

#[test]
fn test_ice_server_turn() {
    let server = IceServer::turn("turn:turn.example.com:3478", "user", "pass");
    assert_eq!(server.urls, vec!["turn:turn.example.com:3478"]);
    assert_eq!(server.username, Some("user".to_string()));
    assert_eq!(server.credential, Some("pass".to_string()));
}

#[test]
fn test_config_builder() {
    let config = WebRtcConfig::builder()
        .add_stun_server("stun:stun.l.google.com:19302")
        .add_turn_server("turn:turn.example.com:3478", "user", "pass")
        .ice_trickle(false)
        .ice_timeout_secs(60)
        .max_peers_per_camera(5)
        .video_codec(VideoCodecType::H264)
        .build()
        .unwrap();

    assert_eq!(config.ice_servers.len(), 2);
    assert!(!config.ice_trickle);
    assert_eq!(config.ice_connection_timeout_secs, 60);
    assert_eq!(config.max_peers_per_camera, 5);
    assert_eq!(config.video_codec, VideoCodecType::H264);
}

#[test]
fn test_config_default_with_stun() {
    let config = WebRtcConfig::default_with_stun();
    assert!(!config.ice_servers.is_empty());
    assert!(config.ice_trickle);
}

#[test]
fn builder_without_servers_uses_the_default_stun_pair() {
    let config = WebRtcConfig::builder().build().unwrap();
    assert_eq!(config.ice_servers.len(), 2);
    assert_eq!(config.ice_servers[0].urls, vec!["stun:stun.l.google.com:19302"]);
    assert_eq!(config.ice_servers[1].urls, vec!["stun:stun1.l.google.com:19302"]);
    assert_eq!(config.ice_connection_timeout_secs, 30);
    assert_eq!(config.max_peers_per_camera, 10);
}

#[test]
fn test_connection_state_from_rtc() {
    assert_eq!(ConnectionState::from(PeerConnectionState::New), ConnectionState::Connecting);
    assert_eq!(ConnectionState::from(PeerConnectionState::Connected), ConnectionState::Connected);
    assert_eq!(ConnectionState::from(PeerConnectionState::Failed), ConnectionState::Failed);
}

#[test]
fn test_find_nal_units_annex_b() {
    let data = [0, 0, 0, 1, 0x67, 0x42, 0x00, 0, 0, 0, 1, 0x68, 0x00];
    let units = find_nal_units(&data);
    assert_eq!(units.len(), 2);
    assert_eq!(units[0][0], 0x67);
    assert_eq!(units[1][0], 0x68);
}

#[test]
fn test_find_nal_units_3byte_start_code() {
    let data = [0, 0, 1, 0x65, 0x88, 0x84, 0, 0, 1, 0x61, 0x00];
    let units = find_nal_units(&data);
    assert_eq!(units.len(), 2);
    assert_eq!(units[0][0], 0x65);
    assert_eq!(units[1][0], 0x61);
}

#[test]
fn test_find_nal_units_no_start_code() {
    let data = [0x65, 0x88, 0x84, 0x00];
    let units = find_nal_units(&data);
    assert_eq!(units.len(), 1);
    assert_eq!(units[0], &data[..]);
}

#[test]
fn test_packetize_h264_small_nal() {
    let nal_data = vec![0, 0, 0, 1, 0x67, 0x42, 0x00, 0x1f, 0xe9, 0x01];
    let packets = packetize_h264(&nal_data, 1000, 90000, 42).unwrap();

    assert!(!packets.is_empty());
    assert!(packets[0].len() > 12);
}

#[test]
fn test_packetize_h264_large_nal() {
    let mut nal_data = vec![0, 0, 0, 1, 0x65];
    nal_data.extend(vec![0x88; 3000]);

    let packets = packetize_h264(&nal_data, 1000, 90000, 42).unwrap();

    assert!(packets.len() > 1);

    assert_eq!(packets[0][12] & 0x1F, 28);
    assert!(packets[0][13] & 0x80 != 0);

    let last = packets.last().unwrap();
    assert!(last[13] & 0x40 != 0);
}

#[test]
fn packetize_h264_writes_the_rtp_header() {
    let packets = packetize_h264(&[0, 0, 0, 1, 0x67, 0x42], 0xFFFF, 0x01020304, 0x0A0B0C0D).unwrap();
    assert_eq!(packets.len(), 1);
    assert_eq!(
        packets[0],
        vec![0x80, 0x80 | 96, 0xFF, 0xFF, 1, 2, 3, 4, 0x0A, 0x0B, 0x0C, 0x0D, 0x67, 0x42]
    );
}

#[test]
fn packetize_h264_marks_only_the_last_unit_and_counts_sequence_numbers() {
    let data = [0, 0, 0, 1, 0x67, 0x42, 0, 0, 0, 1, 0x68, 0x01];
    let packets = packetize_h264(&data, 0xFFFF, 0, 0).unwrap();
    assert_eq!(packets.len(), 2);
    assert_eq!(packets[0][1], 96);
    assert_eq!(packets[1][1], 0x80 | 96);
    assert_eq!(&packets[0][2..4], &[0xFF, 0xFF]);
    assert_eq!(&packets[1][2..4], &[0x00, 0x00]);
}

#[test]
fn test_video_codec_type_default() {
    let codec: VideoCodecType = Default::default();
    assert_eq!(codec, VideoCodecType::H264);
}

#[test]
fn test_whep_resource_fields() {
    let resource = WhepResource {
        resource_id: "test-id".to_string(),
        connection_id: "conn-123".to_string(),
        camera_id: "camera-456".to_string(),
        etag: "\"abc123\"".to_string(),
    };

    assert_eq!(resource.resource_id, "test-id");
    assert_eq!(resource.camera_id, "camera-456");
}

#[test]
fn offers_get_a_codec_the_viewer_decodes_within_the_peer_limit() {
    use_offer_codec_cases();
}

fn use_offer_codec_cases() {
    let both = nanokvm::media::ClientCapabilities { supports_h264: true, supports_h265: true, max_bitrate_kbps: None };
    let h264_only = nanokvm::media::ClientCapabilities { supports_h264: true, supports_h265: false, max_bitrate_kbps: None };
    let none = nanokvm::media::ClientCapabilities { supports_h264: false, supports_h265: false, max_bitrate_kbps: None };
    let pick = nanokvm::webrtc::select_offer_codec;
    assert!(matches!(pick("cam", 0, 10, nanokvm::webrtc::VideoCodecType::H265, both), Ok(nanokvm::webrtc::VideoCodecType::H265)));
    assert!(matches!(pick("cam", 0, 10, nanokvm::webrtc::VideoCodecType::H265, h264_only), Ok(nanokvm::webrtc::VideoCodecType::H264)));
    match pick("cam", 0, 10, nanokvm::webrtc::VideoCodecType::H264, none) {
        Err(nanokvm::media::Error::Transport(m)) => {
            assert_eq!(m, "Client does not support H264; cannot deliver stream without transcoding")
        }
        other => panic!("unexpected {:?}", other),
    }
    match pick("cam1", 10, 10, nanokvm::webrtc::VideoCodecType::H264, both) {
        Err(nanokvm::media::Error::Transport(m)) => assert_eq!(m, "Maximum peers (10) reached for camera cam1"),
        other => panic!("unexpected {:?}", other),
    }
}
