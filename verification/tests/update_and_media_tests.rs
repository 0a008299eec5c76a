use nanokvm::application::{
    offline_update_begin, offline_update_finished, offline_update_stored, offline_update_with_latest,
    OfflineStep, UpdateFlag,
};
use nanokvm::application::{
    expected_from_latest, fill_latest_url, offline_checksum, offline_upload_precheck, sha512_base64, sha512_field,
    trim_trailing_slashes, validate_offline_filename, verify_download, version_response, LatestInfo,
};
use nanokvm::api::VALIDATION;
use nanokvm::audio::{next_audio_pts, pcm_to_samples, AudioError};
use nanokvm::capture::{
    frame_delivered, is_quiet_capture_error, pts_step, should_capture_h264, should_capture_mjpeg, H264LoopState,
};
use nanokvm::config::{generate_random_secret, Config};
use nanokvm::download::{
    bytes_marker, download_file_name, download_started, is_iso_magic, start_marker, status_from_marker,
    upload_name_allowed,
};
use nanokvm::jiggler::{jiggle_reports, mode_from_config, MouseJiggler};
use nanokvm::kvm::KvmError;

fn latest(size: u64) -> LatestInfo {
    LatestInfo {
        version: "2.0.0".to_string(),
        name: "update.tar.gz".to_string(),
        sha512: "abc".to_string(),
        size,
        url: String::new(),
    }
}

#[test]
fn offline_file_names_are_checked() {
    assert_eq!(validate_offline_filename("update.tar.gz"), Ok("update.tar.gz".to_string()));
    assert_eq!(
        validate_offline_filename("../update.tar.gz"),
        Err("invalid filename: path traversal detected".to_string())
    );
    assert_eq!(validate_offline_filename("dir/update.tar.gz"), Err("path detected in filename".to_string()));
    assert_eq!(
        validate_offline_filename("up date.tar.gz"),
        Err("invalid filename: contains invalid characters".to_string())
    );
    assert_eq!(validate_offline_filename(""), Err("invalid filename".to_string()));
}

#[test]
fn offline_upload_precheck_needs_a_file() {
    assert_eq!(offline_upload_precheck(&[], Some("a.tgz")), Err((VALIDATION, "no file uploaded".to_string())));
    assert_eq!(offline_upload_precheck(&[1], None), Ok("offline_update.tar.gz".to_string()));
    assert_eq!(offline_upload_precheck(&[1], Some("x/y")), Err((VALIDATION, "path detected in filename".to_string())));
}

#[test]
fn offline_digest_comes_from_the_release_of_the_same_size() {
    assert_eq!(expected_from_latest(Some(latest(10)), 10), Ok("abc".to_string()));
    assert_eq!(
        expected_from_latest(Some(latest(10)), 11),
        Err((VALIDATION, "sha512 required (upload size does not match latest.json)".to_string()))
    );
    assert_eq!(
        expected_from_latest(None, 11),
        Err((VALIDATION, "sha512 field required for offline update".to_string()))
    );
    assert_eq!(sha512_field("  xyz \n"), Some("xyz".to_string()));
    assert_eq!(sha512_field("   "), None);
}

#[test]
fn sha512_of_abc_is_the_standard_vector() {
    let h = sha512_base64(b"abc");
    assert_eq!(h, "3a81oZNherrMQXNJriBBMRLm+k6JqX6iCp7u5ktV05ohkpkqJ0/BqDa6PCOj/uu9RU1EI2Q86A4qmslPpUyknw==");
    assert_eq!(offline_checksum(b"abc", &h), Ok(()));
    assert_eq!(offline_checksum(b"abd", &h), Err((VALIDATION, "checksum mismatch".to_string())));
    assert_eq!(verify_download(b"abc", &h), Ok(()));
    let msg = verify_download(b"abc", "zzz").unwrap_err();
    assert_eq!(msg, format!("Checksum mismatch: expected zzz, got {}", h));
}

#[test]
fn release_description_gets_a_url() {
    let l = fill_latest_url(latest(1), "https://host/dl");
    assert_eq!(l.url, "https://host/dl/update.tar.gz");
    let mut with = latest(1);
    with.url = "https://elsewhere/x".to_string();
    assert_eq!(fill_latest_url(with, "https://host/dl").url, "https://elsewhere/x");
    assert_eq!(trim_trailing_slashes("https://host/dl///"), "https://host/dl");
    let v = version_response("1.0.0".to_string(), None);
    assert_eq!((v.current.as_str(), v.latest.as_str()), ("1.0.0", "1.0.0"));
    let v = version_response("1.0.0".to_string(), Some(latest(1)));
    assert_eq!(v.latest, "2.0.0");
}

#[test]
fn default_config_is_http_with_auth() {
    let c = Config::default();
    assert_eq!(c.proto, "http");
    assert_eq!(c.authentication, "enable");
    assert_eq!((c.port.http, c.port.https), (80, 443));
    assert_eq!(c.jwt.refresh_token_duration, 2678400);
    assert_eq!(c.password_policy.lockout_threshold, 5);
    assert_eq!(c.stun, "stun.l.google.com:19302");
    assert!(c.turn.turn_addr.is_empty());
    let s = generate_random_secret();
    assert_eq!(s.len(), 44);
    assert!(s.ends_with('='));
    assert_ne!(generate_random_secret(), s);
}

#[test]
fn transfer_marker_gives_the_status() {
    let s = status_from_marker(Some("disk.iso;42%"));
    assert_eq!((s.status.as_str(), s.file.as_str(), s.percentage.as_str()), ("in_progress", "disk.iso", "42%"));
    let s = status_from_marker(Some("start"));
    assert_eq!((s.file.as_str(), s.percentage.as_str()), ("start", ""));
    let s = status_from_marker(None);
    assert_eq!((s.status.as_str(), s.file.as_str()), ("idle", ""));
    assert_eq!(start_marker("a.iso"), "a.iso;0%");
    assert_eq!(bytes_marker("a.iso", 1234), "a.iso;1234 bytes");
    assert_eq!(download_started("http://x/a.iso".to_string()).percentage, "0%");
}

#[test]
fn image_names_and_signature() {
    assert!(upload_name_allowed("Disk.ISO"));
    assert!(!upload_name_allowed("disk.img"));
    assert!(!upload_name_allowed("iso"));
    assert_eq!(download_file_name("http://host/path/ubuntu.iso"), Some("ubuntu.iso".to_string()));
    assert_eq!(download_file_name("http://host"), Some("".to_string()));
    assert_eq!(download_file_name("not a url"), None);
    assert_eq!(download_file_name("mailto:a@b"), Some("image.iso".to_string()));
    assert!(is_iso_magic(b"CD001"));
    assert!(!is_iso_magic(b"CD002"));
    assert!(!is_iso_magic(b"CD00"));
}

#[test]
fn capture_runs_only_for_viewers() {
    assert!(should_capture_mjpeg(1, "mjpeg"));
    assert!(!should_capture_mjpeg(0, "mjpeg"));
    assert!(!should_capture_mjpeg(2, "h264"));
    assert!(should_capture_h264("h264", 0, 1));
    assert!(should_capture_h264("h264", 1, 0));
    assert!(!should_capture_h264("h264", 0, 0));
    assert!(!should_capture_h264("mjpeg", 3, 3));
    assert!(is_quiet_capture_error(&KvmError::NotExist));
    assert!(!is_quiet_capture_error(&KvmError::VencError));
}

#[test]
fn frame_delivery_and_rtp_clock() {
    assert!(frame_delivered(0, 0, None));
    assert!(frame_delivered(2, 2, Some(true)));
    assert!(!frame_delivered(2, 1, None));
    assert!(!frame_delivered(0, 0, Some(false)));
    assert_eq!(pts_step(30), 3000);
    assert_eq!(pts_step(0), 90000);
    assert_eq!(pts_step(60), 1500);
    let mut st = H264LoopState::new();
    st.pts = u64::MAX - 100;
    st.after_frame(30);
    assert_eq!(st.pts, 2899);
    assert_eq!(st.frame_counter, 1);
    assert!(!st.reports_now(30));
}

#[test]
fn jiggler_waits_for_a_quiet_interval() {
    let mut j = MouseJiggler::new_at(1000);
    assert!(!j.jiggle_due_at(15999));
    assert!(j.jiggle_due_at(16000));
    j.update_activity_at(20000);
    assert!(!j.jiggle_due_at(16000));
    assert_eq!(mode_from_config(Some(" absolute\n")), "absolute");
    assert_eq!(mode_from_config(None), "relative");
    assert_eq!(jiggle_reports("absolute").0, vec![0x00, 0x00, 0x3f, 0x00, 0x3f, 0x00]);
    assert_eq!(jiggle_reports("relative").1, vec![0x00, 0xf6, 0xf6, 0x00]);
}

#[test]
fn audio_samples_and_clock() {
    assert_eq!(pcm_to_samples(&[0x01, 0x00, 0xFF, 0xFF, 0x00, 0x80, 7]), vec![1, -1, -32768]);
    assert_eq!(next_audio_pts(u32::MAX - 959), 0);
    assert_eq!(next_audio_pts(0), 960);
    assert_eq!(AudioError::OpenFailed(-19).message(), "Failed to open PCM device: -19");
    assert_eq!(AudioError::InvalidConfig.message(), "Invalid configuration");
}

#[test]
fn offline_updates_run_one_at_a_time_and_check_in_order() {
    let data = b"package bytes".to_vec();
    let digest = sha512_base64(&data);
    let mut flag = UpdateFlag { updating: false };
    match offline_update_begin(&mut flag, &data, Some("update.tar.gz"), Some(&format!("  {} ", digest))) {
        OfflineStep::Store { name } => assert_eq!(name, "update.tar.gz"),
        other => panic!("unexpected {:?}", other),
    }
    assert!(flag.updating);
    match offline_update_begin(&mut flag, &data, None, None) {
        OfflineStep::Refused { code, message } => {
            assert_eq!(code, -1);
            assert_eq!(message, "update already in progress");
        }
        other => panic!("unexpected {:?}", other),
    }
    assert!(flag.updating);
    assert_eq!(offline_update_stored(&mut flag, Ok(())), Ok(()));
    offline_update_finished(&mut flag);
    assert!(!flag.updating);

    match offline_update_begin(&mut flag, &[], None, Some(&digest)) {
        OfflineStep::Refused { message, .. } => assert_eq!(message, "no file uploaded"),
        other => panic!("unexpected {:?}", other),
    }
    assert!(!flag.updating);
    match offline_update_begin(&mut flag, &data, None, Some("wrong")) {
        OfflineStep::Refused { message, .. } => assert_eq!(message, "checksum mismatch"),
        other => panic!("unexpected {:?}", other),
    }
    assert!(!flag.updating);
    let name = match offline_update_begin(&mut flag, &data, None, Some("   ")) {
        OfflineStep::FetchLatest { name } => name,
        other => panic!("unexpected {:?}", other),
    };
    assert_eq!(name, "offline_update.tar.gz");
    assert!(flag.updating);
    let latest = LatestInfo {
        version: "1.0".to_string(),
        name: "x".to_string(),
        sha512: digest.clone(),
        size: data.len() as u64 + 1,
        url: String::new(),
    };
    match offline_update_with_latest(&mut flag, &data, name, Some(latest)) {
        OfflineStep::Refused { message, .. } => {
            assert_eq!(message, "sha512 required (upload size does not match latest.json)")
        }
        other => panic!("unexpected {:?}", other),
    }
    assert!(!flag.updating);
}
