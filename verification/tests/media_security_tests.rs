use nanokvm::bytes_be::read_be;
use nanokvm::cbor::{read_bytes, read_int};
use nanokvm::cose::CoseKey;
use nanokvm::edid::{decode_edid_request, validate_edid, SetEdidReq};
use nanokvm::edid_i2c::{chip_version_from_text, edid_read_program, ChipVersion, I2cOp, I2cPager};
use nanokvm::kvm::{EncoderMode, HwCall, InitState, InitStep, Kvm, KvmError, MAX_INIT_FAILURES};
use nanokvm::media::ClientCapabilities;
use nanokvm::secret::{choose_secret_key, decrypt_password_with_key, derive_key_iv, generate_secret_key, DecryptError};
use nanokvm::tailscale::{
    auto_update_command, extract_funnel_url, extract_login_url, output_says_online, ui_state_from_backend_state,
    update_command_missing, version_from_output,
};
use nanokvm::transport::{h264_fmtp_line, h264_profile_level_id, packetize_h264_optimized, strip_annex_b};
use nanokvm::url_safety::{check_host_address, is_blocked_ip, validate_remote_http_url, IpAddress};

fn hex(s: &str) -> Vec<u8> {
    (0..s.len()).step_by(2).map(|i| u8::from_str_radix(&s[i..i + 2], 16).unwrap()).collect()
}

#[test]
fn cbor_integers_and_byte_strings() {
    let data = [0x18, 0xFF, 0x19, 0x01, 0x00, 0x43, 1, 2, 3, 0x58, 3, 9, 8, 7];
    let mut off = 0usize;
    assert_eq!(read_int(&data, &mut off), Some(255));
    assert_eq!(off, 2);
    assert_eq!(read_int(&data, &mut off), Some(256));
    assert_eq!(read_bytes(&data, &mut off), Some(vec![1, 2, 3]));
    assert_eq!(read_bytes(&data, &mut off), Some(vec![9, 8, 7]));
    assert_eq!(off, data.len());
    assert_eq!(read_int(&data, &mut off), None);
    let mut o = 0usize;
    assert_eq!(read_int(&[0x20], &mut o), None);
    assert_eq!(o, 1);
    let mut o = 0usize;
    assert_eq!(read_int(&[0x1b, 0xff, 0xff, 0xff, 0xff, 0xff, 0xff, 0xff, 0xff], &mut o), None);
    assert_eq!(o, 9);
    let mut o = 0usize;
    assert_eq!(read_int(&[0x1b, 0x7f, 0xff, 0xff, 0xff, 0xff, 0xff, 0xff, 0xff], &mut o), Some(i64::MAX));
    let mut o = 0usize;
    assert_eq!(read_bytes(&[0x40], &mut o), Some(vec![]));
    assert_eq!(o, 1);
    let mut o = 0usize;
    assert_eq!(read_bytes(&[0x43, 0x01, 0x02, 0x03], &mut o), Some(vec![1, 2, 3]));
    assert_eq!(o, 4);
    let mut o = 0usize;
    assert_eq!(read_bytes(&[0x03, 1, 2, 3], &mut o), None);
    assert_eq!(read_be(&[1, 2, 3, 4], 1, 3), 0x020304);
}

#[test]
fn cose_key_from_attestation_map() {
    let data = [0xa1, 0x01, 0x41, 0x02, 0x03, 0x44, 0xFF, 0xFF, 0xFF, 0xF9];
    let key = CoseKey::from_cbor(&data).unwrap();
    assert_eq!(key.kty, 2);
    assert_eq!(key.alg, -7);
    assert!(key.n.is_empty());
    assert_eq!(key.crv, None);
    assert!(CoseKey::from_cbor(&[0xa2]).is_none());
}

#[test]
fn ecdsa_signatures_are_checked_with_ring() {
    let point = hex("04fb50388f29498d0a93ad25ec4c34037b9d3cc3cca4787eb6fedabe2b3003eac89f7765ca9d6288e6ff734f5cd08f3a5921cf54b21bb398b50ac0d2577fa07472");
    let sig = hex("304602210094ffaf3482c3d46bddde90aa7cb619611fb40f2c79041d60bd4b6ae48168fd84022100ca49a27ef8e0beb584d0813f52c004d289a1393ceed34fa303c93802f7a13958");
    let key = CoseKey { kty: 2, alg: -7, n: point.clone(), e: vec![], crv: Some(1) };
    assert!(key.verify_signature(b"nanokvm passkey test", &sig));
    assert!(!key.verify_signature(b"nanokvm passkey tesT", &sig));
    let short = CoseKey { kty: 2, alg: -7, n: point[..64].to_vec(), e: vec![], crv: Some(1) };
    assert!(!short.verify_signature(b"nanokvm passkey test", &sig));
    let other = CoseKey { kty: 3, alg: -7, n: point, e: vec![], crv: Some(1) };
    assert!(!other.verify_signature(b"nanokvm passkey test", &sig));
}

fn good_edid() -> Vec<u8> {
    let mut d = vec![0u8; 256];
    d[..8].copy_from_slice(&[0x00, 0xFF, 0xFF, 0xFF, 0xFF, 0xFF, 0xFF, 0x00]);
    d[8] = 0x12;
    let s1: u32 = d[..127].iter().map(|b| *b as u32).sum();
    d[127] = ((256 - s1 % 256) % 256) as u8;
    d[200] = 7;
    let s2: u32 = d[128..255].iter().map(|b| *b as u32).sum();
    d[255] = ((256 - s2 % 256) % 256) as u8;
    d
}

#[test]
fn edid_structure_is_checked() {
    let d = good_edid();
    assert!(validate_edid(&d).is_ok());
    assert_eq!(validate_edid(&d[..128]), Err("EDID must be exactly 256 bytes".to_string()));
    let mut bad = d.clone();
    bad[10] ^= 1;
    assert_eq!(validate_edid(&bad), Err("Checksum for first 128 bytes is incorrect".to_string()));
    let mut bad2 = d.clone();
    bad2[130] ^= 1;
    assert_eq!(validate_edid(&bad2), Err("Checksum for second 128 bytes is incorrect".to_string()));
    let mut bad3 = d.clone();
    bad3[0] = 1;
    assert!(validate_edid(&bad3).is_err());
    let b64 = base64_of(&d);
    assert_eq!(decode_edid_request(&SetEdidReq { data: b64 }).unwrap(), d);
    assert_eq!(
        decode_edid_request(&SetEdidReq { data: "***".to_string() }),
        Err((-3, "invalid base64 EDID data".to_string()))
    );
}

fn base64_of(d: &[u8]) -> String {
    const A: &[u8] = b"ABCDEFGHIJKLMNOPQRSTUVWXYZabcdefghijklmnopqrstuvwxyz0123456789+/";
    let mut out = String::new();
    for chunk in d.chunks(3) {
        let b = [chunk[0], *chunk.get(1).unwrap_or(&0), *chunk.get(2).unwrap_or(&0)];
        let n = ((b[0] as u32) << 16) | ((b[1] as u32) << 8) | b[2] as u32;
        for i in 0..4 {
            if i <= chunk.len() {
                out.push(A[((n >> (18 - 6 * i)) & 63) as usize] as char);
            } else {
                out.push('=');
            }
        }
    }
    out
}

#[test]
fn edid_is_read_in_chip_sized_blocks() {
    assert_eq!(chip_version_from_text("ux\n"), Ok(ChipVersion::Lt6911Uxc));
    assert_eq!(chip_version_from_text("c"), Ok(ChipVersion::Lt6911C));
    assert_eq!(chip_version_from_text("ue"), Err("UE chip version does not support EDID updates".to_string()));
    assert_eq!(
        chip_version_from_text("zz"),
        Err("Unknown chip version in /etc/kvm/hdmi_version: zz".to_string())
    );
    let ux = edid_read_program(ChipVersion::Lt6911Uxc, 256);
    assert_eq!(ux.len(), 4 + 8 * 10);
    assert_eq!(ux[2], I2cOp::WriteByte { offset: 0x80, reg: 0x5A, data: 0x84 });
    assert_eq!(ux[4 + 10 + 5], I2cOp::WriteByte { offset: 0x80, reg: 0x5D, data: 32 });
    assert_eq!(ux[4 + 7 * 10 + 9], I2cOp::Read { offset: 0x80, reg: 0x5F, dest: 224, len: 32 });
    let c = edid_read_program(ChipVersion::Lt6911C, 256);
    assert_eq!(c.len(), 4 + 16 * 10);
    assert_eq!(c[4 + 15 * 10 + 5], I2cOp::WriteByte { offset: 0x80, reg: 0x5D, data: 240 });
    let mut pager = I2cPager::new();
    assert_eq!(pager.write_frames(0x80, 0xEE, &[1]).unwrap(), vec![vec![0xFF, 0x80], vec![0xEE, 1]]);
    assert_eq!(pager.write_frames(0x80, 0x5A, &[2]).unwrap(), vec![vec![0x5A, 2]]);
    assert_eq!(pager.read_frames(0x80, 0x5F, 32).unwrap(), vec![vec![0x5F]]);
    assert!(pager.read_frames(0x81, 0x5F, 0).is_err());
    assert_eq!(pager.read_frames(0x81, 0x5F, 1).unwrap(), vec![vec![0xFF, 0x81], vec![0x5F]]);
    assert_eq!(pager.write_frames(0x81, 0x00, &[]), Err("I2C write length must be > 0".to_string()));
}

#[test]
fn capture_initialisation_backs_off() {
    let mut k = Kvm::new();
    assert_eq!(k.begin_init(false), Err(KvmError::LibraryNotLoaded));
    assert_eq!(k.state, InitState::Failed);
    assert_eq!(k.begin_init(true), Ok(InitStep::StartHardwareInit));
    assert_eq!(k.begin_init(true), Ok(InitStep::WaitForOther));
    k.finish_init();
    assert!(k.is_ready());
    assert_eq!(k.begin_init(true), Ok(InitStep::AlreadyReady));
    assert!(!k.switch_encoder_mode(EncoderMode::Mjpeg));
    assert!(k.switch_encoder_mode(EncoderMode::H264));
    assert_eq!(k.deinit(), vec![HwCall::FreeAllKvmvData, HwCall::KvmvDeinit]);
    assert_eq!(k.get_encoder_mode(), EncoderMode::Inactive);
    assert!(k.deinit().is_empty());
    assert_eq!(
        Kvm::init_calls(InitStep::StartHardwareInit),
        vec![HwCall::KvmvInit(0), HwCall::SetVencAutoRecyc(1), HwCall::SetFrameDetect(60)]
    );
    assert!(Kvm::init_calls(InitStep::AlreadyReady).is_empty());
    let mut spent = Kvm { state: InitState::Failed, init_failures: MAX_INIT_FAILURES, encoder_mode: EncoderMode::Inactive };
    assert_eq!(spent.begin_init(true), Err(KvmError::NotInitialized));
    spent.reset_init_state();
    assert_eq!(spent.begin_init(true), Ok(InitStep::StartHardwareInit));
    assert_eq!(KvmError::from_code(-5), KvmError::Retrieving);
    assert_eq!(KvmError::from_code(-42), KvmError::Unknown(-42));
}

#[test]
fn sdp_capabilities() {
    let c = ClientCapabilities::from_sdp("m=video 9\r\na=rtpmap:96 H264/90000\r\nb=AS:2500\r\n");
    assert!(c.supports_h264 && !c.supports_h265);
    assert_eq!(c.max_bitrate_kbps, Some(2500));
    let c = ClientCapabilities::from_sdp("a=rtpmap:98 HEVC/90000\nb=AS:100\n");
    assert!(c.supports_h265);
    assert_eq!(c.max_bitrate_kbps, None);
}

#[test]
fn transport_helpers() {
    assert_eq!(strip_annex_b(&[0, 0, 0, 1, 0x67]), &[0x67]);
    assert_eq!(strip_annex_b(&[0, 0, 1, 0x68]), &[0x68]);
    assert_eq!(strip_annex_b(&[5, 6]), &[5, 6]);
    assert_eq!(h264_profile_level_id(&[0x67, 0x42, 0xC0, 0x1F]), Some("42c01f".to_string()));
    assert_eq!(h264_profile_level_id(&[0x67, 0x42]), None);
    assert_eq!(
        h264_fmtp_line(&[0, 0, 0, 1, 0x67, 0x42, 0xC0, 0x1F], &[0x68, 0xCE]),
        "packetization-mode=1;profile-level-id=42c01f;sprop-parameter-sets=Z0LAHw==,aM4="
    );
    let mut big = vec![0, 0, 0, 1, 0x65];
    big.extend(vec![0xAB; 2500]);
    big.extend_from_slice(&[0, 0, 1, 0x41, 0x01]);
    let p = packetize_h264_optimized(&big);
    assert_eq!(p.len(), 4);
    assert_eq!(&p[0].payload[..2], &[0x7C, 0x85]);
    assert_eq!(p[0].payload.len(), 1200);
    assert_eq!(p[2].payload[1], 0x45);
    assert!(!p[2].marker);
    assert_eq!(p[3].payload, vec![0x41, 0x01]);
    assert!(p[3].marker);
}

#[test]
fn passwords_from_the_web_ui_are_decrypted() {
    let key = "0123456789abcdef0123456789abcdef";
    assert_eq!(
        decrypt_password_with_key("U2FsdGVkX18BAgMEBQYHCKx09092pxUjbxDjAodR0So=", key),
        Ok("hunter2".to_string())
    );
    assert_eq!(
        decrypt_password_with_key("U2FsdGVkX18REhMUFRYXGBaUqz2avqtgKs0eWPlDlwo%3D", "k"),
        Ok("p@ss word".to_string())
    );
    assert_eq!(decrypt_password_with_key("", key), Ok(String::new()));
    assert_eq!(decrypt_password_with_key("!!!", key), Err(DecryptError::Base64));
    assert_eq!(decrypt_password_with_key("aGVsbG8gd29ybGQgaGVsbG8=", key), Err(DecryptError::InvalidFormat));
    assert_eq!(
        decrypt_password_with_key("U2FsdGVkX18BAgMEBQYHCKx09092pxUjbxDjAodR0So=", "wrong"),
        Err(DecryptError::Decrypt)
    );
}

#[test]
fn evp_key_derivation_matches_openssl() {
    let (key, iv) = derive_key_iv(b"k", &[0x11, 0x12, 0x13, 0x14, 0x15, 0x16, 0x17, 0x18], 32, 16);
    assert_eq!(key.len(), 32);
    assert_eq!(iv.len(), 16);
    let k = generate_secret_key();
    assert_eq!(k.len(), 32);
    assert!(k.chars().all(|c| c.is_ascii_alphanumeric()));
    assert_eq!(choose_secret_key(Some("env".to_string()), Some("file".to_string())), Some("env".to_string()));
    assert_eq!(choose_secret_key(Some(String::new()), Some(" file \n".to_string())), Some("file".to_string()));
    assert_eq!(choose_secret_key(None, Some("  ".to_string())), None);
}

#[test]
fn remote_urls_must_be_public_http() {
    let u = validate_remote_http_url("https://Example.COM/a.iso").unwrap();
    assert_eq!(u.host, "example.com");
    assert_eq!(u.href, "https://example.com/a.iso");
    assert_eq!(validate_remote_http_url("ftp://x/y").unwrap_err(), "only http and https URLs are allowed");
    assert_eq!(validate_remote_http_url("http://localhost:8080/").unwrap_err(), "localhost is not allowed");
    assert_eq!(validate_remote_http_url("http://a.localhost/").unwrap_err(), "localhost is not allowed");
    assert_eq!(validate_remote_http_url("nonsense").unwrap_err(), "invalid url");
    assert!(is_blocked_ip(IpAddress::V4([10, 1, 2, 3])));
    assert!(is_blocked_ip(IpAddress::V4([172, 31, 0, 1])));
    assert!(!is_blocked_ip(IpAddress::V4([172, 32, 0, 1])));
    assert!(is_blocked_ip(IpAddress::V4([100, 64, 0, 1])));
    assert!(!is_blocked_ip(IpAddress::V4([8, 8, 8, 8])));
    assert!(is_blocked_ip(IpAddress::V6([0, 0, 0, 0, 0, 0, 0, 1])));
    assert!(is_blocked_ip(IpAddress::V6([0xfd00, 0, 0, 0, 0, 0, 0, 1])));
    assert!(is_blocked_ip(IpAddress::V6([0xfe80, 0, 0, 0, 0, 0, 0, 1])));
    assert!(!is_blocked_ip(IpAddress::V6([0x2001, 0xdb8, 0, 0, 0, 0, 0, 1])));
    assert!(check_host_address(Some(IpAddress::V4([127, 0, 0, 1]))).is_err());
    assert!(check_host_address(None).is_ok());
    let refused = "private or reserved addresses are not allowed";
    assert_eq!(validate_remote_http_url("http://127.0.0.1/").unwrap_err(), refused);
    assert_eq!(validate_remote_http_url("http://[::1]/").unwrap_err(), refused);
    assert_eq!(validate_remote_http_url("http://[::ffff:127.0.0.1]/").unwrap_err(), refused);
    assert_eq!(validate_remote_http_url("https://192.168.1.10:8443/x").unwrap_err(), refused);
    assert!(validate_remote_http_url("http://8.8.8.8/a.iso").is_ok());
    assert!(is_blocked_ip(IpAddress::V6([0, 0, 0, 0, 0, 0xffff, 0x0a00, 0x0001])));
    assert!(!is_blocked_ip(IpAddress::V6([0, 0, 0, 0, 0, 0xffff, 0x0808, 0x0808])));
}

#[test]
fn tailscale_output_is_read() {
    assert_eq!(ui_state_from_backend_state("NeedsLogin"), "notLogin");
    assert_eq!(ui_state_from_backend_state("Starting"), "notRunning");
    assert_eq!(ui_state_from_backend_state("Running"), "running");
    assert_eq!(
        extract_login_url("To authenticate, visit:\n\n\thttps://login.tailscale.com/a/abc123\n", ""),
        Some("https://login.tailscale.com/a/abc123".to_string())
    );
    assert_eq!(extract_login_url("https://example.com/x", "none"), None);
    assert_eq!(
        extract_funnel_url("https://kvm.tail.ts.net (Funnel on)\n"),
        Some("https://kvm.tail.ts.net".to_string())
    );
    assert!(output_says_online("{\"Online\":true}"));
    assert!(update_command_missing("error: unknown command \"update\""));
    assert_eq!(version_from_output("1.62.0\n  tailscale commit: abc\n"), "1.62.0");
    assert_eq!(auto_update_command(true), "tailscale set --auto-update=true");
}

#[test]
fn transport_units_end_at_the_next_start_code() {
    let data = [0u8, 0, 1, 0x65, 0x01, 0, 0, 1, 0x41];
    let units = nanokvm::transport::find_nal_units(&data);
    assert_eq!(units, vec![&[0x65u8, 0x01][..], &[0x41u8][..]]);
    let data4 = [0u8, 0, 0, 1, 0x67, 0x01, 0x02, 0, 0, 0, 1, 0x68];
    let units = nanokvm::transport::find_nal_units(&data4);
    assert_eq!(units, vec![&[0x67u8, 0x01, 0x02][..], &[0x68u8][..]]);
}

#[test]
fn tailscale_node_shows_its_first_ipv4_address() {
    let ips = vec!["fd7a:115c:a1e0::1".to_string(), "100.101.102.103".to_string(), "100.1.1.1".to_string()];
    assert_eq!(nanokvm::tailscale::first_ipv4(&ips), "100.101.102.103");
    assert_eq!(nanokvm::tailscale::first_ipv4(&vec!["fd7a::1".to_string()]), "");
}

#[test]
fn fragments_rejoin_and_reassemble_packet_by_packet() {
    let mut frame = vec![0u8, 0, 0, 1, 0x65];
    frame.extend((0..3000u32).map(|i| (i % 251) as u8 | 0x02));
    let packets = packetize_h264_optimized(&frame);
    assert!(packets.len() > 1);
    let mut joined = vec![];
    for (i, p) in packets.iter().enumerate() {
        assert!(p.payload.len() <= 1200);
        assert_eq!(p.payload[0], (0x65 & 0x60) | 28);
        assert_eq!(p.payload[1] & 0x80 != 0, i == 0);
        assert_eq!(p.payload[1] & 0x40 != 0, i == packets.len() - 1);
        assert_eq!(p.marker, i == packets.len() - 1);
        joined.extend_from_slice(&p.payload[2..]);
    }
    assert_eq!(joined, frame[5..].to_vec());
    let mut d = nanokvm::client::H264Depacketizer::new();
    for (i, p) in packets.iter().enumerate() {
        let out = d.unpack_fu_a(&p.payload);
        if i + 1 < packets.len() {
            assert!(out.is_empty());
        } else {
            assert_eq!(out, vec![frame.clone()]);
        }
    }
    assert!(d.fu_buffer.is_empty());
}
