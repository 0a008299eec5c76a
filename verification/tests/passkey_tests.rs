use nanokvm::passkey::{
    consume_code, enrollment_url, format_recovery_codes_for_display, funnel_url_from_status,
    generate_qr_code_simple, generate_recovery_code, generate_recovery_codes, login_rp_id, normalize_code,
    passkey_availability, rate_limit_message, recover_response, recovery_download_text, remaining_codes_count,
    setup_first_step, status_says_connected, status_shows_funnel, validate_and_consume_code, Capabilities,
    PasskeyState, PendingChallenge, RateLimitStore, RecoveryCode, RecoveryStorage, SetupAction,
};

fn storage(codes: &[(&str, bool)]) -> RecoveryStorage {
    RecoveryStorage {
        codes: codes.iter().map(|(c, u)| RecoveryCode { code: c.to_string(), used: *u }).collect(),
        created: 0,
    }
}

#[test]
fn recovery_codes_have_four_groups_of_four() {
    let code = generate_recovery_code();
    assert_eq!(code.len(), 19);
    let parts: Vec<&str> = code.split('-').collect();
    assert_eq!(parts.len(), 4);
    for p in parts {
        assert_eq!(p.len(), 4);
        assert!(p.chars().all(|c| "ABCDEFGHJKLMNPQRSTUVWXYZ23456789".contains(c)));
    }
    let all = generate_recovery_codes(4, 77);
    assert_eq!(all.codes.len(), 4);
    assert_eq!(all.created, 77);
    assert!(all.codes.iter().all(|c| !c.used));
}

#[test]
fn codes_are_normalised_before_matching() {
    assert_eq!(normalize_code("  abcd-efgh-jkmn-pqrs \n").iter().collect::<String>(), "ABCDEFGHJKMNPQRS");
}

#[test]
fn a_matching_code_is_used_once() {
    let mut st = storage(&[("AAAA-BBBB-CCCC-DDDD", false), ("EEEE-FFFF-GGGG-HHHH", false)]);
    let input = normalize_code("eeee-ffff-gggg-hhhh");
    let (found, remaining) = consume_code(&mut st.codes, &input);
    assert!(found);
    assert_eq!(remaining, 1);
    assert!(st.codes[1].used);
    assert!(!st.codes[0].used);
    let (again, remaining2) = consume_code(&mut st.codes, &input);
    assert!(!again);
    assert_eq!(remaining2, 1);
    assert_eq!(remaining_codes_count(&st), 1);
    assert_eq!(format_recovery_codes_for_display(&st), vec!["AAAA-BBBB-CCCC-DDDD".to_string()]);
}

#[test]
fn rate_limit_allows_five_attempts_per_window() {
    let mut rate = RateLimitStore::new();
    let mut loaded: Result<RecoveryStorage, String> = Ok(storage(&[("AAAA-BBBB-CCCC-DDDD", false)]));
    for _ in 0..5 {
        assert_eq!(validate_and_consume_code(&mut rate, &mut loaded, "nope", "10.0.0.1", 1000), Ok((false, 1)));
    }
    let refused = validate_and_consume_code(&mut rate, &mut loaded, "AAAABBBBCCCCDDDD", "10.0.0.1", 1100);
    assert_eq!(refused, Err("Too many attempts. Please wait 800 seconds.".to_string()));
    // Another address is not affected, and a new window starts after 900 s.
    assert_eq!(validate_and_consume_code(&mut rate, &mut loaded, "x", "10.0.0.2", 1100), Ok((false, 1)));
    let ok = validate_and_consume_code(&mut rate, &mut loaded, "aaaa-bbbb-cccc-dddd", "10.0.0.1", 1901);
    assert_eq!(ok, Ok((true, 0)));
    assert!(loaded.unwrap().codes[0].used);
}

#[test]
fn a_load_error_is_reported_after_the_rate_check() {
    let mut rate = RateLimitStore::new();
    let mut loaded: Result<RecoveryStorage, String> = Err("missing".to_string());
    assert_eq!(validate_and_consume_code(&mut rate, &mut loaded, "x", "ip", 5), Err("missing".to_string()));
}

#[test]
fn rate_limit_message_names_the_wait() {
    assert_eq!(rate_limit_message(42), "Too many attempts. Please wait 42 seconds.");
}

#[test]
fn availability_needs_funnel_then_passkey() {
    assert_eq!(passkey_availability(false, true), (false, Some("funnel_not_active".to_string())));
    assert_eq!(passkey_availability(true, false), (false, Some("no_passkey_configured".to_string())));
    assert_eq!(passkey_availability(true, true), (true, None));
}

#[test]
fn challenges_expire_after_five_minutes() {
    let state = PasskeyState::new();
    let c = PendingChallenge::new_login("id".to_string(), "ch".to_string(), "rp".to_string(), None, 1000);
    assert!(!c.is_expired_at(1299));
    assert!(c.is_expired_at(1300));
    let e = state.new_enrollment_challenge(
        "id".to_string(),
        "ch".to_string(),
        vec![1],
        "rp".to_string(),
        None,
        "tok".to_string(),
    );
    assert!(e.is_enrollment);
    assert_eq!(e.expires_at - e.created_at, 300);
    assert!(!e.is_expired());
    let id = PasskeyState::generate_challenge_id();
    assert_eq!(id.len(), 36);
    assert_eq!(id.chars().filter(|c| *c == '-').count(), 4);
}

#[test]
fn funnel_url_is_read_from_serve_status() {
    let status = "https://kvm.tail1234.ts.net (Funnel on)\n|-- / proxy http://127.0.0.1:8443\n";
    assert_eq!(funnel_url_from_status(status, true), Some("https://kvm.tail1234.ts.net".to_string()));
    assert_eq!(funnel_url_from_status("https://example.com x", true), None);
    assert_eq!(funnel_url_from_status("https://example.com x", false), Some("https://example.com".to_string()));
    assert_eq!(funnel_url_from_status("no funnel", false), None);
    assert!(status_shows_funnel("port forwarding on"));
    assert!(!status_shows_funnel("nothing"));
    assert!(status_says_connected("{\"Self\":{\"Online\":true}}"));
    assert!(status_says_connected("\"Online\": true"));
    assert!(!status_says_connected("{\"Online\":true}"));
}

#[test]
fn setup_needs_tailscale_and_a_funnel_url() {
    let mut caps = Capabilities {
        tailscale_installed: true,
        tailscale_connected: true,
        tailscale_funnel_active: true,
        funnel_url: Some("https://a.b.ts.net".to_string()),
        passkey_configured: false,
        passkey_reason: None,
    };
    assert!(matches!(setup_first_step(&caps), SetupAction::UseFunnel(u) if u == "https://a.b.ts.net"));
    caps.funnel_url = None;
    assert!(matches!(setup_first_step(&caps), SetupAction::Fail));
    caps.tailscale_funnel_active = false;
    assert!(matches!(setup_first_step(&caps), SetupAction::EnableFunnel));
    caps.tailscale_connected = false;
    assert!(matches!(setup_first_step(&caps), SetupAction::Fail));
    assert_eq!(enrollment_url("https://a.b.ts.net", "c1"), "https://a.b.ts.net/passkey/enroll/c1");
}

#[test]
fn login_rp_id_drops_scheme_and_first_label() {
    assert_eq!(login_rp_id(Some("https://kvm.tail1234.ts.net")), "tail1234.ts.net");
    assert_eq!(login_rp_id(None), "nanokvm");
    assert_eq!(login_rp_id(Some("https://localhost")), "");
}

#[test]
fn qr_code_is_an_svg_data_url() {
    let qr = generate_qr_code_simple("https://a.b.ts.net/passkey/enroll/x").unwrap();
    assert!(qr.starts_with("data:image/svg+xml;base64,"));
    assert!(qr.len() > 100);
}

#[test]
fn recovery_replies() {
    let r = recover_response(None);
    assert!(!r.success);
    assert_eq!(r.error.as_deref(), Some("Recovery code required"));
    let r = recover_response(Some(Ok((true, 3))));
    assert!(r.success);
    assert_eq!(r.remaining_codes, Some(3));
    assert_eq!(r.token.as_deref(), Some("recovered"));
    let r = recover_response(Some(Ok((false, 3))));
    assert_eq!(r.error.as_deref(), Some("Invalid recovery code"));
    let r = recover_response(Some(Err("x".to_string())));
    assert_eq!(r.error.as_deref(), Some("Recovery failed"));
}

#[test]
fn recovery_download_lists_codes() {
    assert_eq!(recovery_download_text(false, None), "No recovery codes found");
    assert_eq!(
        recovery_download_text(true, Some(vec!["A".to_string(), "B".to_string()])),
        "Recovery Codes\n\nA\nB\n\nSave these codes in a safe place.\nOne-time use only."
    );
    assert_eq!(
        recovery_download_text(true, None),
        "Recovery Codes\n\nNo recovery codes found\n\nSave these codes in a safe place.\nOne-time use only."
    );
}

#[test]
fn used_codes_do_not_count_as_remaining() {
    let mut st = storage(&[("AAAA-BBBB-CCCC-DDDD", true), ("EEEE-FFFF-GGGG-HHHH", false), ("JJJJ-KKKK-LLLL-MMMM", false)]);
    let (found, remaining) = consume_code(&mut st.codes, &normalize_code("nothing"));
    assert!(!found);
    assert_eq!(remaining, 2);
    let (found, remaining) = consume_code(&mut st.codes, &normalize_code("JJJJKKKKLLLLMMMM"));
    assert!(found);
    assert_eq!(remaining, 1);
}
