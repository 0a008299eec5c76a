use nanokvm::webauthn::{AuthenticatorData, ClientData};

#[test]
fn test_authenticator_data_parse() {
    let data = [
        0x01, 0x02, 0x03, 0x04, 0x05, 0x06, 0x07, 0x08, 0x09, 0x0a, 0x0b, 0x0c, 0x0d, 0x0e,
        0x0f, 0x10, 0x11, 0x12, 0x13, 0x14, 0x15, 0x16, 0x17, 0x18, 0x19, 0x1a, 0x1b, 0x1c,
        0x1d, 0x1e, 0x1f, 0x20, 0x01, 0x00, 0x00, 0x00, 0x01,
    ];

    let auth_data = AuthenticatorData::parse(&data).unwrap();
    assert_eq!(auth_data.flags, 0x01);
    assert_eq!(auth_data.counter, 1);
}

#[test]
fn test_client_data_parse() {
    let json = r#"{"type":"webauthn.get","challenge":"dGVzdA","origin":"https://example.com","crossOrigin":false}"#;
    let client_data = ClientData::parse(json).unwrap();
    assert_eq!(client_data.type_, "webauthn.get");
    assert_eq!(client_data.origin, "https://example.com");
}

#[test]
fn authenticator_data_too_short_is_refused() {
    let data = [0u8; 36];
    assert!(AuthenticatorData::parse(&data).is_none());
}

#[test]
fn authenticator_data_reads_extensions_and_attested_flag() {
    let mut data = vec![0u8; 32];
    data.push(0xC0);
    data.extend_from_slice(&[0, 0, 1, 0]);
    data.push(2);
    data.extend_from_slice(&[0xAA, 0xBB]);
    let a = AuthenticatorData::parse(&data).unwrap();
    assert!(a.attested_credential_included);
    assert_eq!(a.counter, 256);
    assert_eq!(a.extensions, vec![0xAA, 0xBB]);
}

#[test]
fn client_data_missing_origin_is_refused() {
    assert!(ClientData::parse(r#"{"type":"webauthn.get","challenge":"x"}"#).is_none());
}

#[test]
fn client_data_hash_is_sha256_of_canonical_json() {
    let cd = ClientData::parse(r#"{"type":"t","challenge":"c","origin":"o","crossOrigin":true}"#).unwrap();
    assert!(cd.cross_origin);
    let h = cd.hash();
    assert_eq!(h.len(), 32);
    let other = ClientData::parse(r#"{"type":"t","challenge":"c","origin":"o"}"#).unwrap();
    assert_ne!(other.hash(), h);
}
