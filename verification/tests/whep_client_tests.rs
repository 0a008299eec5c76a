use nanokvm::client::{
    extract_sprop_parameter_sets, nal_unit_type, with_start_code, H264Depacketizer, WhepClient,
};

#[test]
fn test_whep_client_creation_without_auth() {
    let client = WhepClient::new(None);
    assert_eq!(client.get_resource_id(), None);
    assert_eq!(client.get_etag(), None);
    assert_eq!(client.get_location(), None);
}

#[test]
fn test_whep_client_creation_with_auth() {
    let token = "test_token_xyz".to_string();
    let client = WhepClient::new(Some(token.clone()));
    assert_eq!(client.get_resource_id(), None);
    assert_eq!(client.get_etag(), None);
}

#[test]
fn test_store_resources() {
    let mut client = WhepClient::new(None);
    let resource_id = "https://edge.local/whep/resource/abc123".to_string();
    let location = "https://edge.local/whep/resource/abc123".to_string();
    let etag = "v1-abc123".to_string();

    client.store_resources(resource_id.clone(), location.clone(), etag.clone());

    assert_eq!(client.get_resource_id(), Some(resource_id.as_str()));
    assert_eq!(client.get_etag(), Some(etag.as_str()));
    assert_eq!(client.get_location(), Some(location.as_str()));
}

#[test]
fn test_get_methods_return_options() {
    let mut client = WhepClient::new(None);

    assert!(client.get_resource_id().is_none());
    assert!(client.get_etag().is_none());
    assert!(client.get_location().is_none());

    client.store_resources(
        "https://edge/resource/1".to_string(),
        "https://edge/resource/1".to_string(),
        "etag123".to_string(),
    );

    assert!(client.get_resource_id().is_some());
    assert!(client.get_etag().is_some());
    assert!(client.get_location().is_some());
}

#[test]
fn test_patch_requires_resource_id() {
    let client = WhepClient::new(None);
    let result = client.patch_request("high", Some(5000));
    assert!(result.is_err());
    assert!(result.unwrap_err().message().contains("No WHEP resource ID"));
}

#[test]
fn test_patch_requires_etag() {
    let mut client = WhepClient::new(None);
    client.resource_id = Some("https://edge/resource/1".to_string());
    let result = client.patch_request("high", Some(5000));
    assert!(result.is_err());
    assert!(result.unwrap_err().message().contains("No ETag available"));
}

#[test]
fn test_delete_requires_resource_id() {
    let client = WhepClient::new(None);
    let result = client.delete_request();
    assert!(result.is_err());
    assert!(result.unwrap_err().message().contains("No WHEP resource ID"));
}

#[test]
fn test_delete_requires_etag() {
    let mut client = WhepClient::new(None);
    client.resource_id = Some("https://edge/resource/1".to_string());
    let result = client.delete_request();
    assert!(result.is_err());
    assert!(result.unwrap_err().message().contains("No ETag available"));
}

#[test]
fn patch_request_carries_condition_and_token() {
    let mut client = WhepClient::new(Some("tok".to_string()));
    client.store_resources("https://e/r/9".to_string(), "https://e/r/9".to_string(), "W/1".to_string());
    let (req, body) = client.patch_request("low", None).unwrap();
    assert_eq!(req.url, "https://e/r/9");
    assert_eq!(req.if_match, "W/1");
    assert_eq!(req.bearer.as_deref(), Some("tok"));
    assert_eq!(body.quality_tier, "low");
    assert_eq!(body.bitrate_kbps, None);
    client.clear_resources();
    assert!(client.delete_request().is_err());
}

#[test]
fn test_nal_unit_type_detection() {
    let nal_with_4byte_code = vec![0u8, 0u8, 0u8, 1u8, 0x65, 0x88, 0x84, 0x00];
    assert_eq!(nal_unit_type(&nal_with_4byte_code), Some(0x05));

    let nal_with_3byte_code = vec![0u8, 0u8, 1u8, 0x67, 0x42, 0x00, 0x00];
    assert_eq!(nal_unit_type(&nal_with_3byte_code), Some(0x07));

    let nal_without_code = vec![0x68, 0xEE, 0x3C, 0xB0];
    assert_eq!(nal_unit_type(&nal_without_code), Some(0x08));

    let empty_nal: Vec<u8> = vec![];
    assert_eq!(nal_unit_type(&empty_nal), None);
}

#[test]
fn test_with_start_code_idempotent() {
    let nal_with_code = vec![0u8, 0u8, 0u8, 1u8, 0x65, 0x88, 0x84, 0x00];
    let result = with_start_code(&nal_with_code);

    assert_eq!(result.len(), nal_with_code.len());
    assert_eq!(result, nal_with_code);
}

#[test]
fn test_with_start_code_adds_prefix() {
    let nal_without_code = vec![0x65, 0x88, 0x84, 0x00];
    let result = with_start_code(&nal_without_code);

    assert_eq!(result.len(), nal_without_code.len() + 4);
    assert_eq!(&result[0..4], &[0u8, 0u8, 0u8, 1u8]);
    assert_eq!(&result[4..], &nal_without_code[..]);
}

#[test]
fn test_extract_sprop_parameter_sets_valid_sdp() {
    let sdp = "a=fmtp:96 packetization-mode=1;sprop-parameter-sets=Z0JAH5WgKA9gvB4BAQaAA,aM48gA==";
    let param_sets = extract_sprop_parameter_sets(sdp);
    assert_eq!(param_sets.len(), 2);
}

#[test]
fn test_extract_sprop_parameter_sets_missing() {
    let sdp = "v=0\no=- 1 2 IN IP4 127.0.0.1\ns=test\nt=0 0\n";
    let param_sets = extract_sprop_parameter_sets(sdp);
    assert_eq!(param_sets.len(), 0);
}

#[test]
fn sprop_parameter_sets_decode_to_sps_and_pps() {
    let sdp = "a=fmtp:96 packetization-mode=1;sprop-parameter-sets=Z0JAH5WgKA9gvB4BAQaAA,aM48gA==";
    let param_sets = extract_sprop_parameter_sets(sdp);
    assert_eq!(param_sets[0][0] & 0x1F, 7);
    assert_eq!(param_sets[1], vec![0x68, 0xCE, 0x3C, 0x80]);
}

#[test]
fn test_h264_depacketizer_creation() {
    let depacketizer = H264Depacketizer::new();
    assert_eq!(depacketizer.fu_buffer.len(), 0);
}

#[test]
fn depacketizer_reassembles_fu_a() {
    let mut d = H264Depacketizer::new();
    // FU indicator: NRI 0x60, type 28; FU header start, type 5.
    assert!(d.depacketize(&[0x7C, 0x85, 1, 2]).is_empty());
    assert!(d.depacketize(&[0x7C, 0x05, 3]).is_empty());
    let out = d.depacketize(&[0x7C, 0x45, 4]);
    assert_eq!(out, vec![vec![0, 0, 0, 1, 0x65, 1, 2, 3, 4]]);
}

#[test]
fn depacketizer_splits_stap_a() {
    let mut d = H264Depacketizer::new();
    let out = d.depacketize(&[24, 0, 2, 0x67, 0x42, 0, 1, 0x68]);
    assert_eq!(out, vec![vec![0, 0, 0, 1, 0x67, 0x42], vec![0, 0, 0, 1, 0x68]]);
}
