use nanokvm::hid::MouseScrollStore;
use nanokvm::auth::{
    allows_during_password_change, auth_verdict, client_ip, password_matches, request_token, AuthVerdict,
};
use nanokvm::hid::{
    get_char_map, keyboard_route, mouse_route, paste_reports, should_reopen, HidDevice, HidError, MouseScrollConfig,
    MAX_PASTE_BYTES,
};
use nanokvm::network::{
    NetworkError, NetworkManager, WolEntry, wol_display_list, wol_error_reply, wol_has_mac, wol_rename_error_reply,
};

#[test]
fn client_ip_prefers_trusted_forwarding_headers() {
    assert_eq!(client_ip(Some(" 203.0.113.5 , 10.0.0.1"), Some("1.1.1.1"), Some("10.0.0.2"), true), "203.0.113.5");
    assert_eq!(client_ip(Some(" , x"), Some(" 1.1.1.1 "), Some("10.0.0.2"), true), "1.1.1.1");
    assert_eq!(client_ip(Some("203.0.113.5"), None, Some("10.0.0.2"), false), "10.0.0.2");
    assert_eq!(client_ip(None, None, None, true), "unknown");
}

#[test]
fn sessions_that_must_change_password_are_confined() {
    assert!(allows_during_password_change("/api/auth/password"));
    assert!(!allows_during_password_change("/api/vm/info"));
    assert_eq!(auth_verdict(true, None, "/x"), AuthVerdict::Allow);
    assert_eq!(auth_verdict(false, None, "/x"), AuthVerdict::Unauthorized);
    assert_eq!(auth_verdict(false, Some(false), "/x"), AuthVerdict::Allow);
    assert_eq!(auth_verdict(false, Some(true), "/x"), AuthVerdict::PasswordChangeRequired);
    assert_eq!(auth_verdict(false, Some(true), "/api/auth/logout"), AuthVerdict::Allow);
}

#[test]
fn token_comes_from_cookie_then_bearer_header() {
    assert_eq!(request_token(Some("abc"), Some("Bearer zzz")), Some("abc".to_string()));
    assert_eq!(request_token(None, Some("Bearer zzz")), Some("zzz".to_string()));
    assert_eq!(request_token(None, Some("Basic zzz")), None);
    assert_eq!(request_token(None, None), None);
}

#[test]
fn malformed_password_hash_never_matches() {
    assert!(!password_matches("admin", "not-a-bcrypt-hash"));
}

#[test]
fn reports_are_routed_by_length() {
    assert!(matches!(keyboard_route(8), Ok(HidDevice::Keyboard)));
    assert!(matches!(keyboard_route(7), Err(HidError::InvalidLength { expected: 8, got: 7 })));
    assert!(matches!(mouse_route(4), Ok(HidDevice::MouseRelative)));
    assert!(matches!(mouse_route(6), Ok(HidDevice::MouseAbsolute)));
    assert!(matches!(mouse_route(5), Err(HidError::InvalidLength { expected: 4, got: 5 })));
    assert!(!should_reopen(&HidError::Timeout));
}

#[test]
fn layouts_map_characters_to_keys() {
    let us = get_char_map("en");
    assert_eq!(us.get('a'), Some((0, 4)));
    assert_eq!(us.get('A'), Some((2, 4)));
    assert_eq!(us.get('!'), Some((2, 30)));
    assert_eq!(us.get('\n'), Some((0, 40)));
    let de = get_char_map("de");
    assert_eq!(de.get('z'), Some((0, 28)));
    assert_eq!(de.get('y'), Some((0, 29)));
    assert_eq!(de.get('a'), Some((0, 4)));
    let fr = get_char_map("fr");
    assert_eq!(fr.get('a'), Some((0, 20)));
    assert_eq!(fr.get('é'), Some((0, 31)));
}

#[test]
fn paste_types_each_character_then_releases() {
    let r = paste_reports("aB", "en").unwrap();
    assert_eq!(
        r,
        vec![[0, 0, 4, 0, 0, 0, 0, 0], [0; 8], [2, 0, 5, 0, 0, 0, 0, 0], [0; 8]]
    );
    assert!(paste_reports(&"a".repeat(MAX_PASTE_BYTES + 1), "en").is_none());
    assert_eq!(paste_reports(&"a".repeat(MAX_PASTE_BYTES), "en").unwrap().len(), 2 * MAX_PASTE_BYTES);
}

#[test]
fn scroll_settings_are_validated() {
    assert!(MouseScrollConfig { direction: 1, interval: 0 }.validate().is_ok());
    assert_eq!(
        MouseScrollConfig { direction: 0, interval: 0 }.validate(),
        Err("direction must be 1 or -1".to_string())
    );
    assert!(MouseScrollConfig::accept(MouseScrollConfig { direction: 2, interval: 0 }).is_err());
}

#[test]
fn mac_addresses_are_normalised() {
    assert_eq!(NetworkManager::parse_mac("aa-bb-cc-dd-ee-ff").unwrap(), "AA:BB:CC:DD:EE:FF");
    assert_eq!(NetworkManager::parse_mac("AABB.CCDD.EEFF").unwrap(), "AA:BB:CC:DD:EE:FF");
    assert!(matches!(NetworkManager::parse_mac("zz:bb:cc:dd:ee:ff"), Err(NetworkError::InvalidMac(m)) if m == "zz:bb:cc:dd:ee:ff"));
    assert_eq!(NetworkManager::sanitize_name("my pc;rm -rf"), "mypcrm-rf");
}

#[test]
fn netmasks_and_prefixes() {
    assert!(NetworkManager::is_valid_netmask("255.255.255.0"));
    assert!(!NetworkManager::is_valid_netmask("255.0.255.0"));
    assert_eq!(NetworkManager::netmask_to_cidr("255.255.255.0").unwrap(), 24);
    assert_eq!(NetworkManager::netmask_to_cidr("255.255.255.255").unwrap(), 32);
    assert_eq!(NetworkManager::netmask_to_cidr("255.0.255.0").unwrap(), 8);
    assert!(NetworkManager::netmask_to_cidr("255.255.0").is_err());
    assert!(NetworkManager::netmask_to_cidr("255.255.0.x").is_err());
    assert_eq!(NetworkManager::cidr_to_netmask(24), "255.255.255.0");
    assert_eq!(NetworkManager::cidr_to_netmask(0), "0.0.0.0");
    assert_eq!(NetworkManager::cidr_to_netmask(33), "255.255.255.0");
    assert_eq!(NetworkManager::cidr_to_netmask(20), "255.255.240.0");
}

#[test]
fn wake_on_lan_targets_file() {
    let entries = NetworkManager::parse_wol_entries("AA:BB:CC:DD:EE:FF office pc\n11:22:33:44:55:66\n\n");
    assert_eq!(entries.len(), 2);
    assert_eq!((entries[0].mac.as_str(), entries[0].name.as_str()), ("AA:BB:CC:DD:EE:FF", "office pc"));
    assert_eq!(entries[1].name, "");
    assert_eq!(
        NetworkManager::format_wol_entries(&entries),
        "AA:BB:CC:DD:EE:FF office pc\n11:22:33:44:55:66\n"
    );
    let mut e = entries.clone();
    assert!(NetworkManager::rename_wol_entry(&mut e, "11:22:33:44:55:66", "nas").is_ok());
    assert_eq!(e[1].name, "nas");
    assert!(NetworkManager::rename_wol_entry(&mut e, "00:00:00:00:00:00", "x").is_err());
    assert!(NetworkManager::remove_wol_entry(&mut e, "AA:BB:CC:DD:EE:FF"));
    assert_eq!(e.len(), 1);
    assert!(!NetworkManager::remove_wol_entry(&mut e, "AA:BB:CC:DD:EE:FF"));
    assert_eq!(NetworkManager::wol_record_line("AA:BB:CC:DD:EE:FF", "a b"), "AA:BB:CC:DD:EE:FF ab\n");
    let _unused = WolEntry { mac: String::new(), name: String::new() };
    assert_eq!(wol_error_reply(&NetworkError::CommandFailed("x".to_string())), (-3, "x".to_string()));
}

#[test]
fn resolver_and_route_output() {
    let (d1, d2) = NetworkManager::parse_dns_servers("# c\nnameserver 1.1.1.1\n  nameserver 8.8.8.8 \nnameserver 9.9.9.9\n");
    assert_eq!(d1.as_deref(), Some("1.1.1.1"));
    assert_eq!(d2.as_deref(), Some("8.8.8.8"));
    assert_eq!(
        NetworkManager::parse_default_gateway("default via 192.168.1.1 dev eth0"),
        Some("192.168.1.1".to_string())
    );
    assert_eq!(NetworkManager::parse_default_gateway("default dev eth0 via"), None);
    assert!(NetworkManager::wifi_state_connected(" 1\n"));
    assert!(!NetworkManager::wifi_state_connected("0"));
}

#[test]
fn wol_listing_shows_names_when_present() {
    let entries = vec![
        WolEntry { mac: "AA:BB:CC:DD:EE:FF".to_string(), name: String::new() },
        WolEntry { mac: "11:22:33:44:55:66".to_string(), name: "desk".to_string() },
    ];
    assert_eq!(
        wol_display_list(&entries),
        vec!["AA:BB:CC:DD:EE:FF".to_string(), "11:22:33:44:55:66 desk".to_string()]
    );
    assert!(wol_has_mac(&entries, "11:22:33:44:55:66"));
    assert!(!wol_has_mac(&entries, "11:22:33:44:55:67"));
}

#[test]
fn wol_rename_errors_and_messages() {
    let unknown = NetworkError::InvalidMac("MAC X not found in cache".to_string());
    assert_eq!(wol_rename_error_reply(&unknown), (-3, "MAC X not found in cache".to_string()));
    let io = NetworkError::Io("denied".to_string());
    assert_eq!(wol_rename_error_reply(&io), (-1, "IO Error: denied".to_string()));
    assert_eq!(NetworkError::CommandFailed("boom".to_string()).message(), "Command failed: boom");
    assert_eq!(NetworkError::InvalidMac("zz".to_string()).message(), "Invalid MAC address: zz");
}

#[test]
fn every_prefix_length_reads_back_from_its_netmask() {
    for cidr in 0u8..=32 {
        let mask = NetworkManager::cidr_to_netmask(cidr);
        assert!(NetworkManager::is_valid_netmask(&mask), "{}", mask);
        assert_eq!(NetworkManager::netmask_to_cidr(&mask).unwrap(), cidr);
    }
}

fn static_req(ip: &str, mask: &str, gw: &str, dns1: Option<&str>) -> nanokvm::network::SetEthernetConfigReq {
    nanokvm::network::SetEthernetConfigReq {
        dhcp: false,
        ip: Some(ip.to_string()),
        netmask: Some(mask.to_string()),
        gateway: Some(gw.to_string()),
        dns1: dns1.map(|s| s.to_string()),
        dns2: None,
    }
}

fn plan_error(req: &nanokvm::network::SetEthernetConfigReq) -> Option<String> {
    match NetworkManager::plan_ethernet_config(req) {
        Ok(_) => None,
        Err(NetworkError::CommandFailed(m)) => Some(m),
        Err(_) => Some("other".to_string()),
    }
}

#[test]
fn ipv4_texts_are_validated() {
    assert!(NetworkManager::is_ipv4_text("192.168.1.100"));
    assert!(NetworkManager::is_ipv4_text("0.0.0.0"));
    assert!(!NetworkManager::is_ipv4_text("256.1.1.1"));
    assert!(!NetworkManager::is_ipv4_text("01.2.3.4"));
    assert!(!NetworkManager::is_ipv4_text("1.2.3"));
    assert!(!NetworkManager::is_ipv4_text("::1"));
    assert!(!NetworkManager::is_ipv4_text("1.2.3.4 "));
}

#[test]
fn static_ethernet_plans_check_addresses_and_subnet() {
    let ok = NetworkManager::plan_ethernet_config(&static_req("192.168.1.100", "255.255.255.0", "192.168.1.1", Some("8.8.8.8"))).unwrap();
    assert_eq!(ok.nodhcp, Some("192.168.1.100/24 192.168.1.1\n".to_string()));
    assert_eq!(ok.resolv, Some("nameserver 8.8.8.8\n".to_string()));
    assert_eq!(plan_error(&static_req("192.168.1.100", "255.255.255.0", "10.0.0.1", None)),
        Some("Gateway is not on the configured subnet".to_string()));
    assert_eq!(plan_error(&static_req("fe80::1", "255.255.255.0", "192.168.1.1", None)), Some("Invalid IP address".to_string()));
    assert_eq!(plan_error(&static_req("192.168.1.100", "255.255.255.1", "192.168.1.1", None)), Some("Invalid netmask".to_string()));
    assert_eq!(plan_error(&static_req("192.168.1.100", "255.255.255.0", "gw", None)), Some("Invalid gateway".to_string()));
    assert_eq!(plan_error(&static_req("192.168.1.100", "255.255.255.0", "192.168.1.1", Some("dns"))), Some("Invalid DNS1".to_string()));
}

#[test]
fn scroll_profile_store_applies_and_reports_persistence() {
    let mut store = MouseScrollStore::new();
    assert_eq!(store.get(), MouseScrollConfig { direction: -1, interval: 0 });
    store.load(Some(MouseScrollConfig { direction: 3, interval: 0 }));
    assert_eq!(store.get(), MouseScrollConfig { direction: -1, interval: 0 });
    store.load(Some(MouseScrollConfig { direction: 1, interval: 50 }));
    assert_eq!(store.get(), MouseScrollConfig { direction: 1, interval: 50 });
    let bad = store.set(MouseScrollConfig { direction: 1, interval: 5000 });
    assert_eq!(bad, Err((-3, "interval must be between 0 and 2000 (ms)".to_string())));
    assert_eq!(store.get().interval, 50);
    let good = MouseScrollConfig { direction: -1, interval: 100 };
    assert_eq!(store.set(good), Ok(good));
    assert_eq!(store.saved(true), Ok(good));
    assert_eq!(store.saved(false), Err((-1, "profile updated in memory but failed to persist to disk".to_string())));
    assert_eq!(store.get(), good);
}

#[test]
fn interface_address_is_read_from_ip_addr_output() {
    let out = "2: eth0: <BROADCAST,MULTICAST,UP> mtu 1500\n    link/ether 02:00:00:00:00:01 brd ff:ff:ff:ff:ff:ff\n    inet 192.168.1.50/24 brd 192.168.1.255 scope global eth0\n    inet6 fe80::1/64 scope link\n";
    assert_eq!(
        NetworkManager::parse_inet_address(out),
        (Some("192.168.1.50".to_string()), Some("255.255.255.0".to_string()))
    );
    assert_eq!(NetworkManager::parse_inet_address("    inet6 fe80::1/64\n"), (None, None));
}

#[test]
fn us_layout_types_ninety_seven_characters() {
    let us = get_char_map("en");
    let n = (0u32..=0x10FFFF).filter_map(char::from_u32).filter(|c| us.get(*c).is_some()).count();
    assert_eq!(n, 97);
    assert_eq!(us.get('0'), Some((0, 39)));
    assert_eq!(us.get(' '), Some((0, 44)));
    assert_eq!(us.get('?'), Some((2, 56)));
    assert_eq!(us.get('5'), Some((0, 34)));
}
