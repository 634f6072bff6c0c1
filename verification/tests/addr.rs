use esp_now_blinky::{MacAddress, format_mac, mac, parse_mac};

#[test]
fn format_is_colon_separated_lowercase_hex() {
    let s = mac([0xaa, 0xbb, 0xcc, 0xdd, 0xee, 0xff]);
    assert_eq!(s.as_str(), "aa:bb:cc:dd:ee:ff");
}

#[test]
fn format_pads_small_bytes() {
    let s = mac([0x00, 0x01, 0x0a, 0x10, 0x9f, 0xf0]);
    assert_eq!(s.as_str(), "00:01:0a:10:9f:f0");
}

#[test]
fn format_bytes_matches_string() {
    let b = format_mac([0x12, 0x34, 0x56, 0x78, 0x9a, 0xbc]);
    assert_eq!(b, b"12:34:56:78:9a:bc".to_vec());
}

#[test]
fn parse_recovers_formatted_address() {
    let addr = [0xaa, 0xbb, 0xcc, 0xdd, 0xee, 0xff];
    let text = format_mac(addr);
    let parsed = parse_mac(&text).expect("canonical form must parse");
    assert_eq!(parsed.0, addr);
}

#[test]
fn parse_round_trip_various() {
    for addr in [
        [0x00, 0x00, 0x00, 0x00, 0x00, 0x00],
        [0xff, 0xff, 0xff, 0xff, 0xff, 0xff],
        [0x01, 0x23, 0x45, 0x67, 0x89, 0xab],
        [0xfe, 0xdc, 0xba, 0x98, 0x76, 0x54],
    ] {
        let parsed = parse_mac(&format_mac(addr)).unwrap();
        assert_eq!(parsed.0, addr);
    }
}

#[test]
fn parse_rejects_bad_input() {
    assert!(parse_mac(b"aa:bb:cc:dd:ee").is_none());
    assert!(parse_mac(b"aa:bb:cc:dd:ee:f").is_none());
    assert!(parse_mac(b"aa:bb:cc:dd:ee:ffa").is_none());
    assert!(parse_mac(b"AA:bb:cc:dd:ee:ff").is_none());
    assert!(parse_mac(b"aa-bb-cc-dd-ee-ff").is_none());
    assert!(parse_mac(b"ag:bb:cc:dd:ee:ff").is_none());
    assert!(parse_mac(b"").is_none());
}

#[test]
fn broadcast_recognition() {
    assert!(MacAddress([0xff; 6]).is_broadcast());
    assert!(!MacAddress([0xff, 0xff, 0xff, 0xff, 0xff, 0xfe]).is_broadcast());
    assert!(!MacAddress([0, 0, 0, 0, 0, 0]).is_broadcast());
}

#[test]
fn address_equality() {
    let a = MacAddress([1, 2, 3, 4, 5, 6]);
    let b = MacAddress([1, 2, 3, 4, 5, 6]);
    let c = MacAddress([1, 2, 3, 4, 5, 7]);
    assert!(a.same_as(&b));
    assert!(!a.same_as(&c));
    assert_eq!(MacAddress::from([1, 2, 3, 4, 5, 6]).0, a.0);
}
