use port_forward::config::{
    client_from_config, id_from_parsed, parse_i32, parse_id, parse_port_pair, parse_port_pairs,
    user_from_config, ConfigError,
};
use port_forward::id::Id;

fn strings(texts: &[&str]) -> Vec<String> {
    texts.iter().map(|text| String::from(*text)).collect()
}

#[test]
fn decimal_numbers_are_read() {
    assert_eq!(parse_i32(b"0"), Some(0));
    assert_eq!(parse_i32(b"9000"), Some(9000));
    assert_eq!(parse_i32(b"+18000"), Some(18000));
    assert_eq!(parse_i32(b"-1"), Some(-1));
    assert_eq!(parse_i32(b"-0"), Some(0));
    assert_eq!(parse_i32(b"0008077"), Some(8077));
    assert_eq!(parse_i32(b"2147483647"), Some(i32::MAX));
    assert_eq!(parse_i32(b"-2147483648"), Some(i32::MIN));
    assert_eq!(parse_i32(b"+2147483647"), Some(i32::MAX));
    assert_eq!(parse_i32(b"000000000000000000002147483647"), Some(i32::MAX));
}

#[test]
fn malformed_numbers_are_refused() {
    assert_eq!(parse_i32(b""), None);
    assert_eq!(parse_i32(b"+"), None);
    assert_eq!(parse_i32(b"-"), None);
    assert_eq!(parse_i32(b"+-1"), None);
    assert_eq!(parse_i32(b"--1"), None);
    assert_eq!(parse_i32(b" 1"), None);
    assert_eq!(parse_i32(b"1 "), None);
    assert_eq!(parse_i32(b"12a"), None);
    assert_eq!(parse_i32(b"0x10"), None);
    assert_eq!(parse_i32(b"1.5"), None);
    assert_eq!(parse_i32("\u{663}".as_bytes()), None);
}

#[test]
fn numbers_out_of_range_are_refused() {
    assert_eq!(parse_i32(b"2147483648"), None);
    assert_eq!(parse_i32(b"+2147483648"), None);
    assert_eq!(parse_i32(b"-2147483649"), None);
    assert_eq!(parse_i32(b"99999999999999999999999999999999999999"), None);
    assert_eq!(parse_i32(b"-99999999999999999999999999999999999999"), None);
    assert_eq!(parse_i32(b"21474836470"), None);
}

#[test]
fn numbers_agree_with_the_standard_parser() {
    let texts = [
        "", "0", "7", "+7", "-7", "+", "-", "007", "-007", "2147483647", "2147483648",
        "-2147483648", "-2147483649", "12:3", "1e3", " 4", "4 ", "\u{663}", "+-4", "4294967296",
        "18446744073709551616", "-18446744073709551616", "00000000000000000000000000001",
    ];
    for text in texts {
        assert_eq!(parse_i32(text.as_bytes()), text.parse::<i32>().ok());
    }
}

#[test]
fn port_pairs_are_read() {
    assert_eq!(parse_port_pair("9000:18000"), Some((9000, 18000)));
    assert_eq!(parse_port_pair("9001:18001"), Some((9001, 18001)));
    assert_eq!(parse_port_pair("22:2222"), Some((22, 2222)));
    assert_eq!(parse_port_pair("+1:-2"), Some((1, -2)));
    assert_eq!(parse_port_pair("0:0"), Some((0, 0)));
}

#[test]
fn what_follows_a_second_colon_is_not_read() {
    assert_eq!(parse_port_pair("1:2:3"), Some((1, 2)));
    assert_eq!(parse_port_pair("1:2:"), Some((1, 2)));
    assert_eq!(parse_port_pair("1:2:junk"), Some((1, 2)));
}

#[test]
fn malformed_port_pairs_are_refused() {
    assert_eq!(parse_port_pair(""), None);
    assert_eq!(parse_port_pair("9000"), None);
    assert_eq!(parse_port_pair(":"), None);
    assert_eq!(parse_port_pair("9000:"), None);
    assert_eq!(parse_port_pair(":18000"), None);
    assert_eq!(parse_port_pair("9000::18000"), None);
    assert_eq!(parse_port_pair("9000 : 18000"), None);
    assert_eq!(parse_port_pair("a:b"), None);
    assert_eq!(parse_port_pair("9000:2147483648"), None);
    assert_eq!(parse_port_pair("9000-18000"), None);
    assert_eq!(parse_port_pair("\u{ff19}\u{ff10}\u{ff10}\u{ff10}:18000"), None);
}

#[test]
fn identifiers_are_read_from_text() {
    assert_eq!(
        parse_id("11111111-1111-1111-1111-111111111111"),
        Ok(Id::from_bytes([0x11; 16]))
    );
    assert_eq!(
        parse_id("a1a2a3a4-b1b2-c1c2-d1d2-d3d4d5d6d7d8"),
        Ok(Id::from_u128(0xa1a2a3a4b1b2c1c2d1d2d3d4d5d6d7d8))
    );
    assert_eq!(
        parse_id("A1A2A3A4-B1B2-C1C2-D1D2-D3D4D5D6D7D8"),
        Ok(Id::from_u128(0xa1a2a3a4b1b2c1c2d1d2d3d4d5d6d7d8))
    );
    assert_eq!(
        parse_id("00000000-0000-0000-0000-000000000001").map(|id| id.to_bytes()),
        Ok([0, 0, 0, 0, 0, 0, 0, 0, 0, 0, 0, 0, 0, 0, 0, 1])
    );
}

#[test]
fn malformed_identifiers_are_refused() {
    assert_eq!(parse_id(""), Err(ConfigError::InvalidUuid));
    assert_eq!(parse_id("not a uuid"), Err(ConfigError::InvalidUuid));
    assert_eq!(parse_id("11111111-1111-1111-1111-11111111111"), Err(ConfigError::InvalidUuid));
    assert_eq!(parse_id("11111111-1111-1111-1111-11111111111g"), Err(ConfigError::InvalidUuid));
    assert_eq!(parse_id("11111111-1111-1111-1111-1111111111111"), Err(ConfigError::InvalidUuid));
}

#[test]
fn parsed_bytes_become_an_identifier() {
    assert_eq!(id_from_parsed(Some([0x22; 16])), Ok(Id::from_bytes([0x22; 16])));
    assert_eq!(id_from_parsed(None), Err(ConfigError::InvalidUuid));
}

#[test]
fn port_pair_lists_are_read_in_order() {
    assert_eq!(parse_port_pairs(&strings(&[])), Ok(vec![]));
    assert_eq!(
        parse_port_pairs(&strings(&["9000:18000", "9001:18001", "9000:18000"])),
        Ok(vec![(9000, 18000), (9001, 18001), (9000, 18000)])
    );
    assert_eq!(
        parse_port_pairs(&strings(&["9000:18000", "9001", "x:y"])),
        Err(ConfigError::InvalidPortPair(1))
    );
    assert_eq!(parse_port_pairs(&strings(&["x"])), Err(ConfigError::InvalidPortPair(0)));
}

#[test]
fn user_is_made_from_a_configuration_entry() {
    let user = user_from_config(
        "11111111-1111-1111-1111-111111111111",
        &strings(&["9000:18000", "9001:18001"]),
    )
    .unwrap();
    assert_eq!(user.uuid(), Id::from_bytes([0x11; 16]));
    assert_eq!(user.ports(), &vec![(9000, 18000), (9001, 18001)]);
    let bare = user_from_config("22222222-2222-2222-2222-222222222222", &strings(&[])).unwrap();
    assert_eq!(bare.uuid(), Id::from_bytes([0x22; 16]));
    assert!(bare.ports().is_empty());
}

#[test]
fn user_with_a_malformed_entry_is_refused() {
    let bad_uuid = user_from_config("1111", &strings(&["9000:18000"]));
    assert_eq!(bad_uuid.err(), Some(ConfigError::InvalidUuid));
    let both_bad = user_from_config("1111", &strings(&["9000"]));
    assert_eq!(both_bad.err(), Some(ConfigError::InvalidUuid));
    let bad_pair = user_from_config(
        "11111111-1111-1111-1111-111111111111",
        &strings(&["9000:18000", "9001:18001", "9002;18002", "bad"]),
    );
    assert_eq!(bad_pair.err(), Some(ConfigError::InvalidPortPair(2)));
}

#[test]
fn same_configuration_gives_the_same_user() {
    let ports = strings(&["9000:18000", "9001:18001"]);
    let one = user_from_config("11111111-1111-1111-1111-111111111111", &ports).unwrap();
    let two = user_from_config("11111111-1111-1111-1111-111111111111", &ports).unwrap();
    assert_eq!(one.uuid(), two.uuid());
    assert_eq!(one.ports(), two.ports());
    let swapped = user_from_config(
        "11111111-1111-1111-1111-111111111111",
        &strings(&["9001:18001", "9000:18000"]),
    )
    .unwrap();
    let mut sorted_one = one.ports().clone();
    let mut sorted_swapped = swapped.ports().clone();
    sorted_one.sort();
    sorted_swapped.sort();
    assert_eq!(sorted_one, sorted_swapped);
}

#[test]
fn client_is_made_from_a_configuration() {
    let client = client_from_config(
        String::from("example.org:8077"),
        "11111111-1111-1111-1111-111111111111",
    )
    .unwrap();
    assert_eq!(client.server_addr(), "example.org:8077");
    assert_eq!(client.uuid(), Id::from_bytes([0x11; 16]));
    let refused = client_from_config(String::from("example.org:8077"), "nope");
    assert_eq!(refused.err(), Some(ConfigError::InvalidUuid));
}
