use chord_rs::addr::{encode_addr, Addr};
use chord_rs::lookup::{lookup_key, parse_u64_key, Error, LookupError, PingError};
use chord_rs::{Node, NodeId};

#[test]
fn parse_u64_key_reads_decimal() {
    assert_eq!(parse_u64_key("0").unwrap(), 0);
    assert_eq!(parse_u64_key("123").unwrap(), 123);
    assert_eq!(parse_u64_key("+123").unwrap(), 123);
    assert_eq!(parse_u64_key("18446744073709551615").unwrap(), u64::MAX);
}

#[test]
fn parse_u64_key_rejects_bad_keys() {
    assert!(parse_u64_key("").is_err());
    assert!(parse_u64_key("+").is_err());
    assert!(parse_u64_key("12a").is_err());
    assert!(parse_u64_key("-5").is_err());
    assert!(parse_u64_key("18446744073709551616").is_err());
    match parse_u64_key("oak").err().unwrap() {
        LookupError::KeyParseError(msg) => assert!(!msg.is_empty()),
    }
}

#[test]
fn parse_u64_key_agrees_with_std() {
    for key in ["0", "7", "+42", "18446744073709551615", "18446744073709551616", "", "x", "1 2"] {
        assert_eq!(parse_u64_key(key).ok(), key.parse::<u64>().ok(), "key {:?}", key);
    }
}

#[test]
fn lookup_key_hashes_non_raw_keys() {
    let id = lookup_key("alpha", false).unwrap();
    assert_eq!(id.0, seahash::hash(b"alpha"));
    // Raw keys skip the hash entirely.
    assert_eq!(lookup_key("42", true).unwrap(), NodeId(42));
    assert!(lookup_key("forest", true).is_err());
}

#[test]
fn node_id_comes_from_seahash_of_the_address_encoding() {
    let addr = Addr::v4([127, 0, 0, 1], 42008);
    let node = Node::new(addr);
    let bytes = encode_addr(&addr);
    assert_eq!(node.id.0, seahash::hash(&bytes));
    // The encoding is the version tag, the address bytes, then the port.
    assert_eq!(bytes, vec![4, 127, 0, 0, 1, 0xa4, 0x18]);
    // Same address, same id; the id really depends on the address.
    assert_eq!(Node::new(addr).id, node.id);
    assert_ne!(Node::new(Addr::v4([127, 0, 0, 2], 42008)).id, node.id);
}

#[test]
fn v6_addresses_encode_segments_big_endian() {
    let addr = Addr::v6([0xfd9f, 0x09b7, 0x9d0e, 0, 0, 0, 0, 1], 8080);
    let bytes = encode_addr(&addr);
    assert_eq!(
        bytes,
        vec![6, 0xfd, 0x9f, 0x09, 0xb7, 0x9d, 0x0e, 0, 0, 0, 0, 0, 0, 0, 0, 0, 1, 0x1f, 0x90]
    );
    assert_eq!(Node::new(addr).id.0, seahash::hash(&bytes));
}

#[test]
fn command_errors_carry_their_message() {
    let e: Error = LookupError::KeyParseError("bad key".to_string()).into();
    assert_eq!(e.message, "bad key");
    let e: Error = PingError::KeyParseError("bad target".to_string()).into();
    assert_eq!(e.message, "bad target");
}
