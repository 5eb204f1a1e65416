use raft_io::node_id::{parse_node_id, NodeId};

#[test]
fn parses_sixteen_lowercase_hex_digits() {
    assert_eq!(parse_node_id("0000000000000000"), Some(NodeId { value: 0 }));
    assert_eq!(parse_node_id("00000000000000ff"), Some(NodeId { value: 255 }));
    assert_eq!(parse_node_id("000000000000002a"), Some(NodeId { value: 42 }));
    assert_eq!(
        parse_node_id("ffffffffffffffff"),
        Some(NodeId { value: u64::MAX })
    );
    assert_eq!(
        parse_node_id("0123456789abcdef"),
        Some(NodeId { value: 0x0123_4567_89ab_cdef })
    );
}

#[test]
fn parsing_accepts_either_letter_case() {
    assert_eq!(
        parse_node_id("0123456789ABCDEF"),
        Some(NodeId { value: 0x0123_4567_89ab_cdef })
    );
    assert_eq!(
        parse_node_id("00000000000000Ff"),
        Some(NodeId { value: 255 })
    );
}

#[test]
fn rejects_wrong_length() {
    assert_eq!(parse_node_id(""), None);
    assert_eq!(parse_node_id("0"), None);
    assert_eq!(parse_node_id("000000000000000"), None); // fifteen digits
    assert_eq!(parse_node_id("00000000000000000"), None); // seventeen
}

#[test]
fn rejects_non_hex_characters() {
    assert_eq!(parse_node_id("000000000000000g"), None);
    assert_eq!(parse_node_id("0000000000000 00"), None);
    assert_eq!(parse_node_id("-000000000000001"), None);
    assert_eq!(parse_node_id("00000000000000é0"), None);
}

#[test]
fn prints_sixteen_lowercase_hex_digits() {
    assert_eq!(NodeId { value: 0 }.to_hex_string(), "0000000000000000");
    assert_eq!(NodeId { value: 255 }.to_hex_string(), "00000000000000ff");
    assert_eq!(
        NodeId { value: 0x0123_4567_89ab_cdef }.to_hex_string(),
        "0123456789abcdef"
    );
    assert_eq!(NodeId { value: u64::MAX }.to_hex_string(), "ffffffffffffffff");
}

#[test]
fn printing_then_parsing_returns_the_identity() {
    for value in [0u64, 1, 42, 255, 0xdead_beef, u64::MAX] {
        let id = NodeId { value };
        assert_eq!(parse_node_id(&id.to_hex_string()), Some(id));
    }
}
