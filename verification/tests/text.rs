use cadence::text::{blank, same_text, trim, valid_client_id};

#[test]
fn trimming_drops_surrounding_white_space_only() {
    assert_eq!(trim("  Blue Train \t\n"), "Blue Train");
    assert_eq!(trim("\u{3000}x\u{00a0}"), "x");
    assert_eq!(trim("   "), "");
    assert_eq!(trim(""), "");
    assert_eq!(trim("a b"), "a b");
}

#[test]
fn blank_text_is_only_white_space() {
    assert!(blank(" \t"));
    assert!(blank(""));
    assert!(!blank(" x "));
}

#[test]
fn text_comparison_is_exact() {
    assert!(same_text("track-1", "track-1"));
    assert!(!same_text("track-1", "track-10"));
}

#[test]
fn client_ids_are_32_hexadecimal_characters() {
    assert!(valid_client_id("0123456789abcdef0123456789abcdef"));
    assert!(valid_client_id("  0123456789ABCDEF0123456789abcdef\n"));
    assert!(!valid_client_id("not-a-client-id"));
    assert!(!valid_client_id("0123456789abcdef0123456789abcdeg"));
    assert!(!valid_client_id("0123456789abcdef0123456789abcdef0"));
}
