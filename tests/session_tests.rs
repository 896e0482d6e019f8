use noorsigner_link::session::{check_trust_session, parse_trust_session, read_trust_session};
use noorsigner_link::text::{parse_decimal_i64, split_on};

#[test]
fn well_formed_session_reads_all_fields() {
    let t = read_trust_session(Some("tok:2000:1000:deadbeef"), 1500).unwrap();
    assert_eq!(t.token, "tok");
    assert_eq!(t.expires_at, 2000);
    assert_eq!(t.created_at, "1000");
    assert_eq!(t.encrypted_secret, "deadbeef");
}

#[test]
fn wrong_field_count_reads_as_no_session() {
    assert!(read_trust_session(Some("tok:2000:1000"), 0).is_none());
    assert!(read_trust_session(Some("tok:2000:1000:ab:cd"), 0).is_none());
    assert!(read_trust_session(Some(""), 0).is_none());
    assert!(read_trust_session(Some("no separators at all"), 0).is_none());
    assert!(parse_trust_session("a:b").is_none());
}

#[test]
fn expired_session_is_invalid_whatever_else_it_holds() {
    assert!(read_trust_session(Some("tok:2000:1000:ab"), 2000).is_none());
    assert!(read_trust_session(Some("tok:2000:1000:ab"), 2001).is_none());
    assert!(read_trust_session(Some(":2000::"), 5000).is_none());
    assert!(read_trust_session(Some("tok:2000:1000:ab"), 1999).is_some());
    assert!(!check_trust_session(Some("x:-5:y:z"), -5));
    assert!(check_trust_session(Some("x:-5:y:z"), -6));
}

#[test]
fn unparsable_expiry_is_invalid() {
    assert!(read_trust_session(Some("tok:soon:1000:ab"), 0).is_none());
    assert!(read_trust_session(Some("tok::1000:ab"), 0).is_none());
    assert!(read_trust_session(Some("tok:99999999999999999999:1000:ab"), 0).is_none());
    assert!(!check_trust_session(Some("tok:12x:1000:ab"), 0));
}

#[test]
fn absent_record_is_no_session() {
    assert!(read_trust_session(None, 0).is_none());
    assert!(!check_trust_session(None, 0));
}

#[test]
fn trailing_newline_stays_in_the_last_field() {
    let t = parse_trust_session("t:10:5:abc\n").unwrap();
    assert_eq!(t.encrypted_secret, "abc\n");
    assert!(t.is_valid_at(9));
    assert!(!t.is_valid_at(10));
}

#[test]
fn decimal_parsing_follows_i64_rules() {
    assert_eq!(parse_decimal_i64("0"), Some(0));
    assert_eq!(parse_decimal_i64("+17"), Some(17));
    assert_eq!(parse_decimal_i64("-42"), Some(-42));
    assert_eq!(parse_decimal_i64("9223372036854775807"), Some(i64::MAX));
    assert_eq!(parse_decimal_i64("-9223372036854775808"), Some(i64::MIN));
    assert_eq!(parse_decimal_i64("9223372036854775808"), None);
    assert_eq!(parse_decimal_i64("-9223372036854775809"), None);
    assert_eq!(parse_decimal_i64(""), None);
    assert_eq!(parse_decimal_i64("-"), None);
    assert_eq!(parse_decimal_i64("+"), None);
    assert_eq!(parse_decimal_i64("1 "), None);
    assert_eq!(parse_decimal_i64(" 1"), None);
    assert_eq!(parse_decimal_i64("--1"), None);
    for s in ["123", "-7", "+0", "00012", "1700000000"] {
        assert_eq!(parse_decimal_i64(s), s.parse::<i64>().ok());
    }
}

#[test]
fn splitting_keeps_empty_pieces() {
    assert_eq!(split_on("a::b", ':'), vec!["a", "", "b"]);
    assert_eq!(split_on("", ':'), vec![""]);
    assert_eq!(split_on(":", ':'), vec!["", ""]);
    assert_eq!(split_on("abc", ':'), vec!["abc"]);
    assert_eq!(split_on("x:y:", ':'), vec!["x", "y", ""]);
}
