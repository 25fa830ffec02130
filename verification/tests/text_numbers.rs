use telemesh::client::{api_url, events_url, replace_str};
use telemesh::numbers::{format_i64, format_u64, parse_i64, parse_u64};
use telemesh::peer::{parse_peer, PeerQuery};
use telemesh::text::{chars_of, is_blank, strip_trailing_str, trim_chars};

#[test]
fn parse_i64_matches_std() {
    let cases = [
        "0", "-0", "+0", "42", "-42", "+42", "007", "9223372036854775807", "-9223372036854775808",
        "9223372036854775808", "-9223372036854775809", "", "-", "+", "+-1", "1 ", " 1", "12a",
        "１２", "00000000000000000000000000001",
    ];
    for c in cases {
        assert_eq!(parse_i64(c), c.parse::<i64>().ok(), "input {:?}", c);
    }
}

#[test]
fn parse_u64_matches_std() {
    let cases = [
        "0", "+7", "-0", "-1", "18446744073709551615", "18446744073709551616", "", "+", "x",
        "500",
    ];
    for c in cases {
        assert_eq!(parse_u64(c), c.parse::<u64>().ok(), "input {:?}", c);
    }
}

#[test]
fn decimal_formatting_matches_std() {
    for v in [0i64, 7, -7, 10, 1234567890, i64::MAX, i64::MIN, -1000000000000] {
        assert_eq!(format_i64(v), v.to_string());
        assert_eq!(parse_i64(&format_i64(v)), Some(v));
    }
    for n in [0u64, 9, 10, 99, 100, u64::MAX] {
        assert_eq!(format_u64(n), n.to_string());
        assert_eq!(parse_u64(&format_u64(n)), Some(n));
    }
}

#[test]
fn trim_matches_std() {
    let cases = ["  a b  ", "\t\n x \r\n", "", "   ", "\u{3000}name\u{2003}", "\u{85}z\u{a0}", "a"];
    for c in cases {
        let got: String = trim_chars(c).into_iter().collect();
        assert_eq!(got, c.trim(), "input {:?}", c);
        assert_eq!(is_blank(c), c.trim().is_empty());
    }
}

#[test]
fn chars_of_keeps_every_char() {
    assert_eq!(chars_of("héllo"), vec!['h', 'é', 'l', 'l', 'o']);
}

#[test]
fn trailing_slashes_stripped() {
    assert_eq!(strip_trailing_str("http://h:1///", '/'), "http://h:1");
    assert_eq!(strip_trailing_str("///", '/'), "");
}

#[test]
fn peer_by_id_and_by_name() {
    assert_eq!(parse_peer("  12345 "), PeerQuery::Id(12345));
    assert_eq!(parse_peer("-1001234"), PeerQuery::Id(-1001234));
    assert_eq!(parse_peer("@@alice"), PeerQuery::Username("alice".to_string()));
    assert_eq!(parse_peer(" @bob\n"), PeerQuery::Username("bob".to_string()));
    assert_eq!(parse_peer("@42"), PeerQuery::Id(42));
    assert_eq!(parse_peer("99999999999999999999"), PeerQuery::Username("99999999999999999999".to_string()));
    assert_eq!(parse_peer("@name"), parse_peer("name"));
    assert_eq!(parse_peer(" name "), parse_peer("name"));
}

#[test]
fn peer_matches_dialog_by_id_only() {
    assert!(parse_peer("7").matches_dialog(7));
    assert!(!parse_peer("7").matches_dialog(8));
    assert!(!parse_peer("seven").matches_dialog(7));
}

#[test]
fn replace_matches_std() {
    let cases = [("http://a/http://b", "http://", "ws://"), ("aaa", "aa", "b"), ("", "x", "y"), ("xyx", "x", "")];
    for (s, p, r) in cases {
        assert_eq!(replace_str(s, p, r), s.replace(p, r));
    }
}

#[test]
fn client_urls() {
    assert_eq!(api_url("http://127.0.0.1:8787/", "/health"), "http://127.0.0.1:8787/health");
    assert_eq!(api_url("http://h", "/api/v1/me"), "http://h/api/v1/me");
    assert_eq!(events_url("http://127.0.0.1:8787"), "ws://127.0.0.1:8787/api/v1/events");
    assert_eq!(events_url("https://gw.example//"), "wss://gw.example/api/v1/events");
}
