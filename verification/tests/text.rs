use lnurl_client::decimal::{format_decimal, parse_bounded, push_decimal};
use lnurl_client::error::{ErrorKind, FlowError, Violation};
use lnurl_client::flow::{endpoint, FlowConfig};
use lnurl_client::peer::PeerUri;
use lnurl_client::percent::{percent_encode, push_percent_encoded};
use lnurl_client::text::{
    contains_text, find_first, find_last, same_text, slice_text, split, to_chars, to_text,
    trimmed_len,
};

#[test]
fn chars_and_text_are_inverse() {
    let chars = to_chars("héllo");
    assert_eq!(chars, vec!['h', 'é', 'l', 'l', 'o']);
    assert_eq!(to_text(&chars), "héllo");
    assert_eq!(slice_text(&chars, 1, 3), "él");
    assert_eq!(slice_text(&chars, 2, 2), "");
}

#[test]
fn same_text_compares_characters() {
    assert!(same_text("OK", "OK"));
    assert!(same_text("", ""));
    assert!(!same_text("OK", "ok"));
    assert!(!same_text("OK", "OK "));
}

#[test]
fn find_first_and_last() {
    let chars = to_chars("a@b@c");
    assert_eq!(find_first(&chars, '@'), Some(1));
    assert_eq!(find_last(&chars, '@'), Some(3));
    assert_eq!(find_first(&chars, ':'), None);
    assert_eq!(find_last(&chars, ':'), None);
    assert_eq!(find_first(&[], 'a'), None);
}

#[test]
fn trimmed_len_drops_the_run_at_the_end() {
    assert_eq!(trimmed_len(&to_chars("http://h///"), '/'), 8);
    assert_eq!(trimmed_len(&to_chars("http://h"), '/'), 8);
    assert_eq!(trimmed_len(&to_chars("///"), '/'), 0);
    assert_eq!(trimmed_len(&to_chars(""), '/'), 0);
}

#[test]
fn contains_text_finds_a_run() {
    let haystack = to_chars("peer is already connected to us");
    assert!(contains_text(&haystack, &to_chars("already connected")));
    assert!(contains_text(&haystack, &to_chars("")));
    assert!(contains_text(&haystack, &to_chars("peer")));
    assert!(contains_text(&haystack, &to_chars("us")));
    assert!(!contains_text(&haystack, &to_chars("already  connected")));
    assert!(!contains_text(&to_chars("ab"), &to_chars("abc")));
}

#[test]
fn split_cuts_at_every_separator() {
    let parts: Vec<String> = split(&to_chars("a::b:"), ':').iter().map(|p| to_text(p)).collect();
    assert_eq!(parts, vec!["a", "", "b", ""]);
    let whole: Vec<String> = split(&to_chars("abc"), ':').iter().map(|p| to_text(p)).collect();
    assert_eq!(whole, vec!["abc"]);
    let empty: Vec<String> = split(&to_chars(""), ':').iter().map(|p| to_text(p)).collect();
    assert_eq!(empty, vec![""]);
}

#[test]
fn decimal_is_written_without_leading_zeros() {
    assert_eq!(format_decimal(0), "0");
    assert_eq!(format_decimal(7), "7");
    assert_eq!(format_decimal(10), "10");
    assert_eq!(format_decimal(1234), "1234");
    assert_eq!(format_decimal(u64::MAX as u128), "18446744073709551615");
    assert_eq!(format_decimal(u128::MAX), "340282366920938463463374607431768211455");
    let mut text = String::from("n=");
    push_decimal(&mut text, 42);
    assert_eq!(text, "n=42");
}

#[test]
fn decimal_reads_back() {
    for n in [0u32, 1, 9, 10, 99, 100, 255, 65535] {
        let text = format_decimal(n as u128);
        assert_eq!(parse_bounded(&to_chars(&text), 65535), Some(n));
    }
}

#[test]
fn parse_bounded_keeps_the_bound() {
    assert_eq!(parse_bounded(&to_chars("255"), 255), Some(255));
    assert_eq!(parse_bounded(&to_chars("256"), 255), None);
    assert_eq!(parse_bounded(&to_chars("0080"), 65535), Some(80));
    assert_eq!(parse_bounded(&to_chars("65535"), 65535), Some(65535));
    assert_eq!(parse_bounded(&to_chars("65536"), 65535), None);
    assert_eq!(parse_bounded(&to_chars("99999999999999999999999"), 65535), None);
    assert_eq!(parse_bounded(&to_chars(""), 65535), None);
    assert_eq!(parse_bounded(&to_chars("+1"), 65535), None);
    assert_eq!(parse_bounded(&to_chars("1a"), 65535), None);
    assert_eq!(parse_bounded(&to_chars("4294967295"), u32::MAX), Some(u32::MAX));
    assert_eq!(parse_bounded(&to_chars("4294967296"), u32::MAX), None);
}

#[test]
fn percent_encoding_keeps_unreserved_bytes() {
    assert_eq!(percent_encode("AZaz09-._~"), "AZaz09-._~");
    assert_eq!(percent_encode(""), "");
}

#[test]
fn percent_encoding_escapes_the_rest() {
    assert_eq!(percent_encode("lnbc1 p/q=&r?#"), "lnbc1%20p%2Fq%3D%26r%3F%23");
    assert_eq!(percent_encode("%"), "%25");
    assert_eq!(percent_encode("+"), "%2B");
    assert_eq!(percent_encode("é"), "%C3%A9");
    assert_eq!(percent_encode("€"), "%E2%82%AC");
    assert_eq!(percent_encode("\u{0}\u{7f}"), "%00%7F");
    let mut url = String::from("x?v=");
    push_percent_encoded(&mut url, "a b");
    assert_eq!(url, "x?v=a%20b");
}

#[test]
fn endpoint_joins_base_and_path() {
    assert_eq!(endpoint("http://h:1", "request-channel"), "http://h:1/request-channel");
    assert_eq!(endpoint("http://h:1/", "request-channel"), "http://h:1/request-channel");
    assert_eq!(endpoint("http://h:1/api///", "auth-challenge"), "http://h:1/api/auth-challenge");
}

#[test]
fn config_has_the_usual_paths() {
    let config = FlowConfig::new("127.0.0.1".to_string(), 9735);
    assert_eq!(config.local_host, "127.0.0.1");
    assert_eq!(config.local_port, 9735);
    assert_eq!(config.channel_path, "request-channel");
    assert_eq!(config.withdraw_path, "request-withdraw");
    assert_eq!(config.challenge_path, "auth-challenge");
    assert_eq!(config.response_path, "auth-response");
}

#[test]
fn peer_uri_is_key_host_and_port() {
    let peer = PeerUri::parse("02abcdef@203.0.113.7:9735").expect("a peer");
    assert_eq!(peer.node_id(), "02abcdef");
    assert_eq!(peer.host(), "203.0.113.7");
    assert_eq!(peer.port(), 9735);
    assert_eq!(peer.uri(), "02abcdef@203.0.113.7:9735");
    assert_eq!(peer.duplicate(), peer);
}

#[test]
fn peer_uri_host_may_hold_colons() {
    let peer = PeerUri::parse("02ab@[2001:db8::1]:09735").expect("a peer");
    assert_eq!(peer.node_id(), "02ab");
    assert_eq!(peer.host(), "[2001:db8::1]");
    assert_eq!(peer.port(), 9735);
    assert_eq!(peer.uri(), "02ab@[2001:db8::1]:09735");
}

#[test]
fn peer_uri_is_kept_as_received() {
    for text in ["a@h:01", "02ab@host.example:0009735", "k@y@h:0", "02ab@10.0.0.2:65535"] {
        let peer = PeerUri::parse(text).expect(text);
        assert_eq!(peer.uri(), text);
        assert_eq!(peer.duplicate().uri(), text);
    }
    let peer = PeerUri::parse("a@h:01").expect("a peer");
    assert_eq!(peer.node_id(), "a");
    assert_eq!(peer.host(), "h");
    assert_eq!(peer.port(), 1);
    let odd = PeerUri::parse("k@y@h:0").expect("a peer");
    assert_eq!(odd.node_id(), "k");
    assert_eq!(odd.host(), "y@h");
    assert_eq!(odd.port(), 0);
}

#[test]
fn malformed_peer_uri_is_a_violation() {
    for text in ["", "02ab", "02ab@host", "@host:1", "02ab@:1", "02ab@host:", "02ab@host:x",
        "02ab@host:65536", "02ab:1"]
    {
        let error = PeerUri::parse(text).expect_err(text);
        assert_eq!(
            error,
            FlowError::ValidationError {
                violation: Violation::MalformedPeerUri { uri: text.to_string() }
            }
        );
        assert_eq!(error.kind(), ErrorKind::Validation);
    }
}

#[test]
fn error_messages_are_exact() {
    let invalid = FlowError::InvalidAddress { input: "nowhere".to_string() };
    assert_eq!(invalid.message(), "Invalid server address: nowhere");
    assert_eq!(invalid.kind(), ErrorKind::InvalidAddress);

    let range = FlowError::ValidationError {
        violation: Violation::AmountOutOfRange { amount_msat: 5, min_msat: 10, max_msat: 2000 },
    };
    assert_eq!(range.message(), "Amount 5 msat is outside allowed range [10, 2000]");
    assert_eq!(range.kind(), ErrorKind::Validation);

    let peer = FlowError::ValidationError {
        violation: Violation::MalformedPeerUri { uri: "x".to_string() },
    };
    assert_eq!(peer.message(), "Malformed peer URI: x");

    let network = FlowError::NetworkError {
        host: "10.0.0.1".to_string(),
        port: Some(8080),
        detail: "timed out".to_string(),
    };
    assert_eq!(network.message(), "Network error reaching 10.0.0.1:8080: timed out");
    assert_eq!(network.kind(), ErrorKind::Network);

    let portless = FlowError::NetworkError {
        host: "h".to_string(),
        port: None,
        detail: "refused".to_string(),
    };
    assert_eq!(portless.message(), "Network error reaching h: refused");

    let protocol = FlowError::ProtocolError { reason: "too slow".to_string() };
    assert_eq!(protocol.message(), "Protocol error: too slow");
    assert_eq!(protocol.kind(), ErrorKind::Protocol);

    let node = FlowError::NodeError { reason: "getinfo failed: boom".to_string() };
    assert_eq!(node.message(), "Node error: getinfo failed: boom");
    assert_eq!(node.kind(), ErrorKind::Node);
    assert_eq!(node.clone(), node);
}
