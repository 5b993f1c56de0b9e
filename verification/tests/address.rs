use lnurl_client::address::{ServerAddress, UrlParts};
use lnurl_client::error::{ErrorKind, FlowError};
use lnurl_client::ip::{ip, ipv4, ipv6};
use lnurl_client::text::to_chars;

fn is_ipv4(text: &str) -> bool {
    ipv4(&to_chars(text))
}

fn is_ipv6(text: &str) -> bool {
    ipv6(&to_chars(text))
}

fn normalized(text: &str) -> ServerAddress {
    ServerAddress::normalize(text).expect("the address is valid")
}

#[test]
fn url_is_kept_unchanged() {
    let address = normalized("https://service.example.com/lnurl");
    assert_eq!(address.url(), "https://service.example.com/lnurl");
    assert_eq!(address.scheme(), "https");
    assert_eq!(address.host(), "service.example.com");
    assert_eq!(address.port(), Some(443));
}

#[test]
fn url_with_port_names_that_port() {
    let address = normalized("http://localhost:3000");
    assert_eq!(address.url(), "http://localhost:3000");
    assert_eq!(address.host(), "localhost");
    assert_eq!(address.port(), Some(3000));
}

#[test]
fn url_host_comes_from_the_parser_not_from_the_text() {
    // The parser lowers the case of the host; a function that handed the
    // text back as the host would fail here.
    let address = ServerAddress::from_url("http://EXAMPLE.com/a").expect("a URL");
    assert_eq!(address.url(), "http://EXAMPLE.com/a");
    assert_eq!(address.host(), "example.com");
    assert_eq!(address.port(), Some(80));
}

#[test]
fn url_without_host_is_no_address() {
    assert!(ServerAddress::from_url("mailto:someone@example.com").is_none());
    assert!(ServerAddress::from_url("not a url").is_none());
}

#[test]
fn bracketed_ipv6_with_port_round_trips() {
    let address = normalized("[::1]:8080");
    assert_eq!(address.url(), "http://[::1]:8080");
    assert_eq!(address.scheme(), "http");
    assert_eq!(address.host(), "[::1]");
    assert_eq!(address.port(), Some(8080));
}

#[test]
fn bracketed_full_ipv6_with_port_round_trips() {
    let address = normalized("[2001:db8:0:0:0:0:0:1]:65535");
    assert_eq!(address.url(), "http://[2001:db8:0:0:0:0:0:1]:65535");
    assert_eq!(address.host(), "[2001:db8:0:0:0:0:0:1]");
    assert_eq!(address.port(), Some(65535));
}

#[test]
fn ipv4_with_port_round_trips() {
    let address = normalized("127.0.0.1:9735");
    assert_eq!(address.url(), "http://127.0.0.1:9735");
    assert_eq!(address.host(), "127.0.0.1");
    assert_eq!(address.port(), Some(9735));
}

#[test]
fn port_is_written_as_a_number() {
    let address = normalized("10.0.0.1:0080");
    assert_eq!(address.url(), "http://10.0.0.1:80");
    assert_eq!(address.port(), Some(80));
}

#[test]
fn unbracketed_ipv6_with_port_is_cut_at_the_last_colon() {
    let address = normalized("::1:8080");
    assert_eq!(address.url(), "http://::1:8080");
    assert_eq!(address.host(), "::1");
    assert_eq!(address.port(), Some(8080));
}

#[test]
fn bare_ipv4_gets_the_default_port() {
    let address = normalized("192.168.1.20");
    assert_eq!(address.url(), "http://192.168.1.20");
    assert_eq!(address.host(), "192.168.1.20");
    assert_eq!(address.port(), Some(80));
}

#[test]
fn bare_ipv6_gets_the_default_port() {
    let address = normalized("fe80::");
    assert_eq!(address.url(), "http://fe80::");
    assert_eq!(address.host(), "fe80::");
    assert_eq!(address.port(), Some(80));
}

#[test]
fn what_is_no_address_is_refused() {
    for text in [
        "",
        "localhost",
        "localhost:8080",
        "not an address",
        "1.2.3.4:65536",
        "1.2.3.4:",
        "1.2.3.4:+80",
        "256.1.1.1",
        "[::1]",
        "[::1]8080",
        "[1.2.3.4]:80",
        "[::1]:99999",
        "[::g]:80",
    ] {
        let error = ServerAddress::normalize(text).expect_err(text);
        assert_eq!(error, FlowError::InvalidAddress { input: text.to_string() });
        assert_eq!(error.kind(), ErrorKind::InvalidAddress);
    }
}

#[test]
fn url_takes_precedence_over_the_other_forms() {
    let parts = UrlParts { scheme: "x".to_string(), host: Some("h".to_string()), port: None };
    let address = ServerAddress::normalize_parsed("127.0.0.1:80", Some(parts)).expect("a URL");
    assert_eq!(address.url(), "127.0.0.1:80");
    assert_eq!(address.scheme(), "x");
    assert_eq!(address.host(), "h");
    assert_eq!(address.port(), None);
}

#[test]
fn parts_without_scheme_or_host_make_no_url() {
    let no_host = UrlParts { scheme: "data".to_string(), host: None, port: None };
    assert!(ServerAddress::from_parts("data:x", Some(no_host)).is_none());
    let empty_host = UrlParts { scheme: "x".to_string(), host: Some(String::new()), port: None };
    assert!(ServerAddress::from_parts("x://", Some(empty_host)).is_none());
    let empty_scheme = UrlParts { scheme: String::new(), host: Some("h".to_string()), port: None };
    assert!(ServerAddress::from_parts("//h", Some(empty_scheme)).is_none());
    assert!(ServerAddress::from_parts("anything", None).is_none());
}

#[test]
fn duplicate_is_equal() {
    let address = normalized("[::1]:8080");
    assert_eq!(address.duplicate(), address);
}

#[test]
fn ipv4_is_four_octets() {
    assert!(is_ipv4("0.0.0.0"));
    assert!(is_ipv4("255.255.255.255"));
    assert!(is_ipv4("10.20.30.40"));
    assert!(!is_ipv4(""));
    assert!(!is_ipv4("1.2.3"));
    assert!(!is_ipv4("1.2.3.4.5"));
    assert!(!is_ipv4("1.2.3."));
    assert!(!is_ipv4(".1.2.3"));
    assert!(!is_ipv4("1..2.3"));
    assert!(!is_ipv4("01.2.3.4"));
    assert!(!is_ipv4("1.2.3.256"));
    assert!(!is_ipv4("1.2.3.a"));
    assert!(!is_ipv4("1.2.3.4 "));
}

#[test]
fn ipv6_is_eight_groups_or_fewer_with_a_gap() {
    assert!(is_ipv6("1:2:3:4:5:6:7:8"));
    assert!(is_ipv6("2001:0db8:85a3:0000:0000:8a2e:0370:7334"));
    assert!(is_ipv6("ABCD:ef01:2345:6789:abcd:EF01:2345:6789"));
    assert!(is_ipv6("::"));
    assert!(is_ipv6("::1"));
    assert!(is_ipv6("1::"));
    assert!(is_ipv6("fe80::1"));
    assert!(is_ipv6("1:2:3:4:5:6:7::"));
    assert!(is_ipv6("::2:3:4:5:6:7:8"));
    assert!(is_ipv6("1:2:3::6:7:8"));
    assert!(!is_ipv6(""));
    assert!(!is_ipv6(":"));
    assert!(!is_ipv6(":::"));
    assert!(!is_ipv6("1"));
    assert!(!is_ipv6("1:2:3:4:5:6:7"));
    assert!(!is_ipv6("1:2:3:4:5:6:7:8:9"));
    assert!(!is_ipv6("1:2:3:4:5:6:7:8::"));
    assert!(!is_ipv6("::1:2:3:4:5:6:7:8"));
    assert!(!is_ipv6("1::2::3"));
    assert!(!is_ipv6("12345::"));
    assert!(!is_ipv6("::g"));
    assert!(!is_ipv6(":1:2:3:4:5:6:7"));
    assert!(!is_ipv6("1:2:3:4:5:6:7:"));
    assert!(!is_ipv6("1:::2"));
}

#[test]
fn ipv6_may_end_in_an_ipv4_address() {
    assert!(is_ipv6("::ffff:192.168.0.1"));
    assert!(is_ipv6("::192.168.0.1"));
    assert!(is_ipv6("1:2:3:4:5:6:7.8.9.10"));
    assert!(is_ipv6("1:2:3:4:5::7.8.9.10"));
    assert!(!is_ipv6("1:2:3:4:5:6:7:7.8.9.10"));
    assert!(!is_ipv6("1:2:3:4:5:6::7.8.9.10"));
    assert!(!is_ipv6("1.2.3.4::"));
    assert!(!is_ipv6("1.2.3.4"));
    assert!(!is_ipv6("::1.2.3"));
    assert!(!is_ipv6("::1.2.3.4:5"));
}

#[test]
fn ip_is_either_kind() {
    assert!(ip(&to_chars("1.2.3.4")));
    assert!(ip(&to_chars("::1")));
    assert!(!ip(&to_chars("example.com")));
}

#[test]
fn ipv6_literal_is_what_the_url_parser_takes_in_brackets() {
    // Every text up to seven characters over an alphabet that holds what
    // matters in an address, and some longer ones.
    let alphabet = ['0', ':', '1', '.', 'f'];
    let mut texts: Vec<String> = vec![String::new()];
    let mut longest: Vec<String> = vec![String::new()];
    for _ in 0..7 {
        let mut next = Vec::new();
        for text in &longest {
            for c in alphabet {
                let mut longer = text.clone();
                longer.push(c);
                next.push(longer);
            }
        }
        texts.extend(next.iter().cloned());
        longest = next;
    }
    for text in [
        "1:2:3:4:5:6:7:8",
        "1:2:3:4:5:6:7::",
        "::2:3:4:5:6:7:8",
        "1:2:3:4:5:6:1.2.3.4",
        "1:2:3:4:5::1.2.3.4",
        "1:2:3:4:5:6::1.2.3.4",
        "::ffff:255.255.255.255",
        "::ffff:256.1.1.1",
        "1:2:3:4:5:6:7:8:9",
        "00000::",
        "1:2:3:4:5:6:7:1.2.3.4",
        "1::2:3:4:5:6:7:8",
        "::1.2.3.4:5",
        "1.2.3.4::",
        "::1.2.3.04",
        "::1.2.3.1000",
    ] {
        texts.push(text.to_string());
    }
    for text in texts {
        let as_url = format!("http://[{}]/", text);
        assert_eq!(is_ipv6(&text), ServerAddress::from_url(&as_url).is_some(), "{:?}", text);
    }
}

#[test]
fn ipv6_that_begins_like_a_scheme_is_still_an_address() {
    let address = normalized("abcd::1:8080");
    assert_eq!(address.url(), "http://abcd::1:8080");
    assert_eq!(address.host(), "abcd::1");
    assert_eq!(address.port(), Some(8080));
}
