use listen_address::{Address, AddressError, IpAddr, IpFamily, Resolution};

fn v4(text: &str) -> IpAddr {
    IpAddr::new(IpFamily::V4, text.to_string())
}

fn v6(text: &str) -> IpAddr {
    IpAddr::new(IpFamily::V6, text.to_string())
}

#[test]
fn ipv4_literal_parses_and_renders() {
    let a = Address::from_str("127.0.0.1", Resolution::Found, Some(v4("127.0.0.1"))).unwrap();
    assert_eq!(a, Address::Ip(v4("127.0.0.1")));
    assert!(!a.is_unix());
    assert_eq!(a.to_string(), "127.0.0.1");
}

#[test]
fn ipv6_loopback_parses_and_renders() {
    let a = Address::from_str("::1", Resolution::Found, Some(v6("::1"))).unwrap();
    assert_eq!(a, Address::Ip(v6("::1")));
    assert!(!a.is_unix());
    assert_eq!(a.to_string(), "::1");
}

#[test]
fn ip_literal_renders_in_canonical_form() {
    let a = Address::from_str("0:0:0:0:0:0:0:1", Resolution::Found, Some(v6("::1"))).unwrap();
    assert_eq!(a.to_string(), "::1");
}

#[test]
fn unix_socket_path_round_trips() {
    let a = Address::from_str("unix:/var/run/app.sock", Resolution::Empty, None).unwrap();
    assert_eq!(a, Address::Unix("/var/run/app.sock".to_string()));
    assert!(a.is_unix());
    assert_eq!(a.to_string(), "unix:/var/run/app.sock");
}

#[test]
fn unix_prefix_alone_gives_empty_path() {
    let a = Address::from_str("unix:", Resolution::Empty, None).unwrap();
    assert_eq!(a, Address::Unix(String::new()));
    assert_eq!(a.to_string(), "unix:");
}

#[test]
fn unix_socket_is_unix() {
    let a = Address::from_str("unix:/tmp/app.sock", Resolution::Found, None).unwrap();
    assert!(a.is_unix());
}

#[test]
fn unix_path_keeps_non_ascii_characters() {
    let a = Address::from_str("unix:/tmp/é.sock", Resolution::Empty, None).unwrap();
    assert_eq!(a, Address::Unix("/tmp/é.sock".to_string()));
    assert_eq!(a.to_string(), "unix:/tmp/é.sock");
}

#[test]
fn hostname_is_kept_as_written() {
    let a = Address::from_str("localhost", Resolution::Found, None).unwrap();
    assert_eq!(a, Address::Hostname("localhost".to_string()));
    assert!(!a.is_unix());
    assert_eq!(a.to_string(), "localhost");
}

#[test]
fn prefix_only_counts_at_the_start() {
    let a = Address::from_str("app.unix:", Resolution::Found, None).unwrap();
    assert_eq!(a, Address::Hostname("app.unix:".to_string()));
    let b = Address::from_str("Unix:/a", Resolution::Found, None).unwrap();
    assert_eq!(b, Address::Hostname("Unix:/a".to_string()));
}

#[test]
fn unresolvable_name_fails() {
    let r = Address::from_str("no.such.invalid.host.example", Resolution::Empty, None);
    assert_eq!(
        r,
        Err(AddressError::Unresolvable("failed to resolve TCP address".to_string()))
    );
}

#[test]
fn resolver_failure_is_carried_in_the_error() {
    let r = Address::from_str(
        "bad host",
        Resolution::Failed("lookup failed".to_string()),
        None,
    );
    assert_eq!(r, Err(AddressError::Unresolvable("lookup failed".to_string())));
}

#[test]
fn literal_ip_that_did_not_resolve_fails() {
    let r = Address::from_str("127.0.0.1", Resolution::Empty, Some(v4("127.0.0.1")));
    assert!(r.is_err());
}

#[test]
fn only_socket_text_skips_resolution() {
    assert!(!Address::needs_resolution("unix:/a"));
    assert!(!Address::needs_resolution("unix:"));
    assert!(Address::needs_resolution("unix"));
    assert!(Address::needs_resolution(""));
    assert!(Address::needs_resolution("localhost"));
    assert!(Address::needs_resolution("::1"));
}

#[test]
fn ip_family_queries() {
    let a = v4("10.0.0.1");
    assert!(a.is_ipv4());
    assert!(!a.is_ipv6());
    assert_eq!(a.family(), IpFamily::V4);
    let b = v6("fe80::1");
    assert!(b.is_ipv6());
    assert!(!b.is_ipv4());
    assert_eq!(b.family(), IpFamily::V6);
    assert_eq!(b.to_string(), "fe80::1");
}
