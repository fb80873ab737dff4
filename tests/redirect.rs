use jdnet::routing::{make_https, redirect_for, secure_authority, Ports, RedirectOutcome};
use jdnet::text::{decimal_bytes, same_bytes, signed_decimal_bytes};

fn location(r: &RedirectOutcome) -> Option<String> {
    match r {
        RedirectOutcome::Permanent(l) => Some(String::from_utf8(l.clone()).unwrap()),
        RedirectOutcome::BadRequest => None,
    }
}

const PORTS: Ports = Ports { http: 80, https: 443 };

#[test]
fn redirect_keeps_path_and_switches_port() {
    let r = make_https(b"example.com:80", Some(b"/posts/42"), PORTS);
    assert_eq!(location(&r).as_deref(), Some("https://example.com:443/posts/42"));
    assert_eq!(r.status(), 308);
}

#[test]
fn redirect_without_path_goes_to_root() {
    let r = make_https(b"example.com:80", None, PORTS);
    assert_eq!(location(&r).as_deref(), Some("https://example.com:443/"));
}

#[test]
fn redirect_keeps_query() {
    let r = make_https(b"example.com:80", Some(b"/posts?page=2"), PORTS);
    assert_eq!(location(&r).as_deref(), Some("https://example.com:443/posts?page=2"));
}

#[test]
fn redirect_bare_query_gets_root_path() {
    let r = make_https(b"example.com:80", Some(b"?page=2"), PORTS);
    assert_eq!(location(&r).as_deref(), Some("https://example.com:443/?page=2"));
}

#[test]
fn redirect_host_without_port_gets_secure_port() {
    let r = make_https(b"example.com", Some(b"/"), PORTS);
    assert_eq!(location(&r).as_deref(), Some("https://example.com:443/"));
}

#[test]
fn redirect_keeps_host_made_of_port_digits() {
    let r = make_https(b"80", Some(b"/"), PORTS);
    assert_eq!(location(&r).as_deref(), Some("https://80:443/"));
    let r = make_https(b"80.example.com:80", Some(b"/"), PORTS);
    assert_eq!(location(&r).as_deref(), Some("https://80.example.com:443/"));
}

#[test]
fn redirect_ipv6_host() {
    let r = make_https(b"[::1]:80", Some(b"/x"), PORTS);
    assert_eq!(location(&r).as_deref(), Some("https://[::1]:443/x"));
    let r = make_https(b"[::1]", Some(b"/x"), PORTS);
    assert_eq!(location(&r).as_deref(), Some("https://[::1]:443/x"));
}

#[test]
fn redirect_custom_ports() {
    let ports = Ports { http: 7878, https: 3000 };
    let r = make_https(b"localhost:7878", Some(b"/a/b"), ports);
    assert_eq!(location(&r).as_deref(), Some("https://localhost:3000/a/b"));
}

#[test]
fn redirect_replaces_only_the_port() {
    let r = make_https(b"example.com:8080", Some(b"/"), PORTS);
    assert_eq!(location(&r).as_deref(), Some("https://example.com:443/"));
}

#[test]
fn redirect_unparsable_host_is_bad_request() {
    let r = make_https(b"exa mple.com:80", Some(b"/"), PORTS);
    assert!(matches!(r, RedirectOutcome::BadRequest));
    assert_eq!(r.status(), 400);
}

#[test]
fn redirect_empty_host_is_bad_request() {
    let r = make_https(b"", Some(b"/"), PORTS);
    assert!(matches!(r, RedirectOutcome::BadRequest));
    let r = make_https(b":80", Some(b"/"), PORTS);
    assert!(matches!(r, RedirectOutcome::BadRequest));
}

#[test]
fn redirect_is_the_same_twice() {
    let a = make_https(b"example.com:80", Some(b"/posts/42"), PORTS);
    let b = make_https(b"example.com:80", Some(b"/posts/42"), PORTS);
    assert_eq!(location(&a), location(&b));
    let c = make_https(b"bad host", None, PORTS);
    let d = make_https(b"bad host", None, PORTS);
    assert_eq!(location(&c), location(&d));
}

#[test]
fn decimal_rendering() {
    assert_eq!(decimal_bytes(0), b"0".to_vec());
    assert_eq!(decimal_bytes(7), b"7".to_vec());
    assert_eq!(decimal_bytes(443), b"443".to_vec());
    assert_eq!(decimal_bytes(65535), b"65535".to_vec());
    assert_eq!(decimal_bytes(u64::MAX), b"18446744073709551615".to_vec());
}

#[test]
fn signed_decimal_rendering() {
    assert_eq!(signed_decimal_bytes(0), b"0".to_vec());
    assert_eq!(signed_decimal_bytes(42), b"42".to_vec());
    assert_eq!(signed_decimal_bytes(-5), b"-5".to_vec());
    assert_eq!(signed_decimal_bytes(i32::MIN), b"-2147483648".to_vec());
    assert_eq!(signed_decimal_bytes(i32::MAX), b"2147483647".to_vec());
}

#[test]
fn byte_equality() {
    assert!(same_bytes(b"abc", b"abc"));
    assert!(!same_bytes(b"abc", b"abd"));
    assert!(!same_bytes(b"abc", b"ab"));
}

#[test]
fn secure_authority_rewrites_port_digits() {
    assert_eq!(secure_authority(b"example.com:80", PORTS), b"example.com:443".to_vec());
    assert_eq!(secure_authority(b"example.com", PORTS), b"example.com:443".to_vec());
    assert_eq!(secure_authority(b"example.com:", PORTS), b"example.com:443".to_vec());
    assert_eq!(secure_authority(b"", PORTS), b":443".to_vec());
}

#[test]
fn redirect_for_given_validity() {
    let r = redirect_for(b"example.com:443", true, Some(b"/posts/42"));
    assert_eq!(location(&r).as_deref(), Some("https://example.com:443/posts/42"));
    let r = redirect_for(b"example.com:443", true, Some(b""));
    assert_eq!(location(&r).as_deref(), Some("https://example.com:443/"));
    let r = redirect_for(b"example.com:443", false, Some(b"/"));
    assert!(matches!(r, RedirectOutcome::BadRequest));
}
