use mi::models::{Scope, ScopeCategory, ScopeStatus, Timestamp};
use mi::net::{contains, infer_category, is_private_target, parse_ip_addr, IpAddress, IpNet};
use mi::scope::{check_target, new_scope_entry, parse_expiry, parse_scope_id, scope_matches, ScopeError};

#[test]
fn private_ranges_are_auto_trusted() {
    assert!(is_private_target("192.168.1.50"));
    assert!(is_private_target("10.0.0.5"));
    assert!(is_private_target("172.16.0.1"));
    assert!(is_private_target("127.0.0.1"));
    assert!(!is_private_target("203.0.113.5"));
    assert!(!is_private_target("example.com"));
}

#[test]
fn exact_match() {
    assert!(scope_matches("example.com", "example.com"));
    assert!(!scope_matches("example.com", "other.com"));
}

#[test]
fn wildcard_subdomain_match() {
    assert!(scope_matches("*.example.com", "api.example.com"));
    assert!(scope_matches("*.example.com", "example.com"));
    assert!(!scope_matches("*.example.com", "example.org"));
}

#[test]
fn cidr_match() {
    assert!(scope_matches("203.0.113.0/24", "203.0.113.5"));
    assert!(!scope_matches("203.0.113.0/24", "198.51.100.5"));
}

#[test]
fn private_edges() {
    assert!(is_private_target("169.254.10.1"));
    assert!(is_private_target("::1"));
    assert!(is_private_target("172.31.255.255"));
    assert!(!is_private_target("172.32.0.1"));
    assert!(!is_private_target("fc00::1"));
    assert!(!is_private_target("10.0.0.0/8"));
}

#[test]
fn matching_ignores_ascii_case() {
    assert!(scope_matches("Example.COM", "example.com"));
    assert!(scope_matches("*.EXAMPLE.com", "Api.Example.Com"));
    assert!(!scope_matches("*.example.com", "badexample.com"));
    assert!(scope_matches("*.example.com", "a.b.example.com"));
    assert!(!scope_matches("*.example.com", ".com"));
}

#[test]
fn cidr_edges() {
    assert!(scope_matches("2001:db8::/32", "2001:db8::1"));
    assert!(!scope_matches("2001:db8::/32", "2001:db9::1"));
    assert!(!scope_matches("203.0.113.0/24", "example.com"));
    assert!(!scope_matches("203.0.113.0/24", "::1"));
    assert!(scope_matches("0.0.0.0/0", "8.8.8.8"));
    assert!(scope_matches("203.0.113.9/24", "203.0.113.200"));
    assert!(!scope_matches("203.0.113.0/33", "203.0.113.5"));
    assert!(!scope_matches("203.0.113.5", "203.0.113.6"));
}

#[test]
fn network_contains_by_prefix() {
    let net = IpNet::V4 { addr: 0xcb00_7100, prefix: 24 };
    assert!(contains(net, IpAddress::V4(0xcb00_71ff)));
    assert!(!contains(net, IpAddress::V4(0xcb00_7200)));
    assert!(!contains(net, IpAddress::V6(0xcb00_7100)));
    assert_eq!(parse_ip_addr("203.0.113.5"), Some(IpAddress::V4(0xcb00_7105)));
    assert_eq!(parse_ip_addr("::1"), Some(IpAddress::V6(1)));
    assert_eq!(parse_ip_addr("1.2.3.4/32"), None);
}

#[test]
fn categories_are_inferred() {
    assert_eq!(infer_category("203.0.113.0/24"), ScopeCategory::IpRange);
    assert_eq!(infer_category("203.0.113.5"), ScopeCategory::Ip);
    assert_eq!(infer_category("2001:db8::1"), ScopeCategory::Ip);
    assert_eq!(infer_category("example.com"), ScopeCategory::Domain);
    assert_eq!(infer_category("*.example.com"), ScopeCategory::Domain);
}

fn entry(pattern: &str, status: ScopeStatus, until: Option<Timestamp>) -> Scope {
    let mut s = Scope::new(pattern, infer_category(pattern), "tests", until, Timestamp { secs: 0, nanos: 0 }, 9);
    s.status = status;
    s
}

#[test]
fn check_private_target_without_registry() {
    let now = Timestamp { secs: 1_000, nanos: 0 };
    assert!(check_target("192.168.0.1", &Vec::new(), now).is_ok());
}

#[test]
fn check_refuses_unregistered_target() {
    let now = Timestamp { secs: 1_000, nanos: 0 };
    match check_target("example.com", &Vec::new(), now) {
        Err(ScopeError::NotAuthorized { target }) => assert_eq!(target, "example.com"),
        other => panic!("unexpected {:?}", other),
    }
}

#[test]
fn check_honours_status_expiry_and_pattern() {
    let now = Timestamp { secs: 1_000, nanos: 0 };
    let later = Timestamp { secs: 1_000, nanos: 1 };
    let ok = vec![entry("*.example.com", ScopeStatus::InScope, Some(later))];
    assert!(check_target("api.example.com", &ok, now).is_ok());
    let expired = vec![entry("*.example.com", ScopeStatus::InScope, Some(now))];
    assert!(check_target("api.example.com", &expired, now).is_err());
    let out = vec![entry("example.com", ScopeStatus::OutOfScope, None)];
    assert!(check_target("example.com", &out, now).is_err());
    let mixed = vec![
        entry("example.com", ScopeStatus::OutOfScope, None),
        entry("203.0.113.0/24", ScopeStatus::InScope, None),
    ];
    assert!(check_target("203.0.113.77", &mixed, now).is_ok());
    assert!(check_target("example.com", &mixed, now).is_err());
}

#[test]
fn new_entry_respects_no_expiry() {
    let until = Some(Timestamp { secs: 5, nanos: 0 });
    let now = Timestamp { secs: 3, nanos: 0 };
    let standing = new_scope_entry("203.0.113.0/24", "lab", true, until, now, 0);
    assert_eq!(standing.created_at, now);
    assert_eq!((standing.id >> 76) & 0xf, 4);
    assert_eq!(standing.authorized_until, None);
    assert_eq!(standing.category, ScopeCategory::IpRange);
    assert_eq!(standing.status, ScopeStatus::InScope);
    let timed = new_scope_entry("example.com", "SOW-1", false, until, now, 1);
    assert_eq!(timed.authorized_until, until);
    assert_eq!(timed.category, ScopeCategory::Domain);
    assert_eq!(timed.authorized_by, "SOW-1");
}

#[test]
fn command_line_values_parse() {
    assert_eq!(parse_expiry(None), Ok(None));
    assert_eq!(
        parse_expiry(Some("1970-01-01T00:01:40Z")),
        Ok(Some(Timestamp { secs: 100, nanos: 0 }))
    );
    assert!(parse_expiry(Some("tomorrow")).is_err());
    assert_eq!(
        parse_scope_id("00000000-0000-0000-0000-00000000002a"),
        Ok(42)
    );
    assert!(parse_scope_id("not-a-uuid").is_err());
}
