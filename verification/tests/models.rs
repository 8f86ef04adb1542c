use mi::models::{
    Asset, AssetKind, Confidence, FindingStatus, Observation, Scope, ScopeCategory, ScopeStatus,
    Severity, Timestamp,
};

#[test]
fn confidence_round_trips() {
    for c in [Confidence::High, Confidence::Medium, Confidence::Low] {
        assert_eq!(Confidence::parse(c.as_str()), Some(c));
    }
}

const NOW: Timestamp = Timestamp { secs: 1_700_000_000, nanos: 0 };

#[test]
fn scope_new_defaults_to_in_scope() {
    let s = Scope::new("example.com", ScopeCategory::Domain, "test", None, NOW, 1);
    assert_eq!(s.status, ScopeStatus::InScope);
}

#[test]
fn every_enum_round_trips_through_its_text() {
    for v in [
        FindingStatus::Observed,
        FindingStatus::Inferred,
        FindingStatus::Potential,
        FindingStatus::Confirmed,
        FindingStatus::Unknown,
    ] {
        assert_eq!(FindingStatus::parse(v.as_str()), Some(v));
    }
    for v in [Severity::Low, Severity::Medium, Severity::High, Severity::Critical] {
        assert_eq!(Severity::parse(v.as_str()), Some(v));
    }
    for v in [
        AssetKind::Domain,
        AssetKind::Subdomain,
        AssetKind::Ip,
        AssetKind::Service,
        AssetKind::Port,
        AssetKind::Certificate,
    ] {
        assert_eq!(AssetKind::parse(v.as_str()), Some(v));
    }
    for v in [ScopeCategory::Domain, ScopeCategory::IpRange, ScopeCategory::Ip] {
        assert_eq!(ScopeCategory::parse(v.as_str()), Some(v));
    }
    for v in [ScopeStatus::InScope, ScopeStatus::OutOfScope] {
        assert_eq!(ScopeStatus::parse(v.as_str()), Some(v));
    }
}

#[test]
fn enum_texts_are_exact() {
    assert_eq!(Confidence::Medium.as_str(), "medium");
    assert_eq!(FindingStatus::Potential.as_str(), "potential");
    assert_eq!(Severity::Critical.as_str(), "critical");
    assert_eq!(AssetKind::Certificate.as_str(), "certificate");
    assert_eq!(ScopeCategory::IpRange.as_str(), "ip_range");
    assert_eq!(ScopeStatus::OutOfScope.as_str(), "out_of_scope");
}

#[test]
fn parse_rejects_other_texts() {
    assert_eq!(Confidence::parse("High"), None);
    assert_eq!(Confidence::parse(""), None);
    assert_eq!(Severity::parse("low "), None);
    assert_eq!(ScopeCategory::parse("iprange"), None);
    assert_eq!(ScopeStatus::parse("in-scope"), None);
    assert_eq!(AssetKind::parse("ips"), None);
    assert_eq!(FindingStatus::parse("unknow"), None);
}

#[test]
fn asset_new_sets_fields() {
    let a = Asset::new(AssetKind::Domain, "example.com", Confidence::Low, NOW, u128::MAX);
    assert_eq!(a.kind, AssetKind::Domain);
    assert_eq!(a.value, "example.com");
    assert_eq!(a.confidence, Confidence::Low);
    assert_eq!(a.org_id, None);
    assert_eq!(a.first_seen, NOW);
    assert_eq!(a.last_seen, NOW);
    assert_eq!(a.id, 0xffff_ffff_ffff_4fff_bfff_ffff_ffff_ffff);
    assert_eq!((a.id >> 76) & 0xf, 4);
    assert_eq!((a.id >> 62) & 0x3, 2);
}

#[test]
fn observation_new_keeps_payloads() {
    let raw = serde_json::Value::String("raw".to_string());
    let norm = serde_json::Value::Bool(true);
    let o = Observation::new(7, "shodan", raw.clone(), norm.clone(), NOW, 0);
    assert_eq!(o.id, 0x0000_0000_0000_4000_8000_0000_0000_0000);
    assert_eq!(o.observed_at, NOW);
    assert_eq!(o.asset_id, 7);
    assert_eq!(o.provider, "shodan");
    assert_eq!(o.raw, raw);
    assert_eq!(o.normalized, norm);
}

#[test]
fn scope_new_keeps_expiry_and_fresh_ids_differ() {
    let until = Timestamp { secs: 100, nanos: 5 };
    let s = Scope::new("10.0.0.0/8", ScopeCategory::IpRange, "lab", Some(until), NOW, 1);
    let t = Scope::new("10.0.0.0/8", ScopeCategory::IpRange, "lab", Some(until), NOW, 2);
    assert_eq!(s.authorized_until, Some(until));
    assert_eq!(s.pattern, "10.0.0.0/8");
    assert_eq!(s.authorized_by, "lab");
    assert_ne!(s.id, t.id);
}

#[test]
fn timestamp_order_is_lexicographic() {
    let a = Timestamp { secs: 10, nanos: 0 };
    let b = Timestamp { secs: 10, nanos: 1 };
    let c = Timestamp { secs: 11, nanos: 0 };
    assert!(b.after(&a));
    assert!(c.after(&b));
    assert!(!a.after(&a));
    assert!(!a.after(&c));
}
