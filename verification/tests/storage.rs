use mi::models::{Asset, AssetKind, Confidence, Scope, ScopeCategory, ScopeStatus, Timestamp};
use mi::storage::{
    assets_from_rows, id_text, parse_dt, scopes_from_rows, time_text, AssetRow, ScopeRow, StorageError,
};

fn asset_row(id: &str, kind: &str, first_seen: &str) -> AssetRow {
    AssetRow {
        id: id.to_string(),
        kind: kind.to_string(),
        value: "example.com".to_string(),
        org_id: None,
        confidence: "high".to_string(),
        first_seen: first_seen.to_string(),
        last_seen: "1970-01-01T00:00:10+00:00".to_string(),
    }
}

const ID: &str = "00000000-0000-0000-0000-000000000001";

fn invalid_row_message(e: StorageError) -> String {
    match e {
        StorageError::InvalidRow(m) => m,
        other => panic!("unexpected {:?}", other),
    }
}

#[test]
fn asset_row_decodes() {
    let a = asset_row(ID, "domain", "1970-01-01T01:00:00+01:00").into_domain().unwrap();
    assert_eq!(a.id, 1);
    assert_eq!(a.kind, AssetKind::Domain);
    assert_eq!(a.value, "example.com");
    assert_eq!(a.org_id, None);
    assert_eq!(a.confidence, Confidence::High);
    assert_eq!(a.first_seen, Timestamp { secs: 0, nanos: 0 });
    assert_eq!(a.last_seen, Timestamp { secs: 10, nanos: 0 });
}

#[test]
fn asset_row_reports_first_bad_column() {
    let m = invalid_row_message(asset_row("nope", "bogus", "bad").into_domain().unwrap_err());
    assert!(m.starts_with("asset id: "), "{m}");
    let m = invalid_row_message(asset_row(ID, "Domain", "bad").into_domain().unwrap_err());
    assert_eq!(m, "asset kind: Domain");
    let m = invalid_row_message(asset_row(ID, "ip", "bad").into_domain().unwrap_err());
    assert!(m.starts_with("timestamp 'bad': "), "{m}");
    let mut row = asset_row(ID, "ip", "1970-01-01T00:00:00Z");
    row.org_id = Some("x".to_string());
    let m = invalid_row_message(row.into_domain().unwrap_err());
    assert!(m.starts_with("org_id: "), "{m}");
    let mut row = asset_row(ID, "ip", "1970-01-01T00:00:00Z");
    row.confidence = "sure".to_string();
    assert_eq!(invalid_row_message(row.into_domain().unwrap_err()), "confidence: sure");
}

#[test]
fn asset_rows_stop_at_first_error() {
    let rows = vec![
        asset_row(ID, "ip", "1970-01-01T00:00:00Z"),
        asset_row(ID, "router", "1970-01-01T00:00:00Z"),
        asset_row("bad", "ip", "1970-01-01T00:00:00Z"),
    ];
    assert_eq!(invalid_row_message(assets_from_rows(rows).unwrap_err()), "asset kind: router");
    let rows = vec![
        asset_row(ID, "ip", "1970-01-01T00:00:00Z"),
        asset_row(ID, "port", "1970-01-01T00:00:00Z"),
    ];
    let assets = assets_from_rows(rows).unwrap();
    assert_eq!(assets.len(), 2);
    assert_eq!(assets[1].kind, AssetKind::Port);
}

fn scope_row(category: &str, status: &str, until: Option<&str>) -> ScopeRow {
    ScopeRow {
        id: ID.to_string(),
        pattern: "example.com".to_string(),
        category: category.to_string(),
        status: status.to_string(),
        authorized_by: "test-suite".to_string(),
        authorized_until: until.map(|s| s.to_string()),
        created_at: "2026-01-01T00:00:00Z".to_string(),
    }
}

#[test]
fn scope_row_decodes() {
    let s = scope_row("domain", "in_scope", Some("1970-01-01T00:00:01.5Z")).into_domain().unwrap();
    assert_eq!(s.pattern, "example.com");
    assert_eq!(s.category, ScopeCategory::Domain);
    assert_eq!(s.status, ScopeStatus::InScope);
    assert_eq!(s.authorized_by, "test-suite");
    assert_eq!(s.authorized_until, Some(Timestamp { secs: 1, nanos: 500_000_000 }));
    let scopes = scopes_from_rows(vec![scope_row("ip_range", "out_of_scope", None)]).unwrap();
    assert_eq!(scopes.len(), 1);
    assert_eq!(scopes[0].status, ScopeStatus::OutOfScope);
    assert_eq!(scopes[0].authorized_until, None);
}

#[test]
fn scope_row_errors() {
    let m = invalid_row_message(scope_row("dns", "in_scope", None).into_domain().unwrap_err());
    assert_eq!(m, "scope category: dns");
    let m = invalid_row_message(scope_row("ip", "maybe", None).into_domain().unwrap_err());
    assert_eq!(m, "scope status: maybe");
    let m = invalid_row_message(scope_row("ip", "in_scope", Some("soon")).into_domain().unwrap_err());
    assert!(m.starts_with("timestamp 'soon': "), "{m}");
}

#[test]
fn timestamps_parse_to_utc() {
    assert_eq!(
        parse_dt("2000-01-01T00:00:00-01:00").unwrap(),
        Timestamp { secs: 946_688_400, nanos: 0 }
    );
    assert!(parse_dt("2000-01-01").is_err());
}

#[test]
fn asset_written_then_read_is_the_same() {
    let now = Timestamp { secs: 1_700_000_000, nanos: 250_000_000 };
    let mut a = Asset::new(AssetKind::Service, "ssh on 22", Confidence::Medium, now, 0x1234);
    a.org_id = Some(0x1234_5678_9abc_def0_1122_3344_5566_7788);
    let row = AssetRow::from_domain(&a).unwrap();
    assert_eq!(row.id.len(), 36);
    assert_eq!(row.org_id.as_deref(), Some("12345678-9abc-def0-1122-334455667788"));
    assert_eq!(row.kind, "service");
    assert_eq!(row.confidence, "medium");
    let b = row.into_domain().unwrap();
    assert_eq!(b.id, a.id);
    assert_eq!(b.kind, a.kind);
    assert_eq!(b.value, a.value);
    assert_eq!(b.org_id, a.org_id);
    assert_eq!(b.first_seen, a.first_seen);
    assert_eq!(b.last_seen, a.last_seen);
    assert_eq!(b.confidence, a.confidence);
}

#[test]
fn scope_written_then_read_is_the_same() {
    let s = Scope::new(
        "*.example.com",
        ScopeCategory::Domain,
        "test-suite",
        Some(Timestamp { secs: 1_700_000_000, nanos: 123_000_000 }),
        Timestamp { secs: 1_600_000_000, nanos: 7 },
        99,
    );
    let row = ScopeRow::from_domain(&s).unwrap();
    assert_eq!(row.status, "in_scope");
    let t = row.into_domain().unwrap();
    assert_eq!(t.id, s.id);
    assert_eq!(t.pattern, s.pattern);
    assert_eq!(t.category, s.category);
    assert_eq!(t.status, s.status);
    assert_eq!(t.authorized_by, s.authorized_by);
    assert_eq!(t.authorized_until, s.authorized_until);
    assert_eq!(t.created_at, s.created_at);
}

#[test]
fn unrepresentable_timestamps_are_not_written() {
    let mut s = Scope::new("example.com", ScopeCategory::Domain, "t", None, Timestamp { secs: 0, nanos: 0 }, 5);
    s.created_at = Timestamp { secs: i64::MAX, nanos: 0 };
    assert!(ScopeRow::from_domain(&s).is_none());
}

#[test]
fn representable_timestamps_are_always_written() {
    let epoch = Timestamp { secs: 0, nanos: 0 };
    let a = Asset::new(AssetKind::Ip, "192.0.2.1", Confidence::High, epoch, 1);
    let row = AssetRow::from_domain(&a).unwrap();
    assert_eq!(row.first_seen, "1970-01-01T00:00:00+00:00");
    let mut b = a.clone();
    b.last_seen = Timestamp { secs: 1_700_000_039, nanos: 1_500_000_000 };
    assert!(AssetRow::from_domain(&b).is_some());
    b.last_seen = Timestamp { secs: 1_700_000_040, nanos: 1_500_000_000 };
    assert!(AssetRow::from_domain(&b).is_none());
    b.last_seen = Timestamp { secs: 8_210_266_876_799, nanos: 999_999_999 };
    assert_eq!(AssetRow::from_domain(&b).unwrap().last_seen, "+262142-12-31T23:59:59.999999999+00:00");
    b.last_seen = Timestamp { secs: 8_210_266_876_800, nanos: 0 };
    assert!(AssetRow::from_domain(&b).is_none());
    b.last_seen = Timestamp { secs: -8_334_601_228_800, nanos: 0 };
    assert_eq!(AssetRow::from_domain(&b).unwrap().last_seen, "-262143-01-01T00:00:00+00:00");
    b.last_seen = Timestamp { secs: -8_334_601_228_801, nanos: 0 };
    assert!(AssetRow::from_domain(&b).is_none());
}

#[test]
fn scope_rows_need_every_timestamp_representable() {
    let mut s = Scope::new("example.com", ScopeCategory::Domain, "t", None, Timestamp { secs: 0, nanos: 0 }, 5);
    assert!(ScopeRow::from_domain(&s).is_some());
    s.authorized_until = Some(Timestamp { secs: 10, nanos: 2_000_000_000 });
    assert!(ScopeRow::from_domain(&s).is_none());
    s.authorized_until = Some(Timestamp { secs: 59, nanos: 1_999_999_999 });
    assert_eq!(ScopeRow::from_domain(&s).unwrap().authorized_until.as_deref(), Some("1970-01-01T00:00:60.999999999+00:00"));
}

#[test]
fn ids_and_times_have_one_text() {
    assert_eq!(id_text(42), "00000000-0000-0000-0000-00000000002a");
    assert_eq!(time_text(Timestamp { secs: 946_684_800, nanos: 0 }).as_deref(), Some("2000-01-01T00:00:00+00:00"));
    assert!(time_text(Timestamp { secs: 0, nanos: 1_000_000_000 }).is_none());
}
