use mi::models::{AssetKind, Confidence, Scope, ScopeCategory, Timestamp};
use mi::provider::{
    host_digest, host_lookup_records, host_request, key_info_from_body, matches_of_body, parse_u64,
    HostRequest, ProviderError, ShodanProvider, StatusOutcome,
};
use mi::scope::ScopeError;
use mi::storage::StorageError;
use mi::storage::ObservationRow;

fn client() -> reqwest::Client {
    reqwest::Client::builder().build().unwrap()
}

fn failed(status: u16, retry: Option<&str>) -> ProviderError {
    match ShodanProvider::status_outcome(status, retry) {
        StatusOutcome::Failed(e) => e,
        other => panic!("unexpected {:?}", other),
    }
}

#[test]
fn statuses_are_classified() {
    assert!(matches!(ShodanProvider::status_outcome(200, None), StatusOutcome::Body));
    assert!(matches!(failed(401, None), ProviderError::InvalidKey));
    assert!(matches!(failed(403, None), ProviderError::InvalidKey));
    assert!(matches!(failed(402, None), ProviderError::CreditsExhausted));
    assert!(matches!(failed(404, None), ProviderError::NotFound));
    assert!(matches!(ShodanProvider::status_outcome(500, None), StatusOutcome::Unexpected));
    assert!(matches!(ShodanProvider::status_outcome(201, None), StatusOutcome::Unexpected));
}

#[test]
fn rate_limit_reads_retry_after() {
    assert!(matches!(failed(429, Some("120")), ProviderError::RateLimited { retry_after_secs: 120 }));
    assert!(matches!(failed(429, Some("+7")), ProviderError::RateLimited { retry_after_secs: 7 }));
    assert!(matches!(failed(429, Some("soon")), ProviderError::RateLimited { retry_after_secs: 60 }));
    assert!(matches!(failed(429, Some(" 5")), ProviderError::RateLimited { retry_after_secs: 60 }));
    assert!(matches!(failed(429, None), ProviderError::RateLimited { retry_after_secs: 60 }));
}

#[test]
fn unexpected_status_message() {
    match ShodanProvider::unexpected_status(500, "boom") {
        ProviderError::UnexpectedResponse(m) => assert_eq!(m, "status 500 Internal Server Error: boom"),
        other => panic!("unexpected {:?}", other),
    }
    match ShodanProvider::unexpected_status(599, "") {
        ProviderError::UnexpectedResponse(m) => assert_eq!(m, "status 599 <unknown status code>: "),
        other => panic!("unexpected {:?}", other),
    }
}

#[test]
fn urls_and_capabilities() {
    assert_eq!(ShodanProvider::host_info_url("8.8.8.8"), "https://api.shodan.io/shodan/host/8.8.8.8");
    assert_eq!(ShodanProvider::search_url(), "https://api.shodan.io/shodan/host/search");
    assert_eq!(ShodanProvider::api_info_url(), "https://api.shodan.io/api-info");
    let p = ShodanProvider::new("SECRET-KEY", client());
    assert_eq!(p.api_key(), "SECRET-KEY");
    assert_eq!(p.name(), "shodan");
    let c = p.capabilities();
    assert!(c.host_info && c.search && !c.history);
}

#[test]
fn matches_become_results_in_order() {
    let p = ShodanProvider::new("k", client());
    let matches = vec![serde_json::Value::from(1), serde_json::Value::from("two")];
    let results = p.results_from_matches(matches.clone());
    assert_eq!(results.len(), 2);
    assert_eq!(results[0].raw, matches[0]);
    assert_eq!(results[1].raw, matches[1]);
    assert!(results.iter().all(|r| r.provider == "shodan"));
}

#[test]
fn host_lookup_links_observation_to_asset() {
    let raw = serde_json::Value::from("payload");
    let now = Timestamp { secs: 5, nanos: 6 };
    let (asset, obs) = host_lookup_records("203.0.113.5", raw.clone(), serde_json::Value::Null, now, 1, 2);
    assert_eq!(asset.first_seen, now);
    assert_eq!(obs.observed_at, now);
    assert_eq!(asset.kind, AssetKind::Ip);
    assert_eq!(asset.value, "203.0.113.5");
    assert_eq!(asset.confidence, Confidence::High);
    assert_eq!(obs.asset_id, asset.id);
    assert_eq!(obs.provider, "shodan");
    assert_eq!(obs.raw, raw);
    assert_ne!(obs.id, asset.id);
}

#[test]
fn decimal_headers_parse_like_u64() {
    assert_eq!(parse_u64("0"), Some(0));
    assert_eq!(parse_u64("+42"), Some(42));
    assert_eq!(parse_u64("18446744073709551615"), Some(u64::MAX));
    assert_eq!(parse_u64("18446744073709551616"), None);
    assert_eq!(parse_u64("99999999999999999999x"), None);
    assert_eq!(parse_u64(""), None);
    assert_eq!(parse_u64("+"), None);
    assert_eq!(parse_u64("-1"), None);
    assert_eq!(parse_u64("1_000"), None);
}

#[test]
fn key_info_reads_plan_and_credits() {
    let body: serde_json::Value =
        serde_json::from_str(r#"{"plan":"dev","query_credits":100,"other":1}"#).unwrap();
    let info = key_info_from_body(&body);
    assert_eq!(info.plan.as_deref(), Some("dev"));
    assert_eq!(info.credits_remaining, Some(100));
    let odd: serde_json::Value =
        serde_json::from_str(r#"{"plan":7,"query_credits":"many"}"#).unwrap();
    let info = key_info_from_body(&odd);
    assert_eq!(info.plan, None);
    assert_eq!(info.credits_remaining, None);
}

#[test]
fn search_matches_are_read_from_the_body() {
    let body: serde_json::Value = serde_json::from_str(r#"{"matches":[{"ip":1},{"ip":2}],"total":2}"#).unwrap();
    let m = matches_of_body(&body);
    assert_eq!(m.len(), 2);
    assert_eq!(m[1]["ip"], serde_json::Value::from(2));
    let none: serde_json::Value = serde_json::from_str(r#"{"matches":"no"}"#).unwrap();
    assert!(matches_of_body(&none).is_empty());
}

#[test]
fn host_digest_keeps_four_members() {
    let raw: serde_json::Value =
        serde_json::from_str(r#"{"org":"ACME","ports":[22,80],"data":[]}"#).unwrap();
    let d = host_digest(&raw);
    assert_eq!(d.org, Some(serde_json::Value::from("ACME")));
    assert_eq!(d.os, None);
    assert_eq!(d.ports, Some(serde_json::Value::from(vec![22, 80])));
    assert_eq!(d.hostnames, None);
}

#[test]
fn observation_rows_hold_json_text() {
    let raw: serde_json::Value = serde_json::from_str(r#"{"a":[1,2]}"#).unwrap();
    let now = Timestamp { secs: 0, nanos: 0 };
    let (_, obs) = host_lookup_records("1.2.3.4", raw, serde_json::Value::Null, now, 3, 4);
    let row = ObservationRow::from_domain(&obs).unwrap();
    assert_eq!(row.raw, r#"{"a":[1,2]}"#);
    assert_eq!(row.normalized, "null");
    assert_eq!(row.provider, "shodan");
    assert_eq!(row.observed_at, "1970-01-01T00:00:00+00:00");
    assert_eq!(row.id.len(), 36);
}

#[test]
fn host_request_follows_the_scope_check() {
    let now = Timestamp { secs: 1_700_000_000, nanos: 0 };
    let entry = Scope::new("198.51.100.0/24", ScopeCategory::IpRange, "t", None, now, 3);

    match host_request("198.51.100.7", Ok(vec![entry]), now, Some("k3y")) {
        HostRequest::Send { url, key } => {
            assert_eq!(url, "https://api.shodan.io/shodan/host/198.51.100.7");
            assert_eq!(key, "k3y");
        }
        _ => panic!("an authorized target with a key is looked up"),
    }
    match host_request("203.0.113.9", Ok(Vec::new()), now, Some("k3y")) {
        HostRequest::OutOfScope(ScopeError::NotAuthorized { target }) => assert_eq!(target, "203.0.113.9"),
        _ => panic!("an unregistered public target is refused"),
    }
    match host_request("203.0.113.9", Err(StorageError::InvalidRow("x".into())), now, Some("k3y")) {
        HostRequest::OutOfScope(ScopeError::Storage(StorageError::InvalidRow(m))) => assert_eq!(m, "x"),
        _ => panic!("an unreadable registry refuses the target"),
    }
    assert!(matches!(host_request("10.0.0.1", Ok(Vec::new()), now, None), HostRequest::MissingKey));
    assert!(matches!(host_request("10.0.0.1", Ok(Vec::new()), now, Some("k")), HostRequest::Send { .. }));
}
