//! Provider results and errors, and the Shodan provider's request URLs,
//! response classification and result packaging. Providers return raw,
//! unmodified payloads; normalization happens one layer up.

use vstd::prelude::*;

use crate::bindings::{
    canonical_reason, digit_of, http_canonical_reason, json_array_member, json_array_of, json_get,
    json_i64_member, json_int_member, json_member, json_str_member, json_text_member, push_char,
};
use crate::models::{
    uuid_v4_from_random, uuid_version_bits, Asset, AssetKind, Confidence, Observation, Scope, Timestamp,
};
use crate::scope::{check_target, target_authorized, ScopeError};
use crate::storage::StorageError;
use crate::text::{append_str, chars_of, concat, owned};

verus! {

broadcast use vstd::string::group_string_axioms;

/// Why a provider call failed.
#[derive(Debug)]
pub enum ProviderError {
    Request(reqwest::Error),
    InvalidKey,
    RateLimited { retry_after_secs: u64 },
    CreditsExhausted,
    NotFound,
    UnexpectedResponse(String),
}

/// One raw payload from a provider.
#[derive(Debug, Clone)]
pub struct ProviderResult {
    pub provider: String,
    pub raw: serde_json::Value,
}

/// Which lookups a provider supports.
#[derive(Debug, Clone)]
pub struct ProviderCapabilities {
    pub host_info: bool,
    pub search: bool,
    pub history: bool,
}

/// What the provider reports about the configured API key.
#[derive(Debug, Clone)]
pub struct KeyInfo {
    pub plan: Option<String>,
    pub credits_remaining: Option<i64>,
}

/// The Shodan API root.
pub open spec fn shodan_base() -> Seq<char> {
    "https://api.shodan.io"@
}

/// `n` in decimal, without leading zeros.
pub open spec fn decimal_text(n: nat) -> Seq<char>
    decreases n,
{
    if n < 10 {
        seq![digit_of(n as int)]
    } else {
        decimal_text(n / 10).push(digit_of((n % 10) as int))
    }
}

/// The `Display` text of an HTTP status code: the number, a space, and the
/// canonical reason phrase (or "<unknown status code>").
pub open spec fn status_text(code: u16) -> Seq<char> {
    decimal_text(code as nat) + " "@ + match http_canonical_reason(code) {
        Some(reason) => reason,
        None => "<unknown status code>"@,
    }
}

fn digit(d: u16) -> (c: char)
    requires
        d < 10,
    ensures
        c == digit_of(d as int),
{
    if d == 0 {
        '0'
    } else if d == 1 {
        '1'
    } else if d == 2 {
        '2'
    } else if d == 3 {
        '3'
    } else if d == 4 {
        '4'
    } else if d == 5 {
        '5'
    } else if d == 6 {
        '6'
    } else if d == 7 {
        '7'
    } else if d == 8 {
        '8'
    } else {
        '9'
    }
}

fn push_decimal(s: &mut String, n: u16)
    ensures
        final(s)@ == old(s)@ + decimal_text(n as nat),
    decreases n,
{
    if n >= 10 {
        push_decimal(s, n / 10);
    }
    push_char(s, digit(n % 10));
    assert(decimal_text(n as nat) == if n < 10 {
        seq![digit_of(n as int)]
    } else {
        decimal_text((n / 10) as nat).push(digit_of((n % 10) as int))
    });
}

/// The value of the decimal digits `s` (all assumed to be `'0'..='9'`).
pub open spec fn decimal_value(s: Seq<char>) -> int
    decreases s.len(),
{
    if s.len() == 0 {
        0
    } else {
        decimal_value(s.drop_last()) * 10 + (s.last() as int - '0' as int)
    }
}

/// What `<u64 as FromStr>::from_str` accepts, as its documentation states: an optional `+` followed by
/// at least one ASCII digit and nothing else, denoting a value that fits.
pub open spec fn u64_from_decimal(s: Seq<char>) -> Option<u64> {
    let digits = if s.len() > 0 && s[0] == '+' {
        s.skip(1)
    } else {
        s
    };
    if digits.len() > 0 && all_digits(digits) && decimal_value(digits) <= u64::MAX {
        Some(decimal_value(digits) as u64)
    } else {
        None
    }
}

/// The digits of `s` are all ASCII decimal digits.
pub open spec fn all_digits(s: Seq<char>) -> bool {
    forall|i: int| 0 <= i < s.len() ==> '0' <= #[trigger] s[i] <= '9'
}

/// A prefix of a run of digits denotes at most the value of the whole run.
proof fn lemma_decimal_prefix_le(s: Seq<char>, k: int)
    requires
        all_digits(s),
        0 <= k <= s.len(),
    ensures
        0 <= decimal_value(s.take(k)) <= decimal_value(s),
    decreases s.len(),
{
    if s.len() > 0 {
        let d = s.drop_last();
        assert(all_digits(d));
        if k < s.len() {
            assert(d.take(k) =~= s.take(k));
            lemma_decimal_prefix_le(d, k);
        } else {
            assert(s.take(k) =~= s);
            lemma_decimal_prefix_le(d, 0);
            assert(d.take(0) =~= Seq::<char>::empty());
        }
    } else {
        assert(s.take(k) =~= s);
    }
}

/// The value of `s` read as `<u64 as FromStr>` reads it, or `None` when
/// `s` is not an optional `+` followed by digits of a value that fits.
pub fn parse_u64(s: &str) -> (r: Option<u64>)
    ensures
        r == u64_from_decimal(s@),
{
    let cs = chars_of(s);
    let start: usize = if cs.len() > 0 && cs[0] == '+' {
        1
    } else {
        0
    };
    let ghost digits = cs@.subrange(start as int, cs@.len() as int);
    assert(digits =~= if s@.len() > 0 && s@[0] == '+' {
        s@.skip(1)
    } else {
        s@
    });
    if start == cs.len() {
        return None;
    }
    let mut v: u64 = 0;
    let mut i: usize = start;
    while i < cs.len()
        invariant
            start <= i <= cs.len(),
            cs@ == s@,
            digits == cs@.subrange(start as int, cs@.len() as int),
            digits == (if s@.len() > 0 && s@[0] == '+' {
                s@.skip(1)
            } else {
                s@
            }),
            digits.len() > 0,
            all_digits(digits.take(i - start)),
            v == decimal_value(digits.take(i - start)),
        decreases cs.len() - i,
    {
        let c = cs[i];
        let ghost k = i - start;
        assert(digits[k] == c);
        if !('0' <= c && c <= '9') {
            assert(!all_digits(digits));
            return None;
        }
        let d = (c as u32 - 48) as u64;
        assert(digits.take(k + 1).drop_last() =~= digits.take(k));
        assert(decimal_value(digits.take(k + 1)) == v * 10 + d);
        if v > (u64::MAX - d) / 10 {
            assert(v * 10 + d > u64::MAX) by (nonlinear_arith)
                requires
                    v > (u64::MAX - d) / 10,
                    d <= 9,
            ;
            proof {
                if all_digits(digits) {
                    lemma_decimal_prefix_le(digits, k + 1);
                }
            }
            return None;
        }
        assert(v * 10 + d <= u64::MAX) by (nonlinear_arith)
            requires
                v <= (u64::MAX - d) / 10,
                d <= 9,
        ;
        v = v * 10 + d;
        i = i + 1;
        assert(all_digits(digits.take(i - start)));
    }
    assert(digits.take(i - start) =~= digits);
    Some(v)
}

/// How a provider answer is handled, given its status.
#[derive(Debug)]
pub enum StatusOutcome {
    /// 200: the body is the JSON payload.
    Body,
    /// A status that maps to a provider error.
    Failed(ProviderError),
    /// Any other status: the body text goes into an `UnexpectedResponse`.
    Unexpected,
}

/// The wait a rate-limited answer asks for: the `Retry-After` header as a
/// whole number of seconds, or 60 when it is missing or not a number.
pub open spec fn retry_wait(header: Option<Seq<char>>) -> u64 {
    match header {
        Some(h) => match u64_from_decimal(h) {
            Some(v) => v,
            None => 60,
        },
        None => 60,
    }
}

/// The Shodan API client: an API key and an HTTP client.
pub struct ShodanProvider {
    api_key: String,
    client: reqwest::Client,
}

impl ShodanProvider {
    /// The configured API key.
    pub closed spec fn key(&self) -> Seq<char> {
        self.api_key@
    }

    /// The HTTP client this provider sends its requests with.
    pub closed spec fn http(&self) -> reqwest::Client {
        self.client
    }

    /// A provider using `api_key`, sending its requests with `client`.
    pub fn new(api_key: &str, client: reqwest::Client) -> (p: ShodanProvider)
        ensures
            p.key() == api_key@,
            p.http() == client,
    {
        ShodanProvider { api_key: owned(api_key), client }
    }

    /// The configured API key.
    pub fn api_key(&self) -> (r: &str)
        ensures
            r@ == self.key(),
    {
        self.api_key.as_str()
    }

    /// The HTTP client requests are sent with.
    pub fn client(&self) -> (r: &reqwest::Client)
        ensures
            *r == self.http(),
    {
        &self.client
    }

    /// The provider's name, recorded with every result.
    pub fn name(&self) -> (r: &'static str)
        ensures
            r@ == "shodan"@,
    {
        "shodan"
    }

    /// Host lookups and searches are supported; history needs a
    /// higher-tier plan and is not.
    pub fn capabilities(&self) -> (c: ProviderCapabilities)
        ensures
            c.host_info,
            c.search,
            !c.history,
    {
        ProviderCapabilities { host_info: true, search: true, history: false }
    }

    /// The URL of the host lookup for `ip`.
    pub fn host_info_url(ip: &str) -> (r: String)
        ensures
            r@ == shodan_base() + "/shodan/host/"@ + ip@,
    {
        let mut r = concat("https://api.shodan.io", "/shodan/host/");
        append_str(&mut r, ip);
        r
    }

    /// The URL of the host search.
    pub fn search_url() -> (r: String)
        ensures
            r@ == shodan_base() + "/shodan/host/search"@,
    {
        concat("https://api.shodan.io", "/shodan/host/search")
    }

    /// The URL of the account information used to validate the key.
    pub fn api_info_url() -> (r: String)
        ensures
            r@ == shodan_base() + "/api-info"@,
    {
        concat("https://api.shodan.io", "/api-info")
    }

    /// How an answer with HTTP status `status` is handled, so that every
    /// request treats auth, rate-limit and credit failures alike:
    /// 200 yields the body; 401 and 403 an invalid key; 429 a rate limit
    /// with the `Retry-After` wait; 402 exhausted credits; 404 no results;
    /// anything else an unexpected response.
    pub fn status_outcome(status: u16, retry_after: Option<&str>) -> (r: StatusOutcome)
        ensures
            status == 200 ==> r is Body,
            (status == 401 || status == 403) ==> (r matches StatusOutcome::Failed(e) && e is InvalidKey),
            status == 429 ==> (r matches StatusOutcome::Failed(e) && e matches ProviderError::RateLimited {
                retry_after_secs,
            } && retry_after_secs == retry_wait(
                match retry_after {
                    Some(h) => Some(h@),
                    None => None,
                },
            )),
            status == 402 ==> (r matches StatusOutcome::Failed(e) && e is CreditsExhausted),
            status == 404 ==> (r matches StatusOutcome::Failed(e) && e is NotFound),
            !(status == 200 || status == 401 || status == 403 || status == 429 || status == 402
                || status == 404) ==> r is Unexpected,
    {
        if status == 200 {
            StatusOutcome::Body
        } else if status == 401 || status == 403 {
            StatusOutcome::Failed(ProviderError::InvalidKey)
        } else if status == 429 {
            let secs = match retry_after {
                Some(h) => match parse_u64(h) {
                    Some(v) => v,
                    None => 60,
                },
                None => 60,
            };
            StatusOutcome::Failed(ProviderError::RateLimited { retry_after_secs: secs })
        } else if status == 402 {
            StatusOutcome::Failed(ProviderError::CreditsExhausted)
        } else if status == 404 {
            StatusOutcome::Failed(ProviderError::NotFound)
        } else {
            StatusOutcome::Unexpected
        }
    }

    /// The error for an answer with an unhandled status: "status <status
    /// text>: <body>".
    pub fn unexpected_status(status: u16, body: &str) -> (e: ProviderError)
        ensures
            e matches ProviderError::UnexpectedResponse(m) && m@ == "status "@ + status_text(status)
                + ": "@ + body@,
    {
        let mut m = owned("status ");
        push_decimal(&mut m, status);
        push_char(&mut m, ' ');
        proof {
            reveal_strlit(" ");
            assert(" "@ =~= seq![' ']);
        }
        let ghost head = m@;
        assert(head =~= "status "@ + decimal_text(status as nat) + " "@);
        match canonical_reason(status) {
            Some(reason) => append_str(&mut m, reason),
            None => append_str(&mut m, "<unknown status code>"),
        }
        append_str(&mut m, ": ");
        append_str(&mut m, body);
        assert(m@ =~= "status "@ + status_text(status) + ": "@ + body@);
        ProviderError::UnexpectedResponse(m)
    }

    /// One result per match of a search, in order, each attributed to
    /// this provider.
    pub fn results_from_matches(&self, matches: Vec<serde_json::Value>) -> (r: Vec<ProviderResult>)
        ensures
            r@.len() == matches@.len(),
            forall|i: int|
                0 <= i < r@.len() ==> (#[trigger] r@[i]).provider@ == "shodan"@ && r@[i].raw
                    == matches@[i],
    {
        let ghost all = matches@;
        let mut out: Vec<ProviderResult> = Vec::new();
        for raw in it: matches.into_iter()
            invariant
                it.seq() == all,
                out@.len() == it.index(),
                forall|i: int|
                    0 <= i < out@.len() ==> (#[trigger] out@[i]).provider@ == "shodan"@
                        && out@[i].raw == all[i],
        {
            out.push(ProviderResult { provider: owned(self.name()), raw });
        }
        out
    }
}

/// The key information an api-info body reports: the `plan` member when
/// it is text, and the `query_credits` member when it is an integer.
pub fn key_info_from_body(body: &serde_json::Value) -> (r: KeyInfo)
    ensures
        match r.plan {
            Some(p) => json_text_member(*body, "plan"@) == Some(p@),
            None => json_text_member(*body, "plan"@) is None,
        },
        r.credits_remaining == json_int_member(*body, "query_credits"@),
{
    KeyInfo {
        plan: json_str_member(body, "plan"),
        credits_remaining: json_i64_member(body, "query_credits"),
    }
}

/// The `matches` array of a search body, or no matches when the body has
/// none.
pub fn matches_of_body(body: &serde_json::Value) -> (r: Vec<serde_json::Value>)
    ensures
        r@ == match json_array_member(*body, "matches"@) {
            Some(items) => items,
            None => Seq::<serde_json::Value>::empty(),
        },
{
    match json_array_of(body, "matches") {
        Some(items) => items,
        None => Vec::new(),
    }
}

/// The members of a host payload that its normalized digest keeps.
#[derive(Debug, Clone)]
pub struct HostDigest {
    pub org: Option<serde_json::Value>,
    pub os: Option<serde_json::Value>,
    pub ports: Option<serde_json::Value>,
    pub hostnames: Option<serde_json::Value>,
}

/// The `org`, `os`, `ports` and `hostnames` members of a host payload,
/// each absent when the payload lacks it.
pub fn host_digest(raw: &serde_json::Value) -> (d: HostDigest)
    ensures
        d.org == json_member(*raw, "org"@),
        d.os == json_member(*raw, "os"@),
        d.ports == json_member(*raw, "ports"@),
        d.hostnames == json_member(*raw, "hostnames"@),
{
    HostDigest {
        org: json_get(raw, "org"),
        os: json_get(raw, "os"),
        ports: json_get(raw, "ports"),
        hostnames: json_get(raw, "hostnames"),
    }
}

/// The records a host lookup at `now` stores: a high-confidence IP asset
/// for `ip`, and an observation of that asset by Shodan holding the raw
/// payload and its normalized digest. Their ids are the version-4 UUIDs made
/// from `asset_random` and `observation_random`.
pub fn host_lookup_records(
    ip: &str,
    raw: serde_json::Value,
    normalized: serde_json::Value,
    now: Timestamp,
    asset_random: u128,
    observation_random: u128,
) -> (r: (Asset, Observation))
    ensures
        r.0.id == uuid_v4_from_random(asset_random),
        r.1.id == uuid_v4_from_random(observation_random),
        r.0.first_seen == now,
        r.0.last_seen == now,
        r.1.observed_at == now,
        r.0.kind == AssetKind::Ip,
        r.0.value@ == ip@,
        r.0.confidence == Confidence::High,
        r.0.org_id is None,
        r.1.asset_id == r.0.id,
        r.1.provider@ == "shodan"@,
        r.1.raw == raw,
        r.1.normalized == normalized,
        uuid_version_bits(r.0.id),
        uuid_version_bits(r.1.id),
{
    let asset = Asset::new(AssetKind::Ip, ip, Confidence::High, now, asset_random);
    let obs = Observation::new(asset.id, "shodan", raw, normalized, now, observation_random);
    (asset, obs)
}

/// What the host command does once the scope registry has been read: refuse
/// the target, report that no key is configured, or send the lookup. The
/// registry is the list of entries that `check_target` decides on (an empty
/// one suffices for a private target, which needs no entry). A request is
/// formed only for a target that `check_target` authorizes and only with a
/// configured key, so no provider call precedes the scope check.
pub enum HostRequest {
    OutOfScope(ScopeError),
    MissingKey,
    Send { url: String, key: String },
}

/// Decides the host command's next step from the registry read for `ip`,
/// the current time and the configured key.
pub fn host_request(
    ip: &str,
    registry: Result<Vec<Scope>, StorageError>,
    now: Timestamp,
    key: Option<&str>,
) -> (r: HostRequest)
    ensures
        r is Send <==> (registry matches Ok(v) && target_authorized(ip@, v@, now) && key is Some),
        match r {
            HostRequest::OutOfScope(e) => match registry {
                Err(se) => e == ScopeError::Storage(se),
                Ok(v) => !target_authorized(ip@, v@, now) && (e matches ScopeError::NotAuthorized {
                    target: t,
                } && t@ == ip@),
            },
            HostRequest::MissingKey => registry matches Ok(v) && target_authorized(ip@, v@, now)
                && key is None,
            HostRequest::Send { url, key: k } => url@ == shodan_base() + "/shodan/host/"@ + ip@
                && (key matches Some(given) && k@ == given@),
        },
{
    let scopes = match registry {
        Ok(v) => v,
        Err(e) => return HostRequest::OutOfScope(ScopeError::Storage(e)),
    };
    match check_target(ip, &scopes, now) {
        Err(e) => HostRequest::OutOfScope(e),
        Ok(()) => match key {
            None => HostRequest::MissingKey,
            Some(k) => HostRequest::Send { url: ShodanProvider::host_info_url(ip), key: owned(k) },
        },
    }
}

} // verus!
