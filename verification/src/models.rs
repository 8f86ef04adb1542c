//! Domain types shared by every part of MI: assets, observations,
//! findings and authorization scopes, plus the small enums that classify
//! them. Each enum has a stored text form (`as_str`) and its inverse
//! (`parse`).

use vstd::prelude::*;

use crate::text::str_eq;

verus! {

broadcast use vstd::string::group_string_axioms;

/// How sure MI is about an asset or finding.
#[derive(Debug, Clone, Copy, PartialEq, Eq, Structural)]
pub enum Confidence {
    High,
    Medium,
    Low,
}

impl Confidence {
    /// The text under which the value is stored and printed.
    pub open spec fn name(self) -> Seq<char> {
        match self {
            Confidence::High => "high"@,
            Confidence::Medium => "medium"@,
            Confidence::Low => "low"@,
        }
    }

    /// The value stored under the text `s`, if any.
    pub open spec fn from_name(s: Seq<char>) -> Option<Confidence> {
        if s == "high"@ {
            Some(Confidence::High)
        } else if s == "medium"@ {
            Some(Confidence::Medium)
        } else if s == "low"@ {
            Some(Confidence::Low)
        } else {
            None
        }
    }

    /// The stored text of the value.
    pub fn as_str(&self) -> (r: &'static str)
        ensures
            r@ == self.name(),
    {
        match self {
            Confidence::High => "high",
            Confidence::Medium => "medium",
            Confidence::Low => "low",
        }
    }

    /// The value whose stored text is `s`, or `None` for any other text.
    pub fn parse(s: &str) -> (r: Option<Confidence>)
        ensures
            r == Confidence::from_name(s@),
    {
        if str_eq(s, "high") {
            Some(Confidence::High)
        } else if str_eq(s, "medium") {
            Some(Confidence::Medium)
        } else if str_eq(s, "low") {
            Some(Confidence::Low)
        } else {
            None
        }
    }
}

/// A text parses to a confidence value exactly when it is that value's
/// stored text: `parse` undoes `as_str`, and no other text is accepted.
pub proof fn lemma_confidence_names(s: Seq<char>, v: Confidence)
    ensures
        Confidence::from_name(s) == Some(v) <==> s == v.name(),
{
    reveal_strlit("high");
    reveal_strlit("medium");
    reveal_strlit("low");
    assert("high"@.len() == 4);
    assert("medium"@.len() == 6);
    assert("low"@.len() == 3);
}

/// How a finding was established.
#[derive(Debug, Clone, Copy, PartialEq, Eq, Structural)]
pub enum FindingStatus {
    Observed,
    Inferred,
    Potential,
    Confirmed,
    Unknown,
}

impl FindingStatus {
    /// The text under which the value is stored and printed.
    pub open spec fn name(self) -> Seq<char> {
        match self {
            FindingStatus::Observed => "observed"@,
            FindingStatus::Inferred => "inferred"@,
            FindingStatus::Potential => "potential"@,
            FindingStatus::Confirmed => "confirmed"@,
            FindingStatus::Unknown => "unknown"@,
        }
    }

    /// The value stored under the text `s`, if any.
    pub open spec fn from_name(s: Seq<char>) -> Option<FindingStatus> {
        if s == "observed"@ {
            Some(FindingStatus::Observed)
        } else if s == "inferred"@ {
            Some(FindingStatus::Inferred)
        } else if s == "potential"@ {
            Some(FindingStatus::Potential)
        } else if s == "confirmed"@ {
            Some(FindingStatus::Confirmed)
        } else if s == "unknown"@ {
            Some(FindingStatus::Unknown)
        } else {
            None
        }
    }

    /// The stored text of the value.
    pub fn as_str(&self) -> (r: &'static str)
        ensures
            r@ == self.name(),
    {
        match self {
            FindingStatus::Observed => "observed",
            FindingStatus::Inferred => "inferred",
            FindingStatus::Potential => "potential",
            FindingStatus::Confirmed => "confirmed",
            FindingStatus::Unknown => "unknown",
        }
    }

    /// The value whose stored text is `s`, or `None` for any other text.
    pub fn parse(s: &str) -> (r: Option<FindingStatus>)
        ensures
            r == FindingStatus::from_name(s@),
    {
        if str_eq(s, "observed") {
            Some(FindingStatus::Observed)
        } else if str_eq(s, "inferred") {
            Some(FindingStatus::Inferred)
        } else if str_eq(s, "potential") {
            Some(FindingStatus::Potential)
        } else if str_eq(s, "confirmed") {
            Some(FindingStatus::Confirmed)
        } else if str_eq(s, "unknown") {
            Some(FindingStatus::Unknown)
        } else {
            None
        }
    }
}

/// A text parses to a finding status value exactly when it is that value's
/// stored text: `parse` undoes `as_str`, and no other text is accepted.
pub proof fn lemma_finding_status_names(s: Seq<char>, v: FindingStatus)
    ensures
        FindingStatus::from_name(s) == Some(v) <==> s == v.name(),
{
    reveal_strlit("observed");
    reveal_strlit("inferred");
    reveal_strlit("potential");
    reveal_strlit("confirmed");
    reveal_strlit("unknown");
    assert("observed"@.len() == 8);
    assert("inferred"@.len() == 8);
    assert("potential"@.len() == 9);
    assert("confirmed"@.len() == 9);
    assert("unknown"@.len() == 7);
    assert("observed"@[0] == 'o' && "inferred"@[0] == 'i');
    assert("potential"@[0] == 'p' && "confirmed"@[0] == 'c');
}

/// Impact rating of a finding.
#[derive(Debug, Clone, Copy, PartialEq, Eq, Structural)]
pub enum Severity {
    Low,
    Medium,
    High,
    Critical,
}

impl Severity {
    /// The text under which the value is stored and printed.
    pub open spec fn name(self) -> Seq<char> {
        match self {
            Severity::Low => "low"@,
            Severity::Medium => "medium"@,
            Severity::High => "high"@,
            Severity::Critical => "critical"@,
        }
    }

    /// The value stored under the text `s`, if any.
    pub open spec fn from_name(s: Seq<char>) -> Option<Severity> {
        if s == "low"@ {
            Some(Severity::Low)
        } else if s == "medium"@ {
            Some(Severity::Medium)
        } else if s == "high"@ {
            Some(Severity::High)
        } else if s == "critical"@ {
            Some(Severity::Critical)
        } else {
            None
        }
    }

    /// The stored text of the value.
    pub fn as_str(&self) -> (r: &'static str)
        ensures
            r@ == self.name(),
    {
        match self {
            Severity::Low => "low",
            Severity::Medium => "medium",
            Severity::High => "high",
            Severity::Critical => "critical",
        }
    }

    /// The value whose stored text is `s`, or `None` for any other text.
    pub fn parse(s: &str) -> (r: Option<Severity>)
        ensures
            r == Severity::from_name(s@),
    {
        if str_eq(s, "low") {
            Some(Severity::Low)
        } else if str_eq(s, "medium") {
            Some(Severity::Medium)
        } else if str_eq(s, "high") {
            Some(Severity::High)
        } else if str_eq(s, "critical") {
            Some(Severity::Critical)
        } else {
            None
        }
    }
}

/// A text parses to a severity value exactly when it is that value's
/// stored text: `parse` undoes `as_str`, and no other text is accepted.
pub proof fn lemma_severity_names(s: Seq<char>, v: Severity)
    ensures
        Severity::from_name(s) == Some(v) <==> s == v.name(),
{
    reveal_strlit("low");
    reveal_strlit("medium");
    reveal_strlit("high");
    reveal_strlit("critical");
    assert("low"@.len() == 3);
    assert("medium"@.len() == 6);
    assert("high"@.len() == 4);
    assert("critical"@.len() == 8);
}

/// What kind of thing an asset is.
#[derive(Debug, Clone, Copy, PartialEq, Eq, Structural)]
pub enum AssetKind {
    Domain,
    Subdomain,
    Ip,
    Service,
    Port,
    Certificate,
}

impl AssetKind {
    /// The text under which the value is stored and printed.
    pub open spec fn name(self) -> Seq<char> {
        match self {
            AssetKind::Domain => "domain"@,
            AssetKind::Subdomain => "subdomain"@,
            AssetKind::Ip => "ip"@,
            AssetKind::Service => "service"@,
            AssetKind::Port => "port"@,
            AssetKind::Certificate => "certificate"@,
        }
    }

    /// The value stored under the text `s`, if any.
    pub open spec fn from_name(s: Seq<char>) -> Option<AssetKind> {
        if s == "domain"@ {
            Some(AssetKind::Domain)
        } else if s == "subdomain"@ {
            Some(AssetKind::Subdomain)
        } else if s == "ip"@ {
            Some(AssetKind::Ip)
        } else if s == "service"@ {
            Some(AssetKind::Service)
        } else if s == "port"@ {
            Some(AssetKind::Port)
        } else if s == "certificate"@ {
            Some(AssetKind::Certificate)
        } else {
            None
        }
    }

    /// The stored text of the value.
    pub fn as_str(&self) -> (r: &'static str)
        ensures
            r@ == self.name(),
    {
        match self {
            AssetKind::Domain => "domain",
            AssetKind::Subdomain => "subdomain",
            AssetKind::Ip => "ip",
            AssetKind::Service => "service",
            AssetKind::Port => "port",
            AssetKind::Certificate => "certificate",
        }
    }

    /// The value whose stored text is `s`, or `None` for any other text.
    pub fn parse(s: &str) -> (r: Option<AssetKind>)
        ensures
            r == AssetKind::from_name(s@),
    {
        if str_eq(s, "domain") {
            Some(AssetKind::Domain)
        } else if str_eq(s, "subdomain") {
            Some(AssetKind::Subdomain)
        } else if str_eq(s, "ip") {
            Some(AssetKind::Ip)
        } else if str_eq(s, "service") {
            Some(AssetKind::Service)
        } else if str_eq(s, "port") {
            Some(AssetKind::Port)
        } else if str_eq(s, "certificate") {
            Some(AssetKind::Certificate)
        } else {
            None
        }
    }
}

/// A text parses to a asset kind value exactly when it is that value's
/// stored text: `parse` undoes `as_str`, and no other text is accepted.
pub proof fn lemma_asset_kind_names(s: Seq<char>, v: AssetKind)
    ensures
        AssetKind::from_name(s) == Some(v) <==> s == v.name(),
{
    reveal_strlit("domain");
    reveal_strlit("subdomain");
    reveal_strlit("ip");
    reveal_strlit("service");
    reveal_strlit("port");
    reveal_strlit("certificate");
    assert("domain"@.len() == 6);
    assert("subdomain"@.len() == 9);
    assert("ip"@.len() == 2);
    assert("service"@.len() == 7);
    assert("port"@.len() == 4);
    assert("certificate"@.len() == 11);
}

/// What a scope pattern denotes.
#[derive(Debug, Clone, Copy, PartialEq, Eq, Structural)]
pub enum ScopeCategory {
    Domain,
    IpRange,
    Ip,
}

impl ScopeCategory {
    /// The text under which the value is stored and printed.
    pub open spec fn name(self) -> Seq<char> {
        match self {
            ScopeCategory::Domain => "domain"@,
            ScopeCategory::IpRange => "ip_range"@,
            ScopeCategory::Ip => "ip"@,
        }
    }

    /// The value stored under the text `s`, if any.
    pub open spec fn from_name(s: Seq<char>) -> Option<ScopeCategory> {
        if s == "domain"@ {
            Some(ScopeCategory::Domain)
        } else if s == "ip_range"@ {
            Some(ScopeCategory::IpRange)
        } else if s == "ip"@ {
            Some(ScopeCategory::Ip)
        } else {
            None
        }
    }

    /// The stored text of the value.
    pub fn as_str(&self) -> (r: &'static str)
        ensures
            r@ == self.name(),
    {
        match self {
            ScopeCategory::Domain => "domain",
            ScopeCategory::IpRange => "ip_range",
            ScopeCategory::Ip => "ip",
        }
    }

    /// The value whose stored text is `s`, or `None` for any other text.
    pub fn parse(s: &str) -> (r: Option<ScopeCategory>)
        ensures
            r == ScopeCategory::from_name(s@),
    {
        if str_eq(s, "domain") {
            Some(ScopeCategory::Domain)
        } else if str_eq(s, "ip_range") {
            Some(ScopeCategory::IpRange)
        } else if str_eq(s, "ip") {
            Some(ScopeCategory::Ip)
        } else {
            None
        }
    }
}

/// A text parses to a scope category value exactly when it is that value's
/// stored text: `parse` undoes `as_str`, and no other text is accepted.
pub proof fn lemma_scope_category_names(s: Seq<char>, v: ScopeCategory)
    ensures
        ScopeCategory::from_name(s) == Some(v) <==> s == v.name(),
{
    reveal_strlit("domain");
    reveal_strlit("ip_range");
    reveal_strlit("ip");
    assert("domain"@.len() == 6);
    assert("ip_range"@.len() == 8);
    assert("ip"@.len() == 2);
}

/// Whether a scope entry authorizes its targets.
#[derive(Debug, Clone, Copy, PartialEq, Eq, Structural)]
pub enum ScopeStatus {
    InScope,
    OutOfScope,
}

impl ScopeStatus {
    /// The text under which the value is stored and printed.
    pub open spec fn name(self) -> Seq<char> {
        match self {
            ScopeStatus::InScope => "in_scope"@,
            ScopeStatus::OutOfScope => "out_of_scope"@,
        }
    }

    /// The value stored under the text `s`, if any.
    pub open spec fn from_name(s: Seq<char>) -> Option<ScopeStatus> {
        if s == "in_scope"@ {
            Some(ScopeStatus::InScope)
        } else if s == "out_of_scope"@ {
            Some(ScopeStatus::OutOfScope)
        } else {
            None
        }
    }

    /// The stored text of the value.
    pub fn as_str(&self) -> (r: &'static str)
        ensures
            r@ == self.name(),
    {
        match self {
            ScopeStatus::InScope => "in_scope",
            ScopeStatus::OutOfScope => "out_of_scope",
        }
    }

    /// The value whose stored text is `s`, or `None` for any other text.
    pub fn parse(s: &str) -> (r: Option<ScopeStatus>)
        ensures
            r == ScopeStatus::from_name(s@),
    {
        if str_eq(s, "in_scope") {
            Some(ScopeStatus::InScope)
        } else if str_eq(s, "out_of_scope") {
            Some(ScopeStatus::OutOfScope)
        } else {
            None
        }
    }
}

/// A text parses to a scope status value exactly when it is that value's
/// stored text: `parse` undoes `as_str`, and no other text is accepted.
pub proof fn lemma_scope_status_names(s: Seq<char>, v: ScopeStatus)
    ensures
        ScopeStatus::from_name(s) == Some(v) <==> s == v.name(),
{
    reveal_strlit("in_scope");
    reveal_strlit("out_of_scope");
    assert("in_scope"@.len() == 8);
    assert("out_of_scope"@.len() == 12);
}

/// The version-4 layout of a UUID held as a big-endian `u128`: the version
/// nibble (bits 76..80) is 4 and the variant bits (62..64) are `10`.
pub open spec fn uuid_version_bits(u: u128) -> bool {
    (u >> 76u128) & 0xfu128 == 4u128 && (u >> 62u128) & 0x3u128 == 2u128
}

/// The version-4 UUID made from the random value `random`: its version
/// nibble set to 4 and its variant bits to `10`, every other bit kept.
pub open spec fn uuid_v4_from_random(random: u128) -> u128 {
    (random & 0xFFFF_FFFF_FFFF_4FFF_BFFF_FFFF_FFFF_FFFFu128) | 0x4000_8000_0000_0000_0000u128
}

/// The version-4 UUID made from the random value `random`.
pub fn uuid_v4(random: u128) -> (r: u128)
    ensures
        r == uuid_v4_from_random(random),
        uuid_version_bits(r),
{
    let r = (random & 0xFFFF_FFFF_FFFF_4FFF_BFFF_FFFF_FFFF_FFFFu128) | 0x4000_8000_0000_0000_0000u128;
    assert(((r >> 76u128) & 0xfu128 == 4u128 && (r >> 62u128) & 0x3u128 == 2u128)) by (bit_vector)
        requires
            r == (random & 0xFFFF_FFFF_FFFF_4FFF_BFFF_FFFF_FFFF_FFFFu128)
                | 0x4000_8000_0000_0000_0000u128,
    ;
    r
}

/// A point in time, as seconds since the Unix epoch plus the sub-second
/// nanoseconds (which exceed 999,999,999 only inside a leap second).
/// Later instants have a larger `(secs, nanos)` pair in lexicographic order.
#[derive(Debug, Clone, Copy, PartialEq, Eq, Structural)]
pub struct Timestamp {
    pub secs: i64,
    pub nanos: u32,
}

impl Timestamp {
    /// `self` is strictly later than `other`.
    pub open spec fn is_after(self, other: Timestamp) -> bool {
        self.secs > other.secs || (self.secs == other.secs && self.nanos > other.nanos)
    }

    /// Whether `self` is strictly later than `other`.
    pub fn after(&self, other: &Timestamp) -> (r: bool)
        ensures
            r == self.is_after(*other),
    {
        self.secs > other.secs || (self.secs == other.secs && self.nanos > other.nanos)
    }
}

/// Something MI tracks: a domain, an address, a service, ...
/// Identifiers are 128-bit UUID values.
#[derive(Debug, Clone)]
pub struct Asset {
    pub id: u128,
    pub kind: AssetKind,
    pub value: String,
    pub org_id: Option<u128>,
    pub first_seen: Timestamp,
    pub last_seen: Timestamp,
    pub confidence: Confidence,
}

impl Asset {
    /// An asset seen at `now`, with the version-4 id made from `random` and
    /// no organisation; its first and last sighting are both `now`.
    pub fn new(kind: AssetKind, value: &str, confidence: Confidence, now: Timestamp, random: u128) -> (a:
        Asset)
        ensures
            a.id == uuid_v4_from_random(random),
            a.kind == kind,
            a.value@ == value@,
            a.confidence == confidence,
            a.org_id is None,
            a.first_seen == now,
            a.last_seen == now,
            uuid_version_bits(a.id),
    {
        Asset {
            id: uuid_v4(random),
            kind,
            value: value.to_owned(),
            org_id: None,
            first_seen: now,
            last_seen: now,
            confidence,
        }
    }
}

/// A provider's raw answer about an asset, with a normalized digest.
#[derive(Debug, Clone)]
pub struct Observation {
    pub id: u128,
    pub asset_id: u128,
    pub provider: String,
    pub raw: serde_json::Value,
    pub normalized: serde_json::Value,
    pub observed_at: Timestamp,
}

impl Observation {
    /// An observation made at `now`, with the version-4 id made from
    /// `random`.
    pub fn new(
        asset_id: u128,
        provider: &str,
        raw: serde_json::Value,
        normalized: serde_json::Value,
        now: Timestamp,
        random: u128,
    ) -> (o: Observation)
        ensures
            o.id == uuid_v4_from_random(random),
            o.observed_at == now,
            o.asset_id == asset_id,
            o.provider@ == provider@,
            o.raw == raw,
            o.normalized == normalized,
            uuid_version_bits(o.id),
    {
        Observation {
            id: uuid_v4(random),
            asset_id,
            provider: provider.to_owned(),
            raw,
            normalized,
            observed_at: now,
        }
    }
}

/// A security finding about an asset.
#[derive(Debug, Clone)]
pub struct Finding {
    pub id: u128,
    pub asset_id: u128,
    pub title: String,
    pub severity: Severity,
    pub status: FindingStatus,
    pub confidence: Confidence,
    pub attack_techniques: Vec<String>,
    pub first_seen: Timestamp,
    pub last_seen: Timestamp,
    pub recommendation: String,
}

/// An entry of the authorization registry: targets matching `pattern`
/// may be contacted while the entry is in scope and not expired.
#[derive(Debug, Clone)]
pub struct Scope {
    pub id: u128,
    pub pattern: String,
    pub category: ScopeCategory,
    pub status: ScopeStatus,
    pub authorized_by: String,
    pub authorized_until: Option<Timestamp>,
    pub created_at: Timestamp,
}

impl Scope {
    /// A new in-scope entry created at `now`, with the version-4 id made
    /// from `random`.
    pub fn new(
        pattern: &str,
        category: ScopeCategory,
        authorized_by: &str,
        authorized_until: Option<Timestamp>,
        now: Timestamp,
        random: u128,
    ) -> (s: Scope)
        ensures
            s.id == uuid_v4_from_random(random),
            s.created_at == now,
            s.pattern@ == pattern@,
            s.category == category,
            s.status == ScopeStatus::InScope,
            s.authorized_by@ == authorized_by@,
            s.authorized_until == authorized_until,
            uuid_version_bits(s.id),
    {
        Scope {
            id: uuid_v4(random),
            pattern: pattern.to_owned(),
            category,
            status: ScopeStatus::InScope,
            authorized_by: authorized_by.to_owned(),
            authorized_until,
            created_at: now,
        }
    }
}

} // verus!
