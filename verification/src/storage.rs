//! Decoding of database rows into domain values. Rows hold every column as
//! text; decoding checks the columns in field order and reports the first
//! bad one as `InvalidRow`.

use vstd::prelude::*;

use crate::bindings::{
    four_digit_year, json_text, utc_representable, json_to_text, parse_rfc3339, parse_uuid, render_rfc3339, rfc3339_parse, rfc3339_render, uuid_hyphenated,
    uuid_parse_str, uuid_to_text,
};
use crate::models::{
    lemma_asset_kind_names, lemma_confidence_names, lemma_scope_category_names,
    lemma_scope_status_names, Asset, AssetKind, Confidence, Observation, Scope, ScopeCategory, ScopeStatus,
    Timestamp,
};
use crate::text::{append_str, concat, owned};

verus! {

/// Why a storage operation failed.
#[derive(Debug)]
pub enum StorageError {
    Db(sqlx::Error),
    Migrate(sqlx::migrate::MigrateError),
    InvalidRow(String),
}

/// The message for a timestamp column `s` that failed to parse with `e`.
pub open spec fn timestamp_message(s: Seq<char>, e: Seq<char>) -> Seq<char> {
    "timestamp '"@ + s + "': "@ + e
}

/// Parses an RFC 3339 timestamp column into a UTC instant.
pub fn parse_dt(s: &str) -> (r: Result<Timestamp, StorageError>)
    ensures
        match rfc3339_parse(s@) {
            Ok(t) => r == Ok::<Timestamp, StorageError>(t),
            Err(e) => r matches Err(StorageError::InvalidRow(m)) && m@ == timestamp_message(s@, e),
        },
{
    match parse_rfc3339(s) {
        Ok(t) => Ok(t),
        Err(e) => {
            let mut m = concat("timestamp '", s);
            append_str(&mut m, "': ");
            append_str(&mut m, e.as_str());
            Err(StorageError::InvalidRow(m))
        },
    }
}

/// A UUID column, or the message `label` followed by the parse error.
fn parse_id(s: &str, label: &str) -> (r: Result<u128, StorageError>)
    ensures
        match uuid_parse_str(s@) {
            Ok(u) => r == Ok::<u128, StorageError>(u),
            Err(e) => r matches Err(StorageError::InvalidRow(m)) && m@ == label@ + e,
        },
{
    match parse_uuid(s) {
        Ok(u) => Ok(u),
        Err(e) => Err(StorageError::InvalidRow(concat(label, e.as_str()))),
    }
}

/// The column text of an id, as rows store it and queries look it up: the
/// hyphenated lower-case form, which parses back to the id.
pub fn id_text(id: u128) -> (r: String)
    ensures
        r@ == uuid_hyphenated(id),
        uuid_parse_str(r@) == Ok::<u128, Seq<char>>(id),
{
    uuid_to_text(id)
}

/// The column text of an instant: its RFC 3339 form, present exactly when
/// chrono can represent the instant.
pub fn time_text(t: Timestamp) -> (r: Option<String>)
    ensures
        r is Some <==> utc_representable(t),
        match r {
            Some(s) => rfc3339_render(t) == Some(s@),
            None => rfc3339_render(t) is None,
        },
{
    render_rfc3339(t)
}

/// An `assets` row as stored: every column as text.
pub struct AssetRow {
    pub id: String,
    pub kind: String,
    pub value: String,
    pub org_id: Option<String>,
    pub confidence: String,
    pub first_seen: String,
    pub last_seen: String,
}

/// The first column of `row` that does not decode, as its message.
pub open spec fn asset_row_error(row: AssetRow) -> Option<Seq<char>> {
    if uuid_parse_str(row.id@) is Err {
        Some("asset id: "@ + uuid_parse_str(row.id@)->Err_0)
    } else if AssetKind::from_name(row.kind@) is None {
        Some("asset kind: "@ + row.kind@)
    } else if row.org_id matches Some(o) && uuid_parse_str(o@) is Err {
        Some("org_id: "@ + uuid_parse_str(row.org_id->Some_0@)->Err_0)
    } else if rfc3339_parse(row.first_seen@) is Err {
        Some(timestamp_message(row.first_seen@, rfc3339_parse(row.first_seen@)->Err_0))
    } else if rfc3339_parse(row.last_seen@) is Err {
        Some(timestamp_message(row.last_seen@, rfc3339_parse(row.last_seen@)->Err_0))
    } else if Confidence::from_name(row.confidence@) is None {
        Some("confidence: "@ + row.confidence@)
    } else {
        None
    }
}

/// `a` holds the decoded columns of `row`.
pub open spec fn asset_decodes_to(row: AssetRow, a: Asset) -> bool {
    &&& uuid_parse_str(row.id@) == Ok::<u128, Seq<char>>(a.id)
    &&& AssetKind::from_name(row.kind@) == Some(a.kind)
    &&& a.value@ == row.value@
    &&& match row.org_id {
        Some(o) => a.org_id matches Some(id) && uuid_parse_str(o@) == Ok::<u128, Seq<char>>(id),
        None => a.org_id is None,
    }
    &&& rfc3339_parse(row.first_seen@) == Ok::<Timestamp, Seq<char>>(a.first_seen)
    &&& rfc3339_parse(row.last_seen@) == Ok::<Timestamp, Seq<char>>(a.last_seen)
    &&& Confidence::from_name(row.confidence@) == Some(a.confidence)
}

impl AssetRow {
    /// Decodes the row: the asset when every column is valid, otherwise
    /// `InvalidRow` with the message of the first invalid column.
    pub fn into_domain(self) -> (r: Result<Asset, StorageError>)
        ensures
            match r {
                Ok(a) => asset_row_error(self) is None && asset_decodes_to(self, a),
                Err(e) => e matches StorageError::InvalidRow(m) && asset_row_error(self) == Some(
                    m@,
                ),
            },
    {
        let id = match parse_id(self.id.as_str(), "asset id: ") {
            Ok(u) => u,
            Err(e) => return Err(e),
        };
        let kind = match AssetKind::parse(self.kind.as_str()) {
            Some(k) => k,
            None => return Err(StorageError::InvalidRow(concat("asset kind: ", self.kind.as_str()))),
        };
        let org_id = match &self.org_id {
            Some(o) => match parse_id(o.as_str(), "org_id: ") {
                Ok(u) => Some(u),
                Err(e) => return Err(e),
            },
            None => None,
        };
        let first_seen = match parse_dt(self.first_seen.as_str()) {
            Ok(t) => t,
            Err(e) => return Err(e),
        };
        let last_seen = match parse_dt(self.last_seen.as_str()) {
            Ok(t) => t,
            Err(e) => return Err(e),
        };
        let confidence = match Confidence::parse(self.confidence.as_str()) {
            Some(c) => c,
            None => return Err(
                StorageError::InvalidRow(concat("confidence: ", self.confidence.as_str())),
            ),
        };
        Ok(Asset { id, kind, value: self.value, org_id, first_seen, last_seen, confidence })
    }
}

/// `row` holds the columns `a` is written with: ids in hyphenated form,
/// enums by their stored text, timestamps in RFC 3339.
pub open spec fn asset_encodes_to(a: Asset, row: AssetRow) -> bool {
    &&& row.id@ == uuid_hyphenated(a.id)
    &&& row.kind@ == a.kind.name()
    &&& row.value@ == a.value@
    &&& match a.org_id {
        Some(o) => row.org_id matches Some(t) && t@ == uuid_hyphenated(o),
        None => row.org_id is None,
    }
    &&& row.confidence@ == a.confidence.name()
    &&& rfc3339_render(a.first_seen) == Some(row.first_seen@)
    &&& rfc3339_render(a.last_seen) == Some(row.last_seen@)
}

/// The row text of an optional id.
fn optional_id_text(id: Option<u128>) -> (r: Option<String>)
    ensures
        match id {
            Some(u) => r matches Some(t) && t@ == uuid_hyphenated(u) && uuid_parse_str(t@) == Ok::<
                u128,
                Seq<char>,
            >(u),
            None => r is None,
        },
{
    match id {
        Some(u) => Some(uuid_to_text(u)),
        None => None,
    }
}

/// `b` and `a` hold the same asset.
pub open spec fn same_asset(b: Asset, a: Asset) -> bool {
    b.id == a.id && b.kind == a.kind && b.value@ == a.value@ && b.org_id == a.org_id
        && b.first_seen == a.first_seen && b.last_seen == a.last_seen && b.confidence
        == a.confidence
}

impl AssetRow {
    /// The row `a` is stored as; there is one exactly when both timestamps
    /// are instants chrono can represent. When both lie in the years 0 to
    /// 9999, reading the row back gives the same asset.
    pub fn from_domain(a: &Asset) -> (r: Option<AssetRow>)
        ensures
            r is Some <==> utc_representable(a.first_seen) && utc_representable(a.last_seen),
            match r {
                Some(row) => asset_encodes_to(*a, row) && (four_digit_year(a.first_seen)
                    && four_digit_year(a.last_seen) ==> asset_row_error(row) is None && forall|
                    b: Asset,
                | #[trigger] asset_decodes_to(row, b) ==> same_asset(b, *a)),
                None => rfc3339_render(a.first_seen) is None || rfc3339_render(a.last_seen) is None,
            },
    {
        let first_seen = match render_rfc3339(a.first_seen) {
            Some(t) => t,
            None => return None,
        };
        let last_seen = match render_rfc3339(a.last_seen) {
            Some(t) => t,
            None => return None,
        };
        let row = AssetRow {
            id: uuid_to_text(a.id),
            kind: owned(a.kind.as_str()),
            value: a.value.clone(),
            org_id: optional_id_text(a.org_id),
            confidence: owned(a.confidence.as_str()),
            first_seen,
            last_seen,
        };
        proof {
            if four_digit_year(a.first_seen) && four_digit_year(a.last_seen) {
                assert forall|b: Asset| #[trigger] asset_decodes_to(row, b) implies same_asset(
                    b,
                    *a,
                ) by {
                    lemma_asset_row_round_trip(*a, row, b);
                }
                lemma_asset_row_round_trip(*a, row, *a);
            }
        }
        Some(row)
    }
}

/// Reading back the row an asset was written as gives that asset again,
/// provided the ids parse back to their values and each timestamp's
/// RFC 3339 text parses back to its instant.
pub proof fn lemma_asset_row_round_trip(a: Asset, row: AssetRow, b: Asset)
    requires
        asset_encodes_to(a, row),
        uuid_parse_str(row.id@) == Ok::<u128, Seq<char>>(a.id),
        row.org_id matches Some(t) ==> a.org_id matches Some(o) && uuid_parse_str(t@) == Ok::<
            u128,
            Seq<char>,
        >(o),
        rfc3339_parse(row.first_seen@) == Ok::<Timestamp, Seq<char>>(a.first_seen),
        rfc3339_parse(row.last_seen@) == Ok::<Timestamp, Seq<char>>(a.last_seen),
    ensures
        asset_row_error(row) is None,
        asset_decodes_to(row, b) ==> b.id == a.id && b.kind == a.kind && b.value@ == a.value@
            && b.org_id == a.org_id && b.first_seen == a.first_seen && b.last_seen == a.last_seen
            && b.confidence == a.confidence,
{
    lemma_asset_kind_names(row.kind@, a.kind);
    lemma_asset_kind_names(row.kind@, b.kind);
    lemma_confidence_names(row.confidence@, a.confidence);
    lemma_confidence_names(row.confidence@, b.confidence);
}

/// An `observations` row as stored: every column as text.
pub struct ObservationRow {
    pub id: String,
    pub asset_id: String,
    pub provider: String,
    pub raw: String,
    pub normalized: String,
    pub observed_at: String,
}

/// `row` holds the columns `o` is written with: ids in hyphenated form,
/// payloads as JSON text, the time in RFC 3339.
pub open spec fn observation_encodes_to(o: Observation, row: ObservationRow) -> bool {
    &&& row.id@ == uuid_hyphenated(o.id)
    &&& row.asset_id@ == uuid_hyphenated(o.asset_id)
    &&& row.provider@ == o.provider@
    &&& row.raw@ == json_text(o.raw)
    &&& row.normalized@ == json_text(o.normalized)
    &&& rfc3339_render(o.observed_at) == Some(row.observed_at@)
}

impl ObservationRow {
    /// The row `o` is stored as; there is one exactly when its time is an
    /// instant chrono can represent.
    pub fn from_domain(o: &Observation) -> (r: Option<ObservationRow>)
        ensures
            r is Some <==> utc_representable(o.observed_at),
            match r {
                Some(row) => observation_encodes_to(*o, row),
                None => rfc3339_render(o.observed_at) is None,
            },
    {
        let observed_at = match render_rfc3339(o.observed_at) {
            Some(t) => t,
            None => return None,
        };
        Some(
            ObservationRow {
                id: uuid_to_text(o.id),
                asset_id: uuid_to_text(o.asset_id),
                provider: o.provider.clone(),
                raw: json_to_text(&o.raw),
                normalized: json_to_text(&o.normalized),
                observed_at,
            },
        )
    }
}

/// A `scopes` row as stored: every column as text.
pub struct ScopeRow {
    pub id: String,
    pub pattern: String,
    pub category: String,
    pub status: String,
    pub authorized_by: String,
    pub authorized_until: Option<String>,
    pub created_at: String,
}

/// The first column of `row` that does not decode, as its message.
pub open spec fn scope_row_error(row: ScopeRow) -> Option<Seq<char>> {
    if uuid_parse_str(row.id@) is Err {
        Some("scope id: "@ + uuid_parse_str(row.id@)->Err_0)
    } else if ScopeCategory::from_name(row.category@) is None {
        Some("scope category: "@ + row.category@)
    } else if ScopeStatus::from_name(row.status@) is None {
        Some("scope status: "@ + row.status@)
    } else if row.authorized_until matches Some(u) && rfc3339_parse(u@) is Err {
        Some(
            timestamp_message(
                row.authorized_until->Some_0@,
                rfc3339_parse(row.authorized_until->Some_0@)->Err_0,
            ),
        )
    } else if rfc3339_parse(row.created_at@) is Err {
        Some(timestamp_message(row.created_at@, rfc3339_parse(row.created_at@)->Err_0))
    } else {
        None
    }
}

/// `s` holds the decoded columns of `row`.
pub open spec fn scope_decodes_to(row: ScopeRow, s: Scope) -> bool {
    &&& uuid_parse_str(row.id@) == Ok::<u128, Seq<char>>(s.id)
    &&& s.pattern@ == row.pattern@
    &&& ScopeCategory::from_name(row.category@) == Some(s.category)
    &&& ScopeStatus::from_name(row.status@) == Some(s.status)
    &&& s.authorized_by@ == row.authorized_by@
    &&& match row.authorized_until {
        Some(u) => s.authorized_until matches Some(t) && rfc3339_parse(u@) == Ok::<
            Timestamp,
            Seq<char>,
        >(t),
        None => s.authorized_until is None,
    }
    &&& rfc3339_parse(row.created_at@) == Ok::<Timestamp, Seq<char>>(s.created_at)
}

impl ScopeRow {
    /// Decodes the row: the scope entry when every column is valid,
    /// otherwise `InvalidRow` with the message of the first invalid column.
    pub fn into_domain(self) -> (r: Result<Scope, StorageError>)
        ensures
            match r {
                Ok(s) => scope_row_error(self) is None && scope_decodes_to(self, s),
                Err(e) => e matches StorageError::InvalidRow(m) && scope_row_error(self) == Some(
                    m@,
                ),
            },
    {
        let id = match parse_id(self.id.as_str(), "scope id: ") {
            Ok(u) => u,
            Err(e) => return Err(e),
        };
        let category = match ScopeCategory::parse(self.category.as_str()) {
            Some(c) => c,
            None => return Err(
                StorageError::InvalidRow(concat("scope category: ", self.category.as_str())),
            ),
        };
        let status = match ScopeStatus::parse(self.status.as_str()) {
            Some(st) => st,
            None => return Err(
                StorageError::InvalidRow(concat("scope status: ", self.status.as_str())),
            ),
        };
        let authorized_until = match &self.authorized_until {
            Some(u) => match parse_dt(u.as_str()) {
                Ok(t) => Some(t),
                Err(e) => return Err(e),
            },
            None => None,
        };
        let created_at = match parse_dt(self.created_at.as_str()) {
            Ok(t) => t,
            Err(e) => return Err(e),
        };
        Ok(
            Scope {
                id,
                pattern: self.pattern,
                category,
                status,
                authorized_by: self.authorized_by,
                authorized_until,
                created_at,
            },
        )
    }
}

/// Decodes the rows of an asset query in order: every asset when all rows
/// are valid, otherwise the error of the first invalid row.
pub fn assets_from_rows(rows: Vec<AssetRow>) -> (r: Result<Vec<Asset>, StorageError>)
    ensures
        match r {
            Ok(v) => v@.len() == rows@.len() && forall|i: int|
                0 <= i < rows@.len() ==> asset_row_error(#[trigger] rows@[i]) is None
                    && asset_decodes_to(rows@[i], v@[i]),
            Err(e) => exists|k: int|
                0 <= k < rows@.len() && (forall|j: int|
                    0 <= j < k ==> asset_row_error(#[trigger] rows@[j]) is None) && (e matches StorageError::InvalidRow(
                    m,
                ) && asset_row_error(#[trigger] rows@[k]) == Some(m@)),
        },
{
    let ghost all = rows@;
    let mut out: Vec<Asset> = Vec::new();
    for row in it: rows.into_iter()
        invariant
            it.seq() == all,
            out@.len() == it.index(),
            forall|i: int|
                0 <= i < it.index() ==> asset_row_error(#[trigger] all[i]) is None
                    && asset_decodes_to(all[i], out@[i]),
    {
        let ghost k = it.index();
        match row.into_domain() {
            Ok(a) => out.push(a),
            Err(e) => {
                assert(forall|j: int| 0 <= j < k ==> asset_row_error(#[trigger] all[j]) is None);
                return Err(e);
            },
        }
    }
    Ok(out)
}

/// Decodes the rows of a scope query in order: every entry when all rows
/// are valid, otherwise the error of the first invalid row.
pub fn scopes_from_rows(rows: Vec<ScopeRow>) -> (r: Result<Vec<Scope>, StorageError>)
    ensures
        match r {
            Ok(v) => v@.len() == rows@.len() && forall|i: int|
                0 <= i < rows@.len() ==> scope_row_error(#[trigger] rows@[i]) is None
                    && scope_decodes_to(rows@[i], v@[i]),
            Err(e) => exists|k: int|
                0 <= k < rows@.len() && (forall|j: int|
                    0 <= j < k ==> scope_row_error(#[trigger] rows@[j]) is None) && (e matches StorageError::InvalidRow(
                    m,
                ) && scope_row_error(#[trigger] rows@[k]) == Some(m@)),
        },
{
    let ghost all = rows@;
    let mut out: Vec<Scope> = Vec::new();
    for row in it: rows.into_iter()
        invariant
            it.seq() == all,
            out@.len() == it.index(),
            forall|i: int|
                0 <= i < it.index() ==> scope_row_error(#[trigger] all[i]) is None
                    && scope_decodes_to(all[i], out@[i]),
    {
        let ghost k = it.index();
        match row.into_domain() {
            Ok(s) => out.push(s),
            Err(e) => {
                assert(forall|j: int| 0 <= j < k ==> scope_row_error(#[trigger] all[j]) is None);
                return Err(e);
            },
        }
    }
    Ok(out)
}

/// `row` holds the columns `s` is written with: ids in hyphenated form,
/// enums by their stored text, timestamps in RFC 3339.
pub open spec fn scope_encodes_to(s: Scope, row: ScopeRow) -> bool {
    &&& row.id@ == uuid_hyphenated(s.id)
    &&& row.pattern@ == s.pattern@
    &&& row.category@ == s.category.name()
    &&& row.status@ == s.status.name()
    &&& row.authorized_by@ == s.authorized_by@
    &&& match s.authorized_until {
        Some(t) => row.authorized_until matches Some(text) && rfc3339_render(t) == Some(text@),
        None => row.authorized_until is None,
    }
    &&& rfc3339_render(s.created_at) == Some(row.created_at@)
}

/// `b` and `s` hold the same scope entry.
pub open spec fn same_scope(b: Scope, s: Scope) -> bool {
    b.id == s.id && b.pattern@ == s.pattern@ && b.category == s.category && b.status == s.status
        && b.authorized_by@ == s.authorized_by@ && b.authorized_until == s.authorized_until
        && b.created_at == s.created_at
}

/// Every timestamp of `s` is an instant chrono can represent.
pub open spec fn scope_times_representable(s: Scope) -> bool {
    utc_representable(s.created_at) && match s.authorized_until {
        Some(t) => utc_representable(t),
        None => true,
    }
}

/// Every timestamp of `s` lies in the years 0 to 9999.
pub open spec fn scope_times_four_digit(s: Scope) -> bool {
    four_digit_year(s.created_at) && match s.authorized_until {
        Some(t) => four_digit_year(t),
        None => true,
    }
}

impl ScopeRow {
    /// The row `s` is stored as; there is one exactly when every timestamp
    /// is an instant chrono can represent. When every timestamp lies in the
    /// years 0 to 9999, reading the row back gives the same entry.
    pub fn from_domain(s: &Scope) -> (r: Option<ScopeRow>)
        ensures
            r is Some <==> scope_times_representable(*s),
            match r {
                Some(row) => scope_encodes_to(*s, row) && (scope_times_four_digit(*s)
                    ==> scope_row_error(row) is None && forall|b: Scope| #[trigger]
                    scope_decodes_to(row, b) ==> same_scope(b, *s)),
                None => rfc3339_render(s.created_at) is None || (s.authorized_until matches Some(
                    t,
                ) && rfc3339_render(t) is None),
            },
    {
        let authorized_until = match s.authorized_until {
            Some(t) => match render_rfc3339(t) {
                Some(text) => Some(text),
                None => return None,
            },
            None => None,
        };
        let created_at = match render_rfc3339(s.created_at) {
            Some(t) => t,
            None => return None,
        };
        let row = ScopeRow {
            id: uuid_to_text(s.id),
            pattern: s.pattern.clone(),
            category: owned(s.category.as_str()),
            status: owned(s.status.as_str()),
            authorized_by: s.authorized_by.clone(),
            authorized_until,
            created_at,
        };
        proof {
            if scope_times_four_digit(*s) {
                assert forall|b: Scope| #[trigger] scope_decodes_to(row, b) implies same_scope(
                    b,
                    *s,
                ) by {
                    lemma_scope_row_round_trip(*s, row, b);
                }
                lemma_scope_row_round_trip(*s, row, *s);
            }
        }
        Some(row)
    }
}

/// Reading back the row a scope entry was written as gives that entry
/// again, provided its id parses back to its value and each timestamp's
/// RFC 3339 text parses back to its instant.
pub proof fn lemma_scope_row_round_trip(s: Scope, row: ScopeRow, b: Scope)
    requires
        scope_encodes_to(s, row),
        uuid_parse_str(row.id@) == Ok::<u128, Seq<char>>(s.id),
        row.authorized_until matches Some(text) ==> s.authorized_until matches Some(t)
            && rfc3339_parse(text@) == Ok::<Timestamp, Seq<char>>(t),
        rfc3339_parse(row.created_at@) == Ok::<Timestamp, Seq<char>>(s.created_at),
    ensures
        scope_row_error(row) is None,
        scope_decodes_to(row, b) ==> b.id == s.id && b.pattern@ == s.pattern@ && b.category
            == s.category && b.status == s.status && b.authorized_by@ == s.authorized_by@
            && b.authorized_until == s.authorized_until && b.created_at == s.created_at,
{
    lemma_scope_category_names(row.category@, s.category);
    lemma_scope_category_names(row.category@, b.category);
    lemma_scope_status_names(row.status@, s.status);
    lemma_scope_status_names(row.status@, b.status);
}

} // verus!
