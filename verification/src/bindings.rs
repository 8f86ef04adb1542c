//! The calls this library makes into the standard library and outside
//! crates. Each function here is trusted: Verus believes its contract and
//! does not read its body. The doc comment of each says what is claimed.

use vstd::prelude::*;

use crate::models::Timestamp;
use crate::net::IpNet;

verus! {

#[verifier::external_type_specification]
#[verifier::external_body]
pub struct ExJsonValue(serde_json::Value);

#[verifier::external_type_specification]
#[verifier::external_body]
pub struct ExSqlxError(sqlx::Error);

#[verifier::external_type_specification]
#[verifier::external_body]
pub struct ExMigrateError(sqlx::migrate::MigrateError);

#[verifier::external_type_specification]
#[verifier::external_body]
pub struct ExReqwestError(reqwest::Error);

#[verifier::external_type_specification]
#[verifier::external_body]
pub struct ExReqwestClient(reqwest::Client);

/// `serde_json::Value` derives `Clone`; claimed: the clone is the same value.
pub assume_specification[ <serde_json::Value as Clone>::clone ](v: &serde_json::Value) -> (r:
    serde_json::Value)
    ensures
        r == *v,
;

/// Appends one character to a `String`.
///
/// Trusted: `String::push` appends the given `char` to the end of the
/// string, as the standard library documents.
#[verifier::external_body]
pub(crate) fn push_char(s: &mut String, c: char)
    ensures
        final(s)@ == old(s)@.push(c),
{
    s.push(c);
}

/// What `<ipnetwork::IpNetwork as FromStr>::from_str` makes of a text: the
/// network, or `None` when the text is not a CIDR network.
pub uninterp spec fn ip_network_parse(s: Seq<char>) -> Option<IpNet>;

/// Calls `<ipnetwork::IpNetwork as FromStr>::from_str` on `s` and keeps the
/// address (as written, host bits included) and the prefix length.
/// Claimed: the result is the named `ip_network_parse` of the text, and its
/// prefix is at most 32 for IPv4 and 128 for IPv6, which
/// `Ipv4Network::new` and `Ipv6Network::new` check before returning; for a
/// text without `/` the prefix is the full width (32 or 128), since
/// `cidr_parts` then yields no prefix text and `from_str` defaults to it.
#[verifier::external_body]
pub(crate) fn parse_ip_network(s: &str) -> (r: Option<IpNet>)
    ensures
        r == ip_network_parse(s@),
        r matches Some(IpNet::V4 { prefix, .. }) ==> prefix <= 32,
        r matches Some(IpNet::V6 { prefix, .. }) ==> prefix <= 128,
        !s@.contains('/') ==> (r matches Some(IpNet::V4 { prefix, .. }) ==> prefix == 32),
        !s@.contains('/') ==> (r matches Some(IpNet::V6 { prefix, .. }) ==> prefix == 128),
{
    match s.parse::<ipnetwork::IpNetwork>() {
        Ok(ipnetwork::IpNetwork::V4(n)) => Some(IpNet::V4 { addr: u32::from(n.ip()), prefix: n.prefix() }),
        Ok(ipnetwork::IpNetwork::V6(n)) => Some(IpNet::V6 { addr: u128::from(n.ip()), prefix: n.prefix() }),
        Err(_) => None,
    }
}

/// What `uuid::Uuid::parse_str` makes of a text: the UUID as a big-endian
/// `u128`, or the text of the parse error.
pub uninterp spec fn uuid_parse_str(s: Seq<char>) -> Result<u128, Seq<char>>;

/// Calls `uuid::Uuid::parse_str` on `s`; a success is returned as the
/// big-endian `u128`, an error as its `Display` text. Claimed: the result
/// is the named `uuid_parse_str` of the text, a function of the text alone,
/// and the hyphenated form of a UUID reads back as that UUID, as the
/// documentation promises for every format the crate writes.
#[verifier::external_body]
pub(crate) fn parse_uuid(s: &str) -> (r: Result<u128, String>)
    ensures
        match r {
            Ok(u) => uuid_parse_str(s@) == Ok::<u128, Seq<char>>(u) && forall|v: u128|
                #![trigger uuid_hyphenated(v)]
                s@ == uuid_hyphenated(v) ==> v == u,
            Err(m) => uuid_parse_str(s@) == Err::<u128, Seq<char>>(m@) && forall|v: u128|
                #![trigger uuid_hyphenated(v)]
                s@ != uuid_hyphenated(v),
        },
{
    match uuid::Uuid::parse_str(s) {
        Ok(u) => Ok(u.as_u128()),
        Err(e) => Err(e.to_string()),
    }
}

/// The lower-case hexadecimal digit for `d` (0 to 15).
pub open spec fn hex_digit(d: int) -> char {
    if d < 10 {
        digit_of(d)
    } else if d == 10 {
        'a'
    } else if d == 11 {
        'b'
    } else if d == 12 {
        'c'
    } else if d == 13 {
        'd'
    } else if d == 14 {
        'e'
    } else {
        'f'
    }
}

/// The decimal digit character for `d` (0 to 9).
pub open spec fn digit_of(d: int) -> char {
    if d == 0 {
        '0'
    } else if d == 1 {
        '1'
    } else if d == 2 {
        '2'
    } else if d == 3 {
        '3'
    } else if d == 4 {
        '4'
    } else if d == 5 {
        '5'
    } else if d == 6 {
        '6'
    } else if d == 7 {
        '7'
    } else if d == 8 {
        '8'
    } else {
        '9'
    }
}

/// The `k`-th hexadecimal digit (0 is the most significant) of `u`.
pub open spec fn nibble(u: u128, k: int) -> int {
    ((u >> ((124 - 4 * k) as u128)) & 0xfu128) as int
}

/// The hyphenated lower-case form of a UUID, 8-4-4-4-12 hexadecimal digits:
/// "00000000-0000-0000-0000-00000000002a" for 42.
pub open spec fn uuid_hyphenated(u: u128) -> Seq<char> {
    Seq::new(
        36,
        |i: int|
            if i == 8 || i == 13 || i == 18 || i == 23 {
                '-'
            } else {
                hex_digit(
                    nibble(
                        u,
                        i - if i < 8 {
                            0int
                        } else if i < 13 {
                            1int
                        } else if i < 18 {
                            2int
                        } else if i < 23 {
                            3int
                        } else {
                            4int
                        },
                    ),
                )
            },
    )
}

/// Calls `uuid::Uuid::from_u128(u).to_string()`. Claimed: the text is the
/// hyphenated lower-case form (`Display` forwards to `LowerHex`, which
/// formats `as_hyphenated`), and `Uuid::parse_str` reads that text back as
/// `u`, as its documentation promises for every format the crate writes.
#[verifier::external_body]
pub(crate) fn uuid_to_text(u: u128) -> (r: String)
    ensures
        r@ == uuid_hyphenated(u),
        match uuid_parse_str(r@) {
            Ok(v) => v == u,
            Err(_) => false,
        },
{
    uuid::Uuid::from_u128(u).to_string()
}

/// The instant lies in the years 0 to 9999 (UTC).
pub open spec fn four_digit_year(t: Timestamp) -> bool {
    -62_167_219_200 <= t.secs && t.secs <= 253_402_300_799
}

/// The instant is one `chrono::DateTime::from_timestamp` accepts: a day
/// count (`secs` divided by 86,400, rounded down) within the dates
/// -262143-01-01 to +262142-12-31, and fewer than 1,000,000,000
/// nanoseconds, or fewer than 2,000,000,000 in the last second of a minute
/// (a leap second).
pub open spec fn utc_representable(t: Timestamp) -> bool {
    &&& -8_334_601_228_800 <= t.secs <= 8_210_266_876_799
    &&& (t.nanos < 1_000_000_000 || (t.nanos < 2_000_000_000 && t.secs % 60 == 59))
}

/// What `chrono::DateTime::<Utc>::to_rfc3339` writes for an instant, or
/// `None` when `DateTime::from_timestamp` cannot represent it.
pub uninterp spec fn rfc3339_render(t: Timestamp) -> Option<Seq<char>>;

/// Builds the UTC `DateTime` of `t` with `DateTime::from_timestamp` and
/// writes it with `to_rfc3339`. Claimed: there is a text exactly when the
/// instant is `utc_representable` (`from_timestamp` returns `None` only for
/// a day count outside `i32` or the supported dates, or for nanoseconds
/// that `NaiveTime::from_num_seconds_from_midnight_opt` refuses, and
/// `to_rfc3339` always writes); the text is the named
/// `rfc3339_render` of the instant, and, for years 0 to 9999 only, that
/// `parse_from_rfc3339` reads the text back to the same instant: there
/// `write_rfc3339` writes a four-digit year, the time with a leap second as
/// second 60, the fraction with 0, 3, 6 or 9 digits and the offset
/// `+00:00`, and `parse_rfc3339` reads each of these back (second 60 as 59
/// plus one second of nanoseconds); other years are written with a sign,
/// which the parser refuses.
#[verifier::external_body]
pub(crate) fn render_rfc3339(t: Timestamp) -> (r: Option<String>)
    ensures
        r is Some <==> utc_representable(t),
        match r {
            Some(s) => rfc3339_render(t) == Some(s@) && (four_digit_year(t) ==> rfc3339_parse(s@)
                == Ok::<Timestamp, Seq<char>>(t)),
            None => rfc3339_render(t) is None,
        },
{
    match chrono::DateTime::from_timestamp(t.secs, t.nanos) {
        Some(d) => Some(d.to_rfc3339()),
        None => None,
    }
}

/// What `chrono::DateTime::parse_from_rfc3339` makes of a text, taken to
/// UTC: the instant, or the text of the parse error.
pub uninterp spec fn rfc3339_parse(s: Seq<char>) -> Result<Timestamp, Seq<char>>;

/// Calls `chrono::DateTime::parse_from_rfc3339` on `s` and converts a
/// success to UTC seconds and sub-second nanoseconds, an error to its
/// `Display` text. Claimed: the result is the named `rfc3339_parse` of the
/// text, and a parsed instant has fewer than 2,000,000,000 nanoseconds, as
/// chrono documents for `timestamp_subsec_nanos`.
#[verifier::external_body]
pub(crate) fn parse_rfc3339(s: &str) -> (r: Result<Timestamp, String>)
    ensures
        match r {
            Ok(t) => rfc3339_parse(s@) == Ok::<Timestamp, Seq<char>>(t) && t.nanos < 2_000_000_000,
            Err(m) => rfc3339_parse(s@) == Err::<Timestamp, Seq<char>>(m@),
        },
{
    match chrono::DateTime::parse_from_rfc3339(s) {
        Ok(d) => {
            let u = d.with_timezone(&chrono::Utc);
            Ok(Timestamp { secs: u.timestamp(), nanos: u.timestamp_subsec_nanos() })
        },
        Err(e) => Err(e.to_string()),
    }
}

/// What `http::StatusCode::canonical_reason` gives for a status code: the
/// reason phrase of a registered code, `None` otherwise (also for codes
/// outside 100..=999, which are not status codes).
pub uninterp spec fn http_canonical_reason(code: u16) -> Option<Seq<char>>;

/// Calls `StatusCode::from_u16(code)` and, for a valid code, its
/// `canonical_reason`. Claimed: the result is the named
/// `http_canonical_reason` of the code.
#[verifier::external_body]
pub(crate) fn canonical_reason(code: u16) -> (r: Option<&'static str>)
    ensures
        match r {
            Some(t) => http_canonical_reason(code) == Some(t@),
            None => http_canonical_reason(code) is None,
        },
{
    match reqwest::StatusCode::from_u16(code) {
        Ok(status) => status.canonical_reason(),
        Err(_) => None,
    }
}

/// What `serde_json::Value::get(key)` followed by `as_str` finds in `v`:
/// the text of member `key` when `v` is an object whose member `key` is a
/// string, `None` otherwise.
pub uninterp spec fn json_text_member(v: serde_json::Value, key: Seq<char>) -> Option<Seq<char>>;

/// Calls `Value::get(key)` and, on a member, `Value::as_str`, copying the
/// text. Claimed: the result is the named `json_text_member` of `v` and `key`.
#[verifier::external_body]
pub(crate) fn json_str_member(v: &serde_json::Value, key: &str) -> (r: Option<String>)
    ensures
        match r {
            Some(t) => json_text_member(*v, key@) == Some(t@),
            None => json_text_member(*v, key@) is None,
        },
{
    match v.get(key) {
        Some(member) => match member.as_str() {
            Some(t) => Some(t.to_string()),
            None => None,
        },
        None => None,
    }
}

/// What `serde_json::Value::get(key)` followed by `as_i64` finds in `v`: the
/// integer of member `key` when it is a number that fits an `i64`.
pub uninterp spec fn json_int_member(v: serde_json::Value, key: Seq<char>) -> Option<i64>;

/// Calls `Value::get(key)` and, on a member, `Value::as_i64`. Claimed: the
/// result is the named `json_int_member` of `v` and `key`.
#[verifier::external_body]
pub(crate) fn json_i64_member(v: &serde_json::Value, key: &str) -> (r: Option<i64>)
    ensures
        r == json_int_member(*v, key@),
{
    match v.get(key) {
        Some(member) => member.as_i64(),
        None => None,
    }
}

/// What `serde_json::Value::get(key)` followed by `as_array` finds in `v`:
/// the elements of member `key` when it is an array.
pub uninterp spec fn json_array_member(v: serde_json::Value, key: Seq<char>) -> Option<
    Seq<serde_json::Value>,
>;

/// Calls `Value::get(key)` and, on a member, `Value::as_array`, cloning the
/// elements. Claimed: the result is the named `json_array_member` of `v` and
/// `key`.
#[verifier::external_body]
pub(crate) fn json_array_of(v: &serde_json::Value, key: &str) -> (r: Option<Vec<serde_json::Value>>)
    ensures
        match r {
            Some(a) => json_array_member(*v, key@) == Some(a@),
            None => json_array_member(*v, key@) is None,
        },
{
    match v.get(key) {
        Some(member) => match member.as_array() {
            Some(items) => Some(items.clone()),
            None => None,
        },
        None => None,
    }
}

/// What `serde_json::Value::get(key)` finds in `v`: member `key` when `v` is
/// an object that has it.
pub uninterp spec fn json_member(v: serde_json::Value, key: Seq<char>) -> Option<serde_json::Value>;

/// Calls `Value::get(key)` and clones the member. Claimed: the result is the
/// named `json_member` of `v` and `key`.
#[verifier::external_body]
pub(crate) fn json_get(v: &serde_json::Value, key: &str) -> (r: Option<serde_json::Value>)
    ensures
        r == json_member(*v, key@),
{
    match v.get(key) {
        Some(member) => Some(member.clone()),
        None => None,
    }
}

/// The compact JSON text `serde_json` writes for `v` with `Display`.
pub uninterp spec fn json_text(v: serde_json::Value) -> Seq<char>;

/// Calls `Value::to_string`. Claimed: the result is the named `json_text`
/// of `v`.
#[verifier::external_body]
pub(crate) fn json_to_text(v: &serde_json::Value) -> (r: String)
    ensures
        r@ == json_text(*v),
{
    v.to_string()
}

} // verus!
