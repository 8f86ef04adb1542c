//! The scope guard's decisions: which registry entries match a target,
//! whether a target may be contacted, and how a new entry is formed.
//! Every network-touching action must be authorized here first.

use vstd::prelude::*;

use crate::bindings::{ip_network_parse, parse_rfc3339, parse_uuid, rfc3339_parse, uuid_parse_str};
use crate::models::{uuid_v4_from_random, Scope, ScopeStatus, Timestamp};
use crate::net::{
    category_of, contains, infer_category, ip_addr_parse, is_private_address, is_private_target,
    lemma_private_v4_ranges, lemma_v4_net_contains_same_top_bits, net_contains, parse_ip_addr,
    parse_network, IpAddress, IpNet,
};
use crate::storage::StorageError;
use crate::text::{ascii_fold, chars_of, contains_char, fold, fold_char, fold_eq, fold_eq_range};

verus! {

/// Why the scope guard refused.
#[derive(Debug)]
pub enum ScopeError {
    /// No registry entry authorizes the target.
    NotAuthorized { target: String },
    /// The registry could not be read.
    Storage(StorageError),
}

/// The pattern has the wildcard form `*.<base>`.
pub open spec fn is_wildcard(pattern: Seq<char>) -> bool {
    pattern.len() >= 2 && pattern[0] == '*' && pattern[1] == '.'
}

/// Folded `target` equals folded `base`, or ends with `.` followed by it.
pub open spec fn is_base_or_subdomain(target: Seq<u32>, base: Seq<u32>) -> bool {
    target == base || (target.len() > base.len() && target[target.len() - base.len() - 1]
        == 46u32 && target.subrange(target.len() - base.len(), target.len() as int) == base)
}

/// A scope pattern matches a target when
///   - they are equal up to ASCII case ("example.com" matches "EXAMPLE.com");
///   - the pattern is `*.<base>` and the target, up to ASCII case, is `<base>`
///     or ends with `.<base>` ("*.example.com" matches "api.example.com"
///     and "example.com");
///   - the pattern holds `/`, parses as a CIDR network, and the target is an
///     IP address inside it ("203.0.113.0/24" matches "203.0.113.5").
pub open spec fn pattern_matches(pattern: Seq<char>, target: Seq<char>) -> bool {
    if fold(pattern) == fold(target) {
        true
    } else if is_wildcard(pattern) {
        is_base_or_subdomain(fold(target), fold(pattern.skip(2)))
    } else if pattern.contains('/') {
        match (ip_network_parse(pattern), ip_addr_parse(target)) {
            (Some(n), Some(a)) => net_contains(n, a),
            _ => false,
        }
    } else {
        false
    }
}

/// Whether the scope pattern `pattern` matches `target`.
pub fn scope_matches(pattern: &str, target: &str) -> (r: bool)
    ensures
        r == pattern_matches(pattern@, target@),
{
    let p = chars_of(pattern);
    let t = chars_of(target);
    if fold_eq(&p, &t) {
        return true;
    }
    if p.len() >= 2 && p[0] == '*' && p[1] == '.' {
        let blen = p.len() - 2;
        let ghost base = fold(p@.skip(2));
        let ghost ft = fold(t@);
        assert(p@.skip(2) =~= p@.subrange(2, 2 + blen));
        assert(t@.subrange(0, t@.len() as int) =~= t@);
        if t.len() == blen && fold_eq_range(&p, 2, &t, 0, blen) {
            return true;
        }
        if t.len() != blen {
            assert(ft.len() != base.len());
        }
        if t.len() > blen {
            let start = t.len() - blen;
            assert(ft.subrange(start as int, ft.len() as int) =~= fold(
                t@.subrange(start as int, start + blen),
            ));
            if fold_char(t[start - 1]) == 46 && fold_eq_range(&t, start, &p, 2, blen) {
                return true;
            }
        }
        return false;
    }
    if contains_char(&p, '/') {
        match (parse_network(pattern), parse_ip_addr(target)) {
            (Some(n), Some(a)) => contains(n, a),
            _ => false,
        }
    } else {
        false
    }
}

/// The entry `s` authorizes `target` at time `now`: it is in scope, has not
/// expired (its expiry, if any, is strictly later than `now`), and its
/// pattern matches the target.
pub open spec fn entry_authorizes(s: Scope, target: Seq<char>, now: Timestamp) -> bool {
    &&& s.status == ScopeStatus::InScope
    &&& match s.authorized_until {
        Some(until) => until.is_after(now),
        None => true,
    }
    &&& pattern_matches(s.pattern@, target)
}

/// Some entry of the registry authorizes `target` at `now`.
pub open spec fn registry_authorizes(scopes: Seq<Scope>, target: Seq<char>, now: Timestamp) -> bool {
    exists|i: int| 0 <= i < scopes.len() && entry_authorizes(#[trigger] scopes[i], target, now)
}

/// `target` may be contacted at `now`: it is a private address, or the
/// registry authorizes it.
pub open spec fn target_authorized(target: Seq<char>, scopes: Seq<Scope>, now: Timestamp) -> bool {
    is_private_address(target) || registry_authorizes(scopes, target, now)
}

/// Whether the entry `s` authorizes `target` at `now`.
pub fn authorizes(s: &Scope, target: &str, now: &Timestamp) -> (r: bool)
    ensures
        r == entry_authorizes(*s, target@, *now),
{
    s.status == ScopeStatus::InScope && match &s.authorized_until {
        Some(until) => until.after(now),
        None => true,
    } && scope_matches(s.pattern.as_str(), target)
}

/// The scope guard's decision for `target` at `now`, given the registry
/// entries `scopes`: `Ok` when the target is private or some entry
/// authorizes it, otherwise `NotAuthorized` naming the target.
pub fn check_target(target: &str, scopes: &Vec<Scope>, now: Timestamp) -> (r: Result<(), ScopeError>)
    ensures
        r is Ok <==> target_authorized(target@, scopes@, now),
        r matches Err(e) ==> (e matches ScopeError::NotAuthorized { target: t } && t@ == target@),
{
    if is_private_target(target) {
        return Ok(());
    }
    let mut i: usize = 0;
    while i < scopes.len()
        invariant
            i <= scopes.len(),
            !is_private_address(target@),
            forall|k: int| 0 <= k < i ==> !entry_authorizes(#[trigger] scopes@[k], target@, now),
        decreases scopes.len() - i,
    {
        if authorizes(&scopes[i], target, &now) {
            assert(entry_authorizes(scopes@[i as int], target@, now));
            return Ok(());
        }
        i = i + 1;
    }
    Err(ScopeError::NotAuthorized { target: target.to_owned() })
}

/// The registry entry that registering `pattern` at `now` creates: its
/// category is inferred from the pattern, it is in scope, it expires at
/// `until` unless `no_expiry` asks for a standing entry, and its id is the
/// version-4 UUID made from `random`.
pub fn new_scope_entry(
    pattern: &str,
    authorized_by: &str,
    no_expiry: bool,
    until: Option<Timestamp>,
    now: Timestamp,
    random: u128,
) -> (s: Scope)
    ensures
        s.id == uuid_v4_from_random(random),
        s.created_at == now,
        s.pattern@ == pattern@,
        s.category == category_of(pattern@),
        s.status == ScopeStatus::InScope,
        s.authorized_by@ == authorized_by@,
        s.authorized_until == (if no_expiry {
            None
        } else {
            until
        }),
{
    let category = infer_category(pattern);
    let expiry = if no_expiry {
        None
    } else {
        until
    };
    Scope::new(pattern, category, authorized_by, expiry, now, random)
}

/// The expiry given on the command line: none when absent, otherwise the
/// RFC 3339 text taken to UTC, or the parser's error text.
pub fn parse_expiry(until: Option<&str>) -> (r: Result<Option<Timestamp>, String>)
    ensures
        match until {
            None => r == Ok::<Option<Timestamp>, String>(None),
            Some(s) => match rfc3339_parse(s@) {
                Ok(t) => r == Ok::<Option<Timestamp>, String>(Some(t)),
                Err(e) => r matches Err(m) && m@ == e,
            },
        },
{
    match until {
        None => Ok(None),
        Some(s) => match parse_rfc3339(s) {
            Ok(t) => Ok(Some(t)),
            Err(e) => Err(e),
        },
    }
}

/// The registry entry id given on the command line, or the parser's error
/// text.
pub fn parse_scope_id(id: &str) -> (r: Result<u128, String>)
    ensures
        match uuid_parse_str(id@) {
            Ok(u) => r == Ok::<u128, String>(u),
            Err(e) => r matches Err(m) && m@ == e,
        },
{
    parse_uuid(id)
}

/// Private, loopback and link-local addresses are authorized whatever the
/// registry holds and whenever the check runs.
pub proof fn lemma_private_targets_need_no_scope(target: Seq<char>, scopes: Seq<Scope>, now: Timestamp)
    requires
        is_private_address(target),
    ensures
        target_authorized(target, scopes, now),
{
}

/// Adding an entry to the registry never revokes an authorization.
pub proof fn lemma_adding_entry_keeps_authorization(
    target: Seq<char>,
    scopes: Seq<Scope>,
    entry: Scope,
    now: Timestamp,
)
    requires
        target_authorized(target, scopes, now),
    ensures
        target_authorized(target, scopes.push(entry), now),
{
    if !is_private_address(target) {
        let i = choose|i: int| 0 <= i < scopes.len() && entry_authorizes(#[trigger] scopes[i], target, now);
        assert(scopes.push(entry)[i] == scopes[i]);
    }
}

/// An out-of-scope entry authorizes nothing: adding one leaves every
/// decision as it was.
pub proof fn lemma_out_of_scope_entry_changes_nothing(
    target: Seq<char>,
    scopes: Seq<Scope>,
    entry: Scope,
    now: Timestamp,
)
    requires
        entry.status == ScopeStatus::OutOfScope,
    ensures
        target_authorized(target, scopes.push(entry), now) == target_authorized(target, scopes, now),
{
    let grown = scopes.push(entry);
    if registry_authorizes(grown, target, now) {
        let i = choose|i: int| 0 <= i < grown.len() && entry_authorizes(#[trigger] grown[i], target, now);
        assert(i < scopes.len());
        assert(grown[i] == scopes[i]);
    }
    if registry_authorizes(scopes, target, now) {
        let i = choose|i: int| 0 <= i < scopes.len() && entry_authorizes(#[trigger] scopes[i], target, now);
        assert(grown[i] == scopes[i]);
    }
}

/// Authorization only lapses as time passes: a target authorized at `later`
/// was authorized at every earlier time as well.
pub proof fn lemma_expiry_only_revokes(
    target: Seq<char>,
    scopes: Seq<Scope>,
    earlier: Timestamp,
    later: Timestamp,
)
    requires
        !earlier.is_after(later),
        target_authorized(target, scopes, later),
    ensures
        target_authorized(target, scopes, earlier),
{
    if !is_private_address(target) {
        let i = choose|i: int| 0 <= i < scopes.len() && entry_authorizes(#[trigger] scopes[i], target, later);
        assert(entry_authorizes(scopes[i], target, earlier));
    }
}

/// A pattern matches every target equal to it up to ASCII case; in
/// particular every pattern matches itself.
pub proof fn lemma_match_ignores_ascii_case(pattern: Seq<char>, target: Seq<char>)
    requires
        fold(pattern) == fold(target),
    ensures
        pattern_matches(pattern, target),
        pattern_matches(pattern, pattern),
{
}

/// `*.<base>` matches `<base>` itself and every `<label>.<base>`.
pub proof fn lemma_wildcard_matches_base_and_subdomains(base: Seq<char>, label: Seq<char>)
    ensures
        pattern_matches(seq!['*', '.'] + base, base),
        pattern_matches(seq!['*', '.'] + base, label + seq!['.'] + base),
{
    let p = seq!['*', '.'] + base;
    assert(p.skip(2) =~= base);
    let t = label + seq!['.'] + base;
    let ft = fold(t);
    let fb = fold(base);
    assert(ft.subrange(ft.len() - fb.len(), ft.len() as int) =~= fb);
    assert(ft[ft.len() - fb.len() - 1] == ascii_fold(t[label.len() as int]));
}

/// A new entry authorizes its own pattern until it expires.
pub proof fn lemma_new_entry_authorizes_its_pattern(entry: Scope, now: Timestamp)
    requires
        entry.status == ScopeStatus::InScope,
        match entry.authorized_until {
            Some(until) => until.is_after(now),
            None => true,
        },
    ensures
        entry_authorizes(entry, entry.pattern@, now),
        target_authorized(entry.pattern@, seq![entry], now),
{
    assert(seq![entry][0] == entry);
}

/// An entry authorizes nothing once its expiry has been reached, whatever
/// its category or pattern: an entry that authorizes anything at `now` has
/// an expiry, if any, strictly later than `now` (later seconds, or the same
/// second and more nanoseconds).
pub proof fn lemma_expired_entry_authorizes_nothing(s: Scope, target: Seq<char>, now: Timestamp)
    ensures
        entry_authorizes(s, target, now) ==> s.status == ScopeStatus::InScope,
        entry_authorizes(s, target, now) && s.authorized_until is Some ==> ({
            let u = s.authorized_until->Some_0;
            u.secs > now.secs || (u.secs == now.secs && u.nanos > now.nanos)
        }),
{
}

/// With a registry whose only entries have expired, a public target is
/// refused: only private, loopback and link-local addresses pass.
pub proof fn lemma_expired_registry_trusts_only_private(
    target: Seq<char>,
    scopes: Seq<Scope>,
    now: Timestamp,
)
    requires
        forall|i: int|
            0 <= i < scopes.len() ==> ((#[trigger] scopes[i]).authorized_until matches Some(u)
                && !(u.secs > now.secs || (u.secs == now.secs && u.nanos > now.nanos))),
    ensures
        target_authorized(target, scopes, now) <==> is_private_address(target),
{
    if registry_authorizes(scopes, target, now) {
        let i = choose|i: int| 0 <= i < scopes.len() && entry_authorizes(#[trigger] scopes[i], target, now);
        lemma_expired_entry_authorizes_nothing(scopes[i], target, now);
    }
}

/// With an empty registry exactly the auto-trusted targets pass: an IPv4
/// target only inside 10.0.0.0/8, 172.16.0.0/12, 192.168.0.0/16,
/// 127.0.0.0/8 or 169.254.0.0/16 (so 192.30.255.113 is refused).
pub proof fn lemma_empty_registry_trusts_only_private(target: Seq<char>, a: u32, now: Timestamp)
    requires
        ip_addr_parse(target) == Some(IpAddress::V4(a)),
    ensures
        target_authorized(target, Seq::<Scope>::empty(), now) <==> (0x0a00_0000 <= a <= 0x0aff_ffff
            || 0xac10_0000 <= a <= 0xac1f_ffff || 0xc0a8_0000 <= a <= 0xc0a8_ffff || 0x7f00_0000
            <= a <= 0x7fff_ffff || 0xa9fe_0000 <= a <= 0xa9fe_ffff),
{
    lemma_private_v4_ranges(target, a);
}

/// A CIDR pattern matches an address target exactly when the network holds
/// the address: in particular a `/32` pattern matches only its own IPv4
/// address, and a `/0` pattern every IPv4 address. (A CIDR pattern starts
/// with a digit, a hex digit or a colon, never with the wildcard `*`.)
pub proof fn lemma_cidr_pattern_matches_addresses_in_network(
    pattern: Seq<char>,
    target: Seq<char>,
    addr: u32,
    prefix: u8,
    a: u32,
)
    requires
        pattern.contains('/'),
        pattern[0] != '*',
        ip_network_parse(pattern) == Some(IpNet::V4 { addr, prefix }),
        prefix <= 32,
        ip_addr_parse(target) == Some(IpAddress::V4(a)),
    ensures
        pattern_matches(pattern, target) <==> ((a as u64) >> ((32 - prefix) as u64)) == ((
        addr as u64) >> ((32 - prefix) as u64)),
        prefix == 32 ==> (pattern_matches(pattern, target) <==> a == addr),
{
    lemma_v4_net_contains_same_top_bits(addr, prefix, a);
    assert(!target.contains('/'));
    let k = choose|k: int| 0 <= k < pattern.len() && pattern[k] == '/';
    if fold(pattern) == fold(target) {
        assert(fold(target).len() == target.len());
        assert(fold(pattern)[k] == ascii_fold(pattern[k]));
        assert(fold(target)[k] == ascii_fold(target[k]));
        assert(ascii_fold(target[k]) == 47u32);
        assert(target[k] as u32 == 47u32);
        vstd::utf8::char_u32_cast(target[k], 47u32);
        vstd::utf8::char_u32_cast('/', 47u32);
        assert(target[k] == '/');
    }
}

} // verus!
