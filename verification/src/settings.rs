//! Resolved configuration, how secrets are shown, and how verbosity maps to
//! a log filter.

use vstd::prelude::*;
use vstd::string::StringSliceAdditionalSpecFns;
use vstd::utf8::{decode_utf8, encode_utf8, is_ascii_chars, is_char_boundary};

use crate::bindings::push_char;
use crate::text::{append_str, owned, stars};

verus! {

broadcast use {
    vstd::string::group_string_axioms,
    vstd::utf8::encode_utf8_decode_utf8,
    vstd::utf8::encode_utf8_valid_utf8,
    vstd::utf8::is_ascii_chars_encode_utf8,
};

/// Resolved configuration. No API key is ever bundled: it comes from the
/// config file or the environment.
#[derive(Debug, Clone)]
pub struct AppConfig {
    pub db_path: String,
    pub shodan_api_key: Option<String>,
}

/// The database path used when none is configured.
pub fn default_db_path() -> (r: String)
    ensures
        r@ == "mi.db"@,
{
    owned("mi.db")
}

/// What is shown of a secret whose UTF-8 encoding is `bytes`: one `*` per
/// byte when it has at most four bytes; otherwise one `*` per byte except
/// the last four, followed by the characters of those four bytes.
pub open spec fn masked(bytes: Seq<u8>) -> Seq<char> {
    if bytes.len() <= 4 {
        stars(bytes.len())
    } else {
        stars((bytes.len() - 4) as nat) + decode_utf8(
            bytes.subrange(bytes.len() - 4, bytes.len() as int),
        )
    }
}

/// A `String` of `n` stars.
fn star_string(n: usize) -> (r: String)
    ensures
        r@ == stars(n as nat),
{
    let mut r = String::new();
    let mut i: usize = 0;
    while i < n
        invariant
            i <= n,
            r@ == stars(i as nat),
        decreases n - i,
    {
        push_char(&mut r, '*');
        assert(stars(i as nat).push('*') =~= stars((i + 1) as nat));
        i = i + 1;
    }
    r
}

/// The secret `key` with all but its last four bytes replaced by `*`.
/// The key must not have a multi-byte character straddling its last four
/// bytes, where slicing it would panic.
pub fn mask(key: &str) -> (r: String)
    requires
        key.spec_bytes().len() <= 4 || is_char_boundary(
            key.spec_bytes(),
            key.spec_bytes().len() - 4,
        ),
    ensures
        r@ == masked(key.spec_bytes()),
{
    let n = key.as_bytes().len();
    if n <= 4 {
        star_string(n)
    } else {
        let mut r = star_string(n - 4);
        let (_, tail) = key.split_at(n - 4);
        assert(decode_utf8(tail.spec_bytes()) == tail@);
        append_str(&mut r, tail);
        r
    }
}

/// For an ASCII key, masking keeps the length and shows at most the last
/// four characters: every other character becomes `*`.
pub proof fn lemma_mask_of_ascii_key(key: Seq<char>)
    requires
        is_ascii_chars(key),
    ensures
        masked(encode_utf8(key)) == (if key.len() <= 4 {
            stars(key.len())
        } else {
            stars((key.len() - 4) as nat) + key.skip(key.len() - 4)
        }),
        masked(encode_utf8(key)).len() == key.len(),
{
    let bytes = encode_utf8(key);
    assert(bytes.len() == key.len());
    if key.len() > 4 {
        let tail = key.skip(key.len() - 4);
        assert(is_ascii_chars(tail));
        assert(encode_utf8(tail) =~= bytes.subrange(bytes.len() - 4, bytes.len() as int));
        assert(decode_utf8(encode_utf8(tail)) == tail);
    }
}

/// How the log filter is chosen.
#[derive(Debug, Clone, Copy, PartialEq, Eq)]
pub enum LogFilter {
    /// Use exactly this level.
    Fixed(&'static str),
    /// Use the filter from the environment if one is set, else this level.
    EnvOr(&'static str),
}

/// The level named by a `-v` count: none is "warn", one "info", two
/// "debug", more "trace".
pub open spec fn verbosity_level(verbose: u8) -> Seq<char> {
    if verbose == 0 {
        "warn"@
    } else if verbose == 1 {
        "info"@
    } else if verbose == 2 {
        "debug"@
    } else {
        "trace"@
    }
}

/// The log filter for a `-v` count and the `--quiet` flag: quiet always
/// means "error"; otherwise the environment decides, falling back to the
/// verbosity level.
pub fn log_filter(verbose: u8, quiet: bool) -> (r: LogFilter)
    ensures
        quiet ==> (r matches LogFilter::Fixed(l) && l@ == "error"@),
        !quiet ==> (r matches LogFilter::EnvOr(l) && l@ == verbosity_level(verbose)),
{
    if quiet {
        return LogFilter::Fixed("error");
    }
    let level = match verbose {
        0 => "warn",
        1 => "info",
        2 => "debug",
        _ => "trace",
    };
    LogFilter::EnvOr(level)
}

/// Each extra `-v` makes the log more verbose, up to "trace": no flag gives
/// "warn", one "info", two "debug", and three or more "trace".
pub proof fn lemma_verbosity_levels(verbose: u8)
    ensures
        verbose >= 3 ==> verbosity_level(verbose) == "trace"@,
        verbosity_level(0) == "warn"@,
        verbosity_level(1) == "info"@,
        verbosity_level(2) == "debug"@,
{
}

} // verus!
