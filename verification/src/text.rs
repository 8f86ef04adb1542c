//! Character-level string helpers shared by the matching and decoding code.
//!
//! ASCII case folding is modelled on code points: `ascii_fold` maps the
//! code point of an ASCII upper-case letter to that of its lower-case
//! counterpart and leaves every other code point as it is. Two strings are
//! an ASCII case-insensitive match exactly when their folded code-point
//! sequences are equal.

use vstd::prelude::*;

use crate::bindings::push_char;

verus! {

/// Code point of `c` after ASCII lower-casing.
pub open spec fn ascii_fold(c: char) -> u32 {
    if 'A' <= c && c <= 'Z' {
        (c as u32 + 32) as u32
    } else {
        c as u32
    }
}

/// Code points of `s` after ASCII lower-casing.
pub open spec fn fold(s: Seq<char>) -> Seq<u32> {
    s.map_values(|c: char| ascii_fold(c))
}

/// `n` copies of the character `'*'`.
pub open spec fn stars(n: nat) -> Seq<char> {
    Seq::new(n, |i: int| '*')
}

/// The characters of `s`, in order.
pub fn chars_of(s: &str) -> (v: Vec<char>)
    ensures
        v@ == s@,
{
    let mut v: Vec<char> = Vec::new();
    for c in it: s.chars()
        invariant
            v@ == it.seq().take(it.index() as int),
    {
        v.push(c);
    }
    v
}

/// A `String` holding the characters of `s`.
pub fn owned(s: &str) -> (r: String)
    ensures
        r@ == s@,
{
    s.to_owned()
}

/// Appends the characters of `t` to `s`.
pub fn append_str(s: &mut String, t: &str)
    ensures
        final(s)@ == old(s)@ + t@,
{
    let cs = chars_of(t);
    let ghost start = s@;
    let mut i: usize = 0;
    while i < cs.len()
        invariant
            i <= cs.len(),
            cs@ == t@,
            s@ == start + t@.take(i as int),
        decreases cs.len() - i,
    {
        push_char(s, cs[i]);
        assert(t@.take(i as int).push(t@[i as int]) =~= t@.take((i + 1) as int));
        i = i + 1;
    }
    assert(t@.take(i as int) =~= t@);
}

/// The concatenation of `a` and `b` as a new `String`.
pub fn concat(a: &str, b: &str) -> (r: String)
    ensures
        r@ == a@ + b@,
{
    let mut r = owned(a);
    append_str(&mut r, b);
    r
}

/// Code point of `c` after ASCII lower-casing.
pub fn fold_char(c: char) -> (r: u32)
    ensures
        r == ascii_fold(c),
{
    let u = c as u32;
    if 65 <= u && u <= 90 {
        u + 32
    } else {
        u
    }
}

/// Whether `a` and `b` agree on the `len` characters starting at
/// `a_start` and `b_start`, up to ASCII case.
pub fn fold_eq_range(a: &Vec<char>, a_start: usize, b: &Vec<char>, b_start: usize, len: usize) -> (r:
    bool)
    requires
        a_start + len <= a@.len(),
        b_start + len <= b@.len(),
    ensures
        r == (fold(a@.subrange(a_start as int, a_start + len)) == fold(
            b@.subrange(b_start as int, b_start + len),
        )),
{
    let ghost fa = fold(a@.subrange(a_start as int, a_start + len));
    let ghost fb = fold(b@.subrange(b_start as int, b_start + len));
    let mut i: usize = 0;
    while i < len
        invariant
            i <= len,
            a_start + len <= a.len(),
            b_start + len <= b.len(),
            fa == fold(a@.subrange(a_start as int, a_start + len)),
            fb == fold(b@.subrange(b_start as int, b_start + len)),
            forall|k: int| 0 <= k < i ==> fa[k] == fb[k],
        decreases len - i,
    {
        if fold_char(a[a_start + i]) != fold_char(b[b_start + i]) {
            assert(fa[i as int] != fb[i as int]);
            return false;
        }
        i = i + 1;
    }
    assert(fa =~= fb);
    true
}

/// Whether `a` and `b` are equal up to ASCII case.
pub fn fold_eq(a: &Vec<char>, b: &Vec<char>) -> (r: bool)
    ensures
        r == (fold(a@) == fold(b@)),
{
    if a.len() != b.len() {
        assert(fold(a@).len() != fold(b@).len());
        return false;
    }
    let r = fold_eq_range(a, 0, b, 0, a.len());
    assert(a@.subrange(0, a@.len() as int) =~= a@);
    assert(b@.subrange(0, b@.len() as int) =~= b@);
    r
}

/// Whether `a` and `b` hold the same characters.
pub fn chars_eq(a: &Vec<char>, b: &Vec<char>) -> (r: bool)
    ensures
        r == (a@ == b@),
{
    if a.len() != b.len() {
        return false;
    }
    let mut i: usize = 0;
    while i < a.len()
        invariant
            i <= a.len(),
            a.len() == b.len(),
            forall|k: int| 0 <= k < i ==> a@[k] == b@[k],
        decreases a.len() - i,
    {
        if a[i] != b[i] {
            return false;
        }
        i = i + 1;
    }
    assert(a@ =~= b@);
    true
}

/// Whether the strings `a` and `b` hold the same characters.
pub fn str_eq(a: &str, b: &str) -> (r: bool)
    ensures
        r == (a@ == b@),
{
    let va = chars_of(a);
    let vb = chars_of(b);
    chars_eq(&va, &vb)
}

/// Whether `c` occurs in `v`.
pub fn contains_char(v: &Vec<char>, c: char) -> (r: bool)
    ensures
        r == v@.contains(c),
{
    let mut i: usize = 0;
    while i < v.len()
        invariant
            i <= v.len(),
            forall|k: int| 0 <= k < i ==> v@[k] != c,
        decreases v.len() - i,
    {
        if v[i] == c {
            assert(v@[i as int] == c);
            return true;
        }
        i = i + 1;
    }
    false
}

} // verus!
