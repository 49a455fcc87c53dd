//! Character-level helpers over `&str` and `String`: suffix and prefix tests,
//! the case-insensitive match for the flattenable directory name, and the
//! exclusion predicate applied to file names during resolution.
use vstd::prelude::*;
use vstd::string::*;

verus! {

/// True when `suffix` is a suffix of `s`.
pub open spec fn spec_ends_with(s: Seq<char>, suffix: Seq<char>) -> bool {
    s.len() >= suffix.len() && s.subrange(s.len() - suffix.len(), s.len() as int) == suffix
}

/// True when `prefix` is a prefix of `s`.
pub open spec fn spec_starts_with(s: Seq<char>, prefix: Seq<char>) -> bool {
    s.len() >= prefix.len() && s.subrange(0, prefix.len() as int) == prefix
}

/// True when the file name `s` has extension `ext`: a dot right before the
/// final `ext.len()` characters, and at least one character before the dot
/// (a leading dot starts a hidden file, not an extension).
pub open spec fn spec_has_extension(s: Seq<char>, ext: Seq<char>) -> bool {
    s.len() >= ext.len() + 2 && s[s.len() - ext.len() - 1] == '.' && s.subrange(
        s.len() - ext.len(),
        s.len() as int,
    ) == ext
}

/// The resolver's exclusion rule: macOS metadata files and the two
/// archive/manifest extensions that must never be copied.
pub open spec fn spec_excluded(name: Seq<char>) -> bool {
    spec_ends_with(name, ".DS_Store"@) || spec_has_extension(name, "acf"@)
        || spec_has_extension(name, "bsa"@)
}

/// ASCII-case-insensitive match against the directory name `data`.
pub open spec fn spec_is_data_name(s: Seq<char>) -> bool {
    s.len() == 4 && (s[0] == 'd' || s[0] == 'D') && (s[1] == 'a' || s[1] == 'A') && (s[2] == 't'
        || s[2] == 'T') && (s[3] == 'a' || s[3] == 'A')
}

/// Compares the last `suffix.len()` characters of `s` against `suffix`.
fn suffix_matches(s: &str, suffix: &str) -> (r: bool)
    requires
        suffix@.len() <= s@.len(),
    ensures
        r == (s@.subrange(s@.len() - suffix@.len(), s@.len() as int) == suffix@),
{
    let n: usize = s.unicode_len();
    let m: usize = suffix.unicode_len();
    let off: usize = n - m;
    let mut j: usize = 0;
    while j < m
        invariant
            m <= n,
            off == n - m,
            n == s@.len(),
            m == suffix@.len(),
            j <= m,
            forall|k: int| 0 <= k < j ==> s@[off + k] == suffix@[k],
        decreases m - j,
    {
        if s.get_char(off + j) != suffix.get_char(j) {
            assert(s@.subrange(off as int, n as int)[j as int] != suffix@[j as int]);
            return false;
        }
        j += 1;
    }
    assert(s@.subrange(off as int, n as int) =~= suffix@);
    true
}

/// True when `suffix` is a suffix of the characters of `s`.
pub fn str_ends_with(s: &str, suffix: &str) -> (r: bool)
    ensures
        r == spec_ends_with(s@, suffix@),
{
    if suffix.unicode_len() > s.unicode_len() {
        return false;
    }
    suffix_matches(s, suffix)
}

/// True when `prefix` is a prefix of the characters of `s`.
pub fn str_starts_with(s: &str, prefix: &str) -> (r: bool)
    ensures
        r == spec_starts_with(s@, prefix@),
{
    let n: usize = s.unicode_len();
    let m: usize = prefix.unicode_len();
    if m > n {
        return false;
    }
    let mut j: usize = 0;
    while j < m
        invariant
            m <= n,
            n == s@.len(),
            m == prefix@.len(),
            j <= m,
            forall|k: int| 0 <= k < j ==> s@[k] == prefix@[k],
        decreases m - j,
    {
        if s.get_char(j) != prefix.get_char(j) {
            assert(s@.subrange(0, m as int)[j as int] != prefix@[j as int]);
            return false;
        }
        j += 1;
    }
    assert(s@.subrange(0, m as int) =~= prefix@);
    true
}

/// True when the file name `s` has extension `ext`.
pub fn has_extension(s: &str, ext: &str) -> (r: bool)
    ensures
        r == spec_has_extension(s@, ext@),
{
    let n: usize = s.unicode_len();
    let m: usize = ext.unicode_len();
    if n < m || n - m < 2 {
        return false;
    }
    if s.get_char(n - m - 1) != '.' {
        return false;
    }
    suffix_matches(s, ext)
}

/// Applies the exclusion rule to one file name.
pub fn excluded(name: &str) -> (r: bool)
    ensures
        r == spec_excluded(name@),
{
    str_ends_with(name, ".DS_Store") || has_extension(name, "acf") || has_extension(name, "bsa")
}

/// ASCII-case-insensitive test of a directory name against `data`.
pub fn is_data_name(s: &str) -> (r: bool)
    ensures
        r == spec_is_data_name(s@),
{
    if s.unicode_len() != 4 {
        return false;
    }
    let c0 = s.get_char(0);
    let c1 = s.get_char(1);
    let c2 = s.get_char(2);
    let c3 = s.get_char(3);
    (c0 == 'd' || c0 == 'D') && (c1 == 'a' || c1 == 'A') && (c2 == 't' || c2 == 'T') && (c3 == 'a'
        || c3 == 'A')
}

/// Relies on `String::push`: appends the given character to the end of the
/// string.
#[verifier::external_body]
pub(crate) fn push_char(s: &mut String, c: char)
    ensures
        final(s)@ == old(s)@.push(c),
{
    s.push(c)
}

} // verus!
