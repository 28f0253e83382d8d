//! A small checker for one-line print statements, and the argument parsing of
//! the command-line tool that runs it on a file.
use vstd::prelude::*;

verus! {

/// The search query and the path of the file to check.
pub struct Config {
    pub query: String,
    pub filepath: String,
}

/// Reads the query and the file path from the first two arguments after the
/// program name.
pub fn parse_config(args: &[String]) -> (r: Config)
    requires
        args@.len() >= 3,
    ensures
        r.query@ == args@[1]@,
        r.filepath@ == args@[2]@,
{
    let query = args[1].clone();
    let filepath = args[2].clone();
    Config { query, filepath }
}

/// `s` with leading and trailing whitespace removed, as `str::trim` does it.
pub uninterp spec fn trimmed(s: Seq<char>) -> Seq<char>;

/// Relies on `str::trim`: the text without leading and trailing whitespace.
#[verifier::external_body]
fn trim_text(s: &str) -> (r: &str)
    ensures
        r@ == trimmed(s@),
{
    s.trim()
}

/// Whether `s` begins with `prefix`.
pub open spec fn has_prefix(s: Seq<char>, prefix: Seq<char>) -> bool {
    prefix.len() <= s.len() && s.subrange(0, prefix.len() as int) == prefix
}

/// Whether `s` ends with `suffix`.
pub open spec fn has_suffix(s: Seq<char>, suffix: Seq<char>) -> bool {
    suffix.len() <= s.len() && s.subrange(s.len() - suffix.len(), s.len() as int) == suffix
}

/// Already trimmed text that starts with `print` and ends with `;`.
pub open spec fn print_statement_shape(t: Seq<char>) -> bool {
    has_prefix(t, "print"@) && has_suffix(t, ";"@)
}

/// A line is a valid print statement when, once trimmed, it starts with
/// `print` and ends with `;`.
pub open spec fn valid_print_statement(line: Seq<char>) -> bool {
    print_statement_shape(trimmed(line))
}

pub fn starts_with_text(s: &str, prefix: &str) -> (r: bool)
    ensures
        r == has_prefix(s@, prefix@),
{
    let n = s.unicode_len();
    let m = prefix.unicode_len();
    if m > n {
        return false;
    }
    let mut i: usize = 0;
    while i < m
        invariant
            m == prefix@.len(),
            n == s@.len(),
            m <= n,
            i <= m,
            forall|j: int| 0 <= j < i ==> s@[j] == prefix@[j],
        decreases m - i,
    {
        if s.get_char(i) != prefix.get_char(i) {
            assert(s@.subrange(0, m as int)[i as int] != prefix@[i as int]);
            return false;
        }
        i = i + 1;
    }
    assert(s@.subrange(0, m as int) =~= prefix@);
    true
}

pub fn ends_with_text(s: &str, suffix: &str) -> (r: bool)
    ensures
        r == has_suffix(s@, suffix@),
{
    let n = s.unicode_len();
    let m = suffix.unicode_len();
    if m > n {
        return false;
    }
    let start = n - m;
    let mut i: usize = 0;
    while i < m
        invariant
            m == suffix@.len(),
            n == s@.len(),
            m <= n,
            start == n - m,
            i <= m,
            forall|j: int| 0 <= j < i ==> s@[start + j] == suffix@[j],
        decreases m - i,
    {
        if s.get_char(start + i) != suffix.get_char(i) {
            assert(s@.subrange(start as int, n as int)[i as int] != suffix@[i as int]);
            return false;
        }
        i = i + 1;
    }
    assert(s@.subrange(start as int, n as int) =~= suffix@);
    true
}

/// Whether already trimmed text starts with `print` and ends with `;`.
pub fn has_print_statement_shape(t: &str) -> (r: bool)
    ensures
        r == print_statement_shape(t@),
{
    starts_with_text(t, "print") && ends_with_text(t, ";")
}

/// Whether `line`, once trimmed, starts with `print` and ends with `;`.
pub fn is_valid_print_statement(line: &str) -> (r: bool)
    ensures
        r == valid_print_statement(line@),
{
    has_print_statement_shape(trim_text(line))
}

} // verus!
