//! Pattern compilation and match evaluation, on top of the `regex` crate.
use regex::Regex;
use vstd::prelude::*;

verus! {

#[verifier::external_type_specification]
#[verifier::external_body]
pub struct ExRegex(regex::Regex);

#[verifier::external_type_specification]
#[verifier::external_body]
pub struct ExRegexError(regex::Error);

/// Whether `regex::Regex::new` accepts the pattern `p` under its default limits.
pub uninterp spec fn regex_compiles(p: Seq<char>) -> bool;

/// Whether the regex compiled from `p` finds a match anywhere in `t`.
pub uninterp spec fn regex_matches(p: Seq<char>, t: Seq<char>) -> bool;

/// A pattern that compiled: the pattern text together with the compiled regex.
///
/// The only place that makes a `Matcher` is `build_matcher`, which compiles
/// the regex from exactly the text it stores, so the two always agree.
pub struct Matcher {
    source: String,
    regex: Regex,
}

impl View for Matcher {
    type V = Seq<char>;

    closed spec fn view(&self) -> Seq<char> {
        self.source@
    }
}

/// Relies on `regex::Regex::new`: it succeeds exactly on the patterns it
/// accepts, and the empty pattern is always accepted.
#[verifier::external_body]
fn build_matcher(p: &str) -> (r: Result<Matcher, regex::Error>)
    ensures
        r is Ok <==> regex_compiles(p@),
        r is Ok ==> r->Ok_0@ == p@,
        p@.len() == 0 ==> r is Ok,
{
    match Regex::new(p) {
        Ok(regex) => Ok(Matcher { source: p.to_string(), regex }),
        Err(e) => Err(e),
    }
}

/// Relies on `regex::Regex::is_match`: whether the regex compiled from the
/// matcher's text finds a match anywhere in `t`.
#[verifier::external_body]
fn regex_is_match(m: &Matcher, t: &str) -> (r: bool)
    ensures
        r == regex_matches(m@, t@),
{
    m.regex.is_match(t)
}

/// Relies on the `Display` impl of `regex::Error` for the human-readable
/// description of why a pattern was refused.
#[verifier::external_body]
fn describe_error(e: &regex::Error) -> (r: String) {
    e.to_string()
}

/// Whether a pattern compiles: the empty pattern always does, any other
/// pattern exactly when the regex engine accepts it.
pub open spec fn pattern_compiles(p: Seq<char>) -> bool {
    p.len() == 0 || regex_compiles(p)
}

/// Whether the compiled pattern `p` accepts the candidate `t`. The empty
/// pattern accepts only the empty string; any other pattern accepts `t`
/// when it matches somewhere in `t`.
pub open spec fn pattern_accepts(p: Seq<char>, t: Seq<char>) -> bool {
    if p.len() == 0 {
        t.len() == 0
    } else {
        regex_matches(p, t)
    }
}

/// Why a pattern did not compile.
pub struct PatternError {
    pub message: String,
}

/// The outcome of compiling a pattern: exactly one of a usable matcher or an
/// error that says why the pattern is malformed.
pub enum CompilationResult {
    Compiled(Matcher),
    Invalid(PatternError),
}

impl CompilationResult {
    /// Whether this compilation accepts the candidate `t`; an invalid pattern
    /// accepts nothing.
    pub open spec fn accepts(&self, t: Seq<char>) -> bool {
        match self {
            CompilationResult::Compiled(m) => pattern_accepts(m@, t),
            CompilationResult::Invalid(_) => false,
        }
    }

    /// Whether this is the outcome of compiling the pattern `p`.
    pub open spec fn compiled_from(&self, p: Seq<char>) -> bool {
        &&& (self is Compiled <==> pattern_compiles(p))
        &&& (self matches CompilationResult::Compiled(m) ==> m@ == p)
    }

    pub fn is_compiled(&self) -> (r: bool)
        ensures
            r == self is Compiled,
    {
        match self {
            CompilationResult::Compiled(_) => true,
            CompilationResult::Invalid(_) => false,
        }
    }

    /// The error description of an invalid compilation.
    pub fn error_message(&self) -> (r: Option<&str>)
        ensures
            r is Some <==> self is Invalid,
            self matches CompilationResult::Invalid(e) ==> r->Some_0@ == e.message@,
    {
        match self {
            CompilationResult::Compiled(_) => None,
            CompilationResult::Invalid(e) => Some(e.message.as_str()),
        }
    }

    /// Whether this compilation accepts the candidate `t`.
    pub fn is_match(&self, t: &str) -> (r: bool)
        ensures
            r == self.accepts(t@),
    {
        match self {
            CompilationResult::Compiled(m) => m.is_match(t),
            CompilationResult::Invalid(_) => false,
        }
    }
}

impl Matcher {
    /// The pattern text this matcher was compiled from.
    pub fn source(&self) -> (r: &str)
        ensures
            r@ == self@,
    {
        self.source.as_str()
    }

    /// Whether this matcher accepts the candidate `t`.
    pub fn is_match(&self, t: &str) -> (r: bool)
        ensures
            r == pattern_accepts(self@, t@),
    {
        if self.source.as_str().is_empty() {
            t.is_empty()
        } else {
            regex_is_match(self, t)
        }
    }
}

/// Compiles a pattern. Never fails outright: a malformed pattern yields
/// `Invalid` with a description of the problem.
pub fn compile(p: &str) -> (r: CompilationResult)
    ensures
        r.compiled_from(p@),
        r is Compiled <==> pattern_compiles(p@),
        p@.len() == 0 ==> r is Compiled,
{
    match build_matcher(p) {
        Ok(m) => CompilationResult::Compiled(m),
        Err(e) => CompilationResult::Invalid(PatternError { message: describe_error(&e) }),
    }
}

/// Checks every candidate against a compilation: one result per candidate, in
/// the same order. An invalid pattern matches no candidate.
pub fn evaluate(compilation: &CompilationResult, candidates: &Vec<String>) -> (r: Vec<bool>)
    ensures
        r@.len() == candidates@.len(),
        forall|i: int| 0 <= i < r@.len() ==> r@[i] == compilation.accepts(#[trigger] candidates@[i]@),
        compilation is Invalid ==> forall|i: int| 0 <= i < r@.len() ==> !r@[i],
{
    let mut r: Vec<bool> = Vec::new();
    let mut i: usize = 0;
    while i < candidates.len()
        invariant
            i <= candidates@.len(),
            r@.len() == i,
            forall|j: int| 0 <= j < i ==> r@[j] == compilation.accepts(#[trigger] candidates@[j]@),
        decreases candidates@.len() - i,
    {
        r.push(compilation.is_match(candidates[i].as_str()));
        i = i + 1;
    }
    assert forall|j: int| 0 <= j < r@.len() && compilation is Invalid implies !r@[j] by {
        assert(r@[j] == compilation.accepts(candidates@[j]@));
    }
    r
}

/// Compiling is a pure function of the pattern text: two compilations of the
/// same pattern accept exactly the same candidates.
pub proof fn compile_is_deterministic(a: CompilationResult, b: CompilationResult, p: Seq<char>)
    requires
        a.compiled_from(p),
        b.compiled_from(p),
    ensures
        a is Compiled <==> b is Compiled,
        forall|t: Seq<char>| a.accepts(t) == b.accepts(t),
{
}

/// The empty pattern always compiles, and what it compiles to accepts the
/// empty string and rejects every other string.
pub proof fn empty_pattern_accepts_only_empty(r: CompilationResult, t: Seq<char>)
    requires
        r.compiled_from(Seq::empty()),
    ensures
        r is Compiled,
        r.accepts(t) <==> t.len() == 0,
{
}

} // verus!
