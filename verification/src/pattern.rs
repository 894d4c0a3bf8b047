//! The pattern compiler: the one place where text that a remote service wrote
//! becomes something that runs.
//!
//! The matching engine is the `regex` crate. Its syntax and its matching are
//! not restated here; they are named, and every contract below speaks of the
//! names.

use vstd::prelude::*;
use crate::error::SgrepError;

verus! {

#[verifier::external_type_specification]
#[verifier::external_body]
pub struct ExRegex(regex::Regex);

/// What `regex::Regex::new` answers for a pattern text: `None` when it builds
/// a matcher, `Some(d)` when it refuses, `d` being the text that its error
/// displays as. The engine reads nothing but the text, so one text has one
/// answer.
pub uninterp spec fn compile_diagnostic(pattern: Seq<char>) -> Option<Seq<char>>;

/// What `regex::Regex::is_match` answers for a line, on the matcher that was
/// built from `pattern`: whether the pattern matches anywhere in the line.
/// A search reads nothing but the matcher and the line.
pub uninterp spec fn engine_matches(pattern: Seq<char>, line: Seq<char>) -> bool;

/// A pattern text that the engine accepts.
pub open spec fn is_valid_pattern(pattern: Seq<char>) -> bool {
    compile_diagnostic(pattern) is None
}

/// An executable matcher. It is built whole or not at all, and nothing
/// changes it afterwards. Its view is the text it was compiled from.
#[derive(Debug)]
pub struct CompiledPattern {
    source: String,
    engine: regex::Regex,
}

impl View for CompiledPattern {
    type V = Seq<char>;

    closed spec fn view(&self) -> Seq<char> {
        self.source@
    }
}

/// Calls `regex::Regex::new`. The contract gives the outcome its name: a
/// matcher comes back exactly when the engine accepts the text, and it keeps
/// that text; otherwise the error comes back as the text it displays as.
/// This is the only place where a `CompiledPattern` is made, so the engine in
/// one always stems from the text beside it.
#[verifier::external_body]
fn engine_new(text: &str) -> (r: Result<CompiledPattern, String>)
    ensures
        match r {
            Ok(p) => compile_diagnostic(text@) is None && p@ == text@,
            Err(d) => compile_diagnostic(text@) == Some(d@),
        },
{
    match regex::Regex::new(text) {
        Ok(engine) => Ok(CompiledPattern { source: text.to_string(), engine }),
        Err(e) => Err(e.to_string()),
    }
}

/// Calls `regex::Regex::is_match` on the engine of a compiled pattern. The
/// contract names the answer by the pattern's text and the line; the call
/// searches from the start of the line and does not panic on any input.
#[verifier::external_body]
fn engine_is_match(pattern: &CompiledPattern, line: &str) -> (found: bool)
    ensures
        found == engine_matches(pattern@, line@),
{
    pattern.engine.is_match(line)
}

/// Turns the engine's answer into the library's: a matcher is passed on as it
/// is, a refusal becomes a `PatternCompileError` that carries the engine's
/// diagnostic unchanged.
pub fn compile_outcome(answer: Result<CompiledPattern, String>) -> (r: Result<
    CompiledPattern,
    SgrepError,
>)
    ensures
        match answer {
            Ok(p) => r == Ok::<CompiledPattern, SgrepError>(p),
            Err(d) => r == Err::<CompiledPattern, SgrepError>(
                SgrepError::PatternCompileError { diagnostic: d },
            ),
        },
{
    match answer {
        Ok(p) => Ok(p),
        Err(d) => Err(SgrepError::PatternCompileError { diagnostic: d }),
    }
}

/// What `compile` returns for a text, over the engine's named answer.
pub open spec fn compile_meets(text: Seq<char>, r: Result<CompiledPattern, SgrepError>) -> bool {
    match compile_diagnostic(text) {
        None => r matches Ok(p) && p@ == text,
        Some(d) => r matches Err(SgrepError::PatternCompileError { diagnostic }) && diagnostic@
            == d,
    }
}

/// Compiles a candidate text with the engine's full syntax. The text is used
/// as it stands: nothing is trimmed, repaired or retried, and there is no
/// fallback to literal matching.
pub fn compile(text: &str) -> (r: Result<CompiledPattern, SgrepError>)
    ensures
        compile_meets(text@, r),
{
    compile_outcome(engine_new(text))
}

impl CompiledPattern {
    /// The engine accepted the text: no other pattern exists.
    #[verifier::type_invariant]
    closed spec fn accepted(&self) -> bool {
        is_valid_pattern(self.source@)
    }

    /// Whether the pattern matches somewhere in `line`.
    pub open spec fn accepts(&self, line: Seq<char>) -> bool {
        engine_matches(self@, line)
    }

    /// Tests one line. The pattern is only read.
    pub fn is_match(&self, line: &str) -> (found: bool)
        ensures
            found == self.accepts(line@),
    {
        engine_is_match(self, line)
    }

    /// The text this pattern was compiled from, which the engine accepts.
    pub fn as_str(&self) -> (s: &str)
        ensures
            s@ == self@,
            is_valid_pattern(s@),
    {
        proof {
            use_type_invariant(self);
        }
        self.source.as_str()
    }
}

/// Two runs of the compiler on the same text end alike: both succeed or both
/// fail, with the same diagnostic, and on success the two patterns behave
/// alike on every line. This holds because the engine's answers are named by
/// the text alone; it is as true as that naming.
pub proof fn lemma_compile_is_deterministic(
    text: Seq<char>,
    first: Result<CompiledPattern, SgrepError>,
    second: Result<CompiledPattern, SgrepError>,
)
    requires
        compile_meets(text, first),
        compile_meets(text, second),
    ensures
        first is Ok <==> second is Ok,
        first is Ok ==> forall|line: Seq<char>|
            first->Ok_0.accepts(line) == second->Ok_0.accepts(line),
        first matches Err(SgrepError::PatternCompileError { diagnostic: d1 }) ==> (second matches Err(
            SgrepError::PatternCompileError { diagnostic: d2 },
        ) && d1@ == d2@),
{
}

} // verus!
