//! The pattern extractor: from the service's answer to the text of a
//! candidate pattern.

use vstd::prelude::*;
use crate::error::SgrepError;

verus! {

/// One candidate completion of an answer. The service may leave its text out.
#[derive(Clone, Debug, PartialEq, Eq)]
pub struct Completion {
    pub content: Option<String>,
}

/// The service's answer: candidate completions in the order it gave them.
/// Only the first is ever read.
#[derive(Clone, Debug, PartialEq, Eq)]
pub struct TranslationResponse {
    pub choices: Vec<Completion>,
}

/// The text that an answer offers as a pattern: the text of its first
/// completion, if there is a first completion, it has a text, and the text
/// is not empty.
pub open spec fn candidate_text(response: TranslationResponse) -> Option<Seq<char>> {
    if response.choices@.len() == 0 {
        None
    } else {
        match response.choices@[0].content {
            Some(text) => if text@.len() == 0 {
                None
            } else {
                Some(text@)
            },
            None => None,
        }
    }
}

/// What `extract_pattern` returns for an answer.
pub open spec fn extraction_meets(
    response: TranslationResponse,
    r: Result<String, SgrepError>,
) -> bool {
    match candidate_text(response) {
        Some(text) => r matches Ok(found) && found@ == text,
        None => r == Err::<String, SgrepError>(SgrepError::EmptyTranslation),
    }
}

/// Takes the candidate pattern out of an answer. The text comes back exactly
/// as the service wrote it: not trimmed, not changed in case, not judged.
/// An answer without a first completion, or whose first completion has no
/// text or an empty one, is an `EmptyTranslation`.
pub fn extract_pattern(response: &TranslationResponse) -> (r: Result<String, SgrepError>)
    ensures
        extraction_meets(*response, r),
{
    if response.choices.len() == 0 {
        return Err(SgrepError::EmptyTranslation);
    }
    match &response.choices[0].content {
        Some(text) => {
            if text.as_str().is_empty() {
                Err(SgrepError::EmptyTranslation)
            } else {
                Ok(text.clone())
            }
        },
        None => Err(SgrepError::EmptyTranslation),
    }
}

/// Whenever the first completion carries a non-empty text, extraction
/// succeeds and returns that text, character for character.
pub proof fn lemma_extraction_returns_first_text(
    response: TranslationResponse,
    r: Result<String, SgrepError>,
)
    requires
        extraction_meets(response, r),
        response.choices@.len() > 0,
        response.choices@[0].content is Some,
        response.choices@[0].content->Some_0@.len() > 0,
    ensures
        r is Ok,
        r->Ok_0@ == response.choices@[0].content->Some_0@,
{
}

/// An answer with no completion, or whose first completion has no text,
/// fails with `EmptyTranslation`, and so does one whose text is empty.
pub proof fn lemma_extraction_fails_without_text(
    response: TranslationResponse,
    r: Result<String, SgrepError>,
)
    requires
        extraction_meets(response, r),
        response.choices@.len() == 0 || response.choices@[0].content is None
            || response.choices@[0].content->Some_0@.len() == 0,
    ensures
        r == Err::<String, SgrepError>(SgrepError::EmptyTranslation),
{
}

} // verus!
