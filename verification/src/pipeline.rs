//! The pipeline around the translation call: what happens before it and what
//! is made of its answer. The call itself belongs to the caller; each stage
//! here runs once, fails fast and retries nothing.

use vstd::prelude::*;
use vstd::string::StringExecFns;
use crate::credential::require_token;
use crate::error::SgrepError;
use crate::extract::{candidate_text, extract_pattern, TranslationResponse};
use crate::pattern::{compile, compile_meets, CompiledPattern};
use crate::prompt::{build_request, request_for, TranslationRequest};

verus! {

/// The identifier of the model that the service is asked for.
pub open spec fn translation_model() -> Seq<char> {
    "gpt-3.5-turbo"@
}

/// Reads the constant `openai_api_rs::v1::common::GPT3_5_TURBO`, by which the
/// client crate names the model. The contract gives its text.
#[verifier::external_body]
fn service_model() -> (model: &'static str)
    ensures
        model@ == translation_model(),
{
    openai_api_rs::v1::common::GPT3_5_TURBO
}

/// All that the caller needs to make the translation call.
#[derive(Clone, Debug, PartialEq, Eq)]
pub struct TranslationCall {
    pub token: String,
    pub model: String,
    pub request: TranslationRequest,
}

/// Prepares the translation call. Without a token there is nothing to
/// prepare: the run fails with `MissingCredential` and no request exists
/// that could be sent.
pub fn begin_translation(credential: Option<String>, utterance: &str) -> (r: Result<
    TranslationCall,
    SgrepError,
>)
    ensures
        match credential {
            Some(token) => r matches Ok(call) && call.token == token && call.model@
                == translation_model() && call.request@ == request_for(utterance@),
            None => r == Err::<TranslationCall, SgrepError>(SgrepError::MissingCredential),
        },
{
    match require_token(credential) {
        Ok(token) => Ok(
            TranslationCall {
                token,
                model: String::from_str(service_model()),
                request: build_request(utterance),
            },
        ),
        Err(e) => Err(e),
    }
}

/// What `build_regex_from_response` returns for the outcome of a call.
pub open spec fn build_meets(
    outcome: Result<TranslationResponse, String>,
    r: Result<CompiledPattern, SgrepError>,
) -> bool {
    match outcome {
        Err(cause) => r matches Err(SgrepError::TransportFailure { cause: reported })
            && reported == cause,
        Ok(response) => match candidate_text(response) {
            None => r == Err::<CompiledPattern, SgrepError>(SgrepError::EmptyTranslation),
            Some(text) => compile_meets(text, r),
        },
    }
}

/// Makes a compiled pattern of what the translation call brought back. A
/// failed call is reported with its cause, never as a pattern that matches
/// nothing; an answer without text is an `EmptyTranslation`; a text goes to
/// the compiler as it is, and only the answer is ever compiled, never the
/// user's own words.
pub fn build_regex_from_response(outcome: Result<TranslationResponse, String>) -> (r: Result<
    CompiledPattern,
    SgrepError,
>)
    ensures
        build_meets(outcome, r),
{
    match outcome {
        Err(cause) => Err(SgrepError::TransportFailure { cause }),
        Ok(response) => match extract_pattern(&response) {
            Err(e) => Err(e),
            Ok(text) => compile(text.as_str()),
        },
    }
}

} // verus!
