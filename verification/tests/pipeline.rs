use sgrep::credential::{auth_flag_action, require_token, user_is_authenticated, AuthFlagAction};
use sgrep::error::SgrepError;
use sgrep::extract::{extract_pattern, Completion, TranslationResponse};
use sgrep::filter::{filter_lines, FilterState};
use sgrep::pattern::{compile, compile_outcome};
use sgrep::pipeline::{begin_translation, build_regex_from_response};
use sgrep::prompt::{build_request, MessageRole, TRANSLATION_CONTEXT};

fn answer(texts: Vec<Option<&str>>) -> TranslationResponse {
    let mut choices = Vec::new();
    for t in texts {
        choices.push(Completion { content: t.map(|s| s.to_string()) });
    }
    TranslationResponse { choices }
}

fn readable(lines: Vec<&str>) -> Vec<Result<String, String>> {
    let mut reads = Vec::new();
    for l in lines {
        reads.push(Ok(l.to_string()));
    }
    reads
}

#[test]
fn request_has_context_then_utterance() {
    let request = build_request("lines containing an IPv4 address");
    assert_eq!(request.messages.len(), 2);
    assert_eq!(request.messages[0].role, MessageRole::System);
    assert_eq!(request.messages[0].content, TRANSLATION_CONTEXT);
    assert_eq!(request.messages[1].role, MessageRole::User);
    assert_eq!(request.messages[1].content, "lines containing an IPv4 address");
}

#[test]
fn request_passes_utterance_verbatim() {
    let utterance = "  \"quoted\" \\d+ \n tab\there  ";
    let request = build_request(utterance);
    assert_eq!(request.messages[1].content, utterance);
}

#[test]
fn request_takes_empty_utterance() {
    let request = build_request("");
    assert_eq!(request.messages.len(), 2);
    assert_eq!(request.messages[0].content, TRANSLATION_CONTEXT);
    assert_eq!(request.messages[1].content, "");
}

#[test]
fn context_asks_for_the_bare_pattern() {
    let expected = "\n\
        \x20   I am going to give you a text in natural language. \n\
        \x20   Your job is to write a regular expression for Rust Regex that matches the search patterns described by the text.\n\
        \n\
        \x20   You must return the output in the format: <regex> NOTHING else.\n\
        \x20   You MUST NOT, under any circumstances, return an output that does not match the format above. \n\
        \x20   You also MUST NOT print anything besides the output, like an introduction to the response or any explanation. \n\
        \x20   For everything I say you MUST respond with the regex pattern only without any type of markdown formatting.\n\
        \x20   Just plain text.\n\
        ";
    assert_eq!(TRANSLATION_CONTEXT, expected);
    assert_eq!(TRANSLATION_CONTEXT.len(), 589);
    assert_eq!(TRANSLATION_CONTEXT.lines().count(), 9);
    assert!(TRANSLATION_CONTEXT.contains("in natural language. \n    Your job"));
}

#[test]
fn extraction_returns_first_text_exactly() {
    let response = answer(vec![Some("  \\bFoo\\s+BAR\\b \n"), Some("second")]);
    assert_eq!(extract_pattern(&response), Ok("  \\bFoo\\s+BAR\\b \n".to_string()));
}

#[test]
fn extraction_keeps_whitespace_only_text() {
    let response = answer(vec![Some(" ")]);
    assert_eq!(extract_pattern(&response), Ok(" ".to_string()));
}

#[test]
fn extraction_fails_on_no_completion() {
    let response = answer(vec![]);
    assert_eq!(extract_pattern(&response), Err(SgrepError::EmptyTranslation));
}

#[test]
fn extraction_fails_on_absent_content() {
    let response = answer(vec![None, Some("a+")]);
    assert_eq!(extract_pattern(&response), Err(SgrepError::EmptyTranslation));
}

#[test]
fn extraction_fails_on_empty_content() {
    let response = answer(vec![Some("")]);
    assert_eq!(extract_pattern(&response), Err(SgrepError::EmptyTranslation));
}

#[test]
fn compile_keeps_the_text() {
    let pattern = compile("^a+b$").unwrap();
    assert_eq!(pattern.as_str(), "^a+b$");
    assert!(pattern.is_match("aaab"));
    assert!(!pattern.is_match("ba"));
}

#[test]
fn compile_uses_full_syntax() {
    let pattern = compile(r"^(\d{2}|[a-c]+)x?$").unwrap();
    assert!(pattern.is_match("42"));
    assert!(pattern.is_match("abcax"));
    assert!(!pattern.is_match("4"));
    assert!(!pattern.is_match("abd"));
}

#[test]
fn compile_does_not_trim() {
    let pattern = compile(" a").unwrap();
    assert!(pattern.is_match("x a"));
    assert!(!pattern.is_match("xa"));
}

#[test]
fn compile_does_not_fall_back_to_literal() {
    let r = compile("a(b");
    assert!(matches!(r, Err(SgrepError::PatternCompileError { .. })));
}

#[test]
fn compile_twice_behaves_alike() {
    let first = compile(r"\bw\w+").unwrap();
    let second = compile(r"\bw\w+").unwrap();
    for line in ["", "w", "word", "a word", "sword", "two words", "W"] {
        assert_eq!(first.is_match(line), second.is_match(line));
    }
    let bad_first = compile("(").unwrap_err();
    let bad_second = compile("(").unwrap_err();
    assert_eq!(bad_first, bad_second);
}

#[test]
fn compile_reports_engine_diagnostic() {
    match compile("[unterminated") {
        Err(SgrepError::PatternCompileError { diagnostic }) => {
            assert!(diagnostic.contains("unclosed character class"));
            assert!(diagnostic.contains("[unterminated"));
        }
        other => panic!("unexpected result: {:?}", other.map(|p| p.as_str().to_string())),
    }
}

#[test]
fn compile_outcome_maps_refusal() {
    let r = compile_outcome(Err("no good".to_string()));
    assert_eq!(
        r.map(|p| p.as_str().to_string()),
        Err(SgrepError::PatternCompileError { diagnostic: "no good".to_string() })
    );
}

#[test]
fn compile_outcome_passes_matcher_on() {
    let made = compile("a|b").unwrap();
    let kept = compile_outcome(Ok(made)).unwrap();
    assert_eq!(kept.as_str(), "a|b");
    assert!(kept.is_match("b"));
}

#[test]
fn scenario_ipv4_lines() {
    let call = begin_translation(Some("token".to_string()), "lines containing an IPv4 address").unwrap();
    assert_eq!(call.token, "token");
    assert_eq!(call.model, "gpt-3.5-turbo");
    assert_eq!(call.request.messages[1].content, "lines containing an IPv4 address");
    let response = answer(vec![Some(r"\b\d{1,3}(\.\d{1,3}){3}\b")]);
    let pattern = build_regex_from_response(Ok(response)).unwrap();
    assert_eq!(pattern.as_str(), r"\b\d{1,3}(\.\d{1,3}){3}\b");
    let run = filter_lines(pattern, &readable(vec!["no ip here", "server 10.0.0.1 up"]));
    assert_eq!(run.emitted, vec!["server 10.0.0.1 up".to_string()]);
    assert_eq!(run.lines_read, 2);
    assert_eq!(run.state, FilterState::Done);
    assert_eq!(run.outcome, Ok(()));
}

#[test]
fn scenario_empty_translation() {
    let r = build_regex_from_response(Ok(answer(vec![Some("")])));
    assert_eq!(r.map(|p| p.as_str().to_string()), Err(SgrepError::EmptyTranslation));
    let r = build_regex_from_response(Ok(answer(vec![None])));
    assert_eq!(r.map(|p| p.as_str().to_string()), Err(SgrepError::EmptyTranslation));
    let r = build_regex_from_response(Ok(answer(vec![])));
    assert_eq!(r.map(|p| p.as_str().to_string()), Err(SgrepError::EmptyTranslation));
}

#[test]
fn scenario_unterminated_class() {
    let r = build_regex_from_response(Ok(answer(vec![Some("[unterminated")])));
    assert!(matches!(r, Err(SgrepError::PatternCompileError { .. })));
    assert!(matches!(compile("[unterminated"), Err(SgrepError::PatternCompileError { .. })));
}

#[test]
fn scenario_missing_credential() {
    let r = begin_translation(None, "lines containing an IPv4 address");
    assert_eq!(r, Err(SgrepError::MissingCredential));
}

#[test]
fn transport_failure_is_reported_with_cause() {
    let r = build_regex_from_response(Err("connection refused".to_string()));
    assert_eq!(
        r.map(|p| p.as_str().to_string()),
        Err(SgrepError::TransportFailure { cause: "connection refused".to_string() })
    );
}

#[test]
fn only_the_first_completion_is_compiled() {
    let pattern = build_regex_from_response(Ok(answer(vec![Some("first"), Some("(")]))).unwrap();
    assert_eq!(pattern.as_str(), "first");
    let r = build_regex_from_response(Ok(answer(vec![Some("("), Some("second")])));
    assert!(matches!(r, Err(SgrepError::PatternCompileError { .. })));
}

#[test]
fn authentication_follows_the_token() {
    assert!(user_is_authenticated(&Some("sk-test".to_string())));
    assert!(user_is_authenticated(&Some(String::new())));
    assert!(!user_is_authenticated(&None));
}

#[test]
fn token_is_required() {
    assert_eq!(require_token(Some("sk-test".to_string())), Ok("sk-test".to_string()));
    assert_eq!(require_token(None), Err(SgrepError::MissingCredential));
}

#[test]
fn auth_flag_decides() {
    assert_eq!(auth_flag_action(false, None), AuthFlagAction::Proceed);
    assert_eq!(auth_flag_action(false, Some("t".to_string())), AuthFlagAction::Proceed);
    assert_eq!(auth_flag_action(true, Some("t".to_string())), AuthFlagAction::Store("t".to_string()));
    assert_eq!(auth_flag_action(true, None), AuthFlagAction::MissingArgument);
}
