//! Reading the judgement out of a model's reply.
//!
//! A reply is free text that should hold one JSON object with an integer
//! `score` and a string `explanation`, possibly wrapped in prose or a code
//! fence. The text from the first `{` to the last `}` is handed to
//! `serde_json`; the fields are then looked up and the score is checked
//! against the accepted range.

use crate::evaluations::{score_in_range, EvaluationResult, EvaluationResultView};
use crate::text::{
    chars_of, find_char, first_index, last_index, push_signed_decimal, rfind_char,
    signed_decimal,
};
use vstd::prelude::*;

verus! {

/// `serde_json::Value`, a decoded JSON value. Nothing of its inside is
/// known here; what is read from it goes through the functions below.
#[verifier::external_type_specification]
#[verifier::external_body]
pub struct ExJsonValue(serde_json::Value);

/// `serde_json::Error`, the decoder's account of why a text is not JSON.
#[verifier::external_type_specification]
#[verifier::external_body]
pub struct ExJsonError(serde_json::Error);

/// What `serde_json::from_str` makes of `text`, read as a single JSON value.
pub uninterp spec fn json_document(text: Seq<char>) -> Result<serde_json::Value, serde_json::Error>;

/// The member that a JSON value holds under `key`, if it is an object that
/// has one.
pub uninterp spec fn json_member(value: serde_json::Value, key: Seq<char>) -> Option<
    serde_json::Value,
>;

/// The number that a JSON value stands for, if it is an integer that fits
/// in 64 bits with sign.
pub uninterp spec fn json_integer(value: serde_json::Value) -> Option<i64>;

/// The text that a JSON value stands for, if it is a string.
pub uninterp spec fn json_string(value: serde_json::Value) -> Option<Seq<char>>;

/// The message that a `serde_json` error displays.
pub uninterp spec fn json_error_text(error: serde_json::Error) -> Seq<char>;

/// `serde_json::from_str` at the type `serde_json::Value`. The contract
/// only names the outcome: the same text always decodes to the same value
/// or to the same error.
#[verifier::external_body]
fn decode_json(text: &str) -> (r: Result<serde_json::Value, serde_json::Error>)
    ensures
        r == json_document(text@),
{
    serde_json::from_str::<serde_json::Value>(text)
}

/// `serde_json::Value::get` with a string key. The contract only names the
/// outcome: the member found under the key, or none.
#[verifier::external_body]
fn json_get<'a>(value: &'a serde_json::Value, key: &str) -> (r: Option<&'a serde_json::Value>)
    ensures
        (match r {
            Some(member) => json_member(*value, key@) == Some(*member),
            None => json_member(*value, key@) is None,
        }),
{
    value.get(key)
}

/// `serde_json::Value::as_i64`: the integer that the value stands for, or
/// none where it is not an integer that fits. The contract only names it.
pub assume_specification[ serde_json::Value::as_i64 ](value: &serde_json::Value) -> (r: Option<
    i64,
>)
    ensures
        r == json_integer(*value),
;

/// `serde_json::Value::as_str`: the text that the value stands for, or none
/// where it is not a string. The contract only names it.
pub assume_specification<'a>[ serde_json::Value::as_str ](value: &'a serde_json::Value) -> (r:
    Option<&'a str>)
    ensures
        (match r {
            Some(text) => json_string(*value) == Some(text@),
            None => json_string(*value) is None,
        }),
;

/// The `Display` text of a `serde_json::Error`. The contract only names it.
#[verifier::external_body]
fn json_error_message(error: &serde_json::Error) -> (r: String)
    ensures
        r@ == json_error_text(*error),
{
    format!("{}", error)
}

/// What was found under a key of the decoded object.
#[derive(Debug)]
pub enum Member<T> {
    /// The object has no such key.
    Absent,
    /// The key is there, but its value is not of the expected kind.
    Unexpected,
    /// The value under the key.
    Found(T),
}

/// The two fields of a decoded reply, before any check on them.
#[derive(Debug)]
pub struct DecodedReply {
    pub score: Member<i64>,
    pub explanation: Member<String>,
}

/// The mathematical content of a [`DecodedReply`].
pub struct DecodedReplyView {
    pub score: Member<i64>,
    pub explanation: Member<Seq<char>>,
}

impl View for DecodedReply {
    type V = DecodedReplyView;

    open spec fn view(&self) -> DecodedReplyView {
        DecodedReplyView {
            score: self.score,
            explanation: match self.explanation {
                Member::Absent => Member::Absent,
                Member::Unexpected => Member::Unexpected,
                Member::Found(text) => Member::Found(text@),
            },
        }
    }
}

/// Why a reply yields no result.
#[derive(Debug)]
pub enum ParseError {
    /// The reply holds no `{`, or no `}`.
    NoJsonFound,
    /// The text between the braces is not a JSON object with an integer
    /// `score` and a string `explanation`.
    Decode { reason: String, span: String },
    /// The score lies outside the accepted range.
    ScoreOutOfRange { score: i64 },
}

/// The mathematical content of a [`ParseError`].
pub enum ParseErrorView {
    NoJsonFound,
    Decode { reason: Seq<char>, span: Seq<char> },
    ScoreOutOfRange { score: int },
}

impl View for ParseError {
    type V = ParseErrorView;

    open spec fn view(&self) -> ParseErrorView {
        match self {
            ParseError::NoJsonFound => ParseErrorView::NoJsonFound,
            ParseError::Decode { reason, span } => ParseErrorView::Decode {
                reason: reason@,
                span: span@,
            },
            ParseError::ScoreOutOfRange { score } => ParseErrorView::ScoreOutOfRange {
                score: *score as int,
            },
        }
    }
}

/// The mathematical content of a parse outcome.
pub open spec fn outcome_view(r: Result<EvaluationResult, ParseError>) -> Result<
    EvaluationResultView,
    ParseErrorView,
> {
    match r {
        Ok(result) => Ok(result@),
        Err(error) => Err(error@),
    }
}

/// The candidate JSON text of a reply: what stands from its first `{` to
/// its last `}`, both included. Where the last `}` comes before the first
/// `{`, nothing is enclosed, and the candidate is empty. There is no
/// candidate where either brace is missing.
pub open spec fn json_span(text: Seq<char>) -> Option<Seq<char>> {
    match (first_index(text, '{'), last_index(text, '}')) {
        (Some(open), Some(close)) => Some(
            if open <= close {
                text.subrange(open, close + 1)
            } else {
                Seq::empty()
            },
        ),
        _ => None,
    }
}

/// The fields of the JSON object that `span` holds, or the decoder's
/// message where `span` is not JSON.
pub open spec fn decoded_fields(span: Seq<char>) -> Result<DecodedReplyView, Seq<char>> {
    match json_document(span) {
        Err(error) => Err(json_error_text(error)),
        Ok(document) => Ok(
            DecodedReplyView {
                score: match json_member(document, "score"@) {
                    None => Member::Absent,
                    Some(member) => match json_integer(member) {
                        None => Member::Unexpected,
                        Some(number) => Member::Found(number),
                    },
                },
                explanation: match json_member(document, "explanation"@) {
                    None => Member::Absent,
                    Some(member) => match json_string(member) {
                        None => Member::Unexpected,
                        Some(text) => Member::Found(text),
                    },
                },
            },
        ),
    }
}

/// Why a decoded reply is not a result, if it is not: the first of its two
/// fields, `score` before `explanation`, that is absent or of the wrong
/// kind.
pub open spec fn field_fault(fields: DecodedReplyView) -> Option<Seq<char>> {
    match (fields.score, fields.explanation) {
        (Member::Absent, _) => Some("missing field `score`"@),
        (Member::Unexpected, _) => Some("field `score` is not an integer"@),
        (Member::Found(_), Member::Absent) => Some("missing field `explanation`"@),
        (Member::Found(_), Member::Unexpected) => Some("field `explanation` is not a string"@),
        (Member::Found(_), Member::Found(_)) => None,
    }
}

/// The outcome for a candidate `span` whose decoding gave `decoded`.
pub open spec fn checked_reply(
    span: Seq<char>,
    decoded: Result<DecodedReplyView, Seq<char>>,
) -> Result<EvaluationResultView, ParseErrorView> {
    match decoded {
        Err(reason) => Err(ParseErrorView::Decode { reason, span }),
        Ok(fields) => match field_fault(fields) {
            Some(reason) => Err(ParseErrorView::Decode { reason, span }),
            None => {
                let score = fields.score->Found_0 as int;
                if score_in_range(score) {
                    Ok(EvaluationResultView { score, explanation: fields.explanation->Found_0 })
                } else {
                    Err(ParseErrorView::ScoreOutOfRange { score })
                }
            },
        },
    }
}

/// The outcome of parsing the reply `text`.
pub open spec fn parse_outcome(text: Seq<char>) -> Result<EvaluationResultView, ParseErrorView> {
    match json_span(text) {
        None => Err(ParseErrorView::NoJsonFound),
        Some(span) => checked_reply(span, decoded_fields(span)),
    }
}


/// The text of `error`, as it is reported to the user.
pub open spec fn error_message(error: ParseErrorView) -> Seq<char> {
    match error {
        ParseErrorView::NoJsonFound => "No JSON found in response"@,
        ParseErrorView::Decode { reason, span } => "Failed to parse JSON: "@ + reason + ", JSON: "@
            + span,
        ParseErrorView::ScoreOutOfRange { score } => "Score "@ + signed_decimal(score)
            + " is outside valid range 1-10"@,
    }
}

impl ParseError {
    /// Describes the error in one line.
    pub fn message(&self) -> (text: String)
        ensures
            text@ == error_message(self@),
    {
        match self {
            ParseError::NoJsonFound => String::from_str("No JSON found in response"),
            ParseError::Decode { reason, span } => {
                let mut text = String::from_str("Failed to parse JSON: ");
                text.append(reason.as_str());
                text.append(", JSON: ");
                text.append(span.as_str());
                text
            },
            ParseError::ScoreOutOfRange { score } => {
                let mut text = String::from_str("Score ");
                push_signed_decimal(&mut text, *score);
                text.append(" is outside valid range 1-10");
                text
            },
        }
    }
}

/// Cuts the candidate JSON text out of a reply.
pub fn extract_json_span<'a>(response: &'a str) -> (span: Option<&'a str>)
    ensures
        (match span {
            Some(text) => json_span(response@) == Some(text@),
            None => json_span(response@) is None,
        }),
{
    let chars = chars_of(response);
    let n: usize = chars.len();
    let open = find_char(chars.as_slice(), '{');
    let close = rfind_char(chars.as_slice(), '}');
    match (open, close) {
        (Some(open), Some(close)) => {
            if open <= close {
                assert(close < n);
                Some(response.substring_char(open, close + 1))
            } else {
                proof {
                    reveal_strlit("");
                }
                assert(""@ =~= Seq::<char>::empty());
                Some("")
            }
        },
        _ => None,
    }
}

/// Decodes the candidate `span` and looks up the two fields of a reply.
/// The decoding itself is left to `serde_json`: the result is whatever it
/// makes of `span`, with its message where it rejects the text.
pub fn decode_reply(span: &str) -> (r: Result<DecodedReply, String>)
    ensures
        (match r {
            Ok(fields) => decoded_fields(span@) == Ok::<DecodedReplyView, Seq<char>>(fields@),
            Err(reason) => decoded_fields(span@) == Err::<DecodedReplyView, Seq<char>>(reason@),
        }),
{
    match decode_json(span) {
        Err(error) => Err(json_error_message(&error)),
        Ok(document) => {
            let score = match json_get(&document, "score") {
                None => Member::Absent,
                Some(member) => match member.as_i64() {
                    None => Member::Unexpected,
                    Some(number) => Member::Found(number),
                },
            };
            let explanation = match json_get(&document, "explanation") {
                None => Member::Absent,
                Some(member) => match member.as_str() {
                    None => Member::Unexpected,
                    Some(text) => Member::Found(String::from_str(text)),
                },
            };
            Ok(DecodedReply { score, explanation })
        },
    }
}

/// Turns the decoded fields of a reply into a result. A decoding that
/// failed, or a field that is absent or of the wrong kind, is a decode error
/// that carries the candidate text; a score outside the accepted range is
/// an error of its own that names the score.
pub fn check_reply(span: &str, decoded: Result<DecodedReply, String>) -> (r: Result<
    EvaluationResult,
    ParseError,
>)
    ensures
        outcome_view(r) == checked_reply(
            span@,
            match decoded {
                Ok(fields) => Ok(fields@),
                Err(reason) => Err(reason@),
            },
        ),
        r matches Ok(result) ==> result.is_valid(),
{
    match decoded {
        Err(reason) => Err(ParseError::Decode { reason, span: String::from_str(span) }),
        Ok(fields) => {
            let DecodedReply { score, explanation } = fields;
            match (score, explanation) {
                (Member::Absent, _) => Err(
                    ParseError::Decode {
                        reason: String::from_str("missing field `score`"),
                        span: String::from_str(span),
                    },
                ),
                (Member::Unexpected, _) => Err(
                    ParseError::Decode {
                        reason: String::from_str("field `score` is not an integer"),
                        span: String::from_str(span),
                    },
                ),
                (Member::Found(_), Member::Absent) => Err(
                    ParseError::Decode {
                        reason: String::from_str("missing field `explanation`"),
                        span: String::from_str(span),
                    },
                ),
                (Member::Found(_), Member::Unexpected) => Err(
                    ParseError::Decode {
                        reason: String::from_str("field `explanation` is not a string"),
                        span: String::from_str(span),
                    },
                ),
                (Member::Found(score), Member::Found(explanation)) => {
                    if 1 <= score && score <= 10 {
                        Ok(EvaluationResult { score: score as i32, explanation })
                    } else {
                        Err(ParseError::ScoreOutOfRange { score })
                    }
                },
            }
        },
    }
}

/// Reads the judgement out of a reply: finds the candidate JSON text,
/// decodes it, and checks the score.
pub fn parse_evaluation(response: &str) -> (r: Result<EvaluationResult, ParseError>)
    ensures
        outcome_view(r) == parse_outcome(response@),
        r matches Ok(result) ==> result.is_valid(),
{
    match extract_json_span(response) {
        None => Err(ParseError::NoJsonFound),
        Some(span) => {
            let decoded = decode_reply(span);
            check_reply(span, decoded)
        },
    }
}

/// Reads the judgement out of a reply, and describes in words why there is
/// none where that fails.
pub fn parse_evaluation_response(response: &str) -> (r: Result<EvaluationResult, String>)
    ensures
        (match r {
            Ok(result) => parse_outcome(response@) == Ok::<
                EvaluationResultView,
                ParseErrorView,
            >(result@) && result.is_valid(),
            Err(text) => parse_outcome(response@) is Err && text@ == error_message(
                parse_outcome(response@)->Err_0,
            ),
        }),
{
    match parse_evaluation(response) {
        Ok(result) => Ok(result),
        Err(error) => Err(error.message()),
    }
}


/// A reply that parses carries a score in the accepted range.
pub proof fn lemma_parsed_score_in_range(text: Seq<char>)
    ensures
        parse_outcome(text) matches Ok(result) ==> score_in_range(result.score),
{
}


/// A reply without a `{`, or without a `}`, holds no JSON.
pub proof fn lemma_missing_brace_is_no_json(text: Seq<char>)
    requires
        !text.contains('{') || !text.contains('}'),
    ensures
        parse_outcome(text) == Err::<EvaluationResultView, ParseErrorView>(
            ParseErrorView::NoJsonFound,
        ),
{
}

/// A reply with both braces is never reported as holding no JSON: it is
/// decoded, and the outcome is a result, a decode error or a score out of
/// range.
pub proof fn lemma_braces_are_decoded(text: Seq<char>)
    requires
        text.contains('{'),
        text.contains('}'),
    ensures
        parse_outcome(text) != Err::<EvaluationResultView, ParseErrorView>(
            ParseErrorView::NoJsonFound,
        ),
{
}

} // verus!
