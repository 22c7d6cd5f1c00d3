use cairs::response::{
    check_reply, decode_reply, extract_json_span, parse_evaluation, parse_evaluation_response,
    DecodedReply, Member, ParseError,
};

#[test]
fn reply_wrapped_in_prose_yields_its_result() {
    let result =
        parse_evaluation_response("noise {\"score\": 7, \"explanation\": \"ok\"} trailing")
            .unwrap();
    assert_eq!(result.score, 7);
    assert_eq!(result.explanation, "ok");
}

#[test]
fn score_above_ten_is_out_of_range_not_a_decode_error() {
    let error = parse_evaluation("{\"score\": 11, \"explanation\": \"x\"}").unwrap_err();
    assert!(matches!(error, ParseError::ScoreOutOfRange { score: 11 }));
    assert_eq!(
        parse_evaluation_response("{\"score\": 11, \"explanation\": \"x\"}").unwrap_err(),
        "Score 11 is outside valid range 1-10"
    );
}

#[test]
fn reply_without_opening_brace_holds_no_json() {
    let error = parse_evaluation("score: 7}").unwrap_err();
    assert!(matches!(error, ParseError::NoJsonFound));
}

#[test]
fn reply_without_closing_brace_holds_no_json() {
    let error = parse_evaluation("{\"score\": 7").unwrap_err();
    assert!(matches!(error, ParseError::NoJsonFound));
}

#[test]
fn reply_without_braces_holds_no_json() {
    assert!(matches!(parse_evaluation("").unwrap_err(), ParseError::NoJsonFound));
    assert_eq!(
        parse_evaluation_response("I would give it a seven.").unwrap_err(),
        "No JSON found in response"
    );
}

#[test]
fn scores_at_the_ends_of_the_range_are_accepted() {
    assert_eq!(parse_evaluation("{\"score\": 1, \"explanation\": \"\"}").unwrap().score, 1);
    assert_eq!(parse_evaluation("{\"score\": 10, \"explanation\": \"\"}").unwrap().score, 10);
}

#[test]
fn scores_just_outside_the_range_are_rejected() {
    assert!(matches!(
        parse_evaluation("{\"score\": 0, \"explanation\": \"\"}").unwrap_err(),
        ParseError::ScoreOutOfRange { score: 0 }
    ));
    assert_eq!(
        parse_evaluation_response("{\"score\": -3, \"explanation\": \"\"}").unwrap_err(),
        "Score -3 is outside valid range 1-10"
    );
    assert_eq!(
        parse_evaluation_response("{\"score\": 99999999999, \"explanation\": \"\"}").unwrap_err(),
        "Score 99999999999 is outside valid range 1-10"
    );
    assert_eq!(
        parse_evaluation_response("{\"score\": -9223372036854775808, \"explanation\": \"\"}")
            .unwrap_err(),
        "Score -9223372036854775808 is outside valid range 1-10"
    );
}

#[test]
fn reply_in_a_code_fence_is_read() {
    let raw = "Here you go:\n```json\n{\n  \"score\": 4,\n  \"explanation\": \"a {nested} brace\"\n}\n```\n";
    let result = parse_evaluation(raw).unwrap();
    assert_eq!(result.score, 4);
    assert_eq!(result.explanation, "a {nested} brace");
}

#[test]
fn extra_fields_are_ignored() {
    let result =
        parse_evaluation("{\"explanation\": \"fine\", \"confidence\": 0.5, \"score\": 6}").unwrap();
    assert_eq!(result.score, 6);
    assert_eq!(result.explanation, "fine");
}

#[test]
fn string_escapes_are_decoded() {
    let result =
        parse_evaluation("{\"score\": 6, \"explanation\": \"line\\nbreak \\u00e9\"}").unwrap();
    assert_eq!(result.explanation, "line\nbreak \u{e9}");
}

#[test]
fn malformed_json_is_a_decode_error_with_the_decoder_message_and_the_span() {
    let error = parse_evaluation("see {not json} here").unwrap_err();
    match &error {
        ParseError::Decode { reason, span } => {
            assert_eq!(reason, "key must be a string at line 1 column 2");
            assert_eq!(span, "{not json}");
        }
        other => panic!("unexpected error {:?}", other),
    }
    assert_eq!(
        error.message(),
        "Failed to parse JSON: key must be a string at line 1 column 2, JSON: {not json}"
    );
}

#[test]
fn text_between_two_objects_is_part_of_the_span() {
    let error = parse_evaluation("{\"score\": 7} and {\"explanation\": \"x\"}").unwrap_err();
    match error {
        ParseError::Decode { reason, span } => {
            assert_eq!(reason, "trailing characters at line 1 column 14");
            assert_eq!(span, "{\"score\": 7} and {\"explanation\": \"x\"}");
        }
        other => panic!("unexpected error {:?}", other),
    }
}

#[test]
fn closing_brace_before_opening_brace_gives_an_empty_span() {
    let error = parse_evaluation("} then {").unwrap_err();
    match error {
        ParseError::Decode { reason, span } => {
            assert_eq!(reason, "EOF while parsing a value at line 1 column 0");
            assert_eq!(span, "");
        }
        other => panic!("unexpected error {:?}", other),
    }
    assert_eq!(extract_json_span("}{"), Some(""));
}

#[test]
fn missing_score_is_a_decode_error() {
    let error = parse_evaluation("{\"explanation\": \"x\"}").unwrap_err();
    assert_eq!(
        error.message(),
        "Failed to parse JSON: missing field `score`, JSON: {\"explanation\": \"x\"}"
    );
}

#[test]
fn missing_explanation_is_a_decode_error() {
    let error = parse_evaluation("{\"score\": 5}").unwrap_err();
    assert_eq!(
        error.message(),
        "Failed to parse JSON: missing field `explanation`, JSON: {\"score\": 5}"
    );
}

#[test]
fn score_that_is_not_an_integer_is_a_decode_error() {
    for raw in [
        "{\"score\": \"7\", \"explanation\": \"x\"}",
        "{\"score\": 7.5, \"explanation\": \"x\"}",
        "{\"score\": 7.0, \"explanation\": \"x\"}",
        "{\"score\": null, \"explanation\": \"x\"}",
        "{\"score\": 18446744073709551615, \"explanation\": \"x\"}",
    ] {
        match parse_evaluation(raw).unwrap_err() {
            ParseError::Decode { reason, span } => {
                assert_eq!(reason, "field `score` is not an integer");
                assert_eq!(span, raw);
            }
            other => panic!("unexpected error {:?}", other),
        }
    }
}

#[test]
fn explanation_that_is_not_a_string_is_a_decode_error() {
    match parse_evaluation("{\"score\": 7, \"explanation\": 3}").unwrap_err() {
        ParseError::Decode { reason, .. } => {
            assert_eq!(reason, "field `explanation` is not a string")
        }
        other => panic!("unexpected error {:?}", other),
    }
}

#[test]
fn a_faulty_score_is_reported_before_a_faulty_explanation() {
    match parse_evaluation("{\"explanation\": 3}").unwrap_err() {
        ParseError::Decode { reason, .. } => assert_eq!(reason, "missing field `score`"),
        other => panic!("unexpected error {:?}", other),
    }
}

#[test]
fn span_runs_from_first_opening_to_last_closing_brace() {
    assert_eq!(extract_json_span("a {b {c} d} e"), Some("{b {c} d}"));
    assert_eq!(extract_json_span("{}"), Some("{}"));
    assert_eq!(extract_json_span("é{ü}ß"), Some("{ü}"));
    assert_eq!(extract_json_span("no braces"), None);
    assert_eq!(extract_json_span("only {"), None);
    assert_eq!(extract_json_span("only }"), None);
}

#[test]
fn decoding_looks_up_both_fields() {
    let fields = decode_reply("{\"score\": 3, \"explanation\": \"why\", \"other\": []}").unwrap();
    assert!(matches!(fields.score, Member::Found(3)));
    match fields.explanation {
        Member::Found(text) => assert_eq!(text, "why"),
        other => panic!("unexpected member {:?}", other),
    }
    let fields = decode_reply("{\"score\": true}").unwrap();
    assert!(matches!(fields.score, Member::Unexpected));
    assert!(matches!(fields.explanation, Member::Absent));
    let fields = decode_reply("[1, 2]").unwrap();
    assert!(matches!(fields.score, Member::Absent));
    assert!(matches!(fields.explanation, Member::Absent));
    assert_eq!(decode_reply("").unwrap_err(), "EOF while parsing a value at line 1 column 0");
}

#[test]
fn checking_turns_decoded_fields_into_a_result() {
    let decoded =
        Ok(DecodedReply { score: Member::Found(8), explanation: Member::Found("good".to_string()) });
    let result = check_reply("{...}", decoded).unwrap();
    assert_eq!(result.score, 8);
    assert_eq!(result.explanation, "good");
    match check_reply("{...}", Err("broken".to_string())).unwrap_err() {
        ParseError::Decode { reason, span } => {
            assert_eq!(reason, "broken");
            assert_eq!(span, "{...}");
        }
        other => panic!("unexpected error {:?}", other),
    }
}
