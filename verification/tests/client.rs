use cairs::client::{
    auth_header, build_request, is_success, reply_text, user_message, CallType, ClientError,
    MAX_TOKENS, TEMPERATURE_TENTHS,
};

#[test]
fn user_message_names_the_file_and_fences_its_content() {
    assert_eq!(
        user_message("src/main.rs", "fn main() {}"),
        "Please evaluate this source code file 'src/main.rs':\n\n```\nfn main() {}\n```"
    );
    assert_eq!(user_message("", ""), "Please evaluate this source code file '':\n\n```\n\n```");
}

#[test]
fn request_holds_the_system_message_then_the_user_message() {
    let request = build_request("gpt-4", "Judge clarity.", "Please evaluate");
    assert_eq!(request.model, "gpt-4");
    assert_eq!(request.messages.len(), 2);
    assert_eq!(request.messages[0].role, "system");
    assert_eq!(request.messages[0].content, "Judge clarity.");
    assert_eq!(request.messages[1].role, "user");
    assert_eq!(request.messages[1].content, "Please evaluate");
    assert_eq!(request.max_tokens, 1000);
    assert_eq!(request.temperature_tenths, 7);
    assert_eq!((MAX_TOKENS, TEMPERATURE_TENTHS), (1000, 7));
    assert_eq!(request.temperature_tenths as f32 / 10.0, 0.7f32);
}

#[test]
fn api_key_goes_in_a_header_of_its_own() {
    let header = auth_header(CallType::ApiKey, "secret");
    assert_eq!(header.name, "api-key");
    assert_eq!(header.value, "secret");
}

#[test]
fn bearer_token_goes_in_the_authorization_header() {
    let header = auth_header(CallType::Bearer, "secret");
    assert_eq!(header.name, "Authorization");
    assert_eq!(header.value, "Bearer secret");
}

#[test]
fn success_is_any_status_from_200_to_299() {
    for (status, success) in
        [(199, false), (200, true), (204, true), (299, true), (300, false), (404, false), (500, false), (0, false), (65535, false)]
    {
        assert_eq!(is_success(status), success, "{}", status);
    }
}

#[test]
fn reply_is_the_content_of_the_first_choice() {
    let choices = vec!["first".to_string(), "second".to_string()];
    assert_eq!(reply_text(200, "", &choices).unwrap(), "first");
}

#[test]
fn answer_without_choices_is_an_error() {
    let error = reply_text(200, "{\"choices\": []}", &[]).unwrap_err();
    assert!(matches!(error, ClientError::NoChoices));
    assert_eq!(error.message(), "No response from Azure OpenAI");
}

#[test]
fn status_outside_success_is_an_error_with_the_body() {
    let choices = vec!["ignored".to_string()];
    let error = reply_text(429, "slow down", &choices).unwrap_err();
    match &error {
        ClientError::Status { code, body } => {
            assert_eq!(*code, 429);
            assert_eq!(body, "slow down");
        }
        other => panic!("unexpected error {:?}", other),
    }
    assert_eq!(error.message(), "Azure OpenAI API error: slow down");
}
