//! What is said to the chat-completion backend, and what is made of its
//! answer.
//!
//! Sending the request is left to the caller. Decided here are the request
//! itself (two messages, the token limit, the sampling temperature), the
//! header that carries the credential, and which part of an answer counts
//! as the model's reply.

use crate::text::texts;
use vstd::prelude::*;

verus! {

/// The token limit of every request.
pub const MAX_TOKENS: u32 = 1000;

/// The sampling temperature of every request, in tenths.
pub const TEMPERATURE_TENTHS: u32 = 7;

/// How a backend expects the credential.
#[derive(Debug, Clone, Copy, PartialEq, Eq, Structural)]
pub enum CallType {
    /// In a header of its own, `api-key`.
    ApiKey,
    /// As a bearer token in the `Authorization` header.
    Bearer,
}

/// One message of a chat.
#[derive(Debug)]
pub struct ChatMessage {
    pub role: String,
    pub content: String,
}

/// The mathematical content of a [`ChatMessage`].
pub struct ChatMessageView {
    pub role: Seq<char>,
    pub content: Seq<char>,
}

impl View for ChatMessage {
    type V = ChatMessageView;

    open spec fn view(&self) -> ChatMessageView {
        ChatMessageView { role: self.role@, content: self.content@ }
    }
}

/// A chat-completion request.
#[derive(Debug)]
pub struct ChatRequest {
    pub model: String,
    pub messages: Vec<ChatMessage>,
    pub max_tokens: u32,
    pub temperature_tenths: u32,
}

/// The mathematical content of a [`ChatRequest`].
pub struct ChatRequestView {
    pub model: Seq<char>,
    pub messages: Seq<ChatMessageView>,
    pub max_tokens: nat,
    pub temperature_tenths: nat,
}

impl View for ChatRequest {
    type V = ChatRequestView;

    open spec fn view(&self) -> ChatRequestView {
        ChatRequestView {
            model: self.model@,
            messages: self.messages@.map_values(|m: ChatMessage| m@),
            max_tokens: self.max_tokens as nat,
            temperature_tenths: self.temperature_tenths as nat,
        }
    }
}

/// The header that carries the credential.
#[derive(Debug)]
pub struct AuthHeader {
    pub name: String,
    pub value: String,
}

/// The user message that asks for the evaluation of one file: a line that
/// names the file, then its content in a code fence.
pub open spec fn user_message_text(path: Seq<char>, content: Seq<char>) -> Seq<char> {
    "Please evaluate this source code file '"@ + path + "':\n\n```\n"@ + content + "\n```"@
}

/// The request for one file: the system message with the rubric's prompt,
/// then the user message.
pub open spec fn request_of(
    model: Seq<char>,
    system_prompt: Seq<char>,
    user_message: Seq<char>,
) -> ChatRequestView {
    ChatRequestView {
        model,
        messages: seq![
            ChatMessageView { role: "system"@, content: system_prompt },
            ChatMessageView { role: "user"@, content: user_message },
        ],
        max_tokens: MAX_TOKENS as nat,
        temperature_tenths: TEMPERATURE_TENTHS as nat,
    }
}

/// The name of the header that carries the credential.
pub open spec fn auth_header_name(call_type: CallType) -> Seq<char> {
    match call_type {
        CallType::ApiKey => "api-key"@,
        CallType::Bearer => "Authorization"@,
    }
}

/// The value of the header that carries the credential.
pub open spec fn auth_header_value(call_type: CallType, credential: Seq<char>) -> Seq<char> {
    match call_type {
        CallType::ApiKey => credential,
        CallType::Bearer => "Bearer "@ + credential,
    }
}

/// An HTTP status in the range of success, 200 to 299.
pub open spec fn status_is_success(status: u16) -> bool {
    200 <= status < 300
}

/// Why a call gave no reply.
#[derive(Debug)]
pub enum ClientError {
    /// The backend answered with a status outside the range of success.
    Status { code: u16, body: String },
    /// The backend answered, but offered no choice.
    NoChoices,
}

/// The mathematical content of a [`ClientError`].
pub enum ClientErrorView {
    Status { code: u16, body: Seq<char> },
    NoChoices,
}

impl View for ClientError {
    type V = ClientErrorView;

    open spec fn view(&self) -> ClientErrorView {
        match self {
            ClientError::Status { code, body } => ClientErrorView::Status {
                code: *code,
                body: body@,
            },
            ClientError::NoChoices => ClientErrorView::NoChoices,
        }
    }
}

/// What an answer counts for: the content of its first choice, where the
/// status is one of success and there is a choice.
pub open spec fn reply_of(status: u16, body: Seq<char>, choices: Seq<Seq<char>>) -> Result<
    Seq<char>,
    ClientErrorView,
> {
    if !status_is_success(status) {
        Err(ClientErrorView::Status { code: status, body })
    } else if choices.len() == 0 {
        Err(ClientErrorView::NoChoices)
    } else {
        Ok(choices[0])
    }
}

/// The text of `error`, as it is reported to the user.
pub open spec fn client_error_message(error: ClientErrorView) -> Seq<char> {
    match error {
        ClientErrorView::Status { code, body } => "Azure OpenAI API error: "@ + body,
        ClientErrorView::NoChoices => "No response from Azure OpenAI"@,
    }
}

impl ClientError {
    /// Describes the error in one line.
    pub fn message(&self) -> (text: String)
        ensures
            text@ == client_error_message(self@),
    {
        match self {
            ClientError::Status { code, body } => {
                let mut text = String::from_str("Azure OpenAI API error: ");
                text.append(body.as_str());
                text
            },
            ClientError::NoChoices => String::from_str("No response from Azure OpenAI"),
        }
    }
}

/// Writes the user message for the file at `path` with content `content`.
pub fn user_message(path: &str, content: &str) -> (text: String)
    ensures
        text@ == user_message_text(path@, content@),
{
    let mut text = String::from_str("Please evaluate this source code file '");
    text.append(path);
    text.append("':\n\n```\n");
    text.append(content);
    text.append("\n```");
    text
}

/// Builds the request that asks `model` to judge `user_message` under
/// `system_prompt`.
pub fn build_request(model: &str, system_prompt: &str, user_message: &str) -> (request:
    ChatRequest)
    ensures
        request@ == request_of(model@, system_prompt@, user_message@),
{
    let mut messages: Vec<ChatMessage> = Vec::new();
    messages.push(
        ChatMessage {
            role: String::from_str("system"),
            content: String::from_str(system_prompt),
        },
    );
    messages.push(
        ChatMessage { role: String::from_str("user"), content: String::from_str(user_message) },
    );
    let request = ChatRequest {
        model: String::from_str(model),
        messages,
        max_tokens: MAX_TOKENS,
        temperature_tenths: TEMPERATURE_TENTHS,
    };
    assert(request@.messages =~= request_of(model@, system_prompt@, user_message@).messages);
    request
}

/// Builds the header that carries `credential` to a backend of the given
/// kind.
pub fn auth_header(call_type: CallType, credential: &str) -> (header: AuthHeader)
    ensures
        header.name@ == auth_header_name(call_type),
        header.value@ == auth_header_value(call_type, credential@),
{
    match call_type {
        CallType::ApiKey => AuthHeader {
            name: String::from_str("api-key"),
            value: String::from_str(credential),
        },
        CallType::Bearer => {
            let mut value = String::from_str("Bearer ");
            value.append(credential);
            AuthHeader { name: String::from_str("Authorization"), value }
        },
    }
}

/// Decides whether an HTTP status is one of success.
pub fn is_success(status: u16) -> (b: bool)
    ensures
        b == status_is_success(status),
{
    200 <= status && status < 300
}

/// Picks the model's reply out of an answer. `body` is the text of the
/// answer, which is reported where the status is not one of success;
/// `choices` are the message contents of the choices it offers, in order.
pub fn reply_text(status: u16, body: &str, choices: &[String]) -> (r: Result<String, ClientError>)
    ensures
        (match r {
            Ok(text) => reply_of(status, body@, texts(choices@)) == Ok::<
                Seq<char>,
                ClientErrorView,
            >(text@),
            Err(error) => reply_of(status, body@, texts(choices@)) == Err::<
                Seq<char>,
                ClientErrorView,
            >(error@),
        }),
{
    if !is_success(status) {
        Err(ClientError::Status { code: status, body: String::from_str(body) })
    } else if choices.len() == 0 {
        Err(ClientError::NoChoices)
    } else {
        Ok(choices[0].clone())
    }
}

} // verus!
