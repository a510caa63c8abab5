//! The caller-facing request model: messages, roles, the system-prompt rule,
//! and credential-header validation.

use vstd::prelude::*;
use crate::error::ApiError;

verus! {

/// Who authored a message.
#[derive(Clone, Copy, PartialEq, Eq, Structural, Debug)]
pub enum Role {
    System,
    User,
    Assistant,
}

/// One entry of the caller-supplied conversation.
#[derive(Debug, PartialEq)]
pub struct Message {
    pub role: Role,
    pub content: String,
}

/// The mathematical value of a [`Message`].
#[verifier::ext_equal]
pub struct MessageModel {
    pub role: Role,
    pub content: Seq<char>,
}

impl View for Message {
    type V = MessageModel;

    open spec fn view(&self) -> MessageModel {
        MessageModel { role: self.role, content: self.content@ }
    }
}

impl DeepView for Message {
    type V = MessageModel;

    open spec fn deep_view(&self) -> MessageModel {
        self.view()
    }
}

/// Copies a message list; the copy has the same mathematical value.
pub fn clone_messages(messages: &Vec<Message>) -> (r: Vec<Message>)
    ensures
        r.deep_view() == messages.deep_view(),
{
    let mut r: Vec<Message> = Vec::new();
    let mut i: usize = 0;
    while i < messages.len()
        invariant
            i <= messages@.len(),
            r@.len() == i,
            forall|j: int| 0 <= j < i ==> #[trigger] r@[j]@ == messages@[j]@,
        decreases messages@.len() - i,
    {
        r.push(Message { role: messages[i].role, content: messages[i].content.clone() });
        i = i + 1;
    }
    proof {
        assert(r.deep_view() =~= messages.deep_view());
    }
    r
}

/// A chat request after JSON decoding: the conversation, the two mode flags,
/// and an optional system prompt. Provider-specific sampling options are
/// plumbing for the provider clients and stay outside the library.
pub struct ApiRequest {
    pub messages: Vec<Message>,
    pub stream: bool,
    pub verbose: bool,
    pub system_prompt: Option<String>,
}

impl ApiRequest {
    /// The system-prompt rule: a system-role message may stand only at the
    /// head of the list, and when a separate system prompt is supplied it is
    /// the sole system entry, so the list itself holds none.
    pub open spec fn spec_system_prompt_ok(self) -> bool {
        &&& forall|i: int| 1 <= i < self.messages@.len() ==> !(self.messages@[i].role is System)
        &&& self.system_prompt is Some ==> forall|i: int|
            0 <= i < self.messages@.len() ==> !(self.messages@[i].role is System)
    }

    /// Decides the system-prompt rule.
    pub fn validate_system_prompt(&self) -> (ok: bool)
        ensures
            ok == self.spec_system_prompt_ok(),
    {
        let has_prompt = self.system_prompt.is_some();
        let mut i: usize = 0;
        while i < self.messages.len()
            invariant
                i <= self.messages@.len(),
                forall|j: int| 1 <= j < i ==> !(self.messages@[j].role is System),
                has_prompt == (self.system_prompt is Some),
                has_prompt ==> forall|j: int| 0 <= j < i ==> !(self.messages@[j].role is System),
            decreases self.messages@.len() - i,
        {
            match self.messages[i].role {
                Role::System => {
                    if i > 0 || has_prompt {
                        return false;
                    }
                },
                _ => {},
            }
            i = i + 1;
        }
        true
    }

    /// The request's own system prompt, if any.
    pub fn get_system_prompt(&self) -> (r: Option<&String>)
        ensures
            r is Some <==> self.system_prompt is Some,
            r is Some ==> r->0@ == self.system_prompt->0@,
    {
        self.system_prompt.as_ref()
    }

    /// The conversation the providers see: the system prompt, when present,
    /// becomes the leading system-role entry.
    pub open spec fn spec_messages_with_system(self) -> Seq<MessageModel> {
        match self.system_prompt {
            Some(prompt) => seq![MessageModel { role: Role::System, content: prompt@ }]
                + self.messages.deep_view(),
            None => self.messages.deep_view(),
        }
    }

    /// Builds the conversation the providers see.
    pub fn get_messages_with_system(&self) -> (r: Vec<Message>)
        ensures
            r.deep_view() == self.spec_messages_with_system(),
    {
        match &self.system_prompt {
            Some(prompt) => {
                let mut r: Vec<Message> = Vec::new();
                r.push(Message { role: Role::System, content: prompt.clone() });
                let mut rest = clone_messages(&self.messages);
                r.append(&mut rest);
                proof {
                    assert(r.deep_view() =~= self.spec_messages_with_system());
                }
                r
            },
            None => {
                let r = clone_messages(&self.messages);
                r
            },
        }
    }
}

/// Validates a request and yields the conversation to send upstream. Both
/// the single-response path and the streaming path go through this one
/// function, so the two reject an ill-placed system prompt identically,
/// before either provider is contacted.
pub fn prepare_request_messages(request: &ApiRequest) -> (r: Result<Vec<Message>, ApiError>)
    ensures
        r is Ok <==> request.spec_system_prompt_ok(),
        r is Ok ==> r->Ok_0.deep_view() == request.spec_messages_with_system(),
        r is Err ==> r->Err_0 is InvalidSystemPrompt,
{
    if !request.validate_system_prompt() {
        return Err(ApiError::InvalidSystemPrompt);
    }
    Ok(request.get_messages_with_system())
}

/// The default output-token budget used when a request does not set one.
pub fn effective_max_tokens(requested: Option<u32>) -> (r: u32)
    ensures
        requested is Some ==> r == requested->0,
        requested is None ==> r == 2048,
{
    match requested {
        Some(m) => m,
        None => 2048,
    }
}

/// A credential header's bytes form a token when every byte is printable
/// ASCII.
pub open spec fn spec_header_token_ok(bytes: Seq<u8>) -> bool {
    forall|i: int| 0 <= i < bytes.len() ==> 32 <= #[trigger] bytes[i] <= 126
}

/// The characters a printable-ASCII header decodes to.
pub open spec fn spec_token_chars(bytes: Seq<u8>) -> Seq<char> {
    bytes.map_values(|b: u8| b as char)
}

/// Relies on `String::from_utf8`: ASCII bytes are valid UTF-8 and decode to
/// the characters with the same code points.
#[verifier::external_body]
fn ascii_bytes_to_string(bytes: &Vec<u8>) -> (r: String)
    requires
        spec_header_token_ok(bytes@),
    ensures
        r@ == spec_token_chars(bytes@),
{
    String::from_utf8(bytes.clone()).unwrap_or_default()
}

fn token_bytes_ok(bytes: &Vec<u8>) -> (ok: bool)
    ensures
        ok == spec_header_token_ok(bytes@),
{
    let mut i: usize = 0;
    while i < bytes.len()
        invariant
            i <= bytes@.len(),
            forall|j: int| 0 <= j < i ==> 32 <= #[trigger] bytes@[j] <= 126,
        decreases bytes@.len() - i,
    {
        let b = bytes[i];
        if b < 32 || b > 126 {
            return false;
        }
        i = i + 1;
    }
    true
}

/// Extracts the two per-provider credential tokens from the raw header
/// bytes the transport saw: `None` for an absent header. An absent header
/// is `HeaderMissing`; a header with a byte outside printable ASCII is
/// `BadRequest`; the DeepSeek header is examined first.
pub fn extract_api_tokens(
    deepseek_header: Option<&Vec<u8>>,
    gemini_header: Option<&Vec<u8>>,
) -> (r: Result<(String, String), ApiError>)
    ensures
        deepseek_header is None ==> (r matches Err(ApiError::HeaderMissing { header })
            && header@ == "X-DeepSeek-API-Token"@),
        deepseek_header is Some && !spec_header_token_ok(deepseek_header->0@) ==> (r matches Err(
            ApiError::BadRequest { message },
        ) && message@ == "Invalid DeepSeek API token"@),
        deepseek_header is Some && spec_header_token_ok(deepseek_header->0@) && gemini_header
            is None ==> (r matches Err(ApiError::HeaderMissing { header }) && header@
            == "X-Gemini-API-Token"@),
        deepseek_header is Some && spec_header_token_ok(deepseek_header->0@) && gemini_header
            is Some && !spec_header_token_ok(gemini_header->0@) ==> (r matches Err(
            ApiError::BadRequest { message },
        ) && message@ == "Invalid Gemini API token"@),
        deepseek_header is Some && spec_header_token_ok(deepseek_header->0@) && gemini_header
            is Some && spec_header_token_ok(gemini_header->0@) ==> (r matches Ok(t) && t.0@
            == spec_token_chars(deepseek_header->0@) && t.1@ == spec_token_chars(
            gemini_header->0@,
        )),
{
    let deepseek_bytes = match deepseek_header {
        None => {
            return Err(
                ApiError::HeaderMissing { header: String::from_str("X-DeepSeek-API-Token") },
            );
        },
        Some(b) => b,
    };
    if !token_bytes_ok(deepseek_bytes) {
        return Err(ApiError::BadRequest { message: String::from_str("Invalid DeepSeek API token") });
    }
    let gemini_bytes = match gemini_header {
        None => {
            return Err(ApiError::HeaderMissing { header: String::from_str("X-Gemini-API-Token") });
        },
        Some(b) => b,
    };
    if !token_bytes_ok(gemini_bytes) {
        return Err(ApiError::BadRequest { message: String::from_str("Invalid Gemini API token") });
    }
    Ok((ascii_bytes_to_string(deepseek_bytes), ascii_bytes_to_string(gemini_bytes)))
}

} // verus!
