use deepgemini::error::ApiError;
use deepgemini::request::{extract_api_tokens, prepare_request_messages, ApiRequest, Message, Role};

fn msg(role: Role, content: &str) -> Message {
    Message { role, content: content.to_string() }
}

fn request(messages: Vec<Message>, system_prompt: Option<&str>) -> ApiRequest {
    ApiRequest {
        messages,
        stream: false,
        verbose: false,
        system_prompt: system_prompt.map(|s| s.to_string()),
    }
}

#[test]
fn plain_conversation_is_valid() {
    let r = request(vec![msg(Role::User, "hi"), msg(Role::Assistant, "hello")], None);
    assert!(r.validate_system_prompt());
}

#[test]
fn leading_system_message_is_valid() {
    let r = request(vec![msg(Role::System, "be brief"), msg(Role::User, "hi")], None);
    assert!(r.validate_system_prompt());
}

#[test]
fn system_message_not_at_head_is_invalid() {
    let r = request(vec![msg(Role::User, "hi"), msg(Role::System, "be brief")], None);
    assert!(!r.validate_system_prompt());
    assert_eq!(prepare_request_messages(&r), Err(ApiError::InvalidSystemPrompt));
}

#[test]
fn system_prompt_beside_system_message_is_invalid() {
    let r = request(vec![msg(Role::System, "be brief"), msg(Role::User, "hi")], Some("be kind"));
    assert!(!r.validate_system_prompt());
    assert_eq!(prepare_request_messages(&r), Err(ApiError::InvalidSystemPrompt));
}

#[test]
fn validation_is_shared_by_both_paths() {
    // the streaming flag plays no part in validation: the same request is
    // rejected identically whichever path the caller asked for
    let mut r = request(vec![msg(Role::User, "hi"), msg(Role::System, "x")], None);
    r.stream = false;
    assert_eq!(prepare_request_messages(&r), Err(ApiError::InvalidSystemPrompt));
    r.stream = true;
    assert_eq!(prepare_request_messages(&r), Err(ApiError::InvalidSystemPrompt));
}

#[test]
fn system_prompt_becomes_leading_message() {
    let r = request(vec![msg(Role::User, "hi")], Some("be kind"));
    let msgs = prepare_request_messages(&r).unwrap();
    assert_eq!(msgs, vec![msg(Role::System, "be kind"), msg(Role::User, "hi")]);
}

#[test]
fn empty_conversation_passes_validation() {
    let r = request(vec![], None);
    let msgs = prepare_request_messages(&r).unwrap();
    assert_eq!(msgs, vec![]);
}

#[test]
fn get_system_prompt_returns_the_field() {
    let r = request(vec![], Some("be kind"));
    assert_eq!(r.get_system_prompt(), Some(&"be kind".to_string()));
    let r = request(vec![], None);
    assert_eq!(r.get_system_prompt(), None);
}

#[test]
fn both_tokens_extracted() {
    let ds = b"sk-deepseek-123".to_vec();
    let gm = b"AIza-gemini-456".to_vec();
    let r = extract_api_tokens(Some(&ds), Some(&gm)).unwrap();
    assert_eq!(r.0, "sk-deepseek-123");
    assert_eq!(r.1, "AIza-gemini-456");
}

#[test]
fn missing_deepseek_header() {
    let gm = b"tok".to_vec();
    let r = extract_api_tokens(None, Some(&gm));
    assert_eq!(r, Err(ApiError::HeaderMissing { header: "X-DeepSeek-API-Token".to_string() }));
}

#[test]
fn missing_gemini_header() {
    let ds = b"tok".to_vec();
    let r = extract_api_tokens(Some(&ds), None);
    assert_eq!(r, Err(ApiError::HeaderMissing { header: "X-Gemini-API-Token".to_string() }));
}

#[test]
fn malformed_deepseek_header_is_bad_request() {
    let ds = vec![b's', b'k', 0x07];
    let gm = b"tok".to_vec();
    let r = extract_api_tokens(Some(&ds), Some(&gm));
    assert_eq!(r, Err(ApiError::BadRequest { message: "Invalid DeepSeek API token".to_string() }));
}

#[test]
fn malformed_gemini_header_is_bad_request() {
    let ds = b"tok".to_vec();
    let gm = vec![0xFF];
    let r = extract_api_tokens(Some(&ds), Some(&gm));
    assert_eq!(r, Err(ApiError::BadRequest { message: "Invalid Gemini API token".to_string() }));
}
