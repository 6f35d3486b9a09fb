use llm_chat::request::{build_request, read_request_messages, request_value, RequestConfig};
use llm_chat::transcript::Transcript;
use llm_chat::wire::{decode_message, decode_messages, encode_message, encode_messages};
use llm_chat::transcript::{Message, Role};

fn config() -> RequestConfig {
    RequestConfig {
        endpoint_base: "http://localhost:1234/v1".to_string(),
        api_key: "lm-studio".to_string(),
        model: "TheBloke/dolphin-2.2.1-mistral-7B-GGUF".to_string(),
        temperature: serde_json::Number::from_f64(1.1).unwrap(),
        max_tokens: 140,
    }
}

fn pair(role: &str, content: &str) -> (String, String) {
    (role.to_string(), content.to_string())
}

#[test]
fn request_goes_to_the_chat_completions_endpoint() {
    let transcript = Transcript::new("sys".to_string());
    let request = build_request(&transcript, &config());
    assert_eq!(request.url, "http://localhost:1234/v1/chat/completions");
}

#[test]
fn request_url_is_not_checked_or_cleaned() {
    let transcript = Transcript::new("sys".to_string());
    let mut config = config();
    config.endpoint_base = "not a url/".to_string();
    let request = build_request(&transcript, &config);
    assert_eq!(request.url, "not a url//chat/completions");
}

#[test]
fn request_headers_name_json_and_the_bearer_token() {
    let transcript = Transcript::new("sys".to_string());
    let request = build_request(&transcript, &config());
    assert_eq!(request.content_type, "application/json");
    assert_eq!(request.authorization, "Bearer lm-studio");
}

#[test]
fn request_body_is_the_compact_document() {
    let mut transcript = Transcript::new("You are a helpful assistant.".to_string());
    transcript.append_user("Hi".to_string());
    let request = build_request(&transcript, &config());
    assert_eq!(
        request.body,
        "{\"max_tokens\":140,\"messages\":[{\"content\":\"You are a helpful assistant.\",\
         \"role\":\"system\"},{\"content\":\"Hi\",\"role\":\"user\"}],\
         \"model\":\"TheBloke/dolphin-2.2.1-mistral-7B-GGUF\",\"temperature\":1.1}"
    );
}

#[test]
fn request_body_escapes_what_json_escapes() {
    let mut transcript = Transcript::new("sys".to_string());
    transcript.append_user("a \"quoted\" line\nand a back\\slash".to_string());
    let request = build_request(&transcript, &config());
    assert!(request
        .body
        .contains("\"content\":\"a \\\"quoted\\\" line\\nand a back\\\\slash\""));
}

#[test]
fn request_value_has_the_four_members() {
    let mut transcript = Transcript::new("sys".to_string());
    transcript.append_user("one".to_string());
    transcript.append_assistant("two".to_string());
    let value = request_value(&transcript, &config());
    let object = value.as_object().unwrap();
    assert_eq!(object.len(), 4);
    assert_eq!(
        value.get("model").unwrap().as_str(),
        Some("TheBloke/dolphin-2.2.1-mistral-7B-GGUF")
    );
    assert_eq!(value.get("max_tokens").unwrap().as_u64(), Some(140));
    assert_eq!(value.get("temperature").unwrap().as_f64(), Some(1.1));
    let messages = value.get("messages").unwrap().as_array().unwrap();
    assert_eq!(messages.len(), 3);
    assert_eq!(messages[0].get("role").unwrap().as_str(), Some("system"));
    assert_eq!(messages[0].get("content").unwrap().as_str(), Some("sys"));
    assert_eq!(messages[1].get("role").unwrap().as_str(), Some("user"));
    assert_eq!(messages[1].get("content").unwrap().as_str(), Some("one"));
    assert_eq!(messages[2].get("role").unwrap().as_str(), Some("assistant"));
    assert_eq!(messages[2].get("content").unwrap().as_str(), Some("two"));
    assert_eq!(messages[2].as_object().unwrap().len(), 2);
}

#[test]
fn request_carries_the_temperature_as_it_is() {
    let transcript = Transcript::new("sys".to_string());
    let mut config = config();
    config.temperature = serde_json::Number::from_f64(f64::from(1.1f32)).unwrap();
    config.max_tokens = 0;
    let request = build_request(&transcript, &config);
    assert!(request.body.contains("\"temperature\":1.100000023841858"));
    assert!(request.body.starts_with("{\"max_tokens\":0,"));
    config.temperature = serde_json::Number::from(2u32);
    config.max_tokens = u32::MAX;
    let request = build_request(&transcript, &config);
    assert!(request.body.ends_with("\"temperature\":2}"));
    assert!(request.body.starts_with("{\"max_tokens\":4294967295,"));
}

#[test]
fn building_a_request_leaves_the_transcript_alone() {
    let mut transcript = Transcript::new("sys".to_string());
    transcript.append_user("one".to_string());
    let before = transcript.as_sequence().clone();
    let first = build_request(&transcript, &config());
    let second = build_request(&transcript, &config());
    assert_eq!(first, second);
    assert_eq!(transcript.as_sequence(), &before);
}

#[test]
fn request_round_trip_through_the_body_text() {
    let mut transcript = Transcript::new("You are a helpful assistant.".to_string());
    transcript.append_user("What is \"JSON\"?\n\tTell me, na\u{ef}vely \u{1F600}".to_string());
    transcript.append_assistant("A format: {\"k\": [1, 2]} \\ \u{0}\u{7f}".to_string());
    transcript.append_user(String::new());
    let request = build_request(&transcript, &config());
    let reread: serde_json::Value = serde_json::from_str(&request.body).unwrap();
    let pairs = read_request_messages(&reread).unwrap();
    let expected: Vec<(String, String)> = transcript
        .as_sequence()
        .iter()
        .map(|message| (message.role().as_str().to_string(), message.content().to_string()))
        .collect();
    assert_eq!(pairs, expected);
    assert_eq!(pairs[0], pair("system", "You are a helpful assistant."));
    assert_eq!(pairs[3], pair("user", ""));
    assert_eq!(pairs.len(), 4);
}

#[test]
fn request_round_trip_through_the_document() {
    let mut transcript = Transcript::new("sys".to_string());
    transcript.append_user("one".to_string());
    transcript.append_assistant("two".to_string());
    let pairs = read_request_messages(&request_value(&transcript, &config())).unwrap();
    assert_eq!(
        pairs,
        vec![pair("system", "sys"), pair("user", "one"), pair("assistant", "two")]
    );
}

#[test]
fn read_request_messages_refuses_other_documents() {
    let no_member: serde_json::Value = serde_json::from_str("{\"model\":\"m\"}").unwrap();
    assert_eq!(read_request_messages(&no_member), None);
    let no_array: serde_json::Value = serde_json::from_str("{\"messages\":{}}").unwrap();
    assert_eq!(read_request_messages(&no_array), None);
    let no_object: serde_json::Value = serde_json::from_str("[1]").unwrap();
    assert_eq!(read_request_messages(&no_object), None);
    let empty: serde_json::Value = serde_json::from_str("{\"messages\":[]}").unwrap();
    assert_eq!(read_request_messages(&empty), Some(Vec::new()));
}

#[test]
fn encode_message_writes_role_and_content() {
    let value = encode_message(&Message::new(Role::Assistant, "fine".to_string()));
    assert_eq!(value.to_string(), "{\"content\":\"fine\",\"role\":\"assistant\"}");
}

#[test]
fn encode_messages_keeps_the_order() {
    let list = vec![
        Message::new(Role::System, "s".to_string()),
        Message::new(Role::User, "u".to_string()),
    ];
    let value = encode_messages(&list);
    assert_eq!(
        value.to_string(),
        "[{\"content\":\"s\",\"role\":\"system\"},{\"content\":\"u\",\"role\":\"user\"}]"
    );
    assert_eq!(encode_messages(&Vec::new()).to_string(), "[]");
}

#[test]
fn decode_message_reads_role_and_content() {
    let value: serde_json::Value =
        serde_json::from_str("{\"role\":\"tool\",\"content\":\"x\",\"name\":\"n\"}").unwrap();
    assert_eq!(decode_message(&value), Some(pair("tool", "x")));
}

#[test]
fn decode_message_wants_both_members_as_strings() {
    for text in [
        "{\"role\":\"user\"}",
        "{\"content\":\"x\"}",
        "{\"role\":\"user\",\"content\":null}",
        "{\"role\":1,\"content\":\"x\"}",
        "[\"user\",\"x\"]",
        "\"user\"",
        "null",
    ] {
        let value: serde_json::Value = serde_json::from_str(text).unwrap();
        assert_eq!(decode_message(&value), None, "{}", text);
    }
}

#[test]
fn decode_messages_is_spoiled_by_one_bad_item() {
    let good: serde_json::Value = serde_json::from_str(
        "[{\"role\":\"a\",\"content\":\"1\"},{\"role\":\"b\",\"content\":\"2\"}]",
    )
    .unwrap();
    assert_eq!(decode_messages(&good), Some(vec![pair("a", "1"), pair("b", "2")]));
    let bad: serde_json::Value =
        serde_json::from_str("[{\"role\":\"a\",\"content\":\"1\"},{\"role\":\"b\"}]").unwrap();
    assert_eq!(decode_messages(&bad), None);
    let no_array: serde_json::Value = serde_json::from_str("{}").unwrap();
    assert_eq!(decode_messages(&no_array), None);
}
