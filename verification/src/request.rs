//! The request of one completion: where it goes, what its headers say, and
//! the JSON document in its body.

use vstd::prelude::*;
use crate::json::{
    empty_object, model_of, number_value, render_value, rendered, text_value, unsigned_number,
    unsigned_value, value_member, with_member, JsonModel,
};
use crate::transcript::{MessageView, Transcript};
use crate::wire::{
    decode_messages, encode_messages, lemma_messages_round_trip, member, message_pairs,
    messages_json, pairs_of, pairs_view, Pair,
};

verus! {

/// What a completion is asked with. Nothing in it is checked here: each
/// field goes into the request as it is.
#[derive(Debug)]
pub struct RequestConfig {
    /// The base URL of the API, without a slash at its end.
    pub endpoint_base: String,
    /// The bearer token.
    pub api_key: String,
    /// The name of the model.
    pub model: String,
    /// The sampling temperature, as the JSON number that is sent.
    pub temperature: serde_json::Number,
    /// The most tokens that the reply may have.
    pub max_tokens: u32,
}

/// An HTTP POST, ready to be sent.
#[derive(Clone, Debug, PartialEq, Eq)]
pub struct HttpRequest {
    /// The address that the request is posted to.
    pub url: String,
    /// The value of the header `Content-Type`.
    pub content_type: String,
    /// The value of the header `Authorization`.
    pub authorization: String,
    /// The body.
    pub body: String,
}

/// The address of the completion endpoint under a base URL.
pub open spec fn endpoint_url(endpoint_base: Seq<char>) -> Seq<char> {
    endpoint_base + "/chat/completions"@
}

/// The `Authorization` header that carries a bearer token.
pub open spec fn bearer(api_key: Seq<char>) -> Seq<char> {
    "Bearer "@ + api_key
}

/// The document that asks for the next message of a conversation.
pub open spec fn request_json(
    messages: Seq<MessageView>,
    model: Seq<char>,
    temperature: serde_json::Number,
    max_tokens: u32,
) -> JsonModel {
    JsonModel::Object(
        map![
            "model"@ => JsonModel::Text(model),
            "messages"@ => messages_json(messages),
            "temperature"@ => JsonModel::Number(temperature),
            "max_tokens"@ => JsonModel::Number(unsigned_number(max_tokens as u64)),
        ],
    )
}

/// The role names and contents under `messages` in a request document,
/// where it has that member and the member is an array of messages.
pub open spec fn request_messages(document: JsonModel) -> Option<Seq<Pair>> {
    match member(document, "messages"@) {
        Some(list) => message_pairs(list),
        None => None,
    }
}

/// The document of the request: the model, the whole conversation, the
/// temperature and the token limit.
pub fn request_value(transcript: &Transcript, config: &RequestConfig) -> (value: serde_json::Value)
    ensures
        model_of(value) == request_json(
            transcript@,
            config.model@,
            config.temperature,
            config.max_tokens,
        ),
{
    let messages = transcript.as_sequence();
    let object = empty_object();
    let object = with_member(object, "model", text_value(config.model.as_str()));
    let object = with_member(object, "messages", encode_messages(messages));
    let object = with_member(object, "temperature", number_value(&config.temperature));
    with_member(object, "max_tokens", unsigned_value(config.max_tokens))
}

/// The request that asks the API for the next message of the conversation.
pub fn build_request(transcript: &Transcript, config: &RequestConfig) -> (request: HttpRequest)
    ensures
        request.url@ == endpoint_url(config.endpoint_base@),
        request.content_type@ == "application/json"@,
        request.authorization@ == bearer(config.api_key@),
        request.body@ == rendered(
            request_json(transcript@, config.model@, config.temperature, config.max_tokens),
        ),
{
    let url = config.endpoint_base.clone().concat("/chat/completions");
    let authorization = String::from_str("Bearer ").concat(config.api_key.as_str());
    let body = render_value(&request_value(transcript, config));
    HttpRequest { url, content_type: String::from_str("application/json"), authorization, body }
}

/// Reads the conversation back out of a request document.
pub fn read_request_messages(value: &serde_json::Value) -> (pairs: Option<Vec<(String, String)>>)
    ensures
        match pairs {
            Some(held) => request_messages(model_of(*value)) == Some(pairs_view(held@)),
            None => request_messages(model_of(*value)) is None,
        },
{
    match value_member(value, "messages") {
        Some(list) => decode_messages(list),
        None => None,
    }
}

/// The conversation that is read back out of a request document is the one
/// that was written into it: the same role names and contents in the same
/// order.
pub proof fn lemma_request_round_trip(
    messages: Seq<MessageView>,
    model: Seq<char>,
    temperature: serde_json::Number,
    max_tokens: u32,
)
    ensures
        request_messages(request_json(messages, model, temperature, max_tokens)) == Some(
            pairs_of(messages),
        ),
{
    reveal_strlit("messages");
    reveal_strlit("temperature");
    reveal_strlit("max_tokens");
    assert("messages"@.len() != "temperature"@.len());
    assert("messages"@.len() != "max_tokens"@.len());
    lemma_messages_round_trip(messages);
}

} // verus!
