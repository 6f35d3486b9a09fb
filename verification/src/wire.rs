//! How messages are written into and read out of JSON documents: each is an
//! object with the members `role` and `content`, both strings.

use vstd::prelude::*;
use crate::json::{
    array_value, empty_object, model_of, models_of, text_value, value_items, value_member,
    value_text, with_member, JsonModel,
};
use crate::transcript::{listing, Message, MessageView};

verus! {

/// A role name and a content, as they stand in a document.
pub type Pair = (Seq<char>, Seq<char>);

/// The role name and the content of a message.
pub open spec fn pair_of(message: MessageView) -> Pair {
    (message.role.name(), message.content)
}

/// The role names and contents of a conversation, in order.
pub open spec fn pairs_of(messages: Seq<MessageView>) -> Seq<Pair> {
    messages.map_values(|message: MessageView| pair_of(message))
}

/// The texts of a list of pairs of strings, in order.
pub open spec fn pairs_view(pairs: Seq<(String, String)>) -> Seq<Pair> {
    pairs.map_values(|pair: (String, String)| (pair.0@, pair.1@))
}

/// The document that stands for a message.
pub open spec fn message_json(message: MessageView) -> JsonModel {
    JsonModel::Object(
        map![
            "role"@ => JsonModel::Text(message.role.name()),
            "content"@ => JsonModel::Text(message.content),
        ],
    )
}

/// The array that stands for a conversation.
pub open spec fn messages_json(messages: Seq<MessageView>) -> JsonModel {
    JsonModel::Array(messages.map_values(|message: MessageView| message_json(message)))
}

/// The member `key` of an object, or `None` where the document is no object
/// or has no such member.
pub open spec fn member(document: JsonModel, key: Seq<char>) -> Option<JsonModel> {
    match document {
        JsonModel::Object(members) => if members.contains_key(key) {
            Some(members[key])
        } else {
            None
        },
        _ => None,
    }
}

/// The text of the member `key`, where the document is an object and that
/// member is a string.
pub open spec fn text_member(document: JsonModel, key: Seq<char>) -> Option<Seq<char>> {
    match member(document, key) {
        Some(JsonModel::Text(text)) => Some(text),
        _ => None,
    }
}

/// The role name and content that a document holds, where it has the shape
/// of a message.
pub open spec fn message_pair(document: JsonModel) -> Option<Pair> {
    match (text_member(document, "role"@), text_member(document, "content"@)) {
        (Some(role), Some(content)) => Some((role, content)),
        _ => None,
    }
}

/// The pairs that a document holds, where it is an array and each of its
/// items has the shape of a message.
pub open spec fn message_pairs(document: JsonModel) -> Option<Seq<Pair>> {
    match document {
        JsonModel::Array(items) => if forall|i: int|
            0 <= i < items.len() ==> message_pair(#[trigger] items[i]) is Some {
            Some(items.map_values(|item: JsonModel| message_pair(item).unwrap()))
        } else {
            None
        },
        _ => None,
    }
}

/// Writes a message as a JSON object.
pub fn encode_message(message: &Message) -> (value: serde_json::Value)
    ensures
        model_of(value) == message_json(message@),
{
    let object = empty_object();
    let object = with_member(object, "role", text_value(message.role().as_str()));
    with_member(object, "content", text_value(message.content()))
}

/// Writes a list of messages as a JSON array, in their order.
pub fn encode_messages(messages: &Vec<Message>) -> (value: serde_json::Value)
    ensures
        model_of(value) == messages_json(listing(messages)),
{
    let mut items: Vec<serde_json::Value> = Vec::new();
    let mut i: usize = 0;
    while i < messages.len()
        invariant
            i <= messages.len(),
            items@.len() == i,
            forall|j: int| 0 <= j < i ==> model_of(#[trigger] items@[j]) == message_json(messages@[j]@),
        decreases messages.len() - i,
    {
        items.push(encode_message(&messages[i]));
        i += 1;
    }
    assert(models_of(items@) =~= listing(messages).map_values(
        |message: MessageView| message_json(message),
    ));
    array_value(items)
}

/// Reads the text of the member `key` of an object.
pub fn read_text_member(value: &serde_json::Value, key: &str) -> (text: Option<String>)
    ensures
        match text {
            Some(held) => text_member(model_of(*value), key@) == Some(held@),
            None => text_member(model_of(*value), key@) is None,
        },
{
    match value_member(value, key) {
        Some(found) => match value_text(found) {
            Some(held) => Some(String::from_str(held)),
            None => None,
        },
        None => None,
    }
}

/// Reads a message: its role name and its content.
pub fn decode_message(value: &serde_json::Value) -> (pair: Option<(String, String)>)
    ensures
        match pair {
            Some(held) => message_pair(model_of(*value)) == Some((held.0@, held.1@)),
            None => message_pair(model_of(*value)) is None,
        },
{
    match read_text_member(value, "role") {
        Some(role) => match read_text_member(value, "content") {
            Some(content) => Some((role, content)),
            None => None,
        },
        None => None,
    }
}

/// Reads an array of messages. One item that is no message spoils the
/// whole array.
pub fn decode_messages(value: &serde_json::Value) -> (pairs: Option<Vec<(String, String)>>)
    ensures
        match pairs {
            Some(held) => message_pairs(model_of(*value)) == Some(pairs_view(held@)),
            None => message_pairs(model_of(*value)) is None,
        },
{
    match value_items(value) {
        None => None,
        Some(items) => {
            let ghost documents = models_of(items@);
            let mut pairs: Vec<(String, String)> = Vec::new();
            let mut i: usize = 0;
            while i < items.len()
                invariant
                    i <= items.len(),
                    documents == models_of(items@),
                    model_of(*value) == JsonModel::Array(documents),
                    pairs@.len() == i,
                    forall|j: int|
                        0 <= j < i ==> message_pair(#[trigger] documents[j]) == Some(
                            (pairs@[j].0@, pairs@[j].1@),
                        ),
                decreases items.len() - i,
            {
                match decode_message(&items[i]) {
                    Some(pair) => {
                        pairs.push(pair);
                    },
                    None => {
                        assert(message_pair(documents[i as int]) is None);
                        return None;
                    },
                }
                i += 1;
            }
            assert(pairs_view(pairs@) =~= documents.map_values(
                |item: JsonModel| message_pair(item).unwrap(),
            ));
            Some(pairs)
        },
    }
}

/// A message that was written is read back as it was.
pub proof fn lemma_message_round_trip(message: MessageView)
    ensures
        message_pair(message_json(message)) == Some(pair_of(message)),
{
    lemma_keys_differ();
}

/// A conversation that was written is read back as it was, message by
/// message and in the same order.
pub proof fn lemma_messages_round_trip(messages: Seq<MessageView>)
    ensures
        message_pairs(messages_json(messages)) == Some(pairs_of(messages)),
{
    let items = messages.map_values(|message: MessageView| message_json(message));
    assert forall|i: int| 0 <= i < items.len() implies message_pair(#[trigger] items[i])
        == Some(pair_of(messages[i])) by {
        lemma_message_round_trip(messages[i]);
    }
    assert(items.map_values(|item: JsonModel| message_pair(item).unwrap()) =~= pairs_of(messages));
}

/// The two keys of a message are different keys.
pub proof fn lemma_keys_differ()
    ensures
        "role"@ != "content"@,
{
    reveal_strlit("role");
    reveal_strlit("content");
    assert("role"@.len() != "content"@.len());
}

} // verus!
