//! What comes back from a completion request, and what the client makes of
//! it: the reply text, or the reason why there is none.

use vstd::prelude::*;
use crate::json::{model_of, models_of, parse_value, parsed, value_items, value_member, JsonModel};
use crate::wire::{decode_message, member, message_pair, pairs_view, Pair};

verus! {

/// Why a completion gave no reply.
#[derive(Clone, Copy, Debug, PartialEq, Eq, Structural)]
pub enum CompletionError {
    /// The request did not get through, or the response did not arrive whole.
    TransportError,
    /// The server answered with a status outside 200 to 299.
    RequestFailed { status: u16 },
    /// The body is no JSON document of the expected shape, or it offers no
    /// choice.
    MalformedResponse,
}

/// How sending a request ended.
#[derive(Clone, Debug, PartialEq, Eq)]
pub enum HttpOutcome {
    /// No response arrived.
    Unreachable,
    /// A response arrived with this status. `body` holds the bytes of its
    /// body, or `None` where the body could not be read to its end.
    Answered { status: u16, body: Option<Vec<u8>> },
}

/// The reply of a completion, or its failure, with a text as its value.
pub type Reply = Result<Seq<char>, CompletionError>;

/// The value of a reply that holds a string.
pub open spec fn reply_view(reply: Result<String, CompletionError>) -> Reply {
    match reply {
        Ok(text) => Ok(text@),
        Err(error) => Err(error),
    }
}

/// The statuses that stand for success.
pub open spec fn success(status: u16) -> bool {
    200 <= status <= 299
}

/// The message of one choice: the member `message`, where the choice has it
/// and it has the shape of a message.
pub open spec fn choice_message(choice: JsonModel) -> Option<Pair> {
    match member(choice, "message"@) {
        Some(message) => message_pair(message),
        None => None,
    }
}

/// The messages of all choices of a response document, in order, where the
/// document has the expected shape: an object whose member `choices` is an
/// array, each item of it an object whose member `message` is a message.
pub open spec fn choices(document: JsonModel) -> Option<Seq<Pair>> {
    match member(document, "choices"@) {
        Some(JsonModel::Array(items)) => if forall|i: int|
            0 <= i < items.len() ==> choice_message(#[trigger] items[i]) is Some {
            Some(items.map_values(|item: JsonModel| choice_message(item).unwrap()))
        } else {
            None
        },
        _ => None,
    }
}

/// The reply that a response document gives: the content of its first
/// choice. A document of another shape, or without a choice, is malformed.
pub open spec fn reply_of(document: JsonModel) -> Reply {
    match choices(document) {
        Some(offered) => if offered.len() > 0 {
            Ok(offered[0].1)
        } else {
            Err(CompletionError::MalformedResponse)
        },
        None => Err(CompletionError::MalformedResponse),
    }
}

/// The reply that a response body gives. A body that is no JSON text is
/// malformed.
pub open spec fn reply_of_body(body: Seq<u8>) -> Reply {
    match parsed(body) {
        Some(document) => reply_of(document),
        None => Err(CompletionError::MalformedResponse),
    }
}

/// The reply that the outcome of a request gives.
pub open spec fn reply_of_outcome(outcome: HttpOutcome) -> Reply {
    match outcome {
        HttpOutcome::Unreachable => Err(CompletionError::TransportError),
        HttpOutcome::Answered { status, body } => if !success(status) {
            Err(CompletionError::RequestFailed { status })
        } else {
            match body {
                Some(bytes) => reply_of_body(bytes@),
                None => Err(CompletionError::TransportError),
            }
        },
    }
}

/// Tells whether a status stands for success.
pub fn is_success(status: u16) -> (yes: bool)
    ensures
        yes == success(status),
{
    200 <= status && status <= 299
}

/// Accepts the statuses of success and turns any other into the error that
/// carries it.
pub fn check_status(status: u16) -> (checked: Result<(), CompletionError>)
    ensures
        checked == if success(status) {
            Ok::<(), CompletionError>(())
        } else {
            Err::<(), CompletionError>(CompletionError::RequestFailed { status })
        },
{
    if is_success(status) {
        Ok(())
    } else {
        Err(CompletionError::RequestFailed { status })
    }
}

/// Reads the message of one choice.
pub fn read_choice(value: &serde_json::Value) -> (pair: Option<(String, String)>)
    ensures
        match pair {
            Some(held) => choice_message(model_of(*value)) == Some((held.0@, held.1@)),
            None => choice_message(model_of(*value)) is None,
        },
{
    match value_member(value, "message") {
        Some(message) => decode_message(message),
        None => None,
    }
}

/// Reads the messages of all choices of a response document.
pub fn read_choices(value: &serde_json::Value) -> (offered: Option<Vec<(String, String)>>)
    ensures
        match offered {
            Some(held) => choices(model_of(*value)) == Some(pairs_view(held@)),
            None => choices(model_of(*value)) is None,
        },
{
    let list = match value_member(value, "choices") {
        Some(list) => list,
        None => {
            return None;
        },
    };
    let items = match value_items(list) {
        Some(items) => items,
        None => {
            return None;
        },
    };
    let ghost documents = models_of(items@);
    let mut offered: Vec<(String, String)> = Vec::new();
    let mut i: usize = 0;
    while i < items.len()
        invariant
            i <= items.len(),
            documents == models_of(items@),
            member(model_of(*value), "choices"@) == Some(JsonModel::Array(documents)),
            offered@.len() == i,
            forall|j: int|
                0 <= j < i ==> choice_message(#[trigger] documents[j]) == Some(
                    (offered@[j].0@, offered@[j].1@),
                ),
        decreases items.len() - i,
    {
        match read_choice(&items[i]) {
            Some(pair) => {
                offered.push(pair);
            },
            None => {
                assert(choice_message(documents[i as int]) is None);
                return None;
            },
        }
        i += 1;
    }
    assert(pairs_view(offered@) =~= documents.map_values(
        |item: JsonModel| choice_message(item).unwrap(),
    ));
    Some(offered)
}

/// The reply that a response document gives.
pub fn reply_from_value(value: &serde_json::Value) -> (reply: Result<String, CompletionError>)
    ensures
        reply_view(reply) == reply_of(model_of(*value)),
{
    match read_choices(value) {
        Some(offered) => {
            if offered.len() > 0 {
                Ok(offered[0].1.clone())
            } else {
                Err(CompletionError::MalformedResponse)
            }
        },
        None => Err(CompletionError::MalformedResponse),
    }
}

/// The reply that a response body gives.
pub fn parse_reply(body: &[u8]) -> (reply: Result<String, CompletionError>)
    ensures
        reply_view(reply) == reply_of_body(body@),
{
    match parse_value(body) {
        Ok(value) => reply_from_value(&value),
        Err(_) => Err(CompletionError::MalformedResponse),
    }
}

/// The reply that the outcome of a request gives: the content of the first
/// choice of a successful response, and otherwise the error that says what
/// went wrong.
pub fn interpret(outcome: &HttpOutcome) -> (reply: Result<String, CompletionError>)
    ensures
        reply_view(reply) == reply_of_outcome(*outcome),
{
    match outcome {
        HttpOutcome::Unreachable => Err(CompletionError::TransportError),
        HttpOutcome::Answered { status, body } => {
            match check_status(*status) {
                Err(error) => Err(error),
                Ok(_) => match body {
                    Some(bytes) => parse_reply(bytes.as_slice()),
                    None => Err(CompletionError::TransportError),
                },
            }
        },
    }
}

} // verus!
