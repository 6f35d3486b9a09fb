//! The decisions of the interactive loop. The loop itself reads lines and
//! sends requests; what it does with a line, and what it does with the
//! answer, is decided here.

use vstd::prelude::*;
use crate::response::{reply_view, CompletionError, Reply};
use crate::text::{lowercased, to_lowercase, trim, trimmed};
use crate::transcript::{after_turns, with_assistant, with_user, Transcript};

verus! {

/// What the assistant is made to say when a completion fails.
pub const APOLOGY: &'static str =
    "Sorry, I encountered an error communicating with the LLM server.";

/// The two words that end the conversation.
pub open spec fn exit_word(word: Seq<char>) -> bool {
    word == "exit"@ || word == "quit"@
}

/// Whether a line asks to end the conversation: it does when, white space
/// at its ends and the case of its letters aside, it is `exit` or `quit`.
pub open spec fn asks_to_exit(line: Seq<char>) -> bool {
    exit_word(lowercased(trimmed(line)))
}

/// The text that a turn ends with: the reply, or the apology in its place.
pub open spec fn shown_text(reply: Reply) -> Seq<char> {
    match reply {
        Ok(text) => text,
        Err(_) => APOLOGY@,
    }
}

/// Tells whether a word in lower case is one of the two that end the
/// conversation.
pub fn is_exit_word(word: &String) -> (yes: bool)
    ensures
        yes == exit_word(word@),
{
    let exit = String::from_str("exit");
    let quit = String::from_str("quit");
    *word == exit || *word == quit
}

/// Tells whether a line asks to end the conversation.
pub fn is_exit_command(line: &str) -> (yes: bool)
    ensures
        yes == asks_to_exit(line@),
{
    let word = to_lowercase(trim(line));
    is_exit_word(&word)
}

/// Takes a line of input. A line that asks to end the conversation leaves
/// the transcript as it is, and the answer is `false`. Any other line is
/// added, without the white space at its ends, as the user's message, and
/// the answer is `true`: a completion is due.
pub fn begin_turn(transcript: &mut Transcript, line: &str) -> (proceeds: bool)
    requires
        old(transcript).wf(),
    ensures
        final(transcript).wf(),
        proceeds == !asks_to_exit(line@),
        proceeds ==> final(transcript)@ == with_user(old(transcript)@, trimmed(line@)),
        !proceeds ==> *final(transcript) == *old(transcript),
{
    let said = trim(line);
    if is_exit_word(&to_lowercase(said)) {
        false
    } else {
        transcript.append_user(String::from_str(said));
        true
    }
}

/// The text that a turn ends with: the reply, or the apology in its place.
pub fn reply_or_apology(reply: Result<String, CompletionError>) -> (shown: String)
    ensures
        shown@ == shown_text(reply_view(reply)),
{
    match reply {
        Ok(text) => text,
        Err(_) => String::from_str(APOLOGY),
    }
}

/// Ends a turn: the reply of the completion, or the apology where it
/// failed, is added as the assistant's message and handed back for display.
pub fn finish_turn(transcript: &mut Transcript, reply: Result<String, CompletionError>) -> (shown:
    String)
    requires
        old(transcript).wf(),
    ensures
        final(transcript).wf(),
        shown@ == shown_text(reply_view(reply)),
        final(transcript)@ == with_assistant(old(transcript)@, shown@),
{
    let shown = reply_or_apology(reply);
    transcript.append_assistant(shown.clone());
    shown
}

/// One more exchange, a line that is taken and the text that ends its turn,
/// carries the conversation after `turns` exchanges over into the
/// conversation after one more.
pub proof fn lemma_turn_extends(
    prompt: Seq<char>,
    turns: Seq<(Seq<char>, Seq<char>)>,
    said: Seq<char>,
    shown: Seq<char>,
)
    ensures
        with_assistant(with_user(after_turns(prompt, turns), said), shown) == after_turns(
            prompt,
            turns.push((said, shown)),
        ),
{
    assert(turns.push((said, shown)).drop_last() =~= turns);
}

} // verus!
