//! The conversation transcript: an append-only sequence of role-tagged
//! messages that always opens with the system prompt.

use vstd::prelude::*;

verus! {

/// The speaker of a message.
#[derive(Clone, Copy, Debug, PartialEq, Eq, Structural)]
pub enum Role {
    System,
    User,
    Assistant,
}

impl Role {
    /// The name under which the role is written on the wire.
    pub open spec fn name(self) -> Seq<char> {
        match self {
            Role::System => "system"@,
            Role::User => "user"@,
            Role::Assistant => "assistant"@,
        }
    }

    /// The wire name of the role.
    pub fn as_str(self) -> (name: &'static str)
        ensures
            name@ == self.name(),
    {
        match self {
            Role::System => "system",
            Role::User => "user",
            Role::Assistant => "assistant",
        }
    }
}

/// What a message says and who says it.
pub struct MessageView {
    pub role: Role,
    pub content: Seq<char>,
}

/// One turn of the conversation. A message cannot be changed once made.
#[derive(Clone, Debug, PartialEq, Eq)]
pub struct Message {
    role: Role,
    content: String,
}

impl View for Message {
    type V = MessageView;

    closed spec fn view(&self) -> MessageView {
        MessageView { role: self.role, content: self.content@ }
    }
}

impl Message {
    pub fn new(role: Role, content: String) -> (message: Message)
        ensures
            message@ == (MessageView { role, content: content@ }),
    {
        Message { role, content }
    }

    pub fn role(&self) -> (role: Role)
        ensures
            role == self@.role,
    {
        self.role
    }

    pub fn content(&self) -> (content: &str)
        ensures
            content@ == self@.content,
    {
        self.content.as_str()
    }
}

/// The messages that a list holds, in order.
pub open spec fn listing(messages: &Vec<Message>) -> Seq<MessageView> {
    messages@.map_values(|message: Message| message@)
}

/// A conversation that holds the system prompt and nothing else.
pub open spec fn started(prompt: Seq<char>) -> Seq<MessageView> {
    seq![MessageView { role: Role::System, content: prompt }]
}

/// The conversation `history` followed by a user message.
pub open spec fn with_user(history: Seq<MessageView>, text: Seq<char>) -> Seq<MessageView> {
    history.push(MessageView { role: Role::User, content: text })
}

/// The conversation `history` followed by an assistant message.
pub open spec fn with_assistant(history: Seq<MessageView>, text: Seq<char>) -> Seq<MessageView> {
    history.push(MessageView { role: Role::Assistant, content: text })
}

/// The first message is the system prompt, and no later message is a system
/// message.
pub open spec fn headed_by_system(history: Seq<MessageView>) -> bool {
    &&& history.len() >= 1
    &&& history[0].role == Role::System
    &&& forall|i: int| 1 <= i < history.len() ==> (#[trigger] history[i]).role != Role::System
}

/// After the first message, user and assistant messages take turns, the user
/// first.
pub open spec fn alternates(history: Seq<MessageView>) -> bool {
    forall|i: int|
        1 <= i < history.len() ==> (#[trigger] history[i]).role == if i % 2 == 1 {
            Role::User
        } else {
            Role::Assistant
        }
}

/// The conversation after the given exchanges, each a user text and the
/// assistant text that answered it.
pub open spec fn after_turns(prompt: Seq<char>, turns: Seq<(Seq<char>, Seq<char>)>) -> Seq<
    MessageView,
>
    decreases turns.len(),
{
    if turns.len() == 0 {
        started(prompt)
    } else {
        with_assistant(
            with_user(after_turns(prompt, turns.drop_last()), turns.last().0),
            turns.last().1,
        )
    }
}

/// The conversation so far. It is never empty: it is made with the system
/// prompt, and messages are only ever added at its end.
pub struct Transcript {
    messages: Vec<Message>,
}

impl View for Transcript {
    type V = Seq<MessageView>;

    closed spec fn view(&self) -> Seq<MessageView> {
        listing(&self.messages)
    }
}

impl Transcript {
    /// The invariant of every transcript: it opens with the system prompt,
    /// which is its only system message.
    pub open spec fn wf(&self) -> bool {
        headed_by_system(self@)
    }

    /// A transcript that holds the system prompt only.
    pub fn new(system_prompt: String) -> (transcript: Transcript)
        ensures
            transcript.wf(),
            transcript@ == started(system_prompt@),
    {
        let mut messages: Vec<Message> = Vec::new();
        messages.push(Message::new(Role::System, system_prompt));
        assert(listing(&messages) =~= started(system_prompt@));
        Transcript { messages }
    }

    /// Adds a user message at the end.
    pub fn append_user(&mut self, text: String)
        requires
            old(self).wf(),
        ensures
            final(self).wf(),
            final(self)@ == with_user(old(self)@, text@),
    {
        self.append(Role::User, text);
    }

    /// Adds an assistant message at the end.
    pub fn append_assistant(&mut self, text: String)
        requires
            old(self).wf(),
        ensures
            final(self).wf(),
            final(self)@ == with_assistant(old(self)@, text@),
    {
        self.append(Role::Assistant, text);
    }

    fn append(&mut self, role: Role, text: String)
        requires
            old(self).wf(),
            role != Role::System,
        ensures
            final(self).wf(),
            final(self)@ == old(self)@.push(MessageView { role, content: text@ }),
    {
        let ghost before = self.messages@;
        self.messages.push(Message::new(role, text));
        assert(listing(&self.messages) =~= before.map_values(|message: Message| message@).push(
            MessageView { role, content: text@ },
        ));
    }

    /// The messages in conversational order, for reading.
    pub fn as_sequence(&self) -> (messages: &Vec<Message>)
        ensures
            listing(messages) == self@,
    {
        &self.messages
    }

    /// How many messages the transcript holds.
    pub fn len(&self) -> (count: usize)
        ensures
            count == self@.len(),
    {
        self.messages.len()
    }
}

/// After any number of exchanges the transcript holds one message more than
/// twice that number, still opens with the one system prompt, and user and
/// assistant have taken turns.
pub proof fn lemma_after_turns(prompt: Seq<char>, turns: Seq<(Seq<char>, Seq<char>)>)
    ensures
        after_turns(prompt, turns).len() == 1 + 2 * turns.len(),
        after_turns(prompt, turns)[0] == (MessageView { role: Role::System, content: prompt }),
        headed_by_system(after_turns(prompt, turns)),
        alternates(after_turns(prompt, turns)),
    decreases turns.len(),
{
    if turns.len() > 0 {
        lemma_after_turns(prompt, turns.drop_last());
    }
}

/// Appending keeps the system prompt in front, and keeps the turns in order
/// exactly when the speaker whose turn it is speaks.
pub proof fn lemma_append_keeps_shape(history: Seq<MessageView>, text: Seq<char>)
    requires
        headed_by_system(history),
    ensures
        headed_by_system(with_user(history, text)),
        headed_by_system(with_assistant(history, text)),
        with_user(history, text).len() == history.len() + 1,
        with_assistant(history, text).len() == history.len() + 1,
        alternates(with_user(history, text)) <==> alternates(history) && history.len() % 2 == 1,
        alternates(with_assistant(history, text)) <==> alternates(history) && history.len() % 2
            == 0,
{
    let user = with_user(history, text);
    let assistant = with_assistant(history, text);
    if alternates(user) {
        assert(user[history.len() as int].role == Role::User);
        assert forall|i: int| 1 <= i < history.len() implies (#[trigger] history[i]).role == if i
            % 2 == 1 {
            Role::User
        } else {
            Role::Assistant
        } by {
            assert(user[i] == history[i]);
        }
    }
    if alternates(assistant) {
        assert(assistant[history.len() as int].role == Role::Assistant);
        assert forall|i: int| 1 <= i < history.len() implies (#[trigger] history[i]).role == if i
            % 2 == 1 {
            Role::User
        } else {
            Role::Assistant
        } by {
            assert(assistant[i] == history[i]);
        }
    }
}

/// Reading a transcript twice, with no change in between, gives the same
/// messages in the same order.
pub proof fn lemma_as_sequence_repeatable(
    transcript: Transcript,
    first: &Vec<Message>,
    second: &Vec<Message>,
)
    requires
        listing(first) == transcript@,
        listing(second) == transcript@,
    ensures
        listing(first) == listing(second),
        first@.len() == second@.len(),
        forall|i: int| 0 <= i < first@.len() ==> (#[trigger] first@[i])@ == second@[i]@,
{
    assert(listing(first).len() == first@.len());
    assert(listing(second).len() == second@.len());
    assert forall|i: int| 0 <= i < first@.len() implies (#[trigger] first@[i])@ == second@[i]@ by {
        assert(listing(first)[i] == first@[i]@);
        assert(listing(second)[i] == second@[i]@);
    }
}

} // verus!
