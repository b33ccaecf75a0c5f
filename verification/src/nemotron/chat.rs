//! A conversation: what the user types, and what becomes of it.

use vstd::prelude::*;
#[allow(unused_imports)]
use vstd::string::*;

use crate::config::Config;
use crate::error::AppError;
#[allow(unused_imports)]
use crate::error;
use crate::nemotron::models::{copy_messages, ChatCompletionRequest, Message};
#[allow(unused_imports)]
use crate::nemotron::models::MessageView;
#[allow(unused_imports)]
use crate::nemotron::models;
use crate::text::{begins_with_char, decimal_text, same_text, trim};
#[allow(unused_imports)]
use crate::text;

verus! {

/// How a conversation ends.
#[derive(Debug, Clone, Copy, PartialEq, Eq, Structural)]
pub enum ChatAction {
    /// The session stays up.
    Exit,
    /// The session is removed.
    Kill,
}

/// What the user asks for.
#[derive(Debug, Clone)]
pub enum ChatInput {
    /// Nothing.
    Nothing,
    /// To forget the conversation.
    Clear,
    /// To see how the session stands.
    Status,
    /// To leave.
    Leave(ChatAction),
    /// Something that is not known.
    Unknown,
    /// An answer.
    Prompt(String),
}

/// What the user asks for, as a value.
pub enum InputView {
    /// Nothing.
    Nothing,
    /// To forget the conversation.
    Clear,
    /// To see how the session stands.
    Status,
    /// To leave.
    Leave(ChatAction),
    /// Something that is not known.
    Unknown,
    /// An answer.
    Prompt(Seq<char>),
}

impl View for ChatInput {
    type V = InputView;

    open spec fn view(&self) -> InputView {
        match *self {
            ChatInput::Nothing => InputView::Nothing,
            ChatInput::Clear => InputView::Clear,
            ChatInput::Status => InputView::Status,
            ChatInput::Leave(action) => InputView::Leave(action),
            ChatInput::Unknown => InputView::Unknown,
            ChatInput::Prompt(prompt) => InputView::Prompt(prompt@),
        }
    }
}

/// What the user asks for with a line: a command where it begins with a slash, else an answer.
pub open spec fn input_of(line: Seq<char>) -> InputView {
    let inner = text::trimmed(line);
    if inner.len() == 0 {
        InputView::Nothing
    } else if inner[0] == '/' {
        if inner == "/clear"@ {
            InputView::Clear
        } else if inner == "/status"@ {
            InputView::Status
        } else if inner == "/exit"@ {
            InputView::Leave(ChatAction::Exit)
        } else if inner == "/kill"@ {
            InputView::Leave(ChatAction::Kill)
        } else {
            InputView::Unknown
        }
    } else {
        InputView::Prompt(inner)
    }
}

/// What the user asks for with a line.
pub fn read_input(line: &str) -> (input: ChatInput)
    ensures
        input@ == input_of(line@),
{
    let inner: String = trim(line);
    if inner.as_str().is_empty() {
        ChatInput::Nothing
    } else if begins_with_char(inner.as_str(), '/') {
        if same_text(inner.as_str(), "/clear") {
            ChatInput::Clear
        } else if same_text(inner.as_str(), "/status") {
            ChatInput::Status
        } else if same_text(inner.as_str(), "/exit") {
            ChatInput::Leave(ChatAction::Exit)
        } else if same_text(inner.as_str(), "/kill") {
            ChatInput::Leave(ChatAction::Kill)
        } else {
            ChatInput::Unknown
        }
    } else {
        ChatInput::Prompt(inner)
    }
}

// ---------------------------------------------------------------- the history

/// A conversation.
pub struct ChatSession {
    messages: Vec<Message>,
    model: String,
    max_tokens: u32,
    temperature_bits: u32,
    awaiting: bool,
}

/// The turn in which the model is told what it is.
pub open spec fn system_turn(prompt: Seq<char>) -> MessageView {
    MessageView { role: "system"@, content: prompt }
}

/// A turn of the user.
pub open spec fn user_turn(prompt: Seq<char>) -> MessageView {
    MessageView { role: "user"@, content: prompt }
}

/// A turn of the model.
pub open spec fn assistant_turn(answer: Seq<char>) -> MessageView {
    MessageView { role: "assistant"@, content: answer }
}

impl ChatCompletionRequest {
    /// Whether this asks for the next turn of a conversation, in pieces.
    pub open spec fn continues(
        self,
        model: Seq<char>,
        history: Seq<MessageView>,
        max_tokens: u32,
        temperature_bits: u32,
    ) -> bool {
        &&& self.model@ == model
        &&& models::turns(self.messages@) == history
        &&& self.max_tokens == max_tokens
        &&& self.temperature_bits == temperature_bits
        &&& self.stream
    }
}

impl ChatSession {
    /// The turns so far.
    pub closed spec fn history(self) -> Seq<MessageView> {
        models::turns(self.messages@)
    }

    /// Whether the last turn has not been answered yet.
    pub closed spec fn is_awaiting(self) -> bool {
        self.awaiting
    }

    /// The name of the model.
    pub closed spec fn model_name(self) -> Seq<char> {
        self.model@
    }

    /// How long an answer may be.
    pub closed spec fn answer_limit(self) -> u32 {
        self.max_tokens
    }

    /// How freely the model answers.
    pub closed spec fn temperature(self) -> u32 {
        self.temperature_bits
    }

    /// Whether two sessions are with the same model in the same manner.
    pub open spec fn same_manner(self, other: ChatSession) -> bool {
        &&& self.model_name() == other.model_name()
        &&& self.answer_limit() == other.answer_limit()
        &&& self.temperature() == other.temperature()
    }

    /// The conversation begins with what the model is told it is, and the turn that is to be
    /// answered is there.
    pub open spec fn wf(self) -> bool {
        &&& self.history().len() > 0
        &&& self.history()[0].role == "system"@
        &&& self.is_awaiting() ==> self.history().len() > 1
    }

    /// A conversation in which nothing was said yet.
    pub fn new(config: &Config) -> (session: ChatSession)
        ensures
            session.wf(),
            session.history() == seq![system_turn(config.nemotron.system_prompt@)],
            !session.is_awaiting(),
            session@ == ConversationView::begun(config.nemotron.system_prompt@),
            session.model_name() == config.nemotron.model@,
            session.answer_limit() == config.nemotron.max_tokens,
            session.temperature() == config.nemotron.temperature_bits,
    {
        let mut messages: Vec<Message> = Vec::new();
        messages.push(
            Message {
                role: "system".to_owned(),
                content: config.nemotron.system_prompt.clone(),
            },
        );
        proof {
            assert(models::turns(messages@) =~= seq![
                system_turn(config.nemotron.system_prompt@),
            ]);
        }
        ChatSession {
            messages,
            model: config.nemotron.model.clone(),
            max_tokens: config.nemotron.max_tokens,
            temperature_bits: config.nemotron.temperature_bits,
            awaiting: false,
        }
    }

    /// Adds what the user asks, and gives the request for the answer.
    pub fn submit(&mut self, prompt: String) -> (request: ChatCompletionRequest)
        requires
            old(self).wf(),
            !old(self).is_awaiting(),
        ensures
            final(self).wf(),
            final(self).history() == old(self).history().push(user_turn(prompt@)),
            final(self).is_awaiting(),
            final(self).same_manner(*old(self)),
            request.continues(
                old(self).model_name(),
                final(self).history(),
                old(self).answer_limit(),
                old(self).temperature(),
            ),
    {
        let ghost before = self.messages@;
        self.messages.push(Message { role: "user".to_owned(), content: prompt });
        self.awaiting = true;
        proof {
            assert(models::turns(self.messages@) =~= models::turns(before).push(
                user_turn(prompt@),
            ));
        }
        ChatCompletionRequest {
            model: self.model.clone(),
            messages: copy_messages(&self.messages),
            max_tokens: self.max_tokens,
            temperature_bits: self.temperature_bits,
            stream: true,
        }
    }

    /// Adds the answer.
    pub fn accept(&mut self, answer: String)
        requires
            old(self).wf(),
            old(self).is_awaiting(),
        ensures
            final(self).wf(),
            final(self).history() == old(self).history().push(assistant_turn(answer@)),
            !final(self).is_awaiting(),
            final(self).same_manner(*old(self)),
    {
        let ghost before = self.messages@;
        self.messages.push(Message { role: "assistant".to_owned(), content: answer });
        self.awaiting = false;
        proof {
            assert(models::turns(self.messages@) =~= models::turns(before).push(
                assistant_turn(answer@),
            ));
        }
    }

    /// Takes back what the user asked: there is no answer.
    pub fn reject(&mut self)
        requires
            old(self).wf(),
            old(self).is_awaiting(),
        ensures
            final(self).wf(),
            final(self).history() == old(self).history().drop_last(),
            !final(self).is_awaiting(),
            final(self).same_manner(*old(self)),
    {
        let ghost before = self.messages@;
        let _last: Option<Message> = self.messages.pop();
        self.awaiting = false;
        proof {
            assert(models::turns(self.messages@) =~= models::turns(before).drop_last());
        }
    }

    /// Forgets the conversation, but for what the model is told it is.
    pub fn clear(&mut self)
        requires
            old(self).wf(),
        ensures
            final(self).wf(),
            final(self).history() == old(self).history().take(1),
            !final(self).is_awaiting(),
            final(self).same_manner(*old(self)),
    {
        let ghost before = self.messages@;
        self.messages.truncate(1);
        self.awaiting = false;
        proof {
            assert(models::turns(self.messages@) =~= models::turns(before).take(1));
        }
    }
}

// ---------------------------------------------------------------- the course of it

/// What is done about a line of the user.
#[derive(Debug)]
pub enum ChatStep {
    /// Nothing.
    Nothing,
    /// The conversation is forgotten.
    Cleared,
    /// It is shown how the session stands.
    ShowStatus,
    /// The conversation ends.
    Leave(ChatAction),
    /// It is said that the command is not known.
    Unknown,
    /// The model is asked.
    Ask(ChatCompletionRequest),
}

/// How a turn of the model ends.
#[derive(Debug)]
pub enum TurnEnd {
    /// It is read, to its end or to an error.
    Read(Result<String, AppError>),
    /// The inference server refuses the request.
    Refused {
        /// The body of the refusal.
        body: String,
    },
    /// The inference server cannot be reached.
    Unreachable {
        /// Why not.
        reason: String,
    },
}

/// The answer that a turn brings, if it brings one.
pub open spec fn answer_of(end: TurnEnd) -> Option<Seq<char>> {
    match end {
        TurnEnd::Read(Ok(answer)) => Some(answer@),
        _ => None,
    }
}

/// What is said when a turn ends.
pub open spec fn end_words(end: TurnEnd) -> Seq<char> {
    match end {
        TurnEnd::Read(Ok(_)) => "\n"@,
        TurnEnd::Read(Err(e)) => "\nError parsing response stream: "@ + error::error_text(e@),
        TurnEnd::Refused { body } => "\nChat request failed: "@ + body@,
        TurnEnd::Unreachable { reason } => "\nNetwork error sending chat prompt: "@ + reason@,
    }
}

/// What happens in a conversation.
pub enum ChatEvent {
    /// The user types a line.
    Line(Seq<char>),
    /// The turn of the model ends, with an answer or without one.
    End(Option<Seq<char>>),
}

/// A conversation as a value.
#[verifier::ext_equal]
pub struct ConversationView {
    /// The turns so far.
    pub history: Seq<MessageView>,
    /// Whether the last turn has not been answered yet.
    pub awaiting: bool,
}

impl ConversationView {
    /// A conversation in which nothing was said yet.
    pub open spec fn begun(system_prompt: Seq<char>) -> ConversationView {
        ConversationView { history: seq![system_turn(system_prompt)], awaiting: false }
    }

    /// The conversation after something happened. What does not fit changes nothing.
    pub open spec fn after(self, event: ChatEvent) -> ConversationView {
        match event {
            ChatEvent::Line(line) => if self.awaiting {
                self
            } else {
                match input_of(line) {
                    InputView::Clear => ConversationView { history: self.history.take(1), ..self },
                    InputView::Prompt(prompt) => ConversationView {
                        history: self.history.push(user_turn(prompt)),
                        awaiting: true,
                    },
                    _ => self,
                }
            },
            ChatEvent::End(answer) => if !self.awaiting {
                self
            } else {
                ConversationView {
                    history: match answer {
                        Some(said) => self.history.push(assistant_turn(said)),
                        None => self.history.drop_last(),
                    },
                    awaiting: false,
                }
            },
        }
    }
}

impl ChatSession {
    /// The conversation as a value.
    pub open spec fn view(self) -> ConversationView {
        ConversationView { history: self.history(), awaiting: self.is_awaiting() }
    }

    /// Takes a line of the user, and gives what is done about it.
    pub fn take_line(&mut self, line: &str) -> (step: ChatStep)
        requires
            old(self).wf(),
            !old(self).is_awaiting(),
        ensures
            final(self).wf(),
            final(self)@ == old(self)@.after(ChatEvent::Line(line@)),
            final(self).same_manner(*old(self)),
            match input_of(line@) {
                InputView::Nothing => step is Nothing,
                InputView::Clear => step is Cleared,
                InputView::Status => step is ShowStatus,
                InputView::Leave(action) => step == ChatStep::Leave(action),
                InputView::Unknown => step is Unknown,
                InputView::Prompt(_) => step matches ChatStep::Ask(request) && request.continues(
                    old(self).model_name(),
                    final(self)@.history,
                    old(self).answer_limit(),
                    old(self).temperature(),
                ),
            },
    {
        match read_input(line) {
            ChatInput::Nothing => ChatStep::Nothing,
            ChatInput::Clear => {
                self.clear();
                ChatStep::Cleared
            },
            ChatInput::Status => ChatStep::ShowStatus,
            ChatInput::Leave(action) => ChatStep::Leave(action),
            ChatInput::Unknown => ChatStep::Unknown,
            ChatInput::Prompt(prompt) => ChatStep::Ask(self.submit(prompt)),
        }
    }

    /// Ends the turn of the model, and gives what is said of it: an answer is kept; without one,
    /// what the user asked is taken back.
    pub fn conclude(&mut self, end: TurnEnd) -> (words: String)
        requires
            old(self).wf(),
            old(self).is_awaiting(),
        ensures
            final(self).wf(),
            final(self)@ == old(self)@.after(ChatEvent::End(answer_of(end))),
            final(self).same_manner(*old(self)),
            words@ == end_words(end),
    {
        match end {
            TurnEnd::Read(Ok(answer)) => {
                self.accept(answer);
                "\n".to_owned()
            },
            TurnEnd::Read(Err(e)) => {
                self.reject();
                "\nError parsing response stream: ".to_owned().concat(e.to_string().as_str())
            },
            TurnEnd::Refused { body } => {
                self.reject();
                "\nChat request failed: ".to_owned().concat(body.as_str())
            },
            TurnEnd::Unreachable { reason } => {
                self.reject();
                "\nNetwork error sending chat prompt: ".to_owned().concat(reason.as_str())
            },
        }
    }
}

// ---------------------------------------------------------------- what is said

/// What is said when a conversation begins.
pub open spec fn welcome_words(model: Seq<char>, endpoint: Seq<char>) -> Seq<char> {
    "\nConnected to "@ + model + "\nEndpoint: "@ + endpoint
        + "\nCommands: /clear, /status, /kill, /exit\n"@
}

/// What is said when a conversation begins.
pub fn welcome(model: &str, endpoint: &str) -> (words: String)
    ensures
        words@ == welcome_words(model@, endpoint@),
{
    "\nConnected to ".to_owned()
        .concat(model)
        .concat("\nEndpoint: ")
        .concat(endpoint)
        .concat("\nCommands: /clear, /status, /kill, /exit\n")
}

/// What is said of how the session stands.
pub open spec fn chat_status_words(
    session: Seq<char>,
    model: Seq<char>,
    endpoint: Seq<char>,
    max_tokens: u32,
    temperature: Seq<char>,
) -> Seq<char> {
    "\n--- Status Info ---\n"@ + session + "\nModel: "@ + model + "\nEndpoint: "@ + endpoint
        + "\nMax Tokens Limit: "@ + text::decimal(max_tokens as nat) + "\nTemperature: "@
        + temperature + "\n-------------------\n"@
}

/// What is said of how the session stands.
pub fn chat_status(
    session: &str,
    model: &str,
    endpoint: &str,
    max_tokens: u32,
    temperature: &str,
) -> (words: String)
    ensures
        words@ == chat_status_words(session@, model@, endpoint@, max_tokens, temperature@),
{
    "\n--- Status Info ---\n".to_owned()
        .concat(session)
        .concat("\nModel: ")
        .concat(model)
        .concat("\nEndpoint: ")
        .concat(endpoint)
        .concat("\nMax Tokens Limit: ")
        .concat(decimal_text(max_tokens as u64).as_str())
        .concat("\nTemperature: ")
        .concat(temperature)
        .concat("\n-------------------\n")
}

// ---------------------------------------------------------------- laws

/// A turn that is taken back leaves the conversation as it was before.
pub proof fn lemma_failed_turn_leaves_no_trace(history: Seq<MessageView>, prompt: Seq<char>)
    ensures
        history.push(user_turn(prompt)).drop_last() == history,
{
    assert(history.push(user_turn(prompt)).drop_last() =~= history);
}

/// What the user types is sent to the model only where it is neither blank nor begins with a slash,
/// and then without the space around it. The two commands that end the conversation do so.
pub proof fn lemma_commands_are_not_sent(line: Seq<char>)
    ensures
        input_of(line) matches InputView::Prompt(prompt) ==> prompt.len() > 0 && prompt[0] != '/'
            && prompt == text::trimmed(line),
        text::trimmed(line) == "/exit"@ ==> input_of(line) == InputView::Leave(ChatAction::Exit),
        text::trimmed(line) == "/kill"@ ==> input_of(line) == InputView::Leave(ChatAction::Kill),
{
    reveal_strlit("/clear");
    reveal_strlit("/status");
    reveal_strlit("/exit");
    reveal_strlit("/kill");
    assert("/exit"@[1] != "/clear"@[1] && "/kill"@[1] != "/clear"@[1]);
    assert("/exit"@[1] != "/status"@[1] && "/kill"@[1] != "/status"@[1]);
    assert("/exit"@[1] != "/kill"@[1]);
}

/// A conversation after some events.
pub open spec fn after_all(start: ConversationView, events: Seq<ChatEvent>) -> ConversationView
    decreases events.len(),
{
    if events.len() == 0 {
        start
    } else {
        after_all(start, events.drop_last()).after(events.last())
    }
}

/// What the user asked last, while there is no answer yet.
pub open spec fn waiting(events: Seq<ChatEvent>) -> Option<Seq<char>>
    decreases events.len(),
{
    if events.len() == 0 {
        None
    } else {
        match events.last() {
            ChatEvent::End(_) => None,
            ChatEvent::Line(line) => match (waiting(events.drop_last()), input_of(line)) {
                (None, InputView::Prompt(prompt)) => Some(prompt),
                (before, _) => before,
            },
        }
    }
}

/// The exchanges that were completed since the start, or since the conversation was last forgotten:
/// what the user asked, and the answer.
pub open spec fn exchanges(events: Seq<ChatEvent>) -> Seq<(Seq<char>, Seq<char>)>
    decreases events.len(),
{
    if events.len() == 0 {
        Seq::empty()
    } else {
        let before = exchanges(events.drop_last());
        match (events.last(), waiting(events.drop_last())) {
            (ChatEvent::End(Some(answer)), Some(prompt)) => before.push((prompt, answer)),
            (ChatEvent::Line(line), None) => if input_of(line) is Clear {
                Seq::empty()
            } else {
                before
            },
            _ => before,
        }
    }
}

/// The turns that some exchanges are made of.
pub open spec fn spoken(pairs: Seq<(Seq<char>, Seq<char>)>) -> Seq<MessageView>
    decreases pairs.len(),
{
    if pairs.len() == 0 {
        Seq::empty()
    } else {
        spoken(pairs.drop_last()) + seq![
            user_turn(pairs.last().0),
            assistant_turn(pairs.last().1),
        ]
    }
}

/// Whatever happens in a conversation, it holds what the model is told it is, then the exchanges
/// that were completed since the start or since it was last forgotten, then what the user asked
/// last where there is no answer yet. A turn without an answer leaves nothing behind.
pub proof fn lemma_conversation(system_prompt: Seq<char>, events: Seq<ChatEvent>)
    ensures
        ({
            let now = after_all(ConversationView::begun(system_prompt), events);
            &&& now.awaiting == waiting(events) is Some
            &&& now.history == seq![system_turn(system_prompt)] + spoken(exchanges(events))
                + match waiting(events) {
                Some(prompt) => seq![user_turn(prompt)],
                None => Seq::empty(),
            }
        }),
    decreases events.len(),
{
    let start = ConversationView::begun(system_prompt);
    let now = after_all(start, events);
    let system = seq![system_turn(system_prompt)];
    let pairs = exchanges(events);
    if events.len() == 0 {
        assert(now.history =~= system + spoken(pairs) + Seq::<MessageView>::empty());
    } else {
        let front = events.drop_last();
        let before = after_all(start, front);
        lemma_conversation(system_prompt, front);
        match (events.last(), waiting(front)) {
            (ChatEvent::Line(line), None) => match input_of(line) {
                InputView::Clear => {
                    assert(now.history =~= system + spoken(pairs) + Seq::<MessageView>::empty());
                },
                InputView::Prompt(prompt) => {
                    assert(now.history =~= system + spoken(pairs) + seq![user_turn(prompt)]);
                },
                _ => {},
            },
            (ChatEvent::End(Some(answer)), Some(prompt)) => {
                assert(pairs.drop_last() =~= exchanges(front));
                assert(now.history =~= system + spoken(pairs) + Seq::<MessageView>::empty());
            },
            (ChatEvent::End(None), Some(prompt)) => {
                assert(now.history =~= system + spoken(pairs) + Seq::<MessageView>::empty());
            },
            _ => {},
        }
    }
}

/// Every request to the model carries what the model is told it is, the exchanges that were
/// completed since the start or since the conversation was last forgotten, and the line that the
/// user typed, without the space around it: it is neither blank nor a command.
pub proof fn lemma_request_carries_the_conversation(
    system_prompt: Seq<char>,
    events: Seq<ChatEvent>,
    line: Seq<char>,
)
    requires
        waiting(events) is None,
        input_of(line) is Prompt,
    ensures
        after_all(
            ConversationView::begun(system_prompt),
            events.push(ChatEvent::Line(line)),
        ).history == seq![system_turn(system_prompt)] + spoken(exchanges(events)) + seq![
            user_turn(text::trimmed(line)),
        ],
        !text::blank(line),
        text::trimmed(line)[0] != '/',
{
    let more = events.push(ChatEvent::Line(line));
    assert(more.drop_last() =~= events);
    lemma_conversation(system_prompt, more);
}

} // verus!
