//! What a line of the user asks for, and what is sent and said in a conversation.

use vstd::prelude::*;
#[allow(unused_imports)]
use vstd::string::*;

#[allow(unused_imports)]
use crate::error;
#[allow(unused_imports)]
use crate::nemotron::chat;
#[allow(unused_imports)]
use crate::nemotron::chat::{ChatAction, ChatEvent, ConversationView, InputView, TurnEnd};
#[allow(unused_imports)]
use crate::nemotron::models;
#[allow(unused_imports)]
use crate::nemotron::models::{ChatCompletionRequest, Message, MessageView};
#[allow(unused_imports)]
use crate::text;
#[allow(unused_imports)]
use crate::text_laws;

verus! {

/// Whether a text is one of the four commands.
pub open spec fn is_command(text: Seq<char>) -> bool {
    text == "/clear"@ || text == "/status"@ || text == "/exit"@ || text == "/kill"@
}

/// What is typed between the white space decides alone: nothing asks for nothing, each of the four
/// commands for what it stands for, and everything else is a prompt, every character of it, unless
/// it begins with a slash. Only what begins with a slash is an unknown command.
pub proof fn lemma_what_a_line_asks_for(front: Seq<char>, inner: Seq<char>, back: Seq<char>)
    requires
        text_laws::all_space(front),
        text_laws::all_space(back),
        text_laws::bare(inner),
    ensures
        ({
            let input = chat::input_of(front + inner + back);
            &&& inner.len() == 0 <==> input is Nothing
            &&& inner.len() > 0 && inner[0] != '/' ==> input == InputView::Prompt(inner)
            &&& inner == "/clear"@ <==> input is Clear
            &&& inner == "/status"@ <==> input is Status
            &&& inner == "/exit"@ <==> input == InputView::Leave(ChatAction::Exit)
            &&& inner == "/kill"@ <==> input == InputView::Leave(ChatAction::Kill)
            &&& inner.len() > 0 && inner[0] == '/' && !is_command(inner) <==> input is Unknown
            &&& input is Prompt ==> inner.len() > 0 && inner[0] != '/'
        }),
{
    text_laws::lemma_trimmed_is_what_stands_between(front, inner, back);
    reveal_strlit("/clear");
    reveal_strlit("/status");
    reveal_strlit("/exit");
    reveal_strlit("/kill");
    assert("/clear"@[1] == 'c' && "/status"@[1] == 's' && "/exit"@[1] == 'e' && "/kill"@[1] == 'k');
}

/// Every line is a prompt whose first character behind the white space is there and is no slash:
/// the line from that character to the last that is no white space. No other line is one.
pub proof fn lemma_prompts(line: Seq<char>, from: int, to: int)
    requires
        0 <= from < to <= line.len(),
        forall|i: int| 0 <= i < from ==> text::is_space(#[trigger] line[i]),
        forall|i: int| to <= i < line.len() ==> text::is_space(#[trigger] line[i]),
        !text::is_space(line[from]),
        !text::is_space(line[to - 1]),
    ensures
        line[from] != '/' ==> chat::input_of(line) == InputView::Prompt(line.subrange(from, to)),
        line[from] == '/' ==> !(chat::input_of(line) is Prompt) && !(chat::input_of(
            line,
        ) is Nothing),
        chat::input_of(line) is Unknown ==> line[from] == '/',
{
    let front = line.take(from);
    let inner = line.subrange(from, to);
    let back = line.skip(to);
    assert(line =~= front + inner + back);
    assert(inner[0] == line[from]);
    assert(inner[inner.len() - 1] == line[to - 1]);
    assert forall|i: int| 0 <= i < back.len() implies text::is_space(#[trigger] back[i]) by {
        assert(back[i] == line[to + i]);
    }
    assert forall|i: int| 0 <= i < front.len() implies text::is_space(#[trigger] front[i]) by {
        assert(front[i] == line[i]);
    }
    lemma_what_a_line_asks_for(front, inner, back);
    if line[from] == '/' && !is_command(inner) {
        assert(chat::input_of(line) is Unknown);
    }
}

/// A line of white space alone asks for nothing.
pub proof fn lemma_blank_lines(line: Seq<char>)
    requires
        text_laws::all_space(line),
    ensures
        chat::input_of(line) is Nothing,
{
    let none = Seq::<char>::empty();
    assert(line =~= line + none + none);
    lemma_what_a_line_asks_for(line, none, none);
}

/// Different prompts are different requests: white space around a line makes no difference, and
/// anything else does.
pub proof fn lemma_prompts_tell_apart(one: Seq<char>, other: Seq<char>)
    requires
        text_laws::bare(one),
        text_laws::bare(other),
        one.len() > 0 && one[0] != '/',
        other.len() > 0 && other[0] != '/',
    ensures
        chat::input_of(one) == chat::input_of(other) <==> one == other,
{
    let none = Seq::<char>::empty();
    assert(one =~= none + one + none);
    assert(other =~= none + other + none);
    lemma_what_a_line_asks_for(none, one, none);
    lemma_what_a_line_asks_for(none, other, none);
}

/// What the model is told it is stands under `system`, what the user asks under `user`, and what
/// the model answers under `assistant`, each every character of it.
pub proof fn lemma_turns_say_who_speaks(said: Seq<char>)
    ensures
        chat::system_turn(said).role == "system"@,
        chat::user_turn(said).role == "user"@,
        chat::assistant_turn(said).role == "assistant"@,
        chat::system_turn(said).content == said,
        chat::user_turn(said).content == said,
        chat::assistant_turn(said).content == said,
{
}

/// The turns of a list of messages are the messages, in their order, with who speaks and what is
/// said.
pub proof fn lemma_turns_are_the_messages(messages: Seq<Message>)
    ensures
        models::turns(messages).len() == messages.len(),
        forall|i: int|
            0 <= i < messages.len() ==> (#[trigger] models::turns(messages)[i]).role
                == messages[i].role@ && models::turns(messages)[i].content == messages[i].content@,
{
}

/// A request that continues a conversation names the model, holds every turn in order, and asks for
/// an answer in pieces, of the length and with the freedom that are set.
pub proof fn lemma_requests_hold_everything(
    request: ChatCompletionRequest,
    model: Seq<char>,
    history: Seq<MessageView>,
    max_tokens: u32,
    temperature_bits: u32,
)
    requires
        request.continues(model, history, max_tokens, temperature_bits),
    ensures
        request.model@ == model,
        request.messages@.len() == history.len(),
        forall|i: int|
            0 <= i < history.len() ==> (#[trigger] request.messages@[i]).role@ == history[i].role
                && request.messages@[i].content@ == history[i].content,
        request.max_tokens == max_tokens,
        request.temperature_bits == temperature_bits,
        request.stream,
{
    lemma_turns_are_the_messages(request.messages@);
    assert forall|i: int| 0 <= i < history.len() implies (#[trigger] request.messages@[i]).role@
        == history[i].role && request.messages@[i].content@ == history[i].content by {
        assert(models::turns(request.messages@)[i] == history[i]);
    }
}

/// The course of a conversation, line by line: a prompt is put behind what was said, its answer
/// behind the prompt; without an answer the prompt is taken back; `/clear` leaves what the model is
/// told it is; anything else changes nothing.
pub proof fn lemma_course(now: ConversationView, inner: Seq<char>, answer: Seq<char>)
    requires
        !now.awaiting,
        text_laws::bare(inner),
    ensures
        ({
            let after_line = now.after(ChatEvent::Line(inner));
            let answered = after_line.after(ChatEvent::End(Some(answer)));
            let failed = after_line.after(ChatEvent::End(None));
            if inner == "/clear"@ {
                !after_line.awaiting && after_line.history == now.history.take(1)
            } else if inner.len() > 0 && inner[0] != '/' {
                &&& after_line.awaiting
                &&& after_line.history == now.history.push(
                    MessageView { role: "user"@, content: inner },
                )
                &&& !answered.awaiting
                &&& answered.history == now.history.push(
                    MessageView { role: "user"@, content: inner },
                ).push(MessageView { role: "assistant"@, content: answer })
                &&& failed == now
            } else {
                after_line == now
            }
        }),
{
    let none = Seq::<char>::empty();
    assert(inner =~= none + inner + none);
    lemma_what_a_line_asks_for(none, inner, none);
    reveal_strlit("/clear");
    let failed = now.after(ChatEvent::Line(inner)).after(ChatEvent::End(None));
    if inner.len() > 0 && inner[0] != '/' {
        assert(failed.history =~= now.history);
    }
}

/// A turn that is read to its end brings its answer, every character of it; no other turn brings
/// one.
pub proof fn lemma_answers(end: TurnEnd, said: Seq<char>)
    ensures
        chat::answer_of(end) == Some(said) <==> (end matches TurnEnd::Read(Ok(answer)) && answer@
            == said),
        end is Refused || end is Unreachable ==> chat::answer_of(end) is None,
{
}

/// What is said of a turn that fails names what went wrong in full; of one that succeeds, nothing.
pub proof fn lemma_what_is_said_of_a_turn(end: TurnEnd)
    ensures
        match end {
            TurnEnd::Read(Ok(_)) => chat::end_words(end) == "\n"@,
            TurnEnd::Read(Err(e)) => chat::end_words(end) == "\nError parsing response stream: "@
                + error::error_text(e@),
            TurnEnd::Refused { body } => chat::end_words(end) == "\nChat request failed: "@ + body@,
            TurnEnd::Unreachable { reason } => chat::end_words(end)
                == "\nNetwork error sending chat prompt: "@ + reason@,
        },
{
}

/// What is said when a conversation begins holds the name of the model, the address of the endpoint
/// and the four commands.
pub proof fn lemma_welcome(model: Seq<char>, endpoint: Seq<char>)
    ensures
        text::holds_text(chat::welcome_words(model, endpoint), "\nConnected to "@ + model),
        text::holds_text(chat::welcome_words(model, endpoint), "\nEndpoint: "@ + endpoint),
        text::holds_text(
            chat::welcome_words(model, endpoint),
            "\nCommands: /clear, /status, /kill, /exit\n"@,
        ),
{
    let words = chat::welcome_words(model, endpoint);
    let first = "\nConnected to "@ + model;
    let second = "\nEndpoint: "@ + endpoint;
    let third = "\nCommands: /clear, /status, /kill, /exit\n"@;
    let none = Seq::<char>::empty();
    assert(words =~= none + first + (second + third));
    assert(words =~= first + second + third);
    assert(words =~= (first + second) + third + none);
    text_laws::lemma_stands_between(none, first, second + third);
    text_laws::lemma_stands_between(first, second, third);
    text_laws::lemma_stands_between(first + second, third, none);
}

/// What is said of how the session stands holds everything that is asked about.
pub proof fn lemma_chat_status(
    session: Seq<char>,
    model: Seq<char>,
    endpoint: Seq<char>,
    max_tokens: u32,
    temperature: Seq<char>,
)
    ensures
        ({
            let words = chat::chat_status_words(session, model, endpoint, max_tokens, temperature);
            &&& text::holds_text(words, session)
            &&& text::holds_text(words, "\nModel: "@ + model)
            &&& text::holds_text(words, "\nEndpoint: "@ + endpoint)
            &&& text::holds_text(words, "\nMax Tokens Limit: "@ + text::decimal(max_tokens as nat))
            &&& text::holds_text(words, "\nTemperature: "@ + temperature)
        }),
{
    let words = chat::chat_status_words(session, model, endpoint, max_tokens, temperature);
    let head = "\n--- Status Info ---\n"@;
    let a = "\nModel: "@ + model;
    let b = "\nEndpoint: "@ + endpoint;
    let c = "\nMax Tokens Limit: "@ + text::decimal(max_tokens as nat);
    let d = "\nTemperature: "@ + temperature;
    let tail = "\n-------------------\n"@;
    assert(words =~= head + session + (a + b + c + d + tail));
    assert(words =~= (head + session) + a + (b + c + d + tail));
    assert(words =~= (head + session + a) + b + (c + d + tail));
    assert(words =~= (head + session + a + b) + c + (d + tail));
    assert(words =~= (head + session + a + b + c) + d + tail);
    text_laws::lemma_stands_between(head, session, a + b + c + d + tail);
    text_laws::lemma_stands_between(head + session, a, b + c + d + tail);
    text_laws::lemma_stands_between(head + session + a, b, c + d + tail);
    text_laws::lemma_stands_between(head + session + a + b, c, d + tail);
    text_laws::lemma_stands_between(head + session + a + b + c, d, tail);
}

} // verus!
