//! What requests of another program ask for, and what the responses hold.

use vstd::prelude::*;
#[allow(unused_imports)]
use vstd::string::*;

#[allow(unused_imports)]
use crate::config::Config;
#[allow(unused_imports)]
use crate::hal;
#[allow(unused_imports)]
use crate::hal::{HalArguments, HalCommand, HalResponse, KillStep};
#[allow(unused_imports)]
use crate::json;
#[allow(unused_imports)]
use crate::outside;
#[allow(unused_imports)]
use crate::state::State;
#[allow(unused_imports)]
use crate::text;
#[allow(unused_imports)]
use crate::text_laws;

verus! {

// ---------------------------------------------------------------- answers of the model

/// The message with an answer begins with the escaped form of the whole answer, from which the
/// whole answer can be had back, every line of it; behind it stands the same notice whatever the
/// answer is.
pub proof fn lemma_message_holds_the_whole_answer(answer: Seq<char>)
    ensures
        ({
            let message = hal::answer_words(answer);
            let notice = hal::answer_words(Seq::empty());
            &&& message.len() == hal::escaped(answer).len() + notice.len()
            &&& message.take(hal::escaped(answer).len() as int) == hal::escaped(answer)
            &&& hal::unescaped(message.take(message.len() - notice.len())) == answer
            &&& message.skip(hal::escaped(answer).len() as int) == notice
            &&& notice
                == "\n\n⚠️ <b>Billing Notice:</b> The GPU Instance remains active and will continue billing. Use <code>/scaleway_kill KILL</code> to terminate it when you are finished."@
        }),
{
    let message = hal::answer_words(answer);
    let notice =
        "\n\n⚠️ <b>Billing Notice:</b> The GPU Instance remains active and will continue billing. Use <code>/scaleway_kill KILL</code> to terminate it when you are finished."@;
    let none = Seq::<char>::empty();
    assert(hal::escaped(none) =~= none);
    assert(hal::answer_words(none) =~= notice);
    assert(message.take(hal::escaped(answer).len() as int) =~= hal::escaped(answer));
    assert(message.skip(hal::escaped(answer).len() as int) =~= notice);
    hal::lemma_escaping_is_undone(answer);
}

/// Different answers are told in different messages.
pub proof fn lemma_messages_tell_answers_apart(one: Seq<char>, other: Seq<char>)
    requires
        hal::answer_words(one) == hal::answer_words(other),
    ensures
        one == other,
{
    lemma_message_holds_the_whole_answer(one);
    lemma_message_holds_the_whole_answer(other);
}

/// An answer of several parts is escaped part by part: nothing of it is dropped, wherever it is cut.
pub proof fn lemma_escaping_part_by_part(front: Seq<char>, back: Seq<char>)
    ensures
        hal::escaped(front + back) == hal::escaped(front) + hal::escaped(back),
    decreases back.len(),
{
    if back.len() == 0 {
        assert(front + back =~= front);
        assert(hal::escaped(front) + hal::escaped(back) =~= hal::escaped(front));
    } else {
        lemma_escaping_part_by_part(front, back.drop_last());
        assert((front + back).drop_last() =~= front + back.drop_last());
        assert((front + back).last() == back.last());
        assert(hal::escaped(front + back) =~= hal::escaped(front) + hal::escaped(back));
    }
}

/// The five characters with a meaning in markup become their entities, and no other changes.
pub proof fn lemma_entities_of_markup(c: char)
    ensures
        hal::escaped(seq!['&']) == "&amp;"@,
        hal::escaped(seq!['<']) == "&lt;"@,
        hal::escaped(seq!['>']) == "&gt;"@,
        hal::escaped(seq!['"']) == "&quot;"@,
        hal::escaped(seq!['\'']) == "&#x27;"@,
        c != '&' && c != '<' && c != '>' && c != '"' && c != '\'' ==> hal::escaped(seq![c])
            == seq![c],
{
    lemma_one_escaped('&');
    lemma_one_escaped('<');
    lemma_one_escaped('>');
    lemma_one_escaped('"');
    lemma_one_escaped('\'');
    lemma_one_escaped(c);
}

proof fn lemma_one_escaped(c: char)
    ensures
        hal::escaped(seq![c]) == hal::escaped_char(c),
{
    let none = Seq::<char>::empty();
    assert(seq![c].drop_last() =~= none);
    assert(hal::escaped(none) =~= none);
    assert(hal::escaped(seq![c]) =~= hal::escaped_char(c));
}

// ---------------------------------------------------------------- requests

/// A request that says which one it is asks for what its command names, and nothing else is a
/// command; one whose identifier is white space alone does not say which one it is.
pub proof fn lemma_commands(request_id: Seq<char>, command: Seq<char>)
    ensures
        text_laws::all_space(request_id) <==> hal::command_of(request_id, command)
            == HalCommand::MissingId,
        !text_laws::all_space(request_id) ==> {
            let asked = hal::command_of(request_id, command);
            &&& command == "scaleway"@ <==> asked == HalCommand::Ask
            &&& command == "scaleway_start"@ <==> asked == HalCommand::Start
            &&& command == "scaleway_status"@ <==> asked == HalCommand::Status
            &&& command == "scaleway_kill"@ <==> asked == HalCommand::Kill
            &&& command == "scaleway_help"@ <==> asked == HalCommand::Help
        },
{
    reveal_strlit("scaleway");
    reveal_strlit("scaleway_start");
    reveal_strlit("scaleway_status");
    reveal_strlit("scaleway_kill");
    reveal_strlit("scaleway_help");
    assert("scaleway"@.len() == 8 && "scaleway_start"@.len() == 14 && "scaleway_status"@.len() == 15);
    assert("scaleway_kill"@.len() == 13 && "scaleway_help"@.len() == 13);
    assert("scaleway_kill"@[9] == 'k' && "scaleway_help"@[9] == 'h');
    let parts = text_laws::lemma_trimmed_parts(request_id);
    let inner = text::trimmed(request_id);
    let none = Seq::<char>::empty();
    if text_laws::all_space(request_id) {
        assert(request_id =~= request_id + none + none);
        text_laws::lemma_trimmed_is_what_stands_between(request_id, none, none);
    } else if inner.len() == 0 {
        assert forall|i: int| 0 <= i < request_id.len() implies text::is_space(
            #[trigger] request_id[i],
        ) by {
            if i < parts.0.len() {
                assert(request_id[i] == parts.0[i]);
            } else {
                assert(request_id[i] == parts.1[i - parts.0.len()]);
            }
        }
        assert(text_laws::all_space(request_id));
    } else {
        assert(!text::blank(request_id));
    }
}

/// A removal is confirmed by the one word for it, with or without white space around it, and by
/// nothing else.
pub proof fn lemma_confirmation(
    arguments: HalArguments,
    front: Seq<char>,
    inner: Seq<char>,
    back: Seq<char>,
)
    requires
        text_laws::all_space(front),
        text_laws::all_space(back),
        text_laws::bare(inner),
    ensures
        arguments matches HalArguments::String(whole) ==> whole@ == front + inner + back ==> (
        arguments.confirms_kill() <==> inner == "KILL"@),
        arguments matches HalArguments::Array(words) ==> (words@.len() == 1 && words@[0]@ == front
            + inner + back ==> (arguments.confirms_kill() <==> inner == "KILL"@)) && (words@.len()
            != 1 ==> !arguments.confirms_kill()),
{
    text_laws::lemma_trimmed_is_what_stands_between(front, inner, back);
}

/// What a request is about is its text as it stands, or its words with a space between each two.
pub proof fn lemma_prompt(arguments: HalArguments, words: Seq<Seq<char>>, last: Seq<char>)
    ensures
        arguments matches HalArguments::String(whole) ==> arguments.prompt() == whole@,
        arguments matches HalArguments::Array(list) ==> {
            &&& list@.len() == 0 ==> arguments.prompt() == Seq::<char>::empty()
            &&& list@.len() == 1 ==> arguments.prompt() == list@[0]@
            &&& text::texts(list@) == words.push(last) && words.len() > 0 ==> arguments.prompt()
                == text::joined(words, seq![' ']) + seq![' '] + last
        },
{
    reveal_strlit(" ");
    assert(" "@ =~= seq![' ']);
    match arguments {
        HalArguments::Array(list) => {
            let none = Seq::<Seq<char>>::empty();
            let all = text::texts(list@);
            if list@.len() == 0 {
                assert(all =~= none);
            }
            if list@.len() == 1 {
                assert(all =~= none.push(list@[0]@));
                text_laws::lemma_joining(none, " "@, list@[0]@);
            }
            text_laws::lemma_joining(words, " "@, last);
        },
        _ => {},
    }
}

// ---------------------------------------------------------------- responses

/// A response that says how far things are holds the request, the share and the words, to be shown
/// as markup; one with what was asked for is marked as trusted; one with what went wrong holds the
/// reason, the details and what may help.
pub proof fn lemma_responses<'a>(
    response: HalResponse<'a>,
    id: Seq<char>,
    percent: u32,
    said: Seq<char>,
    details: Seq<char>,
    action: Seq<char>,
)
    ensures
        response.is_progress(id, percent, said) <==> (response matches HalResponse::Progress {
            request_id,
            percent: share,
            message,
            format,
        } && request_id@ == id && share == percent && message@ == said && format@ == "html"@),
        response.is_final(id, said) <==> (response matches HalResponse::Final {
            request_id,
            format,
            message,
            trusted_html,
        } && request_id@ == id && message@ == said && format@ == "html"@ && trusted_html == true),
        response.is_error(id, said, details, action) <==> (response matches HalResponse::Error {
            request_id,
            reason,
            technical_details,
            suggested_action,
            format,
        } && request_id@ == id && reason@ == said && technical_details@ == details
            && suggested_action@ == action && format@ == "html"@),
{
}

/// A response in JSON is an object with its type first and each of its values under its own key, in
/// this order: a text as a JSON string, a number in decimal form, and a truth value as its word.
pub proof fn lemma_responses_in_json<'a>(response: HalResponse<'a>)
    ensures
        match response {
            HalResponse::Progress { request_id, percent, message, format } => response.json()
                == "{\"type\":\"progress\",\"request_id\":"@ + outside::json_string(request_id@)
                + ",\"percent\":"@ + text::decimal(percent as nat) + ",\"message\":"@
                + outside::json_string(message@) + ",\"format\":"@ + outside::json_string(format@)
                + "}"@,
            HalResponse::Final { request_id, format, message, trusted_html } => response.json()
                == "{\"type\":\"final\",\"request_id\":"@ + outside::json_string(request_id@)
                + ",\"format\":"@ + outside::json_string(format@) + ",\"message\":"@
                + outside::json_string(message@) + ",\"trusted_html\":"@ + (if trusted_html {
                "true"@
            } else {
                "false"@
            }) + "}"@,
            HalResponse::Error {
                request_id,
                reason,
                technical_details,
                suggested_action,
                format,
            } => response.json() == "{\"type\":\"error\",\"request_id\":"@ + outside::json_string(
                request_id@,
            ) + ",\"reason\":"@ + outside::json_string(reason@) + ",\"technical_details\":"@
                + outside::json_string(technical_details@) + ",\"suggested_action\":"@
                + outside::json_string(suggested_action@) + ",\"format\":"@ + outside::json_string(
                format@,
            ) + "}"@,
        },
{
}

/// Two responses with what was asked for that read the same in JSON, with the same request and the
/// same way of showing, hold the same message.
pub proof fn lemma_messages_in_json_tell_apart<'a>(
    one: HalResponse<'a>,
    other: HalResponse<'a>,
    id: Seq<char>,
    said: Seq<char>,
    other_said: Seq<char>,
)
    requires
        one.is_final(id, said),
        other.is_final(id, other_said),
        one.json() == other.json(),
    ensures
        said == other_said,
{
    lemma_responses_in_json(one);
    lemma_responses_in_json(other);
    let front = "{\"type\":\"final\",\"request_id\":"@ + outside::json_string(id) + ",\"format\":"@
        + outside::json_string("html"@) + ",\"message\":"@;
    let back = ",\"trusted_html\":"@ + "true"@ + "}"@;
    let a = outside::json_string(said);
    let b = outside::json_string(other_said);
    assert(one.json() =~= front + a + back);
    assert(other.json() =~= front + b + back);
    assert(a =~= (front + a + back).subrange(front.len() as int, (front.len() + a.len()) as int));
    assert(b =~= (front + b + back).subrange(front.len() as int, (front.len() + b.len()) as int));
    text_laws::lemma_json_strings_tell_apart(said, other_said);
}

// ---------------------------------------------------------------- what is said

/// What is said of a session that is up holds the name of the instance, its identifier, the public
/// address, the address of the endpoint with its port, and the model.
pub proof fn lemma_started(config: Config, state: State, ip: Seq<char>)
    ensures
        ({
            let words = hal::started_words(config, state, ip);
            let id = match state@.instance_id {
                Some(id) => id,
                None => "unknown"@,
            };
            &&& text::holds_text(words, config.instance.name@)
            &&& text::holds_text(words, " (<code>"@ + id)
            &&& text::holds_text(
                words,
                "</code>)\n<b>State:</b> Running\n<b>Public IP:</b> "@ + ip,
            )
            &&& text::holds_text(
                words,
                "\n<b>Inference Endpoint:</b> http://"@ + ip + ":"@ + text::decimal(
                    config.nemotron.port as nat,
                ),
            )
            &&& text::holds_text(
                words,
                "\n<b>Configured Model:</b> <code>"@ + config.nemotron.model@,
            )
        }),
{
    let words = hal::started_words(config, state, ip);
    let id = match state@.instance_id {
        Some(id) => id,
        None => "unknown"@,
    };
    let head = "<b>GPU Instance:</b> "@;
    let name = config.instance.name@;
    let a = " (<code>"@ + id;
    let b = "</code>)\n<b>State:</b> Running\n<b>Public IP:</b> "@ + ip;
    let c = "\n<b>Inference Endpoint:</b> http://"@ + ip + ":"@ + text::decimal(
        config.nemotron.port as nat,
    );
    let d = "\n<b>Configured Model:</b> <code>"@ + config.nemotron.model@;
    let tail =
        "</code>\n\n⚠️ <b>Billing Warning:</b> The GPU Instance is active and generating charges. Run <code>/scaleway_kill KILL</code> to tear it down."@;
    assert(words =~= head + name + (a + b + c + d + tail));
    assert(words =~= (head + name) + a + (b + c + d + tail));
    assert(words =~= (head + name + a) + b + (c + d + tail));
    assert(words =~= (head + name + a + b) + c + (d + tail));
    assert(words =~= (head + name + a + b + c) + d + tail);
    text_laws::lemma_stands_between(head, name, a + b + c + d + tail);
    text_laws::lemma_stands_between(head + name, a, b + c + d + tail);
    text_laws::lemma_stands_between(head + name + a, b, c + d + tail);
    text_laws::lemma_stands_between(head + name + a + b, c, d + tail);
    text_laws::lemma_stands_between(head + name + a + b + c, d, tail);
}

/// What is said in the end of a request to remove the session goes by what was done about it.
pub proof fn lemma_words_of_a_removal(step: KillStep)
    ensures
        match step {
            KillStep::Unconfirmed => step.words()
                == "Aborted. To terminate all resources, you must pass exactly the KILL argument: <code>/scaleway_kill KILL</code>"@,
            KillStep::NothingThere => step.words()
                == "No active state file found. Nothing to clean up."@,
            KillStep::Remove => step.words()
                == "Teardown complete. All Scaleway GPU resources (Instance, volume, and flexible IP) have been stopped and deleted."@,
        },
{
}

/// The help names the five commands, and that a removal takes the word for it.
pub proof fn lemma_help()
    ensures
        hal::help_words()
            == "<b>Available Scaleway GPU Commands:</b>\n\n• <code>/scaleway &lt;prompt&gt;</code>: Provision/resume GPU and ask a query.\n• <code>/scaleway_start</code>: Provision/resume GPU resources and wait for readiness.\n• <code>/scaleway_status</code>: Check status of GPU instance, IP, and model loading.\n• <code>/scaleway_kill KILL</code>: Stop and delete all resources (IP, Volume, Instance).\n• <code>/scaleway_help</code>: Show this help message."@,
{
}

} // verus!
