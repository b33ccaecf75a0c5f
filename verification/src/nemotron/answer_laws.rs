//! What an answer is made of, in terms of the JSON values and the lines that come in.

use vstd::prelude::*;
#[allow(unused_imports)]
use vstd::string::*;
#[allow(unused_imports)]
use vstd::utf8::*;

#[allow(unused_imports)]
use crate::error::AppErrorView;
#[allow(unused_imports)]
use crate::nemotron::answer;
#[allow(unused_imports)]
use crate::nemotron::answer::{LinesView, StreamView};
#[allow(unused_imports)]
use crate::nemotron::stream;
#[allow(unused_imports)]
use crate::outside;
#[allow(unused_imports)]
use crate::outside::Json;
#[allow(unused_imports)]
use crate::text;
#[allow(unused_imports)]
use crate::text_laws;

verus! {

// ---------------------------------------------------------------- events

/// Whether an alternative has an object under a key with a text under `content`.
pub open spec fn says_under(choice: Json, key: Seq<char>, said: Seq<char>) -> bool {
    &&& choice matches Json::Object(members)
    &&& members.contains_key(key)
    &&& members[key] matches Json::Object(inner)
    &&& inner.contains_key("content"@)
    &&& inner["content"@] == Json::Text(said)
}

/// Whether an alternative has nothing under a key, or an object without a `content`: `null` counts
/// as nothing in both places.
pub open spec fn silent_under(choice: Json, key: Seq<char>) -> bool {
    &&& choice matches Json::Object(members)
    &&& members.contains_key(key) ==> match members[key] {
        Json::Null => true,
        Json::Object(inner) => inner.contains_key("content"@) ==> inner["content"@] is Null,
        _ => false,
    }
}

/// Whether an alternative is well formed under a key.
pub open spec fn sound_under(choice: Json, key: Seq<char>) -> bool {
    silent_under(choice, key) || exists|said: Seq<char>| says_under(choice, key, said)
}

/// Whether a JSON value is a piece of an answer with these alternatives.
pub open spec fn piece_with(json: Json, choices: Seq<Json>) -> bool {
    &&& json matches Json::Object(members)
    &&& members.contains_key("choices"@)
    &&& members["choices"@] == Json::Array(choices)
    &&& forall|i: int|
        0 <= i < choices.len() ==> sound_under(#[trigger] choices[i], "delta"@) && sound_under(
            choices[i],
            "message"@,
        )
}

proof fn lemma_part(choice: Json, key: Seq<char>)
    ensures
        choice is Object ==> (stream::part_of(choice, key) is Some <==> sound_under(choice, key)),
        silent_under(choice, key) ==> stream::part_of(choice, key) == Some(None::<Seq<char>>),
        forall|said: Seq<char>| #[trigger]
            says_under(choice, key, said) ==> stream::part_of(choice, key) == Some(Some(said)),
{
    match stream::part_of(choice, key) {
        Some(Some(said)) => {
            if choice is Object {
                assert(says_under(choice, key, said));
            }
        },
        _ => {},
    }
}

proof fn lemma_choices(json: Json, choices: Seq<Json>)
    ensures
        stream::choices_of(json) == Some(choices) <==> piece_with(json, choices),
{
    assert forall|i: int| 0 <= i < choices.len() implies stream::is_choice(#[trigger] choices[i])
        == (sound_under(choices[i], "delta"@) && sound_under(choices[i], "message"@)) by {
        lemma_part(choices[i], "delta"@);
        lemma_part(choices[i], "message"@);
    }
    if stream::choices_of(json) == Some(choices) {
        assert forall|i: int| 0 <= i < choices.len() implies sound_under(
            #[trigger] choices[i],
            "delta"@,
        ) && sound_under(choices[i], "message"@) by {
            assert(stream::is_choice(choices[i]));
        }
    }
    if piece_with(json, choices) {
        assert forall|i: int| 0 <= i < choices.len() implies stream::is_choice(
            #[trigger] choices[i],
        ) by {
            assert(sound_under(choices[i], "delta"@));
        }
    }
}

/// A piece of an answer says exactly the text under `delta` and `content` in its first alternative,
/// every character of it; where there is none, exactly the text under `message` and `content`;
/// where there is none either, or no alternative, it says nothing.
pub proof fn lemma_a_piece_says_its_content(json: Json, choices: Seq<Json>, said: Seq<char>)
    requires
        piece_with(json, choices),
    ensures
        choices.len() > 0 && says_under(choices[0], "delta"@, said) ==> stream::json_event(json)
            == Ok::<Option<Seq<char>>, AppErrorView>(Some(said)),
        choices.len() > 0 && silent_under(choices[0], "delta"@) && says_under(
            choices[0],
            "message"@,
            said,
        ) ==> stream::json_event(json) == Ok::<Option<Seq<char>>, AppErrorView>(Some(said)),
        choices.len() > 0 && silent_under(choices[0], "delta"@) && silent_under(
            choices[0],
            "message"@,
        ) ==> stream::json_event(json) == Ok::<Option<Seq<char>>, AppErrorView>(None),
        choices.len() == 0 ==> stream::json_event(json) == Ok::<Option<Seq<char>>, AppErrorView>(
            None,
        ),
{
    lemma_choices(json, choices);
    if choices.len() > 0 {
        lemma_part(choices[0], "delta"@);
        lemma_part(choices[0], "message"@);
    }
}

/// Whether a JSON value has an object under `error` with a text under `message`.
pub open spec fn tells(json: Json, message: Seq<char>) -> bool {
    &&& json matches Json::Object(members)
    &&& members.contains_key("error"@)
    &&& members["error"@] matches Json::Object(inner)
    &&& inner.contains_key("message"@)
    &&& inner["message"@] == Json::Text(message)
}

/// A JSON value that is no piece of an answer fails with the text under `error` and `message`,
/// every character of it; without such a text it says nothing.
pub proof fn lemma_an_error_says_its_message(json: Json, message: Seq<char>)
    requires
        forall|choices: Seq<Json>| !piece_with(json, choices),
    ensures
        tells(json, message) ==> stream::json_event(json) == Err::<
            Option<Seq<char>>,
            AppErrorView,
        >(AppErrorView::ChatRequestFailed(message)),
        (forall|other: Seq<char>| !tells(json, other)) ==> stream::json_event(json) == Ok::<
            Option<Seq<char>>,
            AppErrorView,
        >(None),
{
    match stream::choices_of(json) {
        Some(choices) => {
            lemma_choices(json, choices);
        },
        None => {
            match stream::error_message(json) {
                Some(found) => {
                    assert(tells(json, found));
                },
                None => {},
            }
        },
    }
}

// ---------------------------------------------------------------- lines

/// A line that begins with `data:` says what the JSON value behind it says, whatever white space
/// stands around it; `[DONE]` is the end of the answer, and what is no JSON says nothing.
pub proof fn lemma_data_lines(
    front: Seq<char>,
    gap: Seq<char>,
    data: Seq<char>,
    back: Seq<char>,
)
    requires
        text_laws::all_space(front),
        text_laws::all_space(gap),
        text_laws::all_space(back),
        text_laws::bare(data),
    ensures
        ({
            let event = stream::line_event(front + ("data:"@ + gap + data) + back);
            if data == "[DONE]"@ {
                event == Ok::<Option<Seq<char>>, AppErrorView>(Some("[DONE]"@))
            } else {
                match outside::json_document(data) {
                    Some(json) => event == stream::json_event(json),
                    None => event == Ok::<Option<Seq<char>>, AppErrorView>(None),
                }
            }
        }),
{
    reveal_strlit("data:");
    let line = front + ("data:"@ + gap + data) + back;
    text_laws::lemma_white_space('d');
    text_laws::lemma_white_space(':');
    if data.len() > 0 {
        let inner = "data:"@ + gap + data;
        assert(inner[inner.len() - 1] == data[data.len() - 1]);
        assert(inner[0] == 'd');
        text_laws::lemma_trimmed_is_what_stands_between(front, inner, back);
        assert(inner =~= "data:"@ + (gap + data));
        text_laws::lemma_behind_what_is_in_front("data:"@, gap + data);
        assert(gap + data + Seq::<char>::empty() =~= gap + data);
        text_laws::lemma_trimmed_is_what_stands_between(gap, data, Seq::empty());
    } else {
        let inner = "data:"@;
        let rest = gap + back;
        assert forall|i: int| 0 <= i < rest.len() implies text::is_space(#[trigger] rest[i]) by {
            if i < gap.len() {
                assert(rest[i] == gap[i]);
            } else {
                assert(rest[i] == back[i - gap.len()]);
            }
        }
        assert(line =~= front + inner + rest);
        assert(inner[0] == 'd' && inner[inner.len() - 1] == ':');
        text_laws::lemma_trimmed_is_what_stands_between(front, inner, rest);
        assert(inner + Seq::<char>::empty() =~= inner);
        text_laws::lemma_behind_what_is_in_front(inner, Seq::empty());
        let none = Seq::<char>::empty();
        assert(none + none + none =~= none);
        text_laws::lemma_trimmed_is_what_stands_between(none, none, none);
        assert(data =~= none);
    }
}

/// A blank line, a comment and a line that does not begin with `data:` say nothing.
pub proof fn lemma_other_lines(front: Seq<char>, inner: Seq<char>, back: Seq<char>)
    requires
        text_laws::all_space(front),
        text_laws::all_space(back),
        text_laws::bare(inner),
        inner.len() == 0 || inner[0] == ':' || inner.len() < 5 || inner.take(5) != "data:"@,
    ensures
        stream::line_event(front + inner + back) == Ok::<Option<Seq<char>>, AppErrorView>(None),
{
    reveal_strlit("data:");
    text_laws::lemma_trimmed_is_what_stands_between(front, inner, back);
    if text::stands_at(inner, "data:"@, 0) {
        assert(inner.take(5) =~= inner.subrange(0, 5));
    }
}

/// A single line brings what it says: a piece of the answer, its end, an error or nothing.
pub proof fn lemma_one_line(line: Seq<char>, said: Seq<char>, e: AppErrorView)
    ensures
        ({
            let heard = answer::read_lines(seq![line]);
            let event = stream::line_event(line);
            &&& event == Ok::<Option<Seq<char>>, AppErrorView>(Some(said)) && said != "[DONE]"@
                ==> heard.tokens == seq![said] && !heard.done && heard.failure is None
            &&& event == Ok::<Option<Seq<char>>, AppErrorView>(Some("[DONE]"@)) ==> heard.tokens
                == Seq::<Seq<char>>::empty() && heard.done && heard.failure is None
            &&& event == Ok::<Option<Seq<char>>, AppErrorView>(None) ==> heard.tokens == Seq::<
                Seq<char>,
            >::empty() && !heard.done && heard.failure is None
            &&& event == Err::<Option<Seq<char>>, AppErrorView>(e) ==> heard.tokens == Seq::<
                Seq<char>,
            >::empty() && !heard.done && heard.failure == Some(e)
        }),
{
    let none = Seq::<Seq<char>>::empty();
    assert(seq![line].drop_last() =~= none);
    assert(answer::read_lines(none).tokens =~= none);
    assert(none.push(said) =~= seq![said]);
}

/// Pieces of an answer are put one behind the other, with nothing between them and in their order.
pub proof fn lemma_pieces_one_behind_the_other(tokens: Seq<Seq<char>>)
    ensures
        answer::together(tokens) == tokens.flatten(),
    decreases tokens.len(),
{
    tokens.lemma_flatten_and_flatten_alt_are_equivalent();
    if tokens.len() > 0 {
        lemma_pieces_one_behind_the_other(tokens.drop_last());
        tokens.drop_last().lemma_flatten_and_flatten_alt_are_equivalent();
    }
}

// ---------------------------------------------------------------- whole answers

/// Whether some data are a piece of an answer that adds this text.
pub open spec fn adds(data: Seq<char>, said: Seq<char>) -> bool {
    exists|json: Json, choices: Seq<Json>|
        outside::json_document(data) == Some(json) && #[trigger] piece_with(json, choices)
            && choices.len() > 0 && says_under(choices[0], "delta"@, said)
}

/// The lines of an answer: one with each piece of data.
pub open spec fn data_lines(data: Seq<Seq<char>>) -> Seq<Seq<char>> {
    data.map_values(|d: Seq<char>| "data: "@ + d)
}

/// Whether data stand on lines of their own, each adding its text. A text that is the word for the
/// end of an answer would be taken for it.
pub open spec fn carry(data: Seq<Seq<char>>, said: Seq<Seq<char>>) -> bool {
    &&& data.len() == said.len()
    &&& forall|i: int|
        0 <= i < data.len() ==> {
            &&& text::one_line(#[trigger] data[i])
            &&& text_laws::bare(data[i])
            &&& data[i] != "[DONE]"@
            &&& adds(data[i], said[i])
            &&& said[i] != "[DONE]"@
        }
}

proof fn lemma_data_line(data: Seq<char>)
    requires
        text_laws::bare(data),
        text::one_line(data),
    ensures
        data == "[DONE]"@ ==> stream::line_event("data: "@ + data) == Ok::<
            Option<Seq<char>>,
            AppErrorView,
        >(Some("[DONE]"@)),
        forall|said: Seq<char>|
            data != "[DONE]"@ && #[trigger] adds(data, said) ==> stream::line_event("data: "@ + data)
                == Ok::<Option<Seq<char>>, AppErrorView>(Some(said)),
        text::one_line("data: "@ + data),
        ("data: "@ + data).last() != '\r',
{
    reveal_strlit("data: ");
    reveal_strlit("data:");
    let none = Seq::<char>::empty();
    let gap = seq![' '];
    text_laws::lemma_white_space(' ');
    text_laws::lemma_white_space('\r');
    assert("data: "@ =~= "data:"@ + gap);
    assert(none + ("data:"@ + gap + data) + none =~= "data: "@ + data);
    lemma_data_lines(none, gap, data, none);
    assert forall|said: Seq<char>| data != "[DONE]"@ && #[trigger] adds(data, said) implies
        stream::line_event("data: "@ + data) == Ok::<Option<Seq<char>>, AppErrorView>(
        Some(said),
    ) by {
        let (json, choices) = choose|json: Json, choices: Seq<Json>|
            outside::json_document(data) == Some(json) && #[trigger] piece_with(json, choices)
                && choices.len() > 0 && says_under(choices[0], "delta"@, said);
        lemma_a_piece_says_its_content(json, choices, said);
    }
    let line = "data: "@ + data;
    assert forall|i: int| 0 <= i < line.len() implies #[trigger] line[i] != '\n' by {
        if i >= 6 {
            assert(line[i] == data[i - 6]);
        }
    }
    if data.len() > 0 {
        assert(line.last() == data[data.len() - 1]);
    }
}

proof fn lemma_lines_carry(data: Seq<Seq<char>>, said: Seq<Seq<char>>)
    requires
        carry(data, said),
    ensures
        answer::read_lines(data_lines(data)) == (LinesView {
            tokens: said,
            done: false,
            failure: None,
        }),
        forall|i: int|
            0 <= i < data.len() ==> text::one_line(#[trigger] data_lines(data)[i]) && data_lines(
                data,
            )[i].last() != '\r',
    decreases data.len(),
{
    let lines = data_lines(data);
    if data.len() == 0 {
        assert(said =~= Seq::<Seq<char>>::empty());
    } else {
        let front = data.drop_last();
        let last = data[data.len() - 1];
        assert forall|i: int| 0 <= i < front.len() implies {
            &&& text::one_line(#[trigger] front[i])
            &&& text_laws::bare(front[i])
            &&& front[i] != "[DONE]"@
            &&& adds(front[i], said.drop_last()[i])
            &&& said.drop_last()[i] != "[DONE]"@
        } by {
            assert(front[i] == data[i]);
        }
        lemma_lines_carry(front, said.drop_last());
        assert(lines.drop_last() =~= data_lines(front));
        assert(lines.last() == "data: "@ + last);
        lemma_data_line(last);
        assert(adds(last, said[said.len() - 1]));
        assert(said.drop_last().push(said[said.len() - 1]) =~= said);
    }
    assert forall|i: int| 0 <= i < data.len() implies text::one_line(#[trigger] lines[i])
        && lines[i].last() != '\r' by {
        assert(lines[i] == "data: "@ + data[i]);
        lemma_data_line(data[i]);
    }
}

/// An answer whose pieces come one to a line, whichever of the two line ends is used, followed by
/// `[DONE]`, is the texts of the pieces one behind the other: nothing is left out, added or changed,
/// and what comes behind the end is not read.
pub proof fn lemma_whole_answer(
    data: Seq<Seq<char>>,
    said: Seq<Seq<char>>,
    more: Seq<u8>,
    ending: Seq<u8>,
)
    requires
        carry(data, said),
        data.len() > 0,
        ending == seq![13u8, 10u8] || ending == seq![10u8],
    ensures
        answer::answer_in(
            stream::written(data_lines(data).push("data: [DONE]"@), ending) + more,
        ) == Ok::<Seq<char>, AppErrorView>(said.flatten()),
{
    let front = data_lines(data);
    let end = "data: [DONE]"@;
    let lines = front.push(end);
    reveal_strlit("data: [DONE]");
    reveal_strlit("data: ");
    reveal_strlit("[DONE]");
    text_laws::lemma_white_space('[');
    text_laws::lemma_white_space(']');
    lemma_lines_carry(data, said);
    assert("data: "@ + "[DONE]"@ =~= end);
    lemma_data_line("[DONE]"@);
    assert(lines.drop_last() =~= front);
    assert(answer::read_lines(lines) == (LinesView { tokens: said, done: true, failure: None }));
    assert forall|i: int| 0 <= i < lines.len() implies text::one_line(#[trigger] lines[i])
        && lines[i].last() != '\r' by {
        if i < front.len() {
            assert(lines[i] == front[i]);
        }
    }
    let written = stream::written(lines, ending);
    stream::lemma_lines_come_back(lines, ending);
    stream::lemma_cut_anywhere(written, more);
    let all = stream::whole_lines(written + more);
    assert(all.take(lines.len() as int) =~= lines);
    answer::lemma_stopped(all, lines.len() as int);
    let input = written + more;
    assert(answer::said_in(input) =~= said);
    lemma_pieces_one_behind_the_other(said);
}

/// An answer that breaks off behind a piece without a line end and without `[DONE]` still holds that
/// piece.
pub proof fn lemma_answer_that_breaks_off(
    data: Seq<Seq<char>>,
    said: Seq<Seq<char>>,
    last: Seq<char>,
    last_said: Seq<char>,
    ending: Seq<u8>,
)
    requires
        carry(data, said),
        carry(seq![last], seq![last_said]),
        ending == seq![13u8, 10u8] || ending == seq![10u8],
    ensures
        answer::answer_in(
            stream::written(data_lines(data), ending) + encode_utf8("data: "@ + last),
        ) == Ok::<Seq<char>, AppErrorView>(said.flatten() + last_said),
{
    let lines = data_lines(data);
    let line = "data: "@ + last;
    let back = encode_utf8(line);
    let written = stream::written(lines, ending);
    let input = written + back;
    reveal_strlit("data: ");
    lemma_lines_carry(data, said);
    assert(seq![last][0] == last && seq![last_said][0] == last_said);
    assert(text::one_line(seq![last][0]));
    lemma_data_line(last);
    assert(adds(last, last_said));
    stream::lemma_lines_come_back(lines, ending);
    stream::lemma_cut_anywhere(written, back);
    assert(Seq::<u8>::empty() + back =~= back);
    stream::lemma_line_without_end(line);
    assert(lines + Seq::<Seq<char>>::empty() =~= lines);
    assert(answer::said_in(input) =~= said.push(last_said));
    lemma_pieces_one_behind_the_other(said.push(last_said));
    lemma_pieces_one_behind_the_other(said);
    assert(said.push(last_said).drop_last() =~= said);
}

/// The first error in an answer is what it comes to, whatever was said before it and whatever comes
/// behind it.
pub proof fn lemma_first_error_counts(input: Seq<u8>, at: int, e: AppErrorView)
    requires
        0 <= at < stream::whole_lines(input).len(),
        forall|i: int|
            0 <= i < at ==> {
                let event = stream::line_event(#[trigger] stream::whole_lines(input)[i]);
                event is Ok && event != Ok::<Option<Seq<char>>, AppErrorView>(Some("[DONE]"@))
            },
        stream::line_event(stream::whole_lines(input)[at]) == Err::<Option<Seq<char>>, AppErrorView>(
            e,
        ),
    ensures
        answer::answer_in(input) == Err::<Seq<char>, AppErrorView>(e),
{
    let lines = stream::whole_lines(input);
    lemma_nothing_stops(lines.take(at));
    let upto = lines.take(at + 1);
    assert(upto.drop_last() =~= lines.take(at));
    assert(upto.last() == lines[at]);
    answer::lemma_stopped(lines, at + 1);
}

proof fn lemma_nothing_stops(lines: Seq<Seq<char>>)
    requires
        forall|i: int|
            0 <= i < lines.len() ==> {
                let event = stream::line_event(#[trigger] lines[i]);
                event is Ok && event != Ok::<Option<Seq<char>>, AppErrorView>(Some("[DONE]"@))
            },
    ensures
        !answer::read_lines(lines).done,
        answer::read_lines(lines).failure is None,
        (forall|i: int|
            0 <= i < lines.len() ==> stream::line_event(#[trigger] lines[i]) == Ok::<
                Option<Seq<char>>,
                AppErrorView,
            >(None)) ==> answer::read_lines(lines).tokens.len() == 0,
    decreases lines.len(),
{
    if lines.len() > 0 {
        let front = lines.drop_last();
        assert forall|i: int| 0 <= i < front.len() implies {
            let event = stream::line_event(#[trigger] front[i]);
            event is Ok && event != Ok::<Option<Seq<char>>, AppErrorView>(Some("[DONE]"@))
        } by {
            assert(front[i] == lines[i]);
        }
        lemma_nothing_stops(front);
        assert(lines.last() == lines[lines.len() - 1]);
        if forall|i: int|
            0 <= i < lines.len() ==> stream::line_event(#[trigger] lines[i]) == Ok::<
                Option<Seq<char>>,
                AppErrorView,
            >(None) {
            assert forall|i: int| 0 <= i < front.len() implies stream::line_event(
                #[trigger] front[i],
            ) == Ok::<Option<Seq<char>>, AppErrorView>(None) by {
                assert(front[i] == lines[i]);
            }
        }
    }
}

/// An input whose lines say nothing is no answer.
pub proof fn lemma_no_answer(input: Seq<u8>)
    requires
        forall|i: int|
            0 <= i < stream::whole_lines(input).len() ==> stream::line_event(
                #[trigger] stream::whole_lines(input)[i],
            ) == Ok::<Option<Seq<char>>, AppErrorView>(None),
        stream::unfinished(input).len() == 0,
    ensures
        answer::answer_in(input) == Err::<Seq<char>, AppErrorView>(
            AppErrorView::ChatRequestFailed("No content received from stream"@),
        ),
{
    lemma_nothing_stops(stream::whole_lines(input));
}

/// Whatever has come in of an answer, the next pieces are put behind what was said before, and
/// behind the end nothing is heard.
pub proof fn lemma_nothing_said_is_lost(now: StreamView, chunk: Seq<u8>)
    ensures
        ({
            let next = now.after(chunk);
            let heard = now.heard(chunk);
            &&& next.accumulated == now.accumulated + heard.tokens.flatten()
            &&& next.received_any <==> now.received_any || heard.tokens.len() > 0
            &&& now.done ==> next == now && heard.tokens.len() == 0 && heard.failure is None
        }),
{
    let heard = now.heard(chunk);
    lemma_pieces_one_behind_the_other(heard.tokens);
    if now.done {
        assert(heard.tokens =~= Seq::<Seq<char>>::empty());
        assert(now.accumulated + heard.tokens.flatten() =~= now.accumulated);
    }
}

} // verus!
