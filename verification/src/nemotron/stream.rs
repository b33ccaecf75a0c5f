//! Reading an answer that comes in pieces: bytes to lines, lines to events, events to text.

use vstd::prelude::*;
#[allow(unused_imports)]
use vstd::string::*;
#[allow(unused_imports)]
use vstd::utf8::*;

use crate::error::AppError;
#[allow(unused_imports)]
use crate::error::AppErrorView;
use crate::nemotron::models::{ChatCompletionChunk, ChunkChoice, ChunkContent};
use crate::outside::{
    json_as_array, json_as_str, json_get, json_is_null, json_is_object, json_parse, utf8_text,
};
#[allow(unused_imports)]
use crate::outside::Json;
#[allow(unused_imports)]
use crate::outside;
use crate::text::{begins_with_char, copy_text, same_text, strip_prefix, trim};
#[allow(unused_imports)]
use crate::text;

verus! {

// ---------------------------------------------------------------- bytes to lines

/// The position of the first line feed; the length where there is none.
pub open spec fn first_break(bytes: Seq<u8>) -> nat
    decreases bytes.len(),
{
    if bytes.len() == 0 || bytes[0] == 10 {
        0
    } else {
        1 + first_break(bytes.skip(1))
    }
}

/// A line without the carriage return at its back.
pub open spec fn without_return(line: Seq<u8>) -> Seq<u8> {
    if line.len() > 0 && line.last() == 13 {
        line.drop_last()
    } else {
        line
    }
}

/// The text of a line; nothing where it is not UTF-8.
pub open spec fn line_text(line: Seq<u8>) -> Option<Seq<char>> {
    if valid_utf8(without_return(line)) {
        Some(decode_utf8(without_return(line)))
    } else {
        None
    }
}

/// A text that may be absent, as a list.
pub open spec fn as_list(line: Option<Seq<char>>) -> Seq<Seq<char>> {
    match line {
        Some(found) => seq![found],
        None => Seq::empty(),
    }
}

/// The lines that end in some bytes, without those that are not UTF-8.
pub open spec fn whole_lines(bytes: Seq<u8>) -> Seq<Seq<char>>
    decreases bytes.len(),
{
    let at = first_break(bytes) as int;
    if at < bytes.len() {
        as_list(line_text(bytes.take(at))) + whole_lines(bytes.skip(at + 1))
    } else {
        Seq::empty()
    }
}

/// The bytes behind the last line that ends in some bytes.
pub open spec fn unfinished(bytes: Seq<u8>) -> Seq<u8>
    decreases bytes.len(),
{
    let at = first_break(bytes) as int;
    if at < bytes.len() {
        unfinished(bytes.skip(at + 1))
    } else {
        bytes
    }
}

proof fn lemma_first_break(bytes: Seq<u8>)
    ensures
        0 <= first_break(bytes) <= bytes.len(),
        first_break(bytes) < bytes.len() ==> bytes[first_break(bytes) as int] == 10,
        forall|i: int| 0 <= i < first_break(bytes) ==> bytes[i] != 10,
    decreases bytes.len(),
{
    if bytes.len() > 0 && bytes[0] != 10 {
        let rest = bytes.skip(1);
        lemma_first_break(rest);
        assert forall|i: int| 0 <= i < first_break(bytes) implies bytes[i] != 10 by {
            if i > 0 {
                assert(rest[i - 1] == bytes[i]);
            }
        }
        if first_break(bytes) < bytes.len() {
            assert(rest[first_break(rest) as int] == bytes[first_break(bytes) as int]);
        }
    }
}

proof fn lemma_break_at(bytes: Seq<u8>, at: int)
    requires
        0 <= at <= bytes.len(),
        at < bytes.len() ==> bytes[at] == 10,
        forall|i: int| 0 <= i < at ==> bytes[i] != 10,
    ensures
        first_break(bytes) == at,
{
    lemma_first_break(bytes);
    let found = first_break(bytes) as int;
    if found < at {
        assert(bytes[found] != 10);
    }
    if at < found {
        assert(bytes[at] != 10);
    }
}

/// What a parser of lines holds between two pieces of input.
pub struct SseParser {
    buffer: Vec<u8>,
}

impl Default for SseParser {
    fn default() -> (parser: SseParser)
        ensures
            parser.held() == Seq::<u8>::empty(),
    {
        SseParser::new()
    }
}

/// The text of a line, if it is UTF-8.
fn read_line(line: &Vec<u8>) -> (found: Option<String>)
    ensures
        text::some_text(found) == line_text(line@),
{
    broadcast use encode_utf8_decode_utf8;

    let length: usize = line.len();
    if length > 0 && line[length - 1] == 13 {
        let mut front: Vec<u8> = Vec::new();
        let mut i: usize = 0;
        while i < length - 1
            invariant
                length == line@.len(),
                length > 0,
                i <= length - 1,
                front@ == line@.take(i as int),
            decreases length - i,
        {
            front.push(line[i]);
            proof {
                assert(line@.take(i + 1) =~= line@.take(i as int).push(line@[i as int]));
            }
            i = i + 1;
        }
        proof {
            assert(front@ =~= line@.drop_last());
        }
        utf8_text(front.as_slice())
    } else {
        utf8_text(line.as_slice())
    }
}

impl SseParser {
    /// The bytes of the line that has not ended yet.
    pub closed spec fn held(self) -> Seq<u8> {
        self.buffer@
    }

    /// A parser that holds nothing.
    pub fn new() -> (parser: SseParser)
        ensures
            parser.held() == Seq::<u8>::empty(),
    {
        SseParser { buffer: Vec::new() }
    }

    /// Takes a piece of input, and gives the lines that end in it.
    pub fn feed(&mut self, chunk: &[u8]) -> (lines: Vec<String>)
        ensures
            text::texts(lines@) == whole_lines(old(self).held() + chunk@),
            final(self).held() == unfinished(old(self).held() + chunk@),
    {
        let ghost all = self.buffer@ + chunk@;
        self.buffer.extend_from_slice(chunk);
        proof {
            assert(self.buffer@ =~= all);
            assert(all.skip(0) =~= all);
        }
        let mut lines: Vec<String> = Vec::new();
        let mut line: Vec<u8> = Vec::new();
        let mut i: usize = 0;
        let ghost mut start: int = 0;
        proof {
            assert(text::texts(lines@) + whole_lines(all) =~= whole_lines(all));
        }
        while i < self.buffer.len()
            invariant
                self.buffer@ == all,
                0 <= start <= i <= all.len(),
                line@ == all.subrange(start, i as int),
                forall|k: int| 0 <= k < line@.len() ==> line@[k] != 10,
                text::texts(lines@) + whole_lines(all.skip(start)) == whole_lines(all),
                unfinished(all.skip(start)) == unfinished(all),
            decreases all.len() - i,
        {
            let b: u8 = self.buffer[i];
            if b == 10 {
                let ghost rest = all.skip(start);
                let ghost before = lines@;
                proof {
                    assert forall|k: int| 0 <= k < i - start implies rest[k] != 10 by {
                        assert(rest[k] == line@[k]);
                    }
                    assert(rest[i - start] == 10);
                    lemma_break_at(rest, i - start);
                    assert(rest.take(i - start) =~= line@);
                    assert(rest.skip(i - start + 1) =~= all.skip(i + 1));
                }
                match read_line(&line) {
                    Some(found) => {
                        lines.push(found);
                        proof {
                            assert(text::texts(lines@) =~= text::texts(before) + as_list(
                                line_text(line@),
                            ));
                        }
                    },
                    None => {
                        proof {
                            assert(text::texts(lines@) =~= text::texts(before) + as_list(
                                line_text(line@),
                            ));
                        }
                    },
                }
                proof {
                    assert(text::texts(before) + whole_lines(rest) =~= text::texts(lines@)
                        + whole_lines(all.skip(i + 1)));
                    start = i + 1;
                }
                line = Vec::new();
                proof {
                    assert(line@ =~= all.subrange(start, i + 1));
                }
            } else {
                line.push(b);
                proof {
                    assert(line@ =~= all.subrange(start, i + 1));
                }
            }
            i = i + 1;
        }
        proof {
            let rest = all.skip(start);
            assert(rest =~= line@);
            lemma_break_at(rest, rest.len() as int);
            assert(text::texts(lines@) + whole_lines(rest) =~= text::texts(lines@));
        }
        self.buffer = line;
        lines
    }

    /// Gives the line that has not ended, if there is one.
    pub fn finish(self) -> (line: Option<String>)
        ensures
            text::some_text(line) == if self.held().len() == 0 {
                None
            } else {
                line_text(self.held())
            },
    {
        if self.buffer.len() == 0 {
            return None;
        }
        read_line(&self.buffer)
    }
}

/// It makes no difference where the input is cut: the lines are the same, and so is what is held.
pub proof fn lemma_cut_anywhere(front: Seq<u8>, back: Seq<u8>)
    ensures
        whole_lines(front + back) == whole_lines(front) + whole_lines(unfinished(front) + back),
        unfinished(front + back) == unfinished(unfinished(front) + back),
    decreases front.len(),
{
    lemma_first_break(front);
    let at = first_break(front) as int;
    if at < front.len() {
        let rest = front.skip(at + 1);
        let both = front + back;
        assert forall|i: int| 0 <= i < at implies both[i] != 10 by {
            assert(both[i] == front[i]);
        }
        lemma_break_at(both, at);
        assert(both.take(at) =~= front.take(at));
        assert(both.skip(at + 1) =~= rest + back);
        lemma_cut_anywhere(rest, back);
        assert(whole_lines(both) =~= whole_lines(front) + whole_lines(unfinished(front) + back));
    } else {
        assert(whole_lines(front) + whole_lines(front + back) =~= whole_lines(front + back));
    }
}

/// It makes no difference whether a line ends in a line feed or in a carriage return and a line
/// feed.
pub proof fn lemma_both_line_ends_count(line: Seq<u8>, rest: Seq<u8>)
    requires
        forall|i: int| 0 <= i < line.len() ==> line[i] != 10,
        line.len() == 0 || line.last() != 13,
    ensures
        whole_lines(line + seq![13u8, 10u8] + rest) == whole_lines(line + seq![10u8] + rest),
        unfinished(line + seq![13u8, 10u8] + rest) == unfinished(line + seq![10u8] + rest),
{
    let long = line + seq![13u8, 10u8] + rest;
    let short = line + seq![10u8] + rest;
    let at = line.len() as int;
    assert forall|i: int| 0 <= i < at + 1 implies long[i] != 10 by {
        if i < at {
            assert(long[i] == line[i]);
        }
    }
    assert forall|i: int| 0 <= i < at implies short[i] != 10 by {
        assert(short[i] == line[i]);
    }
    lemma_break_at(long, at + 1);
    lemma_break_at(short, at);
    assert(long.take(at + 1) =~= line.push(13));
    assert(line.push(13).drop_last() =~= line);
    assert(short.take(at) =~= line);
    assert(long.skip(at + 2) =~= rest);
    assert(short.skip(at + 1) =~= rest);
}

/// Lines written out, each with the same ending behind it.
pub open spec fn written(lines: Seq<Seq<char>>, ending: Seq<u8>) -> Seq<u8>
    decreases lines.len(),
{
    if lines.len() == 0 {
        Seq::empty()
    } else {
        encode_utf8(lines[0]) + ending + written(lines.skip(1), ending)
    }
}

proof fn lemma_encoded_char(c: char)
    ensures
        encode_scalar(c as u32).len() > 0,
        forall|i: int|
            0 <= i < encode_scalar(c as u32).len() ==> {
                let b = #[trigger] encode_scalar(c as u32)[i];
                (b == 10 ==> c == '\n') && (b == 13 ==> c == '\r')
            },
{
    let v = c as u32;
    assert(v <= 0x7f ==> (v & 0x7f) as u8 as u32 == v) by (bit_vector);
    assert(0xC0u8 | ((v >> 6) & 0x1F) as u8 >= 0x80) by (bit_vector);
    assert(0xE0u8 | ((v >> 12) & 0x0F) as u8 >= 0x80) by (bit_vector);
    assert(0xF0u8 | ((v >> 18) & 0x7) as u8 >= 0x80) by (bit_vector);
    assert(0x80u8 | (v & 0x3F) as u8 >= 0x80) by (bit_vector);
    assert(0x80u8 | ((v >> 6) & 0x3F) as u8 >= 0x80) by (bit_vector);
    assert(0x80u8 | ((v >> 12) & 0x3F) as u8 >= 0x80) by (bit_vector);
}

proof fn lemma_encoded_line(line: Seq<char>)
    requires
        text::one_line(line),
    ensures
        forall|i: int| 0 <= i < encode_utf8(line).len() ==> #[trigger] encode_utf8(line)[i] != 10,
        encode_utf8(line).len() > 0 && encode_utf8(line).last() == 13 ==> line.len() > 0
            && line.last() == '\r',
    decreases line.len(),
{
    if line.len() > 0 {
        let front = encode_scalar(line[0] as u32);
        let rest = line.drop_first();
        let back = encode_utf8(rest);
        lemma_encoded_char(line[0]);
        assert forall|i: int| 0 <= i < rest.len() implies #[trigger] rest[i] != '\n' by {
            assert(rest[i] == line[i + 1]);
        }
        lemma_encoded_line(rest);
        assert forall|i: int| 0 <= i < encode_utf8(line).len() implies #[trigger] encode_utf8(
            line,
        )[i] != 10 by {
            if i < front.len() {
                assert(encode_utf8(line)[i] == front[i]);
                assert(line[0] != '\n');
            } else {
                assert(encode_utf8(line)[i] == back[i - front.len()]);
            }
        }
        if rest.len() > 0 {
            lemma_encoded_char(rest[0]);
            assert(back.len() > 0);
            assert(encode_utf8(line).last() == back.last());
            assert(rest.last() == line.last());
        } else {
            assert(back.len() == 0);
            assert(encode_utf8(line) =~= front);
            assert(front.last() == front[front.len() - 1]);
            assert(line.last() == line[0]);
        }
    }
}

proof fn lemma_line_comes_back(line: Seq<char>, lines: Seq<Seq<char>>, ending: Seq<u8>)
    requires
        text::one_line(line),
        ending == seq![13u8, 10u8] || (ending == seq![10u8] && (line.len() == 0 || line.last()
            != '\r')),
    ensures
        whole_lines(encode_utf8(line) + ending + written(lines, ending)) == seq![line]
            + whole_lines(written(lines, ending)),
        unfinished(encode_utf8(line) + ending + written(lines, ending)) == unfinished(
            written(lines, ending),
        ),
{
    broadcast use {encode_utf8_decode_utf8, encode_utf8_valid_utf8};

    let encoded = encode_utf8(line);
    let all = encoded + ending + written(lines, ending);
    let at = encoded.len() + ending.len() - 1;
    lemma_encoded_line(line);
    assert forall|i: int| 0 <= i < at implies all[i] != 10 by {
        if i < encoded.len() {
            assert(all[i] == encoded[i]);
        }
    }
    assert(all[at] == 10);
    lemma_break_at(all, at);
    assert(all.skip(at + 1) =~= written(lines, ending));
    if ending.len() == 2 {
        assert(all.take(at) =~= encoded.push(13));
        assert(encoded.push(13).drop_last() =~= encoded);
    } else {
        assert(all.take(at) =~= encoded);
    }
    assert(without_return(all.take(at)) == encoded);
    assert(as_list(line_text(all.take(at))) =~= seq![line]);
}

/// Lines that are written out with a line feed behind each, or with a carriage return and a line
/// feed, come back whole: the same lines in the same order, blank ones among them, and nothing is
/// held. With a line feed alone, a carriage return at the back of a line would be taken for a part
/// of its ending.
pub proof fn lemma_lines_come_back(lines: Seq<Seq<char>>, ending: Seq<u8>)
    requires
        forall|i: int| 0 <= i < lines.len() ==> text::one_line(#[trigger] lines[i]),
        ending == seq![13u8, 10u8] || (ending == seq![10u8] && forall|i: int|
            0 <= i < lines.len() ==> (#[trigger] lines[i]).len() == 0 || lines[i].last() != '\r'),
    ensures
        whole_lines(written(lines, ending)) == lines,
        unfinished(written(lines, ending)) == Seq::<u8>::empty(),
    decreases lines.len(),
{
    if lines.len() == 0 {
        assert(whole_lines(written(lines, ending)) =~= lines);
    } else {
        let rest = lines.skip(1);
        assert forall|i: int| 0 <= i < rest.len() implies text::one_line(#[trigger] rest[i]) by {
            assert(rest[i] == lines[i + 1]);
        }
        if ending == seq![10u8] {
            assert forall|i: int| 0 <= i < rest.len() implies (#[trigger] rest[i]).len() == 0
                || rest[i].last() != '\r' by {
                assert(rest[i] == lines[i + 1]);
            }
        }
        lemma_lines_come_back(rest, ending);
        assert(text::one_line(lines[0]));
        lemma_line_comes_back(lines[0], rest, ending);
        assert(seq![lines[0]] + rest =~= lines);
    }
}

/// A line that is not UTF-8 is left out, and nothing else with it.
pub proof fn lemma_unreadable_lines_are_left_out(line: Seq<u8>, rest: Seq<u8>)
    requires
        forall|i: int| 0 <= i < line.len() ==> line[i] != 10,
        line.len() == 0 || line.last() != 13,
        !valid_utf8(line),
    ensures
        whole_lines(line + seq![10u8] + rest) == whole_lines(rest),
        unfinished(line + seq![10u8] + rest) == unfinished(rest),
{
    let all = line + seq![10u8] + rest;
    let at = line.len() as int;
    assert forall|i: int| 0 <= i < at implies all[i] != 10 by {
        assert(all[i] == line[i]);
    }
    assert(all[at] == 10);
    lemma_break_at(all, at);
    assert(all.take(at) =~= line);
    assert(all.skip(at + 1) =~= rest);
    assert(whole_lines(all) =~= whole_lines(rest));
}

/// A line that has not ended is held, and its text can be had back.
pub proof fn lemma_line_without_end(line: Seq<char>)
    requires
        text::one_line(line),
        line.len() == 0 || line.last() != '\r',
    ensures
        whole_lines(encode_utf8(line)) == Seq::<Seq<char>>::empty(),
        unfinished(encode_utf8(line)) == encode_utf8(line),
        line_text(encode_utf8(line)) == Some(line),
        line.len() > 0 ==> encode_utf8(line).len() > 0,
{
    broadcast use {encode_utf8_decode_utf8, encode_utf8_valid_utf8};

    let bytes = encode_utf8(line);
    lemma_encoded_line(line);
    if line.len() > 0 {
        lemma_encoded_char(line[0]);
    }
    assert forall|i: int| 0 <= i < bytes.len() implies bytes[i] != 10 by {
        assert(encode_utf8(line)[i] != 10);
    }
    lemma_break_at(bytes, bytes.len() as int);
}

// ---------------------------------------------------------------- events

/// What a JSON value says where a content may stand: an object with a text under `content`, or
/// without one. Nothing where it has another form.
pub open spec fn content_of(json: Json) -> Option<Option<Seq<char>>> {
    match json {
        Json::Object(_) => match outside::json_member(json, "content"@) {
            None => Some(None),
            Some(Json::Null) => Some(None),
            Some(Json::Text(said)) => Some(Some(said)),
            _ => None,
        },
        _ => None,
    }
}

/// What an alternative says under a key, where a content may stand or be absent. Nothing where it
/// has another form.
pub open spec fn part_of(choice: Json, key: Seq<char>) -> Option<Option<Seq<char>>> {
    match outside::json_member(choice, key) {
        None => Some(None),
        Some(Json::Null) => Some(None),
        Some(part) => content_of(part),
    }
}

/// Whether a JSON value has the form of an alternative.
pub open spec fn is_choice(json: Json) -> bool {
    json is Object && part_of(json, "delta"@) is Some && part_of(json, "message"@) is Some
}

/// The alternatives of a piece of an answer; nothing where a JSON value has another form.
pub open spec fn choices_of(json: Json) -> Option<Seq<Json>> {
    match outside::json_member(json, "choices"@) {
        Some(Json::Array(items)) => if forall|i: int|
            0 <= i < items.len() ==> is_choice(#[trigger] items[i]) {
            Some(items)
        } else {
            None
        },
        _ => None,
    }
}

/// What a piece of an answer says: what its first alternative adds, else what it says as a whole.
pub open spec fn said_by(choices: Seq<Json>) -> Option<Seq<char>> {
    if choices.len() == 0 {
        None
    } else {
        match part_of(choices[0], "delta"@) {
            Some(Some(said)) => Some(said),
            _ => match part_of(choices[0], "message"@) {
                Some(Some(said)) => Some(said),
                _ => None,
            },
        }
    }
}

/// The message of an error of the inference server.
pub open spec fn error_message(json: Json) -> Option<Seq<char>> {
    match outside::json_member(json, "error"@) {
        Some(e) => match outside::json_member(e, "message"@) {
            Some(Json::Text(message)) => Some(message),
            _ => None,
        },
        None => None,
    }
}

/// What an event with a JSON value says: a piece of an answer, an error of the server, or nothing.
pub open spec fn json_event(json: Json) -> Result<Option<Seq<char>>, AppErrorView> {
    match choices_of(json) {
        Some(choices) => Ok(said_by(choices)),
        None => match error_message(json) {
            Some(message) => Err(AppErrorView::ChatRequestFailed(message)),
            None => Ok(None),
        },
    }
}

/// What the data of an event say: that the answer is at its end, or what their JSON value says.
pub open spec fn data_event(data: Seq<char>) -> Result<Option<Seq<char>>, AppErrorView> {
    if data == "[DONE]"@ {
        Ok(Some("[DONE]"@))
    } else {
        match outside::json_document(data) {
            Some(json) => json_event(json),
            None => Ok(None),
        }
    }
}

/// What a line says: nothing where it is blank, a comment, or no data.
pub open spec fn line_event(line: Seq<char>) -> Result<Option<Seq<char>>, AppErrorView> {
    let inner = text::trimmed(line);
    if inner.len() == 0 || inner[0] == ':' {
        Ok(None)
    } else {
        match text::behind_prefix(inner, "data:"@) {
            Some(rest) => data_event(text::trimmed(rest)),
            None => Ok(None),
        }
    }
}

/// An event as a value.
pub open spec fn event_view(event: Result<Option<String>, AppError>) -> Result<
    Option<Seq<char>>,
    AppErrorView,
> {
    match event {
        Ok(said) => Ok(text::some_text(said)),
        Err(e) => Err(e@),
    }
}

impl ChunkContent {
    /// Reads a content.
    pub fn read(value: &serde_json::Value) -> (found: Option<ChunkContent>)
        ensures
            found is Some == content_of(outside::json_contents(*value)) is Some,
            found matches Some(c) ==> Some(text::some_text(c.content)) == content_of(
                outside::json_contents(*value),
            ),
    {
        if !json_is_object(value) {
            return None;
        }
        match json_get(value, "content") {
            None => Some(ChunkContent { content: None }),
            Some(member) => {
                if json_is_null(member) {
                    return Some(ChunkContent { content: None });
                }
                match json_as_str(member) {
                    Some(said) => Some(ChunkContent { content: Some(said.to_owned()) }),
                    None => None,
                }
            },
        }
    }

    /// Reads a content that may be absent from an object.
    fn read_member(value: &serde_json::Value, key: &str) -> (found: Option<Option<ChunkContent>>)
        ensures
            found is Some == part_of(outside::json_contents(*value), key@) is Some,
            found matches Some(part) ==> Some(part_text(part)) == part_of(
                outside::json_contents(*value),
                key@,
            ),
    {
        match json_get(value, key) {
            None => Some(None),
            Some(member) => {
                if json_is_null(member) {
                    return Some(None);
                }
                match ChunkContent::read(member) {
                    Some(content) => Some(Some(content)),
                    None => None,
                }
            },
        }
    }
}

/// The text of a content that may be absent.
pub open spec fn part_text(part: Option<ChunkContent>) -> Option<Seq<char>> {
    match part {
        Some(c) => text::some_text(c.content),
        None => None,
    }
}

impl ChunkChoice {
    /// Whether this is the alternative that a JSON value says.
    pub open spec fn stands_for(self, json: Json) -> bool {
        &&& is_choice(json)
        &&& part_of(json, "delta"@) == Some(part_text(self.delta))
        &&& part_of(json, "message"@) == Some(part_text(self.message))
    }

    /// Reads an alternative.
    pub fn read(value: &serde_json::Value) -> (found: Option<ChunkChoice>)
        ensures
            found is Some == is_choice(outside::json_contents(*value)),
            found matches Some(c) ==> c.stands_for(outside::json_contents(*value)),
    {
        if !json_is_object(value) {
            return None;
        }
        let delta: Option<ChunkContent> = match ChunkContent::read_member(value, "delta") {
            Some(part) => part,
            None => {
                return None;
            },
        };
        match ChunkContent::read_member(value, "message") {
            Some(message) => Some(ChunkChoice { delta, message }),
            None => None,
        }
    }

    /// What the alternative says: what it adds, else what it says as a whole.
    pub fn said(&self) -> (said: Option<String>)
        ensures
            text::some_text(said) == match part_text(self.delta) {
                Some(added) => Some(added),
                None => part_text(self.message),
            },
    {
        match &self.delta {
            Some(delta) => match copy_text(&delta.content) {
                Some(added) => {
                    return Some(added);
                },
                None => {},
            },
            None => {},
        }
        match &self.message {
            Some(message) => copy_text(&message.content),
            None => None,
        }
    }
}

impl ChatCompletionChunk {
    /// Reads a piece of an answer.
    pub fn read(value: &serde_json::Value) -> (found: Option<ChatCompletionChunk>)
        ensures
            found is Some == choices_of(outside::json_contents(*value)) is Some,
            found matches Some(chunk) ==> {
                let items = choices_of(outside::json_contents(*value))->0;
                &&& chunk.choices@.len() == items.len()
                &&& forall|i: int|
                    0 <= i < items.len() ==> (#[trigger] chunk.choices@[i]).stands_for(items[i])
            },
    {
        let list: &Vec<serde_json::Value> = match json_get(value, "choices") {
            Some(member) => match json_as_array(member) {
                Some(list) => list,
                None => {
                    return None;
                },
            },
            None => {
                return None;
            },
        };
        let ghost items = Seq::new(list@.len(), |i: int| outside::json_contents(list@[i]));
        let mut choices: Vec<ChunkChoice> = Vec::new();
        let mut i: usize = 0;
        while i < list.len()
            invariant
                i <= list@.len(),
                items == Seq::new(list@.len(), |i: int| outside::json_contents(list@[i])),
                outside::json_member(outside::json_contents(*value), "choices"@) == Some(
                    Json::Array(items),
                ),
                choices@.len() == i,
                forall|k: int| 0 <= k < i ==> (#[trigger] choices@[k]).stands_for(items[k]),
            decreases list@.len() - i,
        {
            match ChunkChoice::read(&list[i]) {
                Some(choice) => {
                    choices.push(choice);
                },
                None => {
                    proof {
                        assert(!is_choice(items[i as int]));
                    }
                    return None;
                },
            }
            i = i + 1;
        }
        proof {
            assert forall|k: int| 0 <= k < items.len() implies is_choice(#[trigger] items[k]) by {
                assert(choices@[k].stands_for(items[k]));
            }
        }
        Some(ChatCompletionChunk { choices })
    }
}

/// What an event with a JSON value says.
pub fn event_of_value(value: &serde_json::Value) -> (event: Result<Option<String>, AppError>)
    ensures
        event_view(event) == json_event(outside::json_contents(*value)),
{
    match ChatCompletionChunk::read(value) {
        Some(chunk) => {
            if chunk.choices.len() > 0 {
                proof {
                    assert(chunk.choices@[0].stands_for(
                        choices_of(outside::json_contents(*value))->0[0],
                    ));
                }
                Ok(chunk.choices[0].said())
            } else {
                Ok(None)
            }
        },
        None => match json_get(value, "error") {
            Some(e) => match json_get(e, "message") {
                Some(member) => match json_as_str(member) {
                    Some(message) => Err(AppError::ChatRequestFailed(message.to_owned())),
                    None => Ok(None),
                },
                None => Ok(None),
            },
            None => Ok(None),
        },
    }
}

/// What a line says.
pub fn parse_sse_line(line: &str) -> (event: Result<Option<String>, AppError>)
    ensures
        event_view(event) == line_event(line@),
{
    let inner: String = trim(line);
    if inner.as_str().is_empty() {
        return Ok(None);
    }
    if begins_with_char(inner.as_str(), ':') {
        return Ok(None);
    }
    match strip_prefix(inner.as_str(), "data:") {
        Some(rest) => {
            let data: String = trim(rest.as_str());
            if same_text(data.as_str(), "[DONE]") {
                return Ok(Some("[DONE]".to_owned()));
            }
            match json_parse(data.as_str()) {
                Some(value) => event_of_value(&value),
                None => Ok(None),
            }
        },
        None => Ok(None),
    }
}

} // verus!
