//! An answer as it comes in: what is said so far, and what it comes to.

use vstd::prelude::*;
#[allow(unused_imports)]
use vstd::string::*;

use crate::error::AppError;
#[allow(unused_imports)]
use crate::error::AppErrorView;
use crate::nemotron::stream::{parse_sse_line, SseParser};
#[allow(unused_imports)]
use crate::nemotron::stream;
use crate::text::same_text;
#[allow(unused_imports)]
use crate::text;

verus! {

// ---------------------------------------------------------------- what lines say

/// What some lines say, up to the end of the answer or to the first error.
#[verifier::ext_equal]
pub struct LinesView {
    /// The pieces of the answer.
    pub tokens: Seq<Seq<char>>,
    /// Whether the answer is at its end.
    pub done: bool,
    /// What went wrong.
    pub failure: Option<AppErrorView>,
}

/// What some lines say, up to the end of the answer or to the first error.
pub open spec fn read_lines(lines: Seq<Seq<char>>) -> LinesView
    decreases lines.len(),
{
    if lines.len() == 0 {
        LinesView { tokens: Seq::empty(), done: false, failure: None }
    } else {
        let before = read_lines(lines.drop_last());
        if before.done || before.failure is Some {
            before
        } else {
            match stream::line_event(lines.last()) {
                Err(e) => LinesView { failure: Some(e), ..before },
                Ok(None) => before,
                Ok(Some(said)) => if said == "[DONE]"@ {
                    LinesView { done: true, ..before }
                } else {
                    LinesView { tokens: before.tokens.push(said), ..before }
                },
            }
        }
    }
}

/// Texts one behind the other.
pub open spec fn together(tokens: Seq<Seq<char>>) -> Seq<char>
    decreases tokens.len(),
{
    if tokens.len() == 0 {
        Seq::empty()
    } else {
        together(tokens.drop_last()) + tokens.last()
    }
}

// ---------------------------------------------------------------- the answer

/// An answer as it comes in.
pub struct ChatStream {
    parser: SseParser,
    accumulated: String,
    received_any: bool,
    done: bool,
}

/// An answer as it comes in, as a value.
#[verifier::ext_equal]
pub struct StreamView {
    /// The bytes of the line that has not ended yet.
    pub held: Seq<u8>,
    /// What is said so far.
    pub accumulated: Seq<char>,
    /// Whether anything is said.
    pub received_any: bool,
    /// Whether the answer is at its end.
    pub done: bool,
}

impl StreamView {
    /// An answer of which nothing has come in.
    pub open spec fn begun() -> StreamView {
        StreamView {
            held: Seq::empty(),
            accumulated: Seq::empty(),
            received_any: false,
            done: false,
        }
    }

    /// What a piece of input says.
    pub open spec fn heard(self, chunk: Seq<u8>) -> LinesView {
        if self.done {
            LinesView { tokens: Seq::empty(), done: true, failure: None }
        } else {
            read_lines(stream::whole_lines(self.held + chunk))
        }
    }

    /// The answer after a piece of input.
    pub open spec fn after(self, chunk: Seq<u8>) -> StreamView {
        if self.done {
            self
        } else {
            let heard = self.heard(chunk);
            StreamView {
                held: stream::unfinished(self.held + chunk),
                accumulated: self.accumulated + together(heard.tokens),
                received_any: self.received_any || heard.tokens.len() > 0,
                done: heard.done,
            }
        }
    }

    /// What the line that has not ended says when the input is at its end.
    pub open spec fn last_event(self) -> Result<Option<Seq<char>>, AppErrorView> {
        if self.done || self.held.len() == 0 {
            Ok(None)
        } else {
            match stream::line_text(self.held) {
                Some(line) => match stream::line_event(line) {
                    Ok(Some(said)) => if said == "[DONE]"@ {
                        Ok(None)
                    } else {
                        Ok(Some(said))
                    },
                    other => other,
                },
                None => Ok(None),
            }
        }
    }

    /// What the answer comes to when the input is at its end.
    pub open spec fn result(self) -> Result<Seq<char>, AppErrorView> {
        match self.last_event() {
            Err(e) => Err(e),
            Ok(Some(said)) => Ok(self.accumulated + said),
            Ok(None) => if self.received_any {
                Ok(self.accumulated)
            } else {
                Err(AppErrorView::ChatRequestFailed("No content received from stream"@))
            },
        }
    }
}

/// What a piece of input says.
#[derive(Debug)]
pub struct Heard {
    /// The pieces of the answer, to be shown.
    pub tokens: Vec<String>,
    /// What went wrong.
    pub failure: Option<AppError>,
}

/// What the end of the input says.
#[derive(Debug)]
pub struct Ending {
    /// The last piece of the answer, to be shown.
    pub token: Option<String>,
    /// What the answer comes to.
    pub result: Result<String, AppError>,
}

/// An error that may be absent, as a value.
pub open spec fn failure_view(failure: Option<AppError>) -> Option<AppErrorView> {
    match failure {
        Some(e) => Some(e@),
        None => None,
    }
}

/// What an answer comes to, as a value.
pub open spec fn answer_view(result: Result<String, AppError>) -> Result<Seq<char>, AppErrorView> {
    match result {
        Ok(said) => Ok(said@),
        Err(e) => Err(e@),
    }
}

impl ChatStream {
    /// The answer as a value.
    pub closed spec fn view(self) -> StreamView {
        StreamView {
            held: self.parser.held(),
            accumulated: self.accumulated@,
            received_any: self.received_any,
            done: self.done,
        }
    }

    /// An answer of which nothing has come in.
    pub fn new() -> (answer: ChatStream)
        ensures
            answer@ == StreamView::begun(),
    {
        let answer: ChatStream = ChatStream {
            parser: SseParser::new(),
            accumulated: String::new(),
            received_any: false,
            done: false,
        };
        proof {
            assert(answer@ =~= StreamView::begun());
        }
        answer
    }

    /// Whether the answer is at its end, so that no more input is needed.
    pub fn is_done(&self) -> (done: bool)
        ensures
            done == self@.done,
    {
        self.done
    }

    /// Takes a piece of input, and gives what it says.
    pub fn feed(&mut self, chunk: &[u8]) -> (heard: Heard)
        ensures
            final(self)@ == old(self)@.after(chunk@),
            text::texts(heard.tokens@) == old(self)@.heard(chunk@).tokens,
            failure_view(heard.failure) == old(self)@.heard(chunk@).failure,
    {
        let mut tokens: Vec<String> = Vec::new();
        if self.done {
            proof {
                assert(text::texts(tokens@) =~= Seq::<Seq<char>>::empty());
            }
            return Heard { tokens, failure: None };
        }
        let ghost before = self@;
        let lines: Vec<String> = self.parser.feed(chunk);
        let ghost all = text::texts(lines@);
        let mut i: usize = 0;
        proof {
            assert(all.take(0) =~= Seq::<Seq<char>>::empty());
            assert(text::texts(tokens@) =~= Seq::<Seq<char>>::empty());
            assert(before.accumulated + together(Seq::<Seq<char>>::empty())
                =~= before.accumulated);
        }
        while i < lines.len()
            invariant
                i <= lines@.len(),
                all == text::texts(lines@),
                all == stream::whole_lines(before.held + chunk@),
                before == old(self)@,
                !before.done,
                self.parser.held() == stream::unfinished(before.held + chunk@),
                text::texts(tokens@) == read_lines(all.take(i as int)).tokens,
                !read_lines(all.take(i as int)).done,
                read_lines(all.take(i as int)).failure is None,
                self.accumulated@ == before.accumulated + together(text::texts(tokens@)),
                self.received_any == (before.received_any || tokens@.len() > 0),
                !self.done,
            decreases lines@.len() - i,
        {
            proof {
                assert(all.take(i + 1).drop_last() =~= all.take(i as int));
                assert(all.take(i + 1).last() == lines@[i as int]@);
                assert(text::texts(tokens@).len() == tokens@.len());
            }
            match parse_sse_line(lines[i].as_str()) {
                Err(e) => {
                    proof {
                        lemma_stopped(all, i + 1);
                        assert(self@ =~= before.after(chunk@));
                    }
                    return Heard { tokens, failure: Some(e) };
                },
                Ok(said) => match said {
                    Some(token) => {
                        if same_text(token.as_str(), "[DONE]") {
                            self.done = true;
                            proof {
                                lemma_stopped(all, i + 1);
                                assert(self@ =~= before.after(chunk@));
                            }
                            return Heard { tokens, failure: None };
                        }
                        let ghost shown = text::texts(tokens@);
                        self.accumulated.append(token.as_str());
                        self.received_any = true;
                        tokens.push(token);
                        proof {
                            assert(text::texts(tokens@) =~= shown.push(token@));
                            assert(text::texts(tokens@).drop_last() =~= shown);
                            assert(before.accumulated + together(shown) + token@
                                =~= before.accumulated + together(text::texts(tokens@)));
                        }
                    },
                    None => {},
                },
            }
            i = i + 1;
        }
        proof {
            assert(all.take(i as int) =~= all);
            assert(text::texts(tokens@).len() == tokens@.len());
            assert(self@ =~= before.after(chunk@));
        }
        Heard { tokens, failure: None }
    }

    /// Gives what the end of the input says, and what the answer comes to.
    pub fn finish(self) -> (ending: Ending)
        ensures
            answer_view(ending.result) == self@.result(),
            text::some_text(ending.token) == match self@.last_event() {
                Ok(said) => said,
                Err(_) => None,
            },
    {
        let mut accumulated: String = self.accumulated;
        let mut received_any: bool = self.received_any;
        let mut token: Option<String> = None;
        if !self.done {
            match self.parser.finish() {
                Some(line) => match parse_sse_line(line.as_str()) {
                    Err(e) => {
                        return Ending { token: None, result: Err(e) };
                    },
                    Ok(said) => match said {
                        Some(last) => {
                            if !same_text(last.as_str(), "[DONE]") {
                                accumulated.append(last.as_str());
                                received_any = true;
                                token = Some(last);
                            }
                        },
                        None => {},
                    },
                },
                None => {},
            }
        }
        if !received_any {
            return Ending {
                token,
                result: Err(
                    AppError::ChatRequestFailed("No content received from stream".to_owned()),
                ),
            };
        }
        Ending { token, result: Ok(accumulated) }
    }
}

// ---------------------------------------------------------------- laws

/// Lines behind the end of the answer, or behind an error, say nothing.
pub proof fn lemma_stopped(lines: Seq<Seq<char>>, upto: int)
    requires
        0 <= upto <= lines.len(),
        read_lines(lines.take(upto)).done || read_lines(lines.take(upto)).failure is Some,
    ensures
        read_lines(lines) == read_lines(lines.take(upto)),
    decreases lines.len(),
{
    if upto == lines.len() {
        assert(lines.take(upto) =~= lines);
    } else {
        assert(lines.drop_last().take(upto) =~= lines.take(upto));
        lemma_stopped(lines.drop_last(), upto);
    }
}

/// What some lines say is what the first of them say, followed by what the others say, as long as
/// the first bring neither the end nor an error.
pub proof fn lemma_lines_in_turn(front: Seq<Seq<char>>, back: Seq<Seq<char>>)
    requires
        !read_lines(front).done,
        read_lines(front).failure is None,
    ensures
        read_lines(front + back) == (LinesView {
            tokens: read_lines(front).tokens + read_lines(back).tokens,
            ..read_lines(back)
        }),
    decreases back.len(),
{
    if back.len() == 0 {
        assert(front + back =~= front);
        assert(read_lines(front).tokens + read_lines(back).tokens =~= read_lines(front).tokens);
    } else {
        lemma_lines_in_turn(front, back.drop_last());
        assert((front + back).drop_last() =~= front + back.drop_last());
        assert((front + back).last() == back.last());
        assert(read_lines(front + back) =~= (LinesView {
            tokens: read_lines(front).tokens + read_lines(back).tokens,
            ..read_lines(back)
        }));
    }
}

proof fn lemma_together(front: Seq<Seq<char>>, back: Seq<Seq<char>>)
    ensures
        together(front + back) == together(front) + together(back),
    decreases back.len(),
{
    if back.len() == 0 {
        assert(front + back =~= front);
        assert(together(front) + together(back) =~= together(front));
    } else {
        lemma_together(front, back.drop_last());
        assert((front + back).drop_last() =~= front + back.drop_last());
        assert((front + back).last() == back.last());
        assert(together(front + back) =~= together(front) + together(back));
    }
}

/// It makes no difference where the input of an answer is cut, as long as the first piece brings no
/// error: what is said so far is the same, and so is whether the answer is at its end.
pub proof fn lemma_cut_anywhere(answer: StreamView, front: Seq<u8>, back: Seq<u8>)
    requires
        answer.heard(front).failure is None,
    ensures
        ({
            let twice = answer.after(front).after(back);
            let once = answer.after(front + back);
            &&& twice.accumulated == once.accumulated
            &&& twice.received_any == once.received_any
            &&& twice.done == once.done
            &&& !once.done ==> twice == once
            &&& answer.after(front).heard(back).failure == answer.heard(front + back).failure
        }),
{
    if !answer.done {
        let all = answer.held + front;
        stream::lemma_cut_anywhere(all, back);
        assert(answer.held + (front + back) =~= all + back);
        let first = stream::whole_lines(all);
        let second = stream::whole_lines(stream::unfinished(all) + back);
        if read_lines(first).done {
            assert((first + second).take(first.len() as int) =~= first);
            lemma_stopped(first + second, first.len() as int);
        } else {
            lemma_lines_in_turn(first, second);
            lemma_together(read_lines(first).tokens, read_lines(second).tokens);
            assert(answer.accumulated + together(read_lines(first).tokens) + together(
                read_lines(second).tokens,
            ) =~= answer.accumulated + together(read_lines(first + second).tokens));
            let twice = answer.after(front).after(back);
            let once = answer.after(front + back);
            assert(twice =~= once);
        }
    }
}

/// Pieces of input one behind the other.
pub open spec fn whole_input(pieces: Seq<Seq<u8>>) -> Seq<u8>
    decreases pieces.len(),
{
    if pieces.len() == 0 {
        Seq::empty()
    } else {
        whole_input(pieces.drop_last()) + pieces.last()
    }
}

/// An answer of which some pieces have come in.
pub open spec fn after_pieces(pieces: Seq<Seq<u8>>) -> StreamView
    decreases pieces.len(),
{
    if pieces.len() == 0 {
        StreamView::begun()
    } else {
        after_pieces(pieces.drop_last()).after(pieces.last())
    }
}

/// What is shown of an answer while some pieces come in, in order.
pub open spec fn shown(pieces: Seq<Seq<u8>>) -> Seq<Seq<char>>
    decreases pieces.len(),
{
    if pieces.len() == 0 {
        Seq::empty()
    } else {
        shown(pieces.drop_last()) + after_pieces(pieces.drop_last()).heard(pieces.last()).tokens
    }
}

/// What went wrong while some pieces came in: the first error, behind which no more are taken.
pub open spec fn failure(pieces: Seq<Seq<u8>>) -> Option<AppErrorView>
    decreases pieces.len(),
{
    if pieces.len() == 0 {
        None
    } else if failure(pieces.drop_last()) is Some {
        failure(pieces.drop_last())
    } else {
        after_pieces(pieces.drop_last()).heard(pieces.last()).failure
    }
}

/// What the line that has not ended says at the end of an input; nothing behind the end of the
/// answer.
pub open spec fn last_line_event(input: Seq<u8>) -> Result<Option<Seq<char>>, AppErrorView> {
    let rest = stream::unfinished(input);
    if read_lines(stream::whole_lines(input)).done || rest.len() == 0 {
        Ok(None)
    } else {
        match stream::line_text(rest) {
            Some(line) => match stream::line_event(line) {
                Ok(Some(said)) => if said == "[DONE]"@ {
                    Ok(None)
                } else {
                    Ok(Some(said))
                },
                other => other,
            },
            None => Ok(None),
        }
    }
}

/// The pieces of the answer that a whole input holds: what its lines say up to the end of the
/// answer, and what the line that has not ended says.
pub open spec fn said_in(input: Seq<u8>) -> Seq<Seq<char>> {
    read_lines(stream::whole_lines(input)).tokens + match last_line_event(input) {
        Ok(Some(said)) => seq![said],
        _ => Seq::empty(),
    }
}

/// What a whole input comes to: the first error in it, else the pieces of the answer one behind the
/// other, else that there is none.
pub open spec fn answer_in(input: Seq<u8>) -> Result<Seq<char>, AppErrorView> {
    let lines = read_lines(stream::whole_lines(input));
    if lines.failure is Some {
        Err(lines.failure->0)
    } else {
        match last_line_event(input) {
            Err(e) => Err(e),
            Ok(_) => if said_in(input).len() > 0 {
                Ok(together(said_in(input)))
            } else {
                Err(AppErrorView::ChatRequestFailed("No content received from stream"@))
            },
        }
    }
}

/// However an input is cut into pieces, what is shown of the answer is what the lines of the whole
/// input say, and the first error in it is the one that comes.
pub proof fn lemma_any_pieces(pieces: Seq<Seq<u8>>)
    ensures
        ({
            let answer = after_pieces(pieces);
            let input = whole_input(pieces);
            let lines = read_lines(stream::whole_lines(input));
            &&& failure(pieces) == lines.failure
            &&& failure(pieces) is None ==> {
                &&& shown(pieces) == lines.tokens
                &&& answer.accumulated == together(lines.tokens)
                &&& answer.received_any == (lines.tokens.len() > 0)
                &&& answer.done == lines.done
                &&& !answer.done ==> answer.held == stream::unfinished(input)
            }
        }),
    decreases pieces.len(),
{
    if pieces.len() > 0 {
        let front = pieces.drop_last();
        let piece = pieces.last();
        let before = after_pieces(front);
        let input = whole_input(front);
        lemma_any_pieces(front);
        stream::lemma_cut_anywhere(input, piece);
        let first = stream::whole_lines(input);
        let second = stream::whole_lines(stream::unfinished(input) + piece);
        if read_lines(first).done || read_lines(first).failure is Some {
            assert((first + second).take(first.len() as int) =~= first);
            lemma_stopped(first + second, first.len() as int);
            if failure(front) is None {
                assert(shown(pieces) =~= shown(front));
            }
        } else {
            lemma_lines_in_turn(first, second);
            lemma_together(read_lines(first).tokens, read_lines(second).tokens);
        }
    }
}

/// What an answer comes to is what the whole input comes to, however it is cut into pieces: the
/// contents of the data lines before the end of the answer one behind the other, a last line that
/// has not ended among them, or an error where there are none.
pub proof fn lemma_answer_to_the_whole(pieces: Seq<Seq<u8>>)
    ensures
        failure(pieces) is Some ==> answer_in(whole_input(pieces)) == Err::<
            Seq<char>,
            AppErrorView,
        >(failure(pieces)->0),
        failure(pieces) is None ==> {
            let answer = after_pieces(pieces);
            &&& answer.result() == answer_in(whole_input(pieces))
            &&& answer.last_event() == last_line_event(whole_input(pieces))
            &&& shown(pieces) + match answer.last_event() {
                Ok(Some(said)) => seq![said],
                _ => Seq::empty(),
            } == said_in(whole_input(pieces))
        },
{
    lemma_any_pieces(pieces);
    let input = whole_input(pieces);
    let tokens = read_lines(stream::whole_lines(input)).tokens;
    match last_line_event(input) {
        Ok(Some(said)) => {
            assert(tokens.push(said).drop_last() =~= tokens);
            assert(said_in(input) =~= tokens.push(said));
        },
        _ => {
            assert(said_in(input) =~= tokens);
        },
    }
}

} // verus!
