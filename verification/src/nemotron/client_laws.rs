//! How the inference server is waited for, by what it answers.

use vstd::prelude::*;
#[allow(unused_imports)]
use vstd::string::*;

#[allow(unused_imports)]
use crate::error::AppErrorView;
#[allow(unused_imports)]
use crate::nemotron::client;
#[allow(unused_imports)]
use crate::nemotron::client::{ReadyEvent, ReadyView, WordsView};
#[allow(unused_imports)]
use crate::outside;
#[allow(unused_imports)]
use crate::text;
#[allow(unused_imports)]
use crate::text_laws;

verus! {

/// Whether a word is one of those that blame the GPU or its driver.
pub open spec fn blaming(word: Seq<char>) -> bool {
    word == "cuda"@ || word == "nvidia"@ || word == "driver"@ || word == "incompatible"@
}

/// The GPU is blamed exactly where one of four words stands somewhere in the answer.
pub proof fn lemma_words_that_blame(front: Seq<char>, word: Seq<char>, back: Seq<char>)
    ensures
        blaming(word) ==> client::blames_gpu(front + word + back),
        client::blames_gpu(front) ==> exists|w: Seq<char>|
            blaming(w) && text::holds_text(front, w),
{
    text_laws::lemma_stands_between(front, word, back);
    if client::blames_gpu(front) {
        if text::holds_text(front, "cuda"@) {
            assert(blaming("cuda"@));
        } else if text::holds_text(front, "nvidia"@) {
            assert(blaming("nvidia"@));
        } else if text::holds_text(front, "driver"@) {
            assert(blaming("driver"@));
        } else {
            assert(blaming("incompatible"@) && text::holds_text(front, "incompatible"@));
        }
    }
}

/// The model can be asked exactly when the server answers with a status from 200 to 299. The wait
/// ends with an error where the key is wrong, where the request is, and where the server fails and
/// blames the GPU; in every other case, and where the server does not answer, it is looked at again.
pub proof fn lemma_readiness_goes_by_the_status(
    event: ReadyEvent,
    lower: Seq<char>,
    words: WordsView,
)
    ensures
        match event {
            ReadyEvent::Unreachable => client::readiness(event, lower, words) == ReadyView::Again(
                words.unreachable,
            ),
            ReadyEvent::Answer { code, body } => {
                let step = client::readiness(event, lower, words);
                &&& 200 <= code <= 299 <==> step is Ready
                &&& code == 401 ==> step == ReadyView::Fail(
                    AppErrorView::NemotronAuthenticationFailed,
                )
                &&& code == 503 ==> step == ReadyView::Again(words.loading)
                &&& 400 <= code <= 499 && code != 401 ==> step == ReadyView::Fail(
                    AppErrorView::ChatRequestFailed(
                        "Configuration or authentication error (HTTP "@ + outside::status_text(code)
                            + ")"@,
                    ),
                )
                &&& 500 <= code <= 599 && code != 503 && client::blames_gpu(lower) ==> step
                    == ReadyView::Fail(
                    AppErrorView::GuestRuntimeIncompatible { gpu_type: ""@, reason: body@ },
                )
                &&& 500 <= code <= 599 && code != 503 && !client::blames_gpu(lower) ==> step
                    == ReadyView::Again(
                    words.failing + outside::status_text(code) + words.body + body@
                        + words.behind_body,
                )
                &&& (code < 200 || 300 <= code <= 399 || code > 599) ==> step == ReadyView::Again(
                    words.failing + outside::status_text(code) + words.behind_status,
                )
            },
        },
{
}

/// It is the answer in lower case that is looked through.
pub proof fn lemma_bodies_are_read_in_lower_case(event: ReadyEvent)
    ensures
        event matches ReadyEvent::Answer { body, .. } ==> client::lower_body(event)
            == outside::lowercase(body@),
        event is Unreachable ==> client::lower_body(event).len() == 0,
{
}

/// The time that has gone by is told in minutes and seconds, and in seconds alone below a minute.
pub proof fn lemma_elapsed(minutes: u64, seconds: u64)
    requires
        seconds < 60,
        minutes <= 300_000_000_000_000_000,
    ensures
        client::elapsed_words(seconds) == text::decimal(seconds as nat) + "s"@,
        minutes > 0 ==> client::elapsed_words((60 * minutes + seconds) as u64) == text::decimal(
            minutes as nat,
        ) + "m "@ + text::decimal(seconds as nat) + "s"@,
{
    let all = (60 * minutes + seconds) as u64;
    assert(all / 60 == minutes && all % 60 == seconds) by (nonlinear_arith)
        requires
            all == 60 * minutes + seconds,
            seconds < 60,
    ;
}

/// What is said with a spinner ends with the time that has gone by.
pub proof fn lemma_spinner_tells_the_time(seconds: u64)
    ensures
        ({
            let words = client::for_spinner(seconds);
            let time = client::elapsed_words(seconds);
            &&& words.loading
                == "Nemotron endpoint reachable; model is still loading\nLast response: HTTP 503\nElapsed: "@
                + time
            &&& words.failing == "Nemotron loading status check failed (HTTP "@
            &&& words.body == ")\nBody: "@
            &&& words.behind_body == "\nElapsed: "@ + time
            &&& words.behind_status == ")\nElapsed: "@ + time
            &&& words.unreachable
                == "Waiting for Nemotron service to start (connection refused)\nElapsed: "@ + time
        }),
{
}

/// What is said with a report of progress.
pub proof fn lemma_progress_words()
    ensures
        ({
            let words = client::for_progress();
            &&& words.loading == "Nemotron endpoint reachable; model is still loading (HTTP 503)"@
            &&& words.failing == "Nemotron status check returning HTTP "@
            &&& words.body == " (Body: "@
            &&& words.behind_body == ")"@
            &&& words.behind_status == ""@
            &&& words.unreachable
                == "Waiting for Nemotron service to start (connection refused)"@
        }),
{
}

/// A server answers under its address and its port, and different servers under different ones.
pub proof fn lemma_endpoints(ip: Seq<char>, other_ip: Seq<char>, port: u16)
    ensures
        client::endpoint_of(ip, port) == "http://"@ + ip + ":"@ + text::decimal(port as nat)
            + "/v1"@,
        client::endpoint_of(ip, port) == client::endpoint_of(other_ip, port) ==> ip == other_ip,
{
    if client::endpoint_of(ip, port) == client::endpoint_of(other_ip, port) {
        let head = "http://"@;
        let tail = ":"@ + text::decimal(port as nat) + "/v1"@;
        assert(client::endpoint_of(ip, port) =~= head + ip + tail);
        assert(client::endpoint_of(other_ip, port) =~= head + other_ip + tail);
        assert(ip =~= (head + ip + tail).subrange(
            head.len() as int,
            (head.len() + ip.len()) as int,
        ));
        assert(other_ip =~= (head + other_ip + tail).subrange(
            head.len() as int,
            (head.len() + other_ip.len()) as int,
        ));
    }
}

} // verus!
