//! The client of the inference server.

use vstd::prelude::*;
#[allow(unused_imports)]
use vstd::string::*;

use crate::config::{Config, SecretText};
use crate::error::AppError;
#[allow(unused_imports)]
use crate::error::AppErrorView;
use crate::nemotron::chat::ChatSession;
#[allow(unused_imports)]
use crate::nemotron::chat;
use crate::nemotron::models::ChatCompletionRequest;
use crate::outside::{lowercase_text, status_display};
#[allow(unused_imports)]
use crate::outside;
#[allow(unused_imports)]
use crate::scaleway::client;
use crate::scaleway::polling::timed_out;
#[allow(unused_imports)]
use crate::scaleway::polling;
use crate::text::{contains, decimal_text};
#[allow(unused_imports)]
use crate::text;

verus! {

/// The client of the inference server.
pub struct NemotronClient {
    /// The address of the server.
    pub ip_address: String,
    /// The port of the server.
    pub port: u16,
    /// The key of the server.
    pub api_key: SecretText,
    /// The name of the model.
    pub model: String,
    /// How long an answer may take, in seconds.
    pub inference_timeout_secs: u64,
}

/// Where a server answers.
pub open spec fn endpoint_of(ip_address: Seq<char>, port: u16) -> Seq<char> {
    "http://"@ + ip_address + ":"@ + text::decimal(port as nat) + "/v1"@
}

impl NemotronClient {
    /// A client of the server at an address.
    pub fn new(
        ip_address: String,
        port: u16,
        api_key: SecretText,
        model: String,
        inference_timeout_secs: u64,
    ) -> (client: NemotronClient)
        ensures
            client == (NemotronClient { ip_address, port, api_key, model, inference_timeout_secs }),
    {
        NemotronClient { ip_address, port, api_key, model, inference_timeout_secs }
    }

    /// Where the server answers.
    pub fn endpoint(&self) -> (url: String)
        ensures
            url@ == endpoint_of(self.ip_address@, self.port),
    {
        "http://".to_owned()
            .concat(self.ip_address.as_str())
            .concat(":")
            .concat(decimal_text(self.port as u64).as_str())
            .concat("/v1")
    }

    /// Where the server lists its models.
    pub fn models_url(&self) -> (url: String)
        ensures
            url@ == endpoint_of(self.ip_address@, self.port) + "/models"@,
    {
        self.endpoint().concat("/models")
    }

    /// Where the server answers requests.
    pub fn completions_url(&self) -> (url: String)
        ensures
            url@ == endpoint_of(self.ip_address@, self.port) + "/chat/completions"@,
    {
        self.endpoint().concat("/chat/completions")
    }

    /// The key of the server.
    pub fn api_key(&self) -> (key: &SecretText)
        ensures
            *key == self.api_key,
    {
        &self.api_key
    }

    /// What a request authenticates itself with.
    pub fn authorization(&self) -> (header: String)
        ensures
            header@ == "Bearer "@ + self.api_key.hidden_text(),
    {
        "Bearer ".to_owned().concat(self.api_key.expose_secret())
    }
}

// ---------------------------------------------------------------- waiting for the server

/// What a look at the list of models shows.
#[derive(Debug)]
pub enum ReadyEvent {
    /// The server answers.
    Answer {
        /// The HTTP status.
        code: u16,
        /// The body, where it was read.
        body: String,
    },
    /// The server does not answer.
    Unreachable,
}

/// What is done about it.
#[derive(Debug)]
pub enum ReadyStep {
    /// The model can be asked.
    Ready,
    /// It will not be.
    Fail(AppError),
    /// The server is looked at again, and this is said meanwhile.
    Again(String),
}

/// What is done about it, as a value.
pub enum ReadyView {
    /// The model can be asked.
    Ready,
    /// It will not be.
    Fail(AppErrorView),
    /// The server is looked at again, and this is said meanwhile.
    Again(Seq<char>),
}

impl View for ReadyStep {
    type V = ReadyView;

    open spec fn view(&self) -> ReadyView {
        match *self {
            ReadyStep::Ready => ReadyView::Ready,
            ReadyStep::Fail(e) => ReadyView::Fail(e@),
            ReadyStep::Again(said) => ReadyView::Again(said@),
        }
    }
}

/// Whether the body of an answer, in lower case, blames the GPU or its driver.
pub open spec fn blames_gpu(lower: Seq<char>) -> bool {
    ||| text::holds_text(lower, "cuda"@)
    ||| text::holds_text(lower, "nvidia"@)
    ||| text::holds_text(lower, "driver"@)
    ||| text::holds_text(lower, "incompatible"@)
}

/// Whether the body of an answer, in lower case, blames the GPU or its driver.
pub fn body_blames_gpu(lower: &str) -> (yes: bool)
    ensures
        yes == blames_gpu(lower@),
{
    contains(lower, "cuda") || contains(lower, "nvidia") || contains(lower, "driver") || contains(
        lower,
        "incompatible",
    )
}

/// What is said while the server is waited for.
pub struct WaitingWords {
    /// When the model is being loaded.
    pub loading: String,
    /// When the server fails, before its status.
    pub failing: String,
    /// Between the status and the body of the answer.
    pub body: String,
    /// Behind the body of the answer.
    pub behind_body: String,
    /// Behind the status, where the body is not shown.
    pub behind_status: String,
    /// When the server does not answer.
    pub unreachable: String,
}

/// What is said while the server is waited for, as a value.
pub struct WordsView {
    /// When the model is being loaded.
    pub loading: Seq<char>,
    /// When the server fails, before its status.
    pub failing: Seq<char>,
    /// Between the status and the body of the answer.
    pub body: Seq<char>,
    /// Behind the body of the answer.
    pub behind_body: Seq<char>,
    /// Behind the status, where the body is not shown.
    pub behind_status: Seq<char>,
    /// When the server does not answer.
    pub unreachable: Seq<char>,
}

impl View for WaitingWords {
    type V = WordsView;

    open spec fn view(&self) -> WordsView {
        WordsView {
            loading: self.loading@,
            failing: self.failing@,
            body: self.body@,
            behind_body: self.behind_body@,
            behind_status: self.behind_status@,
            unreachable: self.unreachable@,
        }
    }
}

/// What a look at the list of models comes to, with the body of the answer in lower case: the model
/// is ready; the key is wrong; the model is being loaded; the request is wrong; the GPU is blamed;
/// or nothing is known yet.
pub open spec fn readiness(event: ReadyEvent, lower: Seq<char>, words: WordsView) -> ReadyView {
    match event {
        ReadyEvent::Answer { code, body } => if client::is_success(code) {
            ReadyView::Ready
        } else if code == 401 {
            ReadyView::Fail(AppErrorView::NemotronAuthenticationFailed)
        } else if code == 503 {
            ReadyView::Again(words.loading)
        } else if 400 <= code < 500 {
            ReadyView::Fail(
                AppErrorView::ChatRequestFailed(
                    "Configuration or authentication error (HTTP "@ + outside::status_text(code)
                        + ")"@,
                ),
            )
        } else if 500 <= code < 600 {
            if blames_gpu(lower) {
                ReadyView::Fail(
                    AppErrorView::GuestRuntimeIncompatible { gpu_type: ""@, reason: body@ },
                )
            } else {
                ReadyView::Again(
                    words.failing + outside::status_text(code) + words.body + body@
                        + words.behind_body,
                )
            }
        } else {
            ReadyView::Again(
                words.failing + outside::status_text(code) + words.behind_status,
            )
        },
        ReadyEvent::Unreachable => ReadyView::Again(words.unreachable),
    }
}

/// Whether an event is one that can occur: an HTTP status has three digits.
pub open spec fn possible(event: ReadyEvent) -> bool {
    event matches ReadyEvent::Answer { code, .. } ==> 100 <= code <= 999
}

/// The body of the answer in lower case.
pub open spec fn lower_body(event: ReadyEvent) -> Seq<char> {
    match event {
        ReadyEvent::Answer { body, .. } => outside::lowercase(body@),
        ReadyEvent::Unreachable => Seq::empty(),
    }
}

/// What a look at the list of models comes to, given the body of the answer in lower case.
pub fn judge_readiness(event: ReadyEvent, lower: &str, words: &WaitingWords) -> (step: ReadyStep)
    requires
        possible(event),
    ensures
        step@ == readiness(event, lower@, words@),
{
    match event {
        ReadyEvent::Answer { code, body } => {
            if 200 <= code && code < 300 {
                ReadyStep::Ready
            } else if code == 401 {
                ReadyStep::Fail(AppError::NemotronAuthenticationFailed)
            } else if code == 503 {
                ReadyStep::Again(words.loading.clone())
            } else if 400 <= code && code < 500 {
                ReadyStep::Fail(
                    AppError::ChatRequestFailed(
                        "Configuration or authentication error (HTTP ".to_owned()
                            .concat(status_display(code).as_str())
                            .concat(")"),
                    ),
                )
            } else if 500 <= code && code < 600 {
                if body_blames_gpu(lower) {
                    ReadyStep::Fail(
                        AppError::GuestRuntimeIncompatible {
                            gpu_type: "".to_owned(),
                            reason: body,
                        },
                    )
                } else {
                    ReadyStep::Again(
                        words.failing.clone()
                            .concat(status_display(code).as_str())
                            .concat(words.body.as_str())
                            .concat(body.as_str())
                            .concat(words.behind_body.as_str()),
                    )
                }
            } else {
                ReadyStep::Again(
                    words.failing.clone()
                        .concat(status_display(code).as_str())
                        .concat(words.behind_status.as_str()),
                )
            }
        },
        ReadyEvent::Unreachable => ReadyStep::Again(words.unreachable.clone()),
    }
}

/// The time that has gone by, for the user: minutes and seconds.
pub open spec fn elapsed_words(seconds: u64) -> Seq<char> {
    if seconds / 60 > 0 {
        text::decimal((seconds / 60) as nat) + "m "@ + text::decimal((seconds % 60) as nat) + "s"@
    } else {
        text::decimal((seconds % 60) as nat) + "s"@
    }
}

fn elapsed_text(seconds: u64) -> (words: String)
    ensures
        words@ == elapsed_words(seconds),
{
    if seconds / 60 > 0 {
        decimal_text(seconds / 60).concat("m ").concat(decimal_text(seconds % 60).as_str()).concat(
            "s",
        )
    } else {
        decimal_text(seconds % 60).concat("s")
    }
}

/// The words that go with a spinner, at a time.
pub open spec fn for_spinner(seconds: u64) -> WordsView {
    let time = elapsed_words(seconds);
    WordsView {
        loading:
            "Nemotron endpoint reachable; model is still loading\nLast response: HTTP 503\nElapsed: "@
            + time,
        failing: "Nemotron loading status check failed (HTTP "@,
        body: ")\nBody: "@,
        behind_body: "\nElapsed: "@ + time,
        behind_status: ")\nElapsed: "@ + time,
        unreachable: "Waiting for Nemotron service to start (connection refused)\nElapsed: "@ + time,
    }
}

/// The words that go with a report of progress.
pub open spec fn for_progress() -> WordsView {
    WordsView {
        loading: "Nemotron endpoint reachable; model is still loading (HTTP 503)"@,
        failing: "Nemotron status check returning HTTP "@,
        body: " (Body: "@,
        behind_body: ")"@,
        behind_status: ""@,
        unreachable: "Waiting for Nemotron service to start (connection refused)"@,
    }
}

/// The words that go with a spinner, at a time.
pub fn spinner_words(seconds: u64) -> (words: WaitingWords)
    ensures
        words@ == for_spinner(seconds),
{
    let time: String = elapsed_text(seconds);
    WaitingWords {
        loading: "Nemotron endpoint reachable; model is still loading\nLast response: HTTP 503\nElapsed: ".to_owned()
            .concat(time.as_str()),
        failing: "Nemotron loading status check failed (HTTP ".to_owned(),
        body: ")\nBody: ".to_owned(),
        behind_body: "\nElapsed: ".to_owned().concat(time.as_str()),
        behind_status: ")\nElapsed: ".to_owned().concat(time.as_str()),
        unreachable: "Waiting for Nemotron service to start (connection refused)\nElapsed: ".to_owned()
            .concat(time.as_str()),
    }
}

/// The words that go with a report of progress.
pub fn progress_words() -> (words: WaitingWords)
    ensures
        words@ == for_progress(),
{
    WaitingWords {
        loading: "Nemotron endpoint reachable; model is still loading (HTTP 503)".to_owned(),
        failing: "Nemotron status check returning HTTP ".to_owned(),
        body: " (Body: ".to_owned(),
        behind_body: ")".to_owned(),
        behind_status: "".to_owned(),
        unreachable: "Waiting for Nemotron service to start (connection refused)".to_owned(),
    }
}

/// How far things are while the model is being loaded, in percent.
pub const LOADING_PERCENT: u32 = 80;

impl NemotronClient {
    /// The next look at the list of models, unless the time is up.
    pub fn ready_check(&self, timeout_secs: u64, elapsed_nanos: u128) -> (look: Result<
        String,
        AppError,
    >)
        ensures
            if polling::time_is_up(elapsed_nanos, timeout_secs) {
                look matches Err(e) && e@ == AppErrorView::NemotronStartupTimeout
            } else {
                look matches Ok(url) && url@ == endpoint_of(self.ip_address@, self.port)
                    + "/models"@
            },
    {
        if timed_out(elapsed_nanos, timeout_secs) {
            return Err(AppError::NemotronStartupTimeout);
        }
        Ok(self.models_url())
    }

    /// What a look at the list of models comes to, with words for a spinner after so many seconds.
    pub fn wait_for_ready(&self, event: ReadyEvent, elapsed_secs: u64) -> (step: ReadyStep)
        requires
            possible(event),
        ensures
            step@ == readiness(event, lower_body(event), for_spinner(elapsed_secs)),
    {
        let words: WaitingWords = spinner_words(elapsed_secs);
        let lower: String = lower_body_text(&event);
        judge_readiness(event, lower.as_str(), &words)
    }

    /// What a look at the list of models comes to, with words for a report of progress.
    pub fn wait_for_ready_with_progress(&self, event: ReadyEvent) -> (step: ReadyStep)
        requires
            possible(event),
        ensures
            step@ == readiness(event, lower_body(event), for_progress()),
    {
        let words: WaitingWords = progress_words();
        let lower: String = lower_body_text(&event);
        judge_readiness(event, lower.as_str(), &words)
    }

    /// What is said before the first look.
    pub fn waiting_words(&self) -> (words: String)
        ensures
            words@ == "Waiting for Nemotron to load on "@ + self.ip_address@ + ":"@ + text::decimal(
                self.port as nat,
            ) + "..."@,
    {
        "Waiting for Nemotron to load on ".to_owned()
            .concat(self.ip_address.as_str())
            .concat(":")
            .concat(decimal_text(self.port as u64).as_str())
            .concat("...")
    }

    /// The request for an answer to one question.
    pub fn complete_once(&self, config: &Config, user_prompt: &str) -> (request:
        ChatCompletionRequest)
        ensures
            request.continues(
                config.nemotron.model@,
                seq![
                    chat::system_turn(config.nemotron.system_prompt@),
                    chat::user_turn(user_prompt@),
                ],
                config.nemotron.max_tokens,
                config.nemotron.temperature_bits,
            ),
    {
        let mut session: ChatSession = ChatSession::new(config);
        let request: ChatCompletionRequest = session.submit(user_prompt.to_owned());
        proof {
            assert(session.history() =~= seq![
                chat::system_turn(config.nemotron.system_prompt@),
                chat::user_turn(user_prompt@),
            ]);
        }
        request
    }
}

fn lower_body_text(event: &ReadyEvent) -> (lower: String)
    ensures
        lower@ == lower_body(*event),
{
    match event {
        ReadyEvent::Answer { body, .. } => lowercase_text(body.as_str()),
        ReadyEvent::Unreachable => {
            let none: String = String::new();
            proof {
                assert(none@ =~= Seq::<char>::empty());
            }
            none
        },
    }
}

/// The error that the refusal of a question comes to.
pub fn completion_refusal(status: u16, body: &str) -> (e: AppError)
    requires
        100 <= status <= 999,
    ensures
        e@ == AppErrorView::ChatRequestFailed(
            "Chat completion API error "@ + outside::status_text(status) + ": "@ + body@,
        ),
{
    AppError::ChatRequestFailed(
        "Chat completion API error ".to_owned()
            .concat(status_display(status).as_str())
            .concat(": ")
            .concat(body),
    )
}

// ---------------------------------------------------------------- laws

/// What is said meanwhile makes no difference to what is done: the model is ready, the wait fails,
/// or the server is looked at again.
pub proof fn lemma_words_decide_nothing(
    event: ReadyEvent,
    lower: Seq<char>,
    some: WordsView,
    other: WordsView,
)
    ensures
        match readiness(event, lower, some) {
            ReadyView::Ready => readiness(event, lower, other) is Ready,
            ReadyView::Fail(e) => readiness(event, lower, other) == ReadyView::Fail(e),
            ReadyView::Again(_) => readiness(event, lower, other) is Again,
        },
{
}

} // verus!
