//! The mode in which another program asks, one JSON line at a time.

use vstd::prelude::*;
#[allow(unused_imports)]
use vstd::string::*;

use crate::config::Config;
use crate::error::AppError;
#[allow(unused_imports)]
use crate::error::AppErrorView;
#[allow(unused_imports)]
use crate::error;
use crate::json::truth_text;
#[allow(unused_imports)]
use crate::json;
use crate::outside::json_quote;
#[allow(unused_imports)]
use crate::outside;
use crate::state::State;
use crate::text::{chars_of, decimal_text, is_blank, join, same_text, trim};
#[allow(unused_imports)]
use crate::text;

verus! {

// ---------------------------------------------------------------- requests

/// What a request is about.
#[derive(Debug, Clone, PartialEq)]
pub enum HalArguments {
    /// Several words.
    Array(Vec<String>),
    /// One text.
    String(String),
}

/// A request.
#[derive(Debug, Clone, PartialEq)]
pub struct HalRequest {
    /// Which request this is.
    pub request_id: String,
    /// What is asked for.
    pub command: String,
    /// What it is about.
    pub arguments: HalArguments,
}

impl HalArguments {
    /// What the request is about, as one text.
    pub open spec fn prompt(self) -> Seq<char> {
        match self {
            HalArguments::Array(words) => text::joined(text::texts(words@), " "@),
            HalArguments::String(whole) => whole@,
        }
    }

    /// Whether the removal of a session is confirmed: by the one word for it.
    pub open spec fn confirms_kill(self) -> bool {
        match self {
            HalArguments::Array(words) => words@.len() == 1 && text::trimmed(words@[0]@) == "KILL"@,
            HalArguments::String(whole) => text::trimmed(whole@) == "KILL"@,
        }
    }
}

impl HalRequest {
    /// What the request is about, as one text.
    pub fn prompt_string(&self) -> (prompt: String)
        ensures
            prompt@ == self.arguments.prompt(),
    {
        match &self.arguments {
            HalArguments::Array(words) => join(words, " "),
            HalArguments::String(whole) => whole.clone(),
        }
    }

    /// Whether the removal of a session is confirmed.
    pub fn is_kill_confirmed(&self) -> (yes: bool)
        ensures
            yes == self.arguments.confirms_kill(),
    {
        match &self.arguments {
            HalArguments::Array(words) => {
                words.len() == 1 && same_text(trim(words[0].as_str()).as_str(), "KILL")
            },
            HalArguments::String(whole) => same_text(trim(whole.as_str()).as_str(), "KILL"),
        }
    }
}

// ---------------------------------------------------------------- responses

/// A response.
#[derive(Debug, PartialEq)]
pub enum HalResponse<'a> {
    /// How far things are.
    Progress {
        /// Which request this answers.
        request_id: &'a str,
        /// How far, in percent.
        percent: u32,
        /// In words.
        message: &'a str,
        /// How the words are to be shown.
        format: &'a str,
    },
    /// What was asked for.
    Final {
        /// Which request this answers.
        request_id: &'a str,
        /// How the words are to be shown.
        format: &'a str,
        /// What is said.
        message: &'a str,
        /// Whether the markup is meant.
        trusted_html: bool,
    },
    /// What went wrong.
    Error {
        /// Which request this answers.
        request_id: &'a str,
        /// What went wrong.
        reason: &'a str,
        /// The details.
        technical_details: &'a str,
        /// What may help.
        suggested_action: &'a str,
        /// How the words are to be shown.
        format: &'a str,
    },
}

/// The words of a response in JSON stand on a line.
proof fn lemma_json_words()
    ensures
        text::one_line("{\"type\":\"progress\",\"request_id\":"@),
        text::one_line("{\"type\":\"final\",\"request_id\":"@),
        text::one_line("{\"type\":\"error\",\"request_id\":"@),
        text::one_line(",\"percent\":"@),
        text::one_line(",\"message\":"@),
        text::one_line(",\"format\":"@),
        text::one_line(",\"trusted_html\":"@),
        text::one_line(",\"reason\":"@),
        text::one_line(",\"technical_details\":"@),
        text::one_line(",\"suggested_action\":"@),
        text::one_line("}"@),
        forall|value: bool| text::one_line(#[trigger] json::truth(value)),
{
    reveal_strlit("{\"type\":\"progress\",\"request_id\":");
    reveal_strlit("{\"type\":\"final\",\"request_id\":");
    reveal_strlit("{\"type\":\"error\",\"request_id\":");
    reveal_strlit(",\"percent\":");
    reveal_strlit(",\"message\":");
    reveal_strlit(",\"format\":");
    reveal_strlit(",\"trusted_html\":");
    reveal_strlit(",\"reason\":");
    reveal_strlit(",\"technical_details\":");
    reveal_strlit(",\"suggested_action\":");
    reveal_strlit("}");
    reveal_strlit("true");
    reveal_strlit("false");
}

impl<'a> HalResponse<'a> {
    /// The response in JSON.
    pub open spec fn json(self) -> Seq<char> {
        match self {
            HalResponse::Progress { request_id, percent, message, format } => {
                "{\"type\":\"progress\",\"request_id\":"@ + outside::json_string(request_id@)
                    + ",\"percent\":"@ + text::decimal(percent as nat) + ",\"message\":"@
                    + outside::json_string(message@) + ",\"format\":"@ + outside::json_string(
                    format@,
                ) + "}"@
            },
            HalResponse::Final { request_id, format, message, trusted_html } => {
                "{\"type\":\"final\",\"request_id\":"@ + outside::json_string(request_id@)
                    + ",\"format\":"@ + outside::json_string(format@) + ",\"message\":"@
                    + outside::json_string(message@) + ",\"trusted_html\":"@ + json::truth(
                    trusted_html,
                ) + "}"@
            },
            HalResponse::Error {
                request_id,
                reason,
                technical_details,
                suggested_action,
                format,
            } => {
                "{\"type\":\"error\",\"request_id\":"@ + outside::json_string(request_id@)
                    + ",\"reason\":"@ + outside::json_string(reason@) + ",\"technical_details\":"@
                    + outside::json_string(technical_details@) + ",\"suggested_action\":"@
                    + outside::json_string(suggested_action@) + ",\"format\":"@
                    + outside::json_string(format@) + "}"@
            },
        }
    }

    /// The response in JSON, on a line of its own.
    pub fn to_json(&self) -> (line: String)
        ensures
            line@ == self.json(),
            text::one_line(line@),
    {
        broadcast use {text::lemma_lines_joined, json::lemma_string_one_line};

        proof {
            lemma_json_words();
        }
        match self {
            HalResponse::Progress { request_id, percent, message, format } => {
                let id: String = json_quote(request_id);
                let said: String = json_quote(message);
                let shown: String = json_quote(format);
                proof {
                    text::lemma_decimal_one_line(*percent as nat);
                }
                "{\"type\":\"progress\",\"request_id\":".to_owned()
                    .concat(id.as_str())
                    .concat(",\"percent\":")
                    .concat(decimal_text(*percent as u64).as_str())
                    .concat(",\"message\":")
                    .concat(said.as_str())
                    .concat(",\"format\":")
                    .concat(shown.as_str())
                    .concat("}")
            },
            HalResponse::Final { request_id, format, message, trusted_html } => {
                let id: String = json_quote(request_id);
                let shown: String = json_quote(format);
                let said: String = json_quote(message);
                "{\"type\":\"final\",\"request_id\":".to_owned()
                    .concat(id.as_str())
                    .concat(",\"format\":")
                    .concat(shown.as_str())
                    .concat(",\"message\":")
                    .concat(said.as_str())
                    .concat(",\"trusted_html\":")
                    .concat(truth_text(*trusted_html).as_str())
                    .concat("}")
            },
            HalResponse::Error {
                request_id,
                reason,
                technical_details,
                suggested_action,
                format,
            } => {
                let id: String = json_quote(request_id);
                let cause: String = json_quote(reason);
                let details: String = json_quote(technical_details);
                let action: String = json_quote(suggested_action);
                let shown: String = json_quote(format);
                "{\"type\":\"error\",\"request_id\":".to_owned()
                    .concat(id.as_str())
                    .concat(",\"reason\":")
                    .concat(cause.as_str())
                    .concat(",\"technical_details\":")
                    .concat(details.as_str())
                    .concat(",\"suggested_action\":")
                    .concat(action.as_str())
                    .concat(",\"format\":")
                    .concat(shown.as_str())
                    .concat("}")
            },
        }
    }

    /// Whether this says how far things are.
    pub open spec fn is_progress(
        self,
        request_id: Seq<char>,
        percent: u32,
        message: Seq<char>,
    ) -> bool {
        match self {
            HalResponse::Progress { request_id: id, percent: p, message: m, format } => {
                id@ == request_id && p == percent && m@ == message && format@ == "html"@
            },
            _ => false,
        }
    }

    /// Whether this says what was asked for, in markup that is meant.
    pub open spec fn is_final(self, request_id: Seq<char>, message: Seq<char>) -> bool {
        match self {
            HalResponse::Final { request_id: id, format, message: m, trusted_html } => {
                id@ == request_id && m@ == message && format@ == "html"@ && trusted_html
            },
            _ => false,
        }
    }

    /// Whether this says what went wrong.
    pub open spec fn is_error(
        self,
        request_id: Seq<char>,
        reason: Seq<char>,
        details: Seq<char>,
        action: Seq<char>,
    ) -> bool {
        match self {
            HalResponse::Error {
                request_id: id,
                reason: r,
                technical_details,
                suggested_action,
                format,
            } => {
                &&& id@ == request_id
                &&& r@ == reason
                &&& technical_details@ == details
                &&& suggested_action@ == action
                &&& format@ == "html"@
            },
            _ => false,
        }
    }

    /// How far things are.
    pub fn progress(request_id: &'a str, percent: u32, message: &'a str) -> (response: HalResponse<
        'a,
    >)
        ensures
            response.is_progress(request_id@, percent, message@),
    {
        HalResponse::Progress { request_id, percent, message, format: "html" }
    }

    /// What was asked for.
    pub fn answer(request_id: &'a str, message: &'a str) -> (response: HalResponse<'a>)
        ensures
            response.is_final(request_id@, message@),
    {
        HalResponse::Final { request_id, format: "html", message, trusted_html: true }
    }

    /// A line that is no request.
    pub fn malformed(details: &'a str) -> (response: HalResponse<'a>)
        ensures
            response.is_error(
                "unknown"@,
                "Malformed request JSON"@,
                details@,
                "Provide a valid JSON line conforming to the HAL subprocess protocol."@,
            ),
    {
        HalResponse::Error {
            request_id: "unknown",
            reason: "Malformed request JSON",
            technical_details: details,
            suggested_action:
                "Provide a valid JSON line conforming to the HAL subprocess protocol.",
            format: "html",
        }
    }

    /// A request that does not say which one it is.
    pub fn missing_id() -> (response: HalResponse<'a>)
        ensures
            response.is_error(
                "unknown"@,
                "Missing request_id"@,
                "The request_id field is empty or absent."@,
                "Ensure your JSON request contains a valid 'request_id' UUID string."@,
            ),
    {
        HalResponse::Error {
            request_id: "unknown",
            reason: "Missing request_id",
            technical_details: "The request_id field is empty or absent.",
            suggested_action:
                "Ensure your JSON request contains a valid 'request_id' UUID string.",
            format: "html",
        }
    }

    /// A request for something that is not known.
    pub fn unsupported(request_id: &'a str, details: &'a str) -> (response: HalResponse<'a>)
        ensures
            response.is_error(
                request_id@,
                "Unsupported command"@,
                details@,
                "Use one of the supported commands: scaleway, scaleway_start, scaleway_status, scaleway_kill, scaleway_help."@,
            ),
    {
        HalResponse::Error {
            request_id,
            reason: "Unsupported command",
            technical_details: details,
            suggested_action:
                "Use one of the supported commands: scaleway, scaleway_start, scaleway_status, scaleway_kill, scaleway_help.",
            format: "html",
        }
    }

    /// A request that failed.
    pub fn execution_error(request_id: &'a str, details: &'a str) -> (response: HalResponse<'a>)
        ensures
            response.is_error(
                request_id@,
                "Execution error"@,
                details@,
                "Please retry or run status/kill to check resource states."@,
            ),
    {
        HalResponse::Error {
            request_id,
            reason: "Execution error",
            technical_details: details,
            suggested_action: "Please retry or run status/kill to check resource states.",
            format: "html",
        }
    }
}

// ---------------------------------------------------------------- which request it is

/// What a request asks for.
#[derive(Debug, Clone, Copy, PartialEq, Eq, Structural)]
pub enum HalCommand {
    /// It does not say which one it is.
    MissingId,
    /// An answer of the model.
    Ask,
    /// To bring a session up.
    Start,
    /// How the session stands.
    Status,
    /// To remove the session.
    Kill,
    /// What can be asked for.
    Help,
    /// Something that is not known.
    Unsupported,
}

/// What a request asks for.
pub open spec fn command_of(request_id: Seq<char>, command: Seq<char>) -> HalCommand {
    if text::blank(request_id) {
        HalCommand::MissingId
    } else if command == "scaleway"@ {
        HalCommand::Ask
    } else if command == "scaleway_start"@ {
        HalCommand::Start
    } else if command == "scaleway_status"@ {
        HalCommand::Status
    } else if command == "scaleway_kill"@ {
        HalCommand::Kill
    } else if command == "scaleway_help"@ {
        HalCommand::Help
    } else {
        HalCommand::Unsupported
    }
}

impl HalRequest {
    /// What the request asks for.
    pub fn route(&self) -> (command: HalCommand)
        ensures
            command == command_of(self.request_id@, self.command@),
    {
        if is_blank(self.request_id.as_str()) {
            HalCommand::MissingId
        } else if same_text(self.command.as_str(), "scaleway") {
            HalCommand::Ask
        } else if same_text(self.command.as_str(), "scaleway_start") {
            HalCommand::Start
        } else if same_text(self.command.as_str(), "scaleway_status") {
            HalCommand::Status
        } else if same_text(self.command.as_str(), "scaleway_kill") {
            HalCommand::Kill
        } else if same_text(self.command.as_str(), "scaleway_help") {
            HalCommand::Help
        } else {
            HalCommand::Unsupported
        }
    }

    /// What is said of a command that is not known.
    pub fn unsupported_details(&self) -> (details: String)
        ensures
            details@ == "Command '"@ + self.command@ + "' is not recognized."@,
    {
        "Command '".to_owned().concat(self.command.as_str()).concat("' is not recognized.")
    }

    /// The error that a command that is not known comes to.
    pub fn unsupported_error(&self) -> (e: AppError)
        ensures
            e@ == AppErrorView::InvalidConfig("Unsupported command: "@ + self.command@),
    {
        AppError::InvalidConfig("Unsupported command: ".to_owned().concat(self.command.as_str()))
    }

    /// What the model is asked; a blank question is refused.
    pub fn handle_scaleway(&self) -> (prompt: Result<String, AppError>)
        ensures
            if text::blank(self.arguments.prompt()) {
                prompt matches Err(e) && e@ == AppErrorView::InvalidConfig(
                    "Prompt cannot be empty"@,
                )
            } else {
                prompt matches Ok(p) && p@ == self.arguments.prompt()
            },
    {
        let prompt: String = self.prompt_string();
        if is_blank(prompt.as_str()) {
            return Err(AppError::InvalidConfig("Prompt cannot be empty".to_owned()));
        }
        Ok(prompt)
    }
}

/// The error that a line that is no request comes to.
pub fn malformed_error(details: &str) -> (e: AppError)
    ensures
        e@ == AppErrorView::InvalidConfig("Malformed request JSON: "@ + details@),
{
    AppError::InvalidConfig("Malformed request JSON: ".to_owned().concat(details))
}

/// The error that a request that does not say which one it is comes to.
pub fn missing_id_error() -> (e: AppError)
    ensures
        e@ == AppErrorView::InvalidConfig("Missing request_id"@),
{
    AppError::InvalidConfig("Missing request_id".to_owned())
}

// ---------------------------------------------------------------- what is said

/// A character without a meaning in markup.
pub open spec fn escaped_char(c: char) -> Seq<char> {
    if c == '&' {
        "&amp;"@
    } else if c == '<' {
        "&lt;"@
    } else if c == '>' {
        "&gt;"@
    } else if c == '"' {
        "&quot;"@
    } else if c == '\'' {
        "&#x27;"@
    } else {
        seq![c]
    }
}

/// A text without a meaning in markup.
pub open spec fn escaped(raw: Seq<char>) -> Seq<char>
    decreases raw.len(),
{
    if raw.len() == 0 {
        Seq::empty()
    } else {
        escaped(raw.drop_last()) + escaped_char(raw.last())
    }
}

/// The text without a meaning in markup.
pub fn escape_html(raw: &str) -> (out: String)
    ensures
        out@ == escaped(raw@),
{
    let chars: Vec<char> = chars_of(raw);
    let mut out: String = String::new();
    let mut i: usize = 0;
    proof {
        assert(out@ =~= escaped(chars@.take(0)));
    }
    while i < chars.len()
        invariant
            i <= chars@.len(),
            out@ == escaped(chars@.take(i as int)),
        decreases chars@.len() - i,
    {
        let c: char = chars[i];
        proof {
            assert(chars@.take(i + 1).drop_last() =~= chars@.take(i as int));
            assert(chars@.take(i + 1).last() == c);
        }
        if c == '&' {
            out.append("&amp;");
        } else if c == '<' {
            out.append("&lt;");
        } else if c == '>' {
            out.append("&gt;");
        } else if c == '"' {
            out.append("&quot;");
        } else if c == '\'' {
            out.append("&#x27;");
        } else {
            let ghost before = out@;
            out.push(c);
            proof {
                assert(before.push(c) =~= before + seq![c]);
            }
        }
        i = i + 1;
    }
    proof {
        assert(chars@.take(i as int) =~= raw@);
    }
    out
}

/// What is said with an answer of the model: the answer itself has no meaning in markup.
pub open spec fn answer_words(answer: Seq<char>) -> Seq<char> {
    escaped(answer)
        + "\n\n⚠️ <b>Billing Notice:</b> The GPU Instance remains active and will continue billing. Use <code>/scaleway_kill KILL</code> to terminate it when you are finished."@
}

/// What is said with an answer of the model.
pub fn answer_message(answer: &str) -> (message: String)
    ensures
        message@ == answer_words(answer@),
{
    escape_html(answer).concat(
        "\n\n⚠️ <b>Billing Notice:</b> The GPU Instance remains active and will continue billing. Use <code>/scaleway_kill KILL</code> to terminate it when you are finished.",
    )
}

/// What is said of a session that is up.
pub open spec fn started_words(config: Config, state: State, ip: Seq<char>) -> Seq<char> {
    "<b>GPU Instance:</b> "@ + config.instance.name@ + " (<code>"@ + (match state@.instance_id {
        Some(id) => id,
        None => "unknown"@,
    }) + "</code>)\n<b>State:</b> Running\n<b>Public IP:</b> "@ + ip
        + "\n<b>Inference Endpoint:</b> http://"@ + ip + ":"@ + text::decimal(
        config.nemotron.port as nat,
    ) + "\n<b>Configured Model:</b> <code>"@ + config.nemotron.model@
        + "</code>\n\n⚠️ <b>Billing Warning:</b> The GPU Instance is active and generating charges. Run <code>/scaleway_kill KILL</code> to tear it down."@
}

/// What is said of a session that is up.
pub fn handle_scaleway_start(config: &Config, state: &State, ip: &str) -> (message: String)
    ensures
        message@ == started_words(*config, *state, ip@),
{
    let id: String = match &state.instance_id {
        Some(id) => id.clone(),
        None => "unknown".to_owned(),
    };
    "<b>GPU Instance:</b> ".to_owned()
        .concat(config.instance.name.as_str())
        .concat(" (<code>")
        .concat(id.as_str())
        .concat("</code>)\n<b>State:</b> Running\n<b>Public IP:</b> ")
        .concat(ip)
        .concat("\n<b>Inference Endpoint:</b> http://")
        .concat(ip)
        .concat(":")
        .concat(decimal_text(config.nemotron.port as u64).as_str())
        .concat("\n<b>Configured Model:</b> <code>")
        .concat(config.nemotron.model.as_str())
        .concat(
            "</code>\n\n⚠️ <b>Billing Warning:</b> The GPU Instance is active and generating charges. Run <code>/scaleway_kill KILL</code> to tear it down.",
        )
}

/// What is done about a request to remove the session.
#[derive(Debug, Clone, Copy, PartialEq, Eq, Structural)]
pub enum KillStep {
    /// It is not confirmed.
    Unconfirmed,
    /// There is no session.
    NothingThere,
    /// The session is removed.
    Remove,
}

impl KillStep {
    /// What is said in the end.
    pub open spec fn words(self) -> Seq<char> {
        match self {
            KillStep::Unconfirmed =>
            "Aborted. To terminate all resources, you must pass exactly the KILL argument: <code>/scaleway_kill KILL</code>"@,
            KillStep::NothingThere => "No active state file found. Nothing to clean up."@,
            KillStep::Remove =>
            "Teardown complete. All Scaleway GPU resources (Instance, volume, and flexible IP) have been stopped and deleted."@,
        }
    }

    /// What is said in the end.
    pub fn message(&self) -> (message: &'static str)
        ensures
            message@ == self.words(),
    {
        match self {
            KillStep::Unconfirmed => {
                "Aborted. To terminate all resources, you must pass exactly the KILL argument: <code>/scaleway_kill KILL</code>"
            },
            KillStep::NothingThere => "No active state file found. Nothing to clean up.",
            KillStep::Remove => {
                "Teardown complete. All Scaleway GPU resources (Instance, volume, and flexible IP) have been stopped and deleted."
            },
        }
    }
}

/// What is done about a request to remove the session: nothing unless it is confirmed and there is
/// a record.
pub fn handle_scaleway_kill(request: &HalRequest, recorded: bool) -> (step: KillStep)
    ensures
        step == if !request.arguments.confirms_kill() {
            KillStep::Unconfirmed
        } else if !recorded {
            KillStep::NothingThere
        } else {
            KillStep::Remove
        },
{
    if !request.is_kill_confirmed() {
        KillStep::Unconfirmed
    } else if !recorded {
        KillStep::NothingThere
    } else {
        KillStep::Remove
    }
}

/// What can be asked for.
pub open spec fn help_words() -> Seq<char> {
    "<b>Available Scaleway GPU Commands:</b>\n\n• <code>/scaleway &lt;prompt&gt;</code>: Provision/resume GPU and ask a query.\n• <code>/scaleway_start</code>: Provision/resume GPU resources and wait for readiness.\n• <code>/scaleway_status</code>: Check status of GPU instance, IP, and model loading.\n• <code>/scaleway_kill KILL</code>: Stop and delete all resources (IP, Volume, Instance).\n• <code>/scaleway_help</code>: Show this help message."@
}

/// What can be asked for.
pub fn handle_scaleway_help<'a>(req_id: &'a str) -> (response: HalResponse<'a>)
    ensures
        response.is_final(req_id@, help_words()),
{
    HalResponse::answer(
        req_id,
        "<b>Available Scaleway GPU Commands:</b>\n\n• <code>/scaleway &lt;prompt&gt;</code>: Provision/resume GPU and ask a query.\n• <code>/scaleway_start</code>: Provision/resume GPU resources and wait for readiness.\n• <code>/scaleway_status</code>: Check status of GPU instance, IP, and model loading.\n• <code>/scaleway_kill KILL</code>: Stop and delete all resources (IP, Volume, Instance).\n• <code>/scaleway_help</code>: Show this help message.",
    )
}

/// Whether what the user typed confirms the removal of the session.
pub fn confirm_kill(typed: &str) -> (yes: bool)
    ensures
        yes == (text::trimmed(typed@) == "KILL"@),
{
    same_text(trim(typed).as_str(), "KILL")
}

// ---------------------------------------------------------------- laws

proof fn lemma_escaped_char_is_plain(c: char)
    ensures
        forall|i: int|
            0 <= i < escaped_char(c).len() ==> !(#[trigger] escaped_char(c)[i] == '<'
                || escaped_char(c)[i] == '>' || escaped_char(c)[i] == '"' || escaped_char(c)[i]
                == '\''),
{
    reveal_strlit("&amp;");
    reveal_strlit("&lt;");
    reveal_strlit("&gt;");
    reveal_strlit("&quot;");
    reveal_strlit("&#x27;");
}

/// A text that is made harmless opens no tag, closes none and ends no quotation.
pub proof fn lemma_escaped_is_plain(raw: Seq<char>)
    ensures
        forall|i: int|
            0 <= i < escaped(raw).len() ==> !(#[trigger] escaped(raw)[i] == '<' || escaped(raw)[i]
                == '>' || escaped(raw)[i] == '"' || escaped(raw)[i] == '\''),
    decreases raw.len(),
{
    if raw.len() > 0 {
        let front = escaped(raw.drop_last());
        let last = escaped_char(raw.last());
        lemma_escaped_is_plain(raw.drop_last());
        lemma_escaped_char_is_plain(raw.last());
        assert forall|i: int| 0 <= i < escaped(raw).len() implies !(#[trigger] escaped(raw)[i]
            == '<' || escaped(raw)[i] == '>' || escaped(raw)[i] == '"' || escaped(raw)[i]
            == '\'') by {
            if i < front.len() {
                assert(escaped(raw)[i] == front[i]);
            } else {
                assert(escaped(raw)[i] == last[i - front.len()]);
            }
        }
    }
}

/// A text in which nothing has a meaning in markup stays as it is.
pub proof fn lemma_plain_stays(raw: Seq<char>)
    requires
        forall|i: int|
            0 <= i < raw.len() ==> !(#[trigger] raw[i] == '&' || raw[i] == '<' || raw[i] == '>'
                || raw[i] == '"' || raw[i] == '\''),
    ensures
        escaped(raw) == raw,
    decreases raw.len(),
{
    if raw.len() > 0 {
        let front = raw.drop_last();
        assert forall|i: int| 0 <= i < front.len() implies !(#[trigger] front[i] == '&' || front[i]
            == '<' || front[i] == '>' || front[i] == '"' || front[i] == '\'') by {
            assert(front[i] == raw[i]);
        }
        lemma_plain_stays(front);
        assert(raw[raw.len() - 1] == raw.last());
        assert(escaped(raw) =~= raw);
    }
}

/// Whether one of the five entities stands at a position.
pub open spec fn entity_at(text: Seq<char>, at: int) -> bool {
    ||| text::stands_at(text, "&amp;"@, at)
    ||| text::stands_at(text, "&lt;"@, at)
    ||| text::stands_at(text, "&gt;"@, at)
    ||| text::stands_at(text, "&quot;"@, at)
    ||| text::stands_at(text, "&#x27;"@, at)
}

/// The text that was escaped: the entities are turned back into their characters, that of the
/// ampersand last.
pub open spec fn unescaped(text: Seq<char>) -> Seq<char> {
    let text = text::part_replaced(text, "&lt;"@, '<');
    let text = text::part_replaced(text, "&gt;"@, '>');
    let text = text::part_replaced(text, "&quot;"@, '"');
    let text = text::part_replaced(text, "&#x27;"@, '\'');
    text::part_replaced(text, "&amp;"@, '&')
}

proof fn lemma_entities()
    ensures
        "&lt;"@ == seq!['&', 'l', 't', ';'],
        "&gt;"@ == seq!['&', 'g', 't', ';'],
        "&quot;"@ == seq!['&', 'q', 'u', 'o', 't', ';'],
        "&#x27;"@ == seq!['&', '#', 'x', '2', '7', ';'],
        "&amp;"@ == seq!['&', 'a', 'm', 'p', ';'],
{
    reveal_strlit("&lt;");
    reveal_strlit("&gt;");
    reveal_strlit("&quot;");
    reveal_strlit("&#x27;");
    reveal_strlit("&amp;");
    assert("&lt;"@ =~= seq!['&', 'l', 't', ';']);
    assert("&gt;"@ =~= seq!['&', 'g', 't', ';']);
    assert("&quot;"@ =~= seq!['&', 'q', 'u', 'o', 't', ';']);
    assert("&#x27;"@ =~= seq!['&', '#', 'x', '2', '7', ';']);
    assert("&amp;"@ =~= seq!['&', 'a', 'm', 'p', ';']);
}

/// Every ampersand in escaped text begins one of the five entities.
pub proof fn lemma_ampersands_begin_entities(raw: Seq<char>)
    ensures
        forall|i: int|
            0 <= i < escaped(raw).len() && #[trigger] escaped(raw)[i] == '&' ==> entity_at(
                escaped(raw),
                i,
            ),
    decreases raw.len(),
{
    if raw.len() > 0 {
        let front = escaped(raw.drop_last());
        let last = escaped_char(raw.last());
        let whole = escaped(raw);
        lemma_ampersands_begin_entities(raw.drop_last());
        lemma_entities();
        assert forall|i: int| 0 <= i < whole.len() && #[trigger] whole[i] == '&' implies entity_at(
            whole,
            i,
        ) by {
            if i < front.len() {
                assert(front[i] == '&');
                assert(entity_at(front, i));
                assert forall|part: Seq<char>| #[trigger]
                    text::stands_at(front, part, i) implies text::stands_at(whole, part, i) by {
                    assert(whole.subrange(i, i + part.len()) =~= front.subrange(
                        i,
                        i + part.len(),
                    ));
                }
            } else {
                let at = i - front.len();
                assert(last[at] == '&');
                assert(at == 0);
                assert(whole.subrange(i, i + last.len()) =~= last);
                assert(text::stands_at(whole, last, i));
            }
        }
    }
}

/// The turn in which an entity is turned back into a character.
spec fn turn(c: char) -> int {
    if c == '<' {
        0
    } else if c == '>' {
        1
    } else if c == '"' {
        2
    } else if c == '\'' {
        3
    } else if c == '&' {
        4
    } else {
        -1
    }
}

/// A text of which the characters whose turn is over are as they were, and the others escaped.
spec fn partly(raw: Seq<char>, turns: int) -> Seq<char>
    decreases raw.len(),
{
    if raw.len() == 0 {
        Seq::empty()
    } else if turn(raw[0]) >= turns {
        escaped_char(raw[0]) + partly(raw.skip(1), turns)
    } else {
        seq![raw[0]] + partly(raw.skip(1), turns)
    }
}

proof fn lemma_escaped_front(raw: Seq<char>)
    requires
        raw.len() > 0,
    ensures
        escaped(raw) == escaped_char(raw[0]) + escaped(raw.skip(1)),
    decreases raw.len(),
{
    if raw.len() == 1 {
        assert(raw.drop_last() =~= Seq::<char>::empty());
        assert(raw.skip(1) =~= Seq::<char>::empty());
        assert(escaped(raw.drop_last()) =~= Seq::<char>::empty());
        assert(escaped(raw) =~= escaped_char(raw[0]) + escaped(raw.skip(1)));
    } else {
        lemma_escaped_front(raw.drop_last());
        assert(raw.skip(1).drop_last() =~= raw.drop_last().skip(1));
        assert(escaped(raw) =~= escaped_char(raw[0]) + escaped(raw.skip(1)));
    }
}

proof fn lemma_partly_ends(raw: Seq<char>)
    ensures
        partly(raw, 0) == escaped(raw),
        partly(raw, 5) == raw,
    decreases raw.len(),
{
    if raw.len() > 0 {
        lemma_escaped_front(raw);
        lemma_partly_ends(raw.skip(1));
        assert(seq![raw[0]] + raw.skip(1) =~= raw);
    } else {
        assert(partly(raw, 5) =~= raw);
    }
}

proof fn lemma_turn(raw: Seq<char>, c: char)
    requires
        turn(c) >= 0,
    ensures
        text::part_replaced(partly(raw, turn(c)), escaped_char(c), c) == partly(raw, turn(c) + 1),
    decreases raw.len(),
{
    let part = escaped_char(c);
    lemma_entities();
    if raw.len() > 0 {
        let first = raw[0];
        let rest = partly(raw.skip(1), turn(c));
        let whole = partly(raw, turn(c));
        lemma_turn(raw.skip(1), c);
        if first == c {
            assert(whole.subrange(0, part.len() as int) =~= part);
            assert(whole.skip(part.len() as int) =~= rest);
        } else if turn(first) > turn(c) {
            let other = escaped_char(first);
            if text::stands_at(whole, part, 0) {
                assert(whole.subrange(0, part.len() as int)[1] == whole[1]);
                assert(whole[1] == other[1]);
            }
            assert(whole.skip(1) =~= other.skip(1) + rest);
            text::lemma_part_passes(other.skip(1), rest, part, c);
            assert(seq![other[0]] + (other.skip(1) + text::part_replaced(rest, part, c))
                =~= other + text::part_replaced(rest, part, c));
        } else {
            text::lemma_part_passes(seq![first], rest, part, c);
        }
    }
}

/// A text can be had back from its escaped form.
pub proof fn lemma_escaping_is_undone(raw: Seq<char>)
    ensures
        unescaped(escaped(raw)) == raw,
{
    lemma_partly_ends(raw);
    lemma_turn(raw, '<');
    lemma_turn(raw, '>');
    lemma_turn(raw, '"');
    lemma_turn(raw, '\'');
    lemma_turn(raw, '&');
}

/// Different texts have different escaped forms.
pub proof fn lemma_escaping_tells_apart(one: Seq<char>, other: Seq<char>)
    requires
        escaped(one) == escaped(other),
    ensures
        one == other,
{
    lemma_escaping_is_undone(one);
    lemma_escaping_is_undone(other);
}

} // verus!
