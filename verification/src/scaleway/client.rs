//! The client of the API: how a request is sent, sent again, and how a refusal is read.

use vstd::prelude::*;
#[allow(unused_imports)]
use vstd::string::*;

use crate::config::{Config, SecretText};
use crate::error::AppError;
#[allow(unused_imports)]
use crate::error::AppErrorView;
#[allow(unused_imports)]
use crate::error;
use crate::outside::{json_as_array, json_as_str, json_get, json_parse, random_u64, status_display};
#[allow(unused_imports)]
use crate::outside::Json;
#[allow(unused_imports)]
use crate::outside;
use crate::text::{join, parse_unsigned};
#[allow(unused_imports)]
use crate::text;

verus! {

// ---------------------------------------------------------------- requests

/// What is done to a resource.
#[derive(Debug, Clone, Copy, PartialEq, Eq, Structural)]
pub enum ApiMethod {
    /// It is read.
    Get,
    /// It is made or acted upon.
    Post,
    /// It is changed.
    Patch,
    /// It is removed.
    Delete,
}

/// A request to the API.
#[derive(Debug, Clone)]
pub struct ApiRequest {
    /// What is done.
    pub method: ApiMethod,
    /// To what, behind the address of the API.
    pub path: String,
    /// The parameter of the request, by name.
    pub query: Option<(String, String)>,
    /// The JSON body of the request.
    pub body: Option<String>,
}

/// A request as a value.
pub struct ApiRequestView {
    /// What is done.
    pub method: ApiMethod,
    /// To what, behind the address of the API.
    pub path: Seq<char>,
    /// The parameter of the request, by name.
    pub query: Option<(Seq<char>, Seq<char>)>,
    /// The JSON body of the request.
    pub body: Option<Seq<char>>,
}

impl View for ApiRequest {
    type V = ApiRequestView;

    open spec fn view(&self) -> ApiRequestView {
        ApiRequestView {
            method: self.method,
            path: self.path@,
            query: match self.query {
                Some(q) => Some((q.0@, q.1@)),
                None => None,
            },
            body: text::some_text(self.body),
        }
    }
}

/// A request without parameter and body.
pub open spec fn bare_request(method: ApiMethod, path: Seq<char>) -> ApiRequestView {
    ApiRequestView { method, path, query: None, body: None }
}

/// A request with a body.
pub open spec fn body_request(method: ApiMethod, path: Seq<char>, body: Seq<char>) -> ApiRequestView {
    ApiRequestView { method, path, query: None, body: Some(body) }
}

impl ApiRequest {
    /// A request without parameter and body.
    pub fn bare(method: ApiMethod, path: String) -> (request: ApiRequest)
        ensures
            request@ == bare_request(method, path@),
    {
        ApiRequest { method, path, query: None, body: None }
    }

    /// A request with a body.
    pub fn with_body(method: ApiMethod, path: String, body: String) -> (request: ApiRequest)
        ensures
            request@ == body_request(method, path@, body@),
    {
        ApiRequest { method, path, query: None, body: Some(body) }
    }
}

// ---------------------------------------------------------------- the client

/// The client of the API.
pub struct ScalewayClient {
    /// The secret half of the credentials.
    pub secret_key: SecretText,
    /// The project.
    pub project_id: String,
    /// The organization.
    pub organization_id: String,
    /// The zone.
    pub zone: String,
    /// The address of the API.
    pub base_url: String,
}

impl ScalewayClient {
    /// A client of the public API.
    pub fn new(config: &Config) -> (client: ScalewayClient)
        ensures
            client.base_url@ == "https://api.scaleway.com"@,
            client.secret_key == config.scaleway.secret_key,
            client.project_id == config.scaleway.project_id,
            client.organization_id == config.scaleway.organization_id,
            client.zone == config.scaleway.zone,
    {
        ScalewayClient::new_with_url(config, "https://api.scaleway.com".to_owned())
    }

    /// A client of the API at an address.
    pub fn new_with_url(config: &Config, base_url: String) -> (client: ScalewayClient)
        ensures
            client.base_url@ == base_url@,
            client.secret_key == config.scaleway.secret_key,
            client.project_id == config.scaleway.project_id,
            client.organization_id == config.scaleway.organization_id,
            client.zone == config.scaleway.zone,
    {
        ScalewayClient {
            secret_key: config.scaleway.secret_key.clone(),
            project_id: config.scaleway.project_id.clone(),
            organization_id: config.scaleway.organization_id.clone(),
            zone: config.scaleway.zone.clone(),
            base_url,
        }
    }

    /// Where a request goes.
    pub fn url(&self, request: &ApiRequest) -> (url: String)
        ensures
            url@ == self.base_url@ + request@.path,
    {
        self.base_url.clone().concat(request.path.as_str())
    }

    /// What a request authenticates itself with.
    pub fn auth_token(&self) -> (token: &str)
        ensures
            token@ == self.secret_key.hidden_text(),
    {
        self.secret_key.expose_secret()
    }
}

// ---------------------------------------------------------------- sending again

/// How often a request is sent at most.
pub const MAX_ATTEMPTS: u32 = 5;

/// What became of a request that was sent.
#[derive(Debug)]
pub enum SendEvent {
    /// The API answered.
    Status {
        /// The HTTP status.
        code: u16,
        /// What the answer says of when to ask again.
        retry_after: Option<String>,
    },
    /// The API could not be reached.
    Network {
        /// Why not.
        reason: String,
    },
}

/// What is done next about a request that was sent.
#[derive(Debug)]
pub enum SendStep {
    /// The answer stands.
    Accept,
    /// The answer is a refusal: its body says more.
    Refuse,
    /// The request is sent again after a while.
    Sleep {
        /// The seconds to wait.
        seconds: u64,
        /// The milliseconds to wait besides.
        millis: u64,
    },
    /// The request failed.
    Fail(AppError),
}

/// Whether a status says that the request was carried out.
pub open spec fn is_success(code: u16) -> bool {
    200 <= code < 300
}

/// Whether a status says that the same request may fare better later.
pub open spec fn is_transient(code: u16) -> bool {
    code == 429 || 500 <= code < 600
}

/// How many seconds an answer asks to wait.
pub open spec fn asked_seconds(retry_after: Option<String>) -> Option<nat> {
    match retry_after {
        Some(header) => text::unsigned_reading(header@, u64::MAX as nat),
        None => None,
    }
}

/// Whether a step is to send the request again after a wait of so many milliseconds, with less than
/// a hundred more.
pub open spec fn backs_off(step: SendStep, delay: nat) -> bool {
    step matches SendStep::Sleep { seconds, millis } && seconds == 0 && delay <= millis < delay
        + 100
}

/// How often a request was sent, and how long to wait before it is sent again.
pub struct RetryState {
    attempt: u32,
    delay_millis: u64,
}

impl RetryState {
    /// How often the request was sent.
    pub closed spec fn attempts(self) -> nat {
        self.attempt as nat
    }

    /// How long to wait before it is sent again, in milliseconds.
    pub closed spec fn delay(self) -> nat {
        self.delay_millis as nat
    }

    /// Whether the request may be sent again.
    pub open spec fn wf(self) -> bool {
        &&& self.attempts() < MAX_ATTEMPTS
        &&& self.delay() <= 500 * vstd::arithmetic::power2::pow2(self.attempts())
    }

    /// A request that was not sent yet.
    pub fn new() -> (retry: RetryState)
        ensures
            retry.wf(),
            retry.attempts() == 0,
            retry.delay() == 500,
    {
        proof {
            vstd::arithmetic::power2::lemma2_to64();
        }
        RetryState { attempt: 0, delay_millis: 500 }
    }

    /// The wait that doubles from one attempt to the next, with some milliseconds left to chance.
    fn back_off(&mut self, random: u64) -> (millis: u64)
        requires
            old(self).delay() <= 16000,
        ensures
            millis == old(self).delay() + random % 100,
            final(self).delay() == 2 * old(self).delay(),
            final(self).attempts() == old(self).attempts(),
    {
        let millis: u64 = self.delay_millis + random % 100;
        self.delay_millis = self.delay_millis * 2;
        millis
    }

    /// Decides what is done about a request that was sent, with a number left to chance: an answer
    /// that carries the request out stands; a refusal that may pass, and an API that cannot be
    /// reached, are met with another attempt as long as there are any left.
    pub fn after_send(&mut self, event: SendEvent, random: u64) -> (step: SendStep)
        requires
            old(self).wf(),
        ensures
            final(self).attempts() == old(self).attempts() + 1,
            step is Sleep ==> final(self).wf(),
            step is Sleep || final(self).delay() == old(self).delay(),
            match event {
                SendEvent::Status { code, retry_after } => {
                    let last = final(self).attempts() >= MAX_ATTEMPTS;
                    if is_success(code) {
                        step is Accept
                    } else if last || !is_transient(code) {
                        step is Refuse
                    } else {
                        match asked_seconds(retry_after) {
                            Some(wait) => {
                                &&& step == SendStep::Sleep { seconds: wait as u64, millis: 0 }
                                &&& final(self).delay() == old(self).delay()
                            },
                            None => {
                                &&& step == SendStep::Sleep {
                                    seconds: 0,
                                    millis: (old(self).delay() + random % 100) as u64,
                                }
                                &&& final(self).delay() == 2 * old(self).delay()
                            },
                        }
                    }
                },
                SendEvent::Network { reason } => {
                    if final(self).attempts() >= MAX_ATTEMPTS {
                        step matches SendStep::Fail(e) && e@ == AppErrorView::Reqwest(reason@)
                    } else {
                        &&& step == SendStep::Sleep {
                            seconds: 0,
                            millis: (old(self).delay() + random % 100) as u64,
                        }
                        &&& final(self).delay() == 2 * old(self).delay()
                    }
                },
            },
    {
        proof {
            vstd::arithmetic::power2::lemma2_to64();
        }
        self.attempt = self.attempt + 1;
        match event {
            SendEvent::Status { code, retry_after } => {
                if 200 <= code && code < 300 {
                    return SendStep::Accept;
                }
                if self.attempt >= MAX_ATTEMPTS {
                    return SendStep::Refuse;
                }
                if !(code == 429 || (500 <= code && code < 600)) {
                    return SendStep::Refuse;
                }
                let asked: Option<u64> = match &retry_after {
                    Some(header) => parse_unsigned(header.as_str(), 0xffff_ffff_ffff_ffff),
                    None => None,
                };
                match asked {
                    Some(wait) => SendStep::Sleep { seconds: wait, millis: 0 },
                    None => {
                        let millis: u64 = self.back_off(random);
                        SendStep::Sleep { seconds: 0, millis }
                    },
                }
            },
            SendEvent::Network { reason } => {
                if self.attempt >= MAX_ATTEMPTS {
                    return SendStep::Fail(AppError::Reqwest(reason));
                }
                let millis: u64 = self.back_off(random);
                SendStep::Sleep { seconds: 0, millis }
            },
        }
    }

    /// Decides what is done about a request that was sent, as `after_send` does with a number
    /// drawn at random: an answer that asks for a wait gets that wait; otherwise the wait doubles
    /// from one attempt to the next, and less than a tenth of a second of it is left to chance.
    pub fn next_step(&mut self, event: SendEvent) -> (step: SendStep)
        requires
            old(self).wf(),
        ensures
            final(self).attempts() == old(self).attempts() + 1,
            step is Sleep ==> final(self).wf(),
            step is Sleep || final(self).delay() == old(self).delay(),
            match event {
                SendEvent::Status { code, retry_after } => {
                    let last = final(self).attempts() >= MAX_ATTEMPTS;
                    if is_success(code) {
                        step is Accept
                    } else if last || !is_transient(code) {
                        step is Refuse
                    } else {
                        match asked_seconds(retry_after) {
                            Some(wait) => {
                                &&& step == SendStep::Sleep { seconds: wait as u64, millis: 0 }
                                &&& final(self).delay() == old(self).delay()
                            },
                            None => {
                                &&& backs_off(step, old(self).delay())
                                &&& final(self).delay() == 2 * old(self).delay()
                            },
                        }
                    }
                },
                SendEvent::Network { reason } => {
                    if final(self).attempts() >= MAX_ATTEMPTS {
                        step matches SendStep::Fail(e) && e@ == AppErrorView::Reqwest(reason@)
                    } else {
                        &&& backs_off(step, old(self).delay())
                        &&& final(self).delay() == 2 * old(self).delay()
                    }
                },
            },
    {
        proof {
            vstd::arithmetic::power2::lemma2_to64();
        }
        let random: u64 = random_u64();
        self.after_send(event, random)
    }
}

// ---------------------------------------------------------------- refusals

/// The text of a member of a JSON object, or another text where it has none.
pub open spec fn member_text(json: Json, key: Seq<char>, otherwise: Seq<char>) -> Seq<char> {
    match outside::json_member(json, key) {
        Some(member) => match outside::json_text(member) {
            Some(found) => found,
            None => otherwise,
        },
        None => otherwise,
    }
}

/// What one detail of a refusal says.
pub open spec fn detail_text(detail: Json) -> Seq<char> {
    "- argument_name: "@ + member_text(detail, "argument_name"@, ""@) + "\n  reason: "@
        + member_text(detail, "reason"@, ""@) + "\n  help_message: "@ + member_text(
        detail,
        "help_message"@,
        ""@,
    )
}

/// The details of a refusal.
pub open spec fn refusal_details(json: Json) -> Seq<Json> {
    match outside::json_member(json, "details"@) {
        Some(Json::Array(items)) => items,
        _ => Seq::empty(),
    }
}

/// What a refusal in the form of the API says; nothing where it has no message.
pub open spec fn refusal_text(json: Json) -> Option<Seq<char>> {
    match outside::json_member(json, "message"@) {
        Some(Json::Text(message)) => {
            let kind = member_text(json, "type"@, "unknown_error"@);
            let details = refusal_details(json);
            if details.len() == 0 {
                Some(kind + ":\n- message: "@ + message)
            } else {
                Some(
                    kind + ":\n"@ + text::joined(
                        details.map_values(|d: Json| detail_text(d)),
                        "\n"@,
                    ),
                )
            }
        },
        _ => None,
    }
}

/// What the body of a refusal says: the refusal in the form of the API, else the body itself.
pub open spec fn refusal_body(body: Seq<char>) -> Seq<char> {
    match outside::json_document(body) {
        Some(json) => match refusal_text(json) {
            Some(said) => said,
            None => body,
        },
        None => body,
    }
}

/// What a refusal with a status and a body says.
pub open spec fn refusal_message(status: u16, body: Seq<char>) -> Seq<char> {
    "API Error (status "@ + outside::status_text(status) + "): "@ + refusal_body(body)
}

/// The error that a refusal with a status and a body comes to.
pub open spec fn refusal(status: u16, body: Seq<char>) -> AppErrorView {
    let message = refusal_message(status, body);
    if status == 401 {
        AppErrorView::AuthenticationFailed(message)
    } else if status == 403 {
        AppErrorView::PermissionDenied(message)
    } else if status == 404 {
        AppErrorView::InvalidConfig(message)
    } else if status == 409 {
        AppErrorView::CapacityUnavailable(message)
    } else {
        AppErrorView::ApiError(message)
    }
}

fn member_string(value: &serde_json::Value, key: &str, otherwise: &str) -> (found: String)
    ensures
        found@ == member_text(outside::json_contents(*value), key@, otherwise@),
{
    match json_get(value, key) {
        Some(member) => match json_as_str(member) {
            Some(found) => found.to_owned(),
            None => otherwise.to_owned(),
        },
        None => otherwise.to_owned(),
    }
}

fn detail_string(detail: &serde_json::Value) -> (said: String)
    ensures
        said@ == detail_text(outside::json_contents(*detail)),
{
    "- argument_name: ".to_owned()
        .concat(member_string(detail, "argument_name", "").as_str())
        .concat("\n  reason: ")
        .concat(member_string(detail, "reason", "").as_str())
        .concat("\n  help_message: ")
        .concat(member_string(detail, "help_message", "").as_str())
}

fn detail_strings(value: &serde_json::Value) -> (said: Vec<String>)
    ensures
        text::texts(said@) == refusal_details(outside::json_contents(*value)).map_values(
            |d: Json| detail_text(d),
        ),
{
    let ghost details = refusal_details(outside::json_contents(*value));
    let ghost all = details.map_values(|d: Json| detail_text(d));
    let mut said: Vec<String> = Vec::new();
    let list: &Vec<serde_json::Value> = match json_get(value, "details") {
        Some(member) => match json_as_array(member) {
            Some(list) => list,
            None => {
                proof {
                    assert(text::texts(said@) =~= all);
                }
                return said;
            },
        },
        None => {
            proof {
                assert(text::texts(said@) =~= all);
            }
            return said;
        },
    };
    proof {
        assert(details =~= Seq::new(list@.len(), |i: int| outside::json_contents(list@[i])));
    }
    let mut i: usize = 0;
    while i < list.len()
        invariant
            i <= list@.len(),
            all == details.map_values(|d: Json| detail_text(d)),
            details == Seq::new(list@.len(), |i: int| outside::json_contents(list@[i])),
            text::texts(said@) == all.take(i as int),
        decreases list@.len() - i,
    {
        let ghost before = said@;
        said.push(detail_string(&list[i]));
        proof {
            assert(all.take(i + 1) =~= all.take(i as int).push(all[i as int]));
            assert(text::texts(said@) =~= text::texts(before).push(all[i as int]));
        }
        i = i + 1;
    }
    proof {
        assert(all.take(i as int) =~= all);
    }
    said
}

/// What a refusal in the form of the API says; nothing where it has no message.
pub fn refusal_string(value: &serde_json::Value) -> (said: Option<String>)
    ensures
        text::some_text(said) == refusal_text(outside::json_contents(*value)),
{
    match json_get(value, "message") {
        Some(member) => match json_as_str(member) {
            Some(message) => {
                let kind: String = member_string(value, "type", "unknown_error");
                let details: Vec<String> = detail_strings(value);
                proof {
                    assert(text::texts(details@).len() == details@.len());
                }
                if details.len() == 0 {
                    Some(kind.concat(":\n- message: ").concat(message))
                } else {
                    Some(kind.concat(":\n").concat(join(&details, "\n").as_str()))
                }
            },
            None => None,
        },
        None => None,
    }
}

impl ScalewayClient {
    /// The error that a refusal with a status and a body comes to.
    pub fn map_api_error(&self, status: u16, body: String) -> (e: AppError)
        requires
            100 <= status <= 999,
        ensures
            e@ == refusal(status, body@),
    {
        let parsed: Option<String> = match json_parse(body.as_str()) {
            Some(value) => refusal_string(&value),
            None => None,
        };
        let said: String = match parsed {
            Some(said) => said,
            None => body,
        };
        let message: String = "API Error (status ".to_owned()
            .concat(status_display(status).as_str())
            .concat("): ")
            .concat(said.as_str());
        match status {
            401 => AppError::AuthenticationFailed(message),
            403 => AppError::PermissionDenied(message),
            404 => AppError::InvalidConfig(message),
            409 => AppError::CapacityUnavailable(message),
            _ => AppError::ApiError(message),
        }
    }
}

// ---------------------------------------------------------------- laws

/// It is the status alone that says whether the thing asked for does not exist: a refusal with the
/// status 404 says so whatever its body holds, and no other refusal does.
pub proof fn lemma_status_says_not_found(status: u16, body: Seq<char>)
    ensures
        error::says_not_found(refusal(status, body)) <==> status == 404,
{
    if status == 404 {
        let message = refusal_message(404, body);
        let front = "API Error (status 404 "@;
        reveal_strlit("API Error (status ");
        reveal_strlit("API Error (status 404 ");
        reveal_strlit(" ");
        reveal_with_fuel(text::decimal, 3);
        assert(text::decimal(404) =~= seq!['4', '0', '4']);
        assert(message.subrange(0, front.len() as int) =~= front);
    }
}

} // verus!
