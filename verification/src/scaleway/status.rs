//! What is said of the resources of a session.

use vstd::prelude::*;
#[allow(unused_imports)]
use vstd::string::*;

use crate::config::Config;
use crate::error::AppError;
#[allow(unused_imports)]
use crate::error;
use crate::outside::status_display;
#[allow(unused_imports)]
use crate::outside;
use crate::scaleway::cleanup::show_id;
#[allow(unused_imports)]
use crate::scaleway::cleanup;
use crate::scaleway::client::ScalewayClient;
#[allow(unused_imports)]
use crate::scaleway::client;
use crate::scaleway::models::{InstanceIp, Server, Snapshot, Volume};
use crate::state::State;
#[allow(unused_imports)]
use crate::text;
use crate::text::decimal_text;

verus! {

/// What a look at the inference server shows.
#[derive(Debug, Clone, Copy, PartialEq, Eq, Structural)]
pub enum ModelProbe {
    /// It answers with an HTTP status.
    Status(u16),
    /// It does not answer.
    Unreachable,
}

/// What a look at the resources of a session shows. What the record does not hold is not looked
/// at.
#[derive(Debug)]
pub struct StatusProbes {
    /// The snapshot.
    pub snapshot: Result<Snapshot, AppError>,
    /// The instance.
    pub server: Option<Result<Server, AppError>>,
    /// The boot volume.
    pub volume: Option<Result<Volume, AppError>>,
    /// The public address.
    pub ip: Option<Result<InstanceIp, AppError>>,
    /// The inference server.
    pub model: Option<ModelProbe>,
}

impl StatusProbes {
    /// Whether exactly what a record holds was looked at.
    pub open spec fn fit(self, state: State) -> bool {
        &&& self.server is Some == state.instance_id is Some
        &&& self.volume is Some == state.volume_id is Some
        &&& self.ip is Some == state.public_ip_id is Some
        &&& self.model is Some == state.public_ip_address is Some
        &&& self.model matches Some(ModelProbe::Status(code)) ==> 100 <= code <= 999
    }
}

/// What is said of the snapshot.
pub open spec fn snapshot_words(seen: Result<Snapshot, AppError>) -> Seq<char> {
    match seen {
        Ok(s) => "found (status: '"@ + s.status@ + "', size: "@ + text::decimal(
            (s.size / 1_000_000_000) as nat,
        ) + " GB)"@,
        Err(e) => "error: "@ + error::error_text(e@),
    }
}

/// What is said of the instance.
pub open spec fn server_words(seen: Option<Result<Server, AppError>>) -> Seq<char> {
    match seen {
        Some(Ok(s)) => "found (state: '"@ + s.state@ + "')"@,
        Some(Err(e)) => "error checking: "@ + error::error_text(e@),
        None => "None"@,
    }
}

/// What is said of the boot volume.
pub open spec fn volume_words(seen: Option<Result<Volume, AppError>>) -> Seq<char> {
    match seen {
        Some(Ok(v)) => "found (status: '"@ + v.status@ + "')"@,
        Some(Err(e)) => "error checking: "@ + error::error_text(e@),
        None => "None"@,
    }
}

/// What is said of the public address.
pub open spec fn ip_words(seen: Option<Result<InstanceIp, AppError>>) -> Seq<char> {
    match seen {
        Some(Ok(ip)) => "allocated (address: "@ + ip.address@ + ")"@,
        Some(Err(e)) => "error checking: "@ + error::error_text(e@),
        None => "None"@,
    }
}

/// What is said of the inference server.
pub open spec fn model_words(seen: ModelProbe) -> Seq<char> {
    match seen {
        ModelProbe::Status(code) => if client::is_success(code) {
            "ready"@
        } else if code == 503 {
            "loading (HTTP 503)"@
        } else {
            "error (HTTP "@ + outside::status_text(code) + ")"@
        },
        ModelProbe::Unreachable => "offline/loading"@,
    }
}

/// What is said of where the model answers.
pub open spec fn endpoint_words(
    address: Option<Seq<char>>,
    port: u16,
    seen: Option<ModelProbe>,
) -> Seq<char> {
    match (address, seen) {
        (Some(ip), Some(probe)) => "<b>Inference Endpoint:</b> http://"@ + ip + ":"@
            + text::decimal(port as nat) + "\n<b>Model Readiness:</b> "@ + model_words(probe)
            + "\n"@,
        _ => "<b>Inference Endpoint:</b> None\n<b>Model Readiness:</b> offline\n"@,
    }
}

/// What is said of the resources of a session.
pub open spec fn status_words(
    snapshot_id: Seq<char>,
    port: u16,
    state: State,
    seen: StatusProbes,
) -> Seq<char> {
    "<b>Source Snapshot:</b> "@ + snapshot_id + " ("@ + snapshot_words(seen.snapshot)
        + ")\n<b>GPU Instance:</b> "@ + cleanup::shown_id(state@.instance_id) + " ("@
        + server_words(seen.server) + ")\n<b>Boot Volume:</b> "@ + cleanup::shown_id(
        state@.volume_id,
    ) + " ("@ + volume_words(seen.volume) + ")\n<b>Flexible IP:</b> "@ + cleanup::shown_id(
        state@.public_ip_id,
    ) + " ("@ + ip_words(seen.ip) + ")\n"@ + endpoint_words(
        state@.public_ip_address,
        port,
        seen.model,
    )
}

fn snapshot_text(seen: &Result<Snapshot, AppError>) -> (words: String)
    ensures
        words@ == snapshot_words(*seen),
{
    match seen {
        Ok(s) => "found (status: '".to_owned()
            .concat(s.status.as_str())
            .concat("', size: ")
            .concat(decimal_text(s.size / 1_000_000_000).as_str())
            .concat(" GB)"),
        Err(e) => "error: ".to_owned().concat(e.to_string().as_str()),
    }
}

fn server_text(seen: &Option<Result<Server, AppError>>) -> (words: String)
    ensures
        words@ == server_words(*seen),
{
    match seen {
        Some(Ok(s)) => "found (state: '".to_owned().concat(s.state.as_str()).concat("')"),
        Some(Err(e)) => "error checking: ".to_owned().concat(e.to_string().as_str()),
        None => "None".to_owned(),
    }
}

fn volume_text(seen: &Option<Result<Volume, AppError>>) -> (words: String)
    ensures
        words@ == volume_words(*seen),
{
    match seen {
        Some(Ok(v)) => "found (status: '".to_owned().concat(v.status.as_str()).concat("')"),
        Some(Err(e)) => "error checking: ".to_owned().concat(e.to_string().as_str()),
        None => "None".to_owned(),
    }
}

fn ip_text(seen: &Option<Result<InstanceIp, AppError>>) -> (words: String)
    ensures
        words@ == ip_words(*seen),
{
    match seen {
        Some(Ok(ip)) => "allocated (address: ".to_owned().concat(ip.address.as_str()).concat(")"),
        Some(Err(e)) => "error checking: ".to_owned().concat(e.to_string().as_str()),
        None => "None".to_owned(),
    }
}

fn model_text(seen: ModelProbe) -> (words: String)
    requires
        seen matches ModelProbe::Status(code) ==> 100 <= code <= 999,
    ensures
        words@ == model_words(seen),
{
    match seen {
        ModelProbe::Status(code) => {
            if 200 <= code && code < 300 {
                "ready".to_owned()
            } else if code == 503 {
                "loading (HTTP 503)".to_owned()
            } else {
                "error (HTTP ".to_owned().concat(status_display(code).as_str()).concat(")")
            }
        },
        ModelProbe::Unreachable => "offline/loading".to_owned(),
    }
}

impl ScalewayClient {
    /// What is said of the resources of a session.
    pub fn get_status(&self, config: &Config, state: &State, seen: &StatusProbes) -> (words: String)
        requires
            seen.fit(*state),
        ensures
            words@ == status_words(
                config.instance.snapshot_id@,
                config.nemotron.port,
                *state,
                *seen,
            ),
    {
        let endpoint: String = match (&state.public_ip_address, &seen.model) {
            (Some(ip), Some(probe)) => "<b>Inference Endpoint:</b> http://".to_owned()
                .concat(ip.as_str())
                .concat(":")
                .concat(decimal_text(config.nemotron.port as u64).as_str())
                .concat("\n<b>Model Readiness:</b> ")
                .concat(model_text(*probe).as_str())
                .concat("\n"),
            _ => "<b>Inference Endpoint:</b> None\n<b>Model Readiness:</b> offline\n".to_owned(),
        };
        "<b>Source Snapshot:</b> ".to_owned()
            .concat(config.instance.snapshot_id.as_str())
            .concat(" (")
            .concat(snapshot_text(&seen.snapshot).as_str())
            .concat(")\n<b>GPU Instance:</b> ")
            .concat(show_id(&state.instance_id).as_str())
            .concat(" (")
            .concat(server_text(&seen.server).as_str())
            .concat(")\n<b>Boot Volume:</b> ")
            .concat(show_id(&state.volume_id).as_str())
            .concat(" (")
            .concat(volume_text(&seen.volume).as_str())
            .concat(")\n<b>Flexible IP:</b> ")
            .concat(show_id(&state.public_ip_id).as_str())
            .concat(" (")
            .concat(ip_text(&seen.ip).as_str())
            .concat(")\n")
            .concat(endpoint.as_str())
    }
}

} // verus!
