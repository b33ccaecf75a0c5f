//! What the command line says of the record and of what it holds.

use vstd::prelude::*;
#[allow(unused_imports)]
use vstd::string::*;

use crate::config::Config;
use crate::error::AppError;
use crate::outside::{json_as_str, json_get, json_parse};
#[allow(unused_imports)]
use crate::outside;
#[allow(unused_imports)]
use crate::outside::Json;
use crate::scaleway::cleanup::show_id;
#[allow(unused_imports)]
use crate::scaleway::cleanup;
use crate::state::State;
#[allow(unused_imports)]
use crate::text;

verus! {

// ---------------------------------------------------------------- what is seen from afar

/// The text under a key of a JSON object under another key; `unknown` where there is none.
pub open spec fn nested_text(json: Json, outer: Seq<char>, inner: Seq<char>) -> Seq<char> {
    match outside::json_member(json, outer) {
        Some(object) => plain_text(object, inner),
        None => "unknown"@,
    }
}

/// The text under a key of a JSON object; `unknown` where there is none.
pub open spec fn plain_text(json: Json, key: Seq<char>) -> Seq<char> {
    match outside::json_member(json, key) {
        Some(member) => match outside::json_text(member) {
            Some(found) => found,
            None => "unknown"@,
        },
        None => "unknown"@,
    }
}

fn plain_string(value: &serde_json::Value, key: &str) -> (found: String)
    ensures
        found@ == plain_text(outside::json_contents(*value), key@),
{
    match json_get(value, key) {
        Some(member) => match json_as_str(member) {
            Some(found) => found.to_owned(),
            None => "unknown".to_owned(),
        },
        None => "unknown".to_owned(),
    }
}

fn nested_string(value: &serde_json::Value, outer: &str, inner: &str) -> (found: String)
    ensures
        found@ == nested_text(outside::json_contents(*value), outer@, inner@),
{
    match json_get(value, outer) {
        Some(object) => plain_string(object, inner),
        None => "unknown".to_owned(),
    }
}

/// What the body of an answer holds; nothing where there is no answer or it is no JSON document.
pub open spec fn answered(reply: Option<Result<String, AppError>>) -> Option<Json> {
    match reply {
        Some(Ok(body)) => outside::json_document(body@),
        _ => None,
    }
}

fn answered_value(reply: &Option<Result<String, AppError>>) -> (value: Option<serde_json::Value>)
    ensures
        value is Some == answered(*reply) is Some,
        value matches Some(v) ==> outside::json_contents(v) == answered(*reply)->0,
{
    match reply {
        Some(Ok(body)) => json_parse(body.as_str()),
        _ => None,
    }
}

/// The line on the instance.
pub open spec fn instance_line(id: Option<Seq<char>>, answer: Option<Json>) -> Seq<char> {
    match id {
        Some(id) => match answer {
            Some(json) => "Instance ("@ + id + "): state is '"@ + nested_text(
                json,
                "server"@,
                "state"@,
            ) + "'\n"@,
            None => "Instance ("@ + id + "): NOT found on Scaleway\n"@,
        },
        None => "Instance: None\n"@,
    }
}

/// The line on the volume.
pub open spec fn volume_line(id: Option<Seq<char>>, answer: Option<Json>) -> Seq<char> {
    match id {
        Some(id) => match answer {
            Some(json) => "Volume ("@ + id + "): status is '"@ + plain_text(json, "status"@)
                + "'\n"@,
            None => "Volume ("@ + id + "): NOT found on Scaleway\n"@,
        },
        None => "Volume: None\n"@,
    }
}

/// The line on the public address.
pub open spec fn ip_line(id: Option<Seq<char>>, answer: Option<Json>) -> Seq<char> {
    match id {
        Some(id) => match answer {
            Some(json) => "IP ("@ + id + "): address is '"@ + nested_text(
                json,
                "ip"@,
                "address"@,
            ) + "'\n"@,
            None => "IP ("@ + id + "): NOT found on Scaleway\n"@,
        },
        None => "Public IP: None\n"@,
    }
}

// ---------------------------------------------------------------- the status command

/// What is said of the configuration.
pub open spec fn configuration_words(config: Config, config_file: Seq<char>) -> Seq<char> {
    "\n--- Local Configuration ---\nConfig file: "@ + config_file + "\nZone: "@
        + config.scaleway.zone@ + "\nProject ID: "@ + config.scaleway.project_id@
        + "\nTarget Instance Name: "@ + config.instance.name@ + "\nTarget Instance Type: "@
        + config.instance.instance_type@ + "\nSource Snapshot ID: "@ + config.instance.snapshot_id@
        + "\n\n--- Local State File ---\n"@
}

/// What is said of the record.
pub open spec fn record_words(
    state: State,
    state_file: Seq<char>,
    created_at: Seq<char>,
) -> Seq<char> {
    "State file path: "@ + state_file + "\nTracked Instance ID: "@ + cleanup::shown_id(
        state@.instance_id,
    ) + "\nTracked Volume ID: "@ + cleanup::shown_id(state@.volume_id) + "\nTracked IP ID: "@
        + cleanup::shown_id(state@.public_ip_id) + "\nTracked IP Address: "@ + cleanup::shown_id(
        state@.public_ip_address,
    ) + "\nCreated At: "@ + created_at + "\n\n--- Remote Scaleway Status ---\n"@
}

/// What is said where there is no record.
pub open spec fn no_record_words() -> Seq<char> {
    "No local state file found. No resources are currently tracked.\n"@
}

/// What is said of the configuration.
pub fn configuration_text(config: &Config, config_file: &str) -> (words: String)
    ensures
        words@ == configuration_words(*config, config_file@),
{
    "\n--- Local Configuration ---\nConfig file: ".to_owned()
        .concat(config_file)
        .concat("\nZone: ")
        .concat(config.scaleway.zone.as_str())
        .concat("\nProject ID: ")
        .concat(config.scaleway.project_id.as_str())
        .concat("\nTarget Instance Name: ")
        .concat(config.instance.name.as_str())
        .concat("\nTarget Instance Type: ")
        .concat(config.instance.instance_type.as_str())
        .concat("\nSource Snapshot ID: ")
        .concat(config.instance.snapshot_id.as_str())
        .concat("\n\n--- Local State File ---\n")
}

/// What is said of the record and, by the answers to a look at each, of what it holds.
pub fn show_status(
    state: &Option<State>,
    state_file: &str,
    created_at: &str,
    server: &Option<Result<String, AppError>>,
    volume: &Option<Result<String, AppError>>,
    ip: &Option<Result<String, AppError>>,
) -> (words: String)
    ensures
        words@ == match *state {
            Some(s) => record_words(s, state_file@, created_at@) + instance_line(
                s@.instance_id,
                answered(*server),
            ) + volume_line(s@.volume_id, answered(*volume)) + ip_line(
                s@.public_ip_id,
                answered(*ip),
            ),
            None => no_record_words(),
        },
{
    match state {
        Some(s) => {
            let seen_server: String = match &s.instance_id {
                Some(id) => match answered_value(server) {
                    Some(value) => "Instance (".to_owned()
                        .concat(id.as_str())
                        .concat("): state is '")
                        .concat(nested_string(&value, "server", "state").as_str())
                        .concat("'\n"),
                    None => "Instance (".to_owned()
                        .concat(id.as_str())
                        .concat("): NOT found on Scaleway\n"),
                },
                None => "Instance: None\n".to_owned(),
            };
            let seen_volume: String = match &s.volume_id {
                Some(id) => match answered_value(volume) {
                    Some(value) => "Volume (".to_owned()
                        .concat(id.as_str())
                        .concat("): status is '")
                        .concat(plain_string(&value, "status").as_str())
                        .concat("'\n"),
                    None => "Volume (".to_owned()
                        .concat(id.as_str())
                        .concat("): NOT found on Scaleway\n"),
                },
                None => "Volume: None\n".to_owned(),
            };
            let seen_ip: String = match &s.public_ip_id {
                Some(id) => match answered_value(ip) {
                    Some(value) => "IP (".to_owned()
                        .concat(id.as_str())
                        .concat("): address is '")
                        .concat(nested_string(&value, "ip", "address").as_str())
                        .concat("'\n"),
                    None => "IP (".to_owned()
                        .concat(id.as_str())
                        .concat("): NOT found on Scaleway\n"),
                },
                None => "Public IP: None\n".to_owned(),
            };
            "State file path: ".to_owned()
                .concat(state_file)
                .concat("\nTracked Instance ID: ")
                .concat(show_id(&s.instance_id).as_str())
                .concat("\nTracked Volume ID: ")
                .concat(show_id(&s.volume_id).as_str())
                .concat("\nTracked IP ID: ")
                .concat(show_id(&s.public_ip_id).as_str())
                .concat("\nTracked IP Address: ")
                .concat(show_id(&s.public_ip_address).as_str())
                .concat("\nCreated At: ")
                .concat(created_at)
                .concat("\n\n--- Remote Scaleway Status ---\n")
                .concat(seen_server.as_str())
                .concat(seen_volume.as_str())
                .concat(seen_ip.as_str())
        },
        None => "No local state file found. No resources are currently tracked.\n".to_owned(),
    }
}

// ---------------------------------------------------------------- other commands

/// What is said of the resources that are left when a run is broken off.
pub open spec fn remaining_words(state: State) -> Seq<char> {
    "\nTracked resources remaining active:\n"@ + (match state@.volume_id {
        Some(id) => "  - Volume: "@ + id + "\n"@,
        None => ""@,
    }) + (match state@.public_ip_id {
        Some(id) => "  - Public IP: "@ + id + " ("@ + cleanup::shown_id(state@.public_ip_address)
            + ")\n"@,
        None => ""@,
    }) + (match state@.instance_id {
        Some(id) => "  - Instance: "@ + id + "\n"@,
        None => ""@,
    })
        + "State file preserved for recovery. Run scaleway-chat status or kill to manage.\n"@
}

/// What is said of the resources that are left when a run is broken off.
pub fn report_remaining_resources(state: &State) -> (words: String)
    ensures
        words@ == remaining_words(*state),
{
    let volume: String = match &state.volume_id {
        Some(id) => "  - Volume: ".to_owned().concat(id.as_str()).concat("\n"),
        None => "".to_owned(),
    };
    let ip: String = match &state.public_ip_id {
        Some(id) => "  - Public IP: ".to_owned()
            .concat(id.as_str())
            .concat(" (")
            .concat(show_id(&state.public_ip_address).as_str())
            .concat(")\n"),
        None => "".to_owned(),
    };
    let instance: String = match &state.instance_id {
        Some(id) => "  - Instance: ".to_owned().concat(id.as_str()).concat("\n"),
        None => "".to_owned(),
    };
    "\nTracked resources remaining active:\n".to_owned()
        .concat(volume.as_str())
        .concat(ip.as_str())
        .concat(instance.as_str())
        .concat("State file preserved for recovery. Run scaleway-chat status or kill to manage.\n")
}

/// What is said of a session in the chat.
pub open spec fn session_words(state: State, server_ip: Seq<char>) -> Seq<char> {
    "Instance ID: "@ + cleanup::shown_id(state@.instance_id) + "\nVolume ID: "@ + cleanup::shown_id(
        state@.volume_id,
    ) + "\nPublic IP: "@ + server_ip
}

/// What is said of a session in the chat.
pub fn session_report(state: &State, server_ip: &str) -> (words: String)
    ensures
        words@ == session_words(*state, server_ip@),
{
    "Instance ID: ".to_owned()
        .concat(show_id(&state.instance_id).as_str())
        .concat("\nVolume ID: ")
        .concat(show_id(&state.volume_id).as_str())
        .concat("\nPublic IP: ")
        .concat(server_ip)
}

} // verus!
