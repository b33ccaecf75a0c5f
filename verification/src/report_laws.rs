//! What reports hold of what they report.

use vstd::prelude::*;
#[allow(unused_imports)]
use vstd::string::*;

#[allow(unused_imports)]
use crate::config::Config;
#[allow(unused_imports)]
use crate::error;
#[allow(unused_imports)]
use crate::error::AppError;
#[allow(unused_imports)]
use crate::outside;
#[allow(unused_imports)]
use crate::outside::Json;
#[allow(unused_imports)]
use crate::report;
#[allow(unused_imports)]
use crate::scaleway::cleanup;
#[allow(unused_imports)]
use crate::scaleway::models::{InstanceIp, Server, Snapshot, Volume};
#[allow(unused_imports)]
use crate::scaleway::status;
#[allow(unused_imports)]
use crate::scaleway::status::{ModelProbe, StatusProbes};
#[allow(unused_imports)]
use crate::state::State;
#[allow(unused_imports)]
use crate::text;
#[allow(unused_imports)]
use crate::text_laws;

verus! {

// ---------------------------------------------------------------- what a look shows

/// The text under a key of an object, or `unknown`.
pub open spec fn known(json: Json, key: Seq<char>) -> Seq<char> {
    match json {
        Json::Object(members) => if members.contains_key(key) {
            match members[key] {
                Json::Text(found) => found,
                _ => "unknown"@,
            }
        } else {
            "unknown"@
        },
        _ => "unknown"@,
    }
}

/// The text under a key of the object under another, or `unknown`.
pub open spec fn known_in(json: Json, outer: Seq<char>, inner: Seq<char>) -> Seq<char> {
    match json {
        Json::Object(members) => if members.contains_key(outer) {
            known(members[outer], inner)
        } else {
            "unknown"@
        },
        _ => "unknown"@,
    }
}

/// A resource of the record that is seen is reported with its identifier and what is known of it;
/// one that is not seen, as not found; one that the record does not hold, as none.
pub proof fn lemma_lines(id: Seq<char>, json: Json)
    ensures
        report::instance_line(Some(id), Some(json)) == "Instance ("@ + id + "): state is '"@
            + known_in(json, "server"@, "state"@) + "'\n"@,
        report::volume_line(Some(id), Some(json)) == "Volume ("@ + id + "): status is '"@ + known(
            json,
            "status"@,
        ) + "'\n"@,
        report::ip_line(Some(id), Some(json)) == "IP ("@ + id + "): address is '"@ + known_in(
            json,
            "ip"@,
            "address"@,
        ) + "'\n"@,
        report::instance_line(Some(id), None) == "Instance ("@ + id + "): NOT found on Scaleway\n"@,
        report::volume_line(Some(id), None) == "Volume ("@ + id + "): NOT found on Scaleway\n"@,
        report::ip_line(Some(id), None) == "IP ("@ + id + "): NOT found on Scaleway\n"@,
        report::instance_line(None, Some(json)) == "Instance: None\n"@,
        report::volume_line(None, Some(json)) == "Volume: None\n"@,
        report::ip_line(None, Some(json)) == "Public IP: None\n"@,
        report::instance_line(None, None) == "Instance: None\n"@,
        report::volume_line(None, None) == "Volume: None\n"@,
        report::ip_line(None, None) == "Public IP: None\n"@,
{
}

/// A look counts where it brought a JSON document; an error, and what is no JSON, counts as not
/// found.
pub proof fn lemma_looks_that_count(reply: Option<Result<String, AppError>>)
    ensures
        report::answered(reply) == match reply {
            Some(Ok(body)) => outside::json_document(body@),
            Some(Err(_)) => None,
            None => None,
        },
{
}

/// An identifier is shown in quotes, and an absent one as absent.
pub proof fn lemma_identifiers_as_shown(id: Seq<char>)
    ensures
        cleanup::shown_id(Some(id)) == "Some("@ + outside::quoted(id) + ")"@,
        cleanup::shown_id(None) == "None"@,
{
}

// ---------------------------------------------------------------- the status command

/// What is said of the configuration names the file, the zone, the project, the instance, its type
/// and the snapshot.
pub proof fn lemma_configuration(config: Config, file: Seq<char>)
    ensures
        ({
            let words = report::configuration_words(config, file);
            &&& text::holds_text(words, "\n--- Local Configuration ---\nConfig file: "@ + file)
            &&& text::holds_text(words, "\nZone: "@ + config.scaleway.zone@)
            &&& text::holds_text(words, "\nProject ID: "@ + config.scaleway.project_id@)
            &&& text::holds_text(words, "\nTarget Instance Name: "@ + config.instance.name@)
            &&& text::holds_text(words, "\nTarget Instance Type: "@ + config.instance.instance_type@)
            &&& text::holds_text(words, "\nSource Snapshot ID: "@ + config.instance.snapshot_id@)
        }),
{
    let words = report::configuration_words(config, file);
    let a = "\n--- Local Configuration ---\nConfig file: "@ + file;
    let b = "\nZone: "@ + config.scaleway.zone@;
    let c = "\nProject ID: "@ + config.scaleway.project_id@;
    let d = "\nTarget Instance Name: "@ + config.instance.name@;
    let e = "\nTarget Instance Type: "@ + config.instance.instance_type@;
    let f = "\nSource Snapshot ID: "@ + config.instance.snapshot_id@;
    let tail = "\n\n--- Local State File ---\n"@;
    lemma_two(a, "\nZone: "@, config.scaleway.zone@);
    lemma_two(a + b, "\nProject ID: "@, config.scaleway.project_id@);
    lemma_two(a + b + c, "\nTarget Instance Name: "@, config.instance.name@);
    lemma_two(a + b + c + d, "\nTarget Instance Type: "@, config.instance.instance_type@);
    lemma_two(a + b + c + d + e, "\nSource Snapshot ID: "@, config.instance.snapshot_id@);
    lemma_seven(words, a, b, c, d, e, f, tail);
}

proof fn lemma_two(front: Seq<char>, a: Seq<char>, b: Seq<char>)
    ensures
        front + a + b == front + (a + b),
{
    assert(front + a + b =~= front + (a + b));
}

proof fn lemma_four(front: Seq<char>, a: Seq<char>, b: Seq<char>, c: Seq<char>, d: Seq<char>)
    ensures
        front + a + b + c + d == front + (a + b + c + d),
{
    lemma_two(front, a, b);
    lemma_two(front, a + b, c);
    lemma_two(front, a + b + c, d);
}

/// Six parts and an end, one behind the other, each stand in the whole.
proof fn lemma_seven(
    words: Seq<char>,
    a: Seq<char>,
    b: Seq<char>,
    c: Seq<char>,
    d: Seq<char>,
    e: Seq<char>,
    f: Seq<char>,
    tail: Seq<char>,
)
    requires
        words == a + b + c + d + e + f + tail,
    ensures
        text::holds_text(words, a),
        text::holds_text(words, b),
        text::holds_text(words, c),
        text::holds_text(words, d),
        text::holds_text(words, e),
        text::holds_text(words, f),
        text::holds_text(words, tail),
{
    let none = Seq::<char>::empty();
    assert(words =~= none + a + (b + c + d + e + f + tail));
    assert(words =~= a + b + (c + d + e + f + tail));
    assert(words =~= (a + b) + c + (d + e + f + tail));
    assert(words =~= (a + b + c) + d + (e + f + tail));
    assert(words =~= (a + b + c + d) + e + (f + tail));
    assert(words =~= (a + b + c + d + e) + f + tail);
    assert(words =~= (a + b + c + d + e + f) + tail + none);
    text_laws::lemma_stands_between(none, a, b + c + d + e + f + tail);
    text_laws::lemma_stands_between(a, b, c + d + e + f + tail);
    text_laws::lemma_stands_between(a + b, c, d + e + f + tail);
    text_laws::lemma_stands_between(a + b + c, d, e + f + tail);
    text_laws::lemma_stands_between(a + b + c + d, e, f + tail);
    text_laws::lemma_stands_between(a + b + c + d + e, f, tail);
    text_laws::lemma_stands_between(a + b + c + d + e + f, tail, none);
}

/// What is said of the record names its file, everything that it holds and when it was opened.
pub proof fn lemma_record(state: State, file: Seq<char>, created_at: Seq<char>)
    ensures
        ({
            let words = report::record_words(state, file, created_at);
            &&& text::holds_text(words, "State file path: "@ + file)
            &&& text::holds_text(
                words,
                "\nTracked Instance ID: "@ + cleanup::shown_id(state@.instance_id),
            )
            &&& text::holds_text(
                words,
                "\nTracked Volume ID: "@ + cleanup::shown_id(state@.volume_id),
            )
            &&& text::holds_text(
                words,
                "\nTracked IP ID: "@ + cleanup::shown_id(state@.public_ip_id),
            )
            &&& text::holds_text(
                words,
                "\nTracked IP Address: "@ + cleanup::shown_id(state@.public_ip_address),
            )
            &&& text::holds_text(words, "\nCreated At: "@ + created_at)
        }),
        report::no_record_words()
            == "No local state file found. No resources are currently tracked.\n"@,
{
    let words = report::record_words(state, file, created_at);
    let instance = cleanup::shown_id(state@.instance_id);
    let volume = cleanup::shown_id(state@.volume_id);
    let ip_id = cleanup::shown_id(state@.public_ip_id);
    let ip = cleanup::shown_id(state@.public_ip_address);
    let a = "State file path: "@ + file;
    let b = "\nTracked Instance ID: "@ + instance;
    let c = "\nTracked Volume ID: "@ + volume;
    let d = "\nTracked IP ID: "@ + ip_id;
    let e = "\nTracked IP Address: "@ + ip;
    let f = "\nCreated At: "@ + created_at;
    lemma_two(a, "\nTracked Instance ID: "@, instance);
    lemma_two(a + b, "\nTracked Volume ID: "@, volume);
    lemma_two(a + b + c, "\nTracked IP ID: "@, ip_id);
    lemma_two(a + b + c + d, "\nTracked IP Address: "@, ip);
    lemma_two(a + b + c + d + e, "\nCreated At: "@, created_at);
    lemma_seven(words, a, b, c, d, e, f, "\n\n--- Remote Scaleway Status ---\n"@);
}

/// What is said of what is left when a run is broken off names every resource that the record holds.
pub proof fn lemma_what_is_left(state: State)
    ensures
        ({
            let words = report::remaining_words(state);
            &&& state@.volume_id matches Some(id) ==> text::holds_text(
                words,
                "  - Volume: "@ + id + "\n"@,
            )
            &&& state@.public_ip_id matches Some(id) ==> text::holds_text(
                words,
                "  - Public IP: "@ + id + " ("@ + cleanup::shown_id(state@.public_ip_address)
                    + ")\n"@,
            )
            &&& state@.instance_id matches Some(id) ==> text::holds_text(
                words,
                "  - Instance: "@ + id + "\n"@,
            )
            &&& text::holds_text(words, "\nTracked resources remaining active:\n"@)
            &&& text::holds_text(
                words,
                "State file preserved for recovery. Run scaleway-chat status or kill to manage.\n"@,
            )
        }),
{
    let none = Seq::<char>::empty();
    reveal_strlit("");
    lemma_seven(
        report::remaining_words(state),
        "\nTracked resources remaining active:\n"@,
        match state@.volume_id {
            Some(id) => "  - Volume: "@ + id + "\n"@,
            None => ""@,
        },
        match state@.public_ip_id {
            Some(id) => "  - Public IP: "@ + id + " ("@ + cleanup::shown_id(
                state@.public_ip_address,
            ) + ")\n"@,
            None => ""@,
        },
        match state@.instance_id {
            Some(id) => "  - Instance: "@ + id + "\n"@,
            None => ""@,
        },
        none,
        none,
        "State file preserved for recovery. Run scaleway-chat status or kill to manage.\n"@,
    );
}

/// What is said of a session in the chat names the instance, the volume and the address.
pub proof fn lemma_session(state: State, ip: Seq<char>)
    ensures
        report::session_words(state, ip) == "Instance ID: "@ + cleanup::shown_id(state@.instance_id)
            + "\nVolume ID: "@ + cleanup::shown_id(state@.volume_id) + "\nPublic IP: "@ + ip,
{
}

// ---------------------------------------------------------------- status of a session

/// What is said of each resource that is looked at tells how it stands, or why it could not be
/// looked at; what is not looked at is told as none.
pub proof fn lemma_resources(
    snapshot: Snapshot,
    server: Server,
    volume: Volume,
    ip: InstanceIp,
    e: AppError,
)
    ensures
        status::snapshot_words(Ok::<Snapshot, AppError>(snapshot)) == "found (status: '"@
            + snapshot.status@ + "', size: "@ + text::decimal(
            (snapshot.size / 1_000_000_000) as nat,
        ) + " GB)"@,
        status::snapshot_words(Err::<Snapshot, AppError>(e)) == "error: "@ + error::error_text(e@),
        status::server_words(Some(Ok::<Server, AppError>(server))) == "found (state: '"@
            + server.state@ + "')"@,
        status::volume_words(Some(Ok::<Volume, AppError>(volume))) == "found (status: '"@
            + volume.status@ + "')"@,
        status::ip_words(Some(Ok::<InstanceIp, AppError>(ip))) == "allocated (address: "@
            + ip.address@ + ")"@,
        status::server_words(Some(Err::<Server, AppError>(e))) == "error checking: "@
            + error::error_text(e@),
        status::volume_words(Some(Err::<Volume, AppError>(e))) == "error checking: "@
            + error::error_text(e@),
        status::ip_words(Some(Err::<InstanceIp, AppError>(e))) == "error checking: "@
            + error::error_text(e@),
        status::server_words(None) == "None"@,
        status::volume_words(None) == "None"@,
        status::ip_words(None) == "None"@,
{
}

/// The model is told as ready exactly where the inference server answers with a status from 200 to
/// 299.
pub proof fn lemma_readiness(code: u16)
    ensures
        200 <= code <= 299 ==> status::model_words(ModelProbe::Status(code)) == "ready"@,
        code == 503 ==> status::model_words(ModelProbe::Status(code)) == "loading (HTTP 503)"@,
        !(200 <= code <= 299) && code != 503 ==> status::model_words(ModelProbe::Status(code))
            == "error (HTTP "@ + outside::status_text(code) + ")"@,
        status::model_words(ModelProbe::Unreachable) == "offline/loading"@,
{
}

/// Where the address is known, where the model answers is told with its port and how it stands.
pub proof fn lemma_where_the_model_answers(ip: Seq<char>, port: u16, probe: ModelProbe)
    ensures
        status::endpoint_words(Some(ip), port, Some(probe)) == "<b>Inference Endpoint:</b> http://"@
            + ip + ":"@ + text::decimal(port as nat) + "\n<b>Model Readiness:</b> "@
            + status::model_words(probe) + "\n"@,
        status::endpoint_words(None, port, Some(probe))
            == "<b>Inference Endpoint:</b> None\n<b>Model Readiness:</b> offline\n"@,
        status::endpoint_words(Some(ip), port, None)
            == "<b>Inference Endpoint:</b> None\n<b>Model Readiness:</b> offline\n"@,
        status::endpoint_words(None, port, None)
            == "<b>Inference Endpoint:</b> None\n<b>Model Readiness:</b> offline\n"@,
{
}

/// What is said of the resources of a session names each with its identifier and how it stands.
pub proof fn lemma_status(snapshot_id: Seq<char>, port: u16, state: State, seen: StatusProbes)
    ensures
        ({
            let words = status::status_words(snapshot_id, port, state, seen);
            &&& text::holds_text(
                words,
                "<b>Source Snapshot:</b> "@ + snapshot_id + " ("@ + status::snapshot_words(
                    seen.snapshot,
                ),
            )
            &&& text::holds_text(
                words,
                ")\n<b>GPU Instance:</b> "@ + cleanup::shown_id(state@.instance_id) + " ("@
                    + status::server_words(seen.server),
            )
            &&& text::holds_text(
                words,
                ")\n<b>Boot Volume:</b> "@ + cleanup::shown_id(state@.volume_id) + " ("@
                    + status::volume_words(seen.volume),
            )
            &&& text::holds_text(
                words,
                ")\n<b>Flexible IP:</b> "@ + cleanup::shown_id(state@.public_ip_id) + " ("@
                    + status::ip_words(seen.ip),
            )
            &&& text::holds_text(
                words,
                status::endpoint_words(state@.public_ip_address, port, seen.model),
            )
        }),
{
    let words = status::status_words(snapshot_id, port, state, seen);
    let instance = cleanup::shown_id(state@.instance_id);
    let volume = cleanup::shown_id(state@.volume_id);
    let ip_id = cleanup::shown_id(state@.public_ip_id);
    let server_seen = status::server_words(seen.server);
    let volume_seen = status::volume_words(seen.volume);
    let ip_seen = status::ip_words(seen.ip);
    let endpoint = status::endpoint_words(state@.public_ip_address, port, seen.model);
    let none = Seq::<char>::empty();
    let a = "<b>Source Snapshot:</b> "@ + snapshot_id + " ("@ + status::snapshot_words(
        seen.snapshot,
    );
    let b = ")\n<b>GPU Instance:</b> "@ + instance + " ("@ + server_seen;
    let c = ")\n<b>Boot Volume:</b> "@ + volume + " ("@ + volume_seen;
    let d = ")\n<b>Flexible IP:</b> "@ + ip_id + " ("@ + ip_seen;
    lemma_four(a, ")\n<b>GPU Instance:</b> "@, instance, " ("@, server_seen);
    lemma_four(a + b, ")\n<b>Boot Volume:</b> "@, volume, " ("@, volume_seen);
    lemma_four(a + b + c, ")\n<b>Flexible IP:</b> "@, ip_id, " ("@, ip_seen);
    assert(words + none =~= words);
    lemma_seven(words, a, b, c, d, ")\n"@, endpoint, none);
}

} // verus!
