//! Whole sessions against a scripted API: every request goes through the library, every answer is
//! one that the script holds.

use scaleway_chat::config::{
    Config, InstanceConfig, LoggingConfig, NemotronConfig, ScalewayConfig, SecretText,
    TimeoutsConfig,
};
use scaleway_chat::error::AppError;
use scaleway_chat::hal::{
    answer_message, handle_scaleway_kill, handle_scaleway_start, HalArguments, HalCommand,
    HalRequest, HalResponse, KillStep,
};
use scaleway_chat::nemotron::answer::ChatStream;
use scaleway_chat::nemotron::client::{ReadyEvent, ReadyStep};
use scaleway_chat::nemotron::NemotronClient;
use scaleway_chat::scaleway::attempt::AttemptRun;
use scaleway_chat::scaleway::calls::{Call, Reply};
use scaleway_chat::scaleway::checks::RemoteChecks;
use scaleway_chat::scaleway::cleanup::{CleanupReport, CleanupRun};
use scaleway_chat::scaleway::client::{
    ApiMethod, ApiRequest, RetryState, ScalewayClient, SendEvent, SendStep,
};
use scaleway_chat::scaleway::models::{
    InstanceIp, IpResponse, Server, ServerPublicIp, ServerRef, ServerResponse, ServerTypeDetails,
    ServerTypesResponse, ServerVolumeDetail, Snapshot, Volume, VolumesConstraint,
};
use scaleway_chat::scaleway::operations::{failed_reply, Answer, Settled};
use scaleway_chat::scaleway::provision::{upgrade, EnsurePhase, EnsureRun, Interruption};
use scaleway_chat::state::{Identity, ProvisioningPhase, State};
use serde_json::Value;

// ---------------------------------------------------------------- the script

struct Mock {
    method: ApiMethod,
    path: Option<String>,
    query: Option<(String, String)>,
    body: Option<Value>,
    status: u16,
    retry_after: Option<String>,
    answer: String,
    left: Option<usize>,
}

#[derive(Default)]
struct FakeApi {
    mocks: Vec<Mock>,
    seen: Vec<ApiRequest>,
    reports: Vec<(u32, String)>,
    saves: usize,
    record_exists: bool,
    slept_secs: u64,
}

const GET: ApiMethod = ApiMethod::Get;
const POST: ApiMethod = ApiMethod::Post;
const PATCH: ApiMethod = ApiMethod::Patch;
const DELETE: ApiMethod = ApiMethod::Delete;

const NOT_FOUND: &str = r#"{"message": "not found", "type": "resource_not_found"}"#;
const SNAPSHOT_PATH: &str =
    "/block/v1/zones/fr-par-2/snapshots/1b552e81-401d-4c15-b0b2-3c89e2d46c28";
const SERVERS: &str = "/instance/v1/zones/fr-par-2/servers";
const PRODUCTS: &str = "/instance/v1/zones/fr-par-2/products/servers";
const IPS: &str = "/instance/v1/zones/fr-par-2/ips";
const MODELS: &str = "/v1/models";

fn server_at(id: &str) -> String {
    format!("{}/{}", SERVERS, id)
}

fn action_at(id: &str) -> String {
    format!("{}/{}/action", SERVERS, id)
}

fn volume_at(id: &str) -> String {
    format!("/block/v1/zones/fr-par-2/volumes/{}", id)
}

fn ip_at(id: &str) -> String {
    format!("{}/{}", IPS, id)
}

impl FakeApi {
    fn new() -> FakeApi {
        FakeApi { record_exists: true, ..FakeApi::default() }
    }

    fn on(&mut self, method: ApiMethod, path: &str, status: u16, answer: &str) -> &mut Mock {
        self.mocks.push(Mock {
            method,
            path: Some(path.to_string()),
            query: None,
            body: None,
            status,
            retry_after: None,
            answer: answer.to_string(),
            left: None,
        });
        self.mocks.last_mut().unwrap()
    }

    fn times(&mut self, method: ApiMethod, path: &str, status: u16, answer: &str, left: usize) {
        self.on(method, path, status, answer).left = Some(left);
    }

    fn any(&mut self, method: ApiMethod, status: u16, answer: &str) {
        self.on(method, "", status, answer).path = None;
    }

    fn count(&self, method: ApiMethod, path: &str) -> usize {
        self.seen.iter().filter(|r| r.method == method && r.path == path).count()
    }

    fn lookup(&mut self, request: &ApiRequest) -> (u16, Option<String>, String) {
        self.seen.push(request.clone());
        for mock in self.mocks.iter_mut() {
            let path_fits = match &mock.path {
                Some(path) => *path == request.path,
                None => true,
            };
            let query_fits = match &mock.query {
                Some(query) => Some(query) == request.query.as_ref(),
                None => true,
            };
            let body_fits = match (&mock.body, &request.body) {
                (Some(wanted), Some(got)) => {
                    serde_json::from_str::<Value>(got).ok().as_ref() == Some(wanted)
                }
                (Some(_), None) => false,
                (None, _) => true,
            };
            if mock.method == request.method
                && path_fits
                && query_fits
                && body_fits
                && mock.left != Some(0)
            {
                if let Some(left) = mock.left {
                    mock.left = Some(left - 1);
                }
                return (mock.status, mock.retry_after.clone(), mock.answer.clone());
            }
        }
        (404, None, String::new())
    }

    fn send(&mut self, client: &ScalewayClient, request: &ApiRequest) -> Result<String, AppError> {
        let mut retry = RetryState::new();
        loop {
            let (code, retry_after, body) = self.lookup(request);
            match retry.next_step(SendEvent::Status { code, retry_after }) {
                SendStep::Accept => return Ok(body),
                SendStep::Refuse => return Err(client.map_api_error(code, body)),
                SendStep::Sleep { seconds, millis } => {
                    assert!(millis < 4100);
                    self.slept_secs += seconds;
                }
                SendStep::Fail(e) => return Err(e),
            }
        }
    }
}

// ---------------------------------------------------------------- reading the answers

fn text(value: &Value, key: &str) -> String {
    value[key].as_str().unwrap_or("").to_string()
}

fn maybe(value: &Value, key: &str) -> Option<String> {
    value[key].as_str().map(|s| s.to_string())
}

fn parsed(answer: Result<String, AppError>) -> Result<Value, AppError> {
    match answer {
        Ok(body) => {
            serde_json::from_str::<Value>(&body).map_err(|e| AppError::Serde(e.to_string()))
        }
        Err(e) => Err(e),
    }
}

fn read_server(value: &Value) -> ServerResponse {
    let s = &value["server"];
    let mut volumes = Vec::new();
    if let Some(map) = s["volumes"].as_object() {
        for (slot, v) in map {
            volumes.push((
                slot.clone(),
                ServerVolumeDetail {
                    id: text(v, "id"),
                    name: maybe(v, "name"),
                    volume_type: text(v, "volume_type"),
                },
            ));
        }
    }
    ServerResponse {
        server: Server {
            id: text(s, "id"),
            name: text(s, "name"),
            state: text(s, "state"),
            public_ip: s["public_ip"].as_object().map(|_| ServerPublicIp {
                id: text(&s["public_ip"], "id"),
                address: text(&s["public_ip"], "address"),
            }),
            volumes,
        },
    }
}

fn read_volume(v: &Value) -> Volume {
    Volume {
        id: text(v, "id"),
        name: text(v, "name"),
        status: text(v, "status"),
        project_id: text(v, "project_id"),
        zone: text(v, "zone"),
        snapshot_id: maybe(v, "snapshot_id"),
    }
}

fn read_ip(value: &Value) -> IpResponse {
    let ip = &value["ip"];
    IpResponse {
        ip: InstanceIp {
            id: text(ip, "id"),
            address: text(ip, "address"),
            project: text(ip, "project"),
            zone: text(ip, "zone"),
            server: ip["server"].as_object().map(|_| ServerRef {
                id: text(&ip["server"], "id"),
                name: text(&ip["server"], "name"),
            }),
        },
    }
}

fn read_snapshot(v: &Value) -> Snapshot {
    Snapshot {
        id: text(v, "id"),
        name: text(v, "name"),
        status: text(v, "status"),
        size: v["size"].as_u64().unwrap_or(0),
        project_id: text(v, "project_id"),
        zone: text(v, "zone"),
    }
}

fn read_products(v: &Value) -> ServerTypesResponse {
    let mut servers = Vec::new();
    if let Some(map) = v["servers"].as_object() {
        for (name, details) in map {
            let limit = &details["volumes_constraint"];
            servers.push((
                name.clone(),
                ServerTypeDetails {
                    volumes_constraint: limit.as_object().map(|_| VolumesConstraint {
                        min_size: limit["min_size"].as_u64().unwrap_or(0),
                        max_size: limit["max_size"].as_u64().unwrap_or(0),
                    }),
                    arch: maybe(details, "arch"),
                },
            ));
        }
    }
    ServerTypesResponse { servers }
}

fn read_answer(call: &Call, answer: Result<String, AppError>) -> Answer {
    match call {
        Call::GetSnapshot { .. } => Answer::Snapshot(parsed(answer).map(|v| read_snapshot(&v))),
        Call::GetServer { .. }
        | Call::CreateInstance { .. }
        | Call::WaitRunning { .. }
        | Call::WaitStopped { .. } => Answer::Server(parsed(answer).map(|v| read_server(&v))),
        Call::GetVolume { .. } => Answer::Volume(parsed(answer).map(|v| read_volume(&v))),
        Call::GetPublicIp { .. } | Call::AllocateIp { .. } => {
            Answer::Ip(parsed(answer).map(|v| read_ip(&v)))
        }
        Call::ListProducts => Answer::Products(parsed(answer).map(|v| read_products(&v))),
        _ => Answer::Plain(answer.map(|_| ())),
    }
}

// ---------------------------------------------------------------- carrying calls out

fn wait_for_model(api: &mut FakeApi, config: &Config, call: &Call) -> Reply {
    let (ip, timeout_secs, poll_secs) = match call {
        Call::WaitNemotron { ip_address, timeout_secs, poll_secs } => {
            (ip_address.clone(), *timeout_secs, *poll_secs)
        }
        _ => unreachable!(),
    };
    let client = NemotronClient::new(
        ip,
        config.nemotron.port,
        config.nemotron.api_key.clone(),
        config.nemotron.model.clone(),
        config.timeouts.inference_timeout_seconds,
    );
    let mut elapsed: u128 = 0;
    loop {
        if let Err(e) = client.ready_check(timeout_secs, elapsed) {
            return Reply::Done(Err(e));
        }
        let look = ApiRequest::bare(ApiMethod::Get, MODELS.to_string());
        let (code, _, body) = api.lookup(&look);
        match client.wait_for_ready_with_progress(ReadyEvent::Answer { code, body }) {
            ReadyStep::Ready => return Reply::Done(Ok(())),
            ReadyStep::Fail(e) => return Reply::Done(Err(e)),
            ReadyStep::Again(message) => {
                api.reports.push((80, message));
                elapsed += poll_secs as u128 * 1_000_000_000;
            }
        }
    }
}

fn carry_out(api: &mut FakeApi, client: &ScalewayClient, config: &Config, call: &Call) -> Reply {
    match call {
        Call::SaveState => {
            api.saves += 1;
            api.record_exists = true;
            return Reply::Done(Ok(()));
        }
        Call::RemoveState => {
            api.record_exists = false;
            return Reply::Done(Ok(()));
        }
        Call::Report { percent, message } => {
            api.reports.push((*percent, message.clone()));
            return Reply::Done(Ok(()));
        }
        Call::WaitNemotron { .. } => return wait_for_model(api, config, call),
        _ => {}
    }
    let mut elapsed: u128 = 0;
    let mut attempts: u32 = 0;
    loop {
        let request = match client.next_request(call, elapsed) {
            Some(Ok(request)) => request,
            Some(Err(e)) => return failed_reply(call, e),
            None => unreachable!(),
        };
        attempts += 1;
        let answer = api.send(client, &request);
        match client.settle(call, attempts, read_answer(call, answer)) {
            Settled::Reply(reply) => return reply,
            Settled::Again { wait_secs } => elapsed += wait_secs as u128 * 1_000_000_000,
        }
    }
}

fn provision(
    api: &mut FakeApi,
    client: &ScalewayClient,
    config: &Config,
    state: State,
) -> (State, Result<String, AppError>) {
    let mut run = EnsureRun::provision_resources(client, config, state);
    loop {
        match run.pending() {
            Some(call) => {
                let reply = carry_out(api, client, config, &call);
                run = run.advance(reply);
            }
            None => match run.phase {
                EnsurePhase::Done { state, result } => return (state, result),
                _ => unreachable!(),
            },
        }
    }
}

fn clean_up(
    api: &mut FakeApi,
    client: &ScalewayClient,
    config: &Config,
    state: State,
) -> (State, Result<CleanupReport, AppError>) {
    let mut run = CleanupRun::cleanup_failed_attempt(config, state);
    while let Some(call) = run.pending() {
        let reply = carry_out(api, client, config, &call);
        run.resume(&reply);
    }
    let outcome = run.outcome().unwrap();
    (run.state, outcome)
}

fn single(
    api: &mut FakeApi,
    client: &ScalewayClient,
    config: &Config,
    call: Call,
) -> Reply {
    carry_out(api, client, config, &call)
}

// ---------------------------------------------------------------- what the sessions share

fn mock_config(gpu_types: Option<Vec<String>>) -> Config {
    Config {
        scaleway: ScalewayConfig {
            access_key: "SCW123".to_string(),
            secret_key: SecretText::new("secret".to_string()),
            project_id: "00000000-0000-0000-0000-000000000000".to_string(),
            organization_id: "00000000-0000-0000-0000-000000000000".to_string(),
            zone: "fr-par-2".to_string(),
        },
        instance: InstanceConfig {
            name: "nemotron-l40s".to_string(),
            instance_type: "L40S-1-48G".to_string(),
            snapshot_id: "1b552e81-401d-4c15-b0b2-3c89e2d46c28".to_string(),
            public_ip: "new".to_string(),
            gpu_types,
        },
        nemotron: NemotronConfig {
            port: 8330,
            api_key: SecretText::new("key".to_string()),
            model: "model".to_string(),
            max_tokens: 10,
            temperature_bits: 0.7f32.to_bits(),
            system_prompt: "prompt".to_string(),
        },
        timeouts: TimeoutsConfig {
            instance_creation_seconds: 5,
            instance_poll_interval_seconds: 1,
            nemotron_startup_seconds: 5,
            nemotron_poll_interval_seconds: 1,
            cleanup_timeout_seconds: 5,
            cleanup_poll_interval_seconds: 1,
            inference_timeout_seconds: 300,
        },
        logging: LoggingConfig { verbose: false },
    }
}

fn fallback_config() -> Config {
    mock_config(Some(vec![
        "L40S-1-48G".to_string(),
        "L40S-2-48G".to_string(),
        "H100-1-80G".to_string(),
    ]))
}

fn fresh_state(config: &Config) -> State {
    State::new(config.instance.snapshot_id.clone(), config.scaleway.zone.clone())
}

fn mock_account(api: &mut FakeApi) {
    api.on(GET, SERVERS, 200, r#"{"servers": []}"#);
}

fn mock_snapshot(api: &mut FakeApi, size: u64) {
    let body = format!(
        r#"{{"id": "1b552e81-401d-4c15-b0b2-3c89e2d46c28", "name": "snap", "status": "ready",
            "size": {}, "project_id": "00000000-0000-0000-0000-000000000000", "zone": "fr-par-2"}}"#,
        size
    );
    api.on(GET, SNAPSHOT_PATH, 200, &body);
}

fn mock_products(api: &mut FakeApi, h100_min: u64, h100_max: u64) {
    let body = format!(
        r#"{{"servers": {{
            "L40S-1-48G": {{"volumes_constraint": {{"min_size": 500, "max_size": 2000}}}},
            "L40S-2-48G": {{"volumes_constraint": {{"min_size": 500, "max_size": 2000}}}},
            "H100-1-80G": {{"volumes_constraint": {{"min_size": {}, "max_size": {}}}}}
        }}}}"#,
        h100_min, h100_max
    );
    api.on(GET, PRODUCTS, 200, &body);
}

fn mock_model_ready(api: &mut FakeApi) {
    api.on(
        GET,
        MODELS,
        200,
        r#"{"object": "list", "data": [{"id": "model", "object": "model", "created": 1686880000,
            "owned_by": "organization"}]}"#,
    );
}

fn setup_common_mocks(api: &mut FakeApi) {
    mock_account(api);
    mock_snapshot(api, 1000);
    mock_products(api, 500, 2000);
    mock_model_ready(api);
}

fn server_body(id: &str, state: &str, volume: &str) -> String {
    format!(
        r#"{{"server": {{"id": "{}", "name": "nemotron-l40s", "state": "{}", "public_ip": null,
            "volumes": {{"0": {{"id": "{}", "name": "volume-1", "volume_type": "sbs_volume"}}}}}}}}"#,
        id, state, volume
    )
}

fn volume_body(id: &str) -> String {
    format!(
        r#"{{"id": "{}", "name": "vol", "status": "available",
            "snapshot_id": "1b552e81-401d-4c15-b0b2-3c89e2d46c28",
            "project_id": "00000000-0000-0000-0000-000000000000", "zone": "fr-par-2"}}"#,
        id
    )
}

fn ip_body(id: &str, server: Option<&str>) -> String {
    let attached = match server {
        Some(s) => format!(r#"{{"id": "{}", "name": "nemotron-l40s"}}"#, s),
        None => "null".to_string(),
    };
    format!(
        r#"{{"ip": {{"id": "{}", "address": "127.0.0.1",
            "project": "00000000-0000-0000-0000-000000000000", "zone": "fr-par-2",
            "server": {}}}}}"#,
        id, attached
    )
}

const OUT_OF_STOCK: &str = r#"{"message": "out of stock capacity", "type": "out_of_stock"}"#;

/// Everything that one attempt needs to come up.
fn mock_attempt(api: &mut FakeApi, instance: &str, volume: &str, ip: &str) {
    api.on(POST, SERVERS, 200, &server_body(instance, "stopped", volume));
    api.on(GET, &volume_at(volume), 200, &volume_body(volume));
    api.on(POST, &action_at(instance), 200, "{}");
    api.on(GET, &server_at(instance), 200, &server_body(instance, "running", volume));
    api.on(POST, IPS, 200, &ip_body(ip, None));
    api.on(PATCH, &ip_at(ip), 200, &ip_body(ip, Some(instance)));
    api.on(GET, &ip_at(ip), 200, &ip_body(ip, Some(instance)));
}

// ---------------------------------------------------------------- single calls

#[test]
fn test_cleanup_safety_invariants() {
    let config = mock_config(None);
    let client = ScalewayClient::new(&config);
    let snapshot_id = &config.instance.snapshot_id;

    let delete_vol_res = client.delete_volume(snapshot_id, snapshot_id);
    assert!(matches!(delete_vol_res, Err(AppError::SafetyViolation(_))));

    let delete_inst_res = client.delete_instance(snapshot_id, snapshot_id);
    assert!(matches!(delete_inst_res, Err(AppError::SafetyViolation(_))));

    let delete_ip_res = client.delete_public_ip(snapshot_id, snapshot_id);
    assert!(matches!(delete_ip_res, Err(AppError::SafetyViolation(_))));
}

#[test]
fn test_mock_provisioning_and_cleanup() {
    let mut api = FakeApi::new();
    let config = mock_config(None);
    let client = ScalewayClient::new(&config);

    api.on(GET, SERVERS, 200, r#"{"servers": []}"#).query = Some((
        "project".to_string(),
        "00000000-0000-0000-0000-000000000000".to_string(),
    ));
    mock_snapshot(&mut api, 100000000000);
    api.on(
        GET,
        PRODUCTS,
        200,
        r#"{"servers": {"L40S-1-48G": {"name": "L40S-1-48G",
            "volumes_constraint": {"min_size": 1000000000, "max_size": 1000000000000}}}}"#,
    );

    assert!(matches!(
        single(&mut api, &client, &config, Call::ValidateAuth),
        Reply::Done(Ok(()))
    ));
    let snapshot = single(
        &mut api,
        &client,
        &config,
        Call::GetSnapshot { snapshot_id: "1b552e81-401d-4c15-b0b2-3c89e2d46c28".to_string() },
    );
    match snapshot {
        Reply::Snapshot(Ok(s)) => assert_eq!(s.status, "ready"),
        other => panic!("{:?}", other),
    }
    match single(&mut api, &client, &config, Call::ListProducts) {
        Reply::Products(outcome) => {
            assert!(client.validate_instance_type_available("L40S-1-48G", outcome).is_ok())
        }
        other => panic!("{:?}", other),
    }
}

#[test]
fn test_client_retry_on_transient_error() {
    let mut api = FakeApi::new();
    let config = mock_config(None);
    let client = ScalewayClient::new(&config);

    let first = api.on(GET, SERVERS, 429, "");
    first.retry_after = Some("1".to_string());
    first.left = Some(1);
    api.times(GET, SERVERS, 500, "", 1);
    api.on(GET, SERVERS, 200, r#"{"servers": []}"#);

    let reply = single(&mut api, &client, &config, Call::ValidateAuth);
    assert!(matches!(reply, Reply::Done(Ok(()))));
    assert_eq!(api.count(GET, SERVERS), 3);
    assert!(api.slept_secs >= 1);
}

#[test]
fn test_ip_attachment_success() {
    let mut api = FakeApi::new();
    let config = mock_config(None);
    let client = ScalewayClient::new(&config);
    let ip_id = "eb41297e-e814-4887-a284-d88509b06318";
    let server_id = "17de9180-4edf-4fc4-8084-90e2e7b31c8c";

    api.on(PATCH, &ip_at(ip_id), 200, &ip_body(ip_id, Some(server_id))).body = Some(
        serde_json::from_str(&format!(r#"{{"server": "{}"}}"#, server_id)).unwrap(),
    );
    api.on(GET, &ip_at(ip_id), 200, &ip_body(ip_id, Some(server_id)));

    let attached = single(
        &mut api,
        &client,
        &config,
        Call::AttachIp { ip_id: ip_id.to_string(), server_id: server_id.to_string() },
    );
    assert!(matches!(attached, Reply::Done(Ok(()))));

    match single(&mut api, &client, &config, Call::GetPublicIp { ip_id: ip_id.to_string() }) {
        Reply::Ip(Ok(ip)) => assert_eq!(ip.server.unwrap().id, server_id),
        other => panic!("{:?}", other),
    }
}

#[test]
fn test_ip_missing_404() {
    let mut api = FakeApi::new();
    let config = mock_config(None);
    let client = ScalewayClient::new(&config);
    let ip_id = "eb41297e-e814-4887-a284-d88509b06318";
    api.on(
        GET,
        &ip_at(ip_id),
        404,
        r#"{"message": "IP not found", "type": "resource_not_found"}"#,
    );
    match single(&mut api, &client, &config, Call::GetPublicIp { ip_id: ip_id.to_string() }) {
        Reply::Ip(Err(e)) => assert!(e.to_string().contains("resource_not_found")),
        other => panic!("{:?}", other),
    }
}

#[test]
fn test_instance_missing_404() {
    let mut api = FakeApi::new();
    let config = mock_config(None);
    let client = ScalewayClient::new(&config);
    let server_id = "17de9180-4edf-4fc4-8084-90e2e7b31c8c";
    api.on(
        GET,
        &server_at(server_id),
        404,
        r#"{"message": "Server not found", "type": "resource_not_found"}"#,
    );
    let call = Call::GetServer { server_id: server_id.to_string() };
    match single(&mut api, &client, &config, call) {
        Reply::Server(Err(e)) => assert!(e.to_string().contains("resource_not_found")),
        other => panic!("{:?}", other),
    }
}

#[test]
fn test_ip_attachment_http_400_malformed() {
    let mut api = FakeApi::new();
    let config = mock_config(None);
    let client = ScalewayClient::new(&config);
    let ip_id = "eb41297e-e814-4887-a284-d88509b06318";
    let server_id = "17de9180-4edf-4fc4-8084-90e2e7b31c8c";
    api.on(
        PATCH,
        &ip_at(ip_id),
        400,
        r#"{"message": "Validation error", "type": "invalid_arguments", "details": [
            {"argument_name": "address", "reason": "required",
             "help_message": "Address is a required field"},
            {"argument_name": "id", "reason": "required"}]}"#,
    );
    let call = Call::AttachIp { ip_id: ip_id.to_string(), server_id: server_id.to_string() };
    match single(&mut api, &client, &config, call) {
        Reply::Done(Err(e)) => {
            let err_msg = e.to_string();
            assert!(err_msg.contains("invalid_arguments:"));
            assert!(err_msg.contains(
                "- argument_name: address\n  reason: required\n  help_message: Address is a required field"
            ));
            assert!(err_msg.contains("- argument_name: id\n  reason: required"));
        }
        other => panic!("{:?}", other),
    }
}

#[test]
fn test_ip_attachment_http_409_conflict() {
    let mut api = FakeApi::new();
    let config = mock_config(None);
    let client = ScalewayClient::new(&config);
    let ip_id = "eb41297e-e814-4887-a284-d88509b06318";
    let server_id = "17de9180-4edf-4fc4-8084-90e2e7b31c8c";
    api.on(
        PATCH,
        &ip_at(ip_id),
        409,
        r#"{"message": "IP is already attached to another server", "type": "conflict"}"#,
    );
    let call = Call::AttachIp { ip_id: ip_id.to_string(), server_id: server_id.to_string() };
    match single(&mut api, &client, &config, call) {
        Reply::Done(Err(e)) => {
            assert!(e.to_string().contains("API Error (status 409 Conflict)"));
        }
        other => panic!("{:?}", other),
    }
}

// ---------------------------------------------------------------- sessions

#[test]
fn test_provision_resume_no_duplicate_resources() {
    let mut api = FakeApi::new();
    let config = mock_config(None);
    let client = ScalewayClient::new(&config);

    let mut state = fresh_state(&config);
    let old_server = "17de9180-4edf-4fc4-8084-90e2e7b31c8c";
    let old_volume = "4659a41e-d227-4de5-9d01-99db0a579d8b";
    let old_ip = "eb41297e-e814-4887-a284-d88509b06318";
    state.volume_id = Some(old_volume.to_string());
    state.public_ip_id = Some(old_ip.to_string());
    state.instance_id = Some(old_server.to_string());

    mock_account(&mut api);
    mock_snapshot(&mut api, 100000000000);
    api.on(
        GET,
        PRODUCTS,
        200,
        r#"{"servers": {"L40S-1-48G": {"volumes_constraint": {"min_size": 1000000000,
            "max_size": 1000000000000}}}}"#,
    );
    api.on(GET, &server_at(old_server), 404, NOT_FOUND);
    api.on(POST, &action_at(old_server), 200, "{}");
    api.on(DELETE, &server_at(old_server), 200, "{}");
    api.on(GET, &volume_at(old_volume), 404, NOT_FOUND);
    api.on(DELETE, &volume_at(old_volume), 200, "{}");
    api.on(GET, &ip_at(old_ip), 404, NOT_FOUND);
    api.on(DELETE, &ip_at(old_ip), 200, "{}");

    mock_attempt(
        &mut api,
        "99999999-4edf-4fc4-8084-90e2e7b31c8c",
        "88888888-d227-4de5-9d01-99db0a579d8b",
        "77777777-e814-4887-a284-d88509b06318",
    );
    mock_model_ready(&mut api);

    let (state, res) = provision(&mut api, &client, &config, state);
    assert_eq!(res.unwrap(), "127.0.0.1");
    assert_eq!(state.volume_id.unwrap(), "88888888-d227-4de5-9d01-99db0a579d8b");
    assert_eq!(state.public_ip_id.unwrap(), "77777777-e814-4887-a284-d88509b06318");
    assert_eq!(state.instance_id.unwrap(), "99999999-4edf-4fc4-8084-90e2e7b31c8c");
    assert_eq!(api.count(POST, SERVERS), 1);
    assert_eq!(api.count(POST, IPS), 1);
}

fn resumable_state(config: &Config) -> State {
    let mut state = fresh_state(config);
    state.volume_id = Some("4659a41e-d227-4de5-9d01-99db0a579d8b".to_string());
    state.public_ip_id = Some("eb41297e-e814-4887-a284-d88509b06318".to_string());
    state.public_ip_address = Some("127.0.0.1".to_string());
    state.instance_id = Some("17de9180-4edf-4fc4-8084-90e2e7b31c8c".to_string());
    state.phase = ProvisioningPhase::Ready;
    state
}

fn mock_resumable(api: &mut FakeApi, attached_to: &str) {
    mock_account(api);
    mock_snapshot(api, 1000);
    api.on(GET, PRODUCTS, 200, r#"{"servers": {"L40S-1-48G": {}}}"#);
    let volume = "4659a41e-d227-4de5-9d01-99db0a579d8b";
    api.on(GET, &volume_at(volume), 200, &volume_body(volume));
    let server = "17de9180-4edf-4fc4-8084-90e2e7b31c8c";
    api.on(GET, &server_at(server), 200, &server_body(server, "running", volume));
    let ip = "eb41297e-e814-4887-a284-d88509b06318";
    api.on(GET, &ip_at(ip), 200, &ip_body(ip, Some(attached_to)));
}

#[test]
fn test_ip_already_attached_to_target() {
    let mut api = FakeApi::new();
    let config = mock_config(None);
    let client = ScalewayClient::new(&config);
    mock_resumable(&mut api, "17de9180-4edf-4fc4-8084-90e2e7b31c8c");
    let (_, res) = provision(&mut api, &client, &config, resumable_state(&config));
    assert_eq!(res.unwrap(), "127.0.0.1");
    assert_eq!(api.reports, vec![(100, "Resumed existing running session.".to_string())]);
    assert_eq!(api.count(POST, SERVERS), 0);
}

#[test]
fn test_ip_attached_to_another_instance() {
    let mut api = FakeApi::new();
    let config = mock_config(None);
    let client = ScalewayClient::new(&config);
    mock_resumable(&mut api, "different-server-uuid");
    let (_, res) = provision(&mut api, &client, &config, resumable_state(&config));
    let err_msg = res.unwrap_err().to_string();
    assert!(err_msg.contains("Conflicting attachment"));
}

#[test]
fn test_direct_snapshot_provisioning_flow() {
    let mut api = FakeApi::new();
    let mut config = mock_config(None);
    let client = ScalewayClient::new(&config);
    let state = fresh_state(&config);

    mock_model_ready(&mut api);
    mock_account(&mut api);
    mock_snapshot(&mut api, 1000);
    api.on(GET, PRODUCTS, 200, r#"{"servers": {"L40S-1-48G": {}}}"#);
    mock_attempt(
        &mut api,
        "17de9180-4edf-4fc4-8084-90e2e7b31c8c",
        "4659a41e-d227-4de5-9d01-99db0a579d8b",
        "eb41297e-e814-4887-a284-d88509b06318",
    );

    config.timeouts.nemotron_startup_seconds = 2;
    config.timeouts.instance_creation_seconds = 2;
    config.timeouts.cleanup_timeout_seconds = 2;

    let (state, res) = provision(&mut api, &client, &config, state);
    assert_eq!(res.unwrap(), "127.0.0.1");
    assert_eq!(state.version, 4);
    assert_eq!(state.creation_mode, Some("snapshot_direct".to_string()));
    assert_eq!(state.volume_id, Some("4659a41e-d227-4de5-9d01-99db0a579d8b".to_string()));
    assert_eq!(state.instance_id, Some("17de9180-4edf-4fc4-8084-90e2e7b31c8c".to_string()));
    assert_eq!(state.public_ip_id, Some("eb41297e-e814-4887-a284-d88509b06318".to_string()));
    assert_eq!(state.phase, ProvisioningPhase::Ready);
    assert_eq!(
        api.reports,
        vec![
            (15, "Checking compatibility for L40S-1-48G...".to_string()),
            (20, "Provisioning L40S-1-48G...".to_string()),
            (100, "Successfully provisioned GPU instance.".to_string()),
        ]
    );
}

fn legacy_state(
    config: &Config,
    attempt_id: &str,
    instance_id: Option<&str>,
    volume_id: Option<&str>,
) -> State {
    State {
        version: 1,
        phase: ProvisioningPhase::Ready,
        creation_mode: None,
        attempt_id: attempt_id.to_string(),
        selected_gpu_type: "L40S-1-48G".to_string(),
        instance_id: instance_id.map(|s| s.to_string()),
        volume_id: volume_id.map(|s| s.to_string()),
        public_ip_id: None,
        public_ip_address: None,
        snapshot_id: config.instance.snapshot_id.clone(),
        zone: config.scaleway.zone.clone(),
        attempted_gpu_types: vec!["L40S-1-48G".to_string()],
        created_at: "2026-01-01T00:00:00+00:00".to_string(),
    }
}

fn identity(attempt_id: &str) -> Identity {
    Identity {
        attempt_id: attempt_id.to_string(),
        created_at: "2026-02-02T00:00:00+00:00".to_string(),
    }
}

#[test]
fn an_older_record_keeps_what_it_holds() {
    let config = mock_config(None);
    let mut old = legacy_state(&config, "", Some("i"), Some("v"));
    old.public_ip_id = Some("p".to_string());
    old.selected_gpu_type = String::new();
    old.attempted_gpu_types = vec![];
    let current = upgrade(old, identity("attempt-first"));
    assert_eq!(current.version, 4);
    assert_eq!(current.attempt_id, "attempt-first");
    assert_eq!(current.instance_id, Some("i".to_string()));
    assert_eq!(current.volume_id, Some("v".to_string()));
    assert_eq!(current.public_ip_id, Some("p".to_string()));
    assert_eq!(current.selected_gpu_type, "L40S-1-48G");
    assert_eq!(current.attempted_gpu_types, vec!["L40S-1-48G"]);
    assert_eq!(current.created_at, "2026-01-01T00:00:00+00:00");

    let again = upgrade(current, identity("attempt-second"));
    assert_eq!(again.attempt_id, "attempt-first");
    assert_eq!(again.instance_id, Some("i".to_string()));
}

#[test]
fn test_legacy_state_migration_success() {
    let mut api = FakeApi::new();
    let config = mock_config(None);
    let client = ScalewayClient::new(&config);
    let mut state = legacy_state(
        &config,
        "eb41297e-e814-4887-a284-d88509b06318",
        Some("17de9180-4edf-4fc4-8084-90e2e7b31c8c"),
        None,
    );
    state.public_ip_id = Some("eb41297e-e814-4887-a284-d88509b06318".to_string());
    state.public_ip_address = Some("127.0.0.1".to_string());
    mock_resumable(&mut api, "17de9180-4edf-4fc4-8084-90e2e7b31c8c");

    let (state, res) = provision(&mut api, &client, &config, state);
    assert_eq!(res.unwrap(), "127.0.0.1");
    assert_eq!(state.version, 4);
    assert_eq!(state.creation_mode, Some("snapshot_direct".to_string()));
    assert_eq!(state.volume_id, Some("4659a41e-d227-4de5-9d01-99db0a579d8b".to_string()));
}

#[test]
fn test_legacy_state_rejection_no_instance() {
    let config = mock_config(None);
    let client = ScalewayClient::new(&config);
    let volume = "4659a41e-d227-4de5-9d01-99db0a579d8b";
    let attempt = "eb41297e-e814-4887-a284-d88509b06318";
    let states = vec![
        legacy_state(&config, attempt, None, Some(volume)),
        legacy_state(&config, attempt, Some("non-existent-instance-id"), Some(volume)),
    ];
    for state in states {
        let mut api = FakeApi::new();
        mock_account(&mut api);
        mock_snapshot(&mut api, 1000);
        api.on(GET, PRODUCTS, 200, r#"{"servers": {"L40S-1-48G": {}}}"#);
        api.on(
            GET,
            &server_at("non-existent-instance-id"),
            404,
            r#"{"message": "Server not found", "type": "resource_not_found"}"#,
        );
        let (state, res) = provision(&mut api, &client, &config, state);
        let err = res.unwrap_err().to_string();
        assert!(err.contains("Instance creation failed") || err.contains("API Error"));
        assert_eq!(state.phase, ProvisioningPhase::CleaningUp);
        assert_eq!(state.instance_id, None);
        assert_eq!(state.volume_id, None);
    }
}

#[test]
fn test_fallback_l40s_1_succeeds() {
    let mut api = FakeApi::new();
    setup_common_mocks(&mut api);
    let config = fallback_config();
    let client = ScalewayClient::new(&config);
    mock_attempt(&mut api, "instance-l40s-1", "vol-l40s-1", "ip-l40s-1");

    let (state, res) = provision(&mut api, &client, &config, fresh_state(&config));
    assert_eq!(res.unwrap(), "127.0.0.1");
    assert_eq!(state.selected_gpu_type, "L40S-1-48G");
    assert_eq!(api.count(POST, SERVERS), 1);
}

#[test]
fn test_fallback_l40s_1_out_of_stock_l40s_2_succeeds() {
    let mut api = FakeApi::new();
    setup_common_mocks(&mut api);
    let config = fallback_config();
    let client = ScalewayClient::new(&config);
    api.times(POST, SERVERS, 412, OUT_OF_STOCK, 1);
    mock_attempt(&mut api, "instance-l40s-2", "vol-l40s-2", "ip-l40s-2");

    let (state, res) = provision(&mut api, &client, &config, fresh_state(&config));
    assert_eq!(res.unwrap(), "127.0.0.1");
    assert_eq!(state.selected_gpu_type, "L40S-2-48G");
}

#[test]
fn test_fallback_l40s_1_and_2_out_of_stock_h100_succeeds() {
    let mut api = FakeApi::new();
    setup_common_mocks(&mut api);
    let config = fallback_config();
    let client = ScalewayClient::new(&config);
    api.times(POST, SERVERS, 412, OUT_OF_STOCK, 2);
    mock_attempt(&mut api, "instance-h100", "vol-h100", "ip-h100");

    let (state, res) = provision(&mut api, &client, &config, fresh_state(&config));
    assert_eq!(res.unwrap(), "127.0.0.1");
    assert_eq!(state.selected_gpu_type, "H100-1-80G");
}

#[test]
fn test_fallback_all_out_of_stock() {
    let mut api = FakeApi::new();
    setup_common_mocks(&mut api);
    let config = fallback_config();
    let client = ScalewayClient::new(&config);
    api.on(POST, SERVERS, 412, OUT_OF_STOCK);

    let (_, res) = provision(&mut api, &client, &config, fresh_state(&config));
    assert!(matches!(res.unwrap_err(), AppError::NoCompatibleGpuAvailable { .. }));
    assert_eq!(api.count(POST, SERVERS), 3);
}

#[test]
fn test_h100_skipped_volume_compatibility() {
    let mut api = FakeApi::new();
    mock_account(&mut api);
    mock_snapshot(&mut api, 1000);
    mock_products(&mut api, 5000, 10000);
    let config = fallback_config();
    let client = ScalewayClient::new(&config);
    api.on(POST, SERVERS, 412, OUT_OF_STOCK);

    let (_, res) = provision(&mut api, &client, &config, fresh_state(&config));
    match res.unwrap_err() {
        AppError::NoCompatibleGpuAvailable { attempted, .. } => {
            assert_eq!(attempted, vec!["L40S-1-48G", "L40S-2-48G", "H100-1-80G"]);
        }
        other => panic!("Expected NoCompatibleGpuAvailable, got {:?}", other),
    }
    assert_eq!(api.count(POST, SERVERS), 2);
}

#[test]
fn test_product_offered_not_live_capacity() {
    let mut api = FakeApi::new();
    setup_common_mocks(&mut api);
    let config = fallback_config();
    let client = ScalewayClient::new(&config);
    api.on(POST, SERVERS, 412, OUT_OF_STOCK);

    let (_, res) = provision(&mut api, &client, &config, fresh_state(&config));
    assert!(matches!(res.unwrap_err(), AppError::NoCompatibleGpuAvailable { .. }));
}

#[test]
fn test_reconciliation_powered_off_deleted() {
    let mut api = FakeApi::new();
    setup_common_mocks(&mut api);
    let config = fallback_config();
    let client = ScalewayClient::new(&config);
    let mut state = fresh_state(&config);
    state.instance_id = Some("failed-inst-id".to_string());
    state.phase = ProvisioningPhase::PoweringOn;

    api.times(
        GET,
        &server_at("failed-inst-id"),
        200,
        r#"{"server": {"id": "failed-inst-id", "name": "failed-inst", "state": "stopped",
            "volumes": {}}}"#,
        1,
    );
    api.on(DELETE, &server_at("failed-inst-id"), 200, "{}");
    api.on(GET, &server_at("failed-inst-id"), 404, NOT_FOUND);
    api.on(POST, SERVERS, 412, OUT_OF_STOCK);

    let (state, res) = provision(&mut api, &client, &config, state);
    assert!(res.is_err());
    assert_eq!(state.instance_id, None);
    assert_eq!(api.count(DELETE, &server_at("failed-inst-id")), 1);
    assert_eq!(
        api.reports[0],
        (10, "Cleaning up incomplete session from previous run...".to_string())
    );
}

#[test]
fn test_reconciliation_stopped_old_state_cleaned() {
    let mut api = FakeApi::new();
    setup_common_mocks(&mut api);
    let config = fallback_config();
    let client = ScalewayClient::new(&config);
    let state = legacy_state(&config, "attempt-1", Some("old-stopped-id"), None);

    api.times(
        GET,
        &server_at("old-stopped-id"),
        200,
        r#"{"server": {"id": "old-stopped-id", "name": "old-stopped", "state": "stopped",
            "volumes": {}}}"#,
        1,
    );
    api.on(DELETE, &server_at("old-stopped-id"), 200, "{}");
    api.on(GET, &server_at("old-stopped-id"), 404, NOT_FOUND);
    api.on(POST, SERVERS, 412, OUT_OF_STOCK);

    let (state, res) = provision(&mut api, &client, &config, state);
    assert!(res.is_err());
    assert_eq!(state.instance_id, None);
    assert_eq!(state.version, 4);
}

/// An attempt whose parts are all removed again without complaint.
fn mock_removal(api: &mut FakeApi, instance: &str, volume: &str) {
    api.on(DELETE, &server_at(instance), 200, "{}");
    api.on(GET, &server_at(instance), 404, NOT_FOUND);
    api.on(DELETE, &volume_at(volume), 200, "{}");
    api.on(GET, &volume_at(volume), 404, NOT_FOUND);
}

#[test]
fn test_boot_volume_deleted_after_failed_power_on() {
    let mut api = FakeApi::new();
    setup_common_mocks(&mut api);
    let config = fallback_config();
    let client = ScalewayClient::new(&config);
    let (instance, volume) = ("inst-poweron-fail", "vol-poweron-fail");

    api.on(POST, SERVERS, 200, &server_body(instance, "stopped", volume));
    api.times(GET, &volume_at(volume), 200, &volume_body(volume), 1);
    api.on(POST, &action_at(instance), 412, OUT_OF_STOCK);
    mock_removal(&mut api, instance, volume);

    let (state, res) = provision(&mut api, &client, &config, fresh_state(&config));
    assert!(res.is_err());
    assert_eq!(state.instance_id, None);
    assert_eq!(state.volume_id, None);
    assert!(api.count(DELETE, &volume_at(volume)) >= 1);
}

#[test]
fn test_ip_not_allocated_before_running() {
    let mut api = FakeApi::new();
    setup_common_mocks(&mut api);
    let config = fallback_config();
    let client = ScalewayClient::new(&config);
    let (instance, volume) = ("inst-ip-order", "vol-ip-order");

    api.on(POST, SERVERS, 200, &server_body(instance, "stopped", volume));
    api.times(GET, &volume_at(volume), 200, &volume_body(volume), 1);
    api.on(POST, &action_at(instance), 200, "{}");
    api.times(GET, &server_at(instance), 200, &server_body(instance, "starting", volume), 5);
    mock_removal(&mut api, instance, volume);

    let (_, res) = provision(&mut api, &client, &config, fresh_state(&config));
    assert!(res.is_err());
    assert_eq!(api.count(POST, IPS), 0);
}

#[test]
fn test_ip_deleted_after_nemotron_failure() {
    let mut api = FakeApi::new();
    mock_account(&mut api);
    mock_snapshot(&mut api, 1000);
    mock_products(&mut api, 500, 2000);
    api.on(GET, MODELS, 500, "");
    let config = fallback_config();
    let client = ScalewayClient::new(&config);
    let (instance, volume, ip) = ("inst-nemo-fail", "vol-nemo-fail", "ip-nemo-fail");

    api.on(POST, SERVERS, 200, &server_body(instance, "stopped", volume));
    api.times(GET, &volume_at(volume), 200, &volume_body(volume), 1);
    api.on(POST, &action_at(instance), 200, "{}");
    api.times(GET, &server_at(instance), 200, &server_body(instance, "running", volume), 1);
    api.on(POST, IPS, 200, &ip_body(ip, None));
    api.on(PATCH, &ip_at(ip), 200, &ip_body(ip, Some(instance)));
    api.times(GET, &ip_at(ip), 200, &ip_body(ip, Some(instance)), 1);
    api.on(GET, &ip_at(ip), 404, NOT_FOUND);
    api.on(DELETE, &ip_at(ip), 200, "{}");
    mock_removal(&mut api, instance, volume);

    let (state, res) = provision(&mut api, &client, &config, fresh_state(&config));
    assert!(matches!(res, Err(AppError::NemotronStartupTimeout)));
    assert_eq!(state.instance_id, None);
    assert_eq!(state.volume_id, None);
    assert_eq!(state.public_ip_id, None);
    assert_eq!(api.count(DELETE, &ip_at(ip)), 1);
}

#[test]
fn test_snapshot_deletion_api_never_called() {
    let config = fallback_config();
    let client = ScalewayClient::new(&config);
    let snapshot_id = &config.instance.snapshot_id;
    let res1 = client.delete_instance(snapshot_id, snapshot_id);
    assert!(matches!(res1, Err(AppError::SafetyViolation(_))));
    let res2 = client.delete_volume(snapshot_id, snapshot_id);
    assert!(matches!(res2, Err(AppError::SafetyViolation(_))));
    let res3 = client.delete_public_ip(snapshot_id, snapshot_id);
    assert!(matches!(res3, Err(AppError::SafetyViolation(_))));
}

#[test]
fn test_snapshot_verified_after_cleanup() {
    let mut api = FakeApi::new();
    setup_common_mocks(&mut api);
    let config = fallback_config();
    let client = ScalewayClient::new(&config);
    let (_, report) = clean_up(&mut api, &client, &config, fresh_state(&config));
    assert!(report.unwrap().snapshot_preserved);
    assert!(api.count(GET, SNAPSHOT_PATH) >= 1);
}

#[test]
fn test_cleanup_tolerates_absent_resources() {
    let mut api = FakeApi::new();
    mock_account(&mut api);
    mock_snapshot(&mut api, 1000);
    let config = fallback_config();
    let client = ScalewayClient::new(&config);
    let mut state = fresh_state(&config);
    state.instance_id = Some("absent-inst-id".to_string());
    state.volume_id = Some("absent-vol-id".to_string());
    state.public_ip_id = Some("absent-ip-id".to_string());
    api.any(DELETE, 404, NOT_FOUND);
    api.any(GET, 404, NOT_FOUND);

    let (state, cleanup_res) = clean_up(&mut api, &client, &config, state);
    let report = cleanup_res.unwrap();
    assert!(report.instance_deleted);
    assert!(report.volume_deleted);
    assert!(report.ip_deleted);
    assert!(report.snapshot_preserved);
    assert!(!api.record_exists);
    assert_eq!(state.instance_id, None);
}

#[test]
fn test_cleanup_failure_blocks_next_gpu() {
    let mut api = FakeApi::new();
    mock_account(&mut api);
    mock_snapshot(&mut api, 1000);
    mock_products(&mut api, 500, 2000);
    let config = fallback_config();
    let client = ScalewayClient::new(&config);
    let (instance, volume) = ("inst-cleanup-fail", "vol-cleanup-fail");

    api.on(POST, SERVERS, 200, &server_body(instance, "stopped", volume));
    api.times(GET, &volume_at(volume), 200, &volume_body(volume), 1);
    api.on(GET, &volume_at(volume), 404, NOT_FOUND);
    api.on(POST, &action_at(instance), 412, OUT_OF_STOCK);
    api.on(GET, &server_at(instance), 404, NOT_FOUND);
    api.on(DELETE, &server_at(instance), 500, "");

    let (state, res) = provision(&mut api, &client, &config, fresh_state(&config));
    assert!(matches!(
        res.unwrap_err(),
        AppError::CleanupIncomplete(_) | AppError::ApiError(_)
    ));
    assert_eq!(state.attempted_gpu_types, vec!["L40S-1-48G".to_string()]);
    assert_eq!(state.phase, ProvisioningPhase::CleanupIncomplete);
    assert_eq!(state.instance_id, Some(instance.to_string()));
    assert_eq!(api.count(POST, SERVERS), 1);
    assert_eq!(api.count(DELETE, &server_at(instance)), 5);
}

#[test]
fn test_state_cleared_only_after_verified_cleanup() {
    let mut api = FakeApi::new();
    mock_account(&mut api);
    mock_snapshot(&mut api, 1000);
    let config = fallback_config();
    let client = ScalewayClient::new(&config);
    let mut state = fresh_state(&config);
    state.instance_id = Some("inst-state-test".to_string());

    api.on(GET, &server_at("inst-state-test"), 404, NOT_FOUND);
    api.times(DELETE, &server_at("inst-state-test"), 500, "", 5);
    api.on(DELETE, &server_at("inst-state-test"), 200, "{}");

    let (state, first) = clean_up(&mut api, &client, &config, state);
    assert!(first.is_err());
    assert!(api.record_exists);
    match first.unwrap_err() {
        AppError::CleanupIncomplete(m) => assert_eq!(
            m,
            "Cleanup incomplete. State file retained. Existing resources: Instance: Some(\"inst-state-test\"), Volume: None, IP: None"
        ),
        other => panic!("{:?}", other),
    }

    let (_, second) = clean_up(&mut api, &client, &config, state);
    assert!(second.is_ok());
    assert!(!api.record_exists);
}

// ---------------------------------------------------------------- further sessions

#[test]
fn a_refused_removal_is_kept_whatever_the_identifier() {
    let mut api = FakeApi::new();
    mock_account(&mut api);
    mock_snapshot(&mut api, 1000);
    let config = fallback_config();
    let client = ScalewayClient::new(&config);
    let mut state = fresh_state(&config);
    state.instance_id = Some("inst-404".to_string());
    state.volume_id = Some("not_found".to_string());
    state.public_ip_id = Some("404".to_string());
    api.any(DELETE, 500, "");
    api.on(POST, &action_at("inst-404"), 200, "{}");
    api.on(GET, &server_at("inst-404"), 200, &server_body("inst-404", "stopped", "v"));

    let (state, outcome) = clean_up(&mut api, &client, &config, state);
    assert!(matches!(outcome, Err(AppError::CleanupIncomplete(_))));
    assert_eq!(state.instance_id, Some("inst-404".to_string()));
    assert_eq!(state.volume_id, Some("not_found".to_string()));
    assert_eq!(state.public_ip_id, Some("404".to_string()));
    assert_eq!(state.phase, ProvisioningPhase::CleanupIncomplete);
    assert!(api.record_exists);
}

#[test]
fn an_address_comes_after_running_whatever_the_record_holds() {
    let mut api = FakeApi::new();
    let config = fallback_config();
    let client = ScalewayClient::new(&config);
    mock_attempt(&mut api, "i", "v", "p");
    let mut state = fresh_state(&config);
    state.instance_id = Some("old".to_string());
    state.attempt_id = "\u{e9}234567-rest".to_string();
    let mut run = AttemptRun::provision_single_attempt(
        state,
        "base",
        "L40S_1",
        &config.instance.snapshot_id,
        "fr-par-2",
        config.timeouts,
    );
    assert_eq!(run.name, "base-l40s-1-\u{e9}234567");
    let mut running = false;
    let mut asked = false;
    while let Some(call) = run.pending() {
        let reply = carry_out(&mut api, &client, &config, &call);
        running = running
            || matches!((&call, &reply), (Call::WaitRunning { .. }, Reply::Server(Ok(_))));
        if let Call::AllocateIp { .. } = call {
            assert!(running);
            asked = true;
        }
        run.resume(reply);
    }
    assert!(asked);
}

#[test]
fn a_failed_session_leaves_nothing() {
    let mut api = FakeApi::new();
    mock_account(&mut api);
    mock_snapshot(&mut api, 1000);
    mock_products(&mut api, 500, 2000);
    let config = fallback_config();
    let client = ScalewayClient::new(&config);
    api.on(POST, SERVERS, 200, &server_body("i", "stopped", "v"));
    api.times(GET, &volume_at("v"), 200, &volume_body("v"), 1);
    api.on(POST, &action_at("i"), 403, "");
    api.any(DELETE, 200, "{}");

    let (state, outcome) = provision(&mut api, &client, &config, fresh_state(&config));
    assert!(matches!(outcome, Err(AppError::InstanceCreationFailed(_))));
    assert_eq!((state.instance_id, state.volume_id, state.public_ip_id), (None, None, None));
    assert_eq!(api.count(DELETE, &server_at("i")), 1);
    assert_eq!(api.count(DELETE, &volume_at("v")), 1);
}

#[test]
fn a_record_that_names_the_snapshot_is_left_alone() {
    let mut api = FakeApi::new();
    let config = fallback_config();
    let client = ScalewayClient::new(&config);
    let mut state = fresh_state(&config);
    state.volume_id = Some(config.instance.snapshot_id.clone());
    let before = state.clone();
    let (state, outcome) = clean_up(&mut api, &client, &config, state);
    assert!(matches!(outcome, Err(AppError::SafetyViolation(_))));
    assert_eq!(state, before);
    assert!(api.seen.is_empty());
    assert_eq!(api.saves, 0);
}

#[test]
fn a_volume_that_is_still_detaching_is_asked_for_six_times() {
    let mut api = FakeApi::new();
    mock_snapshot(&mut api, 1000);
    let config = fallback_config();
    let client = ScalewayClient::new(&config);
    let mut state = fresh_state(&config);
    state.volume_id = Some("vol-busy".to_string());
    api.on(DELETE, &volume_at("vol-busy"), 412, r#"{"message": "precondition failed"}"#);
    let (state, outcome) = clean_up(&mut api, &client, &config, state);
    assert!(matches!(outcome, Err(AppError::CleanupIncomplete(_))));
    assert_eq!(api.count(DELETE, &volume_at("vol-busy")), 6);
    assert_eq!(state.volume_id, Some("vol-busy".to_string()));
}

#[test]
fn a_removal_that_never_shows_is_incomplete() {
    let mut api = FakeApi::new();
    mock_snapshot(&mut api, 1000);
    let config = fallback_config();
    let client = ScalewayClient::new(&config);
    let mut state = fresh_state(&config);
    state.public_ip_id = Some("ip-stays".to_string());
    state.public_ip_address = Some("127.0.0.1".to_string());
    api.on(DELETE, &ip_at("ip-stays"), 204, "");
    api.on(GET, &ip_at("ip-stays"), 200, &ip_body("ip-stays", None));
    let (state, outcome) = clean_up(&mut api, &client, &config, state);
    assert!(outcome.is_err());
    assert_eq!(state.public_ip_id, Some("ip-stays".to_string()));
    assert_eq!(state.public_ip_address, Some("127.0.0.1".to_string()));
    // at 0, 1, 2, 3, 4 and 5 seconds; at 6 the time is up
    assert_eq!(api.count(GET, &ip_at("ip-stays")), 6);
}

#[test]
fn a_driver_failure_passes_the_turn_on() {
    let mut api = FakeApi::new();
    mock_account(&mut api);
    mock_snapshot(&mut api, 1000);
    mock_products(&mut api, 500, 2000);
    api.on(GET, MODELS, 500, "CUDA driver too old");
    let config = fallback_config();
    let client = ScalewayClient::new(&config);
    let (instance, volume, ip) = ("inst-a", "vol-a", "ip-a");
    api.times(POST, SERVERS, 200, &server_body(instance, "running", volume), 1);
    api.on(POST, SERVERS, 412, OUT_OF_STOCK);
    api.times(GET, &volume_at(volume), 200, &volume_body(volume), 1);
    api.times(GET, &server_at(instance), 200, &server_body(instance, "running", volume), 1);
    api.on(POST, IPS, 200, &ip_body(ip, None));
    api.on(PATCH, &ip_at(ip), 200, &ip_body(ip, Some(instance)));
    api.times(GET, &ip_at(ip), 200, &ip_body(ip, Some(instance)), 1);
    api.on(DELETE, &ip_at(ip), 200, "{}");
    mock_removal(&mut api, instance, volume);

    let (state, res) = provision(&mut api, &client, &config, fresh_state(&config));
    assert!(matches!(res, Err(AppError::NoCompatibleGpuAvailable { .. })));
    assert_eq!(api.count(POST, SERVERS), 3);
    // the instance was up at once, so it was never switched on; only the cleanup acts on it
    assert_eq!(api.count(POST, &action_at(instance)), 1);
    assert_eq!(state.instance_id, None);
    assert!(api
        .reports
        .contains(&(85, "Cleaning up failed attempt for L40S-1-48G...".to_string())));
}

#[test]
fn a_volume_of_another_snapshot_passes_the_turn_on() {
    let mut api = FakeApi::new();
    setup_common_mocks(&mut api);
    let config = mock_config(None);
    let client = ScalewayClient::new(&config);
    api.on(POST, SERVERS, 200, &server_body("inst-b", "stopped", "vol-b"));
    api.times(
        GET,
        &volume_at("vol-b"),
        200,
        r#"{"id": "vol-b", "name": "v", "status": "available", "project_id": "p",
            "zone": "fr-par-2", "snapshot_id": "another"}"#,
        1,
    );
    mock_removal(&mut api, "inst-b", "vol-b");
    let (_, res) = provision(&mut api, &client, &config, fresh_state(&config));
    match res {
        Err(AppError::NoCompatibleGpuAvailable { zone, attempted }) => {
            assert_eq!(zone, "fr-par-2");
            assert_eq!(attempted, vec!["L40S-1-48G"]);
        }
        other => panic!("{:?}", other),
    }
}

#[test]
fn the_instance_is_named_after_the_attempt() {
    let mut api = FakeApi::new();
    setup_common_mocks(&mut api);
    let config = fallback_config();
    let client = ScalewayClient::new(&config);
    mock_attempt(&mut api, "i", "v", "p");
    let (state, res) = provision(&mut api, &client, &config, fresh_state(&config));
    assert!(res.is_ok());
    let made = api.seen.iter().find(|r| r.method == POST && r.path == SERVERS).unwrap();
    let body: Value = serde_json::from_str(made.body.as_ref().unwrap()).unwrap();
    let name = format!("nemotron-l40s-l40s-1-48g-{}", &state.attempt_id[..8]);
    assert_eq!(body["name"], name.as_str());
    assert_eq!(body["volumes"]["0"]["name"], format!("{}-root", name).as_str());
    assert_eq!(body["volumes"]["0"]["base_snapshot"], "1b552e81-401d-4c15-b0b2-3c89e2d46c28");
    assert_eq!(body["project"], "00000000-0000-0000-0000-000000000000");
    assert_eq!(body["commercial_type"], "L40S-1-48G");
    assert_eq!(body["tags"][2], format!("attempt-id={}", state.attempt_id).as_str());
    let ip = api.seen.iter().find(|r| r.method == POST && r.path == IPS).unwrap();
    let ip_body: Value = serde_json::from_str(ip.body.as_ref().unwrap()).unwrap();
    assert_eq!(ip_body["type"], "routed_ipv4");
    assert_eq!(ip_body["tags"][2], format!("attempt-id={}", state.attempt_id).as_str());
}

#[test]
fn nothing_is_tried_where_the_account_is_wrong() {
    let mut api = FakeApi::new();
    api.on(GET, SERVERS, 401, "denied");
    let config = fallback_config();
    let client = ScalewayClient::new(&config);
    let (_, res) = provision(&mut api, &client, &config, fresh_state(&config));
    match res {
        Err(AppError::AuthenticationFailed(m)) => assert_eq!(
            m,
            "Invalid API Key credentials: API Error (status 401 Unauthorized): denied"
        ),
        other => panic!("{:?}", other),
    }
    assert_eq!(api.seen.len(), 1);
}

#[test]
fn the_configuration_is_checked_against_the_api() {
    let config = mock_config(None);
    let client = ScalewayClient::new(&config);
    let mut api = FakeApi::new();
    mock_account(&mut api);
    mock_snapshot(&mut api, 1000);
    api.on(GET, PRODUCTS, 200, r#"{"servers": {"GP1-XS": {}}}"#);
    let mut checks = RemoteChecks::validate_config(&config);
    while let Some(call) = checks.pending() {
        let reply = carry_out(&mut api, &client, &config, &call);
        checks.resume(&client, reply);
    }
    match checks.failure {
        Some(AppError::InstanceTypeUnavailable(m)) => assert_eq!(
            m,
            "Instance type L40S-1-48G is not available in zone fr-par-2. Available types: [\"GP1-XS\"]"
        ),
        other => panic!("{:?}", other),
    }
    assert_eq!(api.seen.len(), 3);

    let mut offline = FakeApi::new();
    let mut checks = RemoteChecks::run_live_integration_test(&config);
    while let Some(call) = checks.pending() {
        let reply = carry_out(&mut offline, &client, &config, &call);
        checks.resume(&client, reply);
    }
    assert!(matches!(checks.failure, Some(AppError::ProjectNotFound(_))));
    assert_eq!(offline.seen.len(), 1);
}

#[test]
fn the_types_of_the_list_are_checked() {
    let listed = |types: &[&str]| {
        let mut config = mock_config(Some(types.iter().map(|t| t.to_string()).collect()));
        config.instance.instance_type = String::new();
        config
    };
    let check = |config: &Config, mut checks: RemoteChecks| {
        let client = ScalewayClient::new(config);
        let mut api = FakeApi::new();
        mock_account(&mut api);
        mock_snapshot(&mut api, 1000);
        api.on(GET, PRODUCTS, 200, r#"{"servers": {"L40S-1-48G": {}}}"#);
        while let Some(call) = checks.pending() {
            let reply = carry_out(&mut api, &client, config, &call);
            checks.resume(&client, reply);
        }
        checks.failure
    };
    for types in [&["L40S-1-48G"][..], &["H100-1-80G", "L40S-1-48G"][..]] {
        let config = listed(types);
        assert!(check(&config, RemoteChecks::validate_config(&config)).is_none());
        assert!(check(&config, RemoteChecks::run_live_integration_test(&config)).is_none());
    }
    let mut config = listed(&["H100-1-80G", "L40S-2-48G"]);
    config.instance.instance_type = "L40S-1-48G".to_string();
    match check(&config, RemoteChecks::validate_config(&config)) {
        Some(AppError::InstanceTypeUnavailable(m)) => assert_eq!(
            m,
            "Instance type H100-1-80G, L40S-2-48G is not available in zone fr-par-2. Available types: [\"L40S-1-48G\"]"
        ),
        other => panic!("{:?}", other),
    }
}

// ---------------------------------------------------------------- sessions of another program

fn read_request(line: &str) -> Option<HalRequest> {
    let value: Value = serde_json::from_str(line).ok()?;
    let arguments = match value["arguments"].as_array() {
        Some(words) => HalArguments::Array(
            words.iter().map(|word| word.as_str().unwrap().to_string()).collect(),
        ),
        None => HalArguments::String(value["arguments"].as_str()?.to_string()),
    };
    Some(HalRequest {
        request_id: value["request_id"].as_str()?.to_string(),
        command: value["command"].as_str()?.to_string(),
        arguments,
    })
}

fn mock_session(api: &mut FakeApi, instance: &str, volume: &str, ip: &str) {
    api.on(POST, SERVERS, 200, &server_body(instance, "stopped", volume));
    api.times(GET, &volume_at(volume), 200, &volume_body(volume), 1);
    api.on(POST, &action_at(instance), 200, "{}");
    api.times(GET, &server_at(instance), 200, &server_body(instance, "running", volume), 1);
    api.on(POST, IPS, 200, &ip_body(ip, None));
    api.on(PATCH, &ip_at(ip), 200, &ip_body(ip, Some(instance)));
    api.times(GET, &ip_at(ip), 200, &ip_body(ip, Some(instance)), 1);
}

fn mock_kill(api: &mut FakeApi, instance: &str, volume: &str, ip: &str) {
    api.times(GET, &server_at(instance), 200, &server_body(instance, "stopped", volume), 1);
    api.on(DELETE, &server_at(instance), 200, "{}");
    api.on(DELETE, &volume_at(volume), 200, "{}");
    api.on(DELETE, &ip_at(ip), 200, "{}");
    api.on(GET, &server_at(instance), 404, "");
    api.on(GET, &volume_at(volume), 404, "");
    api.on(GET, &ip_at(ip), 404, "");
}

fn kill(api: &mut FakeApi, client: &ScalewayClient, config: &Config, state: State, id: &str) {
    let line = format!(
        r#"{{"request_id": "{}", "command": "scaleway_kill", "arguments": ["KILL"]}}"#,
        id
    );
    let request = read_request(&line).unwrap();
    assert_eq!(request.route(), HalCommand::Kill);
    let step = handle_scaleway_kill(&request, api.record_exists);
    assert_eq!(step, KillStep::Remove);
    let (state, outcome) = clean_up(api, client, config, state);
    assert!(outcome.is_ok());
    assert_eq!(state.instance_id, None);
    assert!(!api.record_exists);
    let line = HalResponse::answer(&request.request_id, step.message()).to_json();
    let response: Value = serde_json::from_str(&line).unwrap();
    assert_eq!(response["type"], "final");
    assert_eq!(response["request_id"], id);
    assert!(response["message"].as_str().unwrap().contains("Teardown complete"));
}

#[test]
fn test_hal_scaleway_chat_e2e_integration() {
    let mut api = FakeApi::new();
    setup_common_mocks(&mut api);
    let config = mock_config(Some(vec!["L40S-1-48G".to_string()]));
    let client = ScalewayClient::new(&config);
    mock_session(&mut api, "inst-e2e-123", "vol-e2e-123", "ip-e2e-123");

    let request = read_request(
        r#"{"request_id": "e2e-start-req", "command": "scaleway_start", "arguments": []}"#,
    )
    .unwrap();
    assert_eq!(request.route(), HalCommand::Start);
    let (state, result) = provision(&mut api, &client, &config, fresh_state(&config));
    let message = handle_scaleway_start(&config, &state, &result.unwrap());
    let line = HalResponse::answer(&request.request_id, &message).to_json();
    let start_resp: Value = serde_json::from_str(&line).unwrap();
    assert_eq!(start_resp["type"], "final");
    assert_eq!(start_resp["request_id"], "e2e-start-req");
    assert!(start_resp["message"].as_str().unwrap().contains("Running"));
    assert!(start_resp["message"].as_str().unwrap().contains("inst-e2e-123"));

    mock_kill(&mut api, "inst-e2e-123", "vol-e2e-123", "ip-e2e-123");
    kill(&mut api, &client, &config, state, "e2e-kill-req");
}

#[test]
fn test_hal_scaleway_chat_e2e_full_chat() {
    let mut api = FakeApi::new();
    setup_common_mocks(&mut api);
    let config = mock_config(Some(vec!["L40S-1-48G".to_string()]));
    let client = ScalewayClient::new(&config);
    mock_session(&mut api, "inst-e2e-chat", "vol-e2e-chat", "ip-e2e-chat");

    let request = read_request(
        r#"{"request_id": "e2e-chat-req", "command": "scaleway", "arguments": ["1+1"]}"#,
    )
    .unwrap();
    assert_eq!(request.route(), HalCommand::Ask);
    let prompt = request.handle_scaleway().unwrap();
    let (state, result) = provision(&mut api, &client, &config, fresh_state(&config));
    let nemotron = NemotronClient::new(
        result.unwrap(),
        config.nemotron.port,
        config.nemotron.api_key.clone(),
        config.nemotron.model.clone(),
        config.timeouts.inference_timeout_seconds,
    );
    let asked = nemotron.complete_once(&config, &prompt);
    assert_eq!(asked.messages[1].content, "1+1");
    let mut answer = ChatStream::new();
    let body = "data: {\"choices\": [{\"delta\": {\"content\": \"2\"}}]}\n\ndata: [DONE]\n\n";
    assert!(answer.feed(body.as_bytes()).failure.is_none());
    let message = answer_message(&answer.finish().result.unwrap());
    let line = HalResponse::answer(&request.request_id, &message).to_json();
    let chat_resp: Value = serde_json::from_str(&line).unwrap();
    assert_eq!(chat_resp["type"], "final");
    assert_eq!(chat_resp["request_id"], "e2e-chat-req");
    assert!(chat_resp["message"].as_str().unwrap().contains("2"));

    mock_kill(&mut api, "inst-e2e-chat", "vol-e2e-chat", "ip-e2e-chat");
    kill(&mut api, &client, &config, state, "e2e-kill-req-2");
}

// ---------------------------------------------------------------- sessions that are broken off

#[test]
fn an_attempt_that_is_broken_off_is_removed() {
    let mut api = FakeApi::new();
    setup_common_mocks(&mut api);
    let config = fallback_config();
    let client = ScalewayClient::new(&config);
    mock_attempt(&mut api, "i", "v", "p");
    let mut run = EnsureRun::provision_resources(&client, &config, fresh_state(&config));
    while let Some(call) = run.pending() {
        if matches!(call, Call::AttachIp { .. }) {
            break;
        }
        let reply = carry_out(&mut api, &client, &config, &call);
        run = run.advance(reply);
    }
    assert_eq!(run.record().public_ip_id, Some("p".to_string()));
    match run.interrupt() {
        Interruption::CleanUp(cleanup) => {
            assert_eq!(cleanup.state.instance_id, Some("i".to_string()));
            assert_eq!(cleanup.state.volume_id, Some("v".to_string()));
            assert_eq!(cleanup.state.public_ip_id, Some("p".to_string()));
            assert_eq!(cleanup.state.phase, ProvisioningPhase::CleaningUp);
        }
        other => panic!("{:?}", other),
    }
}

#[test]
fn a_session_that_may_be_up_is_left_alone() {
    let config = mock_config(None);
    let client = ScalewayClient::new(&config);
    let run = EnsureRun::provision_resources(&client, &config, resumable_state(&config));
    assert!(matches!(
        run.interrupt(),
        Interruption::Leave(state) if state.instance_id.is_some()
    ));
}
