//! Requests to the API, refusals of the API, and requests of another program.

use scaleway_chat::config::{
    Config, InstanceConfig, LoggingConfig, NemotronConfig, ScalewayConfig, SecretText,
    TimeoutsConfig,
};
use scaleway_chat::error::AppError;
use scaleway_chat::hal::{
    answer_message, confirm_kill, escape_html, handle_scaleway_help, handle_scaleway_kill,
    handle_scaleway_start, malformed_error, missing_id_error, HalArguments, HalCommand, HalRequest,
    HalResponse, KillStep,
};
use scaleway_chat::scaleway::calls::{Call, Reply};
use scaleway_chat::scaleway::client::{
    refusal_string, ApiMethod, RetryState, ScalewayClient, SendEvent, SendStep,
};
use scaleway_chat::scaleway::compatibility::{judge, Compatibility};
use scaleway_chat::scaleway::models::{
    AttachIpRequest, CreateIpRequest, CreateServerRequest, CreateVolumeRequest, InstanceIp,
    InstanceVolumeType, Server, ServerTypeDetails, ServerTypesResponse, ServerVolumeDetail,
    Snapshot, SnapshotBootVolume, SnapshotSource, Volume, VolumesConstraint,
};
use scaleway_chat::scaleway::operations::{failed_reply, Answer, Settled};
use scaleway_chat::scaleway::polling::timed_out;
use scaleway_chat::scaleway::reconcile::{Reconciliation, ReconciliationOutcome};
use scaleway_chat::scaleway::status::{ModelProbe, StatusProbes};
use scaleway_chat::state::{ProvisioningPhase, State};
use serde_json::Value;

const SNAPSHOT: &str = "1b552e81-401d-4c15-b0b2-3c89e2d46c28";
const PROJECT: &str = "00000000-0000-0000-0000-000000000000";

fn config() -> Config {
    Config {
        scaleway: ScalewayConfig {
            access_key: "SCW123".to_string(),
            secret_key: SecretText::new("secret".to_string()),
            project_id: PROJECT.to_string(),
            organization_id: PROJECT.to_string(),
            zone: "fr-par-2".to_string(),
        },
        instance: InstanceConfig {
            name: "nemotron-l40s".to_string(),
            instance_type: "L40S-1-48G".to_string(),
            snapshot_id: SNAPSHOT.to_string(),
            public_ip: "new".to_string(),
            gpu_types: None,
        },
        nemotron: NemotronConfig {
            port: 8330,
            api_key: SecretText::new("key".to_string()),
            model: "model".to_string(),
            max_tokens: 10,
            temperature_bits: 0.7f32.to_bits(),
            system_prompt: "prompt".to_string(),
        },
        timeouts: TimeoutsConfig {
            instance_creation_seconds: 10,
            instance_poll_interval_seconds: 1,
            nemotron_startup_seconds: 10,
            nemotron_poll_interval_seconds: 1,
            cleanup_timeout_seconds: 5,
            cleanup_poll_interval_seconds: 1,
            inference_timeout_seconds: 300,
        },
        logging: LoggingConfig { verbose: false },
    }
}

fn client() -> ScalewayClient {
    ScalewayClient::new(&config())
}

fn json(text: &str) -> Value {
    serde_json::from_str(text).unwrap()
}

// ---------------------------------------------------------------- the client

#[test]
fn requests_go_to_the_api() {
    let c = client();
    let request = c.get_server("i");
    assert_eq!(c.url(&request), "https://api.scaleway.com/instance/v1/zones/fr-par-2/servers/i");
    assert_eq!(c.auth_token(), "secret");
    let other = ScalewayClient::new_with_url(&config(), "http://localhost:1".to_string());
    assert_eq!(other.url(&request), "http://localhost:1/instance/v1/zones/fr-par-2/servers/i");
    assert_eq!(c.organization_id, PROJECT);
}

#[test]
fn test_client_map_api_error() {
    let client = client();

    let err = client.map_api_error(401, "invalid token".to_string());
    assert!(matches!(err, AppError::AuthenticationFailed(_)));

    let err = client.map_api_error(403, "forbidden".to_string());
    assert!(matches!(err, AppError::PermissionDenied(_)));

    let err = client.map_api_error(404, "not found".to_string());
    assert!(matches!(err, AppError::InvalidConfig(_)));

    let err = client.map_api_error(409, "out of capacity".to_string());
    assert!(matches!(err, AppError::CapacityUnavailable(_)));

    let err = client.map_api_error(500, "server error".to_string());
    assert!(matches!(err, AppError::ApiError(_)));
}

#[test]
fn refusals_are_read_in_the_form_of_the_api() {
    let c = client();
    assert_eq!(
        c.map_api_error(404, "plain".to_string()).to_string(),
        "Invalid configuration: API Error (status 404 Not Found): plain"
    );
    assert!(c.map_api_error(404, "anything".to_string()).is_not_found());
    for code in [400, 401, 403, 409, 412, 500] {
        assert!(!c.map_api_error(code, "404 not_found".to_string()).is_not_found());
    }
    assert_eq!(
        c.map_api_error(418, r#"{"message": "m"}"#.to_string()).to_string(),
        "API Error: API Error (status 418 I'm a teapot): unknown_error:\n- message: m"
    );
    assert_eq!(
        c.map_api_error(
            400,
            r#"{"message": "m", "type": "t", "details": [{"argument_name": "a", "reason": "r"}, 7]}"#
                .to_string()
        )
        .to_string(),
        "API Error: API Error (status 400 Bad Request): t:\n- argument_name: a\n  reason: r\n  help_message: \n- argument_name: \n  reason: \n  help_message: "
    );
    assert_eq!(
        c.map_api_error(599, r#"{"message": 1}"#.to_string()).to_string(),
        "API Error: API Error (status 599 <unknown status code>): {\"message\": 1}"
    );
    assert_eq!(refusal_string(&json(r#"{"message": "m", "type": "t", "details": []}"#)),
        Some("t:\n- message: m".to_string()));
    assert_eq!(refusal_string(&json(r#"{"type": "t"}"#)), None);
}

fn status(code: u16, retry_after: Option<&str>) -> SendEvent {
    SendEvent::Status { code, retry_after: retry_after.map(|s| s.to_string()) }
}

#[test]
fn waits_double_and_end() {
    let mut retry = RetryState::new();
    for expected in [507u64, 1007, 2007, 4007] {
        match retry.after_send(status(500, None), 1207) {
            SendStep::Sleep { seconds, millis } => assert_eq!((seconds, millis), (0, expected)),
            other => panic!("{:?}", other),
        }
    }
    assert!(matches!(retry.after_send(status(500, None), 0), SendStep::Refuse));
}

#[test]
fn an_answer_may_ask_for_a_wait() {
    let mut retry = RetryState::new();
    assert!(matches!(
        retry.after_send(status(429, Some("30")), 99),
        SendStep::Sleep { seconds: 30, millis: 0 }
    ));
    // that wait does not count for the doubling, and a date is not a number of seconds
    assert!(matches!(
        retry.after_send(status(503, Some("Wed, 21 Oct")), 5),
        SendStep::Sleep { seconds: 0, millis: 505 }
    ));
    assert!(matches!(retry.after_send(status(204, Some("1")), 0), SendStep::Accept));
}

#[test]
fn a_refusal_that_will_not_pass_stands_at_once() {
    for code in [301u16, 400, 404, 412, 600] {
        assert!(matches!(RetryState::new().after_send(status(code, Some("1")), 0), SendStep::Refuse));
    }
}

#[test]
fn an_api_that_cannot_be_reached_is_tried_five_times() {
    let mut retry = RetryState::new();
    let down = || SendEvent::Network { reason: "down".to_string() };
    for expected in [500u64, 1000, 2000, 4000] {
        assert!(matches!(
            retry.after_send(down(), 0),
            SendStep::Sleep { seconds: 0, millis } if millis == expected
        ));
    }
    assert!(matches!(
        retry.after_send(down(), 0),
        SendStep::Fail(AppError::Reqwest(m)) if m == "down"
    ));
    let mut drawn = RetryState::new();
    match drawn.next_step(down()) {
        SendStep::Sleep { seconds: 0, millis } => assert!(500 <= millis && millis < 600),
        other => panic!("{:?}", other),
    }
}

// ---------------------------------------------------------------- bodies

#[test]
fn test_create_server_payload_serialization() {
    let req = CreateServerRequest {
        name: "test-server".to_string(),
        project: "00000000-0000-0000-0000-000000000000".to_string(),
        commercial_type: "L40S-1-48G".to_string(),
        volumes: vec![(
            "0".to_string(),
            SnapshotBootVolume {
                base_snapshot: "1b552e81-401d-4c15-b0b2-3c89e2d46c28".to_string(),
                name: "test-server-root".to_string(),
                volume_type: InstanceVolumeType::SbsVolume,
                boot: true,
            },
        )],
        tags: vec!["test".to_string()],
    };

    let serialized = json(&req.to_json());

    assert_eq!(serialized["name"], "test-server");
    assert_eq!(serialized["project"], "00000000-0000-0000-0000-000000000000");
    assert_eq!(serialized["commercial_type"], "L40S-1-48G");

    let volume_0 = &serialized["volumes"]["0"];
    assert_eq!(volume_0["base_snapshot"], "1b552e81-401d-4c15-b0b2-3c89e2d46c28");
    assert_eq!(volume_0["name"], "test-server-root");
    assert_eq!(volume_0["volume_type"], "sbs_volume");
    assert_eq!(volume_0["boot"], true);
    assert!(volume_0.get("id").is_none());
    assert!(volume_0.get("image").is_none());
    assert_eq!(serialized["tags"][0], "test");
}

#[test]
fn bodies_are_json_whatever_they_hold() {
    let ip = CreateIpRequest {
        project: "p\"\\\n".to_string(),
        ip_type: "routed_ipv4".to_string(),
        tags: vec!["a".to_string(), "\u{1}".to_string()],
    };
    let ip = json(&ip.to_json());
    assert_eq!(ip["project"], "p\"\\\n");
    assert_eq!(ip["type"], "routed_ipv4");
    assert_eq!(ip["tags"][1], "\u{1}");

    assert_eq!(AttachIpRequest { server: None }.to_json(), "{\"server\":null}");
    assert_eq!(
        AttachIpRequest {
            server: Some("\"\\/\u{8}\t\n\u{c}\r\u{0}\u{1f}\u{7f}\u{e9}".to_string())
        }
        .to_json(),
        "{\"server\":\"\\\"\\\\/\\b\\t\\n\\f\\r\\u0000\\u001f\u{7f}\u{e9}\"}"
    );
    assert_eq!(AttachIpRequest { server: Some("s".to_string()) }.to_json(), "{\"server\":\"s\"}");

    let volume = CreateVolumeRequest {
        name: "n".to_string(),
        project_id: "p".to_string(),
        perf_iops: 5000,
        from_snapshot: Some(SnapshotSource { snapshot_id: "s".to_string() }),
        tags: vec![],
    };
    assert_eq!(
        volume.to_json(),
        "{\"name\":\"n\",\"project_id\":\"p\",\"perf_iops\":5000,\"from_snapshot\":{\"snapshot_id\":\"s\"},\"tags\":[]}"
    );
}

#[test]
fn identifiers_are_written_in_their_hyphenated_form() {
    let request = client()
        .create_instance("n", "L40S-1-48G", "{1B552E81-401D-4C15-B0B2-3C89E2D46C28}", "a1")
        .unwrap();
    assert_eq!(request.method, ApiMethod::Post);
    assert_eq!(request.path, "/instance/v1/zones/fr-par-2/servers");
    let body = json(request.body.as_ref().unwrap());
    assert_eq!(body["volumes"]["0"]["base_snapshot"], SNAPSHOT);
    assert_eq!(body["tags"][2], "attempt-id=a1");

    let refused = client().create_instance("n", "t", "x", "a1").unwrap_err();
    assert!(refused.to_string().starts_with("Invalid configuration: Invalid snapshot UUID: "));
    let mut elsewhere = client();
    elsewhere.project_id = "y".to_string();
    let refused = elsewhere.create_instance("n", "t", SNAPSHOT, "a1").unwrap_err();
    assert!(refused.to_string().starts_with("Invalid configuration: Invalid project UUID: "));
}

#[test]
fn a_volume_is_restored_and_watched() {
    let c = client();
    let request = c.create_volume_from_snapshot("s", "v");
    assert_eq!(request.path, "/block/v1/zones/fr-par-2/volumes");
    let body = json(request.body.as_ref().unwrap());
    assert_eq!(body["perf_iops"], 5000);
    assert_eq!(body["from_snapshot"]["snapshot_id"], "s");
    assert_eq!(body["tags"][2], "snapshot-id=s");
    assert!(matches!(
        c.create_volume_from_snapshot_outcome(Err(AppError::ApiError("m".to_string()))),
        Err(AppError::VolumeCreationFailed(m)) if m == "API Error: m"
    ));
    assert!(matches!(
        c.wait_for_volume_ready_outcome(Ok(volume("available"))),
        Some(Ok(v)) if v.status == "available"
    ));
    assert!(matches!(
        c.wait_for_volume_ready_outcome(Ok(volume("error"))),
        Some(Err(AppError::VolumeCreationFailed(_)))
    ));
    assert!(c.wait_for_volume_ready_outcome(Ok(volume("creating"))).is_none());
    assert!(c.wait_for_volume_ready_outcome(Err(AppError::ConfigNotFound)).is_none());
    let look = c.wait_for_volume_ready("v", 2, 2_000_000_000).unwrap();
    assert_eq!(look.path, "/block/v1/zones/fr-par-2/volumes/v");
    assert!(matches!(look.method, ApiMethod::Get));
    assert!(matches!(
        c.wait_for_volume_ready("v", 2, 2_000_000_001),
        Err(AppError::VolumeCreationFailed(m))
            if m == "Timeout waiting for volume to become available"
    ));
}

fn volume(status: &str) -> Volume {
    Volume {
        id: "v".to_string(),
        name: "v".to_string(),
        status: status.to_string(),
        project_id: PROJECT.to_string(),
        zone: "fr-par-2".to_string(),
        snapshot_id: None,
    }
}

// ---------------------------------------------------------------- what answers come to

fn snapshot(project: &str, status: &str, zone: &str) -> Snapshot {
    Snapshot {
        id: SNAPSHOT.to_string(),
        name: "s".to_string(),
        status: status.to_string(),
        size: 200_000_000_000,
        project_id: project.to_string(),
        zone: zone.to_string(),
    }
}

#[test]
fn a_snapshot_can_be_used_or_not() {
    let c = client();
    let look = |s: Snapshot| c.get_snapshot_outcome("s", Ok(s));
    assert!(look(snapshot(PROJECT, "ready", "fr-par-2")).is_ok());
    assert!(look(snapshot(PROJECT, "available", "fr-par-2")).is_ok());
    assert!(matches!(
        look(snapshot("p", "ready", "fr-par-2")),
        Err(AppError::PermissionDenied(m))
            if m == format!("Snapshot belongs to project p but configured project is {}", PROJECT)
    ));
    assert!(matches!(
        look(snapshot(PROJECT, "creating", "fr-par-2")),
        Err(AppError::SnapshotNotFound(m))
            if m == "Snapshot s is not ready or available (current status: creating)"
    ));
    assert!(matches!(
        look(snapshot(PROJECT, "ready", "fr-par-1")),
        Err(AppError::SnapshotWrongZone { snapshot_zone, expected_zone })
            if snapshot_zone == "fr-par-1" && expected_zone == "fr-par-2"
    ));
    assert!(matches!(
        c.get_snapshot_outcome("s", Err(AppError::InvalidConfig("x".to_string()))),
        Err(AppError::SnapshotNotFound(m))
            if m == "Snapshot s not found in zone fr-par-2. Ensure snapshot ID and zone are correct."
    ));
}

#[test]
fn credentials_are_good_or_not() {
    let c = client();
    assert!(c.validate_auth_and_project_outcome(Ok(())).is_ok());
    assert!(matches!(
        c.validate_auth_and_project_outcome(Err(AppError::PermissionDenied("m".to_string()))),
        Err(AppError::PermissionDenied(m))
            if m == format!("Missing IAM permissions for zone fr-par-2 or project {}: m", PROJECT)
    ));
    assert!(matches!(
        c.validate_auth_and_project_outcome(Err(AppError::InvalidConfig("m".to_string()))),
        Err(AppError::ProjectNotFound(m))
            if m == format!("Project ID {} not found or invalid: m", PROJECT)
    ));
    assert!(matches!(
        c.validate_auth_and_project_outcome(Err(AppError::Io("m".to_string()))),
        Err(AppError::Io(_))
    ));
}

fn products(entries: Vec<(&str, Option<(u64, u64)>, Option<&str>)>) -> ServerTypesResponse {
    ServerTypesResponse {
        servers: entries
            .into_iter()
            .map(|(name, limit, arch)| {
                (
                    name.to_string(),
                    ServerTypeDetails {
                        volumes_constraint: limit
                            .map(|(min_size, max_size)| VolumesConstraint { min_size, max_size }),
                        arch: arch.map(|a| a.to_string()),
                    },
                )
            })
            .collect(),
    }
}

fn skip(reason: &str) -> Compatibility {
    Compatibility::Skip { reason: reason.to_string() }
}

#[test]
fn a_gpu_type_goes_with_the_snapshot_or_not() {
    let offer = products(vec![
        ("a", Some((500, 2000)), Some("x86_64")),
        ("b", Some((0, 0)), None),
        ("c", None, Some("arm64")),
    ]);
    assert_eq!(judge("z", "a", 500, &offer), Compatibility::Compatible);
    assert_eq!(judge("z", "a", 2000, &offer), Compatibility::Compatible);
    assert_eq!(
        judge("z", "a", 499, &offer),
        skip("Snapshot size 499 bytes is below product minimum constraint of 500 bytes")
    );
    assert_eq!(
        judge("z", "a", 2001, &offer),
        skip("Snapshot size 2001 bytes exceeds product maximum constraint of 2000 bytes")
    );
    assert_eq!(judge("z", "b", u64::MAX, &offer), Compatibility::Compatible);
    assert_eq!(
        judge("z", "c", 1, &offer),
        skip("Product architecture arm64 is incompatible (expected x86_64)")
    );
    assert_eq!(judge("z", "d", 1, &offer), skip("Product d is not offered in z"));
}

#[test]
fn a_gpu_type_is_judged_by_what_the_zone_offers() {
    let c = client();
    let found = snapshot(PROJECT, "available", "fr-par-2");
    let offer = products(vec![("a", Some((0, 100_000_000_000)), None)]);
    assert_eq!(
        c.validate_candidate_compatibility("a", &found, Ok(offer)).unwrap(),
        skip(
            "Snapshot size 200000000000 bytes exceeds product maximum constraint of \
             100000000000 bytes"
        )
    );
    assert_eq!(
        c.validate_candidate_compatibility("b", &found, Ok(products(vec![]))).unwrap(),
        skip("Product b is not offered in fr-par-2")
    );
    let offer = products(vec![("a", None, None)]);
    assert_eq!(
        c.validate_candidate_compatibility("a", &found, Ok(offer)).unwrap(),
        Compatibility::Compatible
    );
    assert!(matches!(
        c.validate_candidate_compatibility("a", &found, Err(AppError::Io("t".to_string()))),
        Err(AppError::Io(m)) if m == "t"
    ));
}

#[test]
fn a_server_boots_from_its_first_slot() {
    let part = |slot: &str, id: &str, kind: &str| {
        (
            slot.to_string(),
            ServerVolumeDetail {
                id: id.to_string(),
                name: None,
                volume_type: kind.to_string(),
            },
        )
    };
    let server = |volumes| Server {
        id: "i".to_string(),
        name: "n".to_string(),
        state: "running".to_string(),
        public_ip: None,
        volumes,
    };
    assert_eq!(
        server(vec![part("1", "x", "sbs_volume"), part("0", "y", "b_ssd")]).boot_volume(),
        Some("y".to_string())
    );
    assert_eq!(
        server(vec![part("2", "w", "b_ssd"), part("1", "x", "sbs_volume")]).boot_volume(),
        Some("x".to_string())
    );
    assert_eq!(server(vec![part("1", "x", "b_ssd")]).boot_volume(), None);
}

#[test]
fn removals_spare_the_snapshot() {
    let c = client();
    let request = c.delete_volume("v", SNAPSHOT).unwrap();
    assert_eq!(request.method, ApiMethod::Delete);
    assert_eq!(request.path, "/block/v1/zones/fr-par-2/volumes/v");
    assert!(matches!(
        c.delete_instance(SNAPSHOT, SNAPSHOT),
        Err(AppError::SafetyViolation(m)) if m == "Refusing to delete source snapshot as a server"
    ));
    assert!(matches!(
        c.delete_volume(SNAPSHOT, SNAPSHOT),
        Err(AppError::SafetyViolation(m)) if m == "Refusing to delete source snapshot as a volume"
    ));
    assert!(matches!(
        c.delete_public_ip(SNAPSHOT, SNAPSHOT),
        Err(AppError::SafetyViolation(m)) if m == "Refusing to delete source snapshot as an IP"
    ));
    let call = Call::DeleteVolume { volume_id: SNAPSHOT.to_string(), snapshot_id: SNAPSHOT.to_string() };
    assert!(matches!(c.next_request(&call, 0), Some(Err(AppError::SafetyViolation(_)))));
}

#[test]
fn answers_are_settled() {
    let c = client();
    let gone = || Answer::Plain(Err(client().map_api_error(404, String::new())));
    let unsure = || Answer::Plain(Err(client().map_api_error(500, "404 not_found".to_string())));
    let wait = Call::VerifyVolumeDeleted {
        volume_id: "v".to_string(),
        timeout_secs: 5,
        poll_secs: 3,
    };
    assert!(matches!(c.settle(&wait, 1, gone()), Settled::Reply(Reply::Done(Ok(())))));
    assert!(matches!(c.settle(&wait, 1, Answer::Plain(Ok(()))), Settled::Again { wait_secs: 3 }));
    assert!(matches!(c.settle(&wait, 1, unsure()), Settled::Again { wait_secs: 3 }));
    assert!(matches!(
        c.next_request(&wait, 5_000_000_001),
        Some(Err(AppError::CleanupIncomplete(m)))
            if m == "Timeout waiting for volume v deletion verification"
    ));

    let delete = Call::DeleteVolume { volume_id: "v".to_string(), snapshot_id: SNAPSHOT.to_string() };
    let busy = || Answer::Plain(Err(client().map_api_error(412, "in use".to_string())));
    assert!(matches!(c.settle(&delete, 5, busy()), Settled::Again { wait_secs: 5 }));
    assert!(matches!(
        c.settle(&delete, 6, busy()),
        Settled::Reply(Reply::Done(Err(AppError::CleanupIncomplete(m))))
            if m == "Failed to delete volume v: API Error: API Error (status 412 Precondition Failed): in use"
    ));
    assert!(matches!(c.settle(&delete, 1, gone()), Settled::Reply(Reply::Done(Ok(())))));
    for (code, body) in [(400, "vol-412"), (409, "412"), (500, "precondition")] {
        let refused = Answer::Plain(Err(c.map_api_error(code, body.to_string())));
        assert!(matches!(
            c.settle(&delete, 1, refused),
            Settled::Reply(Reply::Done(Err(AppError::CleanupIncomplete(_))))
        ));
    }

    let off = Call::PowerOff { server_id: "i".to_string() };
    assert!(matches!(
        c.settle(&off, 1, Answer::Plain(Err(AppError::Io("x".to_string())))),
        Settled::Reply(Reply::Done(Ok(())))
    ));
    let on = Call::PowerOn { server_id: "i".to_string() };
    assert!(matches!(
        c.settle(&on, 1, Answer::Plain(Err(AppError::Io("x".to_string())))),
        Settled::Reply(Reply::Done(Err(AppError::InstanceCreationFailed(m))))
            if m == "Failed to power on: I/O error: x"
    ));
    assert!(c.next_request(&Call::SaveState, 0).is_none());
    assert!(matches!(
        failed_reply(&Call::ListProducts, AppError::ConfigNotFound),
        Reply::Products(Err(AppError::ConfigNotFound))
    ));
}

#[test]
fn requests_stay_in_the_zone() {
    let c = client();
    let id = || "x".to_string();
    let calls = vec![
        Call::ValidateAuth,
        Call::GetSnapshot { snapshot_id: id() },
        Call::GetServer { server_id: id() },
        Call::GetVolume { volume_id: id() },
        Call::GetPublicIp { ip_id: id() },
        Call::ListProducts,
        Call::CreateInstance {
            name: id(),
            gpu_type: id(),
            snapshot_id: SNAPSHOT.to_string(),
            attempt_id: id(),
        },
        Call::PowerOn { server_id: id() },
        Call::PowerOff { server_id: id() },
        Call::WaitRunning { server_id: id(), timeout_secs: 1, poll_secs: 1 },
        Call::WaitStopped { server_id: id(), timeout_secs: 1, poll_secs: 1 },
        Call::AllocateIp { attempt_id: id() },
        Call::AttachIp { ip_id: id(), server_id: id() },
        Call::DeleteInstance { server_id: id(), snapshot_id: SNAPSHOT.to_string() },
        Call::VerifyInstanceDeleted { server_id: id(), timeout_secs: 1, poll_secs: 1 },
        Call::DeleteVolume { volume_id: id(), snapshot_id: SNAPSHOT.to_string() },
        Call::VerifyVolumeDeleted { volume_id: id(), timeout_secs: 1, poll_secs: 1 },
        Call::DeletePublicIp { ip_id: id(), snapshot_id: SNAPSHOT.to_string() },
        Call::VerifyPublicIpDeleted { ip_id: id(), timeout_secs: 1, poll_secs: 1 },
    ];
    for call in calls {
        let request = c.next_request(&call, 0).unwrap().unwrap();
        assert_eq!(
            call.makes_something(),
            request.method == ApiMethod::Post && request.path.ends_with("s"),
            "{}",
            request.path
        );
        assert!(
            request.path.starts_with("/instance/v1/zones/fr-par-2/")
                || request.path.starts_with("/block/v1/zones/fr-par-2/"),
            "{}",
            request.path
        );
    }
}

#[test]
fn time_is_up_when_more_has_gone_by() {
    assert!(!timed_out(0, 0));
    assert!(timed_out(1, 0));
    assert!(!timed_out(7_000_000_000, 7));
    assert!(timed_out(u128::MAX, u64::MAX));
}

// ---------------------------------------------------------------- what a record is worth

fn ready_state() -> State {
    let mut state = State::new(SNAPSHOT.to_string(), "fr-par-2".to_string());
    state.instance_id = Some("i".to_string());
    state.public_ip_id = Some("p".to_string());
    state.public_ip_address = Some("1.2.3.4".to_string());
    state.phase = ProvisioningPhase::Ready;
    state
}

fn server_in(state: &str) -> Reply {
    Reply::Server(Ok(Server {
        id: "i".to_string(),
        name: "n".to_string(),
        state: state.to_string(),
        public_ip: None,
        volumes: vec![],
    }))
}

fn decided(found: Reconciliation) -> Result<ReconciliationOutcome, AppError> {
    match found {
        Reconciliation::Decided(outcome) => outcome,
        other => panic!("{:?}", other),
    }
}

#[test]
fn a_stopped_instance_is_never_taken_on() {
    let state = ready_state();
    for seen in ["stopped", "starting", "error"] {
        let found = Reconciliation::reconcile_state(&state).resume(&state, server_in(seen));
        assert!(matches!(decided(found), Ok(ReconciliationOutcome::NeedsCleanupAndRestart)));
    }
    let mut early = ready_state();
    early.phase = ProvisioningPhase::AllocatingIp;
    let found = Reconciliation::reconcile_state(&early).resume(&early, server_in("running"));
    assert!(matches!(decided(found), Ok(ReconciliationOutcome::NeedsCleanupAndRestart)));
}

#[test]
fn a_record_of_nothing_is_no_record() {
    let state = State::new(SNAPSHOT.to_string(), "z".to_string());
    assert!(matches!(
        decided(Reconciliation::reconcile_state(&state)),
        Ok(ReconciliationOutcome::NoState)
    ));
    let mut volume_only = State::new(SNAPSHOT.to_string(), "z".to_string());
    volume_only.volume_id = Some("v".to_string());
    assert!(matches!(
        decided(Reconciliation::reconcile_state(&volume_only)),
        Ok(ReconciliationOutcome::NeedsCleanupAndRestart)
    ));
}

#[test]
fn an_instance_that_is_up_is_taken_on() {
    let state = ready_state();
    let found = Reconciliation::reconcile_state(&state).resume(&state, server_in("running"));
    assert!(matches!(found.pending(&state), Some(Call::GetPublicIp { ip_id }) if ip_id == "p"));
    let ip = InstanceIp {
        id: "p".to_string(),
        address: "1.2.3.4".to_string(),
        project: "x".to_string(),
        zone: "z".to_string(),
        server: None,
    };
    let found = found.resume(&state, Reply::Ip(Ok(ip)));
    assert_eq!(
        decided(found).unwrap(),
        ReconciliationOutcome::ResumeRunning {
            ip_address: "1.2.3.4".to_string(),
            boot_volume_id: None,
        }
    );
    // an error that says nothing of the instance decides nothing about it
    let found = Reconciliation::reconcile_state(&state)
        .resume(&state, Reply::Server(Err(AppError::Io("down".to_string()))));
    assert!(matches!(decided(found), Err(AppError::Io(_))));
}

// ---------------------------------------------------------------- the status

#[test]
fn the_status_says_what_is_there() {
    let mut state = ready_state();
    let seen = StatusProbes {
        snapshot: Ok(snapshot(PROJECT, "ready", "fr-par-2")),
        server: Some(Err(AppError::ApiError("x".to_string()))),
        volume: None,
        ip: Some(Ok(InstanceIp {
            id: "p".to_string(),
            address: "1.2.3.4".to_string(),
            project: "x".to_string(),
            zone: "z".to_string(),
            server: None,
        })),
        model: Some(ModelProbe::Status(503)),
    };
    let words = client().get_status(&config(), &state, &seen);
    assert_eq!(
        words,
        "<b>Source Snapshot:</b> 1b552e81-401d-4c15-b0b2-3c89e2d46c28 (found (status: 'ready', size: 200 GB))\n\
         <b>GPU Instance:</b> Some(\"i\") (error checking: API Error: x)\n\
         <b>Boot Volume:</b> None (None)\n\
         <b>Flexible IP:</b> Some(\"p\") (allocated (address: 1.2.3.4))\n\
         <b>Inference Endpoint:</b> http://1.2.3.4:8330\n<b>Model Readiness:</b> loading (HTTP 503)\n"
    );
    for (probe, said) in [
        (ModelProbe::Status(200), "ready"),
        (ModelProbe::Status(500), "error (HTTP 500 Internal Server Error)"),
        (ModelProbe::Unreachable, "offline/loading"),
    ] {
        let seen = StatusProbes { model: Some(probe), ..probes() };
        let words = client().get_status(&config(), &state, &seen);
        assert!(words.ends_with(&format!("<b>Model Readiness:</b> {}\n", said)));
    }
    state.public_ip_address = None;
    let words = client().get_status(&config(), &state, &probes());
    assert!(words.ends_with("<b>Inference Endpoint:</b> None\n<b>Model Readiness:</b> offline\n"));
}

fn probes() -> StatusProbes {
    let gone = || AppError::ApiError("404".to_string());
    StatusProbes {
        snapshot: Err(gone()),
        server: Some(Err(gone())),
        volume: None,
        ip: Some(Err(gone())),
        model: None,
    }
}

// ---------------------------------------------------------------- another program

#[test]
fn test_hal_html_escaping() {
    assert_eq!(escape_html("hello & <world>"), "hello &amp; &lt;world&gt;");
}

#[test]
fn escaped_text_has_no_meaning_in_markup() {
    assert_eq!(escape_html("\"it's\" &lt;"), "&quot;it&#x27;s&quot; &amp;lt;");
    let hostile = escape_html("<script>alert(\"x\" + 'y' && z)</script>");
    assert!(!hostile.contains(&['<', '>', '"', '\''][..]));
    assert_eq!(escape_html("pl\u{e4}in"), "pl\u{e4}in");
}

#[test]
fn escaped_text_can_be_had_back() {
    for raw in ["", "&lt;", "<a href=\"x\">'&amp;'</a>", "&&#x27;", "plain"] {
        let escaped = escape_html(raw);
        for (at, _) in escaped.match_indices('&') {
            let rest = &escaped[at..];
            assert!(["&amp;", "&lt;", "&gt;", "&quot;", "&#x27;"]
                .iter()
                .any(|entity| rest.starts_with(entity)));
        }
        let back = escaped
            .replace("&lt;", "<")
            .replace("&gt;", ">")
            .replace("&quot;", "\"")
            .replace("&#x27;", "'")
            .replace("&amp;", "&");
        assert_eq!(back, raw);
    }
}

fn read_request(line: &str) -> Option<HalRequest> {
    let value: Value = serde_json::from_str(line).ok()?;
    let arguments = match value["arguments"].as_array() {
        Some(words) => HalArguments::Array(
            words.iter().map(|word| word.as_str().unwrap().to_string()).collect(),
        ),
        None => HalArguments::String(value["arguments"].as_str()?.to_string()),
    };
    Some(HalRequest {
        request_id: value["request_id"].as_str()?.to_string(),
        command: value["command"].as_str()?.to_string(),
        arguments,
    })
}

#[test]
fn test_hal_request_parsing() {
    // Valid JSON with array arguments
    let json_array =
        r#"{"request_id": "test-uuid", "command": "scaleway", "arguments": ["Explain", "Juju"]}"#;
    let req = read_request(json_array).unwrap();
    assert_eq!(req.request_id, "test-uuid");
    assert_eq!(req.command, "scaleway");
    assert_eq!(req.prompt_string(), "Explain Juju");
    assert!(!req.is_kill_confirmed());

    // Valid JSON with string arguments
    let json_string =
        r#"{"request_id": "test-uuid", "command": "scaleway", "arguments": "Explain Juju"}"#;
    let req = read_request(json_string).unwrap();
    assert_eq!(req.prompt_string(), "Explain Juju");

    // Invalid JSON
    let invalid_json = r#"{"request_id": "test-uuid", "command": "scaleway", "arguments":}"#;
    assert!(read_request(invalid_json).is_none());

    // Kill confirmation tests
    let kill_no = r#"{"request_id": "id", "command": "scaleway_kill", "arguments": ["NO"]}"#;
    let req_kill_no = read_request(kill_no).unwrap();
    assert!(!req_kill_no.is_kill_confirmed());

    let kill_yes = r#"{"request_id": "id", "command": "scaleway_kill", "arguments": ["KILL"]}"#;
    let req_kill_yes = read_request(kill_yes).unwrap();
    assert!(req_kill_yes.is_kill_confirmed());

    let kill_yes_str = r#"{"request_id": "id", "command": "scaleway_kill", "arguments": "KILL"}"#;
    let req_kill_yes_str = read_request(kill_yes_str).unwrap();
    assert!(req_kill_yes_str.is_kill_confirmed());
}

fn request(command: &str, arguments: HalArguments) -> HalRequest {
    HalRequest { request_id: "r".to_string(), command: command.to_string(), arguments }
}

#[test]
fn requests_are_routed() {
    let none = || HalArguments::Array(vec![]);
    assert_eq!(request("scaleway", none()).route(), HalCommand::Ask);
    assert_eq!(request("scaleway_start", none()).route(), HalCommand::Start);
    assert_eq!(request("scaleway_status", none()).route(), HalCommand::Status);
    assert_eq!(request("scaleway_kill", none()).route(), HalCommand::Kill);
    assert_eq!(request("scaleway_help", none()).route(), HalCommand::Help);
    assert_eq!(request("Scaleway", none()).route(), HalCommand::Unsupported);
    let mut unnamed = request("scaleway", none());
    unnamed.request_id = " ".to_string();
    assert_eq!(unnamed.route(), HalCommand::MissingId);
}

#[test]
fn a_blank_question_is_refused() {
    let asked = request("scaleway", HalArguments::String(" \n".to_string()));
    assert!(matches!(
        asked.handle_scaleway(),
        Err(AppError::InvalidConfig(m)) if m == "Prompt cannot be empty"
    ));
    let asked = request("scaleway", HalArguments::Array(vec![" a".to_string(), "b".to_string()]));
    assert_eq!(asked.handle_scaleway().unwrap(), " a b");
}

#[test]
fn a_session_is_removed_only_when_that_is_confirmed() {
    let kill = |words: Vec<&str>| {
        request(
            "scaleway_kill",
            HalArguments::Array(words.into_iter().map(|s| s.to_string()).collect()),
        )
    };
    assert_eq!(handle_scaleway_kill(&kill(vec!["KILL", "KILL"]), true), KillStep::Unconfirmed);
    assert_eq!(handle_scaleway_kill(&kill(vec!["kill"]), true), KillStep::Unconfirmed);
    assert_eq!(handle_scaleway_kill(&kill(vec![]), true), KillStep::Unconfirmed);
    assert_eq!(handle_scaleway_kill(&kill(vec![" KILL "]), false), KillStep::NothingThere);
    assert_eq!(handle_scaleway_kill(&kill(vec!["KILL"]), true), KillStep::Remove);
    assert!(KillStep::Unconfirmed.message().starts_with("Aborted."));
    assert_eq!(
        KillStep::NothingThere.message(),
        "No active state file found. Nothing to clean up."
    );
    assert!(confirm_kill(" KILL\n"));
    assert!(!confirm_kill("KILL it\n"));
}

#[test]
fn test_hal_response_serialization() {
    let prog = HalResponse::Progress {
        request_id: "uuid1",
        percent: 25,
        message: "Doing stuff",
        format: "html",
    };
    let prog_str = prog.to_json();
    assert!(prog_str.contains(r#""type":"progress""#));
    assert!(prog_str.contains(r#""request_id":"uuid1""#));
    assert!(prog_str.contains(r#""percent":25"#));

    let fin = HalResponse::Final {
        request_id: "uuid2",
        format: "html",
        message: "Done",
        trusted_html: false,
    };
    let fin_str = fin.to_json();
    assert!(fin_str.contains(r#""type":"final""#));
    assert!(fin_str.contains(r#""request_id":"uuid2""#));
    assert!(fin_str.contains(r#""trusted_html":false"#));

    let err = HalResponse::Error {
        request_id: "uuid3",
        reason: "Failed",
        technical_details: "Detailed logs",
        suggested_action: "Retry",
        format: "html",
    };
    let err_str = err.to_json();
    assert!(err_str.contains(r#""type":"error""#));
    assert!(err_str.contains(r#""request_id":"uuid3""#));
    assert!(err_str.contains(r#""format":"html""#));
}

#[test]
fn responses_are_one_line_of_json() {
    let message = "a \"b\"\n\u{2022} <c>";
    let line = HalResponse::answer("r", message).to_json();
    assert!(!line.contains('\n'));
    let value = json(&line);
    assert_eq!(value["type"], "final");
    assert_eq!(value["message"], message);
    assert_eq!(value["trusted_html"], true);
    assert_eq!(
        HalResponse::progress("r", 7, "m").to_json(),
        "{\"type\":\"progress\",\"request_id\":\"r\",\"percent\":7,\"message\":\"m\",\"format\":\"html\"}"
    );
    let failed = json(&HalResponse::execution_error("r", "d").to_json());
    assert_eq!(failed["reason"], "Execution error");
    assert_eq!(failed["technical_details"], "d");
    assert_eq!(json(&HalResponse::malformed("d").to_json())["request_id"], "unknown");
    assert_eq!(json(&HalResponse::missing_id().to_json())["reason"], "Missing request_id");
    assert_eq!(
        malformed_error("d").to_string(),
        "Invalid configuration: Malformed request JSON: d"
    );
    assert_eq!(missing_id_error().to_string(), "Invalid configuration: Missing request_id");
}

#[test]
fn test_hal_subprocess_integration() {
    let req = read_request(
        r#"{"request_id": "test-subprocess-uuid", "command": "scaleway_help", "arguments": []}"#,
    )
    .unwrap();
    assert_eq!(req.route(), HalCommand::Help);
    let resp = json(&handle_scaleway_help(&req.request_id).to_json());
    assert_eq!(resp["type"], "final");
    assert_eq!(resp["request_id"], "test-subprocess-uuid");
    assert!(resp["message"].as_str().unwrap().contains("Available Scaleway GPU Commands"));
}

#[test]
fn test_hal_subprocess_invalid_command() {
    let req = read_request(
        r#"{"request_id": "test-invalid-cmd-uuid", "command": "scaleway_invalid_cmd_xyz", "arguments": []}"#,
    )
    .unwrap();
    assert_eq!(req.route(), HalCommand::Unsupported);
    let details = req.unsupported_details();
    let resp = json(&HalResponse::unsupported(&req.request_id, &details).to_json());
    assert_eq!(resp["type"], "error");
    assert_eq!(resp["request_id"], "test-invalid-cmd-uuid");
    assert!(resp["reason"].as_str().unwrap().contains("Unsupported command"));
    assert_eq!(
        resp["technical_details"],
        "Command 'scaleway_invalid_cmd_xyz' is not recognized."
    );
    assert_eq!(
        req.unsupported_error().to_string(),
        "Invalid configuration: Unsupported command: scaleway_invalid_cmd_xyz"
    );
}

#[test]
fn test_hal_compliance_html_rules() {
    let resp = json(&handle_scaleway_help("test-compliance-uuid").to_json());
    assert_eq!(resp["type"], "final");
    let msg = resp["message"].as_str().unwrap();

    // 1. Never use <br>, <p>, <div>, <h1>, <ul>, or <li>.
    assert!(!msg.contains("<br"), "HTML message should not contain <br> tags: {}", msg);
    assert!(!msg.contains("<p"), "HTML message should not contain <p> tags: {}", msg);
    assert!(!msg.contains("<div"), "HTML message should not contain <div> tags: {}", msg);
    assert!(!msg.contains("<h1"), "HTML message should not contain <h1> tags: {}", msg);
    assert!(!msg.contains("<ul"), "HTML message should not contain <ul> tags: {}", msg);
    assert!(!msg.contains("<li"), "HTML message should not contain <li> tags: {}", msg);

    // 2. Bullets should be Unicode bullets, not markdown hyphens/asterisks
    assert!(msg.contains("•"), "HTML message should contain Unicode bullet points: {}", msg);
    assert!(!msg.contains(" - "), "HTML message should not contain raw Markdown hyphens: {}", msg);
}

#[test]
fn what_is_said_of_a_session_that_is_up() {
    let mut state = ready_state();
    let words = handle_scaleway_start(&config(), &state, "1.2.3.4");
    assert!(words.starts_with(
        "<b>GPU Instance:</b> nemotron-l40s (<code>i</code>)\n<b>State:</b> Running\n\
         <b>Public IP:</b> 1.2.3.4\n<b>Inference Endpoint:</b> http://1.2.3.4:8330\n\
         <b>Configured Model:</b> <code>model</code>\n\n"
    ));
    state.instance_id = None;
    assert!(handle_scaleway_start(&config(), &state, "x").contains("(<code>unknown</code>)"));
    assert!(answer_message("1 < 2").starts_with("1 &lt; 2\n\n"));
}
