//! The configuration, the errors and the record.

use scaleway_chat::cli::{Cli, Commands};
use scaleway_chat::config::{
    default_inference_timeout, permissions_too_broad, Config, InstanceConfig, LoggingConfig,
    NemotronConfig, ScalewayConfig, SecretText, TimeoutsConfig,
};
use scaleway_chat::error::AppError;
use scaleway_chat::report::{
    configuration_text, report_remaining_resources, session_report, show_status,
};
use scaleway_chat::state::{Identity, ProvisioningPhase, State, STATE_VERSION};
use toml::Value;

fn text(table: &Value, key: &str) -> String {
    table[key].as_str().unwrap().to_string()
}

fn number(table: &Value, key: &str) -> u64 {
    table[key].as_integer().unwrap() as u64
}

fn read_config(toml_str: &str) -> Config {
    let all: Value = toml::from_str(toml_str).unwrap();
    let (s, i, n, t) = (&all["scaleway"], &all["instance"], &all["nemotron"], &all["timeouts"]);
    Config {
        scaleway: ScalewayConfig {
            access_key: text(s, "access_key"),
            secret_key: SecretText::new(text(s, "secret_key")),
            project_id: text(s, "project_id"),
            organization_id: text(s, "organization_id"),
            zone: text(s, "zone"),
        },
        instance: InstanceConfig {
            name: text(i, "name"),
            instance_type: text(i, "instance_type"),
            snapshot_id: text(i, "snapshot_id"),
            public_ip: text(i, "public_ip"),
            gpu_types: None,
        },
        nemotron: NemotronConfig {
            port: number(n, "port") as u16,
            api_key: SecretText::new(text(n, "api_key")),
            model: text(n, "model"),
            max_tokens: number(n, "max_tokens") as u32,
            temperature_bits: (n["temperature"].as_float().unwrap() as f32).to_bits(),
            system_prompt: text(n, "system_prompt"),
        },
        timeouts: TimeoutsConfig {
            instance_creation_seconds: number(t, "instance_creation_seconds"),
            instance_poll_interval_seconds: number(t, "instance_poll_interval_seconds"),
            nemotron_startup_seconds: number(t, "nemotron_startup_seconds"),
            nemotron_poll_interval_seconds: number(t, "nemotron_poll_interval_seconds"),
            cleanup_timeout_seconds: number(t, "cleanup_timeout_seconds"),
            cleanup_poll_interval_seconds: number(t, "cleanup_poll_interval_seconds"),
            inference_timeout_seconds: match t.get("inference_timeout_seconds") {
                Some(seconds) => seconds.as_integer().unwrap() as u64,
                None => default_inference_timeout(),
            },
        },
        logging: LoggingConfig { verbose: all["logging"]["verbose"].as_bool().unwrap() },
    }
}

const BASE: &str = r#"
[scaleway]
access_key = "SCWXXXXXXXXXXXXXXXXX"
secret_key = "secret"
project_id = "00000000-0000-0000-0000-000000000000"
organization_id = "00000000-0000-0000-0000-000000000000"
zone = "fr-par-2"

[instance]
name = "nemotron-l40s"
instance_type = "L40S-1-48G"
snapshot_id = "00000000-0000-0000-0000-000000000000"
public_ip = "new"

[nemotron]
port = 8330
api_key = "REPLACE_WITH_NEMOTRON_API_KEY"
model = "nemotron-3-nano-30b-a3b-q4-k-m"
max_tokens = 4096
temperature = 0.7
system_prompt = "You are a helpful assistant."

[timeouts]
instance_creation_seconds = 1200
instance_poll_interval_seconds = 10
nemotron_startup_seconds = 1200
nemotron_poll_interval_seconds = 10
cleanup_timeout_seconds = 300
cleanup_poll_interval_seconds = 5

[logging]
verbose = true
"#;

fn parse_and_validate(target: &str, replacement: &str) -> Result<(), String> {
    assert!(BASE.contains(target));
    let config = read_config(&BASE.replace(target, replacement));
    config.validate().map_err(|e| e.to_string())
}

fn fault(target: &str, replacement: &str) -> String {
    parse_and_validate(target, replacement).unwrap_err()
}

#[test]
fn test_invalid_uuid_validation() {
    let toml_str = BASE
        .replace("secret_key = \"secret\"", "secret_key = \"invalid-secret\"")
        .replace(
            "project_id = \"00000000-0000-0000-0000-000000000000\"",
            "project_id = \"invalid-uuid\"",
        );
    let config = read_config(&toml_str);
    let validation_res = config.validate();
    assert!(validation_res.is_err());
    assert_eq!(
        validation_res.unwrap_err().to_string(),
        "Invalid configuration: project_id must be a valid UUID"
    );
}

#[test]
fn test_config_validation_failures() {
    // 1. Access Key empty
    assert!(
        parse_and_validate("access_key = \"SCWXXXXXXXXXXXXXXXXX\"", "access_key = \"\"").is_err()
    );
    // 2. Secret Key empty
    assert!(parse_and_validate("secret_key = \"secret\"", "secret_key = \"\"").is_err());
    // 3. Zone empty
    assert!(parse_and_validate("zone = \"fr-par-2\"", "zone = \"\"").is_err());
    // 4. Invalid Zone formats
    assert!(parse_and_validate("zone = \"fr-par-2\"", "zone = \"invalid-zone-fmt\"").is_err());
    assert!(parse_and_validate("zone = \"fr-par-2\"", "zone = \"fr-par-invalid\"").is_err());
    // 5. Instance Name empty
    assert!(parse_and_validate("name = \"nemotron-l40s\"", "name = \"\"").is_err());
    // 6. Instance Type empty
    assert!(parse_and_validate("instance_type = \"L40S-1-48G\"", "instance_type = \"\"").is_err());
    // 7. Nemotron API Key empty
    assert!(parse_and_validate(
        "api_key = \"REPLACE_WITH_NEMOTRON_API_KEY\"",
        "api_key = \"\""
    )
    .is_err());
    // 8. Nemotron Model empty
    assert!(
        parse_and_validate("model = \"nemotron-3-nano-30b-a3b-q4-k-m\"", "model = \"\"").is_err()
    );
    // 9. Invalid project_id UUID
    assert!(parse_and_validate(
        "project_id = \"00000000-0000-0000-0000-000000000000\"",
        "project_id = \"not-a-uuid\""
    )
    .is_err());
    // 10. Invalid organization_id UUID
    assert!(parse_and_validate(
        "organization_id = \"00000000-0000-0000-0000-000000000000\"",
        "organization_id = \"not-a-uuid\""
    )
    .is_err());
    // 11. Invalid snapshot_id UUID
    assert!(parse_and_validate(
        "snapshot_id = \"00000000-0000-0000-0000-000000000000\"",
        "snapshot_id = \"not-a-uuid\""
    )
    .is_err());
    // 12. Nemotron port is 0
    assert!(parse_and_validate("port = 8330", "port = 0").is_err());
    // 13. Max tokens is 0
    assert!(parse_and_validate("max_tokens = 4096", "max_tokens = 0").is_err());
    // 14. Temperature out of bounds
    assert!(parse_and_validate("temperature = 0.7", "temperature = -0.5").is_err());
    assert!(parse_and_validate("temperature = 0.7", "temperature = 2.5").is_err());
    // 15. Timeouts are 0
    assert!(parse_and_validate(
        "instance_creation_seconds = 1200",
        "instance_creation_seconds = 0"
    )
    .is_err());
    assert!(parse_and_validate(
        "instance_poll_interval_seconds = 10",
        "instance_poll_interval_seconds = 0"
    )
    .is_err());
    assert!(parse_and_validate(
        "nemotron_startup_seconds = 1200",
        "nemotron_startup_seconds = 0"
    )
    .is_err());
    assert!(parse_and_validate(
        "nemotron_poll_interval_seconds = 10",
        "nemotron_poll_interval_seconds = 0"
    )
    .is_err());
    // 16. Unsupported Public IP value
    assert!(parse_and_validate("public_ip = \"new\"", "public_ip = \"existing\"").is_err());
}

#[test]
fn the_base_configuration_keeps_every_rule() {
    assert_eq!(parse_and_validate("zone", "zone"), Ok(()));
}

#[test]
fn each_rule_has_its_words() {
    let cases = vec![
        ("access_key = \"SCWXXXXXXXXXXXXXXXXX\"", "access_key = \" \\t\"", "access_key cannot be empty"),
        ("secret_key = \"secret\"", "secret_key = \"  \"", "secret_key cannot be empty"),
        ("zone = \"fr-par-2\"", "zone = \" \"", "zone cannot be empty"),
        ("name = \"nemotron-l40s\"", "name = \"\"", "instance name cannot be empty"),
        (
            "instance_type = \"L40S-1-48G\"",
            "instance_type = \" \"",
            "No GPU types configured. Specify either instance_type or gpu_types.",
        ),
        (
            "api_key = \"REPLACE_WITH_NEMOTRON_API_KEY\"",
            "api_key = \"\"",
            "nemotron api_key cannot be empty",
        ),
        (
            "model = \"nemotron-3-nano-30b-a3b-q4-k-m\"",
            "model = \"\"",
            "nemotron model cannot be empty",
        ),
        (
            "organization_id = \"00000000-0000-0000-0000-000000000000\"",
            "organization_id = \"x\"",
            "organization_id must be a valid UUID",
        ),
        (
            "snapshot_id = \"00000000-0000-0000-0000-000000000000\"",
            "snapshot_id = \"x\"",
            "snapshot_id must be a valid UUID",
        ),
        (
            "zone = \"fr-par-2\"",
            "zone = \"fr-paris-2\"",
            "zone 'fr-paris-2' does not follow expected format (e.g., fr-par-2)",
        ),
        ("port = 8330", "port = 0", "nemotron port must be between 1 and 65535"),
        ("max_tokens = 4096", "max_tokens = 0", "max_tokens must be positive"),
        (
            "temperature = 0.7",
            "temperature = 2.0000003",
            "temperature must be between 0.0 and 2.0",
        ),
        (
            "cleanup_timeout_seconds = 300",
            "cleanup_timeout_seconds = 0",
            "cleanup_timeout_seconds must be positive",
        ),
        (
            "cleanup_poll_interval_seconds = 5",
            "cleanup_poll_interval_seconds = 0",
            "cleanup_poll_interval_seconds must be positive",
        ),
        (
            "public_ip = \"new\"",
            "public_ip = \"existing\"",
            "unsupported public_ip value 'existing' (only 'new' is supported in this version)",
        ),
    ];
    for (target, replacement, words) in cases {
        assert_eq!(
            fault(target, replacement),
            format!("Invalid configuration: {}", words)
        );
    }
}

#[test]
fn the_first_rule_that_is_broken_is_named() {
    let both = BASE
        .replace("port = 8330", "port = 0")
        .replace("max_tokens = 4096", "max_tokens = 0");
    let e = read_config(&both).validate().unwrap_err();
    assert!(matches!(
        e,
        AppError::InvalidConfig(m) if m == "nemotron port must be between 1 and 65535"
    ));
}

#[test]
fn temperatures_are_taken_at_both_ends() {
    for good in ["0.0", "-0.0", "2.0", "1.0e-30", "1.9999999"] {
        assert!(parse_and_validate("temperature = 0.7", &format!("temperature = {}", good)).is_ok());
    }
    for bad in ["-1.0e-30", "2.1", "1.0e30", "inf", "-inf", "nan", "-nan"] {
        assert_eq!(
            fault("temperature = 0.7", &format!("temperature = {}", bad)),
            "Invalid configuration: temperature must be between 0.0 and 2.0"
        );
    }
}

#[test]
fn an_answer_has_time() {
    let with = |seconds: u64| format!("[timeouts]\ninference_timeout_seconds = {}", seconds);
    assert!(parse_and_validate("[timeouts]", &with(1)).is_ok());
    assert_eq!(
        fault("[timeouts]", &with(0)),
        "Invalid configuration: inference_timeout_seconds must be positive"
    );
}

#[test]
fn zones_have_three_parts() {
    for good in ["nl-ams-1", "pl-waw-2", "fr-par-+7", "é-par-1", "fr-par-4294967295"] {
        assert!(parse_and_validate("zone = \"fr-par-2\"", &format!("zone = \"{}\"", good)).is_ok());
    }
    for bad in ["fr-par", "fr-par-2-3", "f-par-2", "fr-pa-2", "fr-par-", "fr-par-4294967296"] {
        assert!(parse_and_validate("zone = \"fr-par-2\"", &format!("zone = \"{}\"", bad)).is_err());
    }
}

fn with_list(list: Vec<&str>) -> Config {
    let mut config = read_config(BASE);
    config.instance.gpu_types = Some(list.into_iter().map(|s| s.to_string()).collect());
    config
}

#[test]
fn test_fallback_order_preserved() {
    let config = with_list(vec!["L40S-1-48G", "L40S-2-48G", "H100-1-80G"]);
    let order = config.instance.effective_gpu_types();
    assert_eq!(
        order,
        vec![
            "L40S-1-48G".to_string(),
            "L40S-2-48G".to_string(),
            "H100-1-80G".to_string(),
        ]
    );
}

#[test]
fn the_list_takes_precedence_over_the_one_type() {
    let mut config = with_list(vec!["H100-1-80G"]);
    config.instance.instance_type = "L40S-1-48G".to_string();
    assert_eq!(config.instance.effective_gpu_types(), vec!["H100-1-80G".to_string()]);
    config.instance.gpu_types = None;
    assert_eq!(config.instance.effective_gpu_types(), vec!["L40S-1-48G".to_string()]);
    config.instance.instance_type = "  ".to_string();
    assert!(config.instance.effective_gpu_types().is_empty());
}

#[test]
fn the_list_holds_no_blank_and_no_duplicate() {
    assert!(with_list(vec!["a", "b"]).validate().is_ok());
    assert!(matches!(
        with_list(vec!["a", " "]).validate(),
        Err(AppError::InvalidConfig(m)) if m == "GPU type name cannot be empty"
    ));
    assert!(matches!(
        with_list(vec!["a", "b", "a"]).validate(),
        Err(AppError::InvalidConfig(m)) if m == "Duplicate GPU type entry in config: a"
    ));
    assert!(matches!(
        with_list(vec![]).validate(),
        Err(AppError::InvalidConfig(m))
            if m == "No GPU types configured. Specify either instance_type or gpu_types."
    ));
}

#[test]
fn test_secrets_redacted_from_logs() {
    let mut config = read_config(BASE);
    config.nemotron.api_key = SecretText::new("key".to_string());

    let scw_secret_debug = format!("{:?}", config.scaleway.secret_key.redacted());
    assert!(!scw_secret_debug.contains("secret"));

    let nemo_secret_debug = format!("{:?}", config.nemotron.api_key.redacted());
    assert!(!nemo_secret_debug.contains("key"));

    assert_eq!(config.scaleway.secret_key.expose_secret(), "secret");
}

#[test]
fn a_file_is_for_its_owner_alone() {
    assert!(!permissions_too_broad(0o100600));
    assert!(!permissions_too_broad(0o100700));
    assert!(permissions_too_broad(0o100640));
    assert!(permissions_too_broad(0o100601));
    assert_eq!(default_inference_timeout(), 300);
}

#[test]
fn a_conversation_is_the_default() {
    let mut cli = Cli { config: None, verbose: false, no_color: false, command: None };
    assert_eq!(cli.selected(), Commands::Run);
    cli.command = Some(Commands::Hal);
    assert_eq!(cli.selected(), Commands::Hal);
}

// ---------------------------------------------------------------- errors

#[test]
fn every_error_has_its_words() {
    let m = || "m".to_string();
    let cases = vec![
        (AppError::ConfigNotFound, "Configuration file not found"),
        (AppError::InvalidConfig(m()), "Invalid configuration: m"),
        (AppError::AuthenticationFailed(m()), "Authentication failed: m"),
        (AppError::PermissionDenied(m()), "Permission denied: m"),
        (AppError::ProjectNotFound(m()), "Project not found: m"),
        (AppError::SnapshotNotFound(m()), "Snapshot not found: m"),
        (
            AppError::SnapshotWrongZone { snapshot_zone: m(), expected_zone: "n".to_string() },
            "Snapshot zone m does not match configured zone n",
        ),
        (AppError::InstanceTypeUnavailable(m()), "Instance type unavailable: m"),
        (AppError::CapacityUnavailable(m()), "Capacity unavailable: m"),
        (AppError::VolumeCreationFailed(m()), "Volume creation failed: m"),
        (AppError::IpAllocationFailed(m()), "IP allocation failed: m"),
        (AppError::InstanceCreationFailed(m()), "Instance creation failed: m"),
        (AppError::InstanceStartupTimeout, "Instance startup timed out"),
        (
            AppError::NemotronAuthenticationFailed,
            "Nemotron authentication failed (invalid API key)",
        ),
        (AppError::NemotronStartupTimeout, "Nemotron startup timed out"),
        (AppError::ChatRequestFailed(m()), "Chat request failed: m"),
        (AppError::MalformedStreamEvent(m()), "Malformed SSE event: m"),
        (AppError::CleanupIncomplete(m()), "Cleanup incomplete: m"),
        (AppError::SafetyViolation(m()), "Safety violation: m"),
        (AppError::ApiError(m()), "API Error: m"),
        (AppError::Io(m()), "I/O error: m"),
        (AppError::Reqwest(m()), "HTTP client error: m"),
        (AppError::Serde(m()), "JSON processing error: m"),
        (AppError::Toml(m()), "TOML processing error: m"),
        (AppError::Uuid(m()), "UUID processing error: m"),
        (
            AppError::OutOfStock { gpu_type: m(), zone: "z".to_string() },
            "GPU type m is out of stock in z",
        ),
        (
            AppError::IncompatibleVolume { gpu_type: m(), reason: "r".to_string() },
            "Incompatible volume for m: r",
        ),
        (
            AppError::GuestRuntimeIncompatible { gpu_type: m(), reason: "r".to_string() },
            "Guest runtime incompatible with m: r",
        ),
        (
            AppError::NoCompatibleGpuAvailable {
                zone: "z".to_string(),
                attempted: vec!["a".to_string(), "b".to_string()],
            },
            "No compatible GPU available in z (attempted: a, b)",
        ),
    ];
    for (e, words) in cases {
        assert_eq!(e.to_string(), words);
    }
}

#[test]
fn errors_are_told_apart() {
    let missing = "API Error (status 404 Not Found): x".to_string();
    assert!(AppError::InvalidConfig(missing.clone()).is_not_found());
    assert!(!AppError::CleanupIncomplete(missing).is_not_found());
    assert!(!AppError::ApiError("status 404".to_string()).is_not_found());
    assert!(!AppError::ApiError("resource_not_found".to_string()).is_not_found());
    assert!(!AppError::InvalidConfig("inst-404".to_string()).is_not_found());

    let stock = AppError::OutOfStock { gpu_type: "g".to_string(), zone: "z".to_string() };
    assert!(stock.is_out_of_stock());
    assert!(stock.should_try_next_gpu());
    assert!(AppError::ApiError("out_of_stock:\n- message: x".to_string()).is_out_of_stock());
    assert!(!AppError::ApiError("out_of_stock".to_string()).should_try_next_gpu());
    assert!(!AppError::NemotronStartupTimeout.should_try_next_gpu());
    assert!(!AppError::NemotronStartupTimeout.is_out_of_stock());
    let volume =
        AppError::IncompatibleVolume { gpu_type: "g".to_string(), reason: "r".to_string() };
    assert!(volume.should_try_next_gpu());
    let guest =
        AppError::GuestRuntimeIncompatible { gpu_type: "g".to_string(), reason: "r".to_string() };
    assert!(guest.should_try_next_gpu());
}

// ---------------------------------------------------------------- the record

fn new_state() -> State {
    State::new("1b552e81-401d-4c15-b0b2-3c89e2d46c28".to_string(), "fr-par-2".to_string())
}

#[test]
fn a_new_record_holds_nothing() {
    let state = new_state();
    assert_eq!(state.version, 4);
    assert_eq!(state.version, STATE_VERSION);
    assert_eq!(state.creation_mode, Some("snapshot_direct".to_string()));
    assert_eq!(state.snapshot_id, "1b552e81-401d-4c15-b0b2-3c89e2d46c28");
    assert_eq!(state.zone, "fr-par-2");
    assert_eq!(state.instance_id, None);
    assert_eq!(state.volume_id, None);
    assert_eq!(state.public_ip_id, None);
    assert_eq!(state.public_ip_address, None);
    assert_eq!(state.phase, ProvisioningPhase::Preflight);
    assert!(state.attempted_gpu_types.is_empty());
    assert!(uuid::Uuid::parse_str(&state.attempt_id).is_ok());
    assert!(chrono::DateTime::parse_from_rfc3339(&state.created_at).is_ok());
}

#[test]
fn attempts_are_noted_in_order() {
    let mut state = new_state();
    let first = state.attempt_id.clone();
    state.start_attempt("a");
    let second = state.attempt_id.clone();
    state.start_attempt("b");
    assert_ne!(first, second);
    assert_ne!(second, state.attempt_id);
    assert_eq!(state.selected_gpu_type, "b");
    assert_eq!(state.attempted_gpu_types, vec!["a".to_string(), "b".to_string()]);
    state.begin_attempt("c", "12345678".to_string());
    assert_eq!(state.attempt_id, "12345678");
}

#[test]
fn a_record_is_opened_under_an_identity() {
    let identity = Identity {
        attempt_id: "12345678-x".to_string(),
        created_at: "2026-01-01T00:00:00+00:00".to_string(),
    };
    let state = State::opened("s".to_string(), "z".to_string(), identity);
    assert_eq!(state.attempt_id, "12345678-x");
    assert_eq!(state.created_at, "2026-01-01T00:00:00+00:00");
}

// ---------------------------------------------------------------- what is said of it

#[test]
fn the_configuration_is_shown() {
    let words = configuration_text(&read_config(BASE), "\"/c.toml\"");
    assert_eq!(
        words,
        "\n--- Local Configuration ---\nConfig file: \"/c.toml\"\nZone: fr-par-2\n\
         Project ID: 00000000-0000-0000-0000-000000000000\nTarget Instance Name: nemotron-l40s\n\
         Target Instance Type: L40S-1-48G\n\
         Source Snapshot ID: 00000000-0000-0000-0000-000000000000\n\n--- Local State File ---\n"
    );
}

#[test]
fn what_the_record_holds_is_shown_with_what_is_there() {
    assert_eq!(
        show_status(&None, "/s", "", &None, &None, &None),
        "No local state file found. No resources are currently tracked.\n"
    );

    let mut state = new_state();
    state.instance_id = Some("i".to_string());
    state.volume_id = Some("v".to_string());
    state.public_ip_id = Some("p".to_string());
    let server = Some(Ok(r#"{"server": {"state": "running"}}"#.to_string()));
    let volume = Some(Ok(r#"{"status": 3}"#.to_string()));
    let ip = Some(Err(AppError::ApiError("gone".to_string())));
    assert_eq!(
        show_status(&Some(state), "/s", "today", &server, &volume, &ip),
        "State file path: /s\nTracked Instance ID: Some(\"i\")\nTracked Volume ID: Some(\"v\")\n\
         Tracked IP ID: Some(\"p\")\nTracked IP Address: None\nCreated At: today\n\n\
         --- Remote Scaleway Status ---\nInstance (i): state is 'running'\n\
         Volume (v): status is 'unknown'\nIP (p): NOT found on Scaleway\n"
    );

    let bare = show_status(&Some(new_state()), "/s", "today", &None, &None, &None);
    assert!(bare.ends_with("Instance: None\nVolume: None\nPublic IP: None\n"));
}

#[test]
fn what_is_left_is_shown() {
    let mut state = new_state();
    assert_eq!(
        report_remaining_resources(&state),
        "\nTracked resources remaining active:\nState file preserved for recovery. Run scaleway-chat status or kill to manage.\n"
    );
    state.instance_id = Some("i".to_string());
    state.public_ip_id = Some("p".to_string());
    state.public_ip_address = Some("1.2.3.4".to_string());
    assert_eq!(
        report_remaining_resources(&state),
        "\nTracked resources remaining active:\n  - Public IP: p (Some(\"1.2.3.4\"))\n  - Instance: i\nState file preserved for recovery. Run scaleway-chat status or kill to manage.\n"
    );
    assert_eq!(
        session_report(&state, "1.2.3.4"),
        "Instance ID: Some(\"i\")\nVolume ID: None\nPublic IP: 1.2.3.4"
    );
}
