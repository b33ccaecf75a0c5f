//! What can go wrong.

use vstd::prelude::*;
#[allow(unused_imports)]
use vstd::string::*;

use crate::text::{contains, join, strip_prefix};
#[allow(unused_imports)]
use crate::text;

verus! {

/// What can go wrong.
#[derive(Debug)]
pub enum AppError {
    /// There is no configuration file.
    ConfigNotFound,
    /// The configuration breaks a rule.
    InvalidConfig(String),
    /// The API does not accept the credentials.
    AuthenticationFailed(String),
    /// The credentials do not cover the request.
    PermissionDenied(String),
    /// The API does not know the project.
    ProjectNotFound(String),
    /// The snapshot is absent or not ready.
    SnapshotNotFound(String),
    /// The snapshot lies in another zone.
    SnapshotWrongZone {
        /// Where the snapshot lies.
        snapshot_zone: String,
        /// The zone of the configuration.
        expected_zone: String,
    },
    /// The zone does not offer the instance type.
    InstanceTypeUnavailable(String),
    /// The zone has no capacity left.
    CapacityUnavailable(String),
    /// A volume could not be made.
    VolumeCreationFailed(String),
    /// A public address could not be had or attached.
    IpAllocationFailed(String),
    /// An instance could not be made or started.
    InstanceCreationFailed(String),
    /// The instance did not come up in time.
    InstanceStartupTimeout,
    /// The inference server does not accept the key.
    NemotronAuthenticationFailed,
    /// The inference server did not come up in time.
    NemotronStartupTimeout,
    /// A chat request failed.
    ChatRequestFailed(String),
    /// An event of a stream could not be read.
    MalformedStreamEvent(String),
    /// Resources are left that could not be removed.
    CleanupIncomplete(String),
    /// A request would have touched the snapshot.
    SafetyViolation(String),
    /// Any other refusal of the API.
    ApiError(String),
    /// Reading or writing failed; the text says how.
    Io(String),
    /// An HTTP exchange failed; the text says how.
    Reqwest(String),
    /// JSON could not be read or written; the text says how.
    Serde(String),
    /// TOML could not be read; the text says how.
    Toml(String),
    /// An identifier could not be read; the text says how.
    Uuid(String),
    /// The zone has none of this GPU type left.
    OutOfStock {
        /// The GPU type.
        gpu_type: String,
        /// The zone.
        zone: String,
    },
    /// The boot volume does not go with the snapshot.
    IncompatibleVolume {
        /// The GPU type of the attempt.
        gpu_type: String,
        /// What does not fit.
        reason: String,
    },
    /// What runs on the instance cannot use its GPU.
    GuestRuntimeIncompatible {
        /// The GPU type of the attempt.
        gpu_type: String,
        /// What the instance said.
        reason: String,
    },
    /// Every GPU type of the list was passed over or failed.
    NoCompatibleGpuAvailable {
        /// The zone.
        zone: String,
        /// The list, in the order it was tried in.
        attempted: Vec<String>,
    },
}

/// The outcome of what can go wrong.
pub type Result<T> = std::result::Result<T, AppError>;

/// An error as a value: the same cases over texts.
pub enum AppErrorView {
    /// There is no configuration file.
    ConfigNotFound,
    /// The configuration breaks a rule.
    InvalidConfig(Seq<char>),
    /// The API does not accept the credentials.
    AuthenticationFailed(Seq<char>),
    /// The credentials do not cover the request.
    PermissionDenied(Seq<char>),
    /// The API does not know the project.
    ProjectNotFound(Seq<char>),
    /// The snapshot is absent or not ready.
    SnapshotNotFound(Seq<char>),
    /// The snapshot lies in another zone.
    SnapshotWrongZone {
        /// Where the snapshot lies.
        snapshot_zone: Seq<char>,
        /// The zone of the configuration.
        expected_zone: Seq<char>,
    },
    /// The zone does not offer the instance type.
    InstanceTypeUnavailable(Seq<char>),
    /// The zone has no capacity left.
    CapacityUnavailable(Seq<char>),
    /// A volume could not be made.
    VolumeCreationFailed(Seq<char>),
    /// A public address could not be had or attached.
    IpAllocationFailed(Seq<char>),
    /// An instance could not be made or started.
    InstanceCreationFailed(Seq<char>),
    /// The instance did not come up in time.
    InstanceStartupTimeout,
    /// The inference server does not accept the key.
    NemotronAuthenticationFailed,
    /// The inference server did not come up in time.
    NemotronStartupTimeout,
    /// A chat request failed.
    ChatRequestFailed(Seq<char>),
    /// An event of a stream could not be read.
    MalformedStreamEvent(Seq<char>),
    /// Resources are left that could not be removed.
    CleanupIncomplete(Seq<char>),
    /// A request would have touched the snapshot.
    SafetyViolation(Seq<char>),
    /// Any other refusal of the API.
    ApiError(Seq<char>),
    /// Reading or writing failed; the text says how.
    Io(Seq<char>),
    /// An HTTP exchange failed; the text says how.
    Reqwest(Seq<char>),
    /// JSON could not be read or written; the text says how.
    Serde(Seq<char>),
    /// TOML could not be read; the text says how.
    Toml(Seq<char>),
    /// An identifier could not be read; the text says how.
    Uuid(Seq<char>),
    /// The zone has none of this GPU type left.
    OutOfStock {
        /// The GPU type.
        gpu_type: Seq<char>,
        /// The zone.
        zone: Seq<char>,
    },
    /// The boot volume does not go with the snapshot.
    IncompatibleVolume {
        /// The GPU type of the attempt.
        gpu_type: Seq<char>,
        /// What does not fit.
        reason: Seq<char>,
    },
    /// What runs on the instance cannot use its GPU.
    GuestRuntimeIncompatible {
        /// The GPU type of the attempt.
        gpu_type: Seq<char>,
        /// What the instance said.
        reason: Seq<char>,
    },
    /// Every GPU type of the list was passed over or failed.
    NoCompatibleGpuAvailable {
        /// The zone.
        zone: Seq<char>,
        /// The list, in the order it was tried in.
        attempted: Seq<Seq<char>>,
    },
}

impl View for AppError {
    type V = AppErrorView;

    open spec fn view(&self) -> AppErrorView {
        match self {
            AppError::ConfigNotFound => AppErrorView::ConfigNotFound,
            AppError::InvalidConfig(m) => AppErrorView::InvalidConfig(m@),
            AppError::AuthenticationFailed(m) => AppErrorView::AuthenticationFailed(m@),
            AppError::PermissionDenied(m) => AppErrorView::PermissionDenied(m@),
            AppError::ProjectNotFound(m) => AppErrorView::ProjectNotFound(m@),
            AppError::SnapshotNotFound(m) => AppErrorView::SnapshotNotFound(m@),
            AppError::SnapshotWrongZone { snapshot_zone, expected_zone } => AppErrorView::SnapshotWrongZone {
                snapshot_zone: snapshot_zone@,
                expected_zone: expected_zone@,
            },
            AppError::InstanceTypeUnavailable(m) => AppErrorView::InstanceTypeUnavailable(m@),
            AppError::CapacityUnavailable(m) => AppErrorView::CapacityUnavailable(m@),
            AppError::VolumeCreationFailed(m) => AppErrorView::VolumeCreationFailed(m@),
            AppError::IpAllocationFailed(m) => AppErrorView::IpAllocationFailed(m@),
            AppError::InstanceCreationFailed(m) => AppErrorView::InstanceCreationFailed(m@),
            AppError::InstanceStartupTimeout => AppErrorView::InstanceStartupTimeout,
            AppError::NemotronAuthenticationFailed => AppErrorView::NemotronAuthenticationFailed,
            AppError::NemotronStartupTimeout => AppErrorView::NemotronStartupTimeout,
            AppError::ChatRequestFailed(m) => AppErrorView::ChatRequestFailed(m@),
            AppError::MalformedStreamEvent(m) => AppErrorView::MalformedStreamEvent(m@),
            AppError::CleanupIncomplete(m) => AppErrorView::CleanupIncomplete(m@),
            AppError::SafetyViolation(m) => AppErrorView::SafetyViolation(m@),
            AppError::ApiError(m) => AppErrorView::ApiError(m@),
            AppError::Io(m) => AppErrorView::Io(m@),
            AppError::Reqwest(m) => AppErrorView::Reqwest(m@),
            AppError::Serde(m) => AppErrorView::Serde(m@),
            AppError::Toml(m) => AppErrorView::Toml(m@),
            AppError::Uuid(m) => AppErrorView::Uuid(m@),
            AppError::OutOfStock { gpu_type, zone } => AppErrorView::OutOfStock {
                gpu_type: gpu_type@,
                zone: zone@,
            },
            AppError::IncompatibleVolume { gpu_type, reason } => AppErrorView::IncompatibleVolume {
                gpu_type: gpu_type@,
                reason: reason@,
            },
            AppError::GuestRuntimeIncompatible { gpu_type, reason } => AppErrorView::GuestRuntimeIncompatible {
                gpu_type: gpu_type@,
                reason: reason@,
            },
            AppError::NoCompatibleGpuAvailable { zone, attempted } => {
                AppErrorView::NoCompatibleGpuAvailable { zone: zone@, attempted: text::texts(attempted@) }
            },
        }
    }
}

/// What an error says to the user.
pub open spec fn error_text(e: AppErrorView) -> Seq<char> {
    match e {
        AppErrorView::ConfigNotFound => "Configuration file not found"@,
        AppErrorView::InvalidConfig(m) => "Invalid configuration: "@ + m,
        AppErrorView::AuthenticationFailed(m) => "Authentication failed: "@ + m,
        AppErrorView::PermissionDenied(m) => "Permission denied: "@ + m,
        AppErrorView::ProjectNotFound(m) => "Project not found: "@ + m,
        AppErrorView::SnapshotNotFound(m) => "Snapshot not found: "@ + m,
        AppErrorView::SnapshotWrongZone { snapshot_zone, expected_zone } => {
            "Snapshot zone "@ + snapshot_zone + " does not match configured zone "@ + expected_zone
        },
        AppErrorView::InstanceTypeUnavailable(m) => "Instance type unavailable: "@ + m,
        AppErrorView::CapacityUnavailable(m) => "Capacity unavailable: "@ + m,
        AppErrorView::VolumeCreationFailed(m) => "Volume creation failed: "@ + m,
        AppErrorView::IpAllocationFailed(m) => "IP allocation failed: "@ + m,
        AppErrorView::InstanceCreationFailed(m) => "Instance creation failed: "@ + m,
        AppErrorView::InstanceStartupTimeout => "Instance startup timed out"@,
        AppErrorView::NemotronAuthenticationFailed => "Nemotron authentication failed (invalid API key)"@,
        AppErrorView::NemotronStartupTimeout => "Nemotron startup timed out"@,
        AppErrorView::ChatRequestFailed(m) => "Chat request failed: "@ + m,
        AppErrorView::MalformedStreamEvent(m) => "Malformed SSE event: "@ + m,
        AppErrorView::CleanupIncomplete(m) => "Cleanup incomplete: "@ + m,
        AppErrorView::SafetyViolation(m) => "Safety violation: "@ + m,
        AppErrorView::ApiError(m) => "API Error: "@ + m,
        AppErrorView::Io(m) => "I/O error: "@ + m,
        AppErrorView::Reqwest(m) => "HTTP client error: "@ + m,
        AppErrorView::Serde(m) => "JSON processing error: "@ + m,
        AppErrorView::Toml(m) => "TOML processing error: "@ + m,
        AppErrorView::Uuid(m) => "UUID processing error: "@ + m,
        AppErrorView::OutOfStock { gpu_type, zone } => {
            "GPU type "@ + gpu_type + " is out of stock in "@ + zone
        },
        AppErrorView::IncompatibleVolume { gpu_type, reason } => {
            "Incompatible volume for "@ + gpu_type + ": "@ + reason
        },
        AppErrorView::GuestRuntimeIncompatible { gpu_type, reason } => {
            "Guest runtime incompatible with "@ + gpu_type + ": "@ + reason
        },
        AppErrorView::NoCompatibleGpuAvailable { zone, attempted } => {
            "No compatible GPU available in "@ + zone + " (attempted: "@ + text::joined(
                attempted,
                ", "@,
            ) + ")"@
        },
    }
}

/// Whether an error is the refusal of the API with the status 404: the thing asked for does not
/// exist. Nothing else that an error says counts, neither an identifier nor what the API says of a
/// refusal with another status.
pub open spec fn says_not_found(e: AppErrorView) -> bool {
    e matches AppErrorView::InvalidConfig(m) && text::stands_at(m, "API Error (status 404 "@, 0)
}

/// Whether an error says that a GPU type is out of stock.
pub open spec fn says_out_of_stock(e: AppErrorView) -> bool {
    e is OutOfStock || text::holds_text(error_text(e), "out_of_stock"@)
}

/// Whether an error speaks against one GPU type only, so that the next one may be tried.
pub open spec fn concerns_one_gpu(e: AppErrorView) -> bool {
    e is OutOfStock || e is IncompatibleVolume || e is GuestRuntimeIncompatible
}

impl AppError {
    /// What the error says to the user.
    pub fn to_string(&self) -> (text: String)
        ensures
            text@ == error_text(self@),
    {
        match self {
            AppError::ConfigNotFound => "Configuration file not found".to_owned(),
            AppError::InvalidConfig(m) => "Invalid configuration: ".to_owned().concat(m.as_str()),
            AppError::AuthenticationFailed(m) => "Authentication failed: ".to_owned().concat(m.as_str()),
            AppError::PermissionDenied(m) => "Permission denied: ".to_owned().concat(m.as_str()),
            AppError::ProjectNotFound(m) => "Project not found: ".to_owned().concat(m.as_str()),
            AppError::SnapshotNotFound(m) => "Snapshot not found: ".to_owned().concat(m.as_str()),
            AppError::SnapshotWrongZone { snapshot_zone, expected_zone } => "Snapshot zone ".to_owned()
                .concat(snapshot_zone.as_str())
                .concat(" does not match configured zone ")
                .concat(expected_zone.as_str()),
            AppError::InstanceTypeUnavailable(m) => "Instance type unavailable: ".to_owned().concat(m.as_str()),
            AppError::CapacityUnavailable(m) => "Capacity unavailable: ".to_owned().concat(m.as_str()),
            AppError::VolumeCreationFailed(m) => "Volume creation failed: ".to_owned().concat(m.as_str()),
            AppError::IpAllocationFailed(m) => "IP allocation failed: ".to_owned().concat(m.as_str()),
            AppError::InstanceCreationFailed(m) => "Instance creation failed: ".to_owned().concat(m.as_str()),
            AppError::InstanceStartupTimeout => "Instance startup timed out".to_owned(),
            AppError::NemotronAuthenticationFailed => "Nemotron authentication failed (invalid API key)".to_owned(),
            AppError::NemotronStartupTimeout => "Nemotron startup timed out".to_owned(),
            AppError::ChatRequestFailed(m) => "Chat request failed: ".to_owned().concat(m.as_str()),
            AppError::MalformedStreamEvent(m) => "Malformed SSE event: ".to_owned().concat(m.as_str()),
            AppError::CleanupIncomplete(m) => "Cleanup incomplete: ".to_owned().concat(m.as_str()),
            AppError::SafetyViolation(m) => "Safety violation: ".to_owned().concat(m.as_str()),
            AppError::ApiError(m) => "API Error: ".to_owned().concat(m.as_str()),
            AppError::Io(m) => "I/O error: ".to_owned().concat(m.as_str()),
            AppError::Reqwest(m) => "HTTP client error: ".to_owned().concat(m.as_str()),
            AppError::Serde(m) => "JSON processing error: ".to_owned().concat(m.as_str()),
            AppError::Toml(m) => "TOML processing error: ".to_owned().concat(m.as_str()),
            AppError::Uuid(m) => "UUID processing error: ".to_owned().concat(m.as_str()),
            AppError::OutOfStock { gpu_type, zone } => "GPU type ".to_owned()
                .concat(gpu_type.as_str())
                .concat(" is out of stock in ")
                .concat(zone.as_str()),
            AppError::IncompatibleVolume { gpu_type, reason } => "Incompatible volume for "
                .to_owned()
                .concat(gpu_type.as_str())
                .concat(": ")
                .concat(reason.as_str()),
            AppError::GuestRuntimeIncompatible { gpu_type, reason } => {
                "Guest runtime incompatible with ".to_owned()
                    .concat(gpu_type.as_str())
                    .concat(": ")
                    .concat(reason.as_str())
            },
            AppError::NoCompatibleGpuAvailable { zone, attempted } => {
                "No compatible GPU available in ".to_owned()
                    .concat(zone.as_str())
                    .concat(" (attempted: ")
                    .concat(join(attempted, ", ").as_str())
                    .concat(")")
            },
        }
    }

    /// Whether the error is the refusal of the API with the status 404: the thing asked for does
    /// not exist.
    pub fn is_not_found(&self) -> (yes: bool)
        ensures
            yes == says_not_found(self@),
    {
        match self {
            AppError::InvalidConfig(m) => strip_prefix(m.as_str(), "API Error (status 404 ").is_some(),
            _ => false,
        }
    }

    /// Whether the error says that a GPU type is out of stock.
    pub fn is_out_of_stock(&self) -> (yes: bool)
        ensures
            yes == says_out_of_stock(self@),
    {
        let named: bool = match self {
            AppError::OutOfStock { .. } => true,
            _ => false,
        };
        named || contains(self.to_string().as_str(), "out_of_stock")
    }

    /// Whether the error speaks against one GPU type only, so that the next one may be tried.
    pub fn should_try_next_gpu(&self) -> (yes: bool)
        ensures
            yes == concerns_one_gpu(self@),
    {
        match self {
            AppError::OutOfStock { .. } => true,
            AppError::IncompatibleVolume { .. } => true,
            AppError::GuestRuntimeIncompatible { .. } => true,
            _ => false,
        }
    }
}

} // verus!
