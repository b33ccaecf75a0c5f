//! What an orchestration asks of the world, and what comes back.

use vstd::prelude::*;

use crate::error::AppError;
use crate::scaleway::models::{InstanceIp, Server, ServerTypesResponse, Snapshot, Volume};

verus! {

/// What an orchestration asks of the world.
#[derive(Debug, Clone)]
pub enum Call {
    /// Write the record down.
    SaveState,
    /// Remove the record.
    RemoveState,
    /// Tell the user how far things are.
    Report {
        /// How far, in percent.
        percent: u32,
        /// In words.
        message: String,
    },
    /// Check the credentials and the project.
    ValidateAuth,
    /// Look at a snapshot, and whether it can be used.
    GetSnapshot {
        /// The snapshot.
        snapshot_id: String,
    },
    /// Look at an instance.
    GetServer {
        /// The instance.
        server_id: String,
    },
    /// Look at a volume.
    GetVolume {
        /// The volume.
        volume_id: String,
    },
    /// Look at a public address.
    GetPublicIp {
        /// The address.
        ip_id: String,
    },
    /// List the products of the zone.
    ListProducts,
    /// Make an instance.
    CreateInstance {
        /// The name it will have.
        name: String,
        /// The product it is made of.
        gpu_type: String,
        /// The snapshot it boots from.
        snapshot_id: String,
        /// The attempt it belongs to.
        attempt_id: String,
    },
    /// Switch an instance on.
    PowerOn {
        /// The instance.
        server_id: String,
    },
    /// Switch an instance off.
    PowerOff {
        /// The instance.
        server_id: String,
    },
    /// Wait until an instance is up.
    WaitRunning {
        /// The instance.
        server_id: String,
        /// How long at most, in seconds.
        timeout_secs: u64,
        /// How long between two looks, in seconds.
        poll_secs: u64,
    },
    /// Wait until an instance is down.
    WaitStopped {
        /// The instance.
        server_id: String,
        /// How long at most, in seconds.
        timeout_secs: u64,
        /// How long between two looks, in seconds.
        poll_secs: u64,
    },
    /// Have a public address.
    AllocateIp {
        /// The attempt it belongs to.
        attempt_id: String,
    },
    /// Attach a public address to an instance.
    AttachIp {
        /// The address.
        ip_id: String,
        /// The instance.
        server_id: String,
    },
    /// Wait until the inference server is up.
    WaitNemotron {
        /// Its address.
        ip_address: String,
        /// How long at most, in seconds.
        timeout_secs: u64,
        /// How long between two looks, in seconds.
        poll_secs: u64,
    },
    /// Remove an instance.
    DeleteInstance {
        /// The instance.
        server_id: String,
        /// The snapshot that must stay.
        snapshot_id: String,
    },
    /// Wait until an instance is gone.
    VerifyInstanceDeleted {
        /// The instance.
        server_id: String,
        /// How long at most, in seconds.
        timeout_secs: u64,
        /// How long between two looks, in seconds.
        poll_secs: u64,
    },
    /// Remove a volume.
    DeleteVolume {
        /// The volume.
        volume_id: String,
        /// The snapshot that must stay.
        snapshot_id: String,
    },
    /// Wait until a volume is gone.
    VerifyVolumeDeleted {
        /// The volume.
        volume_id: String,
        /// How long at most, in seconds.
        timeout_secs: u64,
        /// How long between two looks, in seconds.
        poll_secs: u64,
    },
    /// Give a public address back.
    DeletePublicIp {
        /// The address.
        ip_id: String,
        /// The snapshot that must stay.
        snapshot_id: String,
    },
    /// Wait until a public address is gone.
    VerifyPublicIpDeleted {
        /// The address.
        ip_id: String,
        /// How long at most, in seconds.
        timeout_secs: u64,
        /// How long between two looks, in seconds.
        poll_secs: u64,
    },
}

/// A call as a value.
pub enum CallView {
    /// Write the record down.
    SaveState,
    /// Remove the record.
    RemoveState,
    /// Tell the user how far things are.
    Report { percent: u32, message: Seq<char> },
    /// Check the credentials and the project.
    ValidateAuth,
    /// Look at a snapshot, and whether it can be used.
    GetSnapshot { snapshot_id: Seq<char> },
    /// Look at an instance.
    GetServer { server_id: Seq<char> },
    /// Look at a volume.
    GetVolume { volume_id: Seq<char> },
    /// Look at a public address.
    GetPublicIp { ip_id: Seq<char> },
    /// List the products of the zone.
    ListProducts,
    /// Make an instance.
    CreateInstance {
        name: Seq<char>,
        gpu_type: Seq<char>,
        snapshot_id: Seq<char>,
        attempt_id: Seq<char>,
    },
    /// Switch an instance on.
    PowerOn { server_id: Seq<char> },
    /// Switch an instance off.
    PowerOff { server_id: Seq<char> },
    /// Wait until an instance is up.
    WaitRunning { server_id: Seq<char>, timeout_secs: u64, poll_secs: u64 },
    /// Wait until an instance is down.
    WaitStopped { server_id: Seq<char>, timeout_secs: u64, poll_secs: u64 },
    /// Have a public address.
    AllocateIp { attempt_id: Seq<char> },
    /// Attach a public address to an instance.
    AttachIp { ip_id: Seq<char>, server_id: Seq<char> },
    /// Wait until the inference server is up.
    WaitNemotron { ip_address: Seq<char>, timeout_secs: u64, poll_secs: u64 },
    /// Remove an instance.
    DeleteInstance { server_id: Seq<char>, snapshot_id: Seq<char> },
    /// Wait until an instance is gone.
    VerifyInstanceDeleted { server_id: Seq<char>, timeout_secs: u64, poll_secs: u64 },
    /// Remove a volume.
    DeleteVolume { volume_id: Seq<char>, snapshot_id: Seq<char> },
    /// Wait until a volume is gone.
    VerifyVolumeDeleted { volume_id: Seq<char>, timeout_secs: u64, poll_secs: u64 },
    /// Give a public address back.
    DeletePublicIp { ip_id: Seq<char>, snapshot_id: Seq<char> },
    /// Wait until a public address is gone.
    VerifyPublicIpDeleted { ip_id: Seq<char>, timeout_secs: u64, poll_secs: u64 },
}

impl View for Call {
    type V = CallView;

    open spec fn view(&self) -> CallView {
        match *self {
            Call::SaveState => CallView::SaveState,
            Call::RemoveState => CallView::RemoveState,
            Call::Report { percent, message } => CallView::Report { percent, message: message@ },
            Call::ValidateAuth => CallView::ValidateAuth,
            Call::GetSnapshot { snapshot_id } => CallView::GetSnapshot {
                snapshot_id: snapshot_id@,
            },
            Call::GetServer { server_id } => CallView::GetServer { server_id: server_id@ },
            Call::GetVolume { volume_id } => CallView::GetVolume { volume_id: volume_id@ },
            Call::GetPublicIp { ip_id } => CallView::GetPublicIp { ip_id: ip_id@ },
            Call::ListProducts => CallView::ListProducts,
            Call::CreateInstance { name, gpu_type, snapshot_id, attempt_id } => {
                CallView::CreateInstance {
                    name: name@,
                    gpu_type: gpu_type@,
                    snapshot_id: snapshot_id@,
                    attempt_id: attempt_id@,
                }
            },
            Call::PowerOn { server_id } => CallView::PowerOn { server_id: server_id@ },
            Call::PowerOff { server_id } => CallView::PowerOff { server_id: server_id@ },
            Call::WaitRunning { server_id, timeout_secs, poll_secs } => CallView::WaitRunning {
                server_id: server_id@,
                timeout_secs,
                poll_secs,
            },
            Call::WaitStopped { server_id, timeout_secs, poll_secs } => CallView::WaitStopped {
                server_id: server_id@,
                timeout_secs,
                poll_secs,
            },
            Call::AllocateIp { attempt_id } => CallView::AllocateIp { attempt_id: attempt_id@ },
            Call::AttachIp { ip_id, server_id } => CallView::AttachIp {
                ip_id: ip_id@,
                server_id: server_id@,
            },
            Call::WaitNemotron { ip_address, timeout_secs, poll_secs } => CallView::WaitNemotron {
                ip_address: ip_address@,
                timeout_secs,
                poll_secs,
            },
            Call::DeleteInstance { server_id, snapshot_id } => CallView::DeleteInstance {
                server_id: server_id@,
                snapshot_id: snapshot_id@,
            },
            Call::VerifyInstanceDeleted { server_id, timeout_secs, poll_secs } => {
                CallView::VerifyInstanceDeleted { server_id: server_id@, timeout_secs, poll_secs }
            },
            Call::DeleteVolume { volume_id, snapshot_id } => CallView::DeleteVolume {
                volume_id: volume_id@,
                snapshot_id: snapshot_id@,
            },
            Call::VerifyVolumeDeleted { volume_id, timeout_secs, poll_secs } => {
                CallView::VerifyVolumeDeleted { volume_id: volume_id@, timeout_secs, poll_secs }
            },
            Call::DeletePublicIp { ip_id, snapshot_id } => CallView::DeletePublicIp {
                ip_id: ip_id@,
                snapshot_id: snapshot_id@,
            },
            Call::VerifyPublicIpDeleted { ip_id, timeout_secs, poll_secs } => {
                CallView::VerifyPublicIpDeleted { ip_id: ip_id@, timeout_secs, poll_secs }
            },
        }
    }
}

impl CallView {
    /// What a call switches off or removes, if it does.
    pub open spec fn destroys(self) -> Option<Seq<char>> {
        match self {
            CallView::PowerOff { server_id } => Some(server_id),
            CallView::DeleteInstance { server_id, .. } => Some(server_id),
            CallView::DeleteVolume { volume_id, .. } => Some(volume_id),
            CallView::DeletePublicIp { ip_id, .. } => Some(ip_id),
            _ => None,
        }
    }

    /// Whether a call makes something that has to be paid for.
    pub open spec fn makes(self) -> bool {
        self is CreateInstance || self is AllocateIp
    }
}

impl Call {
    /// Whether the call makes something that has to be paid for. Such a call is not to be broken
    /// off: what it makes would be in no record.
    pub fn makes_something(&self) -> (yes: bool)
        ensures
            yes == self@.makes(),
    {
        match self {
            Call::CreateInstance { .. } => true,
            Call::AllocateIp { .. } => true,
            _ => false,
        }
    }
}

/// What comes back from a call.
#[derive(Debug)]
pub enum Reply {
    /// Whether it was carried out.
    Done(Result<(), AppError>),
    /// An instance.
    Server(Result<Server, AppError>),
    /// A volume.
    Volume(Result<Volume, AppError>),
    /// A public address.
    Ip(Result<InstanceIp, AppError>),
    /// A snapshot.
    Snapshot(Result<Snapshot, AppError>),
    /// The products of the zone.
    Products(Result<ServerTypesResponse, AppError>),
}

impl Reply {
    /// Whether this is the kind of reply that a call is answered with.
    pub open spec fn answers(self, call: CallView) -> bool {
        match call {
            CallView::GetSnapshot { .. } => self is Snapshot,
            CallView::GetServer { .. } => self is Server,
            CallView::GetVolume { .. } => self is Volume,
            CallView::GetPublicIp { .. } => self is Ip,
            CallView::ListProducts => self is Products,
            CallView::CreateInstance { .. } => self is Server,
            CallView::WaitRunning { .. } => self is Server,
            CallView::AllocateIp { .. } => self is Ip,
            _ => self is Done,
        }
    }
}

} // verus!
