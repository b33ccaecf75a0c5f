//! What the API takes and gives, as plain values.

use vstd::prelude::*;

use crate::text::same_text;
#[allow(unused_imports)]
use crate::text;

verus! {

/// A snapshot of a block volume.
#[derive(Debug, Clone)]
pub struct Snapshot {
    /// Its identifier.
    pub id: String,
    /// Its name.
    pub name: String,
    /// What state it is in.
    pub status: String,
    /// How many bytes it takes.
    pub size: u64,
    /// The project it belongs to.
    pub project_id: String,
    /// The zone it lies in.
    pub zone: String,
}

/// The body of a request for a new volume.
#[derive(Debug)]
pub struct CreateVolumeRequest {
    /// The name it will have.
    pub name: String,
    /// The project it will belong to.
    pub project_id: String,
    /// How many operations per second it is made for.
    pub perf_iops: u32,
    /// What it is restored from.
    pub from_snapshot: Option<SnapshotSource>,
    /// Its tags.
    pub tags: Vec<String>,
}

/// The snapshot a volume is restored from.
#[derive(Debug)]
pub struct SnapshotSource {
    /// The identifier of the snapshot.
    pub snapshot_id: String,
}

/// A block volume.
#[derive(Debug, Clone)]
pub struct Volume {
    /// Its identifier.
    pub id: String,
    /// Its name.
    pub name: String,
    /// What state it is in.
    pub status: String,
    /// The project it belongs to.
    pub project_id: String,
    /// The zone it lies in.
    pub zone: String,
    /// The snapshot it was restored from.
    pub snapshot_id: Option<String>,
}

/// The body of a request for a new public address.
#[derive(Debug)]
pub struct CreateIpRequest {
    /// The project it will belong to.
    pub project: String,
    /// What kind of address it is.
    pub ip_type: String,
    /// Its tags.
    pub tags: Vec<String>,
}

/// A public address.
#[derive(Debug, Clone)]
pub struct InstanceIp {
    /// Its identifier.
    pub id: String,
    /// The address itself.
    pub address: String,
    /// The project it belongs to.
    pub project: String,
    /// The zone it lies in.
    pub zone: String,
    /// The server it is attached to.
    pub server: Option<ServerRef>,
}

/// A public address, by its short name.
pub type Ip = InstanceIp;

/// A server, as an address refers to it.
#[derive(Debug, Clone)]
pub struct ServerRef {
    /// The identifier of the server.
    pub id: String,
    /// The name of the server.
    pub name: String,
}

/// A reply that holds a public address.
#[derive(Debug, Clone)]
pub struct IpResponse {
    /// The address.
    pub ip: InstanceIp,
}

/// The body of a request to attach an address.
#[derive(Debug)]
pub struct AttachIpRequest {
    /// The identifier of the server.
    pub server: Option<String>,
}

/// The body of a request to change an address.
#[derive(Debug)]
pub struct UpdateIpRequest {
    /// The reverse name.
    pub reverse: Option<String>,
    /// The tags.
    pub tags: Option<Vec<String>>,
}

/// What an address is attached to.
#[derive(Debug, Clone)]
pub struct IpAttachmentState {
    /// The address.
    pub ip: InstanceIp,
}

/// The server products of a zone, by name.
#[derive(Debug, Clone)]
pub struct ServerTypesResponse {
    /// Each product under its name.
    pub servers: Vec<(String, ServerTypeDetails)>,
}

/// A server product.
#[derive(Debug, Clone)]
pub struct ServerTypeDetails {
    /// What its volumes must keep to.
    pub volumes_constraint: Option<VolumesConstraint>,
    /// The architecture of its processors.
    pub arch: Option<String>,
}

/// What the volumes of a product must keep to.
#[derive(Debug, Clone, Copy)]
pub struct VolumesConstraint {
    /// How many bytes they take at least.
    pub min_size: u64,
    /// How many bytes they take at most; 0 sets no limit.
    pub max_size: u64,
}

/// The kinds of volume that an instance boots from.
#[derive(Debug, Clone, Copy, PartialEq, Eq, Structural)]
pub enum InstanceVolumeType {
    /// A block storage volume.
    SbsVolume,
}

/// The boot volume of a new server, restored from a snapshot.
#[derive(Debug, Clone, PartialEq)]
pub struct SnapshotBootVolume {
    /// The identifier of the snapshot.
    pub base_snapshot: String,
    /// The name the volume will have.
    pub name: String,
    /// What kind of volume it is.
    pub volume_type: InstanceVolumeType,
    /// Whether the server boots from it.
    pub boot: bool,
}

/// The body of a request for a new server.
#[derive(Debug)]
pub struct CreateServerRequest {
    /// The name it will have.
    pub name: String,
    /// The project it will belong to.
    pub project: String,
    /// The product it is made of.
    pub commercial_type: String,
    /// Its volumes, each under its slot.
    pub volumes: Vec<(String, SnapshotBootVolume)>,
    /// Its tags.
    pub tags: Vec<String>,
}

/// A volume of a server.
#[derive(Debug, Clone)]
pub struct ServerVolumeDetail {
    /// Its identifier.
    pub id: String,
    /// Its name.
    pub name: Option<String>,
    /// What kind of volume it is.
    pub volume_type: String,
}

/// A server.
#[derive(Debug, Clone)]
pub struct Server {
    /// Its identifier.
    pub id: String,
    /// Its name.
    pub name: String,
    /// What state it is in.
    pub state: String,
    /// Its public address.
    pub public_ip: Option<ServerPublicIp>,
    /// Its volumes, each under its slot.
    pub volumes: Vec<(String, ServerVolumeDetail)>,
}

/// The public address of a server.
#[derive(Debug, Clone)]
pub struct ServerPublicIp {
    /// Its identifier.
    pub id: String,
    /// The address itself.
    pub address: String,
}

/// A reply that holds a server.
#[derive(Debug, Clone)]
pub struct ServerResponse {
    /// The server.
    pub server: Server,
}

/// The body of a request to act on a server.
#[derive(Debug)]
pub struct ServerActionRequest {
    /// What to do.
    pub action: String,
}

// ---------------------------------------------------------------- the boot volume

/// Whether the volume at a position is in the first slot.
pub open spec fn in_first_slot(volumes: Seq<(String, ServerVolumeDetail)>, at: int) -> bool {
    volumes[at].0@ == "0"@
}

/// Whether the volume at a position is a block storage volume.
pub open spec fn is_block_volume(volumes: Seq<(String, ServerVolumeDetail)>, at: int) -> bool {
    volumes[at].1.volume_type@ == "sbs_volume"@
}

/// The identifier of the volume in the first slot, among the volumes from a position on.
pub open spec fn first_slot_from(volumes: Seq<(String, ServerVolumeDetail)>, at: int) -> Option<
    Seq<char>,
>
    decreases volumes.len() - at,
{
    if at < 0 || at >= volumes.len() {
        None
    } else if in_first_slot(volumes, at) {
        Some(volumes[at].1.id@)
    } else {
        first_slot_from(volumes, at + 1)
    }
}

/// The identifier of the first block storage volume, among the volumes from a position on.
pub open spec fn block_volume_from(volumes: Seq<(String, ServerVolumeDetail)>, at: int) -> Option<
    Seq<char>,
>
    decreases volumes.len() - at,
{
    if at < 0 || at >= volumes.len() {
        None
    } else if is_block_volume(volumes, at) {
        Some(volumes[at].1.id@)
    } else {
        block_volume_from(volumes, at + 1)
    }
}

/// The volume a server boots from: the one in the first slot, else its first block storage volume.
pub open spec fn boot_volume_of(server: Server) -> Option<Seq<char>> {
    match first_slot_from(server.volumes@, 0) {
        Some(id) => Some(id),
        None => block_volume_from(server.volumes@, 0),
    }
}

impl Server {
    /// The volume the server boots from: the one in the first slot, else its first block storage
    /// volume.
    pub fn boot_volume(&self) -> (id: Option<String>)
        ensures
            text::some_text(id) == boot_volume_of(*self),
    {
        let mut i: usize = 0;
        while i < self.volumes.len()
            invariant
                i <= self.volumes@.len(),
                first_slot_from(self.volumes@, 0) == first_slot_from(self.volumes@, i as int),
            decreases self.volumes@.len() - i,
        {
            if same_text(self.volumes[i].0.as_str(), "0") {
                return Some(self.volumes[i].1.id.clone());
            }
            i = i + 1;
        }
        i = 0;
        while i < self.volumes.len()
            invariant
                i <= self.volumes@.len(),
                first_slot_from(self.volumes@, 0) is None,
                block_volume_from(self.volumes@, 0) == block_volume_from(self.volumes@, i as int),
            decreases self.volumes@.len() - i,
        {
            if same_text(self.volumes[i].1.volume_type.as_str(), "sbs_volume") {
                return Some(self.volumes[i].1.id.clone());
            }
            i = i + 1;
        }
        None
    }
}

// ---------------------------------------------------------------- the products

/// The first product with a name, among those from a position on.
pub open spec fn product_from(
    servers: Seq<(String, ServerTypeDetails)>,
    name: Seq<char>,
    at: int,
) -> Option<ServerTypeDetails>
    decreases servers.len() - at,
{
    if at < 0 || at >= servers.len() {
        None
    } else if servers[at].0@ == name {
        Some(servers[at].1)
    } else {
        product_from(servers, name, at + 1)
    }
}

impl ServerTypesResponse {
    /// The product with a name, if the zone offers it.
    pub open spec fn product(self, name: Seq<char>) -> Option<ServerTypeDetails> {
        product_from(self.servers@, name, 0)
    }

    /// The product with the name, if the zone offers it.
    pub fn find(&self, name: &str) -> (found: Option<&ServerTypeDetails>)
        ensures
            found is Some == self.product(name@) is Some,
            found matches Some(p) ==> *p == self.product(name@)->0,
    {
        let mut i: usize = 0;
        while i < self.servers.len()
            invariant
                i <= self.servers@.len(),
                self.product(name@) == product_from(self.servers@, name@, i as int),
            decreases self.servers@.len() - i,
        {
            if same_text(self.servers[i].0.as_str(), name) {
                return Some(&self.servers[i].1);
            }
            i = i + 1;
        }
        None
    }
}

} // verus!
