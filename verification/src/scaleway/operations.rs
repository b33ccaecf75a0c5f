//! How a call is carried out on the API: which requests it takes, and what their answers come to.

use vstd::prelude::*;
#[allow(unused_imports)]
use vstd::string::*;

use crate::error::AppError;
#[allow(unused_imports)]
use crate::error::AppErrorView;
#[allow(unused_imports)]
use crate::error;
#[allow(unused_imports)]
use crate::outside;
#[allow(unused_imports)]
use crate::scaleway::auth;
use crate::scaleway::calls::{Call, Reply};
#[allow(unused_imports)]
use crate::scaleway::calls::CallView;
use crate::scaleway::client::{ApiMethod, ApiRequest, ScalewayClient};
#[allow(unused_imports)]
use crate::scaleway::client::ApiRequestView;
#[allow(unused_imports)]
use crate::scaleway::client;
#[allow(unused_imports)]
use crate::scaleway::instances;
#[allow(unused_imports)]
use crate::scaleway::ips;
use crate::scaleway::models::{IpResponse, ServerResponse, ServerTypesResponse, Snapshot, Volume};
#[allow(unused_imports)]
use crate::scaleway::paths;
#[allow(unused_imports)]
use crate::scaleway::polling;
#[allow(unused_imports)]
use crate::scaleway::snapshots;
#[allow(unused_imports)]
use crate::scaleway::volumes;
#[allow(unused_imports)]
use crate::text;

verus! {

/// What the API answers, as far as it is read.
#[derive(Debug)]
pub enum Answer {
    /// Only whether the request was carried out.
    Plain(Result<(), AppError>),
    /// An instance.
    Server(Result<ServerResponse, AppError>),
    /// A volume.
    Volume(Result<Volume, AppError>),
    /// A public address.
    Ip(Result<IpResponse, AppError>),
    /// A snapshot.
    Snapshot(Result<Snapshot, AppError>),
    /// The products of the zone.
    Products(Result<ServerTypesResponse, AppError>),
}

/// What an answer comes to.
#[derive(Debug)]
pub enum Settled {
    /// The call is carried out.
    Reply(Reply),
    /// The request is made again after some seconds.
    Again {
        /// How long to wait, in seconds.
        wait_secs: u64,
    },
}

/// How long to wait before the removal of a volume is asked for again, in seconds.
pub const VOLUME_RETRY_SECS: u64 = 5;

/// The request for a look, unless the time is up.
pub open spec fn look_unless(
    up: bool,
    late: AppErrorView,
    path: Seq<char>,
) -> Result<ApiRequestView, AppErrorView> {
    if up {
        Err(late)
    } else {
        Ok(client::bare_request(ApiMethod::Get, path))
    }
}

/// The request to remove a resource; the snapshot is refused.
pub open spec fn removal_unless(
    id: Seq<char>,
    snapshot_id: Seq<char>,
    refusal: Seq<char>,
    path: Seq<char>,
) -> Result<ApiRequestView, AppErrorView> {
    if id == snapshot_id {
        Err(AppErrorView::SafetyViolation(refusal))
    } else {
        Ok(client::bare_request(ApiMethod::Delete, path))
    }
}

/// The request for an instance.
pub open spec fn creation(
    zone: Seq<char>,
    project_id: Seq<char>,
    name: Seq<char>,
    gpu_type: Seq<char>,
    snapshot_id: Seq<char>,
    attempt_id: Seq<char>,
) -> Result<ApiRequestView, AppErrorView> {
    match (outside::uuid_reading(snapshot_id), outside::uuid_reading(project_id)) {
        (Err(why), _) => Err(AppErrorView::InvalidConfig("Invalid snapshot UUID: "@ + why)),
        (Ok(_), Err(why)) => Err(AppErrorView::InvalidConfig("Invalid project UUID: "@ + why)),
        (Ok(base), Ok(project)) => Ok(
            client::body_request(
                ApiMethod::Post,
                paths::servers(zone),
                instances::instance_body(name, project, gpu_type, base, attempt_id),
            ),
        ),
    }
}

/// The next request of a call, after some time; an error where it cannot be made; nothing where the
/// call is not one for the API.
pub open spec fn next_request(
    zone: Seq<char>,
    project_id: Seq<char>,
    call: CallView,
    elapsed_nanos: u128,
) -> Option<Result<ApiRequestView, AppErrorView>> {
    match call {
        CallView::ValidateAuth => Some(
            Ok(
                ApiRequestView {
                    method: ApiMethod::Get,
                    path: paths::servers(zone),
                    query: Some(("project"@, project_id)),
                    body: None,
                },
            ),
        ),
        CallView::GetSnapshot { snapshot_id } => Some(
            Ok(client::bare_request(ApiMethod::Get, paths::snapshot(zone, snapshot_id))),
        ),
        CallView::GetServer { server_id } => Some(
            Ok(client::bare_request(ApiMethod::Get, paths::server(zone, server_id))),
        ),
        CallView::GetVolume { volume_id } => Some(
            Ok(client::bare_request(ApiMethod::Get, paths::volume(zone, volume_id))),
        ),
        CallView::GetPublicIp { ip_id } => Some(
            Ok(client::bare_request(ApiMethod::Get, paths::ip(zone, ip_id))),
        ),
        CallView::ListProducts => Some(
            Ok(client::bare_request(ApiMethod::Get, paths::products(zone))),
        ),
        CallView::CreateInstance { name, gpu_type, snapshot_id, attempt_id } => Some(
            creation(zone, project_id, name, gpu_type, snapshot_id, attempt_id),
        ),
        CallView::PowerOn { server_id } => Some(
            Ok(
                client::body_request(
                    ApiMethod::Post,
                    paths::server_action(zone, server_id),
                    instances::action_json("poweron"@),
                ),
            ),
        ),
        CallView::PowerOff { server_id } => Some(
            Ok(
                client::body_request(
                    ApiMethod::Post,
                    paths::server_action(zone, server_id),
                    instances::action_json("poweroff"@),
                ),
            ),
        ),
        CallView::WaitRunning { server_id, timeout_secs, .. } => Some(
            look_unless(
                polling::time_is_up(elapsed_nanos, timeout_secs),
                AppErrorView::InstanceStartupTimeout,
                paths::server(zone, server_id),
            ),
        ),
        CallView::WaitStopped { server_id, timeout_secs, .. } => Some(
            look_unless(
                polling::time_is_up(elapsed_nanos, timeout_secs),
                AppErrorView::CleanupIncomplete("Timeout waiting for server to stop"@),
                paths::server(zone, server_id),
            ),
        ),
        CallView::AllocateIp { attempt_id } => Some(
            Ok(
                client::body_request(
                    ApiMethod::Post,
                    paths::ips(zone),
                    ips::ip_body(
                        project_id,
                        "routed_ipv4"@,
                        instances::attempt_tags(attempt_id),
                    ),
                ),
            ),
        ),
        CallView::AttachIp { ip_id, server_id } => Some(
            Ok(
                client::body_request(
                    ApiMethod::Patch,
                    paths::ip(zone, ip_id),
                    ips::attach_body(Some(server_id)),
                ),
            ),
        ),
        CallView::DeleteInstance { server_id, snapshot_id } => Some(
            removal_unless(
                server_id,
                snapshot_id,
                "Refusing to delete source snapshot as a server"@,
                paths::server(zone, server_id),
            ),
        ),
        CallView::DeleteVolume { volume_id, snapshot_id } => Some(
            removal_unless(
                volume_id,
                snapshot_id,
                "Refusing to delete source snapshot as a volume"@,
                paths::volume(zone, volume_id),
            ),
        ),
        CallView::DeletePublicIp { ip_id, snapshot_id } => Some(
            removal_unless(
                ip_id,
                snapshot_id,
                "Refusing to delete source snapshot as an IP"@,
                paths::ip(zone, ip_id),
            ),
        ),
        CallView::VerifyInstanceDeleted { server_id, timeout_secs, .. } => Some(
            look_unless(
                polling::time_is_up(elapsed_nanos, timeout_secs),
                AppErrorView::CleanupIncomplete(
                    "Timeout waiting for instance "@ + server_id + " deletion verification"@,
                ),
                paths::server(zone, server_id),
            ),
        ),
        CallView::VerifyVolumeDeleted { volume_id, timeout_secs, .. } => Some(
            look_unless(
                polling::time_is_up(elapsed_nanos, timeout_secs),
                AppErrorView::CleanupIncomplete(
                    "Timeout waiting for volume "@ + volume_id + " deletion verification"@,
                ),
                paths::volume(zone, volume_id),
            ),
        ),
        CallView::VerifyPublicIpDeleted { ip_id, timeout_secs, .. } => Some(
            look_unless(
                polling::time_is_up(elapsed_nanos, timeout_secs),
                AppErrorView::CleanupIncomplete(
                    "Timeout waiting for public IP "@ + ip_id + " deletion verification"@,
                ),
                paths::ip(zone, ip_id),
            ),
        ),
        CallView::SaveState => None,
        CallView::RemoveState => None,
        CallView::Report { .. } => None,
        CallView::WaitNemotron { .. } => None,
    }
}

/// A request that may not be made, as a value.
pub open spec fn request_view(request: Option<Result<ApiRequest, AppError>>) -> Option<
    Result<ApiRequestView, AppErrorView>,
> {
    match request {
        Some(Ok(r)) => Some(Ok(r@)),
        Some(Err(e)) => Some(Err(e@)),
        None => None,
    }
}

/// Whether an answer is of the kind that a call is answered with.
pub open spec fn fits(call: CallView, answer: Answer) -> bool {
    match call {
        CallView::GetSnapshot { .. } => answer is Snapshot,
        CallView::GetServer { .. } => answer is Server,
        CallView::CreateInstance { .. } => answer is Server,
        CallView::WaitRunning { .. } => answer is Server,
        CallView::WaitStopped { .. } => answer is Server,
        CallView::GetVolume { .. } => answer is Volume,
        CallView::GetPublicIp { .. } => answer is Ip,
        CallView::AllocateIp { .. } => answer is Ip,
        CallView::ListProducts => answer is Products,
        _ => answer is Plain,
    }
}

/// What a plain answer says of an error.
pub open spec fn plain_error(answer: Answer) -> Option<AppErrorView> {
    match answer {
        Answer::Plain(Err(e)) => Some(e@),
        _ => None,
    }
}

/// Whether the call is carried out, or failed with an error.
pub open spec fn done_with(settled: Settled, failure: Option<AppErrorView>) -> bool {
    match settled {
        Settled::Reply(Reply::Done(Ok(_))) => failure is None,
        Settled::Reply(Reply::Done(Err(e))) => failure == Some(e@),
        _ => false,
    }
}

/// What the removal of a resource comes to: nothing is wrong where it is removed or was gone.
pub open spec fn removal_failure(what: Seq<char>, answer: Answer) -> Option<AppErrorView> {
    match plain_error(answer) {
        Some(cause) => if error::says_not_found(cause) {
            None
        } else {
            Some(AppErrorView::CleanupIncomplete(what + ": "@ + error::error_text(cause)))
        },
        None => None,
    }
}

/// Whether a look at what was removed settles the call: it does when it is gone.
pub open spec fn settles_removal(settled: Settled, answer: Answer, poll_secs: u64) -> bool {
    match plain_error(answer) {
        Some(cause) => if error::says_not_found(cause) {
            done_with(settled, None)
        } else {
            settled == Settled::Again { wait_secs: poll_secs }
        },
        None => settled == Settled::Again { wait_secs: poll_secs },
    }
}

/// Whether an answer with an instance comes to this.
pub open spec fn settles_server(settled: Settled, call: CallView, answer: Answer) -> bool {
    match (call, answer) {
        (CallView::GetServer { .. }, Answer::Server(Ok(seen))) => {
            settled matches Settled::Reply(Reply::Server(Ok(s))) && s == seen.server
        },
        (CallView::GetServer { .. }, Answer::Server(Err(cause))) => {
            settled matches Settled::Reply(Reply::Server(Err(e))) && e@ == cause@
        },
        (CallView::CreateInstance { .. }, Answer::Server(Ok(made))) => {
            settled matches Settled::Reply(Reply::Server(Ok(s))) && s == made.server
        },
        (CallView::CreateInstance { .. }, Answer::Server(Err(cause))) => {
            settled matches Settled::Reply(Reply::Server(Err(e))) && e@
                == AppErrorView::InstanceCreationFailed(error::error_text(cause@))
        },
        (CallView::WaitRunning { poll_secs, .. }, Answer::Server(Ok(seen))) => {
            if seen.server.state@ == "running"@ {
                settled matches Settled::Reply(Reply::Server(Ok(s))) && s == seen.server
            } else if seen.server.state@ == "error"@ {
                settled matches Settled::Reply(Reply::Server(Err(e))) && e@
                    == AppErrorView::InstanceCreationFailed("Instance entered error state"@)
            } else {
                settled == Settled::Again { wait_secs: poll_secs }
            }
        },
        (CallView::WaitRunning { poll_secs, .. }, Answer::Server(Err(_))) => {
            settled == Settled::Again { wait_secs: poll_secs }
        },
        (CallView::WaitStopped { poll_secs, .. }, Answer::Server(Ok(seen))) => {
            if seen.server.state@ == "stopped"@ {
                done_with(settled, None)
            } else {
                settled == Settled::Again { wait_secs: poll_secs }
            }
        },
        (CallView::WaitStopped { poll_secs, .. }, Answer::Server(Err(cause))) => {
            if error::says_not_found(cause@) {
                done_with(settled, None)
            } else {
                settled == Settled::Again { wait_secs: poll_secs }
            }
        },
        _ => false,
    }
}

/// Whether an answer to a call comes to this, after the request was made so many times.
pub open spec fn settles(
    client: ScalewayClient,
    call: CallView,
    attempts: u32,
    answer: Answer,
    settled: Settled,
) -> bool {
    match call {
        CallView::ValidateAuth => done_with(
            settled,
            match plain_error(answer) {
                Some(e) => Some(auth::auth_error(client.zone@, client.project_id@, e)),
                None => None,
            },
        ),
        CallView::GetSnapshot { snapshot_id } => match answer {
            Answer::Snapshot(Ok(seen)) => match snapshots::snapshot_fault(
                client,
                snapshot_id,
                seen,
            ) {
                None => settled matches Settled::Reply(Reply::Snapshot(Ok(s))) && s == seen,
                Some(fault) => settled matches Settled::Reply(Reply::Snapshot(Err(e))) && e@
                    == fault,
            },
            Answer::Snapshot(Err(cause)) => settled matches Settled::Reply(
                Reply::Snapshot(Err(e)),
            ) && e@ == snapshots::snapshot_error(client.zone@, snapshot_id, cause@),
            _ => false,
        },
        CallView::GetVolume { .. } => match answer {
            Answer::Volume(Ok(seen)) => settled matches Settled::Reply(Reply::Volume(Ok(v))) && v
                == seen,
            Answer::Volume(Err(cause)) => settled matches Settled::Reply(Reply::Volume(Err(e)))
                && e@ == cause@,
            _ => false,
        },
        CallView::GetPublicIp { .. } => match answer {
            Answer::Ip(Ok(seen)) => settled matches Settled::Reply(Reply::Ip(Ok(ip))) && ip
                == seen.ip,
            Answer::Ip(Err(cause)) => settled matches Settled::Reply(Reply::Ip(Err(e))) && e@
                == cause@,
            _ => false,
        },
        CallView::AllocateIp { .. } => match answer {
            Answer::Ip(Ok(had)) => settled matches Settled::Reply(Reply::Ip(Ok(ip))) && ip
                == had.ip,
            Answer::Ip(Err(cause)) => settled matches Settled::Reply(Reply::Ip(Err(e))) && e@
                == AppErrorView::IpAllocationFailed(error::error_text(cause@)),
            _ => false,
        },
        CallView::ListProducts => match answer {
            Answer::Products(Ok(seen)) => settled matches Settled::Reply(Reply::Products(Ok(p)))
                && p == seen,
            Answer::Products(Err(cause)) => settled matches Settled::Reply(
                Reply::Products(Err(e)),
            ) && e@ == cause@,
            _ => false,
        },
        CallView::PowerOn { .. } => done_with(
            settled,
            match plain_error(answer) {
                Some(e) => Some(
                    AppErrorView::InstanceCreationFailed(
                        "Failed to power on: "@ + error::error_text(e),
                    ),
                ),
                None => None,
            },
        ),
        CallView::PowerOff { .. } => done_with(settled, None),
        CallView::AttachIp { .. } => done_with(
            settled,
            match plain_error(answer) {
                Some(e) => Some(
                    AppErrorView::IpAllocationFailed(
                        "Failed to attach IP:\n"@ + error::error_text(e),
                    ),
                ),
                None => None,
            },
        ),
        CallView::DeleteInstance { server_id, .. } => done_with(
            settled,
            removal_failure("Failed to delete server "@ + server_id, answer),
        ),
        CallView::DeletePublicIp { ip_id, .. } => done_with(
            settled,
            removal_failure("Failed to delete IP "@ + ip_id, answer),
        ),
        CallView::DeleteVolume { volume_id, .. } => match plain_error(answer) {
            Some(cause) => if !error::says_not_found(cause) && volumes::says_still_detaching(cause)
                && attempts < volumes::MAX_VOLUME_DELETIONS {
                settled == Settled::Again { wait_secs: VOLUME_RETRY_SECS }
            } else {
                done_with(settled, removal_failure("Failed to delete volume "@ + volume_id, answer))
            },
            None => done_with(settled, None),
        },
        CallView::VerifyInstanceDeleted { poll_secs, .. } => settles_removal(
            settled,
            answer,
            poll_secs,
        ),
        CallView::VerifyVolumeDeleted { poll_secs, .. } => settles_removal(
            settled,
            answer,
            poll_secs,
        ),
        CallView::VerifyPublicIpDeleted { poll_secs, .. } => settles_removal(
            settled,
            answer,
            poll_secs,
        ),
        CallView::GetServer { .. } => settles_server(settled, call, answer),
        CallView::CreateInstance { .. } => settles_server(settled, call, answer),
        CallView::WaitRunning { .. } => settles_server(settled, call, answer),
        CallView::WaitStopped { .. } => settles_server(settled, call, answer),
        _ => done_with(settled, plain_error(answer)),
    }
}

fn done(outcome: Result<(), AppError>) -> (settled: Settled)
    ensures
        done_with(
            settled,
            match outcome {
                Ok(_) => None,
                Err(e) => Some(e@),
            },
        ),
{
    Settled::Reply(Reply::Done(outcome))
}

fn gone_or_again(gone: bool, poll_secs: u64) -> (settled: Settled)
    ensures
        if gone {
            done_with(settled, None)
        } else {
            settled == (Settled::Again { wait_secs: poll_secs })
        },
{
    if gone {
        Settled::Reply(Reply::Done(Ok(())))
    } else {
        Settled::Again { wait_secs: poll_secs }
    }
}

impl ScalewayClient {
    /// The next request of a call, after some time; an error where it cannot be made; nothing where
    /// the call is not one for the API.
    pub fn next_request(&self, call: &Call, elapsed_nanos: u128) -> (request: Option<
        Result<ApiRequest, AppError>,
    >)
        ensures
            request_view(request) == next_request(
                self.zone@,
                self.project_id@,
                call@,
                elapsed_nanos,
            ),
    {
        match call {
            Call::ValidateAuth => Some(Ok(self.validate_auth_and_project())),
            Call::GetSnapshot { snapshot_id } => Some(Ok(self.get_snapshot(snapshot_id.as_str()))),
            Call::GetServer { server_id } => Some(Ok(self.get_server(server_id.as_str()))),
            Call::GetVolume { volume_id } => Some(Ok(self.get_volume(volume_id.as_str()))),
            Call::GetPublicIp { ip_id } => Some(Ok(self.get_public_ip(ip_id.as_str()))),
            Call::ListProducts => Some(Ok(self.list_products())),
            Call::CreateInstance { name, gpu_type, snapshot_id, attempt_id } => Some(
                self.create_instance(
                    name.as_str(),
                    gpu_type.as_str(),
                    snapshot_id.as_str(),
                    attempt_id.as_str(),
                ),
            ),
            Call::PowerOn { server_id } => Some(Ok(self.power_on_instance(server_id.as_str()))),
            Call::PowerOff { server_id } => Some(Ok(self.power_off_instance(server_id.as_str()))),
            Call::WaitRunning { server_id, timeout_secs, .. } => Some(
                self.wait_for_instance_running(server_id.as_str(), *timeout_secs, elapsed_nanos),
            ),
            Call::WaitStopped { server_id, timeout_secs, .. } => Some(
                self.wait_for_instance_stopped(server_id.as_str(), *timeout_secs, elapsed_nanos),
            ),
            Call::AllocateIp { attempt_id } => Some(
                Ok(self.allocate_public_ip(attempt_id.as_str())),
            ),
            Call::AttachIp { ip_id, server_id } => Some(
                Ok(self.attach_ip_to_server(ip_id.as_str(), server_id.as_str())),
            ),
            Call::DeleteInstance { server_id, snapshot_id } => Some(
                self.delete_instance(server_id.as_str(), snapshot_id.as_str()),
            ),
            Call::DeleteVolume { volume_id, snapshot_id } => Some(
                self.delete_volume(volume_id.as_str(), snapshot_id.as_str()),
            ),
            Call::DeletePublicIp { ip_id, snapshot_id } => Some(
                self.delete_public_ip(ip_id.as_str(), snapshot_id.as_str()),
            ),
            Call::VerifyInstanceDeleted { server_id, timeout_secs, .. } => Some(
                self.verify_instance_deleted(server_id.as_str(), *timeout_secs, elapsed_nanos),
            ),
            Call::VerifyVolumeDeleted { volume_id, timeout_secs, .. } => Some(
                self.verify_volume_deleted(volume_id.as_str(), *timeout_secs, elapsed_nanos),
            ),
            Call::VerifyPublicIpDeleted { ip_id, timeout_secs, .. } => Some(
                self.verify_public_ip_deleted(ip_id.as_str(), *timeout_secs, elapsed_nanos),
            ),
            Call::SaveState => None,
            Call::RemoveState => None,
            Call::Report { .. } => None,
            Call::WaitNemotron { .. } => None,
        }
    }

    /// What an answer with an instance comes to.
    fn settle_server(&self, call: &Call, answer: Result<ServerResponse, AppError>) -> (settled:
        Settled)
        requires
            fits(call@, Answer::Server(answer)),
        ensures
            settles_server(settled, call@, Answer::Server(answer)),
    {
        match call {
            Call::GetServer { .. } => match answer {
                Ok(seen) => Settled::Reply(Reply::Server(Ok(seen.server))),
                Err(e) => Settled::Reply(Reply::Server(Err(e))),
            },
            Call::CreateInstance { .. } => Settled::Reply(
                Reply::Server(self.create_instance_outcome(answer)),
            ),
            Call::WaitRunning { poll_secs, .. } => {
                match self.wait_for_instance_running_outcome(answer) {
                    Some(outcome) => Settled::Reply(Reply::Server(outcome)),
                    None => Settled::Again { wait_secs: *poll_secs },
                }
            },
            Call::WaitStopped { poll_secs, .. } => {
                let down: bool = self.wait_for_instance_stopped_outcome(answer);
                gone_or_again(down, *poll_secs)
            },
            _ => Settled::Again { wait_secs: 0 },
        }
    }

    /// What a plain answer comes to.
    fn settle_plain(&self, call: &Call, attempts: u32, outcome: Result<(), AppError>) -> (settled:
        Settled)
        requires
            fits(call@, Answer::Plain(outcome)),
        ensures
            settles(*self, call@, attempts, Answer::Plain(outcome), settled),
    {
        match call {
            Call::ValidateAuth => done(self.validate_auth_and_project_outcome(outcome)),
            Call::PowerOn { .. } => done(self.power_on_instance_outcome(outcome)),
            Call::PowerOff { .. } => done(self.power_off_instance_outcome(outcome)),
            Call::AttachIp { .. } => done(self.attach_ip_to_server_outcome(outcome)),
            Call::DeleteInstance { server_id, .. } => done(
                self.delete_instance_outcome(server_id.as_str(), outcome),
            ),
            Call::DeletePublicIp { ip_id, .. } => done(
                self.delete_public_ip_outcome(ip_id.as_str(), outcome),
            ),
            Call::DeleteVolume { volume_id, .. } => {
                match self.delete_volume_outcome(volume_id.as_str(), attempts, outcome) {
                    Some(outcome) => done(outcome),
                    None => Settled::Again { wait_secs: VOLUME_RETRY_SECS },
                }
            },
            Call::VerifyInstanceDeleted { poll_secs, .. } => {
                let gone: bool = self.deletion_verified(outcome);
                gone_or_again(gone, *poll_secs)
            },
            Call::VerifyVolumeDeleted { poll_secs, .. } => {
                let gone: bool = self.deletion_verified(outcome);
                gone_or_again(gone, *poll_secs)
            },
            Call::VerifyPublicIpDeleted { poll_secs, .. } => {
                let gone: bool = self.deletion_verified(outcome);
                gone_or_again(gone, *poll_secs)
            },
            _ => done(outcome),
        }
    }

    /// What an answer to a call comes to, after the request was made so many times.
    pub fn settle(&self, call: &Call, attempts: u32, answer: Answer) -> (settled: Settled)
        requires
            fits(call@, answer),
        ensures
            settles(*self, call@, attempts, answer, settled),
    {
        match answer {
            Answer::Plain(outcome) => self.settle_plain(call, attempts, outcome),
            Answer::Server(outcome) => self.settle_server(call, outcome),
            Answer::Volume(outcome) => Settled::Reply(Reply::Volume(outcome)),
            Answer::Ip(outcome) => match call {
                Call::AllocateIp { .. } => match self.allocate_public_ip_outcome(outcome) {
                    Ok(had) => Settled::Reply(Reply::Ip(Ok(had.ip))),
                    Err(e) => Settled::Reply(Reply::Ip(Err(e))),
                },
                _ => match outcome {
                    Ok(seen) => Settled::Reply(Reply::Ip(Ok(seen.ip))),
                    Err(e) => Settled::Reply(Reply::Ip(Err(e))),
                },
            },
            Answer::Snapshot(outcome) => match call {
                Call::GetSnapshot { snapshot_id } => Settled::Reply(
                    Reply::Snapshot(self.get_snapshot_outcome(snapshot_id.as_str(), outcome)),
                ),
                _ => Settled::Reply(Reply::Snapshot(outcome)),
            },
            Answer::Products(outcome) => Settled::Reply(Reply::Products(outcome)),
        }
    }
}

/// The reply of a call whose next request cannot be made.
pub fn failed_reply(call: &Call, e: AppError) -> (reply: Reply)
    ensures
        reply.answers(call@),
        reply == match call@ {
            CallView::GetSnapshot { .. } => Reply::Snapshot(Err(e)),
            CallView::GetServer { .. } => Reply::Server(Err(e)),
            CallView::GetVolume { .. } => Reply::Volume(Err(e)),
            CallView::GetPublicIp { .. } => Reply::Ip(Err(e)),
            CallView::ListProducts => Reply::Products(Err(e)),
            CallView::CreateInstance { .. } => Reply::Server(Err(e)),
            CallView::WaitRunning { .. } => Reply::Server(Err(e)),
            CallView::AllocateIp { .. } => Reply::Ip(Err(e)),
            _ => Reply::Done(Err(e)),
        },
{
    match call {
        Call::GetSnapshot { .. } => Reply::Snapshot(Err(e)),
        Call::GetServer { .. } => Reply::Server(Err(e)),
        Call::GetVolume { .. } => Reply::Volume(Err(e)),
        Call::GetPublicIp { .. } => Reply::Ip(Err(e)),
        Call::ListProducts => Reply::Products(Err(e)),
        Call::CreateInstance { .. } => Reply::Server(Err(e)),
        Call::WaitRunning { .. } => Reply::Server(Err(e)),
        Call::AllocateIp { .. } => Reply::Ip(Err(e)),
        _ => Reply::Done(Err(e)),
    }
}

// ---------------------------------------------------------------- laws

/// Every reply that an answer comes to is one that the call is answered with.
pub proof fn lemma_settled_reply_answers(
    client: ScalewayClient,
    call: CallView,
    attempts: u32,
    answer: Answer,
    settled: Settled,
)
    requires
        settles(client, call, attempts, answer, settled),
    ensures
        settled matches Settled::Reply(reply) ==> reply.answers(call),
{
}

/// The only requests that remove anything remove what the call names, which is not the snapshot;
/// and none lies where a snapshot of the zone lies.
pub proof fn lemma_removals_spare_snapshots(
    zone: Seq<char>,
    project_id: Seq<char>,
    call: CallView,
    elapsed_nanos: u128,
    any_snapshot: Seq<char>,
)
    ensures
        next_request(zone, project_id, call, elapsed_nanos) matches Some(Ok(request)) ==> (
        request.method is Delete ==> {
            &&& call.destroys() is Some
            &&& request.path == paths::server(zone, call.destroys()->0) || request.path
                == paths::volume(zone, call.destroys()->0) || request.path == paths::ip(
                zone,
                call.destroys()->0,
            )
            &&& request.path != paths::snapshot(zone, any_snapshot)
            &&& match call {
                CallView::DeleteInstance { server_id, snapshot_id } => server_id != snapshot_id,
                CallView::DeleteVolume { volume_id, snapshot_id } => volume_id != snapshot_id,
                CallView::DeletePublicIp { ip_id, snapshot_id } => ip_id != snapshot_id,
                _ => false,
            }
        }),
{
    match call {
        CallView::DeleteInstance { server_id, .. } => {
            paths::lemma_snapshots_lie_apart(zone, server_id, any_snapshot);
        },
        CallView::DeleteVolume { volume_id, .. } => {
            paths::lemma_snapshots_lie_apart(zone, volume_id, any_snapshot);
        },
        CallView::DeletePublicIp { ip_id, .. } => {
            paths::lemma_snapshots_lie_apart(zone, ip_id, any_snapshot);
        },
        _ => {},
    }
}

/// Whether a path lies in a zone.
pub open spec fn lies_in(path: Seq<char>, zone: Seq<char>) -> bool {
    ||| text::stands_at(path, "/instance/v1/zones/"@ + zone + "/"@, 0)
    ||| text::stands_at(path, "/block/v1/zones/"@ + zone + "/"@, 0)
}

proof fn lemma_behind(front: Seq<char>, slash: Seq<char>, rest: Seq<char>, path: Seq<char>)
    requires
        slash.len() == 1,
        rest.len() > 0,
        rest[0] == slash[0],
        path.len() >= front.len() + rest.len(),
        forall|i: int| 0 <= i < front.len() ==> path[i] == front[i],
        path[front.len() as int] == rest[0],
    ensures
        text::stands_at(path, front + slash, 0),
{
    assert(path.subrange(0, (front + slash).len() as int) =~= front + slash);
}

/// Whatever a call asks of the API, it asks in the zone of the client: no request leaves it.
pub proof fn lemma_requests_stay_in_the_zone(
    zone: Seq<char>,
    project_id: Seq<char>,
    call: CallView,
    elapsed_nanos: u128,
)
    ensures
        next_request(zone, project_id, call, elapsed_nanos) matches Some(Ok(request)) ==> lies_in(
            request.path,
            zone,
        ),
{
    reveal_strlit("/");
    reveal_strlit("/servers");
    reveal_strlit("/servers/");
    reveal_strlit("/products/servers");
    reveal_strlit("/ips");
    reveal_strlit("/ips/");
    reveal_strlit("/snapshots/");
    reveal_strlit("/volumes/");
    let instance = "/instance/v1/zones/"@ + zone;
    let block = "/block/v1/zones/"@ + zone;
    match next_request(zone, project_id, call, elapsed_nanos) {
        Some(Ok(request)) => {
            let path = request.path;
            match call {
                CallView::ValidateAuth => lemma_behind(instance, "/"@, "/servers"@, path),
                CallView::CreateInstance { .. } => lemma_behind(instance, "/"@, "/servers"@, path),
                CallView::ListProducts => lemma_behind(instance, "/"@, "/products/servers"@, path),
                CallView::AllocateIp { .. } => lemma_behind(instance, "/"@, "/ips"@, path),
                CallView::GetPublicIp { .. } => lemma_behind(instance, "/"@, "/ips/"@, path),
                CallView::AttachIp { .. } => lemma_behind(instance, "/"@, "/ips/"@, path),
                CallView::DeletePublicIp { .. } => lemma_behind(instance, "/"@, "/ips/"@, path),
                CallView::VerifyPublicIpDeleted { .. } => {
                    lemma_behind(instance, "/"@, "/ips/"@, path)
                },
                CallView::GetSnapshot { .. } => lemma_behind(block, "/"@, "/snapshots/"@, path),
                CallView::GetVolume { .. } => lemma_behind(block, "/"@, "/volumes/"@, path),
                CallView::DeleteVolume { .. } => lemma_behind(block, "/"@, "/volumes/"@, path),
                CallView::VerifyVolumeDeleted { .. } => {
                    lemma_behind(block, "/"@, "/volumes/"@, path)
                },
                _ => lemma_behind(instance, "/"@, "/servers/"@, path),
            }
        },
        _ => {},
    }
}

} // verus!
