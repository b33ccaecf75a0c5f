//! One attempt to bring an instance of a GPU type up, from the request to the ready model.

use vstd::prelude::*;
#[allow(unused_imports)]
use vstd::string::*;

use crate::config::TimeoutsConfig;
use crate::error::AppError;
#[allow(unused_imports)]
use crate::error::AppErrorView;
#[allow(unused_imports)]
use crate::error;
use crate::outside::lowercase_text;
#[allow(unused_imports)]
use crate::outside;
use crate::scaleway::calls::{Call, Reply};
#[allow(unused_imports)]
use crate::scaleway::calls::CallView;
use crate::scaleway::models::{InstanceIp, Server, Volume};
#[allow(unused_imports)]
use crate::scaleway::models;
use crate::state::{ProvisioningPhase, State};
#[allow(unused_imports)]
use crate::state::StateView;
#[allow(unused_imports)]
use crate::state;
use crate::text::{copy_text, front_text, replace_char, same_text};
#[allow(unused_imports)]
use crate::text;

verus! {

/// Where an attempt stands.
#[derive(Debug, Clone, Copy, PartialEq, Eq, Structural)]
pub enum AttemptStage {
    /// The record is saved before the instance is made.
    SavingCreation,
    /// The instance is made.
    Creating,
    /// The record is saved with the instance.
    SavingInstance,
    /// The record is saved before the boot volume is looked up.
    SavingDiscovery,
    /// The record is saved with the boot volume.
    SavingVolume,
    /// The boot volume is looked at.
    CheckingVolume,
    /// The record is saved before the instance is switched on.
    SavingPower,
    /// The instance is switched on.
    PoweringOn,
    /// The record is saved before the instance comes up.
    SavingWait,
    /// The instance comes up.
    AwaitingRunning,
    /// The record is saved before a public address is had.
    SavingAllocation,
    /// A public address is had.
    Allocating,
    /// The record is saved with the public address.
    SavingIp,
    /// The public address is attached.
    Attaching,
    /// The public address is looked at.
    CheckingIp,
    /// The record is saved before the inference server comes up.
    SavingStartup,
    /// The inference server comes up.
    AwaitingNemotron,
    /// The attempt is over.
    Finished,
}

/// An attempt under way.
#[derive(Debug)]
pub struct AttemptRun {
    /// The record of what has been made.
    pub state: State,
    /// The name of the instance.
    pub name: String,
    /// The GPU type.
    pub gpu_type: String,
    /// The snapshot that the instance boots from.
    pub snapshot_id: String,
    /// The zone.
    pub zone: String,
    /// How long things may take.
    pub timeouts: TimeoutsConfig,
    /// Where the attempt stands.
    pub stage: AttemptStage,
    /// Whether the instance was up as soon as it was made.
    pub running: bool,
    /// The volume that the instance boots from, as far as it was named.
    pub boot_volume: Option<String>,
    /// The instance, as it was seen up.
    pub server_id: String,
    /// What the attempt came to: the public address, or what went wrong.
    pub result: Option<Result<String, AppError>>,
}

/// An attempt as a value.
#[verifier::ext_equal]
pub struct AttemptView {
    /// The record of what has been made.
    pub state: StateView,
    /// The name of the instance.
    pub name: Seq<char>,
    /// The GPU type.
    pub gpu_type: Seq<char>,
    /// The snapshot that the instance boots from.
    pub snapshot_id: Seq<char>,
    /// The zone.
    pub zone: Seq<char>,
    /// How long things may take.
    pub timeouts: TimeoutsConfig,
    /// Where the attempt stands.
    pub stage: AttemptStage,
    /// Whether the instance was up as soon as it was made.
    pub running: bool,
    /// The volume that the instance boots from, as far as it was named.
    pub boot_volume: Option<Seq<char>>,
    /// The instance, as it was seen up.
    pub server_id: Seq<char>,
    /// What the attempt came to: the public address, or what went wrong.
    pub result: Option<Result<Seq<char>, AppErrorView>>,
}

/// What an attempt came to, as a value.
pub open spec fn result_view(result: Option<Result<String, AppError>>) -> Option<
    Result<Seq<char>, AppErrorView>,
> {
    match result {
        Some(Ok(ip)) => Some(Ok(ip@)),
        Some(Err(e)) => Some(Err(e@)),
        None => None,
    }
}

impl View for AttemptRun {
    type V = AttemptView;

    open spec fn view(&self) -> AttemptView {
        AttemptView {
            state: self.state@,
            name: self.name@,
            gpu_type: self.gpu_type@,
            snapshot_id: self.snapshot_id@,
            zone: self.zone@,
            timeouts: self.timeouts,
            stage: self.stage,
            running: self.running,
            boot_volume: text::some_text(self.boot_volume),
            server_id: self.server_id@,
            result: result_view(self.result),
        }
    }
}

/// The name of the instance of an attempt: the configured name, the GPU type in lower case with
/// dashes, and the first eight bytes of the identifier.
pub open spec fn attempt_name(
    base: Seq<char>,
    gpu_type: Seq<char>,
    attempt_id: Seq<char>,
) -> Seq<char> {
    base + "-"@ + text::replaced(outside::lowercase(gpu_type), '_', "-"@) + "-"@
        + text::front_bytes(attempt_id, 8)
}

// ---------------------------------------------------------------- the course of an attempt

impl AttemptView {
    /// The start of an attempt.
    pub open spec fn begun(
        state: StateView,
        base_name: Seq<char>,
        gpu_type: Seq<char>,
        snapshot_id: Seq<char>,
        zone: Seq<char>,
        timeouts: TimeoutsConfig,
    ) -> AttemptView {
        AttemptView {
            state: StateView { phase: ProvisioningPhase::CreatingInstance, ..state },
            name: attempt_name(base_name, gpu_type, state.attempt_id),
            gpu_type,
            snapshot_id,
            zone,
            timeouts,
            stage: AttemptStage::SavingCreation,
            running: false,
            boot_volume: None,
            server_id: Seq::empty(),
            result: None,
        }
    }

    /// The same attempt at another stage.
    pub open spec fn at(self, stage: AttemptStage) -> AttemptView {
        AttemptView { stage, ..self }
    }

    /// The same attempt at another stage, with the phase of the record.
    pub open spec fn entering(self, phase: ProvisioningPhase, stage: AttemptStage) -> AttemptView {
        AttemptView { state: StateView { phase, ..self.state }, stage, ..self }
    }

    /// The attempt is over, with what went wrong.
    pub open spec fn failing(self, e: AppErrorView) -> AttemptView {
        AttemptView { stage: AttemptStage::Finished, result: Some(Err(e)), ..self }
    }

    /// What a refusal to make or switch on an instance comes to: a GPU type that is out of stock is
    /// named.
    pub open spec fn stock_error(self, e: AppErrorView) -> AppErrorView {
        if error::says_out_of_stock(e) {
            AppErrorView::OutOfStock { gpu_type: self.gpu_type, zone: self.zone }
        } else {
            e
        }
    }

    /// What the attempt asks for; nothing when it is over.
    pub open spec fn pending(self) -> Option<CallView> {
        match self.stage {
            AttemptStage::Creating => Some(
                CallView::CreateInstance {
                    name: self.name,
                    gpu_type: self.gpu_type,
                    snapshot_id: self.snapshot_id,
                    attempt_id: self.state.attempt_id,
                },
            ),
            AttemptStage::CheckingVolume => match self.state.volume_id {
                Some(volume_id) => Some(CallView::GetVolume { volume_id }),
                None => None,
            },
            AttemptStage::PoweringOn => match self.state.instance_id {
                Some(server_id) => Some(CallView::PowerOn { server_id }),
                None => None,
            },
            AttemptStage::AwaitingRunning => match self.state.instance_id {
                Some(server_id) => Some(
                    CallView::WaitRunning {
                        server_id,
                        timeout_secs: self.timeouts.instance_creation_seconds,
                        poll_secs: self.timeouts.instance_poll_interval_seconds,
                    },
                ),
                None => None,
            },
            AttemptStage::Allocating => Some(
                CallView::AllocateIp { attempt_id: self.state.attempt_id },
            ),
            AttemptStage::Attaching => match self.state.public_ip_id {
                Some(ip_id) => Some(CallView::AttachIp { ip_id, server_id: self.server_id }),
                None => None,
            },
            AttemptStage::CheckingIp => match self.state.public_ip_id {
                Some(ip_id) => Some(CallView::GetPublicIp { ip_id }),
                None => None,
            },
            AttemptStage::AwaitingNemotron => match self.state.public_ip_address {
                Some(ip_address) => Some(
                    CallView::WaitNemotron {
                        ip_address,
                        timeout_secs: self.timeouts.nemotron_startup_seconds,
                        poll_secs: self.timeouts.nemotron_poll_interval_seconds,
                    },
                ),
                None => None,
            },
            AttemptStage::Finished => None,
            _ => Some(CallView::SaveState),
        }
    }

    /// The attempt after the request for an instance.
    pub open spec fn created(self, outcome: Result<Server, AppError>) -> AttemptView {
        match outcome {
            Ok(server) => AttemptView {
                state: StateView { instance_id: Some(server.id@), ..self.state },
                running: server.state@ == "running"@,
                boot_volume: models::boot_volume_of(server),
                stage: AttemptStage::SavingInstance,
                ..self
            },
            Err(e) => self.failing(self.stock_error(e@)),
        }
    }

    /// The attempt when the boot volume is looked up.
    pub open spec fn discovered(self) -> AttemptView {
        match self.boot_volume {
            Some(volume_id) => AttemptView {
                state: StateView { volume_id: Some(volume_id), ..self.state },
                stage: AttemptStage::SavingVolume,
                ..self
            },
            None => self.failing(
                AppErrorView::InstanceCreationFailed(
                    "No boot volume returned in server creation response"@,
                ),
            ),
        }
    }

    /// The attempt after a look at the boot volume.
    pub open spec fn checked_volume(self, outcome: Result<Volume, AppError>) -> AttemptView {
        match outcome {
            Ok(volume) => match volume.snapshot_id {
                Some(parent) => if parent@ != self.snapshot_id {
                    self.failing(
                        AppErrorView::IncompatibleVolume {
                            gpu_type: self.gpu_type,
                            reason: "Volume snapshot ID mismatch: expected "@ + self.snapshot_id
                                + ", found "@ + parent@,
                        },
                    )
                } else {
                    self.entering(ProvisioningPhase::PoweringOn, AttemptStage::SavingPower)
                },
                None => self.entering(ProvisioningPhase::PoweringOn, AttemptStage::SavingPower),
            },
            Err(e) => self.failing(e@),
        }
    }

    /// The attempt after a look at the public address.
    pub open spec fn checked_ip(self, outcome: Result<InstanceIp, AppError>) -> AttemptView {
        match outcome {
            Ok(ip) => if ip.server is Some && ip.server->0.id@ == self.server_id {
                self.entering(ProvisioningPhase::WaitingForNemotron, AttemptStage::SavingStartup)
            } else {
                self.failing(
                    AppErrorView::IpAllocationFailed(
                        "Verification failed: Public IP is still not attached to the target server after attach call"@,
                    ),
                )
            },
            Err(e) => self.failing(e@),
        }
    }

    /// The attempt after the wait for the inference server.
    pub open spec fn served(self, outcome: Result<(), AppError>) -> AttemptView {
        match outcome {
            Ok(_) => match self.state.public_ip_address {
                Some(ip) => AttemptView {
                    stage: AttemptStage::Finished,
                    result: Some(Ok(ip)),
                    ..self
                },
                None => self,
            },
            Err(e) => match e@ {
                AppErrorView::GuestRuntimeIncompatible { reason, .. } => self.failing(
                    AppErrorView::GuestRuntimeIncompatible { gpu_type: self.gpu_type, reason },
                ),
                other => self.failing(other),
            },
        }
    }

    /// The attempt after the record was saved.
    pub open spec fn saved(self) -> AttemptView {
        match self.stage {
            AttemptStage::SavingCreation => self.at(AttemptStage::Creating),
            AttemptStage::SavingInstance => self.entering(
                ProvisioningPhase::DiscoveringBootVolume,
                AttemptStage::SavingDiscovery,
            ),
            AttemptStage::SavingDiscovery => self.discovered(),
            AttemptStage::SavingVolume => self.at(AttemptStage::CheckingVolume),
            AttemptStage::SavingPower => if self.running {
                self.entering(ProvisioningPhase::WaitingForRunning, AttemptStage::SavingWait)
            } else {
                self.at(AttemptStage::PoweringOn)
            },
            AttemptStage::SavingWait => self.at(AttemptStage::AwaitingRunning),
            AttemptStage::SavingAllocation => self.at(AttemptStage::Allocating),
            AttemptStage::SavingIp => self.at(AttemptStage::Attaching),
            AttemptStage::SavingStartup => self.at(AttemptStage::AwaitingNemotron),
            _ => self,
        }
    }

    /// The attempt after a reply. A reply that does not answer what is asked for changes nothing.
    pub open spec fn after(self, reply: Reply) -> AttemptView {
        match (self.stage, reply) {
            (AttemptStage::Creating, Reply::Server(outcome)) => self.created(outcome),
            (AttemptStage::CheckingVolume, Reply::Volume(outcome)) => self.checked_volume(outcome),
            (AttemptStage::PoweringOn, Reply::Done(outcome)) => match outcome {
                Ok(_) => self.entering(
                    ProvisioningPhase::WaitingForRunning,
                    AttemptStage::SavingWait,
                ),
                Err(e) => self.failing(self.stock_error(e@)),
            },
            (AttemptStage::AwaitingRunning, Reply::Server(outcome)) => match outcome {
                Ok(server) => (AttemptView { server_id: server.id@, ..self }).entering(
                    ProvisioningPhase::AllocatingIp,
                    AttemptStage::SavingAllocation,
                ),
                Err(e) => self.failing(e@),
            },
            (AttemptStage::Allocating, Reply::Ip(outcome)) => match outcome {
                Ok(ip) => AttemptView {
                    state: StateView {
                        public_ip_id: Some(ip.id@),
                        public_ip_address: Some(ip.address@),
                        ..self.state
                    },
                    stage: AttemptStage::SavingIp,
                    ..self
                },
                Err(e) => self.failing(e@),
            },
            (AttemptStage::Attaching, Reply::Done(outcome)) => match outcome {
                Ok(_) => self.at(AttemptStage::CheckingIp),
                Err(e) => self.failing(e@),
            },
            (AttemptStage::CheckingIp, Reply::Ip(outcome)) => self.checked_ip(outcome),
            (AttemptStage::AwaitingNemotron, Reply::Done(outcome)) => self.served(outcome),
            (AttemptStage::Finished, _) => self,
            (AttemptStage::Creating, _) => self,
            (AttemptStage::CheckingVolume, _) => self,
            (AttemptStage::AwaitingRunning, _) => self,
            (AttemptStage::Allocating, _) => self,
            (AttemptStage::CheckingIp, _) => self,
            (_, Reply::Done(outcome)) => match outcome {
                Ok(_) => self.saved(),
                Err(e) => self.failing(e@),
            },
            _ => self,
        }
    }
}

// ---------------------------------------------------------------- carrying it out

impl AttemptRun {
    /// Begins an attempt with a GPU type, for which the record was opened.
    pub fn provision_single_attempt(
        state: State,
        base_name: &str,
        gpu_type: &str,
        snapshot_id: &str,
        zone: &str,
        timeouts: TimeoutsConfig,
    ) -> (run: AttemptRun)
        requires
            state::names_attempt(state@.attempt_id),
        ensures
            run@ == AttemptView::begun(
                state@,
                base_name@,
                gpu_type@,
                snapshot_id@,
                zone@,
                timeouts,
            ),
    {
        let mut state: State = state;
        state.phase = ProvisioningPhase::CreatingInstance;
        let lower: String = lowercase_text(gpu_type);
        let name: String = base_name.to_owned()
            .concat("-")
            .concat(replace_char(lower.as_str(), '_', "-").as_str())
            .concat("-")
            .concat(front_text(state.attempt_id.as_str(), 8).as_str());
        let run: AttemptRun = AttemptRun {
            state,
            name,
            gpu_type: gpu_type.to_owned(),
            snapshot_id: snapshot_id.to_owned(),
            zone: zone.to_owned(),
            timeouts,
            stage: AttemptStage::SavingCreation,
            running: false,
            boot_volume: None,
            server_id: String::new(),
            result: None,
        };
        proof {
            assert(run.server_id@ =~= Seq::<char>::empty());
        }
        run
    }

    /// What the attempt asks for; nothing when it is over.
    pub fn pending(&self) -> (call: Option<Call>)
        ensures
            call is Some == self@.pending() is Some,
            call matches Some(c) ==> c@ == self@.pending()->0,
    {
        match self.stage {
            AttemptStage::Creating => Some(
                Call::CreateInstance {
                    name: self.name.clone(),
                    gpu_type: self.gpu_type.clone(),
                    snapshot_id: self.snapshot_id.clone(),
                    attempt_id: self.state.attempt_id.clone(),
                },
            ),
            AttemptStage::CheckingVolume => match &self.state.volume_id {
                Some(id) => Some(Call::GetVolume { volume_id: id.clone() }),
                None => None,
            },
            AttemptStage::PoweringOn => match &self.state.instance_id {
                Some(id) => Some(Call::PowerOn { server_id: id.clone() }),
                None => None,
            },
            AttemptStage::AwaitingRunning => match &self.state.instance_id {
                Some(id) => Some(
                    Call::WaitRunning {
                        server_id: id.clone(),
                        timeout_secs: self.timeouts.instance_creation_seconds,
                        poll_secs: self.timeouts.instance_poll_interval_seconds,
                    },
                ),
                None => None,
            },
            AttemptStage::Allocating => Some(
                Call::AllocateIp { attempt_id: self.state.attempt_id.clone() },
            ),
            AttemptStage::Attaching => match &self.state.public_ip_id {
                Some(id) => Some(
                    Call::AttachIp { ip_id: id.clone(), server_id: self.server_id.clone() },
                ),
                None => None,
            },
            AttemptStage::CheckingIp => match &self.state.public_ip_id {
                Some(id) => Some(Call::GetPublicIp { ip_id: id.clone() }),
                None => None,
            },
            AttemptStage::AwaitingNemotron => match &self.state.public_ip_address {
                Some(ip) => Some(
                    Call::WaitNemotron {
                        ip_address: ip.clone(),
                        timeout_secs: self.timeouts.nemotron_startup_seconds,
                        poll_secs: self.timeouts.nemotron_poll_interval_seconds,
                    },
                ),
                None => None,
            },
            AttemptStage::Finished => None,
            _ => Some(Call::SaveState),
        }
    }

    fn fail(&mut self, e: AppError)
        ensures
            final(self)@ == old(self)@.failing(e@),
    {
        self.stage = AttemptStage::Finished;
        self.result = Some(Err(e));
    }

    fn fail_for_stock(&mut self, e: AppError)
        ensures
            final(self)@ == old(self)@.failing(old(self)@.stock_error(e@)),
    {
        if e.is_out_of_stock() {
            let named: AppError = AppError::OutOfStock {
                gpu_type: self.gpu_type.clone(),
                zone: self.zone.clone(),
            };
            self.fail(named);
        } else {
            self.fail(e);
        }
    }

    fn enter(&mut self, phase: ProvisioningPhase, stage: AttemptStage)
        ensures
            final(self)@ == old(self)@.entering(phase, stage),
    {
        self.state.phase = phase;
        self.stage = stage;
    }

    fn note_created(&mut self, outcome: Result<Server, AppError>)
        ensures
            final(self)@ == old(self)@.created(outcome),
    {
        match outcome {
            Ok(server) => {
                self.running = same_text(server.state.as_str(), "running");
                self.boot_volume = server.boot_volume();
                self.state.instance_id = Some(server.id);
                self.stage = AttemptStage::SavingInstance;
            },
            Err(e) => {
                self.fail_for_stock(e);
            },
        }
    }

    fn note_discovered(&mut self)
        ensures
            final(self)@ == old(self)@.discovered(),
    {
        match copy_text(&self.boot_volume) {
            Some(id) => {
                self.state.volume_id = Some(id);
                self.stage = AttemptStage::SavingVolume;
            },
            None => {
                self.fail(
                    AppError::InstanceCreationFailed(
                        "No boot volume returned in server creation response".to_owned(),
                    ),
                );
            },
        }
    }

    fn note_volume(&mut self, outcome: Result<Volume, AppError>)
        ensures
            final(self)@ == old(self)@.checked_volume(outcome),
    {
        match outcome {
            Ok(volume) => {
                let mismatch: Option<String> = match volume.snapshot_id {
                    Some(parent) => {
                        if same_text(parent.as_str(), self.snapshot_id.as_str()) {
                            None
                        } else {
                            Some(parent)
                        }
                    },
                    None => None,
                };
                match mismatch {
                    Some(parent) => {
                        let e: AppError = AppError::IncompatibleVolume {
                            gpu_type: self.gpu_type.clone(),
                            reason: "Volume snapshot ID mismatch: expected ".to_owned()
                                .concat(self.snapshot_id.as_str())
                                .concat(", found ")
                                .concat(parent.as_str()),
                        };
                        self.fail(e);
                    },
                    None => {
                        self.enter(ProvisioningPhase::PoweringOn, AttemptStage::SavingPower);
                    },
                }
            },
            Err(e) => {
                self.fail(e);
            },
        }
    }

    fn note_ip(&mut self, outcome: Result<InstanceIp, AppError>)
        ensures
            final(self)@ == old(self)@.checked_ip(outcome),
    {
        match outcome {
            Ok(ip) => {
                let attached: bool = match &ip.server {
                    Some(server) => same_text(server.id.as_str(), self.server_id.as_str()),
                    None => false,
                };
                if attached {
                    self.enter(ProvisioningPhase::WaitingForNemotron, AttemptStage::SavingStartup);
                } else {
                    self.fail(
                        AppError::IpAllocationFailed(
                            "Verification failed: Public IP is still not attached to the target server after attach call".to_owned(),
                        ),
                    );
                }
            },
            Err(e) => {
                self.fail(e);
            },
        }
    }

    fn note_served(&mut self, outcome: Result<(), AppError>)
        ensures
            final(self)@ == old(self)@.served(outcome),
    {
        match outcome {
            Ok(_) => match copy_text(&self.state.public_ip_address) {
                Some(ip) => {
                    self.stage = AttemptStage::Finished;
                    self.result = Some(Ok(ip));
                },
                None => {},
            },
            Err(e) => match e {
                AppError::GuestRuntimeIncompatible { gpu_type: _, reason } => {
                    let named: AppError = AppError::GuestRuntimeIncompatible {
                        gpu_type: self.gpu_type.clone(),
                        reason,
                    };
                    self.fail(named);
                },
                other => {
                    self.fail(other);
                },
            },
        }
    }

    fn note_saved(&mut self)
        ensures
            final(self)@ == old(self)@.saved(),
    {
        match self.stage {
            AttemptStage::SavingCreation => {
                self.stage = AttemptStage::Creating;
            },
            AttemptStage::SavingInstance => {
                self.enter(
                    ProvisioningPhase::DiscoveringBootVolume,
                    AttemptStage::SavingDiscovery,
                );
            },
            AttemptStage::SavingDiscovery => {
                self.note_discovered();
            },
            AttemptStage::SavingVolume => {
                self.stage = AttemptStage::CheckingVolume;
            },
            AttemptStage::SavingPower => {
                if self.running {
                    self.enter(ProvisioningPhase::WaitingForRunning, AttemptStage::SavingWait);
                } else {
                    self.stage = AttemptStage::PoweringOn;
                }
            },
            AttemptStage::SavingWait => {
                self.stage = AttemptStage::AwaitingRunning;
            },
            AttemptStage::SavingAllocation => {
                self.stage = AttemptStage::Allocating;
            },
            AttemptStage::SavingIp => {
                self.stage = AttemptStage::Attaching;
            },
            AttemptStage::SavingStartup => {
                self.stage = AttemptStage::AwaitingNemotron;
            },
            _ => {},
        }
    }

    /// Takes the attempt on by a reply. A reply that does not answer what is asked for changes
    /// nothing.
    pub fn resume(&mut self, reply: Reply)
        ensures
            final(self)@ == old(self)@.after(reply),
    {
        match (self.stage, reply) {
            (AttemptStage::Creating, Reply::Server(outcome)) => {
                self.note_created(outcome);
            },
            (AttemptStage::CheckingVolume, Reply::Volume(outcome)) => {
                self.note_volume(outcome);
            },
            (AttemptStage::PoweringOn, Reply::Done(outcome)) => match outcome {
                Ok(_) => {
                    self.enter(ProvisioningPhase::WaitingForRunning, AttemptStage::SavingWait);
                },
                Err(e) => {
                    self.fail_for_stock(e);
                },
            },
            (AttemptStage::AwaitingRunning, Reply::Server(outcome)) => match outcome {
                Ok(server) => {
                    self.server_id = server.id;
                    self.enter(ProvisioningPhase::AllocatingIp, AttemptStage::SavingAllocation);
                },
                Err(e) => {
                    self.fail(e);
                },
            },
            (AttemptStage::Allocating, Reply::Ip(outcome)) => match outcome {
                Ok(ip) => {
                    self.state.public_ip_id = Some(ip.id);
                    self.state.public_ip_address = Some(ip.address);
                    self.stage = AttemptStage::SavingIp;
                },
                Err(e) => {
                    self.fail(e);
                },
            },
            (AttemptStage::Attaching, Reply::Done(outcome)) => match outcome {
                Ok(_) => {
                    self.stage = AttemptStage::CheckingIp;
                },
                Err(e) => {
                    self.fail(e);
                },
            },
            (AttemptStage::CheckingIp, Reply::Ip(outcome)) => {
                self.note_ip(outcome);
            },
            (AttemptStage::AwaitingNemotron, Reply::Done(outcome)) => {
                self.note_served(outcome);
            },
            (AttemptStage::Finished, _) => {},
            (AttemptStage::Creating, _) => {},
            (AttemptStage::CheckingVolume, _) => {},
            (AttemptStage::AwaitingRunning, _) => {},
            (AttemptStage::Allocating, _) => {},
            (AttemptStage::CheckingIp, _) => {},
            (_, Reply::Done(outcome)) => match outcome {
                Ok(_) => {
                    self.note_saved();
                },
                Err(e) => {
                    self.fail(e);
                },
            },
            _ => {},
        }
    }
}

} // verus!
