//! Removing what a session has made, and making sure that it is gone.

use vstd::prelude::*;
#[allow(unused_imports)]
use vstd::string::*;

use crate::config::Config;
use crate::error::AppError;
#[allow(unused_imports)]
use crate::error::AppErrorView;
#[allow(unused_imports)]
use crate::error;
use crate::outside::quoted_text;
#[allow(unused_imports)]
use crate::outside;
use crate::scaleway::calls::{Call, Reply};
#[allow(unused_imports)]
use crate::scaleway::calls::CallView;
use crate::state::{ProvisioningPhase, State};
#[allow(unused_imports)]
use crate::state::StateView;
use crate::text::same_text;
#[allow(unused_imports)]
use crate::text;

verus! {

/// What a cleanup has achieved.
#[derive(Debug, Clone, Copy, PartialEq, Eq, Structural)]
pub struct CleanupReport {
    /// Whether there is no instance any more.
    pub instance_deleted: bool,
    /// Whether there is no volume any more.
    pub volume_deleted: bool,
    /// Whether there is no public address any more.
    pub ip_deleted: bool,
    /// Whether the snapshot is still there.
    pub snapshot_preserved: bool,
}

/// Where a cleanup stands.
#[derive(Debug, Clone, Copy, PartialEq, Eq, Structural)]
pub enum CleanupStage {
    /// The record names the snapshot: nothing is touched.
    Refused,
    /// The record is saved before anything is touched.
    SavingPhase,
    /// The instance is switched off.
    PoweringOff,
    /// The instance goes down.
    AwaitingStop,
    /// The instance is removed.
    DeletingInstance,
    /// The instance is watched until it is gone.
    VerifyingInstance,
    /// The record is saved without the instance.
    SavingInstance,
    /// The volume is removed.
    DeletingVolume,
    /// The volume is watched until it is gone.
    VerifyingVolume,
    /// The record is saved without the volume.
    SavingVolume,
    /// The public address is given back.
    DeletingIp,
    /// The public address is watched until it is gone.
    VerifyingIp,
    /// The record is saved without the public address.
    SavingIp,
    /// The snapshot is looked at.
    CheckingSnapshot,
    /// Everything is gone: so is the record.
    RemovingState,
    /// Something is left: the record is kept.
    SavingIncomplete,
    /// The cleanup is over.
    Finished,
}

/// A cleanup under way.
#[derive(Debug)]
pub struct CleanupRun {
    /// The record of what there is to remove.
    pub state: State,
    /// The snapshot that must stay.
    pub snapshot_id: String,
    /// How long a removal may take to show, in seconds.
    pub timeout_secs: u64,
    /// How long between two looks, in seconds.
    pub poll_secs: u64,
    /// Where the cleanup stands.
    pub stage: CleanupStage,
    /// What it has achieved.
    pub report: CleanupReport,
    /// Whether something went wrong.
    pub failed: bool,
}

/// A cleanup as a value.
#[verifier::ext_equal]
pub struct CleanupView {
    /// The record of what there is to remove.
    pub state: StateView,
    /// The snapshot that must stay.
    pub snapshot_id: Seq<char>,
    /// How long a removal may take to show, in seconds.
    pub timeout_secs: u64,
    /// How long between two looks, in seconds.
    pub poll_secs: u64,
    /// Where the cleanup stands.
    pub stage: CleanupStage,
    /// What it has achieved.
    pub report: CleanupReport,
    /// Whether something went wrong.
    pub failed: bool,
}

impl View for CleanupRun {
    type V = CleanupView;

    open spec fn view(&self) -> CleanupView {
        CleanupView {
            state: self.state@,
            snapshot_id: self.snapshot_id@,
            timeout_secs: self.timeout_secs,
            poll_secs: self.poll_secs,
            stage: self.stage,
            report: self.report,
            failed: self.failed,
        }
    }
}

/// How long an instance may take to go down, in seconds.
pub const STOP_TIMEOUT_SECS: u64 = 120;

/// How long between two looks at an instance that goes down, in seconds.
pub const STOP_POLL_SECS: u64 = 5;

/// The report of a cleanup that has achieved nothing yet.
pub open spec fn nothing_achieved() -> CleanupReport {
    CleanupReport {
        instance_deleted: false,
        volume_deleted: false,
        ip_deleted: false,
        snapshot_preserved: false,
    }
}

// ---------------------------------------------------------------- the course of a cleanup

impl CleanupView {
    /// The start of a cleanup. It is refused where the record names the snapshot.
    pub open spec fn begun(
        state: StateView,
        snapshot_id: Seq<char>,
        timeout_secs: u64,
        poll_secs: u64,
    ) -> CleanupView {
        let refused = state.tracks(snapshot_id);
        CleanupView {
            state: if refused {
                state
            } else {
                StateView { phase: ProvisioningPhase::CleaningUp, ..state }
            },
            snapshot_id,
            timeout_secs,
            poll_secs,
            stage: if refused {
                CleanupStage::Refused
            } else {
                CleanupStage::SavingPhase
            },
            report: nothing_achieved(),
            failed: false,
        }
    }

    /// The same cleanup at another stage.
    pub open spec fn at(self, stage: CleanupStage) -> CleanupView {
        CleanupView { stage, ..self }
    }

    /// The same cleanup, with something gone wrong.
    pub open spec fn failing(self) -> CleanupView {
        CleanupView { failed: true, ..self }
    }

    /// The instance is taken on next, if there is one.
    pub open spec fn on_to_instance(self) -> CleanupView {
        if self.state.instance_id is Some {
            self.at(CleanupStage::PoweringOff)
        } else {
            (CleanupView {
                report: CleanupReport { instance_deleted: true, ..self.report },
                ..self
            }).on_to_volume()
        }
    }

    /// The volume is taken on next, if there is one.
    pub open spec fn on_to_volume(self) -> CleanupView {
        if self.state.volume_id is Some {
            self.at(CleanupStage::DeletingVolume)
        } else {
            (CleanupView {
                report: CleanupReport { volume_deleted: true, ..self.report },
                ..self
            }).on_to_ip()
        }
    }

    /// The public address is taken on next, if there is one.
    pub open spec fn on_to_ip(self) -> CleanupView {
        if self.state.public_ip_id is Some {
            self.at(CleanupStage::DeletingIp)
        } else {
            CleanupView {
                report: CleanupReport { ip_deleted: true, ..self.report },
                stage: CleanupStage::CheckingSnapshot,
                ..self
            }
        }
    }

    /// The instance is gone, and the record forgets it.
    pub open spec fn without_instance(self) -> CleanupView {
        CleanupView {
            state: StateView { instance_id: None, ..self.state },
            report: CleanupReport { instance_deleted: true, ..self.report },
            stage: CleanupStage::SavingInstance,
            ..self
        }
    }

    /// The volume is gone, and the record forgets it.
    pub open spec fn without_volume(self) -> CleanupView {
        CleanupView {
            state: StateView { volume_id: None, ..self.state },
            report: CleanupReport { volume_deleted: true, ..self.report },
            stage: CleanupStage::SavingVolume,
            ..self
        }
    }

    /// The public address is gone, and the record forgets it.
    pub open spec fn without_ip(self) -> CleanupView {
        CleanupView {
            state: StateView { public_ip_id: None, public_ip_address: None, ..self.state },
            report: CleanupReport { ip_deleted: true, ..self.report },
            stage: CleanupStage::SavingIp,
            ..self
        }
    }

    /// The snapshot was looked at: the record goes where nothing went wrong, and stays otherwise.
    pub open spec fn settled(self) -> CleanupView {
        if self.failed {
            CleanupView {
                state: StateView { phase: ProvisioningPhase::CleanupIncomplete, ..self.state },
                stage: CleanupStage::SavingIncomplete,
                ..self
            }
        } else {
            self.at(CleanupStage::RemovingState)
        }
    }

    /// What the cleanup asks for; nothing when it is over.
    pub open spec fn pending(self) -> Option<CallView> {
        match self.stage {
            CleanupStage::Refused => None,
            CleanupStage::SavingPhase => Some(CallView::SaveState),
            CleanupStage::PoweringOff => match self.state.instance_id {
                Some(server_id) => Some(CallView::PowerOff { server_id }),
                None => None,
            },
            CleanupStage::AwaitingStop => match self.state.instance_id {
                Some(server_id) => Some(
                    CallView::WaitStopped {
                        server_id,
                        timeout_secs: STOP_TIMEOUT_SECS,
                        poll_secs: STOP_POLL_SECS,
                    },
                ),
                None => None,
            },
            CleanupStage::DeletingInstance => match self.state.instance_id {
                Some(server_id) => Some(
                    CallView::DeleteInstance { server_id, snapshot_id: self.snapshot_id },
                ),
                None => None,
            },
            CleanupStage::VerifyingInstance => match self.state.instance_id {
                Some(server_id) => Some(
                    CallView::VerifyInstanceDeleted {
                        server_id,
                        timeout_secs: self.timeout_secs,
                        poll_secs: self.poll_secs,
                    },
                ),
                None => None,
            },
            CleanupStage::SavingInstance => Some(CallView::SaveState),
            CleanupStage::DeletingVolume => match self.state.volume_id {
                Some(volume_id) => Some(
                    CallView::DeleteVolume { volume_id, snapshot_id: self.snapshot_id },
                ),
                None => None,
            },
            CleanupStage::VerifyingVolume => match self.state.volume_id {
                Some(volume_id) => Some(
                    CallView::VerifyVolumeDeleted {
                        volume_id,
                        timeout_secs: self.timeout_secs,
                        poll_secs: self.poll_secs,
                    },
                ),
                None => None,
            },
            CleanupStage::SavingVolume => Some(CallView::SaveState),
            CleanupStage::DeletingIp => match self.state.public_ip_id {
                Some(ip_id) => Some(
                    CallView::DeletePublicIp { ip_id, snapshot_id: self.snapshot_id },
                ),
                None => None,
            },
            CleanupStage::VerifyingIp => match self.state.public_ip_id {
                Some(ip_id) => Some(
                    CallView::VerifyPublicIpDeleted {
                        ip_id,
                        timeout_secs: self.timeout_secs,
                        poll_secs: self.poll_secs,
                    },
                ),
                None => None,
            },
            CleanupStage::SavingIp => Some(CallView::SaveState),
            CleanupStage::CheckingSnapshot => Some(
                CallView::GetSnapshot { snapshot_id: self.snapshot_id },
            ),
            CleanupStage::RemovingState => Some(CallView::RemoveState),
            CleanupStage::SavingIncomplete => Some(CallView::SaveState),
            CleanupStage::Finished => None,
        }
    }

    /// The cleanup after a reply. A reply that does not answer what is asked for changes nothing.
    pub open spec fn after(self, reply: Reply) -> CleanupView {
        match (self.stage, reply) {
            (CleanupStage::SavingPhase, Reply::Done(_)) => self.on_to_instance(),
            (CleanupStage::PoweringOff, Reply::Done(_)) => self.at(CleanupStage::AwaitingStop),
            (CleanupStage::AwaitingStop, Reply::Done(_)) => self.at(
                CleanupStage::DeletingInstance,
            ),
            (CleanupStage::DeletingInstance, Reply::Done(outcome)) => match outcome {
                Ok(_) => self.at(CleanupStage::VerifyingInstance),
                Err(e) => if error::says_not_found(e@) {
                    self.without_instance()
                } else {
                    self.failing().on_to_volume()
                },
            },
            (CleanupStage::VerifyingInstance, Reply::Done(outcome)) => match outcome {
                Ok(_) => self.without_instance(),
                Err(_) => self.failing().on_to_volume(),
            },
            (CleanupStage::SavingInstance, Reply::Done(_)) => self.on_to_volume(),
            (CleanupStage::DeletingVolume, Reply::Done(outcome)) => match outcome {
                Ok(_) => self.at(CleanupStage::VerifyingVolume),
                Err(e) => if error::says_not_found(e@) {
                    self.without_volume()
                } else {
                    self.failing().on_to_ip()
                },
            },
            (CleanupStage::VerifyingVolume, Reply::Done(outcome)) => match outcome {
                Ok(_) => self.without_volume(),
                Err(_) => self.failing().on_to_ip(),
            },
            (CleanupStage::SavingVolume, Reply::Done(_)) => self.on_to_ip(),
            (CleanupStage::DeletingIp, Reply::Done(outcome)) => match outcome {
                Ok(_) => self.at(CleanupStage::VerifyingIp),
                Err(e) => if error::says_not_found(e@) {
                    self.without_ip()
                } else {
                    self.failing().at(CleanupStage::CheckingSnapshot)
                },
            },
            (CleanupStage::VerifyingIp, Reply::Done(outcome)) => match outcome {
                Ok(_) => self.without_ip(),
                Err(_) => self.failing().at(CleanupStage::CheckingSnapshot),
            },
            (CleanupStage::SavingIp, Reply::Done(_)) => self.at(CleanupStage::CheckingSnapshot),
            (CleanupStage::CheckingSnapshot, Reply::Snapshot(outcome)) => match outcome {
                Ok(_) => (CleanupView {
                    report: CleanupReport { snapshot_preserved: true, ..self.report },
                    ..self
                }).settled(),
                Err(_) => self.failing().settled(),
            },
            (CleanupStage::RemovingState, Reply::Done(_)) => self.at(CleanupStage::Finished),
            (CleanupStage::SavingIncomplete, Reply::Done(_)) => self.at(CleanupStage::Finished),
            _ => self,
        }
    }

    /// Whether the cleanup is over.
    pub open spec fn over(self) -> bool {
        self.stage is Finished || self.stage is Refused
    }

    /// What a cleanup that is over comes to.
    pub open spec fn verdict(self) -> Result<CleanupReport, AppErrorView> {
        if self.stage is Refused {
            Err(AppErrorView::SafetyViolation("Refusing to delete source snapshot"@))
        } else if self.failed {
            Err(AppErrorView::CleanupIncomplete(what_remains(self.state)))
        } else {
            Ok(self.report)
        }
    }
}

/// An identifier that may be absent, as it is shown to the user.
pub open spec fn shown_id(id: Option<Seq<char>>) -> Seq<char> {
    match id {
        Some(found) => "Some("@ + outside::quoted(found) + ")"@,
        None => "None"@,
    }
}

/// What is said of the resources that could not be removed.
pub open spec fn what_remains(state: StateView) -> Seq<char> {
    "Cleanup incomplete. State file retained. Existing resources: Instance: "@ + shown_id(
        state.instance_id,
    ) + ", Volume: "@ + shown_id(state.volume_id) + ", IP: "@ + shown_id(state.public_ip_id)
}

/// The identifier that may be absent, as it is shown to the user.
pub fn show_id(id: &Option<String>) -> (shown: String)
    ensures
        shown@ == shown_id(text::some_text(*id)),
{
    match id {
        Some(found) => "Some(".to_owned().concat(quoted_text(found.as_str()).as_str()).concat(")"),
        None => "None".to_owned(),
    }
}

// ---------------------------------------------------------------- carrying it out

impl CleanupRun {
    /// Begins the cleanup of what a record holds.
    pub fn begin(state: State, snapshot_id: String, timeout_secs: u64, poll_secs: u64) -> (run:
        CleanupRun)
        ensures
            run@ == CleanupView::begun(state@, snapshot_id@, timeout_secs, poll_secs),
    {
        let refused: bool = names(&state.instance_id, snapshot_id.as_str()) || names(
            &state.volume_id,
            snapshot_id.as_str(),
        ) || names(&state.public_ip_id, snapshot_id.as_str());
        let mut state: State = state;
        if !refused {
            state.phase = ProvisioningPhase::CleaningUp;
        }
        CleanupRun {
            state,
            snapshot_id,
            timeout_secs,
            poll_secs,
            stage: if refused {
                CleanupStage::Refused
            } else {
                CleanupStage::SavingPhase
            },
            report: CleanupReport {
                instance_deleted: false,
                volume_deleted: false,
                ip_deleted: false,
                snapshot_preserved: false,
            },
            failed: false,
        }
    }

    /// Begins the cleanup of what a record holds, as the configuration says.
    pub fn cleanup_failed_attempt(config: &Config, state: State) -> (run: CleanupRun)
        ensures
            run@ == CleanupView::begun(
                state@,
                config.instance.snapshot_id@,
                config.timeouts.cleanup_timeout_seconds,
                config.timeouts.cleanup_poll_interval_seconds,
            ),
    {
        CleanupRun::begin(
            state,
            config.instance.snapshot_id.clone(),
            config.timeouts.cleanup_timeout_seconds,
            config.timeouts.cleanup_poll_interval_seconds,
        )
    }

    /// What the cleanup asks for; nothing when it is over.
    pub fn pending(&self) -> (call: Option<Call>)
        ensures
            call is Some == self@.pending() is Some,
            call matches Some(c) ==> c@ == self@.pending()->0,
    {
        match self.stage {
            CleanupStage::Refused => None,
            CleanupStage::SavingPhase => Some(Call::SaveState),
            CleanupStage::PoweringOff => match &self.state.instance_id {
                Some(id) => Some(Call::PowerOff { server_id: id.clone() }),
                None => None,
            },
            CleanupStage::AwaitingStop => match &self.state.instance_id {
                Some(id) => Some(
                    Call::WaitStopped {
                        server_id: id.clone(),
                        timeout_secs: STOP_TIMEOUT_SECS,
                        poll_secs: STOP_POLL_SECS,
                    },
                ),
                None => None,
            },
            CleanupStage::DeletingInstance => match &self.state.instance_id {
                Some(id) => Some(
                    Call::DeleteInstance {
                        server_id: id.clone(),
                        snapshot_id: self.snapshot_id.clone(),
                    },
                ),
                None => None,
            },
            CleanupStage::VerifyingInstance => match &self.state.instance_id {
                Some(id) => Some(
                    Call::VerifyInstanceDeleted {
                        server_id: id.clone(),
                        timeout_secs: self.timeout_secs,
                        poll_secs: self.poll_secs,
                    },
                ),
                None => None,
            },
            CleanupStage::SavingInstance => Some(Call::SaveState),
            CleanupStage::DeletingVolume => match &self.state.volume_id {
                Some(id) => Some(
                    Call::DeleteVolume {
                        volume_id: id.clone(),
                        snapshot_id: self.snapshot_id.clone(),
                    },
                ),
                None => None,
            },
            CleanupStage::VerifyingVolume => match &self.state.volume_id {
                Some(id) => Some(
                    Call::VerifyVolumeDeleted {
                        volume_id: id.clone(),
                        timeout_secs: self.timeout_secs,
                        poll_secs: self.poll_secs,
                    },
                ),
                None => None,
            },
            CleanupStage::SavingVolume => Some(Call::SaveState),
            CleanupStage::DeletingIp => match &self.state.public_ip_id {
                Some(id) => Some(
                    Call::DeletePublicIp {
                        ip_id: id.clone(),
                        snapshot_id: self.snapshot_id.clone(),
                    },
                ),
                None => None,
            },
            CleanupStage::VerifyingIp => match &self.state.public_ip_id {
                Some(id) => Some(
                    Call::VerifyPublicIpDeleted {
                        ip_id: id.clone(),
                        timeout_secs: self.timeout_secs,
                        poll_secs: self.poll_secs,
                    },
                ),
                None => None,
            },
            CleanupStage::SavingIp => Some(Call::SaveState),
            CleanupStage::CheckingSnapshot => Some(
                Call::GetSnapshot { snapshot_id: self.snapshot_id.clone() },
            ),
            CleanupStage::RemovingState => Some(Call::RemoveState),
            CleanupStage::SavingIncomplete => Some(Call::SaveState),
            CleanupStage::Finished => None,
        }
    }

    fn on_to_instance(&mut self)
        ensures
            final(self)@ == old(self)@.on_to_instance(),
    {
        if self.state.instance_id.is_some() {
            self.stage = CleanupStage::PoweringOff;
        } else {
            self.report.instance_deleted = true;
            self.on_to_volume();
        }
    }

    fn on_to_volume(&mut self)
        ensures
            final(self)@ == old(self)@.on_to_volume(),
    {
        if self.state.volume_id.is_some() {
            self.stage = CleanupStage::DeletingVolume;
        } else {
            self.report.volume_deleted = true;
            self.on_to_ip();
        }
    }

    fn on_to_ip(&mut self)
        ensures
            final(self)@ == old(self)@.on_to_ip(),
    {
        if self.state.public_ip_id.is_some() {
            self.stage = CleanupStage::DeletingIp;
        } else {
            self.report.ip_deleted = true;
            self.stage = CleanupStage::CheckingSnapshot;
        }
    }

    fn drop_instance(&mut self)
        ensures
            final(self)@ == old(self)@.without_instance(),
    {
        self.state.instance_id = None;
        self.report.instance_deleted = true;
        self.stage = CleanupStage::SavingInstance;
    }

    fn drop_volume(&mut self)
        ensures
            final(self)@ == old(self)@.without_volume(),
    {
        self.state.volume_id = None;
        self.report.volume_deleted = true;
        self.stage = CleanupStage::SavingVolume;
    }

    fn drop_ip(&mut self)
        ensures
            final(self)@ == old(self)@.without_ip(),
    {
        self.state.public_ip_id = None;
        self.state.public_ip_address = None;
        self.report.ip_deleted = true;
        self.stage = CleanupStage::SavingIp;
    }

    fn settle(&mut self)
        ensures
            final(self)@ == old(self)@.settled(),
    {
        if self.failed {
            self.state.phase = ProvisioningPhase::CleanupIncomplete;
            self.stage = CleanupStage::SavingIncomplete;
        } else {
            self.stage = CleanupStage::RemovingState;
        }
    }

    /// Takes the cleanup on by a reply. A reply that does not answer what is asked for changes
    /// nothing.
    pub fn resume(&mut self, reply: &Reply)
        ensures
            final(self)@ == old(self)@.after(*reply),
    {
        match (self.stage, reply) {
            (CleanupStage::SavingPhase, Reply::Done(_)) => {
                self.on_to_instance();
            },
            (CleanupStage::PoweringOff, Reply::Done(_)) => {
                self.stage = CleanupStage::AwaitingStop;
            },
            (CleanupStage::AwaitingStop, Reply::Done(_)) => {
                self.stage = CleanupStage::DeletingInstance;
            },
            (CleanupStage::DeletingInstance, Reply::Done(outcome)) => match outcome {
                Ok(_) => {
                    self.stage = CleanupStage::VerifyingInstance;
                },
                Err(e) => {
                    if e.is_not_found() {
                        self.drop_instance();
                    } else {
                        self.failed = true;
                        self.on_to_volume();
                    }
                },
            },
            (CleanupStage::VerifyingInstance, Reply::Done(outcome)) => match outcome {
                Ok(_) => {
                    self.drop_instance();
                },
                Err(_) => {
                    self.failed = true;
                    self.on_to_volume();
                },
            },
            (CleanupStage::SavingInstance, Reply::Done(_)) => {
                self.on_to_volume();
            },
            (CleanupStage::DeletingVolume, Reply::Done(outcome)) => match outcome {
                Ok(_) => {
                    self.stage = CleanupStage::VerifyingVolume;
                },
                Err(e) => {
                    if e.is_not_found() {
                        self.drop_volume();
                    } else {
                        self.failed = true;
                        self.on_to_ip();
                    }
                },
            },
            (CleanupStage::VerifyingVolume, Reply::Done(outcome)) => match outcome {
                Ok(_) => {
                    self.drop_volume();
                },
                Err(_) => {
                    self.failed = true;
                    self.on_to_ip();
                },
            },
            (CleanupStage::SavingVolume, Reply::Done(_)) => {
                self.on_to_ip();
            },
            (CleanupStage::DeletingIp, Reply::Done(outcome)) => match outcome {
                Ok(_) => {
                    self.stage = CleanupStage::VerifyingIp;
                },
                Err(e) => {
                    if e.is_not_found() {
                        self.drop_ip();
                    } else {
                        self.failed = true;
                        self.stage = CleanupStage::CheckingSnapshot;
                    }
                },
            },
            (CleanupStage::VerifyingIp, Reply::Done(outcome)) => match outcome {
                Ok(_) => {
                    self.drop_ip();
                },
                Err(_) => {
                    self.failed = true;
                    self.stage = CleanupStage::CheckingSnapshot;
                },
            },
            (CleanupStage::SavingIp, Reply::Done(_)) => {
                self.stage = CleanupStage::CheckingSnapshot;
            },
            (CleanupStage::CheckingSnapshot, Reply::Snapshot(outcome)) => {
                match outcome {
                    Ok(_) => {
                        self.report.snapshot_preserved = true;
                    },
                    Err(_) => {
                        self.failed = true;
                    },
                }
                self.settle();
            },
            (CleanupStage::RemovingState, Reply::Done(_)) => {
                self.stage = CleanupStage::Finished;
            },
            (CleanupStage::SavingIncomplete, Reply::Done(_)) => {
                self.stage = CleanupStage::Finished;
            },
            _ => {},
        }
    }

    /// What a cleanup that is over comes to; nothing while it is under way.
    pub fn outcome(&self) -> (outcome: Option<Result<CleanupReport, AppError>>)
        ensures
            outcome is Some == self@.over(),
            outcome matches Some(Ok(report)) ==> self@.verdict() == Ok::<
                CleanupReport,
                AppErrorView,
            >(report),
            outcome matches Some(Err(e)) ==> self@.verdict() == Err::<CleanupReport, AppErrorView>(
                e@,
            ),
    {
        match self.stage {
            CleanupStage::Refused => Some(
                Err(AppError::SafetyViolation("Refusing to delete source snapshot".to_owned())),
            ),
            CleanupStage::Finished => {
                if self.failed {
                    Some(
                        Err(
                            AppError::CleanupIncomplete(
                                "Cleanup incomplete. State file retained. Existing resources: Instance: ".to_owned()
                                    .concat(show_id(&self.state.instance_id).as_str())
                                    .concat(", Volume: ")
                                    .concat(show_id(&self.state.volume_id).as_str())
                                    .concat(", IP: ")
                                    .concat(show_id(&self.state.public_ip_id).as_str()),
                            ),
                        ),
                    )
                } else {
                    Some(Ok(self.report))
                }
            },
            _ => None,
        }
    }
}

/// Whether an identifier that may be absent is this one.
fn names(id: &Option<String>, snapshot_id: &str) -> (yes: bool)
    ensures
        yes == (text::some_text(*id) == Some(snapshot_id@)),
{
    match id {
        Some(found) => same_text(found.as_str(), snapshot_id),
        None => false,
    }
}

} // verus!
