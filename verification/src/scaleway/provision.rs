//! Bringing a session up: what an earlier run left is taken on or removed, then the GPU types are
//! tried in order until one is up.

use vstd::prelude::*;
#[allow(unused_imports)]
use vstd::string::*;

use crate::config::{Config, TimeoutsConfig};
use crate::error::AppError;
#[allow(unused_imports)]
use crate::error::AppErrorView;
#[allow(unused_imports)]
use crate::error;
use crate::scaleway::attempt::AttemptRun;
#[allow(unused_imports)]
use crate::scaleway::attempt::AttemptView;
#[allow(unused_imports)]
use crate::scaleway::attempt;
use crate::scaleway::calls::{Call, Reply};
#[allow(unused_imports)]
use crate::scaleway::calls::CallView;
use crate::scaleway::cleanup::CleanupRun;
#[allow(unused_imports)]
use crate::scaleway::cleanup::CleanupView;
use crate::scaleway::client::ScalewayClient;
use crate::scaleway::compatibility::judge;
#[allow(unused_imports)]
use crate::scaleway::compatibility;
use crate::scaleway::models::ServerTypesResponse;
use crate::scaleway::reconcile::Reconciliation;
#[allow(unused_imports)]
use crate::scaleway::reconcile::{OutcomeView, ReconciliationView};
use crate::state::{Identity, ProvisioningPhase, State, STATE_VERSION};
#[allow(unused_imports)]
use crate::state::StateView;
#[allow(unused_imports)]
use crate::state;
use crate::text::copy_texts;
#[allow(unused_imports)]
use crate::text;

pub use crate::scaleway::cleanup::CleanupReport;
pub use crate::scaleway::compatibility::Compatibility;
pub use crate::scaleway::reconcile::ReconciliationOutcome;

verus! {

// ---------------------------------------------------------------- what is to be done

/// What a session is to be made of.
#[derive(Debug)]
pub struct Plan {
    /// The snapshot that the instance boots from.
    pub snapshot_id: String,
    /// The zone that the client works in.
    pub zone: String,
    /// The zone that is put down in the record.
    pub record_zone: String,
    /// The name that the instance is called after.
    pub instance_name: String,
    /// The GPU types to try, in order.
    pub candidates: Vec<String>,
    /// How long things may take.
    pub timeouts: TimeoutsConfig,
}

/// What a session is to be made of, as a value.
pub struct PlanView {
    /// The snapshot that the instance boots from.
    pub snapshot_id: Seq<char>,
    /// The zone that the client works in.
    pub zone: Seq<char>,
    /// The zone that is put down in the record.
    pub record_zone: Seq<char>,
    /// The name that the instance is called after.
    pub instance_name: Seq<char>,
    /// The GPU types to try, in order.
    pub candidates: Seq<Seq<char>>,
    /// How long things may take.
    pub timeouts: TimeoutsConfig,
}

impl View for Plan {
    type V = PlanView;

    open spec fn view(&self) -> PlanView {
        PlanView {
            snapshot_id: self.snapshot_id@,
            zone: self.zone@,
            record_zone: self.record_zone@,
            instance_name: self.instance_name@,
            candidates: text::texts(self.candidates@),
            timeouts: self.timeouts,
        }
    }
}

impl Plan {
    /// What the configuration asks for, in the zone of the client.
    pub fn new(client: &ScalewayClient, config: &Config) -> (plan: Plan)
        ensures
            plan@ == (PlanView {
                snapshot_id: config.instance.snapshot_id@,
                zone: client.zone@,
                record_zone: config.scaleway.zone@,
                instance_name: config.instance.name@,
                candidates: config.instance.gpu_list(),
                timeouts: config.timeouts,
            }),
    {
        Plan {
            snapshot_id: config.instance.snapshot_id.clone(),
            zone: client.zone.clone(),
            record_zone: config.scaleway.zone.clone(),
            instance_name: config.instance.name.clone(),
            candidates: config.instance.effective_gpu_types(),
            timeouts: config.timeouts,
        }
    }
}

// ---------------------------------------------------------------- where it stands

/// Where the bringing up of a session stands.
#[allow(inconsistent_fields)]
#[derive(Debug)]
pub enum EnsurePhase {
    /// A record of an older version is saved in the present one.
    SavingUpgrade {
        /// The record.
        state: State,
    },
    /// It is found out what the record is worth.
    Reconciling {
        /// The record.
        state: State,
        /// How far that has come.
        found: Reconciliation,
    },
    /// The record is saved with the volume of the instance that is taken on.
    SavingAdopted {
        /// The record.
        state: State,
        /// The public address.
        ip: String,
    },
    /// The user is told that the instance is taken on.
    ReportingResumed {
        /// The record.
        state: State,
        /// The public address.
        ip: String,
    },
    /// The user is told that what an earlier run left is removed.
    ReportingRecovery {
        /// The record.
        state: State,
    },
    /// What an earlier run left is removed.
    CleaningRecovery {
        /// How far that has come.
        run: CleanupRun,
    },
    /// A new record is saved.
    SavingReset {
        /// The record.
        state: State,
    },
    /// The credentials and the project are checked.
    Authenticating {
        /// The record.
        state: State,
    },
    /// The snapshot is looked at.
    CheckingSnapshot {
        /// The record.
        state: State,
    },
    /// The user is told that a GPU type is looked at.
    ReportingCheck {
        /// The record.
        state: State,
        /// The size of the snapshot.
        size: u64,
        /// The position of the GPU type.
        next: usize,
    },
    /// The products of the zone are looked at.
    ListingProducts {
        /// The record.
        state: State,
        /// The size of the snapshot.
        size: u64,
        /// The position of the GPU type.
        next: usize,
    },
    /// The record is saved at the start of an attempt.
    SavingAttempt {
        /// The record.
        state: State,
        /// The size of the snapshot.
        size: u64,
        /// The position of the GPU type.
        next: usize,
    },
    /// The user is told that a GPU type is tried.
    ReportingAttempt {
        /// The record.
        state: State,
        /// The size of the snapshot.
        size: u64,
        /// The position of the GPU type.
        next: usize,
    },
    /// A GPU type is tried.
    Attempting {
        /// How far that has come.
        run: AttemptRun,
        /// The size of the snapshot.
        size: u64,
        /// The position of the GPU type.
        next: usize,
    },
    /// The record is saved when everything is up.
    SavingReady {
        /// The record.
        state: State,
        /// The public address.
        ip: String,
    },
    /// The user is told that everything is up.
    ReportingReady {
        /// The record.
        state: State,
        /// The public address.
        ip: String,
    },
    /// The user is told that a failed attempt is removed.
    ReportingFailure {
        /// The record.
        state: State,
        /// The size of the snapshot.
        size: u64,
        /// The position of the GPU type.
        next: usize,
        /// What went wrong.
        cause: AppError,
    },
    /// A failed attempt is removed.
    CleaningAttempt {
        /// How far that has come.
        run: CleanupRun,
        /// The size of the snapshot.
        size: u64,
        /// The position of the GPU type.
        next: usize,
        /// What went wrong.
        cause: AppError,
    },
    /// A new record is saved before the next GPU type.
    SavingNext {
        /// The record.
        state: State,
        /// The size of the snapshot.
        size: u64,
        /// The position of the GPU type that failed.
        next: usize,
    },
    /// It is over.
    Done {
        /// The record.
        state: State,
        /// The public address, or what went wrong.
        result: Result<String, AppError>,
    },
}

/// Where the bringing up of a session stands, as a value.
#[allow(inconsistent_fields)]
pub enum EnsurePhaseView {
    /// A record of an older version is saved in the present one.
    SavingUpgrade { state: StateView },
    /// It is found out what the record is worth.
    Reconciling { state: StateView, found: ReconciliationView },
    /// The record is saved with the volume of the instance that is taken on.
    SavingAdopted { state: StateView, ip: Seq<char> },
    /// The user is told that the instance is taken on.
    ReportingResumed { state: StateView, ip: Seq<char> },
    /// The user is told that what an earlier run left is removed.
    ReportingRecovery { state: StateView },
    /// What an earlier run left is removed.
    CleaningRecovery { run: CleanupView },
    /// A new record is saved.
    SavingReset { state: StateView },
    /// The credentials and the project are checked.
    Authenticating { state: StateView },
    /// The snapshot is looked at.
    CheckingSnapshot { state: StateView },
    /// The user is told that a GPU type is looked at.
    ReportingCheck { state: StateView, size: u64, next: int },
    /// The products of the zone are looked at.
    ListingProducts { state: StateView, size: u64, next: int },
    /// The record is saved at the start of an attempt.
    SavingAttempt { state: StateView, size: u64, next: int },
    /// The user is told that a GPU type is tried.
    ReportingAttempt { state: StateView, size: u64, next: int },
    /// A GPU type is tried.
    Attempting { run: AttemptView, size: u64, next: int },
    /// The record is saved when everything is up.
    SavingReady { state: StateView, ip: Seq<char> },
    /// The user is told that everything is up.
    ReportingReady { state: StateView, ip: Seq<char> },
    /// The user is told that a failed attempt is removed.
    ReportingFailure { state: StateView, size: u64, next: int, cause: AppErrorView },
    /// A failed attempt is removed.
    CleaningAttempt { run: CleanupView, size: u64, next: int, cause: AppErrorView },
    /// A new record is saved before the next GPU type.
    SavingNext { state: StateView, size: u64, next: int },
    /// It is over.
    Done { state: StateView, result: Result<Seq<char>, AppErrorView> },
}

/// An outcome as a value.
pub open spec fn outcome_view(result: Result<String, AppError>) -> Result<Seq<char>, AppErrorView> {
    match result {
        Ok(ip) => Ok(ip@),
        Err(e) => Err(e@),
    }
}

impl View for EnsurePhase {
    type V = EnsurePhaseView;

    open spec fn view(&self) -> EnsurePhaseView {
        match *self {
            EnsurePhase::SavingUpgrade { state } => EnsurePhaseView::SavingUpgrade {
                state: state@,
            },
            EnsurePhase::Reconciling { state, found } => EnsurePhaseView::Reconciling {
                state: state@,
                found: found@,
            },
            EnsurePhase::SavingAdopted { state, ip } => EnsurePhaseView::SavingAdopted {
                state: state@,
                ip: ip@,
            },
            EnsurePhase::ReportingResumed { state, ip } => EnsurePhaseView::ReportingResumed {
                state: state@,
                ip: ip@,
            },
            EnsurePhase::ReportingRecovery { state } => EnsurePhaseView::ReportingRecovery {
                state: state@,
            },
            EnsurePhase::CleaningRecovery { run } => EnsurePhaseView::CleaningRecovery {
                run: run@,
            },
            EnsurePhase::SavingReset { state } => EnsurePhaseView::SavingReset { state: state@ },
            EnsurePhase::Authenticating { state } => EnsurePhaseView::Authenticating {
                state: state@,
            },
            EnsurePhase::CheckingSnapshot { state } => EnsurePhaseView::CheckingSnapshot {
                state: state@,
            },
            EnsurePhase::ReportingCheck { state, size, next } => EnsurePhaseView::ReportingCheck {
                state: state@,
                size,
                next: next as int,
            },
            EnsurePhase::ListingProducts { state, size, next } => {
                EnsurePhaseView::ListingProducts { state: state@, size, next: next as int }
            },
            EnsurePhase::SavingAttempt { state, size, next } => EnsurePhaseView::SavingAttempt {
                state: state@,
                size,
                next: next as int,
            },
            EnsurePhase::ReportingAttempt { state, size, next } => {
                EnsurePhaseView::ReportingAttempt { state: state@, size, next: next as int }
            },
            EnsurePhase::Attempting { run, size, next } => EnsurePhaseView::Attempting {
                run: run@,
                size,
                next: next as int,
            },
            EnsurePhase::SavingReady { state, ip } => EnsurePhaseView::SavingReady {
                state: state@,
                ip: ip@,
            },
            EnsurePhase::ReportingReady { state, ip } => EnsurePhaseView::ReportingReady {
                state: state@,
                ip: ip@,
            },
            EnsurePhase::ReportingFailure { state, size, next, cause } => {
                EnsurePhaseView::ReportingFailure {
                    state: state@,
                    size,
                    next: next as int,
                    cause: cause@,
                }
            },
            EnsurePhase::CleaningAttempt { run, size, next, cause } => {
                EnsurePhaseView::CleaningAttempt {
                    run: run@,
                    size,
                    next: next as int,
                    cause: cause@,
                }
            },
            EnsurePhase::SavingNext { state, size, next } => EnsurePhaseView::SavingNext {
                state: state@,
                size,
                next: next as int,
            },
            EnsurePhase::Done { state, result } => EnsurePhaseView::Done {
                state: state@,
                result: outcome_view(result),
            },
        }
    }
}

/// What is done when the bringing up of a session is broken off.
#[derive(Debug)]
pub enum Interruption {
    /// The session may be up: it is left alone.
    Leave(State),
    /// What was made is removed.
    CleanUp(CleanupRun),
}

/// The bringing up of a session.
#[derive(Debug)]
pub struct EnsureRun {
    /// What is to be done.
    pub plan: Plan,
    /// Where it stands.
    pub phase: EnsurePhase,
}

/// The bringing up of a session, as a value.
pub struct EnsureView {
    /// What is to be done.
    pub plan: PlanView,
    /// Where it stands.
    pub phase: EnsurePhaseView,
}

impl View for EnsureRun {
    type V = EnsureView;

    open spec fn view(&self) -> EnsureView {
        EnsureView { plan: self.plan@, phase: self.phase@ }
    }
}

// ---------------------------------------------------------------- the course of it

/// A record of an older version, brought to the present one.
pub open spec fn upgraded(state: StateView, attempt_id: Seq<char>) -> StateView {
    if state.version < STATE_VERSION {
        StateView {
            version: STATE_VERSION,
            phase: ProvisioningPhase::Ready,
            creation_mode: Some("snapshot_direct"@),
            attempt_id: if state.attempt_id.len() == 0 {
                attempt_id
            } else {
                state.attempt_id
            },
            selected_gpu_type: if state.selected_gpu_type.len() == 0 {
                "L40S-1-48G"@
            } else {
                state.selected_gpu_type
            },
            attempted_gpu_types: if state.attempted_gpu_types.len() == 0 {
                seq!["L40S-1-48G"@]
            } else {
                state.attempted_gpu_types
            },
            ..state
        }
    } else {
        state
    }
}

impl PlanView {
    /// A new record.
    pub open spec fn new_record(self, identity: Identity) -> StateView {
        state::empty_record(
            self.snapshot_id,
            self.record_zone,
            identity.attempt_id@,
            identity.created_at@,
        )
    }

    /// The removal of what a record holds.
    pub open spec fn cleanup(self, state: StateView) -> CleanupView {
        CleanupView::begun(
            state,
            self.snapshot_id,
            self.timeouts.cleanup_timeout_seconds,
            self.timeouts.cleanup_poll_interval_seconds,
        )
    }

    /// An attempt with a GPU type.
    pub open spec fn attempt(self, state: StateView, gpu_type: Seq<char>) -> AttemptView {
        AttemptView::begun(
            state,
            self.instance_name,
            gpu_type,
            self.snapshot_id,
            self.zone,
            self.timeouts,
        )
    }

    /// What follows when it is found out what a record is worth.
    pub open spec fn reconciled(self, state: StateView, found: ReconciliationView) -> EnsurePhaseView {
        match found {
            ReconciliationView::Decided(Err(e)) => EnsurePhaseView::Done {
                state,
                result: Err(e),
            },
            ReconciliationView::Decided(Ok(OutcomeView::NoState)) => {
                EnsurePhaseView::Authenticating { state }
            },
            ReconciliationView::Decided(Ok(OutcomeView::NeedsCleanupAndRestart)) => {
                EnsurePhaseView::ReportingRecovery { state }
            },
            ReconciliationView::Decided(Ok(OutcomeView::ResumeRunning {
                ip_address,
                boot_volume_id,
            })) => if state.volume_id is None && boot_volume_id is Some {
                EnsurePhaseView::SavingAdopted {
                    state: StateView { volume_id: boot_volume_id, ..state },
                    ip: ip_address,
                }
            } else {
                EnsurePhaseView::ReportingResumed { state, ip: ip_address }
            },
            _ => EnsurePhaseView::Reconciling { state, found },
        }
    }

    /// What follows when what an earlier run left is being removed.
    pub open spec fn recovering(self, run: CleanupView, identity: Identity) -> EnsurePhaseView {
        if run.over() {
            match run.verdict() {
                Ok(_) => EnsurePhaseView::SavingReset { state: self.new_record(identity) },
                Err(e) => EnsurePhaseView::Done { state: run.state, result: Err(e) },
            }
        } else {
            EnsurePhaseView::CleaningRecovery { run }
        }
    }

    /// What follows when the GPU type at a position is next.
    pub open spec fn candidate(self, state: StateView, size: u64, next: int) -> EnsurePhaseView {
        if next < self.candidates.len() {
            EnsurePhaseView::ReportingCheck { state, size, next }
        } else {
            EnsurePhaseView::Done {
                state,
                result: Err(
                    AppErrorView::NoCompatibleGpuAvailable {
                        zone: self.zone,
                        attempted: self.candidates,
                    },
                ),
            }
        }
    }

    /// What follows when the products of the zone are known.
    pub open spec fn judged(
        self,
        state: StateView,
        size: u64,
        next: int,
        products: ServerTypesResponse,
        identity: Identity,
    ) -> EnsurePhaseView {
        if compatibility::objection(self.zone, self.candidates[next], size, products) is Some {
            self.candidate(state, size, next + 1)
        } else {
            EnsurePhaseView::SavingAttempt {
                state: state.starting(self.candidates[next], identity.attempt_id@),
                size,
                next,
            }
        }
    }

    /// What follows when a GPU type is being tried.
    pub open spec fn attempting(self, run: AttemptView, size: u64, next: int) -> EnsurePhaseView {
        match run.result {
            None => EnsurePhaseView::Attempting { run, size, next },
            Some(Ok(ip)) => EnsurePhaseView::SavingReady {
                state: StateView { phase: ProvisioningPhase::Ready, ..run.state },
                ip,
            },
            Some(Err(cause)) => EnsurePhaseView::ReportingFailure {
                state: run.state,
                size,
                next,
                cause,
            },
        }
    }

    /// What follows when a failed attempt is being removed: the next GPU type where what went wrong
    /// speaks against this one only, else the end.
    pub open spec fn clearing(
        self,
        run: CleanupView,
        size: u64,
        next: int,
        cause: AppErrorView,
        identity: Identity,
    ) -> EnsurePhaseView {
        if run.over() {
            match run.verdict() {
                Ok(_) => if error::concerns_one_gpu(cause) {
                    EnsurePhaseView::SavingNext { state: self.new_record(identity), size, next }
                } else {
                    EnsurePhaseView::Done { state: run.state, result: Err(cause) }
                },
                Err(e) => EnsurePhaseView::Done { state: run.state, result: Err(e) },
            }
        } else {
            EnsurePhaseView::CleaningAttempt { run, size, next, cause }
        }
    }

    /// What follows on a reply. A reply that does not answer what is asked for changes nothing.
    #[verifier::opaque]
    pub open spec fn after(
        self,
        phase: EnsurePhaseView,
        reply: Reply,
        identity: Identity,
    ) -> EnsurePhaseView {
        match phase {
            EnsurePhaseView::SavingUpgrade { state } => match reply {
                Reply::Done(_) => self.reconciled(state, ReconciliationView::begun(state)),
                _ => phase,
            },
            EnsurePhaseView::Reconciling { state, found } => self.reconciled(
                state,
                found.after(state, reply),
            ),
            EnsurePhaseView::SavingAdopted { state, ip } => match reply {
                Reply::Done(_) => EnsurePhaseView::ReportingResumed { state, ip },
                _ => phase,
            },
            EnsurePhaseView::ReportingResumed { state, ip } => match reply {
                Reply::Done(_) => EnsurePhaseView::Done { state, result: Ok(ip) },
                _ => phase,
            },
            EnsurePhaseView::ReportingRecovery { state } => match reply {
                Reply::Done(_) => self.recovering(self.cleanup(state), identity),
                _ => phase,
            },
            EnsurePhaseView::CleaningRecovery { run } => self.recovering(
                run.after(reply),
                identity,
            ),
            EnsurePhaseView::SavingReset { state } => match reply {
                Reply::Done(Ok(_)) => EnsurePhaseView::Authenticating { state },
                Reply::Done(Err(e)) => EnsurePhaseView::Done { state, result: Err(e@) },
                _ => phase,
            },
            EnsurePhaseView::Authenticating { state } => match reply {
                Reply::Done(Ok(_)) => EnsurePhaseView::CheckingSnapshot { state },
                Reply::Done(Err(e)) => EnsurePhaseView::Done { state, result: Err(e@) },
                _ => phase,
            },
            EnsurePhaseView::CheckingSnapshot { state } => match reply {
                Reply::Snapshot(Ok(snapshot)) => self.candidate(state, snapshot.size, 0),
                Reply::Snapshot(Err(e)) => EnsurePhaseView::Done { state, result: Err(e@) },
                _ => phase,
            },
            EnsurePhaseView::ReportingCheck { state, size, next } => match reply {
                Reply::Done(_) => EnsurePhaseView::ListingProducts { state, size, next },
                _ => phase,
            },
            EnsurePhaseView::ListingProducts { state, size, next } => match reply {
                Reply::Products(Ok(products)) => self.judged(
                    state,
                    size,
                    next,
                    products,
                    identity,
                ),
                Reply::Products(Err(e)) => EnsurePhaseView::Done { state, result: Err(e@) },
                _ => phase,
            },
            EnsurePhaseView::SavingAttempt { state, size, next } => match reply {
                Reply::Done(Ok(_)) => EnsurePhaseView::ReportingAttempt { state, size, next },
                Reply::Done(Err(e)) => EnsurePhaseView::Done { state, result: Err(e@) },
                _ => phase,
            },
            EnsurePhaseView::ReportingAttempt { state, size, next } => match reply {
                Reply::Done(_) => self.attempting(
                    self.attempt(state, self.candidates[next]),
                    size,
                    next,
                ),
                _ => phase,
            },
            EnsurePhaseView::Attempting { run, size, next } => self.attempting(
                run.after(reply),
                size,
                next,
            ),
            EnsurePhaseView::SavingReady { state, ip } => match reply {
                Reply::Done(Ok(_)) => EnsurePhaseView::ReportingReady { state, ip },
                Reply::Done(Err(e)) => EnsurePhaseView::Done { state, result: Err(e@) },
                _ => phase,
            },
            EnsurePhaseView::ReportingReady { state, ip } => match reply {
                Reply::Done(_) => EnsurePhaseView::Done { state, result: Ok(ip) },
                _ => phase,
            },
            EnsurePhaseView::ReportingFailure { state, size, next, cause } => match reply {
                Reply::Done(_) => self.clearing(self.cleanup(state), size, next, cause, identity),
                _ => phase,
            },
            EnsurePhaseView::CleaningAttempt { run, size, next, cause } => self.clearing(
                run.after(reply),
                size,
                next,
                cause,
                identity,
            ),
            EnsurePhaseView::SavingNext { state, size, next } => match reply {
                Reply::Done(Ok(_)) => self.candidate(state, size, next + 1),
                Reply::Done(Err(e)) => EnsurePhaseView::Done { state, result: Err(e@) },
                _ => phase,
            },
            EnsurePhaseView::Done { .. } => phase,
        }
    }
}

/// A message to the user.
pub open spec fn report(percent: u32, message: Seq<char>) -> Option<CallView> {
    Some(CallView::Report { percent, message })
}

impl EnsureView {
    /// The start: a record of an older version is brought to the present one first.
    pub open spec fn begun(plan: PlanView, state: StateView, identity: Identity) -> EnsureView {
        let current = upgraded(state, identity.attempt_id@);
        EnsureView {
            plan,
            phase: if state.version < STATE_VERSION {
                EnsurePhaseView::SavingUpgrade { state: current }
            } else {
                plan.reconciled(current, ReconciliationView::begun(current))
            },
        }
    }

    /// What is asked for; nothing when it is over.
    pub open spec fn pending(self) -> Option<CallView> {
        match self.phase {
            EnsurePhaseView::SavingUpgrade { .. } => Some(CallView::SaveState),
            EnsurePhaseView::Reconciling { state, found } => found.pending(state),
            EnsurePhaseView::SavingAdopted { .. } => Some(CallView::SaveState),
            EnsurePhaseView::ReportingResumed { .. } => report(
                100,
                "Resumed existing running session."@,
            ),
            EnsurePhaseView::ReportingRecovery { .. } => report(
                10,
                "Cleaning up incomplete session from previous run..."@,
            ),
            EnsurePhaseView::CleaningRecovery { run } => run.pending(),
            EnsurePhaseView::SavingReset { .. } => Some(CallView::SaveState),
            EnsurePhaseView::Authenticating { .. } => Some(CallView::ValidateAuth),
            EnsurePhaseView::CheckingSnapshot { .. } => Some(
                CallView::GetSnapshot { snapshot_id: self.plan.snapshot_id },
            ),
            EnsurePhaseView::ReportingCheck { next, .. } => report(
                15,
                "Checking compatibility for "@ + self.plan.candidates[next] + "..."@,
            ),
            EnsurePhaseView::ListingProducts { .. } => Some(CallView::ListProducts),
            EnsurePhaseView::SavingAttempt { .. } => Some(CallView::SaveState),
            EnsurePhaseView::ReportingAttempt { next, .. } => report(
                20,
                "Provisioning "@ + self.plan.candidates[next] + "..."@,
            ),
            EnsurePhaseView::Attempting { run, .. } => run.pending(),
            EnsurePhaseView::SavingReady { .. } => Some(CallView::SaveState),
            EnsurePhaseView::ReportingReady { .. } => report(
                100,
                "Successfully provisioned GPU instance."@,
            ),
            EnsurePhaseView::ReportingFailure { next, cause, .. } => if error::concerns_one_gpu(
                cause,
            ) {
                report(
                    85,
                    "Cleaning up failed attempt for "@ + self.plan.candidates[next] + "..."@,
                )
            } else {
                report(85, "Cleaning up and stopping due to hard error..."@)
            },
            EnsurePhaseView::CleaningAttempt { run, .. } => run.pending(),
            EnsurePhaseView::SavingNext { .. } => Some(CallView::SaveState),
            EnsurePhaseView::Done { .. } => None,
        }
    }

    /// The bringing up after a reply. A reply that does not answer what is asked for changes
    /// nothing.
    pub open spec fn after(self, reply: Reply, identity: Identity) -> EnsureView {
        EnsureView { plan: self.plan, phase: self.plan.after(self.phase, reply, identity) }
    }

    /// The record as it stands.
    pub open spec fn record(self) -> StateView {
        match self.phase {
            EnsurePhaseView::SavingUpgrade { state } => state,
            EnsurePhaseView::Reconciling { state, .. } => state,
            EnsurePhaseView::SavingAdopted { state, .. } => state,
            EnsurePhaseView::ReportingResumed { state, .. } => state,
            EnsurePhaseView::ReportingRecovery { state } => state,
            EnsurePhaseView::CleaningRecovery { run } => run.state,
            EnsurePhaseView::SavingReset { state } => state,
            EnsurePhaseView::Authenticating { state } => state,
            EnsurePhaseView::CheckingSnapshot { state } => state,
            EnsurePhaseView::ReportingCheck { state, .. } => state,
            EnsurePhaseView::ListingProducts { state, .. } => state,
            EnsurePhaseView::SavingAttempt { state, .. } => state,
            EnsurePhaseView::ReportingAttempt { state, .. } => state,
            EnsurePhaseView::Attempting { run, .. } => run.state,
            EnsurePhaseView::SavingReady { state, .. } => state,
            EnsurePhaseView::ReportingReady { state, .. } => state,
            EnsurePhaseView::ReportingFailure { state, .. } => state,
            EnsurePhaseView::CleaningAttempt { run, .. } => run.state,
            EnsurePhaseView::SavingNext { state, .. } => state,
            EnsurePhaseView::Done { state, .. } => state,
        }
    }

    /// Whether the record may be that of a session that is up: nothing of an attempt is under way.
    pub open spec fn may_be_up(self) -> bool {
        match self.phase {
            EnsurePhaseView::SavingUpgrade { .. } => true,
            EnsurePhaseView::Reconciling { .. } => true,
            EnsurePhaseView::SavingAdopted { .. } => true,
            EnsurePhaseView::ReportingResumed { .. } => true,
            EnsurePhaseView::SavingReady { .. } => true,
            EnsurePhaseView::ReportingReady { .. } => true,
            EnsurePhaseView::Done { .. } => true,
            _ => false,
        }
    }

    /// The position of the GPU type that is dealt with, if one is.
    pub open spec fn position(self) -> Option<int> {
        match self.phase {
            EnsurePhaseView::ReportingCheck { next, .. } => Some(next),
            EnsurePhaseView::ListingProducts { next, .. } => Some(next),
            EnsurePhaseView::SavingAttempt { next, .. } => Some(next),
            EnsurePhaseView::ReportingAttempt { next, .. } => Some(next),
            EnsurePhaseView::Attempting { next, .. } => Some(next),
            EnsurePhaseView::ReportingFailure { next, .. } => Some(next),
            EnsurePhaseView::CleaningAttempt { next, .. } => Some(next),
            EnsurePhaseView::SavingNext { next, .. } => Some(next),
            _ => None,
        }
    }

    /// Whether the position is one of the list, and the identifier of an attempt that is about to
    /// begin can name it.
    pub open spec fn wf(self) -> bool {
        &&& self.position() matches Some(next) ==> 0 <= next < self.plan.candidates.len()
        &&& self.phase matches EnsurePhaseView::SavingAttempt { state, .. }
            ==> state::names_attempt(state.attempt_id)
        &&& self.phase matches EnsurePhaseView::ReportingAttempt { state, .. }
            ==> state::names_attempt(state.attempt_id)
    }
}

// ---------------------------------------------------------------- carrying it out

/// A record of an older version, brought to the present one.
pub fn upgrade(state: State, identity: Identity) -> (current: State)
    ensures
        current@ == upgraded(state@, identity.attempt_id@),
{
    let mut state: State = state;
    if state.version < STATE_VERSION {
        let ghost before = state@;
        state.version = STATE_VERSION;
        state.phase = ProvisioningPhase::Ready;
        state.creation_mode = Some("snapshot_direct".to_owned());
        if state.attempt_id.as_str().is_empty() {
            state.attempt_id = identity.attempt_id;
        }
        if state.selected_gpu_type.as_str().is_empty() {
            state.selected_gpu_type = "L40S-1-48G".to_owned();
        }
        if state.attempted_gpu_types.len() == 0 {
            let mut tried: Vec<String> = Vec::new();
            tried.push("L40S-1-48G".to_owned());
            proof {
                assert(text::texts(tried@) =~= seq!["L40S-1-48G"@]);
            }
            state.attempted_gpu_types = tried;
        }
        proof {
            assert(before.attempted_gpu_types.len() == 0 || state@.attempted_gpu_types
                =~= before.attempted_gpu_types);
        }
    }
    state
}

impl Plan {
    fn new_record(&self, identity: Identity) -> (state: State)
        ensures
            state@ == self@.new_record(identity),
    {
        State::opened(self.snapshot_id.clone(), self.record_zone.clone(), identity)
    }

    fn cleanup(&self, state: State) -> (run: CleanupRun)
        ensures
            run@ == self@.cleanup(state@),
    {
        CleanupRun::begin(
            state,
            self.snapshot_id.clone(),
            self.timeouts.cleanup_timeout_seconds,
            self.timeouts.cleanup_poll_interval_seconds,
        )
    }

    fn reconciled(&self, state: State, found: Reconciliation) -> (phase: EnsurePhase)
        ensures
            phase@ == self@.reconciled(state@, found@),
    {
        let mut state: State = state;
        match found {
            Reconciliation::Decided(Err(e)) => EnsurePhase::Done { state, result: Err(e) },
            Reconciliation::Decided(Ok(ReconciliationOutcome::NoState)) => {
                EnsurePhase::Authenticating { state }
            },
            Reconciliation::Decided(Ok(ReconciliationOutcome::NeedsCleanupAndRestart)) => {
                EnsurePhase::ReportingRecovery { state }
            },
            Reconciliation::Decided(Ok(ReconciliationOutcome::ResumeRunning {
                ip_address,
                boot_volume_id,
            })) => {
                if state.volume_id.is_none() && boot_volume_id.is_some() {
                    state.volume_id = boot_volume_id;
                    EnsurePhase::SavingAdopted { state, ip: ip_address }
                } else {
                    EnsurePhase::ReportingResumed { state, ip: ip_address }
                }
            },
            other => EnsurePhase::Reconciling { state, found: other },
        }
    }

    fn recovering(&self, run: CleanupRun, identity: Identity) -> (phase: EnsurePhase)
        ensures
            phase@ == self@.recovering(run@, identity),
    {
        match run.outcome() {
            Some(Ok(_)) => EnsurePhase::SavingReset { state: self.new_record(identity) },
            Some(Err(e)) => EnsurePhase::Done { state: run.state, result: Err(e) },
            None => EnsurePhase::CleaningRecovery { run },
        }
    }

    fn candidate(&self, state: State, size: u64, next: usize) -> (phase: EnsurePhase)
        ensures
            phase@ == self@.candidate(state@, size, next as int),
    {
        if next < self.candidates.len() {
            EnsurePhase::ReportingCheck { state, size, next }
        } else {
            EnsurePhase::Done {
                state,
                result: Err(
                    AppError::NoCompatibleGpuAvailable {
                        zone: self.zone.clone(),
                        attempted: copy_texts(&self.candidates),
                    },
                ),
            }
        }
    }

    fn judged(
        &self,
        state: State,
        size: u64,
        next: usize,
        products: ServerTypesResponse,
        identity: Identity,
    ) -> (phase: EnsurePhase)
        requires
            next < self.candidates@.len(),
            identity.wf(),
        ensures
            phase@ == self@.judged(state@, size, next as int, products, identity),
            (EnsureView { plan: self@, phase: phase@ }).wf(),
    {
        proof {
            assert(self@.candidates[next as int] == self.candidates@[next as int]@);
        }
        let count: usize = self.candidates.len();
        match judge(self.zone.as_str(), self.candidates[next].as_str(), size, &products) {
            Compatibility::Skip { .. } => {
                assert(next < count);
                self.candidate(state, size, next + 1)
            },
            Compatibility::Compatible => {
                let mut state: State = state;
                state.begin_attempt(self.candidates[next].as_str(), identity.attempt_id);
                EnsurePhase::SavingAttempt { state, size, next }
            },
        }
    }

    fn attempting(&self, run: AttemptRun, size: u64, next: usize) -> (phase: EnsurePhase)
        ensures
            phase@ == self@.attempting(run@, size, next as int),
    {
        let mut run: AttemptRun = run;
        match run.result {
            None => EnsurePhase::Attempting { run, size, next },
            Some(Ok(ip)) => {
                run.state.phase = ProvisioningPhase::Ready;
                EnsurePhase::SavingReady { state: run.state, ip }
            },
            Some(Err(cause)) => EnsurePhase::ReportingFailure {
                state: run.state,
                size,
                next,
                cause,
            },
        }
    }

    fn clearing(
        &self,
        run: CleanupRun,
        size: u64,
        next: usize,
        cause: AppError,
        identity: Identity,
    ) -> (phase: EnsurePhase)
        ensures
            phase@ == self@.clearing(run@, size, next as int, cause@, identity),
    {
        match run.outcome() {
            Some(Ok(_)) => {
                if cause.should_try_next_gpu() {
                    EnsurePhase::SavingNext { state: self.new_record(identity), size, next }
                } else {
                    EnsurePhase::Done { state: run.state, result: Err(cause) }
                }
            },
            Some(Err(e)) => EnsurePhase::Done { state: run.state, result: Err(e) },
            None => EnsurePhase::CleaningAttempt { run, size, next, cause },
        }
    }

    fn on_upgrade(
        &self,
        state: State,
        reply: Reply,
        identity: Identity,
    ) -> (phase: EnsurePhase)
        requires
            identity.wf(),
        ensures
            phase@ == self@.after((EnsurePhaseView::SavingUpgrade { state: state@ }), reply, identity),
            (EnsureView { plan: self@, phase: phase@ }).wf(),
    {
        proof {
            reveal(PlanView::after);
        }
        match reply {
            Reply::Done(_) => {
                let found: Reconciliation = Reconciliation::reconcile_state(&state);
                self.reconciled(state, found)
            },
            _ => EnsurePhase::SavingUpgrade { state },
        }
    }

    fn on_reconciling(
        &self,
        state: State,
        found: Reconciliation,
        reply: Reply,
        identity: Identity,
    ) -> (phase: EnsurePhase)
        requires
            identity.wf(),
        ensures
            phase@ == self@.after((EnsurePhaseView::Reconciling { state: state@, found: found@ }), reply, identity),
            (EnsureView { plan: self@, phase: phase@ }).wf(),
    {
        proof {
            reveal(PlanView::after);
        }
        let found: Reconciliation = found.resume(&state, reply);
        self.reconciled(state, found)
    }

    fn on_adopted(
        &self,
        state: State,
        ip: String,
        reply: Reply,
        identity: Identity,
    ) -> (phase: EnsurePhase)
        requires
            identity.wf(),
        ensures
            phase@ == self@.after((EnsurePhaseView::SavingAdopted { state: state@, ip: ip@ }), reply, identity),
            (EnsureView { plan: self@, phase: phase@ }).wf(),
    {
        proof {
            reveal(PlanView::after);
        }
        match reply {
            Reply::Done(_) => EnsurePhase::ReportingResumed { state, ip },
            _ => EnsurePhase::SavingAdopted { state, ip },
        }
    }

    fn on_resumed(
        &self,
        state: State,
        ip: String,
        reply: Reply,
        identity: Identity,
    ) -> (phase: EnsurePhase)
        requires
            identity.wf(),
        ensures
            phase@ == self@.after((EnsurePhaseView::ReportingResumed { state: state@, ip: ip@ }), reply, identity),
            (EnsureView { plan: self@, phase: phase@ }).wf(),
    {
        proof {
            reveal(PlanView::after);
        }
        match reply {
            Reply::Done(_) => EnsurePhase::Done { state, result: Ok(ip) },
            _ => EnsurePhase::ReportingResumed { state, ip },
        }
    }

    fn on_recovery(
        &self,
        state: State,
        reply: Reply,
        identity: Identity,
    ) -> (phase: EnsurePhase)
        requires
            identity.wf(),
        ensures
            phase@ == self@.after((EnsurePhaseView::ReportingRecovery { state: state@ }), reply, identity),
            (EnsureView { plan: self@, phase: phase@ }).wf(),
    {
        proof {
            reveal(PlanView::after);
        }
        match reply {
            Reply::Done(_) => {
                let run: CleanupRun = self.cleanup(state);
                self.recovering(run, identity)
            },
            _ => EnsurePhase::ReportingRecovery { state },
        }
    }

    fn on_recovering(
        &self,
        run: CleanupRun,
        reply: Reply,
        identity: Identity,
    ) -> (phase: EnsurePhase)
        requires
            identity.wf(),
        ensures
            phase@ == self@.after((EnsurePhaseView::CleaningRecovery { run: run@ }), reply, identity),
            (EnsureView { plan: self@, phase: phase@ }).wf(),
    {
        proof {
            reveal(PlanView::after);
        }
        let mut run: CleanupRun = run;
        run.resume(&reply);
        self.recovering(run, identity)
    }

    fn on_reset(
        &self,
        state: State,
        reply: Reply,
        identity: Identity,
    ) -> (phase: EnsurePhase)
        requires
            identity.wf(),
        ensures
            phase@ == self@.after((EnsurePhaseView::SavingReset { state: state@ }), reply, identity),
            (EnsureView { plan: self@, phase: phase@ }).wf(),
    {
        proof {
            reveal(PlanView::after);
        }
        match reply {
            Reply::Done(Ok(_)) => EnsurePhase::Authenticating { state },
            Reply::Done(Err(e)) => EnsurePhase::Done { state, result: Err(e) },
            _ => EnsurePhase::SavingReset { state },
        }
    }

    fn on_auth(
        &self,
        state: State,
        reply: Reply,
        identity: Identity,
    ) -> (phase: EnsurePhase)
        requires
            identity.wf(),
        ensures
            phase@ == self@.after((EnsurePhaseView::Authenticating { state: state@ }), reply, identity),
            (EnsureView { plan: self@, phase: phase@ }).wf(),
    {
        proof {
            reveal(PlanView::after);
        }
        match reply {
            Reply::Done(Ok(_)) => EnsurePhase::CheckingSnapshot { state },
            Reply::Done(Err(e)) => EnsurePhase::Done { state, result: Err(e) },
            _ => EnsurePhase::Authenticating { state },
        }
    }

    fn on_snapshot(
        &self,
        state: State,
        reply: Reply,
        identity: Identity,
    ) -> (phase: EnsurePhase)
        requires
            identity.wf(),
        ensures
            phase@ == self@.after((EnsurePhaseView::CheckingSnapshot { state: state@ }), reply, identity),
            (EnsureView { plan: self@, phase: phase@ }).wf(),
    {
        proof {
            reveal(PlanView::after);
        }
        match reply {
            Reply::Snapshot(Ok(snapshot)) => self.candidate(state, snapshot.size, 0),
            Reply::Snapshot(Err(e)) => EnsurePhase::Done { state, result: Err(e) },
            _ => EnsurePhase::CheckingSnapshot { state },
        }
    }

    fn on_check(
        &self,
        state: State,
        size: u64,
        next: usize,
        reply: Reply,
        identity: Identity,
    ) -> (phase: EnsurePhase)
        requires
            identity.wf(),
            next < self.candidates@.len(),
        ensures
            phase@ == self@.after((EnsurePhaseView::ReportingCheck { state: state@, size, next: next as int }), reply, identity),
            (EnsureView { plan: self@, phase: phase@ }).wf(),
    {
        proof {
            reveal(PlanView::after);
        }
        match reply {
            Reply::Done(_) => EnsurePhase::ListingProducts { state, size, next },
            _ => EnsurePhase::ReportingCheck { state, size, next },
        }
    }

    fn on_products(
        &self,
        state: State,
        size: u64,
        next: usize,
        reply: Reply,
        identity: Identity,
    ) -> (phase: EnsurePhase)
        requires
            identity.wf(),
            next < self.candidates@.len(),
        ensures
            phase@ == self@.after((EnsurePhaseView::ListingProducts { state: state@, size, next: next as int }), reply, identity),
            (EnsureView { plan: self@, phase: phase@ }).wf(),
    {
        proof {
            reveal(PlanView::after);
        }
        match reply {
            Reply::Products(Ok(products)) => self.judged(state, size, next, products, identity),
            Reply::Products(Err(e)) => EnsurePhase::Done { state, result: Err(e) },
            _ => EnsurePhase::ListingProducts { state, size, next },
        }
    }

    fn on_saved_attempt(
        &self,
        state: State,
        size: u64,
        next: usize,
        reply: Reply,
        identity: Identity,
    ) -> (phase: EnsurePhase)
        requires
            identity.wf(),
            next < self.candidates@.len(),
            state::names_attempt(state@.attempt_id),
        ensures
            phase@ == self@.after((EnsurePhaseView::SavingAttempt { state: state@, size, next: next as int }), reply, identity),
            (EnsureView { plan: self@, phase: phase@ }).wf(),
    {
        proof {
            reveal(PlanView::after);
        }
        match reply {
            Reply::Done(Ok(_)) => EnsurePhase::ReportingAttempt { state, size, next },
            Reply::Done(Err(e)) => EnsurePhase::Done { state, result: Err(e) },
            _ => EnsurePhase::SavingAttempt { state, size, next },
        }
    }

    fn on_attempt(
        &self,
        state: State,
        size: u64,
        next: usize,
        reply: Reply,
        identity: Identity,
    ) -> (phase: EnsurePhase)
        requires
            identity.wf(),
            next < self.candidates@.len(),
            state::names_attempt(state@.attempt_id),
        ensures
            phase@ == self@.after((EnsurePhaseView::ReportingAttempt { state: state@, size, next: next as int }), reply, identity),
            (EnsureView { plan: self@, phase: phase@ }).wf(),
    {
        proof {
            reveal(PlanView::after);
        }
        proof {
            assert(self@.candidates[next as int] == self.candidates@[next as int]@);
        }
        match reply {
            Reply::Done(_) => {
                let run: AttemptRun = AttemptRun::provision_single_attempt(
                    state,
                    self.instance_name.as_str(),
                    self.candidates[next].as_str(),
                    self.snapshot_id.as_str(),
                    self.zone.as_str(),
                    self.timeouts,
                );
                self.attempting(run, size, next)
            },
            _ => EnsurePhase::ReportingAttempt { state, size, next },
        }
    }

    fn on_attempting(
        &self,
        run: AttemptRun,
        size: u64,
        next: usize,
        reply: Reply,
        identity: Identity,
    ) -> (phase: EnsurePhase)
        requires
            identity.wf(),
            next < self.candidates@.len(),
        ensures
            phase@ == self@.after((EnsurePhaseView::Attempting { run: run@, size, next: next as int }), reply, identity),
            (EnsureView { plan: self@, phase: phase@ }).wf(),
    {
        proof {
            reveal(PlanView::after);
        }
        let mut run: AttemptRun = run;
        run.resume(reply);
        self.attempting(run, size, next)
    }

    fn on_ready(
        &self,
        state: State,
        ip: String,
        reply: Reply,
        identity: Identity,
    ) -> (phase: EnsurePhase)
        requires
            identity.wf(),
        ensures
            phase@ == self@.after((EnsurePhaseView::SavingReady { state: state@, ip: ip@ }), reply, identity),
            (EnsureView { plan: self@, phase: phase@ }).wf(),
    {
        proof {
            reveal(PlanView::after);
        }
        match reply {
            Reply::Done(Ok(_)) => EnsurePhase::ReportingReady { state, ip },
            Reply::Done(Err(e)) => EnsurePhase::Done { state, result: Err(e) },
            _ => EnsurePhase::SavingReady { state, ip },
        }
    }

    fn on_reported_ready(
        &self,
        state: State,
        ip: String,
        reply: Reply,
        identity: Identity,
    ) -> (phase: EnsurePhase)
        requires
            identity.wf(),
        ensures
            phase@ == self@.after((EnsurePhaseView::ReportingReady { state: state@, ip: ip@ }), reply, identity),
            (EnsureView { plan: self@, phase: phase@ }).wf(),
    {
        proof {
            reveal(PlanView::after);
        }
        match reply {
            Reply::Done(_) => EnsurePhase::Done { state, result: Ok(ip) },
            _ => EnsurePhase::ReportingReady { state, ip },
        }
    }

    fn on_failure(
        &self,
        state: State,
        size: u64,
        next: usize,
        cause: AppError,
        reply: Reply,
        identity: Identity,
    ) -> (phase: EnsurePhase)
        requires
            identity.wf(),
            next < self.candidates@.len(),
        ensures
            phase@ == self@.after((EnsurePhaseView::ReportingFailure { state: state@, size, next: next as int, cause: cause@ }), reply, identity),
            (EnsureView { plan: self@, phase: phase@ }).wf(),
    {
        proof {
            reveal(PlanView::after);
        }
        match reply {
            Reply::Done(_) => {
                let run: CleanupRun = self.cleanup(state);
                self.clearing(run, size, next, cause, identity)
            },
            _ => EnsurePhase::ReportingFailure { state, size, next, cause },
        }
    }

    fn on_clearing(
        &self,
        run: CleanupRun,
        size: u64,
        next: usize,
        cause: AppError,
        reply: Reply,
        identity: Identity,
    ) -> (phase: EnsurePhase)
        requires
            identity.wf(),
            next < self.candidates@.len(),
        ensures
            phase@ == self@.after((EnsurePhaseView::CleaningAttempt { run: run@, size, next: next as int, cause: cause@ }), reply, identity),
            (EnsureView { plan: self@, phase: phase@ }).wf(),
    {
        proof {
            reveal(PlanView::after);
        }
        let mut run: CleanupRun = run;
        run.resume(&reply);
        self.clearing(run, size, next, cause, identity)
    }

    fn on_next(
        &self,
        state: State,
        size: u64,
        next: usize,
        reply: Reply,
        identity: Identity,
    ) -> (phase: EnsurePhase)
        requires
            identity.wf(),
            next < self.candidates@.len(),
        ensures
            phase@ == self@.after((EnsurePhaseView::SavingNext { state: state@, size, next: next as int }), reply, identity),
            (EnsureView { plan: self@, phase: phase@ }).wf(),
    {
        proof {
            reveal(PlanView::after);
        }
        let count: usize = self.candidates.len();
        match reply {
            Reply::Done(Ok(_)) => {
                assert(next < count);
                self.candidate(state, size, next + 1)
            },
            Reply::Done(Err(e)) => EnsurePhase::Done { state, result: Err(e) },
            _ => EnsurePhase::SavingNext { state, size, next },
        }
    }
}

impl EnsureRun {
    /// Begins to bring a session up, with the record of an earlier run or a new one.
    pub fn ensure_ready(plan: Plan, state: State, identity: Identity) -> (run: EnsureRun)
        ensures
            run@ == EnsureView::begun(plan@, state@, identity),
            run@.wf(),
    {
        let old_version: bool = state.version < STATE_VERSION;
        let current: State = upgrade(state, identity);
        if old_version {
            EnsureRun { plan, phase: EnsurePhase::SavingUpgrade { state: current } }
        } else {
            let found: Reconciliation = Reconciliation::reconcile_state(&current);
            let phase: EnsurePhase = plan.reconciled(current, found);
            EnsureRun { plan, phase }
        }
    }

    /// Begins to bring a session up, as the configuration says.
    pub fn provision_resources(client: &ScalewayClient, config: &Config, state: State) -> (run:
        EnsureRun)
        ensures
            exists|identity: Identity| #[trigger]
                identity.wf() && run@ == EnsureView::begun(run@.plan, state@, identity),
            run@.plan.snapshot_id == config.instance.snapshot_id@,
            run@.plan.candidates == config.instance.gpu_list(),
            run@.plan.zone == client.zone@,
            run@.plan.record_zone == config.scaleway.zone@,
            run@.plan.instance_name == config.instance.name@,
            run@.plan.timeouts == config.timeouts,
            run@.wf(),
    {
        let identity: Identity = Identity::draw();
        EnsureRun::ensure_ready(Plan::new(client, config), state, identity)
    }

    /// What is asked for; nothing when it is over.
    pub fn pending(&self) -> (call: Option<Call>)
        requires
            self@.wf(),
        ensures
            call is Some == self@.pending() is Some,
            call matches Some(c) ==> c@ == self@.pending()->0,
    {
        proof {
            assert forall|i: int| 0 <= i < self.plan.candidates@.len() implies
                #[trigger] self@.plan.candidates[i] == self.plan.candidates@[i]@ by {}
        }
        match &self.phase {
            EnsurePhase::SavingUpgrade { .. } => Some(Call::SaveState),
            EnsurePhase::Reconciling { state, found } => found.pending(state),
            EnsurePhase::SavingAdopted { .. } => Some(Call::SaveState),
            EnsurePhase::ReportingResumed { .. } => Some(
                Call::Report {
                    percent: 100,
                    message: "Resumed existing running session.".to_owned(),
                },
            ),
            EnsurePhase::ReportingRecovery { .. } => Some(
                Call::Report {
                    percent: 10,
                    message: "Cleaning up incomplete session from previous run...".to_owned(),
                },
            ),
            EnsurePhase::CleaningRecovery { run } => run.pending(),
            EnsurePhase::SavingReset { .. } => Some(Call::SaveState),
            EnsurePhase::Authenticating { .. } => Some(Call::ValidateAuth),
            EnsurePhase::CheckingSnapshot { .. } => Some(
                Call::GetSnapshot { snapshot_id: self.plan.snapshot_id.clone() },
            ),
            EnsurePhase::ReportingCheck { next, .. } => Some(
                Call::Report {
                    percent: 15,
                    message: "Checking compatibility for ".to_owned()
                        .concat(self.plan.candidates[*next].as_str())
                        .concat("..."),
                },
            ),
            EnsurePhase::ListingProducts { .. } => Some(Call::ListProducts),
            EnsurePhase::SavingAttempt { .. } => Some(Call::SaveState),
            EnsurePhase::ReportingAttempt { next, .. } => Some(
                Call::Report {
                    percent: 20,
                    message: "Provisioning ".to_owned()
                        .concat(self.plan.candidates[*next].as_str())
                        .concat("..."),
                },
            ),
            EnsurePhase::Attempting { run, .. } => run.pending(),
            EnsurePhase::SavingReady { .. } => Some(Call::SaveState),
            EnsurePhase::ReportingReady { .. } => Some(
                Call::Report {
                    percent: 100,
                    message: "Successfully provisioned GPU instance.".to_owned(),
                },
            ),
            EnsurePhase::ReportingFailure { next, cause, .. } => {
                if cause.should_try_next_gpu() {
                    Some(
                        Call::Report {
                            percent: 85,
                            message: "Cleaning up failed attempt for ".to_owned()
                                .concat(self.plan.candidates[*next].as_str())
                                .concat("..."),
                        },
                    )
                } else {
                    Some(
                        Call::Report {
                            percent: 85,
                            message: "Cleaning up and stopping due to hard error...".to_owned(),
                        },
                    )
                }
            },
            EnsurePhase::CleaningAttempt { run, .. } => run.pending(),
            EnsurePhase::SavingNext { .. } => Some(Call::SaveState),
            EnsurePhase::Done { .. } => None,
        }
    }

    /// Takes it on by a reply, with an identity for what may begin. A reply that does not answer
    /// what is asked for changes nothing.
    pub fn resume(self, reply: Reply, identity: Identity) -> (next_run: EnsureRun)
        requires
            self@.wf(),
            identity.wf(),
        ensures
            next_run@ == self@.after(reply, identity),
            next_run@.wf(),
    {
        let plan: Plan = self.plan;
        let phase: EnsurePhase = match self.phase {
            EnsurePhase::SavingUpgrade { state } => plan.on_upgrade(state, reply, identity),
            EnsurePhase::Reconciling { state, found } => {
                plan.on_reconciling(state, found, reply, identity)
            },
            EnsurePhase::SavingAdopted { state, ip } => plan.on_adopted(
                state,
                ip,
                reply,
                identity,
            ),
            EnsurePhase::ReportingResumed { state, ip } => plan.on_resumed(
                state,
                ip,
                reply,
                identity,
            ),
            EnsurePhase::ReportingRecovery { state } => plan.on_recovery(state, reply, identity),
            EnsurePhase::CleaningRecovery { run } => plan.on_recovering(run, reply, identity),
            EnsurePhase::SavingReset { state } => plan.on_reset(state, reply, identity),
            EnsurePhase::Authenticating { state } => plan.on_auth(state, reply, identity),
            EnsurePhase::CheckingSnapshot { state } => plan.on_snapshot(state, reply, identity),
            EnsurePhase::ReportingCheck { state, size, next } => plan.on_check(
                state,
                size,
                next,
                reply,
                identity,
            ),
            EnsurePhase::ListingProducts { state, size, next } => plan.on_products(
                state,
                size,
                next,
                reply,
                identity,
            ),
            EnsurePhase::SavingAttempt { state, size, next } => plan.on_saved_attempt(
                state,
                size,
                next,
                reply,
                identity,
            ),
            EnsurePhase::ReportingAttempt { state, size, next } => plan.on_attempt(
                state,
                size,
                next,
                reply,
                identity,
            ),
            EnsurePhase::Attempting { run, size, next } => plan.on_attempting(
                run,
                size,
                next,
                reply,
                identity,
            ),
            EnsurePhase::SavingReady { state, ip } => plan.on_ready(state, ip, reply, identity),
            EnsurePhase::ReportingReady { state, ip } => plan.on_reported_ready(
                state,
                ip,
                reply,
                identity,
            ),
            EnsurePhase::ReportingFailure { state, size, next, cause } => plan.on_failure(
                state,
                size,
                next,
                cause,
                reply,
                identity,
            ),
            EnsurePhase::CleaningAttempt { run, size, next, cause } => plan.on_clearing(
                run,
                size,
                next,
                cause,
                reply,
                identity,
            ),
            EnsurePhase::SavingNext { state, size, next } => plan.on_next(
                state,
                size,
                next,
                reply,
                identity,
            ),
            EnsurePhase::Done { state, result } => {
                proof {
                    reveal(PlanView::after);
                }
                EnsurePhase::Done { state, result }
            },
        };
        EnsureRun { plan, phase }
    }

    /// Takes it on by a reply, with an identity drawn for what may begin.
    pub fn advance(self, reply: Reply) -> (next_run: EnsureRun)
        requires
            self@.wf(),
        ensures
            exists|identity: Identity| #[trigger]
                identity.wf() && next_run@ == self@.after(reply, identity),
            next_run@.wf(),
    {
        let identity: Identity = Identity::draw();
        self.resume(reply, identity)
    }

    /// The record as it stands.
    pub fn record(&self) -> (state: &State)
        ensures
            state@ == self@.record(),
    {
        match &self.phase {
            EnsurePhase::SavingUpgrade { state } => state,
            EnsurePhase::Reconciling { state, .. } => state,
            EnsurePhase::SavingAdopted { state, .. } => state,
            EnsurePhase::ReportingResumed { state, .. } => state,
            EnsurePhase::ReportingRecovery { state } => state,
            EnsurePhase::CleaningRecovery { run } => &run.state,
            EnsurePhase::SavingReset { state } => state,
            EnsurePhase::Authenticating { state } => state,
            EnsurePhase::CheckingSnapshot { state } => state,
            EnsurePhase::ReportingCheck { state, .. } => state,
            EnsurePhase::ListingProducts { state, .. } => state,
            EnsurePhase::SavingAttempt { state, .. } => state,
            EnsurePhase::ReportingAttempt { state, .. } => state,
            EnsurePhase::Attempting { run, .. } => &run.state,
            EnsurePhase::SavingReady { state, .. } => state,
            EnsurePhase::ReportingReady { state, .. } => state,
            EnsurePhase::ReportingFailure { state, .. } => state,
            EnsurePhase::CleaningAttempt { run, .. } => &run.state,
            EnsurePhase::SavingNext { state, .. } => state,
            EnsurePhase::Done { state, .. } => state,
        }
    }

    /// Breaks it off: what an attempt or an earlier run has made is removed, and a session that may
    /// be up is left alone.
    pub fn interrupt(self) -> (interruption: Interruption)
        ensures
            match interruption {
                Interruption::Leave(state) => self@.may_be_up() && state@ == self@.record(),
                Interruption::CleanUp(run) => !self@.may_be_up() && run@ == self@.plan.cleanup(
                    self@.record(),
                ),
            },
    {
        let plan: Plan = self.plan;
        match self.phase {
            EnsurePhase::SavingUpgrade { state } => Interruption::Leave(state),
            EnsurePhase::Reconciling { state, .. } => Interruption::Leave(state),
            EnsurePhase::SavingAdopted { state, .. } => Interruption::Leave(state),
            EnsurePhase::ReportingResumed { state, .. } => Interruption::Leave(state),
            EnsurePhase::SavingReady { state, .. } => Interruption::Leave(state),
            EnsurePhase::ReportingReady { state, .. } => Interruption::Leave(state),
            EnsurePhase::Done { state, .. } => Interruption::Leave(state),
            EnsurePhase::ReportingRecovery { state } => Interruption::CleanUp(plan.cleanup(state)),
            EnsurePhase::CleaningRecovery { run } => Interruption::CleanUp(plan.cleanup(run.state)),
            EnsurePhase::SavingReset { state } => Interruption::CleanUp(plan.cleanup(state)),
            EnsurePhase::Authenticating { state } => Interruption::CleanUp(plan.cleanup(state)),
            EnsurePhase::CheckingSnapshot { state } => Interruption::CleanUp(plan.cleanup(state)),
            EnsurePhase::ReportingCheck { state, .. } => Interruption::CleanUp(plan.cleanup(state)),
            EnsurePhase::ListingProducts { state, .. } => Interruption::CleanUp(
                plan.cleanup(state),
            ),
            EnsurePhase::SavingAttempt { state, .. } => Interruption::CleanUp(plan.cleanup(state)),
            EnsurePhase::ReportingAttempt { state, .. } => Interruption::CleanUp(
                plan.cleanup(state),
            ),
            EnsurePhase::Attempting { run, .. } => Interruption::CleanUp(plan.cleanup(run.state)),
            EnsurePhase::ReportingFailure { state, .. } => Interruption::CleanUp(
                plan.cleanup(state),
            ),
            EnsurePhase::CleaningAttempt { run, .. } => Interruption::CleanUp(
                plan.cleanup(run.state),
            ),
            EnsurePhase::SavingNext { state, .. } => Interruption::CleanUp(plan.cleanup(state)),
        }
    }
}

} // verus!
