//! What holds of the bringing up of every session, whatever the replies.

use vstd::prelude::*;
#[allow(unused_imports)]
use vstd::string::*;

#[allow(unused_imports)]
use crate::error;
#[allow(unused_imports)]
use crate::error::{AppError, AppErrorView};
#[allow(unused_imports)]
use crate::outside;
#[allow(unused_imports)]
use crate::scaleway::attempt_laws;
#[allow(unused_imports)]
use crate::scaleway::calls::{CallView, Reply};
#[allow(unused_imports)]
use crate::scaleway::cleanup::CleanupView;
#[allow(unused_imports)]
use crate::scaleway::cleanup_laws;
#[allow(unused_imports)]
use crate::scaleway::compatibility;
#[allow(unused_imports)]
use crate::scaleway::models::{InstanceIp, Server, ServerTypesResponse, Snapshot};
#[allow(unused_imports)]
use crate::scaleway::models;
#[allow(unused_imports)]
use crate::scaleway::provision;
#[allow(unused_imports)]
use crate::scaleway::provision::{EnsurePhaseView, EnsureView, PlanView};
#[allow(unused_imports)]
use crate::scaleway::reconcile::{OutcomeView, ReconciliationView};
#[allow(unused_imports)]
use crate::state::{Identity, ProvisioningPhase, StateView, STATE_VERSION};
#[allow(unused_imports)]
use crate::text;

verus! {

/// A record of an older version keeps everything that it holds when it is brought to the present
/// one, which is done once.
pub proof fn lemma_upgrade_keeps_resources(state: StateView, first: Seq<char>, second: Seq<char>)
    ensures
        ({
            let current = provision::upgraded(state, first);
            &&& current.instance_id == state.instance_id
            &&& current.volume_id == state.volume_id
            &&& current.public_ip_id == state.public_ip_id
            &&& current.public_ip_address == state.public_ip_address
            &&& current.snapshot_id == state.snapshot_id
            &&& current.zone == state.zone
            &&& current.created_at == state.created_at
            &&& current.version >= STATE_VERSION
            &&& provision::upgraded(current, second) == current
        }),
{
}

/// The bringing up of a session after some replies, each with an identity for what may begin.
pub open spec fn after_all(run: EnsureView, steps: Seq<(Reply, Identity)>) -> EnsureView
    decreases steps.len(),
{
    if steps.len() == 0 {
        run
    } else {
        after_all(run, steps.drop_last()).after(steps.last().0, steps.last().1)
    }
}

/// Whether a record says that everything is up at an address.
pub open spec fn up_at(state: StateView, ip: Seq<char>) -> bool {
    &&& state.phase is Ready
    &&& state.instance_id is Some
    &&& state.public_ip_address == Some(ip)
}

/// Whether a record says that a GPU type is the one that is tried, and the last that was.
pub open spec fn names_gpu(state: StateView, gpu_type: Seq<char>) -> bool {
    &&& state.selected_gpu_type == gpu_type
    &&& state.attempted_gpu_types.len() > 0
    &&& state.attempted_gpu_types.last() == gpu_type
}

/// What every removal that is under way keeps to.
pub open spec fn sound_cleanup(plan: PlanView, run: CleanupView) -> bool {
    &&& cleanup_laws::sound(run)
    &&& run.snapshot_id == plan.snapshot_id
    &&& !run.over()
}

/// What every bringing up of a session keeps to.
pub open spec fn sound(run: EnsureView) -> bool {
    match run.phase {
        EnsurePhaseView::SavingUpgrade { .. } => true,
        EnsurePhaseView::Reconciling { state, found } => {
            &&& state.instance_id is Some
            &&& match found {
                ReconciliationView::QueryingServer => true,
                ReconciliationView::QueryingIp { .. } => state.phase is Ready
                    && state.public_ip_id is Some,
                ReconciliationView::Decided(_) => false,
            }
        },
        EnsurePhaseView::SavingAdopted { state, ip } => up_at(state, ip),
        EnsurePhaseView::ReportingResumed { state, ip } => up_at(state, ip),
        EnsurePhaseView::ReportingRecovery { .. } => true,
        EnsurePhaseView::CleaningRecovery { run: cleanup } => sound_cleanup(run.plan, cleanup),
        EnsurePhaseView::SavingReset { state } => state.tracks_nothing(),
        EnsurePhaseView::Authenticating { state } => state.tracks_nothing(),
        EnsurePhaseView::CheckingSnapshot { state } => state.tracks_nothing(),
        EnsurePhaseView::ReportingCheck { state, .. } => state.tracks_nothing(),
        EnsurePhaseView::ListingProducts { state, .. } => state.tracks_nothing(),
        EnsurePhaseView::SavingAttempt { state, next, .. } => {
            &&& state.tracks_nothing()
            &&& names_gpu(state, run.plan.candidates[next])
        },
        EnsurePhaseView::ReportingAttempt { state, next, .. } => {
            &&& state.tracks_nothing()
            &&& names_gpu(state, run.plan.candidates[next])
        },
        EnsurePhaseView::Attempting { run: attempt, next, .. } => {
            &&& attempt_laws::sound(attempt)
            &&& attempt.result is None
            &&& attempt.snapshot_id == run.plan.snapshot_id
            &&& attempt.gpu_type == run.plan.candidates[next]
            &&& names_gpu(attempt.state, run.plan.candidates[next])
        },
        EnsurePhaseView::SavingReady { state, ip } => {
            &&& up_at(state, ip)
            &&& run.plan.candidates.contains(state.selected_gpu_type)
        },
        EnsurePhaseView::ReportingReady { state, ip } => {
            &&& up_at(state, ip)
            &&& run.plan.candidates.contains(state.selected_gpu_type)
        },
        EnsurePhaseView::ReportingFailure { .. } => true,
        EnsurePhaseView::CleaningAttempt { run: cleanup, .. } => sound_cleanup(run.plan, cleanup),
        EnsurePhaseView::SavingNext { state, .. } => state.tracks_nothing(),
        EnsurePhaseView::Done { state, result } => result matches Ok(ip) ==> up_at(state, ip),
    }
}

proof fn lemma_sound_reconciled(plan: PlanView, state: StateView, found: ReconciliationView)
    requires
        match found {
            ReconciliationView::QueryingServer => state.instance_id is Some,
            ReconciliationView::QueryingIp { .. } => state.instance_id is Some
                && state.phase is Ready && state.public_ip_id is Some,
            ReconciliationView::Decided(Ok(OutcomeView::ResumeRunning { ip_address, .. })) => up_at(
                state,
                ip_address,
            ),
            ReconciliationView::Decided(Ok(OutcomeView::NoState)) => state.tracks_nothing(),
            _ => true,
        },
    ensures
        sound(EnsureView { plan, phase: plan.reconciled(state, found) }),
{
}

proof fn lemma_sound_begun(plan: PlanView, state: StateView)
    ensures
        sound(EnsureView { plan, phase: plan.reconciled(state, ReconciliationView::begun(state)) }),
{
    lemma_sound_reconciled(plan, state, ReconciliationView::begun(state));
}

/// A bringing up that is sound stays so.
pub proof fn lemma_sound_step(run: EnsureView, reply: Reply, identity: Identity)
    requires
        run.wf(),
        identity.wf(),
        sound(run),
    ensures
        sound(run.after(reply, identity)),
        run.after(reply, identity).wf(),
        run.after(reply, identity).plan == run.plan,
{
    reveal(PlanView::after);
    match run.phase {
        EnsurePhaseView::SavingUpgrade { state } => {
            lemma_sound_begun(run.plan, state);
        },
        EnsurePhaseView::Reconciling { state, found } => {
            lemma_sound_reconciled(run.plan, state, found.after(state, reply));
        },
        EnsurePhaseView::CleaningRecovery { run: cleanup } => {
            cleanup_laws::lemma_sound_step(cleanup, reply);
        },
        EnsurePhaseView::CleaningAttempt { run: cleanup, .. } => {
            cleanup_laws::lemma_sound_step(cleanup, reply);
        },
        EnsurePhaseView::Attempting { run: attempt, .. } => {
            attempt_laws::lemma_sound_step(attempt, reply);
        },
        EnsurePhaseView::ReportingAttempt { state, next, .. } => {
            attempt_laws::lemma_sound_start(
                state,
                run.plan.instance_name,
                run.plan.candidates[next],
                run.plan.snapshot_id,
                run.plan.zone,
                run.plan.timeouts,
            );
        },
        _ => {},
    }
}

/// The identities of some steps can name attempts.
pub open spec fn all_named(steps: Seq<(Reply, Identity)>) -> bool {
    forall|i: int| 0 <= i < steps.len() ==> (#[trigger] steps[i]).1.wf()
}

/// The bringing up of every session is sound, whatever the replies.
pub proof fn lemma_sound(
    plan: PlanView,
    state: StateView,
    identity: Identity,
    steps: Seq<(Reply, Identity)>,
)
    requires
        all_named(steps),
    ensures
        sound(after_all(EnsureView::begun(plan, state, identity), steps)),
        after_all(EnsureView::begun(plan, state, identity), steps).wf(),
        after_all(EnsureView::begun(plan, state, identity), steps).plan == plan,
    decreases steps.len(),
{
    let start = EnsureView::begun(plan, state, identity);
    if steps.len() == 0 {
        lemma_sound_begun(plan, provision::upgraded(state, identity.attempt_id@));
    } else {
        let front = steps.drop_last();
        assert forall|i: int| 0 <= i < front.len() implies (#[trigger] front[i]).1.wf() by {
            assert(front[i] == steps[i]);
        }
        lemma_sound(plan, state, identity, front);
        assert(steps[steps.len() - 1].1.wf());
        lemma_sound_step(after_all(start, front), steps.last().0, steps.last().1);
    }
}

/// The bringing up of a session never asks for the snapshot to be switched off or removed.
pub proof fn lemma_snapshot_is_safe(
    plan: PlanView,
    state: StateView,
    identity: Identity,
    steps: Seq<(Reply, Identity)>,
)
    requires
        all_named(steps),
    ensures
        after_all(
            EnsureView::begun(plan, state, identity),
            steps,
        ).pending() matches Some(call) ==> call.destroys() != Some(plan.snapshot_id),
{
    lemma_sound(plan, state, identity, steps);
}

/// An instance is asked for only when the record holds nothing, and a public address only when it
/// holds none: what was made before is either taken on or removed first.
pub proof fn lemma_makes_nothing_twice(
    plan: PlanView,
    state: StateView,
    identity: Identity,
    steps: Seq<(Reply, Identity)>,
)
    requires
        all_named(steps),
    ensures
        ({
            let now = after_all(EnsureView::begun(plan, state, identity), steps);
            now.pending() matches Some(call) ==> {
                &&& call is CreateInstance ==> now.record().tracks_nothing()
                &&& call is AllocateIp ==> now.record().public_ip_id is None
            }
        }),
{
    lemma_sound(plan, state, identity, steps);
}

/// An instance is made of the GPU type whose turn it is, from the snapshot of the plan.
pub proof fn lemma_tries_what_is_next(
    plan: PlanView,
    state: StateView,
    identity: Identity,
    steps: Seq<(Reply, Identity)>,
)
    requires
        all_named(steps),
    ensures
        ({
            let now = after_all(EnsureView::begun(plan, state, identity), steps);
            now.pending() matches Some(CallView::CreateInstance { gpu_type, snapshot_id, .. }) ==> {
                &&& now.position() matches Some(next)
                &&& gpu_type == plan.candidates[next]
                &&& snapshot_id == plan.snapshot_id
            }
        }),
{
    lemma_sound(plan, state, identity, steps);
}

/// Whether a step passes over the GPU type at a position: it does not go with the snapshot, or the
/// attempt with it failed for its sake and everything that was made is removed.
pub open spec fn passes_over(run: EnsureView, reply: Reply, next: int) -> bool {
    match run.phase {
        EnsurePhaseView::ListingProducts { size, .. } => {
            &&& reply matches Reply::Products(Ok(products))
            &&& compatibility::objection(
                run.plan.zone,
                run.plan.candidates[next],
                size,
                products,
            ) is Some
        },
        EnsurePhaseView::SavingNext { .. } => reply matches Reply::Done(Ok(_)),
        _ => false,
    }
}

/// The GPU types are tried in the order of the list: the first comes first, and the turn passes
/// from one to the next only where it is passed over.
pub proof fn lemma_order_is_kept(run: EnsureView, reply: Reply, identity: Identity)
    ensures
        ({
            let next_run = run.after(reply, identity);
            match (run.position(), next_run.position()) {
                (None, Some(next)) => next == 0 && run.phase is CheckingSnapshot,
                (Some(now), Some(next)) => next == now || (next == now + 1 && passes_over(
                    run,
                    reply,
                    now,
                )),
                _ => true,
            }
        }),
{
    reveal(PlanView::after);
    match run.phase {
        EnsurePhaseView::SavingUpgrade { .. } => {},
        EnsurePhaseView::Reconciling { .. } => {},
        EnsurePhaseView::ReportingRecovery { .. } => {},
        EnsurePhaseView::CleaningRecovery { .. } => {},
        EnsurePhaseView::CheckingSnapshot { .. } => {},
        EnsurePhaseView::ListingProducts { .. } => {},
        EnsurePhaseView::ReportingAttempt { .. } => {},
        EnsurePhaseView::Attempting { .. } => {},
        EnsurePhaseView::ReportingFailure { .. } => {},
        EnsurePhaseView::CleaningAttempt { .. } => {},
        EnsurePhaseView::SavingNext { .. } => {},
        _ => {},
    }
}

/// Whether a reply brings an error.
pub open spec fn brings(reply: Reply, e: AppErrorView) -> bool {
    match reply {
        Reply::Done(Err(found)) => found@ == e,
        Reply::Server(Err(found)) => found@ == e,
        Reply::Volume(Err(found)) => found@ == e,
        Reply::Ip(Err(found)) => found@ == e,
        Reply::Snapshot(Err(found)) => found@ == e,
        Reply::Products(Err(found)) => found@ == e,
        _ => false,
    }
}

/// What went wrong with the attempt that is being removed, if one is.
pub open spec fn cause_of(run: EnsureView) -> Option<AppErrorView> {
    match run.phase {
        EnsurePhaseView::ReportingFailure { cause, .. } => Some(cause),
        EnsurePhaseView::CleaningAttempt { cause, .. } => Some(cause),
        _ => None,
    }
}

/// The list is given up as a whole, with the whole list in the error, only when its last GPU type
/// is passed over or it is empty. No other step makes that error up: it was brought from outside.
pub proof fn lemma_gives_up_at_the_end(run: EnsureView, reply: Reply, identity: Identity)
    requires
        run.wf(),
        sound(run),
        !(run.phase is Done),
    ensures
        run.after(reply, identity).phase matches EnsurePhaseView::Done { result: Err(e), .. }
            ==> e is NoCompatibleGpuAvailable && !brings(reply, e) && cause_of(run) != Some(e) ==> {
            &&& e == (AppErrorView::NoCompatibleGpuAvailable {
                zone: run.plan.zone,
                attempted: run.plan.candidates,
            })
            &&& match run.position() {
                Some(now) => now + 1 == run.plan.candidates.len() && passes_over(run, reply, now),
                None => run.phase is CheckingSnapshot && run.plan.candidates.len() == 0,
            }
        },
{
    reveal(PlanView::after);
    match run.phase {
        EnsurePhaseView::Reconciling { .. } => {},
        EnsurePhaseView::CleaningRecovery { .. } => {},
        EnsurePhaseView::CheckingSnapshot { .. } => {},
        EnsurePhaseView::ListingProducts { .. } => {},
        EnsurePhaseView::Attempting { .. } => {},
        EnsurePhaseView::CleaningAttempt { .. } => {},
        EnsurePhaseView::SavingNext { .. } => {},
        _ => {},
    }
}

/// A session that is brought up has its instance in the record, which says that everything is up
/// at the address that is given back.
pub proof fn lemma_success_is_recorded(
    plan: PlanView,
    state: StateView,
    identity: Identity,
    steps: Seq<(Reply, Identity)>,
)
    requires
        all_named(steps),
    ensures
        after_all(EnsureView::begun(plan, state, identity), steps).phase matches
            EnsurePhaseView::Done { state: kept, result: Ok(ip) } ==> up_at(kept, ip),
{
    lemma_sound(plan, state, identity, steps);
}

/// The record of a session that is brought up names the GPU type whose attempt succeeded: the one
/// that was being tried when everything was up, which is also the last that the record lists.
pub proof fn lemma_success_names_the_gpu_type(
    plan: PlanView,
    state: StateView,
    identity: Identity,
    steps: Seq<(Reply, Identity)>,
    reply: Reply,
    other: Identity,
)
    requires
        all_named(steps),
    ensures
        ({
            let run = after_all(EnsureView::begun(plan, state, identity), steps);
            let next = run.after(reply, other);
            &&& next.phase is SavingReady && !(run.phase is SavingReady) ==> {
                &&& run.phase is Attempting
                &&& run.position() matches Some(at) && 0 <= at < plan.candidates.len() && names_gpu(
                    next.record(),
                    plan.candidates[at],
                )
            }
            &&& run.phase is SavingReady || run.phase is ReportingReady ==> {
                &&& plan.candidates.contains(run.record().selected_gpu_type)
                &&& next.record() == run.record()
            }
        }),
{
    reveal(PlanView::after);
    lemma_sound(plan, state, identity, steps);
    let run = after_all(EnsureView::begun(plan, state, identity), steps);
    match run.phase {
        EnsurePhaseView::Attempting { .. } => {},
        EnsurePhaseView::Reconciling { .. } => {},
        EnsurePhaseView::CleaningRecovery { .. } => {},
        EnsurePhaseView::CleaningAttempt { .. } => {},
        _ => {},
    }
}

/// An attempt that fails leaves nothing behind, or the error and the record say that something is
/// left, or the removal is refused because the record names the snapshot. The steps that are left
/// out are those in which the record itself could not be examined or saved: there it stays as it
/// is.
pub proof fn lemma_failure_leaves_nothing(run: EnsureView, reply: Reply, identity: Identity)
    requires
        sound(run),
        run.wf(),
        identity.wf(),
        !(run.phase is Done),
        !(run.phase is SavingUpgrade),
        !(run.phase is Reconciling),
        !(run.phase is SavingReady),
    ensures
        run.after(reply, identity).phase matches EnsurePhaseView::Done {
            state,
            result: Err(e),
        } ==> {
            ||| state.tracks_nothing()
            ||| e is CleanupIncomplete && state.phase is CleanupIncomplete
            ||| e is SafetyViolation && state.tracks(run.plan.snapshot_id)
        },
{
    reveal(PlanView::after);
    match run.phase {
        EnsurePhaseView::CleaningRecovery { run: cleanup } => {
            cleanup_laws::lemma_sound_step(cleanup, reply);
        },
        EnsurePhaseView::CleaningAttempt { run: cleanup, .. } => {
            cleanup_laws::lemma_sound_step(cleanup, reply);
        },
        _ => {},
    }
}

/// Whether a reply gives a resource the identifier of the snapshot.
pub open spec fn gives_id(reply: Reply, snapshot_id: Seq<char>) -> bool {
    match reply {
        Reply::Server(Ok(server)) => server.id@ == snapshot_id || models::boot_volume_of(server)
            == Some(snapshot_id),
        Reply::Ip(Ok(ip)) => ip.id@ == snapshot_id,
        _ => false,
    }
}

/// Whether the record of a session that is up could be saved, wherever it was, and nothing that was
/// made was given the identifier of the snapshot.
pub open spec fn fair(run: EnsureView, steps: Seq<(Reply, Identity)>) -> bool {
    forall|i: int|
        0 <= i < steps.len() ==> {
            let reply = (#[trigger] steps[i]).0;
            &&& making(after_all(run, steps.take(i))) ==> !gives_id(reply, run.plan.snapshot_id)
            &&& after_all(run, steps.take(i)).phase is SavingReady ==> !(reply matches Reply::Done(
                Err(_),
            ))
        }
}

/// Whether the bringing up of a session asks for something to be made.
pub open spec fn making(run: EnsureView) -> bool {
    run.pending() matches Some(call) && call.makes()
}

/// What is left when the bringing up of a session that began with a record fails: nothing, or what
/// the error speaks of, or the record as it was.
pub open spec fn leaves_nothing_unsaid(
    start: StateView,
    state: StateView,
    e: AppErrorView,
) -> bool {
    ||| state.tracks_nothing()
    ||| e is CleanupIncomplete && state.phase is CleanupIncomplete
    ||| state == start
}

spec fn spared(run: EnsureView, start: StateView) -> bool {
    match run.phase {
        EnsurePhaseView::SavingUpgrade { state } => state == start,
        EnsurePhaseView::Reconciling { state, .. } => state == start,
        EnsurePhaseView::ReportingRecovery { state } => state == start,
        EnsurePhaseView::Attempting { run: attempt, .. } => {
            &&& !attempt.state.tracks(run.plan.snapshot_id)
            &&& attempt.boot_volume != Some(run.plan.snapshot_id)
        },
        EnsurePhaseView::ReportingFailure { state, .. } => !state.tracks(run.plan.snapshot_id),
        EnsurePhaseView::Done { state, result: Err(e) } => leaves_nothing_unsaid(start, state, e),
        _ => true,
    }
}

proof fn lemma_spared_step(run: EnsureView, start: StateView, reply: Reply, identity: Identity)
    requires
        sound(run),
        spared(run, start),
        !start.tracks(run.plan.snapshot_id),
        making(run) ==> !gives_id(reply, run.plan.snapshot_id),
        run.phase is SavingReady ==> !(reply matches Reply::Done(Err(_))),
    ensures
        spared(run.after(reply, identity), start),
{
    reveal(PlanView::after);
    match run.phase {
        EnsurePhaseView::CleaningRecovery { run: cleanup } => {
            cleanup_laws::lemma_sound_step(cleanup, reply);
        },
        EnsurePhaseView::CleaningAttempt { run: cleanup, .. } => {
            cleanup_laws::lemma_sound_step(cleanup, reply);
        },
        _ => {},
    }
}

proof fn lemma_spared(
    plan: PlanView,
    state: StateView,
    identity: Identity,
    steps: Seq<(Reply, Identity)>,
)
    requires
        all_named(steps),
        !state.tracks(plan.snapshot_id),
        fair(EnsureView::begun(plan, state, identity), steps),
    ensures
        spared(
            after_all(EnsureView::begun(plan, state, identity), steps),
            provision::upgraded(state, identity.attempt_id@),
        ),
    decreases steps.len(),
{
    let run = EnsureView::begun(plan, state, identity);
    let start = provision::upgraded(state, identity.attempt_id@);
    if steps.len() > 0 {
        let front = steps.drop_last();
        assert forall|i: int| 0 <= i < front.len() implies (#[trigger] front[i]).1.wf() by {
            assert(front[i] == steps[i]);
        }
        assert forall|i: int| 0 <= i < front.len() implies {
            let reply = (#[trigger] front[i]).0;
            &&& making(after_all(run, front.take(i))) ==> !gives_id(reply, plan.snapshot_id)
            &&& after_all(run, front.take(i)).phase is SavingReady ==> !(reply matches Reply::Done(
                Err(_),
            ))
        } by {
            assert(front[i] == steps[i]);
            assert(front.take(i) =~= steps.take(i));
        }
        lemma_sound(plan, state, identity, front);
        lemma_spared(plan, state, identity, front);
        assert(steps[steps.len() - 1] == steps.last());
        assert(steps.take(steps.len() - 1) =~= front);
        lemma_spared_step(after_all(run, front), start, steps.last().0, steps.last().1);
    }
}

/// A session that cannot be brought up leaves nothing behind, unless the error says that the
/// removal is incomplete, and then so does the record, or it could not be found out what the record
/// is worth, and then that stays as it was. Begun with a record that holds nothing, every other
/// error therefore leaves nothing. Left out are the two ways in which this fails: the record of a
/// session that is up cannot be saved, or something that is made has the identifier of the snapshot.
pub proof fn lemma_failed_session_leaves_nothing(
    plan: PlanView,
    state: StateView,
    identity: Identity,
    steps: Seq<(Reply, Identity)>,
)
    requires
        all_named(steps),
        !state.tracks(plan.snapshot_id),
        fair(EnsureView::begun(plan, state, identity), steps),
    ensures
        after_all(EnsureView::begun(plan, state, identity), steps).phase matches
            EnsurePhaseView::Done { state: kept, result: Err(e) } ==> {
            &&& leaves_nothing_unsaid(provision::upgraded(state, identity.attempt_id@), kept, e)
            &&& state.tracks_nothing() && !(e is CleanupIncomplete) ==> kept.tracks_nothing()
        },
{
    lemma_spared(plan, state, identity, steps);
}

/// Where a failed attempt could not be removed, no other GPU type is tried: the failure of the
/// removal is the result.
pub proof fn lemma_failed_cleanup_stops(run: EnsureView, reply: Reply, identity: Identity)
    requires
        run.phase is CleaningAttempt || run.phase is CleaningRecovery,
    ensures
        ({
            let cleanup = match run.phase {
                EnsurePhaseView::CleaningAttempt { run: c, .. } => c.after(reply),
                EnsurePhaseView::CleaningRecovery { run: c } => c.after(reply),
                _ => arbitrary(),
            };
            cleanup.over() && cleanup.verdict() is Err ==> run.after(reply, identity).phase
                == (EnsurePhaseView::Done {
                state: cleanup.state,
                result: Err(cleanup.verdict()->Err_0),
            })
        }),
{
    reveal(PlanView::after);
}

/// What goes wrong for another reason than the GPU type ends the list: it is the result, once what
/// was made is removed.
pub proof fn lemma_hard_error_stops(run: EnsureView, reply: Reply, identity: Identity)
    requires
        run.phase matches EnsurePhaseView::CleaningAttempt { cause, .. }
            && !error::concerns_one_gpu(cause),
    ensures
        ({
            let next_run = run.after(reply, identity);
            ||| next_run.phase is CleaningAttempt
            ||| next_run.phase matches EnsurePhaseView::Done { result: Err(e), .. } && (e
                == run.phase->CleaningAttempt_cause || e is CleanupIncomplete
                || e is SafetyViolation)
        }),
{
    reveal(PlanView::after);
}

/// Where the bringing up of a session is broken off, a session is left alone only when the record
/// says that everything is up, when it is still to be found out what the record is worth, or when
/// it is over. Otherwise what the record holds is removed: nothing is left of it where that
/// succeeds, and the snapshot is spared.
pub proof fn lemma_interruption_leaves_nothing(
    plan: PlanView,
    state: StateView,
    identity: Identity,
    steps: Seq<(Reply, Identity)>,
    replies: Seq<Reply>,
)
    requires
        all_named(steps),
    ensures
        ({
            let now = after_all(EnsureView::begun(plan, state, identity), steps);
            let removal = cleanup_laws::after_all(plan.cleanup(now.record()), replies);
            &&& now.may_be_up() ==> {
                ||| now.record().phase is Ready && now.record().instance_id is Some
                ||| now.phase is SavingUpgrade || now.phase is Reconciling
                ||| now.phase is Done
            }
            &&& removal.pending() matches Some(call) ==> call.destroys() != Some(plan.snapshot_id)
            &&& removal.over() && removal.verdict() is Ok ==> removal.state.tracks_nothing()
        }),
{
    lemma_sound(plan, state, identity, steps);
    let now = after_all(EnsureView::begun(plan, state, identity), steps);
    cleanup_laws::lemma_sound(
        now.record(),
        plan.snapshot_id,
        plan.timeouts.cleanup_timeout_seconds,
        plan.timeouts.cleanup_poll_interval_seconds,
        replies,
    );
}

/// How far the end is at most.
pub open spec fn steps_ahead(run: EnsureView) -> int {
    let list = run.plan.candidates.len() as int;
    match run.phase {
        EnsurePhaseView::SavingUpgrade { .. } => 100 * (list + 1) + 60,
        EnsurePhaseView::Reconciling { found, .. } => 100 * (list + 1) + if found
            is QueryingServer {
            59int
        } else {
            58int
        },
        EnsurePhaseView::SavingAdopted { .. } => 100 * (list + 1) + 20,
        EnsurePhaseView::ReportingResumed { .. } => 100 * (list + 1) + 19,
        EnsurePhaseView::ReportingRecovery { .. } => 100 * (list + 1) + 50,
        EnsurePhaseView::CleaningRecovery { run: cleanup } => 100 * (list + 1) + 20
            + cleanup_laws::stages_ahead(cleanup.stage),
        EnsurePhaseView::SavingReset { .. } => 100 * (list + 1) + 18,
        EnsurePhaseView::Authenticating { .. } => 100 * (list + 1) + 17,
        EnsurePhaseView::CheckingSnapshot { .. } => 100 * (list + 1) + 16,
        EnsurePhaseView::ReportingCheck { next, .. } => 100 * (list - next) + 90,
        EnsurePhaseView::ListingProducts { next, .. } => 100 * (list - next) + 89,
        EnsurePhaseView::SavingAttempt { next, .. } => 100 * (list - next) + 88,
        EnsurePhaseView::ReportingAttempt { next, .. } => 100 * (list - next) + 87,
        EnsurePhaseView::Attempting { run: attempt, next, .. } => 100 * (list - next) + 60
            + attempt_laws::stages_ahead(attempt.stage),
        EnsurePhaseView::SavingReady { .. } => 2,
        EnsurePhaseView::ReportingReady { .. } => 1,
        EnsurePhaseView::ReportingFailure { next, .. } => 100 * (list - next) + 50,
        EnsurePhaseView::CleaningAttempt { run: cleanup, next, .. } => 100 * (list - next) + 20
            + cleanup_laws::stages_ahead(cleanup.stage),
        EnsurePhaseView::SavingNext { next, .. } => 100 * (list - next) + 10,
        EnsurePhaseView::Done { .. } => 0,
    }
}

/// Each reply that answers what is asked for brings the end closer, which comes after at most
/// `steps_ahead` of them.
pub proof fn lemma_each_reply_counts(run: EnsureView, reply: Reply, identity: Identity)
    requires
        sound(run),
        run.wf(),
        identity.wf(),
        run.pending() is Some,
        reply.answers(run.pending()->0),
    ensures
        0 <= steps_ahead(run.after(reply, identity)) < steps_ahead(run),
{
    reveal(PlanView::after);
    lemma_sound_step(run, reply, identity);
    match run.phase {
        EnsurePhaseView::CleaningRecovery { run: cleanup } => {
            cleanup_laws::lemma_each_reply_counts(cleanup, reply);
        },
        EnsurePhaseView::CleaningAttempt { run: cleanup, .. } => {
            cleanup_laws::lemma_each_reply_counts(cleanup, reply);
        },
        EnsurePhaseView::Attempting { run: attempt, .. } => {
            attempt_laws::lemma_each_reply_counts(attempt, reply);
        },
        _ => {},
    }
}

/// Something is asked for exactly as long as it is not over.
pub proof fn lemma_asks_until_over(
    plan: PlanView,
    state: StateView,
    identity: Identity,
    steps: Seq<(Reply, Identity)>,
)
    requires
        all_named(steps),
    ensures
        ({
            let now = after_all(EnsureView::begun(plan, state, identity), steps);
            now.pending() is None <==> now.phase is Done
        }),
{
    lemma_sound(plan, state, identity, steps);
}

// ---------------------------------------------------------------- what is asked for

spec fn planned(run: EnsureView) -> bool {
    match run.phase {
        EnsurePhaseView::Attempting { run: attempt, next, .. } => {
            &&& attempt.timeouts == run.plan.timeouts
            &&& attempt.zone == run.plan.zone
            &&& attempt.name == run.plan.instance_name + "-"@ + text::replaced(
                outside::lowercase(run.plan.candidates[next]),
                '_',
                "-"@,
            ) + "-"@ + text::front_bytes(attempt.state.attempt_id, 8)
        },
        EnsurePhaseView::CleaningRecovery { run: cleanup } => keeps_time(run.plan, cleanup),
        EnsurePhaseView::CleaningAttempt { run: cleanup, .. } => keeps_time(run.plan, cleanup),
        _ => true,
    }
}

spec fn keeps_time(plan: PlanView, run: CleanupView) -> bool {
    &&& run.timeout_secs == plan.timeouts.cleanup_timeout_seconds
    &&& run.poll_secs == plan.timeouts.cleanup_poll_interval_seconds
}

proof fn lemma_planned_step(run: EnsureView, reply: Reply, identity: Identity)
    requires
        run.wf(),
        sound(run),
        planned(run),
    ensures
        planned(run.after(reply, identity)),
{
    reveal(PlanView::after);
    match run.phase {
        EnsurePhaseView::Attempting { run: attempt, .. } => {
            attempt_laws::lemma_sound_step(attempt, reply);
        },
        EnsurePhaseView::Reconciling { .. } => {},
        EnsurePhaseView::CleaningRecovery { .. } => {},
        EnsurePhaseView::CleaningAttempt { .. } => {},
        _ => {},
    }
}

proof fn lemma_planned(
    plan: PlanView,
    state: StateView,
    identity: Identity,
    steps: Seq<(Reply, Identity)>,
)
    requires
        all_named(steps),
    ensures
        planned(after_all(EnsureView::begun(plan, state, identity), steps)),
    decreases steps.len(),
{
    if steps.len() > 0 {
        let front = steps.drop_last();
        assert forall|i: int| 0 <= i < front.len() implies (#[trigger] front[i]).1.wf() by {
            assert(front[i] == steps[i]);
        }
        lemma_planned(plan, state, identity, front);
        lemma_sound(plan, state, identity, front);
        lemma_planned_step(
            after_all(EnsureView::begun(plan, state, identity), front),
            steps.last().0,
            steps.last().1,
        );
    }
}

/// Whatever is asked for in the course of a session follows the plan and the record: an instance is
/// named after the plan, the GPU type and the attempt; every wait takes as long, and looks as often,
/// as the plan says of it; what is looked at or removed is what the record holds.
pub proof fn lemma_calls_follow_the_plan(
    plan: PlanView,
    state: StateView,
    identity: Identity,
    steps: Seq<(Reply, Identity)>,
)
    requires
        all_named(steps),
    ensures
        ({
            let now = after_all(EnsureView::begun(plan, state, identity), steps);
            let record = now.record();
            now.pending() matches Some(call) ==> match call {
                CallView::CreateInstance { name, gpu_type, snapshot_id, attempt_id } => {
                    &&& attempt_id == record.attempt_id
                    &&& snapshot_id == plan.snapshot_id
                    &&& plan.candidates.contains(gpu_type)
                    &&& name == plan.instance_name + "-"@ + text::replaced(
                        outside::lowercase(gpu_type),
                        '_',
                        "-"@,
                    ) + "-"@ + text::front_bytes(attempt_id, 8)
                },
                CallView::WaitRunning { server_id, timeout_secs, poll_secs } => {
                    &&& record.instance_id == Some(server_id)
                    &&& timeout_secs == plan.timeouts.instance_creation_seconds
                    &&& poll_secs == plan.timeouts.instance_poll_interval_seconds
                },
                CallView::WaitNemotron { ip_address, timeout_secs, poll_secs } => {
                    &&& record.public_ip_address == Some(ip_address)
                    &&& timeout_secs == plan.timeouts.nemotron_startup_seconds
                    &&& poll_secs == plan.timeouts.nemotron_poll_interval_seconds
                },
                CallView::WaitStopped { server_id, timeout_secs, poll_secs } => {
                    record.instance_id == Some(server_id) && timeout_secs == 120 && poll_secs == 5
                },
                CallView::VerifyInstanceDeleted { server_id, timeout_secs, poll_secs } => {
                    &&& record.instance_id == Some(server_id)
                    &&& timeout_secs == plan.timeouts.cleanup_timeout_seconds
                    &&& poll_secs == plan.timeouts.cleanup_poll_interval_seconds
                },
                CallView::VerifyVolumeDeleted { volume_id, timeout_secs, poll_secs } => {
                    &&& record.volume_id == Some(volume_id)
                    &&& timeout_secs == plan.timeouts.cleanup_timeout_seconds
                    &&& poll_secs == plan.timeouts.cleanup_poll_interval_seconds
                },
                CallView::VerifyPublicIpDeleted { ip_id, timeout_secs, poll_secs } => {
                    &&& record.public_ip_id == Some(ip_id)
                    &&& timeout_secs == plan.timeouts.cleanup_timeout_seconds
                    &&& poll_secs == plan.timeouts.cleanup_poll_interval_seconds
                },
                CallView::GetServer { server_id } => record.instance_id == Some(server_id),
                CallView::GetVolume { volume_id } => record.volume_id == Some(volume_id),
                CallView::GetPublicIp { ip_id } => record.public_ip_id == Some(ip_id),
                CallView::GetSnapshot { snapshot_id } => snapshot_id == plan.snapshot_id,
                CallView::PowerOn { server_id } => record.instance_id == Some(server_id),
                CallView::PowerOff { server_id } => record.instance_id == Some(server_id),
                CallView::AllocateIp { attempt_id } => attempt_id == record.attempt_id,
                CallView::AttachIp { ip_id, .. } => record.public_ip_id == Some(ip_id),
                CallView::DeleteInstance { server_id, snapshot_id } => {
                    record.instance_id == Some(server_id) && snapshot_id == plan.snapshot_id
                },
                CallView::DeleteVolume { volume_id, snapshot_id } => {
                    record.volume_id == Some(volume_id) && snapshot_id == plan.snapshot_id
                },
                CallView::DeletePublicIp { ip_id, snapshot_id } => {
                    record.public_ip_id == Some(ip_id) && snapshot_id == plan.snapshot_id
                },
                _ => true,
            }
        }),
{
    lemma_planned(plan, state, identity, steps);
    lemma_sound(plan, state, identity, steps);
    let now = after_all(EnsureView::begun(plan, state, identity), steps);
    match now.phase {
        EnsurePhaseView::Attempting { next, .. } => {
            assert(plan.candidates.contains(plan.candidates[next]));
        },
        _ => {},
    }
}

// ---------------------------------------------------------------- the course of it

/// The start of a session with a record that holds nothing: the account and the snapshot are
/// checked, then the first GPU type is looked at. Where it goes with the snapshot, an attempt is
/// opened in the record under an identifier of its own, and the user is told.
#[verifier::rlimit(50)]
pub proof fn lemma_fresh_course(
    plan: PlanView,
    state: StateView,
    first: Identity,
    second: Identity,
    snapshot: Snapshot,
    products: ServerTypesResponse,
    any: Result<(), AppError>,
)
    requires
        state.tracks_nothing(),
        state.version >= 4,
        plan.candidates.len() > 0,
        compatibility::objection(plan.zone, plan.candidates[0], snapshot.size, products) is None,
    ensures
        ({
            let good = Reply::Done(Ok::<(), AppError>(()));
            let gpu_type = plan.candidates[0];
            let e0 = EnsureView::begun(plan, state, first);
            let e1 = e0.after(good, first);
            let e2 = e1.after(Reply::Snapshot(Ok::<Snapshot, AppError>(snapshot)), first);
            let e3 = e2.after(Reply::Done(any), first);
            let e4 = e3.after(
                Reply::Products(Ok::<ServerTypesResponse, AppError>(products)),
                second,
            );
            let e5 = e4.after(good, first);
            let e6 = e5.after(Reply::Done(any), first);
            &&& e0.pending() == Some(CallView::ValidateAuth)
            &&& e1.pending() == Some(CallView::GetSnapshot { snapshot_id: plan.snapshot_id })
            &&& e2.pending() == Some(
                CallView::Report {
                    percent: 15,
                    message: "Checking compatibility for "@ + gpu_type + "..."@,
                },
            )
            &&& e3.pending() == Some(CallView::ListProducts)
            &&& e3.record() == state
            &&& e4.pending() == Some(CallView::SaveState)
            &&& e4.record().selected_gpu_type == gpu_type
            &&& e4.record().attempted_gpu_types == state.attempted_gpu_types.push(gpu_type)
            &&& e4.record().attempt_id == second.attempt_id@
            &&& e4.record().tracks_nothing()
            &&& e5.pending() == Some(
                CallView::Report { percent: 20, message: "Provisioning "@ + gpu_type + "..."@ },
            )
            &&& e6.pending() == Some(CallView::SaveState)
            &&& e6.record() == (StateView {
                phase: ProvisioningPhase::CreatingInstance,
                ..e4.record()
            })
        }),
{
    reveal(PlanView::after);
    let good = Reply::Done(Ok::<(), AppError>(()));
    let e0 = EnsureView::begun(plan, state, first);
    assert(e0.phase == EnsurePhaseView::Authenticating { state });
    let e1 = e0.after(good, first);
    assert(e1.phase == EnsurePhaseView::CheckingSnapshot { state });
    let e2 = e1.after(Reply::Snapshot(Ok::<Snapshot, AppError>(snapshot)), first);
    assert(e2.phase == EnsurePhaseView::ReportingCheck { state, size: snapshot.size, next: 0 });
    let e3 = e2.after(Reply::Done(any), first);
    assert(e3.phase == EnsurePhaseView::ListingProducts { state, size: snapshot.size, next: 0 });
    let e4 = e3.after(Reply::Products(Ok::<ServerTypesResponse, AppError>(products)), second);
    assert(e4.phase is SavingAttempt);
    let e5 = e4.after(good, first);
    assert(e5.phase is ReportingAttempt);
}

/// The end of a session that succeeds: the record says that everything is up and is saved, the user
/// is told, and the address is the result.
pub proof fn lemma_success_course(
    run: EnsureView,
    reply: Reply,
    ip: Seq<char>,
    identity: Identity,
    any: Result<(), AppError>,
)
    requires
        run.phase is Attempting,
        run.phase->Attempting_run.after(reply).result == Some(Ok::<Seq<char>, AppErrorView>(ip)),
    ensures
        ({
            let e1 = run.after(reply, identity);
            let e2 = e1.after(Reply::Done(Ok::<(), AppError>(())), identity);
            let e3 = e2.after(Reply::Done(any), identity);
            &&& e1.pending() == Some(CallView::SaveState)
            &&& e1.record() == (StateView {
                phase: ProvisioningPhase::Ready,
                ..run.phase->Attempting_run.after(reply).state
            })
            &&& e2.pending() == Some(
                CallView::Report {
                    percent: 100,
                    message: "Successfully provisioned GPU instance."@,
                },
            )
            &&& e3.pending() is None
            &&& e3.phase == EnsurePhaseView::Done {
                state: e1.record(),
                result: Ok::<Seq<char>, AppErrorView>(ip),
            }
        }),
{
    reveal(PlanView::after);
}

/// Whether an error speaks against the GPU type alone: there is none left, its volume does not come
/// from the snapshot, or the model does not run on it.
pub open spec fn against_the_gpu_type(e: AppErrorView) -> bool {
    match e {
        AppErrorView::OutOfStock { .. } => true,
        AppErrorView::IncompatibleVolume { .. } => true,
        AppErrorView::GuestRuntimeIncompatible { .. } => true,
        _ => false,
    }
}

/// An attempt that fails is removed: the user is told, and the removal of what its record holds
/// begins.
pub proof fn lemma_failure_course(
    run: EnsureView,
    reply: Reply,
    cause: AppErrorView,
    identity: Identity,
    any: Result<(), AppError>,
)
    requires
        run.phase is Attempting,
        run.phase->Attempting_run.after(reply).result == Some(Err::<Seq<char>, AppErrorView>(cause)),
        !run.phase->Attempting_run.after(reply).state.tracks(run.plan.snapshot_id),
    ensures
        ({
            let failed = run.phase->Attempting_run.after(reply).state;
            let e1 = run.after(reply, identity);
            let e2 = e1.after(Reply::Done(any), identity);
            &&& e1.pending() matches Some(CallView::Report { percent, message }) && percent == 85
                && message == if against_the_gpu_type(cause) {
                "Cleaning up failed attempt for "@ + run.plan.candidates[run.phase->Attempting_next]
                    + "..."@
            } else {
                "Cleaning up and stopping due to hard error..."@
            }
            &&& e2.pending() == Some(CallView::SaveState)
            &&& e2.record() == (StateView { phase: ProvisioningPhase::CleaningUp, ..failed })
            &&& e2.phase matches EnsurePhaseView::CleaningAttempt {
                run: cleanup,
                next,
                cause: kept,
                ..
            } && kept == cause && next == run.phase->Attempting_next && cleanup.snapshot_id
                == run.plan.snapshot_id
        }),
{
    reveal(PlanView::after);
}

/// When a failed attempt is removed, the next GPU type is looked at where what went wrong spoke
/// against the last one alone, with a new record; where there is none left, that is the result;
/// and anything else that went wrong is the result at once.
pub proof fn lemma_course_behind_a_removal(
    run: EnsureView,
    reply: Reply,
    identity: Identity,
    other: Identity,
)
    requires
        run.wf(),
        run.phase is CleaningAttempt,
        run.phase->CleaningAttempt_run.after(reply).over(),
        run.phase->CleaningAttempt_run.after(reply).verdict() is Ok,
    ensures
        ({
            let cause = run.phase->CleaningAttempt_cause;
            let now = run.phase->CleaningAttempt_next;
            let e1 = run.after(reply, identity);
            let e2 = e1.after(Reply::Done(Ok::<(), AppError>(())), other);
            if against_the_gpu_type(cause) {
                &&& e1.pending() == Some(CallView::SaveState)
                &&& e1.record().tracks_nothing()
                &&& e1.record().attempt_id == identity.attempt_id@
                &&& e1.record().snapshot_id == run.plan.snapshot_id
                &&& e1.record().zone == run.plan.record_zone
                &&& if now + 1 < run.plan.candidates.len() {
                    e2.pending() == Some(
                        CallView::Report {
                            percent: 15,
                            message: "Checking compatibility for "@ + run.plan.candidates[now + 1]
                                + "..."@,
                        },
                    )
                } else {
                    e2.phase matches EnsurePhaseView::Done { result, .. } && result == Err::<
                        Seq<char>,
                        AppErrorView,
                    >(
                        AppErrorView::NoCompatibleGpuAvailable {
                            zone: run.plan.zone,
                            attempted: run.plan.candidates,
                        },
                    )
                }
            } else {
                e1.phase matches EnsurePhaseView::Done { result, .. } && result == Err::<
                    Seq<char>,
                    AppErrorView,
                >(cause)
            }
        }),
{
    reveal(PlanView::after);
}

/// A GPU type that does not go with the snapshot is passed over without anything being made: the
/// next one is looked at, or there is none left.
pub proof fn lemma_what_does_not_fit_is_passed_over(
    run: EnsureView,
    products: ServerTypesResponse,
    identity: Identity,
)
    requires
        run.phase is ListingProducts,
        compatibility::objection(
            run.plan.zone,
            run.plan.candidates[run.phase->ListingProducts_next],
            run.phase->ListingProducts_size,
            products,
        ) is Some,
    ensures
        ({
            let now = run.phase->ListingProducts_next;
            let next = run.after(
                Reply::Products(Ok::<ServerTypesResponse, AppError>(products)),
                identity,
            );
            &&& next.record() == run.record()
            &&& if now + 1 < run.plan.candidates.len() {
                next.pending() == Some(
                    CallView::Report {
                        percent: 15,
                        message: "Checking compatibility for "@ + run.plan.candidates[now + 1]
                            + "..."@,
                    },
                )
            } else {
                next.phase matches EnsurePhaseView::Done { result, .. } && result == Err::<
                    Seq<char>,
                    AppErrorView,
                >(
                    AppErrorView::NoCompatibleGpuAvailable {
                        zone: run.plan.zone,
                        attempted: run.plan.candidates,
                    },
                )
            }
        }),
{
    reveal(PlanView::after);
}

/// The course of a session that is taken on: the instance and the address of a record that says
/// that everything is up are looked at, the user is told, and the address in the record is the
/// result. Nothing is made and nothing removed.
#[verifier::rlimit(50)]
pub proof fn lemma_resumed_course(
    plan: PlanView,
    state: StateView,
    identity: Identity,
    instance: Seq<char>,
    ip_id: Seq<char>,
    address: Seq<char>,
    server: Server,
    ip: InstanceIp,
    any: Result<(), AppError>,
)
    requires
        state.version >= 4,
        state.phase is Ready,
        state.instance_id == Some(instance),
        state.public_ip_id == Some(ip_id),
        state.public_ip_address == Some(address),
        state.volume_id is Some,
        server.state@ == "running"@,
        ip.server is None || ip.server->0.id@ == server.id@,
    ensures
        ({
            let e0 = EnsureView::begun(plan, state, identity);
            let e1 = e0.after(Reply::Server(Ok::<Server, AppError>(server)), identity);
            let e2 = e1.after(Reply::Ip(Ok::<InstanceIp, AppError>(ip)), identity);
            let e3 = e2.after(Reply::Done(any), identity);
            &&& e0.pending() == Some(CallView::GetServer { server_id: instance })
            &&& e1.pending() == Some(CallView::GetPublicIp { ip_id })
            &&& e2.pending() == Some(
                CallView::Report { percent: 100, message: "Resumed existing running session."@ },
            )
            &&& e3.phase == EnsurePhaseView::Done {
                state,
                result: Ok::<Seq<char>, AppErrorView>(address),
            }
        }),
{
    reveal(PlanView::after);
    let e0 = EnsureView::begun(plan, state, identity);
    assert(e0.phase == EnsurePhaseView::Reconciling {
        state,
        found: ReconciliationView::QueryingServer,
    });
    let e1 = e0.after(Reply::Server(Ok::<Server, AppError>(server)), identity);
    assert(e1.phase is Reconciling);
    let e2 = e1.after(Reply::Ip(Ok::<InstanceIp, AppError>(ip)), identity);
    assert(e2.phase == EnsurePhaseView::ReportingResumed { state, ip: address });
}

/// An error at a step that nothing can be done without ends the session with that error: when the
/// account, the snapshot or the products are looked at, and when the record is written down for an
/// attempt or for its success. What was merely told to the user, and the writing down of what an
/// earlier run left, may fail without consequence.
pub proof fn lemma_errors_end_the_session(run: EnsureView, e: AppError, identity: Identity)
    ensures
        ({
            let plain = run.after(Reply::Done(Err::<(), AppError>(e)), identity);
            let snapshot = run.after(Reply::Snapshot(Err::<Snapshot, AppError>(e)), identity);
            let products = run.after(
                Reply::Products(Err::<ServerTypesResponse, AppError>(e)),
                identity,
            );
            let fine = run.after(Reply::Done(Ok::<(), AppError>(())), identity);
            let ended = EnsurePhaseView::Done {
                state: run.record(),
                result: Err::<Seq<char>, AppErrorView>(e@),
            };
            match run.phase {
                EnsurePhaseView::SavingReset { .. } => plain.phase == ended,
                EnsurePhaseView::Authenticating { .. } => plain.phase == ended,
                EnsurePhaseView::SavingAttempt { .. } => plain.phase == ended,
                EnsurePhaseView::SavingReady { .. } => plain.phase == ended,
                EnsurePhaseView::SavingNext { .. } => plain.phase == ended,
                EnsurePhaseView::CheckingSnapshot { .. } => snapshot.phase == ended,
                EnsurePhaseView::ListingProducts { .. } => products.phase == ended,
                EnsurePhaseView::SavingUpgrade { .. } => plain == fine,
                EnsurePhaseView::SavingAdopted { .. } => plain == fine,
                EnsurePhaseView::ReportingResumed { .. } => plain == fine,
                EnsurePhaseView::ReportingRecovery { .. } => plain == fine,
                EnsurePhaseView::ReportingCheck { .. } => plain == fine,
                EnsurePhaseView::ReportingAttempt { .. } => plain == fine,
                EnsurePhaseView::ReportingReady { .. } => plain == fine,
                EnsurePhaseView::ReportingFailure { .. } => plain == fine,
                _ => true,
            }
        }),
{
    reveal(PlanView::after);
}

/// A record of an older version is brought to the present one and written down before anything else:
/// it says that everything is up, keeps the GPU types it names, and where it names none gets the one
/// that there was.
pub proof fn lemma_old_records(plan: PlanView, state: StateView, identity: Identity)
    requires
        state.version < 4,
    ensures
        ({
            let start = EnsureView::begun(plan, state, identity);
            let current = start.record();
            &&& start.pending() == Some(CallView::SaveState)
            &&& current.version == 4
            &&& current.phase is Ready
            &&& current.creation_mode == Some("snapshot_direct"@)
            &&& state.attempt_id.len() > 0 ==> current.attempt_id == state.attempt_id
            &&& state.attempt_id.len() == 0 ==> current.attempt_id == identity.attempt_id@
            &&& state.selected_gpu_type.len() > 0 ==> current.selected_gpu_type
                == state.selected_gpu_type
            &&& state.selected_gpu_type.len() == 0 ==> current.selected_gpu_type == "L40S-1-48G"@
            &&& state.attempted_gpu_types.len() > 0 ==> current.attempted_gpu_types
                == state.attempted_gpu_types
            &&& state.attempted_gpu_types.len() == 0 ==> current.attempted_gpu_types
                == seq!["L40S-1-48G"@]
            &&& current.instance_id == state.instance_id
            &&& current.volume_id == state.volume_id
            &&& current.public_ip_id == state.public_ip_id
            &&& current.public_ip_address == state.public_ip_address
            &&& current.snapshot_id == state.snapshot_id
            &&& current.zone == state.zone
            &&& current.created_at == state.created_at
        }),
{
}

/// The start of a session with a record that holds something but no instance: the user is told, and
/// the removal of what the record holds begins.
#[verifier::rlimit(50)]
pub proof fn lemma_recovery_course(
    plan: PlanView,
    state: StateView,
    identity: Identity,
    any: Result<(), AppError>,
)
    requires
        state.version >= 4,
        state.instance_id is None,
        state.volume_id is Some || state.public_ip_id is Some,
        !state.tracks(plan.snapshot_id),
    ensures
        ({
            let e0 = EnsureView::begun(plan, state, identity);
            let e1 = e0.after(Reply::Done(any), identity);
            &&& e0.pending() == Some(
                CallView::Report {
                    percent: 10,
                    message: "Cleaning up incomplete session from previous run..."@,
                },
            )
            &&& e0.record() == state
            &&& e1.phase matches EnsurePhaseView::CleaningRecovery { run } && run.snapshot_id
                == plan.snapshot_id
            &&& e1.pending() == Some(CallView::SaveState)
            &&& e1.record() == (StateView { phase: ProvisioningPhase::CleaningUp, ..state })
        }),
{
    reveal(PlanView::after);
}

/// When what an earlier run left is removed, a new record is written down and the session begins as
/// one with a record that holds nothing; where it cannot be removed, that is the result.
pub proof fn lemma_course_behind_a_recovery(
    run: EnsureView,
    reply: Reply,
    identity: Identity,
    other: Identity,
)
    requires
        run.phase is CleaningRecovery,
        run.phase->CleaningRecovery_run.after(reply).over(),
    ensures
        ({
            let removal = run.phase->CleaningRecovery_run.after(reply);
            let e1 = run.after(reply, identity);
            let e2 = e1.after(Reply::Done(Ok::<(), AppError>(())), other);
            match removal.verdict() {
                Ok(_) => {
                    &&& e1.pending() == Some(CallView::SaveState)
                    &&& e1.record().tracks_nothing()
                    &&& e1.record().attempt_id == identity.attempt_id@
                    &&& e1.record().created_at == identity.created_at@
                    &&& e1.record().snapshot_id == run.plan.snapshot_id
                    &&& e1.record().zone == run.plan.record_zone
                    &&& e1.record().attempted_gpu_types.len() == 0
                    &&& e2.pending() == Some(CallView::ValidateAuth)
                    &&& e2.record() == e1.record()
                },
                Err(e) => e1.phase == EnsurePhaseView::Done {
                    state: removal.state,
                    result: Err::<Seq<char>, AppErrorView>(e),
                },
            }
        }),
{
    reveal(PlanView::after);
}

/// A session that is taken on, of which the record does not hold the boot volume, takes the volume
/// over from the instance and writes it down before it goes on.
#[verifier::rlimit(50)]
pub proof fn lemma_adopted_volume(
    plan: PlanView,
    state: StateView,
    identity: Identity,
    address: Seq<char>,
    volume: Seq<char>,
    server: Server,
    any: Result<(), AppError>,
)
    requires
        state.version >= 4,
        state.phase is Ready,
        state.instance_id is Some,
        state.public_ip_id is None,
        state.public_ip_address == Some(address),
        state.volume_id is None,
        server.state@ == "running"@,
        models::boot_volume_of(server) == Some(volume),
    ensures
        ({
            let e0 = EnsureView::begun(plan, state, identity);
            let e1 = e0.after(Reply::Server(Ok::<Server, AppError>(server)), identity);
            let e2 = e1.after(Reply::Done(any), identity);
            let e3 = e2.after(Reply::Done(any), identity);
            &&& e1.pending() == Some(CallView::SaveState)
            &&& e1.record() == (StateView { volume_id: Some(volume), ..state })
            &&& e2.pending() == Some(
                CallView::Report { percent: 100, message: "Resumed existing running session."@ },
            )
            &&& e3.phase == EnsurePhaseView::Done {
                state: e1.record(),
                result: Ok::<Seq<char>, AppErrorView>(address),
            }
        }),
{
    reveal(PlanView::after);
    let e0 = EnsureView::begun(plan, state, identity);
    assert(e0.phase is Reconciling);
    let e1 = e0.after(Reply::Server(Ok::<Server, AppError>(server)), identity);
    assert(e1.phase is SavingAdopted);
}

} // verus!
