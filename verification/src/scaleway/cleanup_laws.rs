//! What holds of every cleanup, whatever the replies.

use vstd::prelude::*;
#[allow(unused_imports)]
use vstd::string::*;

#[allow(unused_imports)]
use crate::error::{AppError, AppErrorView};
#[allow(unused_imports)]
use crate::error;
#[allow(unused_imports)]
use crate::outside;
#[allow(unused_imports)]
use crate::scaleway::calls::{CallView, Reply};
#[allow(unused_imports)]
use crate::scaleway::cleanup::{CleanupReport, CleanupStage, CleanupView};
#[allow(unused_imports)]
use crate::scaleway::client::ScalewayClient;
#[allow(unused_imports)]
use crate::scaleway::client;
#[allow(unused_imports)]
use crate::scaleway::operations::{Answer, Settled};
#[allow(unused_imports)]
use crate::scaleway::operations;
#[allow(unused_imports)]
use crate::scaleway::cleanup;
#[allow(unused_imports)]
use crate::scaleway::models::Snapshot;
#[allow(unused_imports)]
use crate::scaleway::request_laws;
#[allow(unused_imports)]
use crate::state::{ProvisioningPhase, StateView};
#[allow(unused_imports)]
use crate::text;
#[allow(unused_imports)]
use crate::text_laws;

verus! {

/// A cleanup after some replies.
pub open spec fn after_all(run: CleanupView, replies: Seq<Reply>) -> CleanupView
    decreases replies.len(),
{
    if replies.len() == 0 {
        run
    } else {
        after_all(run, replies.drop_last()).after(replies.last())
    }
}

/// How many stages lie ahead at most.
pub open spec fn stages_ahead(stage: CleanupStage) -> nat {
    match stage {
        CleanupStage::Refused => 0,
        CleanupStage::SavingPhase => 15,
        CleanupStage::PoweringOff => 14,
        CleanupStage::AwaitingStop => 13,
        CleanupStage::DeletingInstance => 12,
        CleanupStage::VerifyingInstance => 11,
        CleanupStage::SavingInstance => 10,
        CleanupStage::DeletingVolume => 9,
        CleanupStage::VerifyingVolume => 8,
        CleanupStage::SavingVolume => 7,
        CleanupStage::DeletingIp => 6,
        CleanupStage::VerifyingIp => 5,
        CleanupStage::SavingIp => 4,
        CleanupStage::CheckingSnapshot => 3,
        CleanupStage::RemovingState => 2,
        CleanupStage::SavingIncomplete => 2,
        CleanupStage::Finished => 0,
    }
}

/// Whether the instance is dealt with.
pub open spec fn past_instance(stage: CleanupStage) -> bool {
    stages_ahead(stage) <= 10
}

/// Whether the volume is dealt with.
pub open spec fn past_volume(stage: CleanupStage) -> bool {
    stages_ahead(stage) <= 7
}

/// Whether the public address is dealt with.
pub open spec fn past_ip(stage: CleanupStage) -> bool {
    stages_ahead(stage) <= 4
}

/// Whether the snapshot is dealt with.
pub open spec fn past_snapshot(stage: CleanupStage) -> bool {
    stages_ahead(stage) <= 2
}

/// What every cleanup keeps to.
pub open spec fn sound(run: CleanupView) -> bool {
    let s = run.state;
    let r = run.report;
    &&& run.stage is Refused ==> s.tracks(run.snapshot_id)
    &&& !(run.stage is Refused) ==> {
        &&& !s.tracks(run.snapshot_id)
        &&& s.phase == if run.stage is SavingIncomplete || (run.stage is Finished && run.failed) {
            ProvisioningPhase::CleanupIncomplete
        } else {
            ProvisioningPhase::CleaningUp
        }
        // what is being dealt with is there
        &&& 11 <= stages_ahead(run.stage) <= 14 ==> s.instance_id is Some
        &&& 8 <= stages_ahead(run.stage) <= 9 ==> s.volume_id is Some
        &&& 5 <= stages_ahead(run.stage) <= 6 ==> s.public_ip_id is Some
        // the report says of what is dealt with whether it is gone
        &&& past_instance(run.stage) ==> r.instance_deleted == s.instance_id is None
        &&& past_volume(run.stage) ==> r.volume_deleted == s.volume_id is None
        &&& past_ip(run.stage) ==> r.ip_deleted == s.public_ip_id is None
        &&& !past_instance(run.stage) ==> !r.instance_deleted
        &&& !past_volume(run.stage) ==> !r.volume_deleted
        &&& !past_ip(run.stage) ==> !r.ip_deleted
        &&& !past_snapshot(run.stage) ==> !r.snapshot_preserved
        &&& run.failed == {
            ||| past_instance(run.stage) && !r.instance_deleted
            ||| past_volume(run.stage) && !r.volume_deleted
            ||| past_ip(run.stage) && !r.ip_deleted
            ||| past_snapshot(run.stage) && !r.snapshot_preserved
        }
        &&& run.stage is RemovingState ==> !run.failed
        &&& run.stage is SavingIncomplete ==> run.failed
    }
}

proof fn lemma_sound_start(state: StateView, snapshot_id: Seq<char>, timeout: u64, poll: u64)
    ensures
        sound(CleanupView::begun(state, snapshot_id, timeout, poll)),
{
}

/// A cleanup that is sound stays so.
pub proof fn lemma_sound_step(run: CleanupView, reply: Reply)
    requires
        sound(run),
    ensures
        sound(run.after(reply)),
        run.after(reply).snapshot_id == run.snapshot_id,
{
}

/// Every cleanup is sound, whatever the replies.
pub proof fn lemma_sound(
    state: StateView,
    snapshot_id: Seq<char>,
    timeout: u64,
    poll: u64,
    replies: Seq<Reply>,
)
    ensures
        sound(after_all(CleanupView::begun(state, snapshot_id, timeout, poll), replies)),
        after_all(CleanupView::begun(state, snapshot_id, timeout, poll), replies).snapshot_id
            == snapshot_id,
    decreases replies.len(),
{
    let start = CleanupView::begun(state, snapshot_id, timeout, poll);
    lemma_sound_start(state, snapshot_id, timeout, poll);
    if replies.len() > 0 {
        lemma_sound(state, snapshot_id, timeout, poll, replies.drop_last());
        lemma_sound_step(after_all(start, replies.drop_last()), replies.last());
    }
}

/// No cleanup ever asks for the snapshot to be switched off or removed.
pub proof fn lemma_snapshot_is_safe(
    state: StateView,
    snapshot_id: Seq<char>,
    timeout: u64,
    poll: u64,
    replies: Seq<Reply>,
)
    ensures
        after_all(
            CleanupView::begun(state, snapshot_id, timeout, poll),
            replies,
        ).pending() matches Some(call) ==> call.destroys() != Some(snapshot_id),
{
    lemma_sound(state, snapshot_id, timeout, poll, replies);
}

/// A record that names the snapshot is refused before anything is asked for, and stays as it is.
pub proof fn lemma_snapshot_is_refused(
    state: StateView,
    snapshot_id: Seq<char>,
    timeout: u64,
    poll: u64,
    replies: Seq<Reply>,
)
    requires
        state.tracks(snapshot_id),
    ensures
        ({
            let run = after_all(CleanupView::begun(state, snapshot_id, timeout, poll), replies);
            run.over() && run.pending() is None && run.state == state && run.verdict() is Err
        }),
    decreases replies.len(),
{
    if replies.len() > 0 {
        lemma_snapshot_is_refused(state, snapshot_id, timeout, poll, replies.drop_last());
    }
}

/// A cleanup that succeeds leaves nothing behind but the snapshot.
pub proof fn lemma_success_is_clean(
    state: StateView,
    snapshot_id: Seq<char>,
    timeout: u64,
    poll: u64,
    replies: Seq<Reply>,
)
    ensures
        ({
            let run = after_all(CleanupView::begun(state, snapshot_id, timeout, poll), replies);
            run.over() && run.verdict() is Ok ==> {
                &&& run.state.tracks_nothing()
                &&& run.report.instance_deleted
                &&& run.report.volume_deleted
                &&& run.report.ip_deleted
                &&& run.report.snapshot_preserved
            }
        }),
{
    lemma_sound(state, snapshot_id, timeout, poll, replies);
}

/// The record is removed only when it holds nothing any more and the snapshot was seen.
pub proof fn lemma_record_goes_last(
    state: StateView,
    snapshot_id: Seq<char>,
    timeout: u64,
    poll: u64,
    replies: Seq<Reply>,
)
    ensures
        ({
            let run = after_all(CleanupView::begun(state, snapshot_id, timeout, poll), replies);
            run.pending() == Some(CallView::RemoveState) ==> run.state.tracks_nothing()
                && run.report.snapshot_preserved
        }),
{
    lemma_sound(state, snapshot_id, timeout, poll, replies);
}

/// A cleanup that fails says so in the record, and has something left or has not seen the
/// snapshot.
pub proof fn lemma_failure_is_recorded(
    state: StateView,
    snapshot_id: Seq<char>,
    timeout: u64,
    poll: u64,
    replies: Seq<Reply>,
)
    requires
        !state.tracks(snapshot_id),
    ensures
        ({
            let run = after_all(CleanupView::begun(state, snapshot_id, timeout, poll), replies);
            run.over() && run.verdict() is Err ==> {
                &&& run.state.phase == ProvisioningPhase::CleanupIncomplete
                &&& !run.state.tracks_nothing() || !run.report.snapshot_preserved
            }
        }),
    decreases replies.len(),
{
    lemma_sound(state, snapshot_id, timeout, poll, replies);
    lemma_not_refused(state, snapshot_id, timeout, poll, replies);
}

proof fn lemma_not_refused(
    state: StateView,
    snapshot_id: Seq<char>,
    timeout: u64,
    poll: u64,
    replies: Seq<Reply>,
)
    requires
        !state.tracks(snapshot_id),
    ensures
        !(after_all(
            CleanupView::begun(state, snapshot_id, timeout, poll),
            replies,
        ).stage is Refused),
    decreases replies.len(),
{
    if replies.len() > 0 {
        lemma_not_refused(state, snapshot_id, timeout, poll, replies.drop_last());
    }
}

/// Whether a reply says that what was asked to be removed is gone: the removal shows, or there is
/// nothing to remove.
pub open spec fn says_gone(stage: CleanupStage, reply: Reply) -> bool {
    match reply {
        Reply::Done(Ok(_)) => {
            stage is VerifyingInstance || stage is VerifyingVolume || stage is VerifyingIp
        },
        Reply::Done(Err(e)) => {
            (stage is DeletingInstance || stage is DeletingVolume || stage is DeletingIp)
                && error::says_not_found(e@)
        },
        _ => false,
    }
}

/// A cleanup forgets a resource only on a reply that says that it is gone; it never takes on
/// another, and leaves the rest of the record alone.
pub proof fn lemma_forgets_only_what_is_gone(run: CleanupView, reply: Reply)
    ensures
        ({
            let next = run.after(reply);
            &&& next.state.instance_id == run.state.instance_id || (next.state.instance_id is None
                && says_gone(run.stage, reply))
            &&& next.state.volume_id == run.state.volume_id || (next.state.volume_id is None
                && says_gone(run.stage, reply))
            &&& next.state.public_ip_id == run.state.public_ip_id || (
            next.state.public_ip_id is None && says_gone(run.stage, reply))
            &&& next.state.attempt_id == run.state.attempt_id
            &&& next.state.snapshot_id == run.state.snapshot_id
            &&& next.state.zone == run.state.zone
            &&& next.state.attempted_gpu_types == run.state.attempted_gpu_types
        }),
{
}

/// Whether a cleanup asks for something to be removed, or whether it is gone.
pub open spec fn removing(stage: CleanupStage) -> bool {
    ||| stage is DeletingInstance
    ||| stage is VerifyingInstance
    ||| stage is DeletingVolume
    ||| stage is VerifyingVolume
    ||| stage is DeletingIp
    ||| stage is VerifyingIp
}

/// A removal that the API refuses with another status than 404 is never taken for done, whatever
/// the identifier and whatever the refusal says: a refused removal is repeated or fails, a refused
/// look is repeated, and the record keeps the resource.
pub proof fn lemma_refused_removal_is_kept(
    api: ScalewayClient,
    run: CleanupView,
    status: u16,
    body: Seq<char>,
    attempts: u32,
    answer: Answer,
    settled: Settled,
)
    requires
        sound(run),
        removing(run.stage),
        status != 404,
        operations::plain_error(answer) == Some(client::refusal(status, body)),
        operations::settles(api, run.pending()->0, attempts, answer, settled),
    ensures
        settled matches Settled::Reply(reply) ==> {
            let next = run.after(reply);
            &&& reply matches Reply::Done(Err(e)) && e@ is CleanupIncomplete
            &&& next.failed
            &&& next.state == run.state || next.stage is SavingIncomplete
            &&& next.state.instance_id == run.state.instance_id
            &&& next.state.volume_id == run.state.volume_id
            &&& next.state.public_ip_id == run.state.public_ip_id
        },
{
    client::lemma_status_says_not_found(status, body);
}

/// Each reply that answers what is asked for brings a cleanup closer to its end.
pub proof fn lemma_each_reply_counts(run: CleanupView, reply: Reply)
    requires
        sound(run),
        run.pending() is Some,
        reply.answers(run.pending()->0),
    ensures
        stages_ahead(run.after(reply).stage) < stages_ahead(run.stage),
{
}

/// A cleanup asks for something exactly as long as it is not over.
pub proof fn lemma_asks_until_over(
    state: StateView,
    snapshot_id: Seq<char>,
    timeout: u64,
    poll: u64,
    replies: Seq<Reply>,
)
    ensures
        ({
            let run = after_all(CleanupView::begun(state, snapshot_id, timeout, poll), replies);
            run.pending() is None <==> run.over()
        }),
{
    lemma_sound(state, snapshot_id, timeout, poll, replies);
}

/// What a cleanup asks for concerns what the record holds and nothing else: a server that is
/// switched off gets two minutes and is looked at every five seconds; whether something is gone is
/// asked for as long, and as often, as the cleanup was begun with; a removal names the snapshot that
/// must stay.
pub proof fn lemma_each_call_concerns_the_record(
    state: StateView,
    snapshot_id: Seq<char>,
    timeout: u64,
    poll: u64,
    replies: Seq<Reply>,
)
    ensures
        ({
            let now = after_all(CleanupView::begun(state, snapshot_id, timeout, poll), replies);
            now.pending() matches Some(call) ==> match call {
                CallView::PowerOff { server_id } => now.state.instance_id == Some(server_id),
                CallView::WaitStopped { server_id, timeout_secs, poll_secs } => {
                    now.state.instance_id == Some(server_id) && timeout_secs == 120 && poll_secs
                        == 5
                },
                CallView::DeleteInstance { server_id, snapshot_id: kept } => {
                    now.state.instance_id == Some(server_id) && kept == snapshot_id
                },
                CallView::VerifyInstanceDeleted { server_id, timeout_secs, poll_secs } => {
                    now.state.instance_id == Some(server_id) && timeout_secs == timeout
                        && poll_secs == poll
                },
                CallView::DeleteVolume { volume_id, snapshot_id: kept } => {
                    now.state.volume_id == Some(volume_id) && kept == snapshot_id
                },
                CallView::VerifyVolumeDeleted { volume_id, timeout_secs, poll_secs } => {
                    now.state.volume_id == Some(volume_id) && timeout_secs == timeout
                        && poll_secs == poll
                },
                CallView::DeletePublicIp { ip_id, snapshot_id: kept } => {
                    now.state.public_ip_id == Some(ip_id) && kept == snapshot_id
                },
                CallView::VerifyPublicIpDeleted { ip_id, timeout_secs, poll_secs } => {
                    now.state.public_ip_id == Some(ip_id) && timeout_secs == timeout && poll_secs
                        == poll
                },
                CallView::GetSnapshot { snapshot_id: looked_at } => looked_at == snapshot_id,
                CallView::SaveState => true,
                CallView::RemoveState => true,
                _ => false,
            }
        }),
        after_all(CleanupView::begun(state, snapshot_id, timeout, poll), replies).timeout_secs
            == timeout,
        after_all(CleanupView::begun(state, snapshot_id, timeout, poll), replies).poll_secs == poll,
    decreases replies.len(),
{
    lemma_sound(state, snapshot_id, timeout, poll, replies);
    if replies.len() > 0 {
        lemma_each_call_concerns_the_record(
            state,
            snapshot_id,
            timeout,
            poll,
            replies.drop_last(),
        );
    }
}

/// A look that the API answers with the status 404, made while there is time, shows that something
/// is gone: the record forgets it, and is saved at once.
pub proof fn lemma_what_is_gone_is_forgotten(
    api: ScalewayClient,
    state: StateView,
    snapshot_id: Seq<char>,
    timeout: u64,
    poll: u64,
    replies: Seq<Reply>,
    elapsed_nanos: u128,
    attempts: u32,
    body: Seq<char>,
    answer: Answer,
    settled: Settled,
)
    requires
        elapsed_nanos <= 1_000_000_000 * timeout,
        operations::plain_error(answer) == Some(client::refusal(404, body)),
        ({
            let now = after_all(CleanupView::begun(state, snapshot_id, timeout, poll), replies);
            &&& now.pending() is Some
            &&& now.pending()->0 is VerifyInstanceDeleted || now.pending()->0 is VerifyVolumeDeleted
                || now.pending()->0 is VerifyPublicIpDeleted
            &&& operations::settles(api, now.pending()->0, attempts, answer, settled)
        }),
    ensures
        ({
            let now = after_all(CleanupView::begun(state, snapshot_id, timeout, poll), replies);
            let call = now.pending()->0;
            &&& operations::next_request(
                api.zone@,
                api.project_id@,
                call,
                elapsed_nanos,
            ) matches Some(Ok(request)) && request.method is Get
            &&& settled matches Settled::Reply(reply) && {
                let next = now.after(reply);
                &&& next.pending() == Some(CallView::SaveState)
                &&& call is VerifyInstanceDeleted ==> next.state.instance_id is None
                    && next.report.instance_deleted
                &&& call is VerifyVolumeDeleted ==> next.state.volume_id is None
                    && next.report.volume_deleted
                &&& call is VerifyPublicIpDeleted ==> next.state.public_ip_id is None
                    && next.state.public_ip_address is None && next.report.ip_deleted
                &&& next.failed == now.failed
            }
        }),
{
    let now = after_all(CleanupView::begun(state, snapshot_id, timeout, poll), replies);
    client::lemma_status_says_not_found(404, body);
    lemma_each_call_concerns_the_record(state, snapshot_id, timeout, poll, replies);
    lemma_sound(state, snapshot_id, timeout, poll, replies);
    match now.pending()->0 {
        CallView::VerifyInstanceDeleted { server_id, timeout_secs, poll_secs } => {
            request_laws::lemma_waits(
                api.zone@,
                api.project_id@,
                server_id,
                timeout_secs,
                poll_secs,
                elapsed_nanos,
            );
        },
        CallView::VerifyVolumeDeleted { volume_id, timeout_secs, poll_secs } => {
            request_laws::lemma_waits(
                api.zone@,
                api.project_id@,
                volume_id,
                timeout_secs,
                poll_secs,
                elapsed_nanos,
            );
        },
        CallView::VerifyPublicIpDeleted { ip_id, timeout_secs, poll_secs } => {
            request_laws::lemma_waits(
                api.zone@,
                api.project_id@,
                ip_id,
                timeout_secs,
                poll_secs,
                elapsed_nanos,
            );
        },
        _ => {},
    }
}

/// The course of a cleanup in which everything is there and everything goes well: the record is
/// saved; the instance is switched off, waited for, removed and seen to be gone, and the record
/// saved; then the volume; then the public address; then the snapshot is looked at and the record
/// removed. Whether the record can be saved, and whether the instance can be switched off, makes no
/// difference.
pub proof fn lemma_course(
    state: StateView,
    snapshot_id: Seq<char>,
    timeout: u64,
    poll: u64,
    instance: Seq<char>,
    volume: Seq<char>,
    ip: Seq<char>,
    any: Result<(), AppError>,
    snapshot: Snapshot,
)
    requires
        state.instance_id == Some(instance),
        state.volume_id == Some(volume),
        state.public_ip_id == Some(ip),
        !state.tracks(snapshot_id),
    ensures
        ({
            let whatever = Reply::Done(any);
            let good = Reply::Done(Ok::<(), AppError>(()));
            let c0 = CleanupView::begun(state, snapshot_id, timeout, poll);
            let c1 = c0.after(whatever);
            let c2 = c1.after(whatever);
            let c3 = c2.after(whatever);
            let c4 = c3.after(good);
            let c5 = c4.after(good);
            let c6 = c5.after(whatever);
            let c7 = c6.after(good);
            let c8 = c7.after(good);
            let c9 = c8.after(whatever);
            let c10 = c9.after(good);
            let c11 = c10.after(good);
            let c12 = c11.after(whatever);
            let c13 = c12.after(Reply::Snapshot(Ok::<Snapshot, AppError>(snapshot)));
            let c14 = c13.after(whatever);
            &&& c0.pending() == Some(CallView::SaveState)
            &&& c0.state.phase == ProvisioningPhase::CleaningUp
            &&& c1.pending() == Some(CallView::PowerOff { server_id: instance })
            &&& c2.pending() == Some(
                CallView::WaitStopped { server_id: instance, timeout_secs: 120, poll_secs: 5 },
            )
            &&& c3.pending() == Some(CallView::DeleteInstance { server_id: instance, snapshot_id })
            &&& c4.pending() == Some(
                CallView::VerifyInstanceDeleted {
                    server_id: instance,
                    timeout_secs: timeout,
                    poll_secs: poll,
                },
            )
            &&& c5.pending() == Some(CallView::SaveState) && c5.state.instance_id is None
            &&& c6.pending() == Some(CallView::DeleteVolume { volume_id: volume, snapshot_id })
            &&& c7.pending() == Some(
                CallView::VerifyVolumeDeleted {
                    volume_id: volume,
                    timeout_secs: timeout,
                    poll_secs: poll,
                },
            )
            &&& c8.pending() == Some(CallView::SaveState) && c8.state.volume_id is None
            &&& c9.pending() == Some(CallView::DeletePublicIp { ip_id: ip, snapshot_id })
            &&& c10.pending() == Some(
                CallView::VerifyPublicIpDeleted {
                    ip_id: ip,
                    timeout_secs: timeout,
                    poll_secs: poll,
                },
            )
            &&& c11.pending() == Some(CallView::SaveState) && c11.state.public_ip_id is None
            &&& c12.pending() == Some(CallView::GetSnapshot { snapshot_id })
            &&& c13.pending() == Some(CallView::RemoveState)
            &&& c14.pending() is None
            &&& c14.over()
            &&& c14.verdict() matches Ok(report) && report.instance_deleted
                && report.volume_deleted && report.ip_deleted && report.snapshot_preserved
        }),
{
}

/// What a cleanup asks for next of what is left: the volume, the public address, or the snapshot.
pub open spec fn turns_to(
    run: CleanupView,
    volume: Option<Seq<char>>,
    ip: Option<Seq<char>>,
) -> bool {
    run.pending() == match (volume, ip) {
        (Some(volume_id), _) => Some(
            CallView::DeleteVolume { volume_id, snapshot_id: run.snapshot_id },
        ),
        (None, Some(ip_id)) => Some(
            CallView::DeletePublicIp { ip_id, snapshot_id: run.snapshot_id },
        ),
        (None, None) => Some(CallView::GetSnapshot { snapshot_id: run.snapshot_id }),
    }
}

/// What cannot be removed does not keep the rest from being removed: the cleanup goes on with what
/// is left, and fails in the end with the record in the phase that says so.
pub proof fn lemma_failure_does_not_stop_the_rest(run: CleanupView, e: AppError)
    requires
        sound(run),
        removing(run.stage),
        !error::says_not_found(e@),
    ensures
        ({
            let next = run.after(Reply::Done(Err::<(), AppError>(e)));
            &&& next.failed
            &&& next.state == run.state
            &&& run.stage is DeletingInstance || run.stage is VerifyingInstance ==> turns_to(
                next,
                run.state.volume_id,
                run.state.public_ip_id,
            )
            &&& run.stage is DeletingVolume || run.stage is VerifyingVolume ==> turns_to(
                next,
                None,
                run.state.public_ip_id,
            )
            &&& run.stage is DeletingIp || run.stage is VerifyingIp ==> turns_to(next, None, None)
        }),
{
}

/// A cleanup that goes wrong says which resources are left: each of them by its identifier.
pub proof fn lemma_failure_names_what_is_left(state: StateView, id: Seq<char>)
    ensures
        ({
            let words = cleanup::what_remains(state);
            let shown = "Some("@ + outside::quoted(id) + ")"@;
            &&& state.instance_id == Some(id) ==> text::holds_text(
                words,
                "Cleanup incomplete. State file retained. Existing resources: Instance: "@ + shown,
            )
            &&& state.volume_id == Some(id) ==> text::holds_text(words, ", Volume: "@ + shown)
            &&& state.public_ip_id == Some(id) ==> text::holds_text(words, ", IP: "@ + shown)
        }),
{
    let shown = "Some("@ + outside::quoted(id) + ")"@;
    let words = cleanup::what_remains(state);
    let lead = "Cleanup incomplete. State file retained. Existing resources: Instance: "@;
    let instance = cleanup::shown_id(state.instance_id);
    let volume = cleanup::shown_id(state.volume_id);
    let ip = cleanup::shown_id(state.public_ip_id);
    let rest = ", Volume: "@ + volume + ", IP: "@ + ip;
    text_laws::lemma_stands_between(Seq::empty(), lead + instance, rest);
    assert(words =~= Seq::<char>::empty() + (lead + instance) + rest);
    text_laws::lemma_stands_between(lead + instance, ", Volume: "@ + volume, ", IP: "@ + ip);
    assert(words =~= lead + instance + (", Volume: "@ + volume) + (", IP: "@ + ip));
    let front = lead + instance + ", Volume: "@ + volume;
    text_laws::lemma_stands_between(front, ", IP: "@ + ip, Seq::empty());
    assert(words =~= front + (", IP: "@ + ip) + Seq::<char>::empty());
}

/// What a cleanup that is over comes to: a refusal where the record named the snapshot; what is left
/// where something went wrong; and what was achieved where nothing did. It is over exactly when
/// nothing more is asked for of a record that holds what is being removed.
pub proof fn lemma_verdicts(run: CleanupView)
    ensures
        run.stage is Refused ==> run.over() && run.verdict() == Err::<CleanupReport, AppErrorView>(
            AppErrorView::SafetyViolation("Refusing to delete source snapshot"@),
        ),
        run.stage is Finished && run.failed ==> run.over() && run.verdict() == Err::<
            CleanupReport,
            AppErrorView,
        >(
            AppErrorView::CleanupIncomplete(
                "Cleanup incomplete. State file retained. Existing resources: Instance: "@
                    + cleanup::shown_id(run.state.instance_id) + ", Volume: "@ + cleanup::shown_id(
                    run.state.volume_id,
                ) + ", IP: "@ + cleanup::shown_id(run.state.public_ip_id),
            ),
        ),
        run.stage is Finished && !run.failed ==> run.over() && run.verdict() == Ok::<
            CleanupReport,
            AppErrorView,
        >(run.report),
        run.over() ==> run.pending() is None,
        run.state.instance_id is Some && run.state.volume_id is Some && run.state.public_ip_id
            is Some && run.pending() is None ==> run.over(),
{
}

} // verus!
