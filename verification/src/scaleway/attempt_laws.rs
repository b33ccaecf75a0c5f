//! What holds of every attempt, whatever the replies.

use vstd::prelude::*;
#[allow(unused_imports)]
use vstd::string::*;

#[allow(unused_imports)]
use crate::error::{AppError, AppErrorView};
#[allow(unused_imports)]
use crate::error;
#[allow(unused_imports)]
use crate::outside;
#[allow(unused_imports)]
use crate::scaleway::attempt::{AttemptStage, AttemptView};
#[allow(unused_imports)]
use crate::scaleway::calls::{CallView, Reply};
#[allow(unused_imports)]
use crate::scaleway::models::{InstanceIp, Server, Volume};
#[allow(unused_imports)]
use crate::scaleway::models;
#[allow(unused_imports)]
use crate::state::{ProvisioningPhase, StateView};
#[allow(unused_imports)]
use crate::text;

verus! {

/// An attempt after some replies.
pub open spec fn after_all(run: AttemptView, replies: Seq<Reply>) -> AttemptView
    decreases replies.len(),
{
    if replies.len() == 0 {
        run
    } else {
        after_all(run, replies.drop_last()).after(replies.last())
    }
}

/// How many stages lie ahead at most.
pub open spec fn stages_ahead(stage: AttemptStage) -> nat {
    match stage {
        AttemptStage::SavingCreation => 17,
        AttemptStage::Creating => 16,
        AttemptStage::SavingInstance => 15,
        AttemptStage::SavingDiscovery => 14,
        AttemptStage::SavingVolume => 13,
        AttemptStage::CheckingVolume => 12,
        AttemptStage::SavingPower => 11,
        AttemptStage::PoweringOn => 10,
        AttemptStage::SavingWait => 9,
        AttemptStage::AwaitingRunning => 8,
        AttemptStage::SavingAllocation => 7,
        AttemptStage::Allocating => 6,
        AttemptStage::SavingIp => 5,
        AttemptStage::Attaching => 4,
        AttemptStage::CheckingIp => 3,
        AttemptStage::SavingStartup => 2,
        AttemptStage::AwaitingNemotron => 1,
        AttemptStage::Finished => 0,
    }
}

/// The record holds what has been made by a stage.
pub open spec fn holding(run: AttemptView) -> bool {
    let s = run.state;
    let ahead = stages_ahead(run.stage);
    &&& run.result is None <==> ahead > 0
    &&& 0 < ahead <= 15 ==> s.instance_id is Some
    &&& 0 < ahead <= 13 ==> s.volume_id is Some
    &&& 0 < ahead <= 5 ==> s.public_ip_id is Some && s.public_ip_address is Some
    &&& run.result matches Some(Ok(ip)) ==> {
        &&& s.instance_id is Some
        &&& s.volume_id is Some
        &&& s.public_ip_id is Some
        &&& s.public_ip_address == Some(ip)
    }
}

/// The record holds what has been made by a stage, and nothing else.
pub open spec fn sound(run: AttemptView) -> bool {
    let s = run.state;
    let ahead = stages_ahead(run.stage);
    &&& holding(run)
    &&& ahead >= 16 ==> s.instance_id is None
    &&& ahead >= 14 ==> s.volume_id is None
    &&& ahead >= 6 ==> s.public_ip_id is None
}

/// Whatever the record that an attempt begins with, the record holds what the attempt has made, and
/// goes on to do so whatever the replies.
pub proof fn lemma_holding(run: AttemptView, replies: Seq<Reply>)
    requires
        holding(run),
    ensures
        holding(after_all(run, replies)),
    decreases replies.len(),
{
    if replies.len() > 0 {
        lemma_holding(run, replies.drop_last());
    }
}

/// The record of an attempt that begins holds what the attempt has made, which is nothing yet.
pub proof fn lemma_holding_start(
    state: StateView,
    base_name: Seq<char>,
    gpu_type: Seq<char>,
    snapshot_id: Seq<char>,
    zone: Seq<char>,
    timeouts: crate::config::TimeoutsConfig,
)
    ensures
        holding(AttemptView::begun(state, base_name, gpu_type, snapshot_id, zone, timeouts)),
{
}

/// An attempt that begins with an empty record is sound.
pub proof fn lemma_sound_start(
    state: StateView,
    base_name: Seq<char>,
    gpu_type: Seq<char>,
    snapshot_id: Seq<char>,
    zone: Seq<char>,
    timeouts: crate::config::TimeoutsConfig,
)
    requires
        state.tracks_nothing(),
    ensures
        sound(AttemptView::begun(state, base_name, gpu_type, snapshot_id, zone, timeouts)),
{
}

/// An attempt that is sound stays so.
pub proof fn lemma_sound_step(run: AttemptView, reply: Reply)
    requires
        sound(run),
    ensures
        sound(run.after(reply)),
        run.after(reply).snapshot_id == run.snapshot_id,
        run.after(reply).gpu_type == run.gpu_type,
{
}

/// An attempt that is sound stays so, whatever the replies.
pub proof fn lemma_sound(run: AttemptView, replies: Seq<Reply>)
    requires
        sound(run),
    ensures
        sound(after_all(run, replies)),
        after_all(run, replies).snapshot_id == run.snapshot_id,
        after_all(run, replies).gpu_type == run.gpu_type,
    decreases replies.len(),
{
    if replies.len() > 0 {
        lemma_sound(run, replies.drop_last());
        lemma_sound_step(after_all(run, replies.drop_last()), replies.last());
    }
}

/// An attempt that begins with an empty record asks for an instance only while it has none, and
/// for a public address only while it has none; it removes nothing.
pub proof fn lemma_makes_nothing_twice(run: AttemptView, replies: Seq<Reply>)
    requires
        sound(run),
    ensures
        ({
            let now = after_all(run, replies);
            now.pending() matches Some(call) ==> {
                &&& call is CreateInstance ==> now.state.tracks_nothing()
                &&& call is AllocateIp ==> now.state.public_ip_id is None
                &&& call.destroys() is None
                &&& !(call is RemoveState)
            }
        }),
{
    lemma_sound(run, replies);
}

/// Whatever an attempt has made is put down in the record, which is saved before anything else is
/// asked for; and nothing is taken out of the record.
pub proof fn lemma_records_at_once(run: AttemptView, reply: Reply)
    requires
        sound(run),
    ensures
        ({
            let next = run.after(reply);
            &&& next.state.instance_id == run.state.instance_id || (run.state.instance_id is None
                && next.pending() == Some(CallView::SaveState))
            &&& next.state.volume_id == run.state.volume_id || (run.state.volume_id is None
                && next.pending() == Some(CallView::SaveState))
            &&& next.state.public_ip_id == run.state.public_ip_id || (
            run.state.public_ip_id is None && next.pending() == Some(CallView::SaveState))
        }),
{
}

/// Whether the instance was seen up in the course of some replies.
pub open spec fn seen_running(run: AttemptView, replies: Seq<Reply>, at: int) -> bool {
    &&& 0 <= at < replies.len()
    &&& after_all(run, replies.take(at)).pending() matches Some(CallView::WaitRunning { .. })
    &&& replies[at] matches Reply::Server(Ok(_))
}

/// A public address is asked for only after the instance was seen up, whatever the record that the
/// attempt begins with.
pub proof fn lemma_address_after_running(run: AttemptView, replies: Seq<Reply>)
    requires
        holding(run),
        run.stage is SavingCreation,
    ensures
        (after_all(run, replies).pending() matches Some(CallView::AllocateIp { .. })) ==> exists|
            at: int,
        |
            seen_running(run, replies, at),
{
    lemma_past_running(run, replies);
}

proof fn lemma_past_running(run: AttemptView, replies: Seq<Reply>)
    requires
        holding(run),
        run.stage is SavingCreation,
    ensures
        0 < stages_ahead(after_all(run, replies).stage) <= 7 ==> exists|at: int|
            seen_running(run, replies, at),
    decreases replies.len(),
{
    if replies.len() > 0 {
        let front = replies.drop_last();
        let before = after_all(run, front);
        let now = after_all(run, replies);
        lemma_past_running(run, front);
        lemma_holding(run, front);
        if 0 < stages_ahead(now.stage) <= 7 {
            if 0 < stages_ahead(before.stage) <= 7 {
                let at = choose|at: int| seen_running(run, front, at);
                assert(front.take(at) =~= replies.take(at));
                assert(seen_running(run, replies, at));
            } else {
                assert(before.stage is AwaitingRunning);
                assert(replies.take(replies.len() - 1) =~= front);
                assert(seen_running(run, replies, replies.len() - 1));
            }
        }
    }
}

/// An attempt that succeeds has an instance, its volume and its public address in the record.
pub proof fn lemma_success_is_recorded(run: AttemptView, replies: Seq<Reply>)
    requires
        holding(run),
    ensures
        after_all(run, replies).result matches Some(Ok(ip)) ==> {
            let s = after_all(run, replies).state;
            &&& s.instance_id is Some
            &&& s.volume_id is Some
            &&& s.public_ip_id is Some
            &&& s.public_ip_address == Some(ip)
        },
{
    lemma_holding(run, replies);
}

/// Each reply that answers what is asked for brings an attempt closer to its end.
pub proof fn lemma_each_reply_counts(run: AttemptView, reply: Reply)
    requires
        holding(run),
        run.pending() is Some,
        reply.answers(run.pending()->0),
    ensures
        stages_ahead(run.after(reply).stage) < stages_ahead(run.stage),
{
}

/// An attempt asks for something exactly as long as it has no result.
pub proof fn lemma_asks_until_over(run: AttemptView, replies: Seq<Reply>)
    requires
        holding(run),
    ensures
        after_all(run, replies).pending() is None <==> after_all(run, replies).result is Some,
{
    lemma_holding(run, replies);
}

/// The course of an attempt that succeeds: the record is saved before the instance is made and
/// again with its identifier; its boot volume is looked up and seen to come from the snapshot; the
/// instance is switched on unless it runs already, and waited for; a public address is had, saved,
/// attached to the instance that was seen up, and seen to be attached; the model is waited for at
/// that address, which is the result. The phase in the record says how far things are.
#[verifier::rlimit(50)]
pub proof fn lemma_course(
    state: StateView,
    base_name: Seq<char>,
    gpu_type: Seq<char>,
    snapshot_id: Seq<char>,
    zone: Seq<char>,
    timeouts: crate::config::TimeoutsConfig,
    made: Server,
    boot: Seq<char>,
    volume: Volume,
    up: Server,
    had: InstanceIp,
    attached: InstanceIp,
)
    requires
        models::boot_volume_of(made) == Some(boot),
        volume.snapshot_id is None || volume.snapshot_id->0@ == snapshot_id,
        attached.server is Some && attached.server->0.id@ == up.id@,
    ensures
        ({
            let good = Reply::Done(Ok::<(), AppError>(()));
            let a0 = AttemptView::begun(state, base_name, gpu_type, snapshot_id, zone, timeouts);
            let a1 = a0.after(good);
            let a2 = a1.after(Reply::Server(Ok::<Server, AppError>(made)));
            let a3 = a2.after(good);
            let a4 = a3.after(good);
            let a5 = a4.after(good);
            let a6 = a5.after(Reply::Volume(Ok::<Volume, AppError>(volume)));
            let a7 = a6.after(good);
            let a8 = if made.state@ == "running"@ {
                a7
            } else {
                a7.after(good)
            };
            let a9 = a8.after(good);
            let a10 = a9.after(Reply::Server(Ok::<Server, AppError>(up)));
            let a11 = a10.after(good);
            let a12 = a11.after(Reply::Ip(Ok::<InstanceIp, AppError>(had)));
            let a13 = a12.after(good);
            let a14 = a13.after(good);
            let a15 = a14.after(Reply::Ip(Ok::<InstanceIp, AppError>(attached)));
            let a16 = a15.after(good);
            let a17 = a16.after(good);
            let save = Some(CallView::SaveState);
            &&& a0.pending() == save && a0.state.phase is CreatingInstance
            &&& a1.pending() == Some(
                CallView::CreateInstance {
                    name: base_name + "-"@ + text::replaced(
                        outside::lowercase(gpu_type),
                        '_',
                        "-"@,
                    ) + "-"@ + text::front_bytes(state.attempt_id, 8),
                    gpu_type,
                    snapshot_id,
                    attempt_id: state.attempt_id,
                },
            )
            &&& a2.pending() == save && a2.state.instance_id == Some(made.id@)
            &&& a3.pending() == save && a3.state.phase is DiscoveringBootVolume
            &&& a4.pending() == save && a4.state.volume_id == Some(boot)
            &&& a5.pending() == Some(CallView::GetVolume { volume_id: boot })
            &&& a6.pending() == save && a6.state.phase is PoweringOn
            &&& made.state@ != "running"@ ==> a7.pending() == Some(
                CallView::PowerOn { server_id: made.id@ },
            )
            &&& a8.pending() == save && a8.state.phase is WaitingForRunning
            &&& a9.pending() == Some(
                CallView::WaitRunning {
                    server_id: made.id@,
                    timeout_secs: timeouts.instance_creation_seconds,
                    poll_secs: timeouts.instance_poll_interval_seconds,
                },
            )
            &&& a10.pending() == save && a10.state.phase is AllocatingIp
            &&& a11.pending() == Some(CallView::AllocateIp { attempt_id: state.attempt_id })
            &&& a12.pending() == save && a12.state.public_ip_id == Some(had.id@)
                && a12.state.public_ip_address == Some(had.address@)
            &&& a13.pending() == Some(CallView::AttachIp { ip_id: had.id@, server_id: up.id@ })
            &&& a14.pending() == Some(CallView::GetPublicIp { ip_id: had.id@ })
            &&& a15.pending() == save && a15.state.phase is WaitingForNemotron
            &&& a16.pending() == Some(
                CallView::WaitNemotron {
                    ip_address: had.address@,
                    timeout_secs: timeouts.nemotron_startup_seconds,
                    poll_secs: timeouts.nemotron_poll_interval_seconds,
                },
            )
            &&& a17.pending() is None
            &&& a17.result == Some(Ok::<Seq<char>, AppErrorView>(had.address@))
            &&& a17.state.instance_id == Some(made.id@)
            &&& a17.state.volume_id == Some(boot)
            &&& a17.state.public_ip_id == Some(had.id@)
            &&& a17.state.attempt_id == state.attempt_id
            &&& a17.state.selected_gpu_type == state.selected_gpu_type
            &&& a17.state.snapshot_id == state.snapshot_id
        }),
{
    let good = Reply::Done(Ok::<(), AppError>(()));
    let a0 = AttemptView::begun(state, base_name, gpu_type, snapshot_id, zone, timeouts);
    let a1 = a0.after(good);
    assert(a1 == a0.at(AttemptStage::Creating));
    let a2 = a1.after(Reply::Server(Ok::<Server, AppError>(made)));
    assert(a2.stage is SavingInstance && a2.boot_volume == Some(boot));
    let a3 = a2.after(good);
    assert(a3.stage is SavingDiscovery);
    let a4 = a3.after(good);
    assert(a4.stage is SavingVolume);
    let a5 = a4.after(good);
    assert(a5.stage is CheckingVolume);
    let a6 = a5.after(Reply::Volume(Ok::<Volume, AppError>(volume)));
    assert(a6.stage is SavingPower && a6.running == (made.state@ == "running"@));
    let a7 = a6.after(good);
    assert(a7.stage == if a6.running {
        AttemptStage::SavingWait
    } else {
        AttemptStage::PoweringOn
    });
    let a8 = if made.state@ == "running"@ {
        a7
    } else {
        a7.after(good)
    };
    assert(a8.stage is SavingWait);
    let a9 = a8.after(good);
    assert(a9.stage is AwaitingRunning);
    let a10 = a9.after(Reply::Server(Ok::<Server, AppError>(up)));
    assert(a10.stage is SavingAllocation && a10.server_id == up.id@);
    let a11 = a10.after(good);
    assert(a11.stage is Allocating);
    let a12 = a11.after(Reply::Ip(Ok::<InstanceIp, AppError>(had)));
    assert(a12.stage is SavingIp);
    let a13 = a12.after(good);
    assert(a13.stage is Attaching);
    let a14 = a13.after(good);
    assert(a14.stage is CheckingIp);
    let a15 = a14.after(Reply::Ip(Ok::<InstanceIp, AppError>(attached)));
    assert(a15.stage is SavingStartup);
    let a16 = a15.after(good);
    assert(a16.stage is AwaitingNemotron);
}

/// Whether a reply is an error.
pub open spec fn error_in(reply: Reply) -> Option<AppErrorView> {
    match reply {
        Reply::Done(Err(e)) => Some(e@),
        Reply::Server(Err(e)) => Some(e@),
        Reply::Volume(Err(e)) => Some(e@),
        Reply::Ip(Err(e)) => Some(e@),
        Reply::Snapshot(Err(e)) => Some(e@),
        Reply::Products(Err(e)) => Some(e@),
        _ => None,
    }
}

/// Whatever goes wrong ends the attempt with that error. Only two kinds are told differently, for
/// the sake of the GPU type: that there is none left, where the instance is made or switched on, and
/// that the model does not run on it.
pub proof fn lemma_errors_end_the_attempt(run: AttemptView, reply: Reply)
    requires
        holding(run),
        run.pending() is Some,
        reply.answers(run.pending()->0),
    ensures
        error_in(reply) matches Some(e) ==> {
            let next = run.after(reply);
            let call = run.pending()->0;
            let no_stock = e is OutOfStock || text::holds_text(
                error::error_text(e),
                "out_of_stock"@,
            );
            &&& next.pending() is None
            &&& next.state == run.state
            &&& call is CreateInstance || call is PowerOn ==> next.result == Some(
                Err::<Seq<char>, AppErrorView>(
                    if no_stock {
                        AppErrorView::OutOfStock { gpu_type: run.gpu_type, zone: run.zone }
                    } else {
                        e
                    },
                ),
            )
            &&& call is WaitNemotron ==> match e {
                AppErrorView::GuestRuntimeIncompatible { reason, .. } => next.result == Some(
                    Err::<Seq<char>, AppErrorView>(
                        AppErrorView::GuestRuntimeIncompatible { gpu_type: run.gpu_type, reason },
                    ),
                ),
                _ => next.result == Some(Err::<Seq<char>, AppErrorView>(e)),
            }
            &&& !(call is CreateInstance || call is PowerOn || call is WaitNemotron)
                ==> next.result == Some(Err::<Seq<char>, AppErrorView>(e))
        },
        run.after(reply).result matches Some(Err(e)) ==> {
            ||| error_in(reply) is Some
            ||| run.stage is SavingDiscovery && run.boot_volume is None
                && e is InstanceCreationFailed
            ||| reply matches Reply::Volume(Ok(v)) && v.snapshot_id is Some && v.snapshot_id->0@
                != run.snapshot_id && e is IncompatibleVolume
            ||| reply matches Reply::Ip(Ok(ip)) && run.stage is CheckingIp && (ip.server is None
                || ip.server->0.id@ != run.server_id) && e is IpAllocationFailed
        },
{
}

/// An attempt goes on only with a boot volume that comes from the snapshot, as far as the volume
/// says, and with an address that is attached to its instance.
pub proof fn lemma_what_does_not_fit_is_refused(run: AttemptView, volume: Volume, ip: InstanceIp)
    ensures
        run.stage is CheckingVolume && volume.snapshot_id is Some && volume.snapshot_id->0@
            != run.snapshot_id ==> run.after(
            Reply::Volume(Ok::<Volume, AppError>(volume)),
        ).result == Some(
            Err::<Seq<char>, AppErrorView>(
                AppErrorView::IncompatibleVolume {
                    gpu_type: run.gpu_type,
                    reason: "Volume snapshot ID mismatch: expected "@ + run.snapshot_id
                        + ", found "@ + volume.snapshot_id->0@,
                },
            ),
        ),
        run.stage is CheckingIp && (ip.server is None || ip.server->0.id@ != run.server_id)
            ==> run.after(Reply::Ip(Ok::<InstanceIp, AppError>(ip))).result == Some(
            Err::<Seq<char>, AppErrorView>(
                AppErrorView::IpAllocationFailed(
                    "Verification failed: Public IP is still not attached to the target server after attach call"@,
                ),
            ),
        ),
        run.stage is SavingDiscovery && run.boot_volume is None ==> run.after(
            Reply::Done(Ok::<(), AppError>(())),
        ).result == Some(
            Err::<Seq<char>, AppErrorView>(
                AppErrorView::InstanceCreationFailed(
                    "No boot volume returned in server creation response"@,
                ),
            ),
        ),
{
}

} // verus!
