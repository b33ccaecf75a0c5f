//! What stands for a value in a contract is what the value holds.

use vstd::prelude::*;
#[allow(unused_imports)]
use vstd::string::*;

#[allow(unused_imports)]
use crate::error::{AppError, AppErrorView};
#[allow(unused_imports)]
use crate::json;
#[allow(unused_imports)]
use crate::nemotron::answer;
#[allow(unused_imports)]
use crate::nemotron::chat::{ChatInput, InputView};
#[allow(unused_imports)]
use crate::nemotron::client::{ReadyStep, ReadyView, WaitingWords};
#[allow(unused_imports)]
use crate::nemotron::stream;
#[allow(unused_imports)]
use crate::outside;
#[allow(unused_imports)]
use crate::scaleway::attempt;
#[allow(unused_imports)]
use crate::scaleway::calls::{Call, CallView};
#[allow(unused_imports)]
use crate::scaleway::client::{ApiRequest, ApiRequestView};
#[allow(unused_imports)]
use crate::scaleway::operations;
#[allow(unused_imports)]
use crate::scaleway::provision;
#[allow(unused_imports)]
use crate::scaleway::provision::Plan;
#[allow(unused_imports)]
use crate::text;
#[allow(unused_imports)]
use crate::text_laws;

verus! {

/// Texts as values are the texts, in their order; a text that may be absent is that text, or absent.
pub proof fn lemma_texts(list: Seq<String>, some: String)
    ensures
        text::texts(list).len() == list.len(),
        forall|i: int| 0 <= i < list.len() ==> #[trigger] text::texts(list)[i] == list[i]@,
        text::some_text(Some(some)) == Some(some@),
        text::some_text(None) is None,
{
}

/// An error as a value is of the same kind, with the same detail.
pub proof fn lemma_errors(e: AppError)
    ensures
        match e {
            AppError::ConfigNotFound => e@ == AppErrorView::ConfigNotFound,
            AppError::InstanceStartupTimeout => e@ == AppErrorView::InstanceStartupTimeout,
            AppError::NemotronAuthenticationFailed => e@ == AppErrorView::NemotronAuthenticationFailed,
            AppError::NemotronStartupTimeout => e@ == AppErrorView::NemotronStartupTimeout,
            AppError::InvalidConfig(m) => e@ == AppErrorView::InvalidConfig(m@),
            AppError::AuthenticationFailed(m) => e@ == AppErrorView::AuthenticationFailed(m@),
            AppError::PermissionDenied(m) => e@ == AppErrorView::PermissionDenied(m@),
            AppError::ProjectNotFound(m) => e@ == AppErrorView::ProjectNotFound(m@),
            AppError::SnapshotNotFound(m) => e@ == AppErrorView::SnapshotNotFound(m@),
            AppError::InstanceTypeUnavailable(m) => e@ == AppErrorView::InstanceTypeUnavailable(m@),
            AppError::CapacityUnavailable(m) => e@ == AppErrorView::CapacityUnavailable(m@),
            AppError::VolumeCreationFailed(m) => e@ == AppErrorView::VolumeCreationFailed(m@),
            AppError::IpAllocationFailed(m) => e@ == AppErrorView::IpAllocationFailed(m@),
            AppError::InstanceCreationFailed(m) => e@ == AppErrorView::InstanceCreationFailed(m@),
            AppError::ChatRequestFailed(m) => e@ == AppErrorView::ChatRequestFailed(m@),
            AppError::MalformedStreamEvent(m) => e@ == AppErrorView::MalformedStreamEvent(m@),
            AppError::CleanupIncomplete(m) => e@ == AppErrorView::CleanupIncomplete(m@),
            AppError::SafetyViolation(m) => e@ == AppErrorView::SafetyViolation(m@),
            AppError::ApiError(m) => e@ == AppErrorView::ApiError(m@),
            AppError::Io(m) => e@ == AppErrorView::Io(m@),
            AppError::Reqwest(m) => e@ == AppErrorView::Reqwest(m@),
            AppError::Serde(m) => e@ == AppErrorView::Serde(m@),
            AppError::Toml(m) => e@ == AppErrorView::Toml(m@),
            AppError::Uuid(m) => e@ == AppErrorView::Uuid(m@),
            AppError::SnapshotWrongZone { snapshot_zone, expected_zone } => e@
                == (AppErrorView::SnapshotWrongZone {
                snapshot_zone: snapshot_zone@,
                expected_zone: expected_zone@,
            }),
            AppError::OutOfStock { gpu_type, zone } => e@ == (AppErrorView::OutOfStock {
                gpu_type: gpu_type@,
                zone: zone@,
            }),
            AppError::IncompatibleVolume { gpu_type, reason } => e@
                == (AppErrorView::IncompatibleVolume { gpu_type: gpu_type@, reason: reason@ }),
            AppError::GuestRuntimeIncompatible { gpu_type, reason } => e@
                == (AppErrorView::GuestRuntimeIncompatible { gpu_type: gpu_type@, reason: reason@ }),
            AppError::NoCompatibleGpuAvailable { zone, attempted } => e@
                == (AppErrorView::NoCompatibleGpuAvailable {
                zone: zone@,
                attempted: text::texts(attempted@),
            }),
        },
{
}

/// A call as a value is the same call, of the same thing and with the same times.
pub proof fn lemma_calls(call: Call)
    ensures
        match call {
            Call::SaveState => call@ == CallView::SaveState,
            Call::RemoveState => call@ == CallView::RemoveState,
            Call::Report { percent, message } => call@
                == (CallView::Report {
                percent,
                message: message@,
            }),
            Call::ValidateAuth => call@ == CallView::ValidateAuth,
            Call::GetSnapshot { snapshot_id } => call@
                == (CallView::GetSnapshot {
                snapshot_id: snapshot_id@,
            }),
            Call::GetServer { server_id } => call@
                == (CallView::GetServer {
                server_id: server_id@,
            }),
            Call::GetVolume { volume_id } => call@
                == (CallView::GetVolume {
                volume_id: volume_id@,
            }),
            Call::GetPublicIp { ip_id } => call@
                == (CallView::GetPublicIp {
                ip_id: ip_id@,
            }),
            Call::ListProducts => call@ == CallView::ListProducts,
            Call::CreateInstance { name, gpu_type, snapshot_id, attempt_id } => call@
                == (CallView::CreateInstance {
                name: name@,
                gpu_type: gpu_type@,
                snapshot_id: snapshot_id@,
                attempt_id: attempt_id@,
            }),
            Call::PowerOn { server_id } => call@
                == (CallView::PowerOn {
                server_id: server_id@,
            }),
            Call::PowerOff { server_id } => call@
                == (CallView::PowerOff {
                server_id: server_id@,
            }),
            Call::WaitRunning { server_id, timeout_secs, poll_secs } => call@
                == (CallView::WaitRunning {
                server_id: server_id@,
                timeout_secs,
                poll_secs,
            }),
            Call::WaitStopped { server_id, timeout_secs, poll_secs } => call@
                == (CallView::WaitStopped {
                server_id: server_id@,
                timeout_secs,
                poll_secs,
            }),
            Call::AllocateIp { attempt_id } => call@
                == (CallView::AllocateIp {
                attempt_id: attempt_id@,
            }),
            Call::AttachIp { ip_id, server_id } => call@
                == (CallView::AttachIp {
                ip_id: ip_id@,
                server_id: server_id@,
            }),
            Call::WaitNemotron { ip_address, timeout_secs, poll_secs } => call@
                == (CallView::WaitNemotron {
                ip_address: ip_address@,
                timeout_secs,
                poll_secs,
            }),
            Call::DeleteInstance { server_id, snapshot_id } => call@
                == (CallView::DeleteInstance {
                server_id: server_id@,
                snapshot_id: snapshot_id@,
            }),
            Call::VerifyInstanceDeleted { server_id, timeout_secs, poll_secs } => call@
                == (CallView::VerifyInstanceDeleted {
                server_id: server_id@,
                timeout_secs,
                poll_secs,
            }),
            Call::DeleteVolume { volume_id, snapshot_id } => call@
                == (CallView::DeleteVolume {
                volume_id: volume_id@,
                snapshot_id: snapshot_id@,
            }),
            Call::VerifyVolumeDeleted { volume_id, timeout_secs, poll_secs } => call@
                == (CallView::VerifyVolumeDeleted {
                volume_id: volume_id@,
                timeout_secs,
                poll_secs,
            }),
            Call::DeletePublicIp { ip_id, snapshot_id } => call@
                == (CallView::DeletePublicIp {
                ip_id: ip_id@,
                snapshot_id: snapshot_id@,
            }),
            Call::VerifyPublicIpDeleted { ip_id, timeout_secs, poll_secs } => call@
                == (CallView::VerifyPublicIpDeleted {
                ip_id: ip_id@,
                timeout_secs,
                poll_secs,
            }),
        },
{
}

/// A request as a value is the same request: what is done, to what, with which parameter and body.
pub proof fn lemma_requests(request: ApiRequest, e: AppError)
    ensures
        request@.method == request.method,
        request@.path == request.path@,
        request.body matches Some(body) ==> request@.body == Some(body@),
        request.body is None ==> request@.body is None,
        request.query matches Some(query) ==> request@.query == Some((query.0@, query.1@)),
        request.query is None ==> request@.query is None,
        operations::request_view(Some(Ok::<ApiRequest, AppError>(request))) == Some(
            Ok::<ApiRequestView, AppErrorView>(request@),
        ),
        operations::request_view(Some(Err::<ApiRequest, AppError>(e))) == Some(
            Err::<ApiRequestView, AppErrorView>(e@),
        ),
        operations::request_view(None) is None,
{
}

/// What came of something, as a value: the text that came, or the error.
pub proof fn lemma_outcomes(said: String, e: AppError)
    ensures
        stream::event_view(Ok::<Option<String>, AppError>(Some(said))) == Ok::<
            Option<Seq<char>>,
            AppErrorView,
        >(Some(said@)),
        stream::event_view(Ok::<Option<String>, AppError>(None)) == Ok::<
            Option<Seq<char>>,
            AppErrorView,
        >(None),
        stream::event_view(Err::<Option<String>, AppError>(e)) == Err::<
            Option<Seq<char>>,
            AppErrorView,
        >(e@),
        answer::answer_view(Ok::<String, AppError>(said)) == Ok::<Seq<char>, AppErrorView>(said@),
        answer::answer_view(Err::<String, AppError>(e)) == Err::<Seq<char>, AppErrorView>(e@),
        answer::failure_view(Some(e)) == Some(e@),
        answer::failure_view(None) is None,
        attempt::result_view(Some(Ok::<String, AppError>(said))) == Some(
            Ok::<Seq<char>, AppErrorView>(said@),
        ),
        attempt::result_view(Some(Err::<String, AppError>(e))) == Some(
            Err::<Seq<char>, AppErrorView>(e@),
        ),
        attempt::result_view(None) is None,
        provision::outcome_view(Ok::<String, AppError>(said)) == Ok::<Seq<char>, AppErrorView>(said@),
        provision::outcome_view(Err::<String, AppError>(e)) == Err::<Seq<char>, AppErrorView>(e@),
{
}

/// What the user asks for, and what is done about a look at the inference server, as values.
pub proof fn lemma_steps(input: ChatInput, step: ReadyStep, words: WaitingWords)
    ensures
        match input {
            ChatInput::Nothing => input@ == InputView::Nothing,
            ChatInput::Clear => input@ == InputView::Clear,
            ChatInput::Status => input@ == InputView::Status,
            ChatInput::Leave(action) => input@ == InputView::Leave(action),
            ChatInput::Unknown => input@ == InputView::Unknown,
            ChatInput::Prompt(prompt) => input@ == InputView::Prompt(prompt@),
        },
        match step {
            ReadyStep::Ready => step@ == ReadyView::Ready,
            ReadyStep::Fail(e) => step@ == ReadyView::Fail(e@),
            ReadyStep::Again(said) => step@ == ReadyView::Again(said@),
        },
        words@.loading == words.loading@,
        words@.failing == words.failing@,
        words@.body == words.body@,
        words@.behind_body == words.behind_body@,
        words@.behind_status == words.behind_status@,
        words@.unreachable == words.unreachable@,
{
}

/// A plan as a value is what is asked for.
pub proof fn lemma_plans(plan: Plan)
    ensures
        plan@.snapshot_id == plan.snapshot_id@,
        plan@.zone == plan.zone@,
        plan@.record_zone == plan.record_zone@,
        plan@.instance_name == plan.instance_name@,
        plan@.timeouts == plan.timeouts,
        plan@.candidates.len() == plan.candidates@.len(),
        forall|i: int|
            0 <= i < plan.candidates@.len() ==> #[trigger] plan@.candidates[i]
                == plan.candidates@[i]@,
{
}

/// A list of texts in JSON holds each of them as a JSON string, in order and with a comma between
/// each two; a truth value is its word.
pub proof fn lemma_lists_in_json(list: Seq<Seq<char>>, last: Seq<char>)
    ensures
        json::string_array(Seq::empty()) == "["@ + "]"@,
        json::string_array(seq![last]) == "["@ + outside::json_string(last) + "]"@,
        list.len() > 0 ==> json::string_array(list.push(last)) == json::string_array(
            list,
        ).drop_last() + ","@ + outside::json_string(last) + "]"@,
        json::truth(true) == "true"@,
        json::truth(false) == "false"@,
{
    reveal_strlit("]");
    let shown = |t: Seq<char>| outside::json_string(t);
    let none = Seq::<Seq<char>>::empty();
    assert(none.map_values(shown) =~= none);
    assert("["@ + text::joined(none, ","@) + "]"@ =~= "["@ + "]"@);
    assert(seq![last].map_values(shown) =~= none.push(outside::json_string(last)));
    text_laws::lemma_joining(none, ","@, outside::json_string(last));
    if list.len() > 0 {
        let all = list.map_values(shown);
        assert(list.push(last).map_values(shown) =~= all.push(outside::json_string(last)));
        text_laws::lemma_joining(all, ","@, outside::json_string(last));
        assert(json::string_array(list).drop_last() =~= "["@ + text::joined(all, ","@));
        assert(json::string_array(list.push(last)) =~= json::string_array(list).drop_last() + ","@
            + outside::json_string(last) + "]"@);
    }
}

} // verus!
