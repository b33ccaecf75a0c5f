//! What errors say, and what is read from them.

use vstd::prelude::*;
#[allow(unused_imports)]
use vstd::string::*;

#[allow(unused_imports)]
use crate::error;
#[allow(unused_imports)]
use crate::error::AppErrorView;
#[allow(unused_imports)]
use crate::text;
#[allow(unused_imports)]
use crate::text_laws;

verus! {

/// The detail of an error that has one.
pub open spec fn detail(e: AppErrorView) -> Option<Seq<char>> {
    match e {
        AppErrorView::InvalidConfig(m) => Some(m),
        AppErrorView::AuthenticationFailed(m) => Some(m),
        AppErrorView::PermissionDenied(m) => Some(m),
        AppErrorView::ProjectNotFound(m) => Some(m),
        AppErrorView::SnapshotNotFound(m) => Some(m),
        AppErrorView::InstanceTypeUnavailable(m) => Some(m),
        AppErrorView::CapacityUnavailable(m) => Some(m),
        AppErrorView::VolumeCreationFailed(m) => Some(m),
        AppErrorView::IpAllocationFailed(m) => Some(m),
        AppErrorView::InstanceCreationFailed(m) => Some(m),
        AppErrorView::ChatRequestFailed(m) => Some(m),
        AppErrorView::MalformedStreamEvent(m) => Some(m),
        AppErrorView::CleanupIncomplete(m) => Some(m),
        AppErrorView::SafetyViolation(m) => Some(m),
        AppErrorView::ApiError(m) => Some(m),
        AppErrorView::Io(m) => Some(m),
        AppErrorView::Reqwest(m) => Some(m),
        AppErrorView::Serde(m) => Some(m),
        AppErrorView::Toml(m) => Some(m),
        AppErrorView::Uuid(m) => Some(m),
        AppErrorView::IncompatibleVolume { reason, .. } => Some(reason),
        AppErrorView::GuestRuntimeIncompatible { reason, .. } => Some(reason),
        _ => None,
    }
}

/// What an error says ends with its detail, every character of it.
pub proof fn lemma_errors_end_with_their_detail(e: AppErrorView)
    ensures
        detail(e) matches Some(m) ==> {
            let said = error::error_text(e);
            &&& said.len() >= m.len()
            &&& said.skip(said.len() - m.len()) == m
            &&& text::holds_text(said, m)
        },
{
    match detail(e) {
        Some(m) => {
            let said = error::error_text(e);
            assert(said.skip(said.len() - m.len()) =~= m);
            assert(said =~= said.take(said.len() - m.len()) + m + Seq::<char>::empty());
            text_laws::lemma_stands_between(
                said.take(said.len() - m.len()),
                m,
                Seq::<char>::empty(),
            );
        },
        None => {},
    }
}

/// What each kind of error says in front of its detail.
pub proof fn lemma_errors_say_what_they_are(m: Seq<char>, other: Seq<char>)
    ensures
        error::error_text(AppErrorView::ConfigNotFound) == "Configuration file not found"@,
        error::error_text(AppErrorView::InvalidConfig(m)) == "Invalid configuration: "@ + m,
        error::error_text(AppErrorView::AuthenticationFailed(m)) == "Authentication failed: "@ + m,
        error::error_text(AppErrorView::PermissionDenied(m)) == "Permission denied: "@ + m,
        error::error_text(AppErrorView::ProjectNotFound(m)) == "Project not found: "@ + m,
        error::error_text(AppErrorView::SnapshotNotFound(m)) == "Snapshot not found: "@ + m,
        error::error_text(
            AppErrorView::SnapshotWrongZone { snapshot_zone: m, expected_zone: other },
        ) == "Snapshot zone "@ + m + " does not match configured zone "@ + other,
        error::error_text(AppErrorView::InstanceTypeUnavailable(m))
            == "Instance type unavailable: "@ + m,
        error::error_text(AppErrorView::CapacityUnavailable(m)) == "Capacity unavailable: "@ + m,
        error::error_text(AppErrorView::VolumeCreationFailed(m)) == "Volume creation failed: "@ + m,
        error::error_text(AppErrorView::IpAllocationFailed(m)) == "IP allocation failed: "@ + m,
        error::error_text(AppErrorView::InstanceCreationFailed(m)) == "Instance creation failed: "@
            + m,
        error::error_text(AppErrorView::InstanceStartupTimeout) == "Instance startup timed out"@,
        error::error_text(AppErrorView::NemotronAuthenticationFailed)
            == "Nemotron authentication failed (invalid API key)"@,
        error::error_text(AppErrorView::NemotronStartupTimeout) == "Nemotron startup timed out"@,
        error::error_text(AppErrorView::ChatRequestFailed(m)) == "Chat request failed: "@ + m,
        error::error_text(AppErrorView::MalformedStreamEvent(m)) == "Malformed SSE event: "@ + m,
        error::error_text(AppErrorView::CleanupIncomplete(m)) == "Cleanup incomplete: "@ + m,
        error::error_text(AppErrorView::SafetyViolation(m)) == "Safety violation: "@ + m,
        error::error_text(AppErrorView::ApiError(m)) == "API Error: "@ + m,
        error::error_text(AppErrorView::Io(m)) == "I/O error: "@ + m,
        error::error_text(AppErrorView::Reqwest(m)) == "HTTP client error: "@ + m,
        error::error_text(AppErrorView::Serde(m)) == "JSON processing error: "@ + m,
        error::error_text(AppErrorView::Toml(m)) == "TOML processing error: "@ + m,
        error::error_text(AppErrorView::Uuid(m)) == "UUID processing error: "@ + m,
        error::error_text(AppErrorView::OutOfStock { gpu_type: m, zone: other }) == "GPU type "@ + m
            + " is out of stock in "@ + other,
        error::error_text(AppErrorView::IncompatibleVolume { gpu_type: m, reason: other })
            == "Incompatible volume for "@ + m + ": "@ + other,
        error::error_text(AppErrorView::GuestRuntimeIncompatible { gpu_type: m, reason: other })
            == "Guest runtime incompatible with "@ + m + ": "@ + other,
        error::error_text(
            AppErrorView::NoCompatibleGpuAvailable { zone: m, attempted: seq![other] },
        ) == "No compatible GPU available in "@ + m + " (attempted: "@ + other + ")"@,
{
    let none = Seq::<Seq<char>>::empty();
    assert(none.push(other) =~= seq![other]);
    text_laws::lemma_joining(none, ", "@, other);
}

/// Every further GPU type that was tried is named behind the others, with a comma between them.
pub proof fn lemma_all_that_was_tried_is_named(
    zone: Seq<char>,
    attempted: Seq<Seq<char>>,
    last: Seq<char>,
)
    requires
        attempted.len() > 0,
    ensures
        ({
            let said = error::error_text(
                AppErrorView::NoCompatibleGpuAvailable { zone, attempted },
            );
            let more = error::error_text(
                AppErrorView::NoCompatibleGpuAvailable { zone, attempted: attempted.push(last) },
            );
            more == said.drop_last() + ", "@ + last + ")"@
        }),
{
    reveal_strlit(")");
    text_laws::lemma_joining(attempted, ", "@, last);
    let front = "No compatible GPU available in "@ + zone + " (attempted: "@;
    let names = text::joined(attempted, ", "@);
    let said = error::error_text(AppErrorView::NoCompatibleGpuAvailable { zone, attempted });
    assert(said.drop_last() =~= front + names);
    assert(error::error_text(
        AppErrorView::NoCompatibleGpuAvailable { zone, attempted: attempted.push(last) },
    ) =~= said.drop_last() + ", "@ + last + ")"@);
}

/// The three errors that speak against one GPU type, and no others, let the next one be tried.
pub proof fn lemma_which_errors_let_the_next_be_tried(e: AppErrorView)
    ensures
        error::concerns_one_gpu(e) <==> match e {
            AppErrorView::OutOfStock { .. } => true,
            AppErrorView::IncompatibleVolume { .. } => true,
            AppErrorView::GuestRuntimeIncompatible { .. } => true,
            _ => false,
        },
{
}

/// A GPU type is out of stock where the error is of that kind, or where its detail holds the word
/// that the API has for it, wherever in it.
pub proof fn lemma_out_of_stock(e: AppErrorView, front: Seq<char>, back: Seq<char>)
    ensures
        e is OutOfStock ==> error::says_out_of_stock(e),
        detail(e) == Some(front + "out_of_stock"@ + back) ==> error::says_out_of_stock(e),
        !(e is OutOfStock) && !text::holds_text(error::error_text(e), "out_of_stock"@)
            ==> !error::says_out_of_stock(e),
{
    if detail(e) == Some(front + "out_of_stock"@ + back) {
        lemma_errors_end_with_their_detail(e);
        lemma_inside(error::error_text(e), front, "out_of_stock"@, back);
    }
}

proof fn lemma_inside(said: Seq<char>, front: Seq<char>, part: Seq<char>, back: Seq<char>)
    requires
        said.len() >= (front + part + back).len(),
        said.skip(said.len() - (front + part + back).len()) == front + part + back,
    ensures
        text::holds_text(said, part),
{
    let m = front + part + back;
    let head = said.take(said.len() - m.len());
    assert(said =~= head + said.skip(said.len() - m.len()));
    assert(said =~= (head + front) + part + back);
    text_laws::lemma_stands_between(head + front, part, back);
}

/// The thing asked for does not exist where the error is a refusal that begins with the status 404;
/// no other error says so.
pub proof fn lemma_not_found(e: AppErrorView, rest: Seq<char>)
    ensures
        error::says_not_found(AppErrorView::InvalidConfig("API Error (status 404 "@ + rest)),
        !(e is InvalidConfig) ==> !error::says_not_found(e),
        error::says_not_found(e) ==> {
            let front = "API Error (status 404 "@;
            let said = detail(e)->0;
            said.len() >= front.len() && said.take(front.len() as int) == front
        },
{
    let front = "API Error (status 404 "@;
    text_laws::lemma_behind_what_is_in_front(front, rest);
    assert((front + rest).subrange(0, front.len() as int) =~= front);
    if error::says_not_found(e) {
        let said = detail(e)->0;
        assert(said.take(front.len() as int) =~= said.subrange(0, front.len() as int));
    }
}

} // verus!
