//! What the answers of the API come to.

use vstd::prelude::*;
#[allow(unused_imports)]
use vstd::string::*;

#[allow(unused_imports)]
use crate::error;
#[allow(unused_imports)]
use crate::error::{AppError, AppErrorView};
#[allow(unused_imports)]
use crate::outside;
#[allow(unused_imports)]
use crate::outside::Json;
#[allow(unused_imports)]
use crate::scaleway::auth;
#[allow(unused_imports)]
use crate::scaleway::calls::{CallView, Reply};
#[allow(unused_imports)]
use crate::scaleway::checks::{Check, ChecksView};
#[allow(unused_imports)]
use crate::scaleway::client;
#[allow(unused_imports)]
use crate::scaleway::client::{ScalewayClient, SendStep};
#[allow(unused_imports)]
use crate::scaleway::compatibility;
#[allow(unused_imports)]
use crate::scaleway::instances;
#[allow(unused_imports)]
use crate::scaleway::models;
#[allow(unused_imports)]
use crate::scaleway::models::{InstanceIp, Server, ServerTypesResponse, Snapshot};
#[allow(unused_imports)]
use crate::scaleway::operations;
#[allow(unused_imports)]
use crate::scaleway::operations::{Answer, Settled};
#[allow(unused_imports)]
use crate::scaleway::polling;
#[allow(unused_imports)]
use crate::scaleway::reconcile::{OutcomeView, ReconciliationView};
#[allow(unused_imports)]
use crate::scaleway::snapshots;
#[allow(unused_imports)]
use crate::state::{ProvisioningPhase, StateView};
#[allow(unused_imports)]
use crate::text;
#[allow(unused_imports)]
use crate::text_laws;

verus! {

// ---------------------------------------------------------------- refusals

/// What kind of error a refusal is goes by its status alone, and its detail holds the status and
/// what the body says.
pub proof fn lemma_refusals_go_by_the_status(status: u16, body: Seq<char>)
    ensures
        ({
            let e = client::refusal(status, body);
            let message = "API Error (status "@ + outside::status_text(status) + "): "@
                + client::refusal_body(body);
            &&& status == 401 <==> e == AppErrorView::AuthenticationFailed(message)
            &&& status == 403 <==> e == AppErrorView::PermissionDenied(message)
            &&& status == 404 <==> e == AppErrorView::InvalidConfig(message)
            &&& status == 409 <==> e == AppErrorView::CapacityUnavailable(message)
            &&& status != 401 && status != 403 && status != 404 && status != 409 <==> e
                == AppErrorView::ApiError(message)
        }),
{
}

/// The text under a key of an object, where there is one.
pub open spec fn text_under(json: Json, key: Seq<char>) -> Option<Seq<char>> {
    match json {
        Json::Object(members) => if members.contains_key(key) {
            match members[key] {
                Json::Text(found) => Some(found),
                _ => None,
            }
        } else {
            None
        },
        _ => None,
    }
}

/// The text under a key of an object, or another text.
pub open spec fn text_or(json: Json, key: Seq<char>, otherwise: Seq<char>) -> Seq<char> {
    match text_under(json, key) {
        Some(found) => found,
        None => otherwise,
    }
}

/// Whether an object lists these details.
pub open spec fn lists(json: Json, details: Seq<Json>) -> bool {
    &&& json matches Json::Object(members)
    &&& members.contains_key("details"@)
    &&& members["details"@] == Json::Array(details)
}

/// A body that is no JSON, or has no message, is told as it is. One with a message is told with the
/// type of the error, `unknown_error` where it names none, and with the message where it lists no
/// details.
pub proof fn lemma_bodies_of_refusals(body: Seq<char>, json: Json, message: Seq<char>)
    ensures
        outside::json_document(body) is None ==> client::refusal_body(body) == body,
        outside::json_document(body) == Some(json) && text_under(json, "message"@) is None
            ==> client::refusal_body(body) == body,
        outside::json_document(body) == Some(json) && text_under(json, "message"@) == Some(message)
            && (forall|details: Seq<Json>| details.len() > 0 ==> !#[trigger] lists(json, details))
            ==> client::refusal_body(body) == text_or(json, "type"@, "unknown_error"@)
            + ":\n- message: "@ + message,
{
    let details = client::refusal_details(json);
    if details.len() > 0 {
        assert(lists(json, details));
    }
}

/// What is told of one detail of a refusal: the argument, the reason and the help, each as it is, and
/// empty where it is missing.
pub open spec fn told(detail: Json) -> Seq<char> {
    "- argument_name: "@ + text_or(detail, "argument_name"@, Seq::empty()) + "\n  reason: "@
        + text_or(detail, "reason"@, Seq::empty()) + "\n  help_message: "@ + text_or(
        detail,
        "help_message"@,
        Seq::empty(),
    )
}

/// Where details are listed, each of them is told on lines of its own, in order, behind the type of
/// the error.
pub proof fn lemma_details_of_refusals(
    body: Seq<char>,
    json: Json,
    message: Seq<char>,
    details: Seq<Json>,
)
    requires
        outside::json_document(body) == Some(json),
        text_under(json, "message"@) == Some(message),
        details.len() > 0,
        lists(json, details),
    ensures
        client::refusal_body(body) == text_or(json, "type"@, "unknown_error"@) + ":\n"@
            + text::joined(Seq::new(details.len(), |i: int| told(details[i])), "\n"@),
{
    reveal_strlit("");
    assert(""@ =~= Seq::<char>::empty());
    assert(details.map_values(|d: Json| client::detail_text(d)) =~= Seq::new(
        details.len(),
        |i: int| told(details[i]),
    ));
}

// ---------------------------------------------------------------- sending again

/// Which answers stand, and which may pass: the statuses from 200 to 299, and 429 and those from 500
/// to 599.
pub proof fn lemma_which_answers_stand(code: u16)
    ensures
        client::is_success(code) <==> code / 100 == 2,
        client::is_transient(code) <==> code == 429 || code / 100 == 5,
        !(client::is_success(code) && client::is_transient(code)),
{
}

/// A wait that is asked for is the number that is written out; what is no number asks for none.
pub proof fn lemma_waits_that_are_asked_for(header: String)
    ensures
        client::asked_seconds(None) is None,
        text_laws::all_digits(header@) && text_laws::value_of(header@) <= u64::MAX
            ==> client::asked_seconds(Some(header)) == Some(text_laws::value_of(header@) as nat),
        !text_laws::all_digits(header@) && !(header@.len() > 0 && header@[0] == '+')
            ==> client::asked_seconds(Some(header)) is None,
{
    text_laws::lemma_numbers_are_read(header@, u64::MAX as nat);
}

/// A request that is sent again after a while waits no less than the delay, and less than a tenth of
/// a second longer.
pub proof fn lemma_back_off(step: SendStep, delay: nat)
    ensures
        client::backs_off(step, delay) <==> match step {
            SendStep::Sleep { seconds, millis } => seconds == 0 && delay <= millis && millis < delay
                + 100,
            _ => false,
        },
{
}

/// The time is up when more nanoseconds have gone by than there were, and not before: a look on the
/// very last of them is still made.
pub proof fn lemma_time(elapsed_nanos: u128, later: u128, timeout_secs: u64)
    ensures
        polling::time_is_up(elapsed_nanos, timeout_secs) <==> elapsed_nanos as int > timeout_secs
            as int * 1_000_000_000,
        !polling::time_is_up(0, timeout_secs),
        elapsed_nanos == timeout_secs * 1_000_000_000 ==> !polling::time_is_up(
            elapsed_nanos,
            timeout_secs,
        ),
        elapsed_nanos <= later && polling::time_is_up(elapsed_nanos, timeout_secs)
            ==> polling::time_is_up(later, timeout_secs),
{
}

// ---------------------------------------------------------------- account and snapshot

/// A look at the account that is refused says what is wrong: the key, a permission, or the project.
/// Any other error is handed on.
pub proof fn lemma_account(zone: Seq<char>, project: Seq<char>, m: Seq<char>, e: AppErrorView)
    ensures
        auth::auth_error(zone, project, AppErrorView::AuthenticationFailed(m))
            == AppErrorView::AuthenticationFailed("Invalid API Key credentials: "@ + m),
        auth::auth_error(zone, project, AppErrorView::PermissionDenied(m))
            == AppErrorView::PermissionDenied(
            "Missing IAM permissions for zone "@ + zone + " or project "@ + project + ": "@ + m,
        ),
        auth::auth_error(zone, project, AppErrorView::InvalidConfig(m))
            == AppErrorView::ProjectNotFound(
            "Project ID "@ + project + " not found or invalid: "@ + m,
        ),
        !(e is AuthenticationFailed) && !(e is PermissionDenied) && !(e is InvalidConfig)
            ==> auth::auth_error(zone, project, e) == e,
{
}

/// A snapshot is good exactly when it belongs to the project, is ready, and lies in the zone; else
/// the first of these that fails is told.
pub proof fn lemma_snapshots(client: ScalewayClient, id: Seq<char>, snapshot: Snapshot)
    ensures
        ({
            let own = snapshot.project_id@ == client.project_id@;
            let ready = snapshot.status@ == "ready"@ || snapshot.status@ == "available"@;
            let here = snapshot.zone@ == client.zone@;
            let fault = snapshots::snapshot_fault(client, id, snapshot);
            &&& fault is None <==> own && ready && here
            &&& !own ==> fault == Some(
                AppErrorView::PermissionDenied(
                    "Snapshot belongs to project "@ + snapshot.project_id@
                        + " but configured project is "@ + client.project_id@,
                ),
            )
            &&& own && !ready ==> fault == Some(
                AppErrorView::SnapshotNotFound(
                    "Snapshot "@ + id + " is not ready or available (current status: "@
                        + snapshot.status@ + ")"@,
                ),
            )
            &&& own && ready && !here ==> fault == Some(
                AppErrorView::SnapshotWrongZone {
                    snapshot_zone: snapshot.zone@,
                    expected_zone: client.zone@,
                },
            )
        }),
{
}

/// A snapshot that is not there is told as such; any other error is handed on.
pub proof fn lemma_snapshot_errors(zone: Seq<char>, id: Seq<char>, m: Seq<char>, e: AppErrorView)
    ensures
        snapshots::snapshot_error(zone, id, AppErrorView::InvalidConfig(m))
            == AppErrorView::SnapshotNotFound(
            "Snapshot "@ + id + " not found in zone "@ + zone
                + ". Ensure snapshot ID and zone are correct."@,
        ),
        !(e is InvalidConfig) ==> snapshots::snapshot_error(zone, id, e) == e,
{
}

// ---------------------------------------------------------------- products and volumes

/// The product with a name is the first of that name in the list; where none has it, there is none.
pub proof fn lemma_products(products: ServerTypesResponse, name: Seq<char>, at: int)
    ensures
        0 <= at < products.servers@.len() && products.servers@[at].0@ == name && (forall|i: int|
            0 <= i < at ==> (#[trigger] products.servers@[i]).0@ != name) ==> products.product(name)
            == Some(products.servers@[at].1),
        (forall|i: int|
            0 <= i < products.servers@.len() ==> (#[trigger] products.servers@[i]).0@ != name)
            ==> products.product(name) is None,
{
    let servers = products.servers@;
    if 0 <= at < servers.len() && servers[at].0@ == name && forall|i: int|
        0 <= i < at ==> (#[trigger] servers[i]).0@ != name {
        lemma_product_from(products, name, 0, at);
    }
    if forall|i: int| 0 <= i < servers.len() ==> (#[trigger] servers[i]).0@ != name {
        lemma_product_from(products, name, 0, servers.len() as int);
    }
}

proof fn lemma_product_from(products: ServerTypesResponse, name: Seq<char>, from: int, at: int)
    requires
        0 <= from <= at <= products.servers@.len(),
        forall|i: int| 0 <= i < at ==> (#[trigger] products.servers@[i]).0@ != name,
    ensures
        models::product_from(products.servers@, name, from) == models::product_from(
            products.servers@,
            name,
            at,
        ),
    decreases at - from,
{
    if from < at {
        assert(products.servers@[from].0@ != name);
        lemma_product_from(products, name, from + 1, at);
    }
}

/// A server boots from the volume in the slot `0`, the first of them; where there is none, from its
/// first block storage volume; where there is none either, from no volume.
pub proof fn lemma_boot_volumes(server: Server, at: int)
    ensures
        ({
            let volumes = server.volumes@;
            let no_slot = forall|i: int| 0 <= i < volumes.len() ==> (#[trigger] volumes[i]).0@ != "0"@;
            &&& 0 <= at < volumes.len() && volumes[at].0@ == "0"@ && (forall|i: int|
                0 <= i < at ==> (#[trigger] volumes[i]).0@ != "0"@) ==> models::boot_volume_of(server)
                == Some(volumes[at].1.id@)
            &&& no_slot && 0 <= at < volumes.len() && volumes[at].1.volume_type@ == "sbs_volume"@ && (
            forall|i: int|
                0 <= i < at ==> (#[trigger] volumes[i]).1.volume_type@ != "sbs_volume"@)
                ==> models::boot_volume_of(server) == Some(volumes[at].1.id@)
            &&& no_slot && (forall|i: int|
                0 <= i < volumes.len() ==> (#[trigger] volumes[i]).1.volume_type@ != "sbs_volume"@)
                ==> models::boot_volume_of(server) is None
        }),
{
    let volumes = server.volumes@;
    let end = volumes.len() as int;
    if 0 <= at < end && volumes[at].0@ == "0"@ && forall|i: int|
        0 <= i < at ==> (#[trigger] volumes[i]).0@ != "0"@ {
        lemma_slots_from(server, 0, at);
    }
    if forall|i: int| 0 <= i < volumes.len() ==> (#[trigger] volumes[i]).0@ != "0"@ {
        lemma_slots_from(server, 0, end);
    }
    if 0 <= at < end && forall|i: int|
        0 <= i < at ==> (#[trigger] volumes[i]).1.volume_type@ != "sbs_volume"@ {
        lemma_blocks_from(server, 0, at);
    }
    if forall|i: int|
        0 <= i < volumes.len() ==> (#[trigger] volumes[i]).1.volume_type@ != "sbs_volume"@ {
        lemma_blocks_from(server, 0, end);
    }
}

proof fn lemma_slots_from(server: Server, from: int, at: int)
    requires
        0 <= from <= at <= server.volumes@.len(),
        forall|i: int| 0 <= i < at ==> (#[trigger] server.volumes@[i]).0@ != "0"@,
    ensures
        models::first_slot_from(server.volumes@, from) == models::first_slot_from(
            server.volumes@,
            at,
        ),
    decreases at - from,
{
    if from < at {
        assert(server.volumes@[from].0@ != "0"@);
        lemma_slots_from(server, from + 1, at);
    }
}

proof fn lemma_blocks_from(server: Server, from: int, at: int)
    requires
        0 <= from <= at <= server.volumes@.len(),
        forall|i: int|
            0 <= i < at ==> (#[trigger] server.volumes@[i]).1.volume_type@ != "sbs_volume"@,
    ensures
        models::block_volume_from(server.volumes@, from) == models::block_volume_from(
            server.volumes@,
            at,
        ),
    decreases at - from,
{
    if from < at {
        assert(server.volumes@[from].1.volume_type@ != "sbs_volume"@);
        lemma_blocks_from(server, from + 1, at);
    }
}

/// A GPU type goes with a snapshot exactly when the zone offers it, the size of the snapshot lies
/// within what its volumes may hold, both ends counted and an upper end of zero meaning none, and
/// its processors are of the one kind that will do, or of a kind that is not told.
pub proof fn lemma_what_goes_with_the_snapshot(
    zone: Seq<char>,
    gpu_type: Seq<char>,
    size: u64,
    products: ServerTypesResponse,
)
    ensures
        compatibility::objection(zone, gpu_type, size, products) is None <==> match products.product(
            gpu_type,
        ) {
            None => false,
            Some(product) => {
                &&& match product.volumes_constraint {
                    Some(limit) => limit.min_size <= size && (limit.max_size == 0 || size
                        <= limit.max_size),
                    None => true,
                }
                &&& match product.arch {
                    Some(kind) => kind@ == "x86_64"@,
                    None => true,
                }
            },
        },
        products.product(gpu_type) is None ==> compatibility::objection(
            zone,
            gpu_type,
            size,
            products,
        ) == Some("Product "@ + gpu_type + " is not offered in "@ + zone),
        products.product(gpu_type) matches Some(product) ==> match product.volumes_constraint {
            Some(limit) => {
                &&& size < limit.min_size ==> compatibility::objection(
                    zone,
                    gpu_type,
                    size,
                    products,
                ) == Some(
                    "Snapshot size "@ + text::decimal(size as nat)
                        + " bytes is below product minimum constraint of "@ + text::decimal(
                        limit.min_size as nat,
                    ) + " bytes"@,
                )
                &&& limit.min_size <= size && 0 < limit.max_size && limit.max_size < size
                    ==> compatibility::objection(zone, gpu_type, size, products) == Some(
                    "Snapshot size "@ + text::decimal(size as nat)
                        + " bytes exceeds product maximum constraint of "@ + text::decimal(
                        limit.max_size as nat,
                    ) + " bytes"@,
                )
            },
            None => match product.arch {
                Some(kind) => kind@ != "x86_64"@ ==> compatibility::objection(
                    zone,
                    gpu_type,
                    size,
                    products,
                ) == Some("Product architecture "@ + kind@ + " is incompatible (expected x86_64)"@),
                None => true,
            },
        },
{
}

/// The products that are named as on offer are those of the zone, in order, each in quotes.
pub proof fn lemma_what_is_not_available(
    zone: Seq<char>,
    named: Seq<char>,
    products: ServerTypesResponse,
)
    ensures
        instances::unavailable(zone, named, products) == AppErrorView::InstanceTypeUnavailable(
            "Instance type "@ + named + " is not available in zone "@ + zone
                + ". Available types: "@ + ("["@ + text::joined(
                Seq::new(
                    products.servers@.len(),
                    |i: int| outside::quoted(products.servers@[i].0@),
                ),
                ", "@,
            ) + "]"@),
        ),
{
    assert(products.servers@.map_values(
        |s: (String, models::ServerTypeDetails)| outside::quoted(s.0@),
    ) =~= Seq::new(products.servers@.len(), |i: int| outside::quoted(products.servers@[i].0@)));
}

// ---------------------------------------------------------------- checks

/// The checks are carried out one behind the other, the next at the end of the list: each asks for
/// what it is about, a good answer leaves the others, and an error ends them.
pub proof fn lemma_checks(
    checks: ChecksView,
    zone: Seq<char>,
    snapshot: Snapshot,
    products: ServerTypesResponse,
    e: AppError,
)
    requires
        checks.failure is None,
        checks.left.len() > 0,
    ensures
        match checks.left.last() {
            Check::Account => {
                let good = checks.after(zone, Reply::Done(Ok::<(), AppError>(())));
                let bad = checks.after(zone, Reply::Done(Err::<(), AppError>(e)));
                &&& checks.pending() == Some(CallView::ValidateAuth)
                &&& good.left == checks.left.drop_last() && good.failure is None
                &&& bad.failure == Some(e@) && bad.pending() is None
            },
            Check::Snapshot => {
                let good = checks.after(zone, Reply::Snapshot(Ok::<Snapshot, AppError>(snapshot)));
                let bad = checks.after(zone, Reply::Snapshot(Err::<Snapshot, AppError>(e)));
                &&& checks.pending() == Some(
                    CallView::GetSnapshot { snapshot_id: checks.snapshot_id },
                )
                &&& good.left == checks.left.drop_last() && good.failure is None
                &&& bad.failure == Some(e@) && bad.pending() is None
            },
            Check::InstanceType => {
                let seen = checks.after(
                    zone,
                    Reply::Products(Ok::<ServerTypesResponse, AppError>(products)),
                );
                let bad = checks.after(
                    zone,
                    Reply::Products(Err::<ServerTypesResponse, AppError>(e)),
                );
                let offered = exists|i: int|
                    0 <= i < checks.types.len() && products.product(#[trigger] checks.types[i])
                        is Some;
                &&& checks.pending() == Some(CallView::ListProducts)
                &&& offered ==> seen.left == checks.left.drop_last() && seen.failure is None
                &&& !offered ==> seen.failure == Some(
                    instances::unavailable(zone, text::joined(checks.types, ", "@), products),
                )
                &&& bad.failure == Some(e@) && bad.pending() is None
            },
        },
{
}

/// When nothing is left to be checked, nothing is asked for, and nothing changes any more.
pub proof fn lemma_checks_end(checks: ChecksView, zone: Seq<char>, reply: Reply)
    requires
        checks.failure is Some || checks.left.len() == 0,
    ensures
        checks.pending() is None,
        checks.after(zone, reply) == checks,
{
}

// ---------------------------------------------------------------- records from an earlier run

/// What a record from an earlier run is worth: nothing where it holds nothing; where it names an
/// instance, that is looked at; anything else it holds has to be removed. An instance that is up can
/// be used where the record says that everything is up and its address is known and not attached to
/// another; one that is gone, or not up, has to be removed. Any other error is handed on.
pub proof fn lemma_worth_of_a_record(
    state: StateView,
    server: Server,
    ip: InstanceIp,
    e: AppError,
)
    ensures
        ({
            let start = ReconciliationView::begun(state);
            let removal = ReconciliationView::Decided(
                Ok::<OutcomeView, AppErrorView>(OutcomeView::NeedsCleanupAndRestart),
            );
            let seen = start.after(state, Reply::Server(Ok::<Server, AppError>(server)));
            let unseen = start.after(state, Reply::Server(Err::<Server, AppError>(e)));
            let attached = seen.after(state, Reply::Ip(Ok::<InstanceIp, AppError>(ip)));
            let missing = seen.after(state, Reply::Ip(Err::<InstanceIp, AppError>(e)));
            let nothing = state.instance_id is None && state.volume_id is None
                && state.public_ip_id is None;
            let up = server.state@ == "running"@ && state.phase is Ready;
            let taken = ip.server is Some && ip.server->0.id@ != server.id@;
            let use_it = ReconciliationView::Decided(
                Ok::<OutcomeView, AppErrorView>(
                    OutcomeView::ResumeRunning {
                        ip_address: state.public_ip_address->0,
                        boot_volume_id: models::boot_volume_of(server),
                    },
                ),
            );
            &&& nothing ==> start == ReconciliationView::Decided(
                Ok::<OutcomeView, AppErrorView>(OutcomeView::NoState),
            )
            &&& !nothing && state.instance_id is None ==> start == removal
            &&& state.instance_id matches Some(id) ==> {
                &&& start.pending(state) == Some(CallView::GetServer { server_id: id })
                &&& !up ==> seen == removal
                &&& error::says_not_found(e@) ==> unseen == removal
                &&& !error::says_not_found(e@) ==> unseen == ReconciliationView::Decided(
                    Err::<OutcomeView, AppErrorView>(e@),
                )
                &&& up && state.public_ip_id is None && state.public_ip_address is Some ==> seen
                    == use_it
                &&& up && state.public_ip_id is None && state.public_ip_address is None ==> seen
                    == removal
                &&& up && state.public_ip_id is Some ==> {
                    let ip_id = state.public_ip_id->0;
                    &&& seen.pending(state) == Some(CallView::GetPublicIp { ip_id })
                    &&& taken ==> attached == ReconciliationView::Decided(
                        Err::<OutcomeView, AppErrorView>(
                            AppErrorView::IpAllocationFailed(
                                "Conflicting attachment: Public IP "@ + ip_id
                                    + " is already attached to a different server: "@
                                    + ip.server->0.name@ + " ("@ + ip.server->0.id@ + ")"@,
                            ),
                        ),
                    )
                    &&& !taken && state.public_ip_address is Some ==> attached == use_it
                    &&& !taken && state.public_ip_address is None ==> attached == removal
                    &&& error::says_not_found(e@) ==> missing == removal
                    &&& !error::says_not_found(e@) ==> missing == ReconciliationView::Decided(
                        Err::<OutcomeView, AppErrorView>(e@),
                    )
                }
            }
        }),
{
}

// ---------------------------------------------------------------- calls

/// Whether a call is carried out well.
pub open spec fn well(settled: Settled) -> bool {
    settled matches Settled::Reply(Reply::Done(Ok(_)))
}

/// Whether a call failed with an error.
pub open spec fn failed_with(settled: Settled, e: AppErrorView) -> bool {
    settled matches Settled::Reply(Reply::Done(Err(cause))) && cause@ == e
}

/// Whether a call is to be made again after some seconds.
pub open spec fn again(settled: Settled, seconds: u64) -> bool {
    settled matches Settled::Again { wait_secs } && wait_secs == seconds
}

/// An instance that comes up is looked at until it is running, or in error; every look that shows
/// neither, and every one that fails, is followed by another after the time between two.
pub proof fn lemma_waiting_for_an_instance(
    client: ScalewayClient,
    server_id: Seq<char>,
    timeout_secs: u64,
    poll_secs: u64,
    attempts: u32,
    answer: Result<models::ServerResponse, AppError>,
    settled: Settled,
)
    ensures
        operations::settles(
            client,
            CallView::WaitRunning { server_id, timeout_secs, poll_secs },
            attempts,
            Answer::Server(answer),
            settled,
        ) ==> match answer {
            Ok(seen) => {
                &&& seen.server.state@ == "running"@ ==> (settled matches Settled::Reply(
                    Reply::Server(Ok(server)),
                ) && server == seen.server)
                &&& seen.server.state@ == "error"@ ==> (settled matches Settled::Reply(
                    Reply::Server(Err(e)),
                ) && e@ == AppErrorView::InstanceCreationFailed("Instance entered error state"@))
                &&& seen.server.state@ != "running"@ && seen.server.state@ != "error"@ ==> again(
                    settled,
                    poll_secs,
                )
            },
            Err(_) => again(settled, poll_secs),
        },
        operations::settles(
            client,
            CallView::WaitStopped { server_id, timeout_secs, poll_secs },
            attempts,
            Answer::Server(answer),
            settled,
        ) ==> match answer {
            Ok(seen) => if seen.server.state@ == "stopped"@ {
                well(settled)
            } else {
                again(settled, poll_secs)
            },
            Err(e) => if error::says_not_found(e@) {
                well(settled)
            } else {
                again(settled, poll_secs)
            },
        },
{
    reveal_strlit("running");
    reveal_strlit("error");
    assert("running"@.len() != "error"@.len());
}

/// What was removed is looked at until it is gone, and only a refusal with the status 404 shows that.
pub proof fn lemma_waiting_for_a_removal(
    client: ScalewayClient,
    id: Seq<char>,
    timeout_secs: u64,
    poll_secs: u64,
    attempts: u32,
    answer: Result<(), AppError>,
    settled: Settled,
)
    ensures
        operations::settles(
            client,
            CallView::VerifyInstanceDeleted { server_id: id, timeout_secs, poll_secs },
            attempts,
            Answer::Plain(answer),
            settled,
        ) || operations::settles(
            client,
            CallView::VerifyVolumeDeleted { volume_id: id, timeout_secs, poll_secs },
            attempts,
            Answer::Plain(answer),
            settled,
        ) || operations::settles(
            client,
            CallView::VerifyPublicIpDeleted { ip_id: id, timeout_secs, poll_secs },
            attempts,
            Answer::Plain(answer),
            settled,
        ) ==> match answer {
            Ok(_) => again(settled, poll_secs),
            Err(e) => if error::says_not_found(e@) {
                well(settled)
            } else {
                again(settled, poll_secs)
            },
        },
{
}

/// A removal is good where it is carried out and where the thing was gone already; any other refusal
/// is told with what could not be removed. The removal of a volume that is not ready for it is asked
/// for again after five seconds, six times in all.
pub proof fn lemma_removals_come_to(
    client: ScalewayClient,
    id: Seq<char>,
    snapshot_id: Seq<char>,
    attempts: u32,
    answer: Result<(), AppError>,
    settled: Settled,
)
    ensures
        operations::settles(
            client,
            CallView::DeleteInstance { server_id: id, snapshot_id },
            attempts,
            Answer::Plain(answer),
            settled,
        ) ==> match answer {
            Ok(_) => well(settled),
            Err(e) => if error::says_not_found(e@) {
                well(settled)
            } else {
                failed_with(
                    settled,
                    AppErrorView::CleanupIncomplete(
                        "Failed to delete server "@ + id + ": "@ + error::error_text(e@),
                    ),
                )
            },
        },
        operations::settles(
            client,
            CallView::DeletePublicIp { ip_id: id, snapshot_id },
            attempts,
            Answer::Plain(answer),
            settled,
        ) ==> match answer {
            Ok(_) => well(settled),
            Err(e) => if error::says_not_found(e@) {
                well(settled)
            } else {
                failed_with(
                    settled,
                    AppErrorView::CleanupIncomplete(
                        "Failed to delete IP "@ + id + ": "@ + error::error_text(e@),
                    ),
                )
            },
        },
        operations::settles(
            client,
            CallView::DeleteVolume { volume_id: id, snapshot_id },
            attempts,
            Answer::Plain(answer),
            settled,
        ) ==> match answer {
            Ok(_) => well(settled),
            Err(e) => {
                let held = e@ matches AppErrorView::ApiError(m) && text::stands_at(
                    m,
                    "API Error (status 412 "@,
                    0,
                );
                if error::says_not_found(e@) {
                    well(settled)
                } else if held && attempts < 6 {
                    again(settled, 5)
                } else {
                    failed_with(
                        settled,
                        AppErrorView::CleanupIncomplete(
                            "Failed to delete volume "@ + id + ": "@ + error::error_text(e@),
                        ),
                    )
                }
            },
        },
{
}

/// What is looked at or made is handed on as the API gives it; what cannot be made is told with why
/// not.
pub proof fn lemma_what_is_handed_on(
    client: ScalewayClient,
    attempts: u32,
    server: Result<models::ServerResponse, AppError>,
    ip: Result<models::IpResponse, AppError>,
    call: CallView,
    settled: Settled,
)
    ensures
        operations::settles(client, call, attempts, Answer::Server(server), settled) && (call
            is GetServer || call is CreateInstance) ==> match server {
            Ok(seen) => settled matches Settled::Reply(Reply::Server(Ok(s))) && s == seen.server,
            Err(e) => settled matches Settled::Reply(Reply::Server(Err(told))) && told@ == if call
                is GetServer {
                e@
            } else {
                AppErrorView::InstanceCreationFailed(error::error_text(e@))
            },
        },
        operations::settles(client, call, attempts, Answer::Ip(ip), settled) && (call is GetPublicIp
            || call is AllocateIp) ==> match ip {
            Ok(seen) => settled matches Settled::Reply(Reply::Ip(Ok(got))) && got == seen.ip,
            Err(e) => settled matches Settled::Reply(Reply::Ip(Err(told))) && told@ == if call
                is GetPublicIp {
                e@
            } else {
                AppErrorView::IpAllocationFailed(error::error_text(e@))
            },
        },
{
}

/// An instance that cannot be switched off is taken to be off; one that cannot be switched on, and an
/// address that cannot be attached, is told with why not; the account is told with what is wrong.
pub proof fn lemma_what_acts_come_to(
    client: ScalewayClient,
    call: CallView,
    attempts: u32,
    answer: Result<(), AppError>,
    settled: Settled,
)
    requires
        operations::settles(client, call, attempts, Answer::Plain(answer), settled),
    ensures
        call is PowerOff ==> well(settled),
        call is PowerOn ==> match answer {
            Ok(_) => well(settled),
            Err(e) => failed_with(
                settled,
                AppErrorView::InstanceCreationFailed(
                    "Failed to power on: "@ + error::error_text(e@),
                ),
            ),
        },
        call is AttachIp ==> match answer {
            Ok(_) => well(settled),
            Err(e) => failed_with(
                settled,
                AppErrorView::IpAllocationFailed("Failed to attach IP:\n"@ + error::error_text(e@)),
            ),
        },
        call is ValidateAuth ==> match answer {
            Ok(_) => well(settled),
            Err(e) => failed_with(settled, auth::auth_error(client.zone@, client.project_id@, e@)),
        },
{
}

} // verus!
