//! What the requests to the API ask for.

use vstd::prelude::*;
#[allow(unused_imports)]
use vstd::string::*;

#[allow(unused_imports)]
use crate::error::AppErrorView;
#[allow(unused_imports)]
use crate::json;
#[allow(unused_imports)]
use crate::outside;
#[allow(unused_imports)]
use crate::scaleway::calls::CallView;
#[allow(unused_imports)]
use crate::scaleway::client::{ApiMethod, ApiRequestView};
#[allow(unused_imports)]
use crate::scaleway::instances;
#[allow(unused_imports)]
use crate::scaleway::ips;
#[allow(unused_imports)]
use crate::scaleway::models::{CreateServerRequest, CreateVolumeRequest, SnapshotBootVolume};
#[allow(unused_imports)]
use crate::scaleway::operations;
#[allow(unused_imports)]
use crate::scaleway::paths;
#[allow(unused_imports)]
use crate::scaleway::polling;
#[allow(unused_imports)]
use crate::scaleway::volumes;
#[allow(unused_imports)]
use crate::text;
#[allow(unused_imports)]
use crate::text_laws;

verus! {

// ---------------------------------------------------------------- acting on a server

/// The body of the request to act on a server is a JSON object whose one member is the action; and
/// different actions have different bodies.
pub proof fn lemma_action_is_the_one_asked_for(action: Seq<char>, other: Seq<char>)
    ensures
        text_laws::json_plain(action) ==> instances::action_json(action) == "{\"action\":\""@
            + action + "\"}"@,
        instances::action_json(action) == instances::action_json(other) ==> action == other,
{
    reveal_strlit("{\"action\":");
    reveal_strlit("{\"action\":\"");
    reveal_strlit("\"}");
    reveal_strlit("}");
    if text_laws::json_plain(action) {
        text_laws::lemma_plain_json(action);
        assert(instances::action_json(action) =~= "{\"action\":\""@ + action + "\"}"@);
    }
    let one = instances::action_json(action);
    let two = instances::action_json(other);
    if one == two {
        assert(outside::json_string(action) =~= one.subrange(10, one.len() - 1));
        assert(outside::json_string(other) =~= two.subrange(10, two.len() - 1));
        text_laws::lemma_json_strings_tell_apart(action, other);
    }
}

/// To switch a server on, its action is posted with `poweron`; to switch it off, with `poweroff`:
/// nothing else stands in the body.
pub proof fn lemma_power_requests(
    zone: Seq<char>,
    project_id: Seq<char>,
    server_id: Seq<char>,
    elapsed_nanos: u128,
)
    ensures
        operations::next_request(
            zone,
            project_id,
            CallView::PowerOn { server_id },
            elapsed_nanos,
        ) == Some(
            Ok::<ApiRequestView, AppErrorView>(
                ApiRequestView {
                    method: ApiMethod::Post,
                    path: "/instance/v1/zones/"@ + zone + "/servers/"@ + server_id + "/action"@,
                    query: None,
                    body: Some("{\"action\":\"poweron\"}"@),
                },
            ),
        ),
        operations::next_request(
            zone,
            project_id,
            CallView::PowerOff { server_id },
            elapsed_nanos,
        ) == Some(
            Ok::<ApiRequestView, AppErrorView>(
                ApiRequestView {
                    method: ApiMethod::Post,
                    path: "/instance/v1/zones/"@ + zone + "/servers/"@ + server_id + "/action"@,
                    query: None,
                    body: Some("{\"action\":\"poweroff\"}"@),
                },
            ),
        ),
        instances::action_json("poweron"@) == "{\"action\":\"poweron\"}"@,
        instances::action_json("poweroff"@) == "{\"action\":\"poweroff\"}"@,
{
    reveal_strlit("poweron");
    reveal_strlit("poweroff");
    reveal_strlit("{\"action\":\"");
    reveal_strlit("\"}");
    reveal_strlit("{\"action\":\"poweron\"}");
    reveal_strlit("{\"action\":\"poweroff\"}");
    lemma_action_is_the_one_asked_for("poweron"@, "poweroff"@);
    lemma_action_is_the_one_asked_for("poweroff"@, "poweron"@);
    assert("{\"action\":\""@ + "poweron"@ + "\"}"@ =~= "{\"action\":\"poweron\"}"@);
    assert("{\"action\":\""@ + "poweroff"@ + "\"}"@ =~= "{\"action\":\"poweroff\"}"@);
}

// ---------------------------------------------------------------- looking

/// Whether a request is a bare look at a path.
pub open spec fn looks_at(
    request: Option<Result<ApiRequestView, AppErrorView>>,
    path: Seq<char>,
) -> bool {
    request == Some(
        Ok::<ApiRequestView, AppErrorView>(
            ApiRequestView { method: ApiMethod::Get, path, query: None, body: None },
        ),
    )
}

/// A look is a look at the resource that is named, where it lies in the zone.
pub proof fn lemma_looks(
    zone: Seq<char>,
    project_id: Seq<char>,
    id: Seq<char>,
    elapsed_nanos: u128,
)
    ensures
        looks_at(
            operations::next_request(
                zone,
                project_id,
                CallView::GetServer { server_id: id },
                elapsed_nanos,
            ),
            "/instance/v1/zones/"@ + zone + "/servers/"@ + id,
        ),
        looks_at(
            operations::next_request(
                zone,
                project_id,
                CallView::GetVolume { volume_id: id },
                elapsed_nanos,
            ),
            "/block/v1/zones/"@ + zone + "/volumes/"@ + id,
        ),
        looks_at(
            operations::next_request(
                zone,
                project_id,
                CallView::GetPublicIp { ip_id: id },
                elapsed_nanos,
            ),
            "/instance/v1/zones/"@ + zone + "/ips/"@ + id,
        ),
        looks_at(
            operations::next_request(
                zone,
                project_id,
                CallView::GetSnapshot { snapshot_id: id },
                elapsed_nanos,
            ),
            "/block/v1/zones/"@ + zone + "/snapshots/"@ + id,
        ),
        looks_at(
            operations::next_request(zone, project_id, CallView::ListProducts, elapsed_nanos),
            "/instance/v1/zones/"@ + zone + "/products/servers"@,
        ),
        operations::next_request(zone, project_id, CallView::ValidateAuth, elapsed_nanos) == Some(
            Ok::<ApiRequestView, AppErrorView>(
                ApiRequestView {
                    method: ApiMethod::Get,
                    path: "/instance/v1/zones/"@ + zone + "/servers"@,
                    query: Some(("project"@, project_id)),
                    body: None,
                },
            ),
        ),
{
}

/// A wait looks at what it waits for as long as no more time has gone by than it may take, a second
/// being a thousand million nanoseconds; behind that it fails.
pub proof fn lemma_waits(
    zone: Seq<char>,
    project_id: Seq<char>,
    id: Seq<char>,
    timeout_secs: u64,
    poll_secs: u64,
    elapsed_nanos: u128,
)
    ensures
        ({
            let server = "/instance/v1/zones/"@ + zone + "/servers/"@ + id;
            let volume = "/block/v1/zones/"@ + zone + "/volumes/"@ + id;
            let ip = "/instance/v1/zones/"@ + zone + "/ips/"@ + id;
            let running = operations::next_request(
                zone,
                project_id,
                CallView::WaitRunning { server_id: id, timeout_secs, poll_secs },
                elapsed_nanos,
            );
            let stopped = operations::next_request(
                zone,
                project_id,
                CallView::WaitStopped { server_id: id, timeout_secs, poll_secs },
                elapsed_nanos,
            );
            let no_server = operations::next_request(
                zone,
                project_id,
                CallView::VerifyInstanceDeleted { server_id: id, timeout_secs, poll_secs },
                elapsed_nanos,
            );
            let no_volume = operations::next_request(
                zone,
                project_id,
                CallView::VerifyVolumeDeleted { volume_id: id, timeout_secs, poll_secs },
                elapsed_nanos,
            );
            let no_ip = operations::next_request(
                zone,
                project_id,
                CallView::VerifyPublicIpDeleted { ip_id: id, timeout_secs, poll_secs },
                elapsed_nanos,
            );
            if elapsed_nanos <= 1_000_000_000 * timeout_secs {
                &&& looks_at(running, server)
                &&& looks_at(stopped, server)
                &&& looks_at(no_server, server)
                &&& looks_at(no_volume, volume)
                &&& looks_at(no_ip, ip)
            } else {
                &&& running == Some(
                    Err::<ApiRequestView, AppErrorView>(AppErrorView::InstanceStartupTimeout),
                )
                &&& stopped == Some(
                    Err::<ApiRequestView, AppErrorView>(
                        AppErrorView::CleanupIncomplete("Timeout waiting for server to stop"@),
                    ),
                )
                &&& no_server matches Some(Err(AppErrorView::CleanupIncomplete(m)))
                    && text::holds_text(m, id)
                &&& no_volume matches Some(Err(AppErrorView::CleanupIncomplete(m)))
                    && text::holds_text(m, id)
                &&& no_ip matches Some(Err(AppErrorView::CleanupIncomplete(m)))
                    && text::holds_text(m, id)
            }
        }),
{
    text_laws::lemma_stands_between(
        "Timeout waiting for instance "@,
        id,
        " deletion verification"@,
    );
    text_laws::lemma_stands_between("Timeout waiting for volume "@, id, " deletion verification"@);
    text_laws::lemma_stands_between(
        "Timeout waiting for public IP "@,
        id,
        " deletion verification"@,
    );
}

// ---------------------------------------------------------------- removing

/// Whether a request is a bare removal of what lies at a path.
pub open spec fn removes(
    request: Option<Result<ApiRequestView, AppErrorView>>,
    path: Seq<char>,
) -> bool {
    request == Some(
        Ok::<ApiRequestView, AppErrorView>(
            ApiRequestView { method: ApiMethod::Delete, path, query: None, body: None },
        ),
    )
}

/// A removal is the removal of the resource that is named and of nothing else; that of the snapshot
/// is refused, whatever it is asked for as.
pub proof fn lemma_removals(
    zone: Seq<char>,
    project_id: Seq<char>,
    id: Seq<char>,
    snapshot_id: Seq<char>,
    elapsed_nanos: u128,
)
    ensures
        ({
            let server = operations::next_request(
                zone,
                project_id,
                CallView::DeleteInstance { server_id: id, snapshot_id },
                elapsed_nanos,
            );
            let volume = operations::next_request(
                zone,
                project_id,
                CallView::DeleteVolume { volume_id: id, snapshot_id },
                elapsed_nanos,
            );
            let ip = operations::next_request(
                zone,
                project_id,
                CallView::DeletePublicIp { ip_id: id, snapshot_id },
                elapsed_nanos,
            );
            if id == snapshot_id {
                &&& server == Some(
                    Err::<ApiRequestView, AppErrorView>(
                        AppErrorView::SafetyViolation(
                            "Refusing to delete source snapshot as a server"@,
                        ),
                    ),
                )
                &&& volume == Some(
                    Err::<ApiRequestView, AppErrorView>(
                        AppErrorView::SafetyViolation(
                            "Refusing to delete source snapshot as a volume"@,
                        ),
                    ),
                )
                &&& ip == Some(
                    Err::<ApiRequestView, AppErrorView>(
                        AppErrorView::SafetyViolation(
                            "Refusing to delete source snapshot as an IP"@,
                        ),
                    ),
                )
            } else {
                &&& removes(server, "/instance/v1/zones/"@ + zone + "/servers/"@ + id)
                &&& removes(volume, "/block/v1/zones/"@ + zone + "/volumes/"@ + id)
                &&& removes(ip, "/instance/v1/zones/"@ + zone + "/ips/"@ + id)
            }
        }),
{
}

/// Different resources lie at different places.
pub proof fn lemma_places_tell_apart(zone: Seq<char>, one: Seq<char>, other: Seq<char>)
    ensures
        paths::server(zone, one) == paths::server(zone, other) ==> one == other,
        paths::volume(zone, one) == paths::volume(zone, other) ==> one == other,
        paths::ip(zone, one) == paths::ip(zone, other) ==> one == other,
        paths::snapshot(zone, one) == paths::snapshot(zone, other) ==> one == other,
{
    let servers = "/instance/v1/zones/"@ + zone + "/servers/"@;
    let volumes = "/block/v1/zones/"@ + zone + "/volumes/"@;
    let ips = "/instance/v1/zones/"@ + zone + "/ips/"@;
    let snapshots = "/block/v1/zones/"@ + zone + "/snapshots/"@;
    assert((servers + one).skip(servers.len() as int) =~= one);
    assert((servers + other).skip(servers.len() as int) =~= other);
    assert((volumes + one).skip(volumes.len() as int) =~= one);
    assert((volumes + other).skip(volumes.len() as int) =~= other);
    assert((ips + one).skip(ips.len() as int) =~= one);
    assert((ips + other).skip(ips.len() as int) =~= other);
    assert((snapshots + one).skip(snapshots.len() as int) =~= one);
    assert((snapshots + other).skip(snapshots.len() as int) =~= other);
}

// ---------------------------------------------------------------- making

proof fn lemma_three_strings(a: Seq<char>, b: Seq<char>, c: Seq<char>)
    ensures
        json::string_array(seq![a, b, c]) == "["@ + outside::json_string(a) + ","@
            + outside::json_string(b) + ","@ + outside::json_string(c) + "]"@,
{
    let f = |t: Seq<char>| outside::json_string(t);
    let items = seq![a, b, c].map_values(f);
    let two = seq![outside::json_string(a), outside::json_string(b)];
    let one = seq![outside::json_string(a)];
    assert(items.drop_last() =~= two);
    assert(two.drop_last() =~= one);
    assert(text::joined(one, ","@) == outside::json_string(a));
    assert(text::joined(two, ","@) == outside::json_string(a) + ","@ + outside::json_string(b));
    assert(text::joined(items, ","@) == outside::json_string(a) + ","@ + outside::json_string(b)
        + ","@ + outside::json_string(c));
    assert(json::string_array(seq![a, b, c]) =~= "["@ + outside::json_string(a) + ","@
        + outside::json_string(b) + ","@ + outside::json_string(c) + "]"@);
}

/// The tags by which what an attempt makes is found again: they name the program and the attempt.
pub proof fn lemma_tags_name_the_attempt(attempt_id: Seq<char>, other: Seq<char>)
    ensures
        instances::attempt_tags(attempt_id).len() == 3,
        instances::attempt_tags(attempt_id)[0] == "managed-by=scaleway-chat"@,
        instances::attempt_tags(attempt_id)[1] == "application=scaleway-chat"@,
        instances::attempt_tags(attempt_id)[2] == "attempt-id="@ + attempt_id,
        instances::attempt_tags(attempt_id) == instances::attempt_tags(other) ==> attempt_id
            == other,
{
    let front = "attempt-id="@;
    assert((front + attempt_id).skip(front.len() as int) =~= attempt_id);
    assert((front + other).skip(front.len() as int) =~= other);
    if instances::attempt_tags(attempt_id) == instances::attempt_tags(other) {
        assert(instances::attempt_tags(attempt_id)[2] == instances::attempt_tags(other)[2]);
    }
}

/// An instance is asked for in the zone, with the name, the project, the product and the snapshot
/// that are named: it boots from a block volume made of that snapshot, and carries the tags of the
/// attempt. An identifier that is none is refused, that of the snapshot first.
pub proof fn lemma_instance_request(
    zone: Seq<char>,
    project_id: Seq<char>,
    name: Seq<char>,
    gpu_type: Seq<char>,
    snapshot_id: Seq<char>,
    attempt_id: Seq<char>,
    elapsed_nanos: u128,
)
    ensures
        ({
            let request = operations::next_request(
                zone,
                project_id,
                CallView::CreateInstance { name, gpu_type, snapshot_id, attempt_id },
                elapsed_nanos,
            );
            match (outside::uuid_reading(snapshot_id), outside::uuid_reading(project_id)) {
                (Ok(snapshot), Ok(project)) => {
                    &&& request matches Some(Ok(r))
                    &&& r.method is Post
                    &&& r.path == "/instance/v1/zones/"@ + zone + "/servers"@
                    &&& r.query is None
                    &&& r.body == Some(
                        "{\"name\":"@ + outside::json_string(name) + ",\"project\":"@
                            + outside::json_string(project) + ",\"commercial_type\":"@
                            + outside::json_string(gpu_type) + ",\"volumes\":{"@
                            + outside::json_string("0"@) + ":"@ + ("{\"base_snapshot\":"@
                            + outside::json_string(snapshot) + ",\"name\":"@
                            + outside::json_string(name + "-root"@)
                            + ",\"volume_type\":\"sbs_volume\",\"boot\":"@ + "true"@ + "}"@)
                            + "},\"tags\":"@ + ("["@ + outside::json_string(
                            "managed-by=scaleway-chat"@,
                        ) + ","@ + outside::json_string("application=scaleway-chat"@) + ","@
                            + outside::json_string("attempt-id="@ + attempt_id) + "]"@) + "}"@,
                    )
                },
                (Err(why), _) => request == Some(
                    Err::<ApiRequestView, AppErrorView>(
                        AppErrorView::InvalidConfig("Invalid snapshot UUID: "@ + why),
                    ),
                ),
                (_, Err(why)) => request == Some(
                    Err::<ApiRequestView, AppErrorView>(
                        AppErrorView::InvalidConfig("Invalid project UUID: "@ + why),
                    ),
                ),
            }
        }),
{
    lemma_three_strings(
        "managed-by=scaleway-chat"@,
        "application=scaleway-chat"@,
        "attempt-id="@ + attempt_id,
    );
}

/// A public address is asked for in the zone, for the project, as one that is routed, with the tags
/// of the attempt.
pub proof fn lemma_address_request(
    zone: Seq<char>,
    project_id: Seq<char>,
    attempt_id: Seq<char>,
    elapsed_nanos: u128,
)
    ensures
        operations::next_request(
            zone,
            project_id,
            CallView::AllocateIp { attempt_id },
            elapsed_nanos,
        ) matches Some(Ok(r)) && r.method is Post && r.path == "/instance/v1/zones/"@ + zone
            + "/ips"@ && r.query is None && r.body == Some(
            "{\"project\":"@ + outside::json_string(project_id) + ",\"type\":"@
                + outside::json_string("routed_ipv4"@) + ",\"tags\":"@ + ("["@
                + outside::json_string("managed-by=scaleway-chat"@) + ","@ + outside::json_string(
                "application=scaleway-chat"@,
            ) + ","@ + outside::json_string("attempt-id="@ + attempt_id) + "]"@) + "}"@,
        ),
{
    lemma_three_strings(
        "managed-by=scaleway-chat"@,
        "application=scaleway-chat"@,
        "attempt-id="@ + attempt_id,
    );
}

/// A public address is attached by a change of the address: the body names the server itself, and
/// different servers have different bodies.
pub proof fn lemma_attach_request(
    zone: Seq<char>,
    project_id: Seq<char>,
    ip_id: Seq<char>,
    server_id: Seq<char>,
    other: Seq<char>,
    elapsed_nanos: u128,
)
    ensures
        operations::next_request(
            zone,
            project_id,
            CallView::AttachIp { ip_id, server_id },
            elapsed_nanos,
        ) matches Some(Ok(r)) && r.method is Patch && r.path == "/instance/v1/zones/"@ + zone
            + "/ips/"@ + ip_id && r.query is None && r.body == Some(
            "{\"server\":"@ + outside::json_string(server_id) + "}"@,
        ),
        ips::attach_body(Some(server_id)) == ips::attach_body(Some(other)) ==> server_id == other,
        ips::attach_body(Some(server_id)) != ips::attach_body(None),
{
    reveal_strlit("{\"server\":");
    reveal_strlit("}");
    reveal_strlit("{\"server\":null}");
    reveal_strlit("\"");
    let one = ips::attach_body(Some(server_id));
    let two = ips::attach_body(Some(other));
    assert(one[10] == outside::json_string(server_id)[0]);
    assert(ips::attach_body(None)[10] == 'n');
    if one == two {
        assert(outside::json_string(server_id) =~= one.subrange(10, one.len() - 1));
        assert(outside::json_string(other) =~= two.subrange(10, two.len() - 1));
        text_laws::lemma_json_strings_tell_apart(server_id, other);
    }
}

/// A volume is restored from the snapshot that is named, for the project, at the standard
/// performance, with tags that name the snapshot.
pub proof fn lemma_restore_body(name: Seq<char>, project_id: Seq<char>, snapshot_id: Seq<char>)
    ensures
        volumes::restore_body(name, project_id, snapshot_id) == "{\"name\":"@
            + outside::json_string(name) + ",\"project_id\":"@ + outside::json_string(project_id)
            + ",\"perf_iops\":"@ + "5000"@ + ",\"from_snapshot\":"@ + ("{\"snapshot_id\":"@
            + outside::json_string(snapshot_id) + "}"@) + ",\"tags\":"@ + ("["@
            + outside::json_string("managed-by=scaleway-chat"@) + ","@ + outside::json_string(
            "application=scaleway-chat"@,
        ) + ","@ + outside::json_string("snapshot-id="@ + snapshot_id) + "]"@) + "}"@,
{
    reveal_strlit("5000");
    reveal_with_fuel(text::decimal, 4);
    assert(text::decimal(5000) =~= "5000"@);
    lemma_three_strings(
        "managed-by=scaleway-chat"@,
        "application=scaleway-chat"@,
        "snapshot-id="@ + snapshot_id,
    );
}

/// The request for a server in JSON holds its name, its project, its type, its volumes by slot and
/// its tags; each volume with the snapshot that it comes from, its name, its kind and whether it is
/// booted from.
pub proof fn lemma_server_request(request: CreateServerRequest)
    ensures
        request.json() == "{\"name\":"@ + outside::json_string(request.name@) + ",\"project\":"@
            + outside::json_string(request.project@) + ",\"commercial_type\":"@
            + outside::json_string(request.commercial_type@) + ",\"volumes\":{"@ + text::joined(
            Seq::new(
                request.volumes@.len(),
                |i: int|
                    outside::json_string(request.volumes@[i].0@) + ":"@ + ("{\"base_snapshot\":"@
                        + outside::json_string(request.volumes@[i].1.base_snapshot@)
                        + ",\"name\":"@ + outside::json_string(request.volumes@[i].1.name@)
                        + ",\"volume_type\":\"sbs_volume\",\"boot\":"@ + (
                    if request.volumes@[i].1.boot {
                        "true"@
                    } else {
                        "false"@
                    }) + "}"@),
            ),
            ","@,
        ) + "},\"tags\":"@ + json::string_array(text::texts(request.tags@)) + "}"@,
{
    let shown = Seq::new(
        request.volumes@.len(),
        |i: int|
            outside::json_string(request.volumes@[i].0@) + ":"@ + ("{\"base_snapshot\":"@
                + outside::json_string(request.volumes@[i].1.base_snapshot@) + ",\"name\":"@
                + outside::json_string(request.volumes@[i].1.name@)
                + ",\"volume_type\":\"sbs_volume\",\"boot\":"@ + (
            if request.volumes@[i].1.boot {
                "true"@
            } else {
                "false"@
            }) + "}"@),
    );
    let slots = request.volumes@.map_values(
        |slot: (String, SnapshotBootVolume)| instances::slot_json(slot),
    );
    assert forall|i: int| 0 <= i < slots.len() implies slots[i] == shown[i] by {
        assert(slots[i] == instances::slot_json(request.volumes@[i]));
    }
    assert(slots == shown);
}

/// The request for a volume in JSON holds its name, its project, its speed, the snapshot that it
/// comes from, `null` where there is none, and its tags.
pub proof fn lemma_volume_request(request: CreateVolumeRequest)
    ensures
        request.json() == "{\"name\":"@ + outside::json_string(request.name@) + ",\"project_id\":"@
            + outside::json_string(request.project_id@) + ",\"perf_iops\":"@ + text::decimal(
            request.perf_iops as nat,
        ) + ",\"from_snapshot\":"@ + (match request.from_snapshot {
            Some(source) => "{\"snapshot_id\":"@ + outside::json_string(source.snapshot_id@) + "}"@,
            None => "null"@,
        }) + ",\"tags\":"@ + json::string_array(text::texts(request.tags@)) + "}"@,
{
}

/// An address is attached to nothing by `null`, and the volumes of a zone lie beside one another.
pub proof fn lemma_detaching(zone: Seq<char>, id: Seq<char>)
    ensures
        ips::attach_body(None) == "{\"server\":null}"@,
        ips::attach_body(Some(id)) == "{\"server\":"@ + outside::json_string(id) + "}"@,
        paths::volumes(zone) == "/block/v1/zones/"@ + zone + "/volumes"@,
{
}

} // verus!
