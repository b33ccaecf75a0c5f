//! Instances: made, switched on and off, watched and removed.

use vstd::prelude::*;
#[allow(unused_imports)]
use vstd::string::*;

use crate::error::AppError;
#[allow(unused_imports)]
use crate::error::AppErrorView;
#[allow(unused_imports)]
use crate::error;
use crate::json::{string_array_text, truth_text};
#[allow(unused_imports)]
use crate::json;
use crate::outside::{json_quote, quoted_text, uuid_parse};
#[allow(unused_imports)]
use crate::outside;
use crate::scaleway::client::{ApiMethod, ApiRequest, ScalewayClient};
#[allow(unused_imports)]
use crate::scaleway::client::ApiRequestView;
#[allow(unused_imports)]
use crate::scaleway::client;
use crate::scaleway::models::{
    CreateServerRequest, InstanceVolumeType, Server, ServerActionRequest, ServerResponse,
    ServerTypeDetails, ServerTypesResponse, SnapshotBootVolume,
};
use crate::scaleway::paths::{products_path, server_action_path, server_path, servers_path};
#[allow(unused_imports)]
use crate::scaleway::paths;
use crate::scaleway::polling::timed_out;
#[allow(unused_imports)]
use crate::scaleway::polling;
use crate::text::{join, same_text};
#[allow(unused_imports)]
use crate::text;

verus! {

// ---------------------------------------------------------------- bodies

/// The boot volume of a new server, in JSON.
pub open spec fn boot_volume_json(volume: SnapshotBootVolume) -> Seq<char> {
    "{\"base_snapshot\":"@ + outside::json_string(volume.base_snapshot@) + ",\"name\":"@
        + outside::json_string(volume.name@) + ",\"volume_type\":\"sbs_volume\",\"boot\":"@
        + json::truth(volume.boot) + "}"@
}

/// A volume of a new server under its slot, in JSON.
pub open spec fn slot_json(slot: (String, SnapshotBootVolume)) -> Seq<char> {
    outside::json_string(slot.0@) + ":"@ + boot_volume_json(slot.1)
}

impl CreateServerRequest {
    /// The request in JSON.
    pub open spec fn json(self) -> Seq<char> {
        "{\"name\":"@ + outside::json_string(self.name@) + ",\"project\":"@ + outside::json_string(
            self.project@,
        ) + ",\"commercial_type\":"@ + outside::json_string(self.commercial_type@)
            + ",\"volumes\":{"@ + text::joined(
            self.volumes@.map_values(|slot: (String, SnapshotBootVolume)| slot_json(slot)),
            ","@,
        ) + "},\"tags\":"@ + json::string_array(text::texts(self.tags@)) + "}"@
    }

    /// The request in JSON.
    pub fn to_json(&self) -> (body: String)
        ensures
            body@ == self.json(),
    {
        let ghost all = self.volumes@.map_values(
            |slot: (String, SnapshotBootVolume)| slot_json(slot),
        );
        let mut slots: Vec<String> = Vec::new();
        let mut i: usize = 0;
        while i < self.volumes.len()
            invariant
                i <= self.volumes@.len(),
                all == self.volumes@.map_values(
                    |slot: (String, SnapshotBootVolume)| slot_json(slot),
                ),
                text::texts(slots@) == all.take(i as int),
            decreases self.volumes@.len() - i,
        {
            let ghost before = slots@;
            let volume: &SnapshotBootVolume = &self.volumes[i].1;
            let shown: String = "{\"base_snapshot\":".to_owned()
                .concat(json_quote(volume.base_snapshot.as_str()).as_str())
                .concat(",\"name\":")
                .concat(json_quote(volume.name.as_str()).as_str())
                .concat(",\"volume_type\":\"sbs_volume\",\"boot\":")
                .concat(truth_text(volume.boot).as_str())
                .concat("}");
            slots.push(
                json_quote(self.volumes[i].0.as_str()).concat(":").concat(shown.as_str()),
            );
            proof {
                assert(text::texts(slots@) =~= text::texts(before).push(all[i as int]));
                assert(all.take(i + 1) =~= all.take(i as int).push(all[i as int]));
            }
            i = i + 1;
        }
        proof {
            assert(all.take(i as int) =~= all);
        }
        "{\"name\":".to_owned()
            .concat(json_quote(self.name.as_str()).as_str())
            .concat(",\"project\":")
            .concat(json_quote(self.project.as_str()).as_str())
            .concat(",\"commercial_type\":")
            .concat(json_quote(self.commercial_type.as_str()).as_str())
            .concat(",\"volumes\":{")
            .concat(join(&slots, ",").as_str())
            .concat("},\"tags\":")
            .concat(string_array_text(&self.tags).as_str())
            .concat("}")
    }
}

impl ServerActionRequest {
    /// The request in JSON.
    pub open spec fn json(self) -> Seq<char> {
        action_json(self.action@)
    }

    /// The request in JSON.
    pub fn to_json(&self) -> (body: String)
        ensures
            body@ == self.json(),
    {
        "{\"action\":".to_owned().concat(json_quote(self.action.as_str()).as_str()).concat("}")
    }
}

/// A request to act on a server, in JSON.
pub open spec fn action_json(action: Seq<char>) -> Seq<char> {
    "{\"action\":"@ + outside::json_string(action) + "}"@
}

/// The tags of everything that an attempt makes.
pub open spec fn attempt_tags(attempt_id: Seq<char>) -> Seq<Seq<char>> {
    seq![
        "managed-by=scaleway-chat"@,
        "application=scaleway-chat"@,
        "attempt-id="@ + attempt_id,
    ]
}

/// The tags of everything that an attempt makes.
pub fn attempt_tag_list(attempt_id: &str) -> (tags: Vec<String>)
    ensures
        text::texts(tags@) == attempt_tags(attempt_id@),
{
    let mut tags: Vec<String> = Vec::new();
    tags.push("managed-by=scaleway-chat".to_owned());
    tags.push("application=scaleway-chat".to_owned());
    tags.push("attempt-id=".to_owned().concat(attempt_id));
    proof {
        assert(text::texts(tags@) =~= attempt_tags(attempt_id@));
    }
    tags
}

/// The body of the request for an instance that boots from a snapshot.
pub open spec fn instance_body(
    name: Seq<char>,
    project: Seq<char>,
    instance_type: Seq<char>,
    base_snapshot: Seq<char>,
    attempt_id: Seq<char>,
) -> Seq<char> {
    "{\"name\":"@ + outside::json_string(name) + ",\"project\":"@ + outside::json_string(project)
        + ",\"commercial_type\":"@ + outside::json_string(instance_type) + ",\"volumes\":{"@
        + outside::json_string("0"@) + ":"@ + ("{\"base_snapshot\":"@ + outside::json_string(
        base_snapshot,
    ) + ",\"name\":"@ + outside::json_string(name + "-root"@)
        + ",\"volume_type\":\"sbs_volume\",\"boot\":"@ + "true"@ + "}"@) + "},\"tags\":"@
        + json::string_array(attempt_tags(attempt_id)) + "}"@
}

// ---------------------------------------------------------------- products

/// The products on offer, as a list of quoted names.
pub open spec fn offered(servers: Seq<(String, ServerTypeDetails)>) -> Seq<char> {
    "["@ + text::joined(
        servers.map_values(|s: (String, ServerTypeDetails)| outside::quoted(s.0@)),
        ", "@,
    ) + "]"@
}

fn offered_text(servers: &Vec<(String, ServerTypeDetails)>) -> (shown: String)
    ensures
        shown@ == offered(servers@),
{
    let ghost all = servers@.map_values(|s: (String, ServerTypeDetails)| outside::quoted(s.0@));
    let mut names: Vec<String> = Vec::new();
    let mut i: usize = 0;
    while i < servers.len()
        invariant
            i <= servers@.len(),
            all == servers@.map_values(|s: (String, ServerTypeDetails)| outside::quoted(s.0@)),
            text::texts(names@) == all.take(i as int),
        decreases servers@.len() - i,
    {
        let ghost before = names@;
        names.push(quoted_text(servers[i].0.as_str()));
        proof {
            assert(text::texts(names@) =~= text::texts(before).push(all[i as int]));
            assert(all.take(i + 1) =~= all.take(i as int).push(all[i as int]));
        }
        i = i + 1;
    }
    proof {
        assert(all.take(i as int) =~= all);
    }
    "[".to_owned().concat(join(&names, ", ").as_str()).concat("]")
}

/// The error that a zone comes to which does not offer what was named.
pub open spec fn unavailable(
    zone: Seq<char>,
    named: Seq<char>,
    products: ServerTypesResponse,
) -> AppErrorView {
    AppErrorView::InstanceTypeUnavailable(
        "Instance type "@ + named + " is not available in zone "@ + zone + ". Available types: "@
            + offered(products.servers@),
    )
}

/// Whether one of some instance types is on offer.
pub open spec fn offers_some(types: Seq<Seq<char>>, products: ServerTypesResponse) -> bool {
    exists|i: int| 0 <= i < types.len() && products.product(#[trigger] types[i]) is Some
}

impl ScalewayClient {
    /// The request for the server products of the zone.
    pub fn list_products(&self) -> (request: ApiRequest)
        ensures
            request@ == client::bare_request(ApiMethod::Get, paths::products(self.zone@)),
    {
        ApiRequest::bare(ApiMethod::Get, products_path(self.zone.as_str()))
    }

    /// Whether the zone offers an instance type.
    pub fn validate_instance_type_available(
        &self,
        instance_type: &str,
        reply: Result<ServerTypesResponse, AppError>,
    ) -> (outcome: Result<(), AppError>)
        ensures
            match reply {
                Ok(products) => if products.product(instance_type@) is Some {
                    outcome is Ok
                } else {
                    outcome matches Err(e) && e@ == unavailable(
                        self.zone@,
                        instance_type@,
                        products,
                    )
                },
                Err(cause) => outcome matches Err(e) && e == cause,
            },
    {
        match reply {
            Ok(products) => {
                if products.find(instance_type).is_some() {
                    Ok(())
                } else {
                    Err(self.unavailable_error(instance_type, &products))
                }
            },
            Err(e) => Err(e),
        }
    }

    /// Whether the zone offers one of the instance types that may be tried. Those that it does not
    /// offer are passed over.
    pub fn validate_candidates_available(
        &self,
        types: &Vec<String>,
        reply: Result<ServerTypesResponse, AppError>,
    ) -> (outcome: Result<(), AppError>)
        ensures
            match reply {
                Ok(products) => if offers_some(text::texts(types@), products) {
                    outcome is Ok
                } else {
                    outcome matches Err(e) && e@ == unavailable(
                        self.zone@,
                        text::joined(text::texts(types@), ", "@),
                        products,
                    )
                },
                Err(cause) => outcome matches Err(e) && e == cause,
            },
    {
        let products: ServerTypesResponse = match reply {
            Ok(products) => products,
            Err(e) => {
                return Err(e);
            },
        };
        let ghost all = text::texts(types@);
        let mut i: usize = 0;
        while i < types.len()
            invariant
                i <= types@.len(),
                all == text::texts(types@),
                reply == Ok::<ServerTypesResponse, AppError>(products),
                forall|k: int| 0 <= k < i ==> products.product(#[trigger] all[k]) is None,
            decreases types@.len() - i,
        {
            proof {
                assert(all[i as int] == types@[i as int]@);
            }
            if products.find(types[i].as_str()).is_some() {
                proof {
                    assert(products.product(all[i as int]) is Some);
                }
                return Ok(());
            }
            i = i + 1;
        }
        Err(self.unavailable_error(join(types, ", ").as_str(), &products))
    }

    fn unavailable_error(&self, named: &str, products: &ServerTypesResponse) -> (e: AppError)
        ensures
            e@ == unavailable(self.zone@, named@, *products),
    {
        AppError::InstanceTypeUnavailable(
            "Instance type ".to_owned()
                .concat(named)
                .concat(" is not available in zone ")
                .concat(self.zone.as_str())
                .concat(". Available types: ")
                .concat(offered_text(&products.servers).as_str()),
        )
    }

    // ------------------------------------------------------------ making

    /// The request for an instance that boots from a snapshot.
    pub fn create_instance(
        &self,
        name: &str,
        instance_type: &str,
        snapshot_id: &str,
        attempt_id: &str,
    ) -> (request: Result<ApiRequest, AppError>)
        ensures
            match (outside::uuid_reading(snapshot_id@), outside::uuid_reading(self.project_id@)) {
                (Err(why), _) => request matches Err(e) && e@ == AppErrorView::InvalidConfig(
                    "Invalid snapshot UUID: "@ + why,
                ),
                (Ok(_), Err(why)) => request matches Err(e) && e@ == AppErrorView::InvalidConfig(
                    "Invalid project UUID: "@ + why,
                ),
                (Ok(base), Ok(project)) => request matches Ok(r) && r@ == client::body_request(
                    ApiMethod::Post,
                    paths::servers(self.zone@),
                    instance_body(name@, project, instance_type@, base, attempt_id@),
                ),
            },
    {
        let base_snapshot: String = match uuid_parse(snapshot_id) {
            Ok(id) => id,
            Err(why) => {
                return Err(
                    AppError::InvalidConfig(
                        "Invalid snapshot UUID: ".to_owned().concat(why.as_str()),
                    ),
                );
            },
        };
        let project: String = match uuid_parse(self.project_id.as_str()) {
            Ok(id) => id,
            Err(why) => {
                return Err(
                    AppError::InvalidConfig(
                        "Invalid project UUID: ".to_owned().concat(why.as_str()),
                    ),
                );
            },
        };
        let mut volumes: Vec<(String, SnapshotBootVolume)> = Vec::new();
        volumes.push(
            (
                "0".to_owned(),
                SnapshotBootVolume {
                    base_snapshot,
                    name: name.to_owned().concat("-root"),
                    volume_type: InstanceVolumeType::SbsVolume,
                    boot: true,
                },
            ),
        );
        let payload: CreateServerRequest = CreateServerRequest {
            name: name.to_owned(),
            project,
            commercial_type: instance_type.to_owned(),
            volumes,
            tags: attempt_tag_list(attempt_id),
        };
        proof {
            let slots = payload.volumes@.map_values(
                |slot: (String, SnapshotBootVolume)| slot_json(slot),
            );
            assert(slots =~= seq![slot_json(payload.volumes@[0])]);
            assert(payload.json() =~= instance_body(
                name@,
                payload.project@,
                instance_type@,
                payload.volumes@[0].1.base_snapshot@,
                attempt_id@,
            ));
        }
        Ok(
            ApiRequest::with_body(
                ApiMethod::Post,
                servers_path(self.zone.as_str()),
                payload.to_json(),
            ),
        )
    }

    /// The instance that was made.
    pub fn create_instance_outcome(&self, reply: Result<ServerResponse, AppError>) -> (outcome:
        Result<Server, AppError>)
        ensures
            match reply {
                Ok(made) => outcome == Ok::<Server, AppError>(made.server),
                Err(cause) => outcome matches Err(e) && e@ == AppErrorView::InstanceCreationFailed(
                    error::error_text(cause@),
                ),
            },
    {
        match reply {
            Ok(made) => Ok(made.server),
            Err(e) => Err(AppError::InstanceCreationFailed(e.to_string())),
        }
    }

    // ------------------------------------------------------------ switching on and off

    /// The request to switch an instance on.
    pub fn power_on_instance(&self, server_id: &str) -> (request: ApiRequest)
        ensures
            request@ == client::body_request(
                ApiMethod::Post,
                paths::server_action(self.zone@, server_id@),
                action_json("poweron"@),
            ),
    {
        let payload: ServerActionRequest = ServerActionRequest { action: "poweron".to_owned() };
        ApiRequest::with_body(
            ApiMethod::Post,
            server_action_path(self.zone.as_str(), server_id),
            payload.to_json(),
        )
    }

    /// Whether the instance takes the request to be switched on.
    pub fn power_on_instance_outcome(&self, reply: Result<(), AppError>) -> (outcome: Result<
        (),
        AppError,
    >)
        ensures
            outcome is Ok == reply is Ok,
            outcome matches Err(e) ==> e@ == AppErrorView::InstanceCreationFailed(
                "Failed to power on: "@ + error::error_text(reply->Err_0@),
            ),
    {
        match reply {
            Ok(_) => Ok(()),
            Err(e) => Err(
                AppError::InstanceCreationFailed(
                    "Failed to power on: ".to_owned().concat(e.to_string().as_str()),
                ),
            ),
        }
    }

    /// The request to switch an instance off.
    pub fn power_off_instance(&self, server_id: &str) -> (request: ApiRequest)
        ensures
            request@ == client::body_request(
                ApiMethod::Post,
                paths::server_action(self.zone@, server_id@),
                action_json("poweroff"@),
            ),
    {
        let payload: ServerActionRequest = ServerActionRequest { action: "poweroff".to_owned() };
        ApiRequest::with_body(
            ApiMethod::Post,
            server_action_path(self.zone.as_str(), server_id),
            payload.to_json(),
        )
    }

    /// An instance that cannot be switched off is taken to be off already.
    pub fn power_off_instance_outcome(&self, reply: Result<(), AppError>) -> (outcome: Result<
        (),
        AppError,
    >)
        ensures
            outcome is Ok,
    {
        match reply {
            Ok(_) => Ok(()),
            Err(_) => Ok(()),
        }
    }

    // ------------------------------------------------------------ watching

    /// The next look at an instance that is coming up, unless the time is up.
    pub fn wait_for_instance_running(
        &self,
        server_id: &str,
        timeout_secs: u64,
        elapsed_nanos: u128,
    ) -> (look: Result<ApiRequest, AppError>)
        ensures
            if polling::time_is_up(elapsed_nanos, timeout_secs) {
                look matches Err(e) && e@ == AppErrorView::InstanceStartupTimeout
            } else {
                look matches Ok(r) && r@ == client::bare_request(
                    ApiMethod::Get,
                    paths::server(self.zone@, server_id@),
                )
            },
    {
        if timed_out(elapsed_nanos, timeout_secs) {
            return Err(AppError::InstanceStartupTimeout);
        }
        Ok(self.get_server(server_id))
    }

    /// What a look at an instance that is coming up says; nothing where it has to be repeated.
    pub fn wait_for_instance_running_outcome(
        &self,
        reply: Result<ServerResponse, AppError>,
    ) -> (outcome: Option<Result<Server, AppError>>)
        ensures
            match reply {
                Ok(seen) => if seen.server.state@ == "running"@ {
                    outcome == Some(Ok::<Server, AppError>(seen.server))
                } else if seen.server.state@ == "error"@ {
                    outcome matches Some(Err(e)) && e@ == AppErrorView::InstanceCreationFailed(
                        "Instance entered error state"@,
                    )
                } else {
                    outcome is None
                },
                Err(_) => outcome is None,
            },
    {
        match reply {
            Ok(seen) => {
                if same_text(seen.server.state.as_str(), "running") {
                    return Some(Ok(seen.server));
                }
                if same_text(seen.server.state.as_str(), "error") {
                    return Some(
                        Err(
                            AppError::InstanceCreationFailed(
                                "Instance entered error state".to_owned(),
                            ),
                        ),
                    );
                }
                None
            },
            Err(_) => None,
        }
    }

    /// The next look at an instance that is going down, unless the time is up.
    pub fn wait_for_instance_stopped(
        &self,
        server_id: &str,
        timeout_secs: u64,
        elapsed_nanos: u128,
    ) -> (look: Result<ApiRequest, AppError>)
        ensures
            if polling::time_is_up(elapsed_nanos, timeout_secs) {
                look matches Err(e) && e@ == AppErrorView::CleanupIncomplete(
                    "Timeout waiting for server to stop"@,
                )
            } else {
                look matches Ok(r) && r@ == client::bare_request(
                    ApiMethod::Get,
                    paths::server(self.zone@, server_id@),
                )
            },
    {
        if timed_out(elapsed_nanos, timeout_secs) {
            return Err(
                AppError::CleanupIncomplete("Timeout waiting for server to stop".to_owned()),
            );
        }
        Ok(self.get_server(server_id))
    }

    /// Whether an instance that is going down is down: it is stopped, or it is gone. Otherwise it
    /// has to be looked at again.
    pub fn wait_for_instance_stopped_outcome(
        &self,
        reply: Result<ServerResponse, AppError>,
    ) -> (down: bool)
        ensures
            down == match reply {
                Ok(seen) => seen.server.state@ == "stopped"@,
                Err(cause) => error::says_not_found(cause@),
            },
    {
        match reply {
            Ok(seen) => same_text(seen.server.state.as_str(), "stopped"),
            Err(e) => e.is_not_found(),
        }
    }

    /// The request for an instance.
    pub fn get_server(&self, server_id: &str) -> (request: ApiRequest)
        ensures
            request@ == client::bare_request(
                ApiMethod::Get,
                paths::server(self.zone@, server_id@),
            ),
    {
        ApiRequest::bare(ApiMethod::Get, server_path(self.zone.as_str(), server_id))
    }

    // ------------------------------------------------------------ removing

    /// The request to remove an instance. The snapshot is refused.
    pub fn delete_instance(&self, server_id: &str, snapshot_id: &str) -> (request: Result<
        ApiRequest,
        AppError,
    >)
        ensures
            if server_id@ == snapshot_id@ {
                request matches Err(e) && e@ == AppErrorView::SafetyViolation(
                    "Refusing to delete source snapshot as a server"@,
                )
            } else {
                request matches Ok(r) && r@ == client::bare_request(
                    ApiMethod::Delete,
                    paths::server(self.zone@, server_id@),
                )
            },
    {
        if same_text(server_id, snapshot_id) {
            return Err(
                AppError::SafetyViolation(
                    "Refusing to delete source snapshot as a server".to_owned(),
                ),
            );
        }
        Ok(ApiRequest::bare(ApiMethod::Delete, server_path(self.zone.as_str(), server_id)))
    }

    /// Whether an instance is removed, or was gone already.
    pub fn delete_instance_outcome(&self, server_id: &str, reply: Result<(), AppError>) -> (outcome:
        Result<(), AppError>)
        ensures
            outcome is Ok == match reply {
                Ok(_) => true,
                Err(cause) => error::says_not_found(cause@),
            },
            outcome matches Err(e) ==> e@ == AppErrorView::CleanupIncomplete(
                "Failed to delete server "@ + server_id@ + ": "@ + error::error_text(
                    reply->Err_0@,
                ),
            ),
    {
        match reply {
            Ok(_) => Ok(()),
            Err(e) => {
                if e.is_not_found() {
                    Ok(())
                } else {
                    Err(
                        AppError::CleanupIncomplete(
                            "Failed to delete server ".to_owned()
                                .concat(server_id)
                                .concat(": ")
                                .concat(e.to_string().as_str()),
                        ),
                    )
                }
            },
        }
    }

    /// The next look at an instance that was removed, unless the time is up.
    pub fn verify_instance_deleted(
        &self,
        server_id: &str,
        timeout_secs: u64,
        elapsed_nanos: u128,
    ) -> (look: Result<ApiRequest, AppError>)
        ensures
            if polling::time_is_up(elapsed_nanos, timeout_secs) {
                look matches Err(e) && e@ == AppErrorView::CleanupIncomplete(
                    "Timeout waiting for instance "@ + server_id@ + " deletion verification"@,
                )
            } else {
                look matches Ok(r) && r@ == client::bare_request(
                    ApiMethod::Get,
                    paths::server(self.zone@, server_id@),
                )
            },
    {
        if timed_out(elapsed_nanos, timeout_secs) {
            return Err(
                AppError::CleanupIncomplete(
                    "Timeout waiting for instance ".to_owned()
                        .concat(server_id)
                        .concat(" deletion verification"),
                ),
            );
        }
        Ok(self.get_server(server_id))
    }

    /// Whether a look at something that was removed shows that it is gone. Otherwise it has to be
    /// looked at again.
    pub fn deletion_verified(&self, reply: Result<(), AppError>) -> (gone: bool)
        ensures
            gone == match reply {
                Ok(_) => false,
                Err(cause) => error::says_not_found(cause@),
            },
    {
        match reply {
            Ok(_) => false,
            Err(e) => e.is_not_found(),
        }
    }
}

} // verus!
