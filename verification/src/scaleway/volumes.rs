//! Volumes: restored, watched and removed.

use vstd::prelude::*;
#[allow(unused_imports)]
use vstd::string::*;

use crate::error::AppError;
#[allow(unused_imports)]
use crate::error::AppErrorView;
#[allow(unused_imports)]
use crate::error;
use crate::json::string_array_text;
#[allow(unused_imports)]
use crate::json;
use crate::outside::json_quote;
#[allow(unused_imports)]
use crate::outside;
use crate::scaleway::client::{ApiMethod, ApiRequest, ScalewayClient};
#[allow(unused_imports)]
use crate::scaleway::client;
use crate::scaleway::models::{CreateVolumeRequest, SnapshotSource, Volume};
use crate::scaleway::paths::{volume_path, volumes_path};
#[allow(unused_imports)]
use crate::scaleway::paths;
use crate::scaleway::polling::timed_out;
#[allow(unused_imports)]
use crate::scaleway::polling;
use crate::text::{decimal_text, same_text, strip_prefix};
#[allow(unused_imports)]
use crate::text;

verus! {

/// What a volume is restored from, in JSON.
pub open spec fn source_json(source: Option<SnapshotSource>) -> Seq<char> {
    match source {
        Some(s) => "{\"snapshot_id\":"@ + outside::json_string(s.snapshot_id@) + "}"@,
        None => "null"@,
    }
}

impl CreateVolumeRequest {
    /// The request in JSON.
    pub open spec fn json(self) -> Seq<char> {
        "{\"name\":"@ + outside::json_string(self.name@) + ",\"project_id\":"@
            + outside::json_string(self.project_id@) + ",\"perf_iops\":"@ + text::decimal(
            self.perf_iops as nat,
        ) + ",\"from_snapshot\":"@ + source_json(self.from_snapshot) + ",\"tags\":"@
            + json::string_array(text::texts(self.tags@)) + "}"@
    }

    /// The request in JSON.
    pub fn to_json(&self) -> (body: String)
        ensures
            body@ == self.json(),
    {
        let source: String = match &self.from_snapshot {
            Some(s) => "{\"snapshot_id\":".to_owned()
                .concat(json_quote(s.snapshot_id.as_str()).as_str())
                .concat("}"),
            None => "null".to_owned(),
        };
        "{\"name\":".to_owned()
            .concat(json_quote(self.name.as_str()).as_str())
            .concat(",\"project_id\":")
            .concat(json_quote(self.project_id.as_str()).as_str())
            .concat(",\"perf_iops\":")
            .concat(decimal_text(self.perf_iops as u64).as_str())
            .concat(",\"from_snapshot\":")
            .concat(source.as_str())
            .concat(",\"tags\":")
            .concat(string_array_text(&self.tags).as_str())
            .concat("}")
    }
}

/// The body of the request for a volume restored from a snapshot.
pub open spec fn restore_body(
    name: Seq<char>,
    project_id: Seq<char>,
    snapshot_id: Seq<char>,
) -> Seq<char> {
    "{\"name\":"@ + outside::json_string(name) + ",\"project_id\":"@ + outside::json_string(
        project_id,
    ) + ",\"perf_iops\":"@ + text::decimal(5000) + ",\"from_snapshot\":"@ + (
    "{\"snapshot_id\":"@ + outside::json_string(snapshot_id) + "}"@) + ",\"tags\":"@
        + json::string_array(
        seq![
            "managed-by=scaleway-chat"@,
            "application=scaleway-chat"@,
            "snapshot-id="@ + snapshot_id,
        ],
    ) + "}"@
}

/// How often the removal of a volume is asked for at most.
pub const MAX_VOLUME_DELETIONS: u32 = 6;

/// Whether an error is the refusal of the API with the status 412: a volume is not ready to be
/// removed yet. Nothing else that an error says counts.
pub open spec fn says_still_detaching(e: AppErrorView) -> bool {
    e matches AppErrorView::ApiError(m) && text::stands_at(m, "API Error (status 412 "@, 0)
}

fn is_still_detaching(e: &AppError) -> (yes: bool)
    ensures
        yes == says_still_detaching(e@),
{
    match e {
        AppError::ApiError(m) => strip_prefix(m.as_str(), "API Error (status 412 ").is_some(),
        _ => false,
    }
}

/// It is the status alone that says whether a volume is not ready to be removed yet: a refusal with
/// the status 412 says so whatever its body holds, and no other refusal does.
pub proof fn lemma_status_says_still_detaching(status: u16, body: Seq<char>)
    requires
        100 <= status <= 999,
    ensures
        says_still_detaching(client::refusal(status, body)) <==> status == 412,
{
    let message = client::refusal_message(status, body);
    let front = "API Error (status 412 "@;
    reveal_strlit("API Error (status ");
    reveal_strlit("API Error (status 412 ");
    reveal_strlit(" ");
    reveal_with_fuel(text::decimal, 3);
    let number = text::decimal(status as nat);
    assert(number.len() == 3);
    assert(message.subrange(18, 21) =~= number);
    if status == 412 {
        assert(number =~= seq!['4', '1', '2']);
        assert(message.subrange(0, front.len() as int) =~= front);
    } else if text::stands_at(message, front, 0) {
        assert(message.subrange(0, front.len() as int)[18] == message[18]);
        assert(message.subrange(0, front.len() as int)[19] == message[19]);
        assert(message.subrange(0, front.len() as int)[20] == message[20]);
        assert(number[0] == message[18] && number[1] == message[19] && number[2] == message[20]);
    }
}

impl ScalewayClient {
    /// The request for a volume restored from a snapshot.
    pub fn create_volume_from_snapshot(&self, snapshot_id: &str, volume_name: &str) -> (request:
        ApiRequest)
        ensures
            request@ == client::body_request(
                ApiMethod::Post,
                paths::volumes(self.zone@),
                restore_body(volume_name@, self.project_id@, snapshot_id@),
            ),
    {
        let mut tags: Vec<String> = Vec::new();
        tags.push("managed-by=scaleway-chat".to_owned());
        tags.push("application=scaleway-chat".to_owned());
        tags.push("snapshot-id=".to_owned().concat(snapshot_id));
        proof {
            assert(text::texts(tags@) =~= seq![
                "managed-by=scaleway-chat"@,
                "application=scaleway-chat"@,
                "snapshot-id="@ + snapshot_id@,
            ]);
        }
        let payload: CreateVolumeRequest = CreateVolumeRequest {
            name: volume_name.to_owned(),
            project_id: self.project_id.clone(),
            perf_iops: 5000,
            from_snapshot: Some(SnapshotSource { snapshot_id: snapshot_id.to_owned() }),
            tags,
        };
        ApiRequest::with_body(ApiMethod::Post, volumes_path(self.zone.as_str()), payload.to_json())
    }

    /// The volume that is being restored.
    pub fn create_volume_from_snapshot_outcome(&self, reply: Result<Volume, AppError>) -> (outcome:
        Result<Volume, AppError>)
        ensures
            match reply {
                Ok(volume) => outcome == Ok::<Volume, AppError>(volume),
                Err(cause) => outcome matches Err(e) && e@ == AppErrorView::VolumeCreationFailed(
                    error::error_text(cause@),
                ),
            },
    {
        match reply {
            Ok(volume) => Ok(volume),
            Err(e) => Err(AppError::VolumeCreationFailed(e.to_string())),
        }
    }

    /// The next look at a volume that is being restored, unless the time is up.
    pub fn wait_for_volume_ready(
        &self,
        volume_id: &str,
        timeout_secs: u64,
        elapsed_nanos: u128,
    ) -> (look: Result<ApiRequest, AppError>)
        ensures
            if polling::time_is_up(elapsed_nanos, timeout_secs) {
                look matches Err(e) && e@ == AppErrorView::VolumeCreationFailed(
                    "Timeout waiting for volume to become available"@,
                )
            } else {
                look matches Ok(r) && r@ == client::bare_request(
                    ApiMethod::Get,
                    paths::volume(self.zone@, volume_id@),
                )
            },
    {
        if timed_out(elapsed_nanos, timeout_secs) {
            return Err(
                AppError::VolumeCreationFailed(
                    "Timeout waiting for volume to become available".to_owned(),
                ),
            );
        }
        Ok(self.get_volume(volume_id))
    }

    /// What a look at a volume that is being restored says; nothing where it has to be repeated.
    pub fn wait_for_volume_ready_outcome(&self, reply: Result<Volume, AppError>) -> (outcome: Option<
        Result<Volume, AppError>,
    >)
        ensures
            match reply {
                Ok(volume) => if volume.status@ == "available"@ {
                    outcome == Some(Ok::<Volume, AppError>(volume))
                } else if volume.status@ == "error"@ || volume.status@ == "failed"@ {
                    outcome matches Some(Err(e)) && e@ == AppErrorView::VolumeCreationFailed(
                        "Volume reached failed state: "@ + volume.status@,
                    )
                } else {
                    outcome is None
                },
                Err(_) => outcome is None,
            },
    {
        match reply {
            Ok(volume) => {
                if same_text(volume.status.as_str(), "available") {
                    return Some(Ok(volume));
                }
                if same_text(volume.status.as_str(), "error") || same_text(
                    volume.status.as_str(),
                    "failed",
                ) {
                    return Some(
                        Err(
                            AppError::VolumeCreationFailed(
                                "Volume reached failed state: ".to_owned().concat(
                                    volume.status.as_str(),
                                ),
                            ),
                        ),
                    );
                }
                None
            },
            Err(_) => None,
        }
    }

    /// The request to remove a volume. The snapshot is refused.
    pub fn delete_volume(&self, volume_id: &str, snapshot_id: &str) -> (request: Result<
        ApiRequest,
        AppError,
    >)
        ensures
            if volume_id@ == snapshot_id@ {
                request matches Err(e) && e@ == AppErrorView::SafetyViolation(
                    "Refusing to delete source snapshot as a volume"@,
                )
            } else {
                request matches Ok(r) && r@ == client::bare_request(
                    ApiMethod::Delete,
                    paths::volume(self.zone@, volume_id@),
                )
            },
    {
        if same_text(volume_id, snapshot_id) {
            return Err(
                AppError::SafetyViolation(
                    "Refusing to delete source snapshot as a volume".to_owned(),
                ),
            );
        }
        Ok(ApiRequest::bare(ApiMethod::Delete, volume_path(self.zone.as_str(), volume_id)))
    }

    /// Whether a volume is removed, or was gone already, after its removal was asked for so many
    /// times. Nothing comes back where it is not ready yet and may be asked for again.
    pub fn delete_volume_outcome(
        &self,
        volume_id: &str,
        attempts: u32,
        reply: Result<(), AppError>,
    ) -> (outcome: Option<Result<(), AppError>>)
        ensures
            match reply {
                Ok(_) => outcome == Some(Ok::<(), AppError>(())),
                Err(cause) => if error::says_not_found(cause@) {
                    outcome == Some(Ok::<(), AppError>(()))
                } else if says_still_detaching(cause@) && attempts < MAX_VOLUME_DELETIONS {
                    outcome is None
                } else {
                    outcome matches Some(Err(e)) && e@ == AppErrorView::CleanupIncomplete(
                        "Failed to delete volume "@ + volume_id@ + ": "@ + error::error_text(
                            cause@,
                        ),
                    )
                },
            },
    {
        match reply {
            Ok(_) => Some(Ok(())),
            Err(e) => {
                if e.is_not_found() {
                    return Some(Ok(()));
                }
                if is_still_detaching(&e) && attempts < MAX_VOLUME_DELETIONS {
                    return None;
                }
                Some(
                    Err(
                        AppError::CleanupIncomplete(
                            "Failed to delete volume ".to_owned()
                                .concat(volume_id)
                                .concat(": ")
                                .concat(e.to_string().as_str()),
                        ),
                    ),
                )
            },
        }
    }

    /// The request for a volume.
    pub fn get_volume(&self, volume_id: &str) -> (request: ApiRequest)
        ensures
            request@ == client::bare_request(
                ApiMethod::Get,
                paths::volume(self.zone@, volume_id@),
            ),
    {
        ApiRequest::bare(ApiMethod::Get, volume_path(self.zone.as_str(), volume_id))
    }

    /// The next look at a volume that was removed, unless the time is up.
    pub fn verify_volume_deleted(
        &self,
        volume_id: &str,
        timeout_secs: u64,
        elapsed_nanos: u128,
    ) -> (look: Result<ApiRequest, AppError>)
        ensures
            if polling::time_is_up(elapsed_nanos, timeout_secs) {
                look matches Err(e) && e@ == AppErrorView::CleanupIncomplete(
                    "Timeout waiting for volume "@ + volume_id@ + " deletion verification"@,
                )
            } else {
                look matches Ok(r) && r@ == client::bare_request(
                    ApiMethod::Get,
                    paths::volume(self.zone@, volume_id@),
                )
            },
    {
        if timed_out(elapsed_nanos, timeout_secs) {
            return Err(
                AppError::CleanupIncomplete(
                    "Timeout waiting for volume ".to_owned()
                        .concat(volume_id)
                        .concat(" deletion verification"),
                ),
            );
        }
        Ok(self.get_volume(volume_id))
    }
}

} // verus!
