//! The snapshot that instances are made from.

use vstd::prelude::*;
#[allow(unused_imports)]
use vstd::string::*;

use crate::error::AppError;
#[allow(unused_imports)]
use crate::error::AppErrorView;
use crate::scaleway::client::{ApiMethod, ApiRequest, ScalewayClient};
#[allow(unused_imports)]
use crate::scaleway::client;
use crate::scaleway::models::Snapshot;
use crate::scaleway::paths::snapshot_path;
#[allow(unused_imports)]
use crate::scaleway::paths;
use crate::text::same_text;

verus! {

/// What is wrong with a snapshot: it belongs to another project, it is not ready, or it lies in
/// another zone.
pub open spec fn snapshot_fault(
    client: ScalewayClient,
    snapshot_id: Seq<char>,
    snapshot: Snapshot,
) -> Option<AppErrorView> {
    if snapshot.project_id@ != client.project_id@ {
        Some(
            AppErrorView::PermissionDenied(
                "Snapshot belongs to project "@ + snapshot.project_id@
                    + " but configured project is "@ + client.project_id@,
            ),
        )
    } else if snapshot.status@ != "ready"@ && snapshot.status@ != "available"@ {
        Some(
            AppErrorView::SnapshotNotFound(
                "Snapshot "@ + snapshot_id + " is not ready or available (current status: "@
                    + snapshot.status@ + ")"@,
            ),
        )
    } else if snapshot.zone@ != client.zone@ {
        Some(
            AppErrorView::SnapshotWrongZone {
                snapshot_zone: snapshot.zone@,
                expected_zone: client.zone@,
            },
        )
    } else {
        None
    }
}

/// What a failed look at a snapshot says.
pub open spec fn snapshot_error(
    zone: Seq<char>,
    snapshot_id: Seq<char>,
    e: AppErrorView,
) -> AppErrorView {
    match e {
        AppErrorView::InvalidConfig(_) => AppErrorView::SnapshotNotFound(
            "Snapshot "@ + snapshot_id + " not found in zone "@ + zone
                + ". Ensure snapshot ID and zone are correct."@,
        ),
        other => other,
    }
}

impl ScalewayClient {
    /// The request for a snapshot.
    pub fn get_snapshot(&self, snapshot_id: &str) -> (request: ApiRequest)
        ensures
            request@ == client::bare_request(
                ApiMethod::Get,
                paths::snapshot(self.zone@, snapshot_id@),
            ),
    {
        ApiRequest::bare(ApiMethod::Get, snapshot_path(self.zone.as_str(), snapshot_id))
    }

    /// The snapshot, if it can be used: it belongs to the project, it is ready, and it lies in
    /// the zone.
    pub fn get_snapshot_outcome(
        &self,
        snapshot_id: &str,
        reply: Result<Snapshot, AppError>,
    ) -> (outcome: Result<Snapshot, AppError>)
        ensures
            match reply {
                Ok(snapshot) => match snapshot_fault(*self, snapshot_id@, snapshot) {
                    None => outcome == Ok::<Snapshot, AppError>(snapshot),
                    Some(fault) => outcome matches Err(e) && e@ == fault,
                },
                Err(cause) => outcome matches Err(e) && e@ == snapshot_error(
                    self.zone@,
                    snapshot_id@,
                    cause@,
                ),
            },
    {
        match reply {
            Ok(snapshot) => {
                if !same_text(snapshot.project_id.as_str(), self.project_id.as_str()) {
                    return Err(
                        AppError::PermissionDenied(
                            "Snapshot belongs to project ".to_owned()
                                .concat(snapshot.project_id.as_str())
                                .concat(" but configured project is ")
                                .concat(self.project_id.as_str()),
                        ),
                    );
                }
                if !same_text(snapshot.status.as_str(), "ready") && !same_text(
                    snapshot.status.as_str(),
                    "available",
                ) {
                    return Err(
                        AppError::SnapshotNotFound(
                            "Snapshot ".to_owned()
                                .concat(snapshot_id)
                                .concat(" is not ready or available (current status: ")
                                .concat(snapshot.status.as_str())
                                .concat(")"),
                        ),
                    );
                }
                if !same_text(snapshot.zone.as_str(), self.zone.as_str()) {
                    return Err(
                        AppError::SnapshotWrongZone {
                            snapshot_zone: snapshot.zone,
                            expected_zone: self.zone.clone(),
                        },
                    );
                }
                Ok(snapshot)
            },
            Err(e) => match e {
                AppError::InvalidConfig(_) => Err(
                    AppError::SnapshotNotFound(
                        "Snapshot ".to_owned()
                            .concat(snapshot_id)
                            .concat(" not found in zone ")
                            .concat(self.zone.as_str())
                            .concat(". Ensure snapshot ID and zone are correct."),
                    ),
                ),
                other => Err(other),
            },
        }
    }
}

} // verus!
