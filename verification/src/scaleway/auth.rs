//! Whether the credentials and the project are good.

use vstd::prelude::*;
#[allow(unused_imports)]
use vstd::string::*;

use crate::error::AppError;
#[allow(unused_imports)]
use crate::error::AppErrorView;
use crate::scaleway::client::{ApiMethod, ApiRequest, ScalewayClient};
#[allow(unused_imports)]
use crate::scaleway::client::ApiRequestView;
use crate::scaleway::paths::servers_path;
#[allow(unused_imports)]
use crate::scaleway::paths;

verus! {

/// What a failed look at the servers of a project says of the credentials and the project.
pub open spec fn auth_error(
    zone: Seq<char>,
    project_id: Seq<char>,
    e: AppErrorView,
) -> AppErrorView {
    match e {
        AppErrorView::AuthenticationFailed(m) => AppErrorView::AuthenticationFailed(
            "Invalid API Key credentials: "@ + m,
        ),
        AppErrorView::PermissionDenied(m) => AppErrorView::PermissionDenied(
            "Missing IAM permissions for zone "@ + zone + " or project "@ + project_id + ": "@ + m,
        ),
        AppErrorView::InvalidConfig(m) => AppErrorView::ProjectNotFound(
            "Project ID "@ + project_id + " not found or invalid: "@ + m,
        ),
        other => other,
    }
}

impl ScalewayClient {
    /// The request that tells whether the credentials and the project are good: the servers of
    /// the project.
    pub fn validate_auth_and_project(&self) -> (request: ApiRequest)
        ensures
            request@ == (ApiRequestView {
                method: ApiMethod::Get,
                path: paths::servers(self.zone@),
                query: Some(("project"@, self.project_id@)),
                body: None,
            }),
    {
        ApiRequest {
            method: ApiMethod::Get,
            path: servers_path(self.zone.as_str()),
            query: Some(("project".to_owned(), self.project_id.clone())),
            body: None,
        }
    }

    /// What the answer says of the credentials and the project.
    pub fn validate_auth_and_project_outcome(&self, reply: Result<(), AppError>) -> (outcome:
        Result<(), AppError>)
        ensures
            outcome is Ok == reply is Ok,
            outcome matches Err(e) ==> e@ == auth_error(
                self.zone@,
                self.project_id@,
                reply->Err_0@,
            ),
    {
        match reply {
            Ok(_) => Ok(()),
            Err(e) => match e {
                AppError::AuthenticationFailed(m) => Err(
                    AppError::AuthenticationFailed(
                        "Invalid API Key credentials: ".to_owned().concat(m.as_str()),
                    ),
                ),
                AppError::PermissionDenied(m) => Err(
                    AppError::PermissionDenied(
                        "Missing IAM permissions for zone ".to_owned()
                            .concat(self.zone.as_str())
                            .concat(" or project ")
                            .concat(self.project_id.as_str())
                            .concat(": ")
                            .concat(m.as_str()),
                    ),
                ),
                AppError::InvalidConfig(m) => Err(
                    AppError::ProjectNotFound(
                        "Project ID ".to_owned()
                            .concat(self.project_id.as_str())
                            .concat(" not found or invalid: ")
                            .concat(m.as_str()),
                    ),
                ),
                other => Err(other),
            },
        }
    }
}

} // verus!
