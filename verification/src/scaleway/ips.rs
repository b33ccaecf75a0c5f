//! Public addresses: had, attached, watched and given back.

use vstd::prelude::*;
#[allow(unused_imports)]
use vstd::string::*;

use crate::error::AppError;
#[allow(unused_imports)]
use crate::error::AppErrorView;
#[allow(unused_imports)]
use crate::error;
use crate::json::string_array_text;
#[allow(unused_imports)]
use crate::json;
use crate::outside::json_quote;
#[allow(unused_imports)]
use crate::outside;
use crate::scaleway::client::{ApiMethod, ApiRequest, ScalewayClient};
#[allow(unused_imports)]
use crate::scaleway::client;
use crate::scaleway::instances::attempt_tag_list;
#[allow(unused_imports)]
use crate::scaleway::instances;
use crate::scaleway::models::{AttachIpRequest, CreateIpRequest, IpResponse};
use crate::scaleway::paths::{ip_path, ips_path};
#[allow(unused_imports)]
use crate::scaleway::paths;
use crate::scaleway::polling::timed_out;
#[allow(unused_imports)]
use crate::scaleway::polling;
use crate::text::same_text;
#[allow(unused_imports)]
use crate::text;

verus! {

/// A request for a public address, in JSON.
pub open spec fn ip_body(
    project: Seq<char>,
    ip_type: Seq<char>,
    tags: Seq<Seq<char>>,
) -> Seq<char> {
    "{\"project\":"@ + outside::json_string(project) + ",\"type\":"@ + outside::json_string(ip_type)
        + ",\"tags\":"@ + json::string_array(tags) + "}"@
}

impl CreateIpRequest {
    /// The request in JSON.
    pub fn to_json(&self) -> (body: String)
        ensures
            body@ == ip_body(self.project@, self.ip_type@, text::texts(self.tags@)),
    {
        "{\"project\":".to_owned()
            .concat(json_quote(self.project.as_str()).as_str())
            .concat(",\"type\":")
            .concat(json_quote(self.ip_type.as_str()).as_str())
            .concat(",\"tags\":")
            .concat(string_array_text(&self.tags).as_str())
            .concat("}")
    }
}

/// A request to attach an address to a server, in JSON: the identifier of the server itself.
pub open spec fn attach_body(server: Option<Seq<char>>) -> Seq<char> {
    match server {
        Some(id) => "{\"server\":"@ + outside::json_string(id) + "}"@,
        None => "{\"server\":null}"@,
    }
}

impl AttachIpRequest {
    /// The request in JSON.
    pub fn to_json(&self) -> (body: String)
        ensures
            body@ == attach_body(text::some_text(self.server)),
    {
        match &self.server {
            Some(id) => "{\"server\":".to_owned()
                .concat(json_quote(id.as_str()).as_str())
                .concat("}"),
            None => "{\"server\":null}".to_owned(),
        }
    }
}

impl ScalewayClient {
    /// The request for a public address.
    pub fn allocate_public_ip(&self, attempt_id: &str) -> (request: ApiRequest)
        ensures
            request@ == client::body_request(
                ApiMethod::Post,
                paths::ips(self.zone@),
                ip_body(
                    self.project_id@,
                    "routed_ipv4"@,
                    instances::attempt_tags(attempt_id@),
                ),
            ),
    {
        let payload: CreateIpRequest = CreateIpRequest {
            project: self.project_id.clone(),
            ip_type: "routed_ipv4".to_owned(),
            tags: attempt_tag_list(attempt_id),
        };
        ApiRequest::with_body(ApiMethod::Post, ips_path(self.zone.as_str()), payload.to_json())
    }

    /// The public address that was had.
    pub fn allocate_public_ip_outcome(&self, reply: Result<IpResponse, AppError>) -> (outcome:
        Result<IpResponse, AppError>)
        ensures
            match reply {
                Ok(had) => outcome == Ok::<IpResponse, AppError>(had),
                Err(cause) => outcome matches Err(e) && e@ == AppErrorView::IpAllocationFailed(
                    error::error_text(cause@),
                ),
            },
    {
        match reply {
            Ok(had) => Ok(had),
            Err(e) => Err(AppError::IpAllocationFailed(e.to_string())),
        }
    }

    /// The request for what a public address is attached to.
    pub fn get_public_ip(&self, ip_id: &str) -> (request: ApiRequest)
        ensures
            request@ == client::bare_request(ApiMethod::Get, paths::ip(self.zone@, ip_id@)),
    {
        ApiRequest::bare(ApiMethod::Get, ip_path(self.zone.as_str(), ip_id))
    }

    /// The request to attach a public address to a server.
    pub fn attach_ip_to_server(&self, ip_id: &str, server_id: &str) -> (request: ApiRequest)
        ensures
            request@ == client::body_request(
                ApiMethod::Patch,
                paths::ip(self.zone@, ip_id@),
                attach_body(Some(server_id@)),
            ),
    {
        let payload: AttachIpRequest = AttachIpRequest { server: Some(server_id.to_owned()) };
        ApiRequest::with_body(
            ApiMethod::Patch,
            ip_path(self.zone.as_str(), ip_id),
            payload.to_json(),
        )
    }

    /// Whether the public address takes the request to be attached.
    pub fn attach_ip_to_server_outcome(&self, reply: Result<(), AppError>) -> (outcome: Result<
        (),
        AppError,
    >)
        ensures
            outcome is Ok == reply is Ok,
            outcome matches Err(e) ==> e@ == AppErrorView::IpAllocationFailed(
                "Failed to attach IP:\n"@ + error::error_text(reply->Err_0@),
            ),
    {
        match reply {
            Ok(_) => Ok(()),
            Err(e) => Err(
                AppError::IpAllocationFailed(
                    "Failed to attach IP:\n".to_owned().concat(e.to_string().as_str()),
                ),
            ),
        }
    }

    /// The request to give a public address back. The snapshot is refused.
    pub fn delete_public_ip(&self, ip_id: &str, snapshot_id: &str) -> (request: Result<
        ApiRequest,
        AppError,
    >)
        ensures
            if ip_id@ == snapshot_id@ {
                request matches Err(e) && e@ == AppErrorView::SafetyViolation(
                    "Refusing to delete source snapshot as an IP"@,
                )
            } else {
                request matches Ok(r) && r@ == client::bare_request(
                    ApiMethod::Delete,
                    paths::ip(self.zone@, ip_id@),
                )
            },
    {
        if same_text(ip_id, snapshot_id) {
            return Err(
                AppError::SafetyViolation(
                    "Refusing to delete source snapshot as an IP".to_owned(),
                ),
            );
        }
        Ok(ApiRequest::bare(ApiMethod::Delete, ip_path(self.zone.as_str(), ip_id)))
    }

    /// Whether a public address is given back, or was gone already.
    pub fn delete_public_ip_outcome(&self, ip_id: &str, reply: Result<(), AppError>) -> (outcome:
        Result<(), AppError>)
        ensures
            outcome is Ok == match reply {
                Ok(_) => true,
                Err(cause) => error::says_not_found(cause@),
            },
            outcome matches Err(e) ==> e@ == AppErrorView::CleanupIncomplete(
                "Failed to delete IP "@ + ip_id@ + ": "@ + error::error_text(reply->Err_0@),
            ),
    {
        match reply {
            Ok(_) => Ok(()),
            Err(e) => {
                if e.is_not_found() {
                    Ok(())
                } else {
                    Err(
                        AppError::CleanupIncomplete(
                            "Failed to delete IP ".to_owned()
                                .concat(ip_id)
                                .concat(": ")
                                .concat(e.to_string().as_str()),
                        ),
                    )
                }
            },
        }
    }

    /// The next look at a public address that was given back, unless the time is up.
    pub fn verify_public_ip_deleted(
        &self,
        ip_id: &str,
        timeout_secs: u64,
        elapsed_nanos: u128,
    ) -> (look: Result<ApiRequest, AppError>)
        ensures
            if polling::time_is_up(elapsed_nanos, timeout_secs) {
                look matches Err(e) && e@ == AppErrorView::CleanupIncomplete(
                    "Timeout waiting for public IP "@ + ip_id@ + " deletion verification"@,
                )
            } else {
                look matches Ok(r) && r@ == client::bare_request(
                    ApiMethod::Get,
                    paths::ip(self.zone@, ip_id@),
                )
            },
    {
        if timed_out(elapsed_nanos, timeout_secs) {
            return Err(
                AppError::CleanupIncomplete(
                    "Timeout waiting for public IP ".to_owned()
                        .concat(ip_id)
                        .concat(" deletion verification"),
                ),
            );
        }
        Ok(self.get_public_ip(ip_id))
    }
}

} // verus!
