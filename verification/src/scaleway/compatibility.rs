//! Whether a GPU type goes with the snapshot.

use vstd::prelude::*;
#[allow(unused_imports)]
use vstd::string::*;

use crate::error::AppError;
use crate::scaleway::client::ScalewayClient;
use crate::scaleway::models::{ServerTypesResponse, Snapshot};
use crate::text::{decimal_text, same_text};
#[allow(unused_imports)]
use crate::text;

verus! {

/// Whether a GPU type goes with the snapshot.
#[derive(Debug, Clone, PartialEq, Eq)]
pub enum Compatibility {
    /// It does.
    Compatible,
    /// It does not, and is passed over.
    Skip {
        /// Why.
        reason: String,
    },
}

impl Compatibility {
    /// Why the GPU type is passed over, if it is.
    pub open spec fn objection(self) -> Option<Seq<char>> {
        match self {
            Compatibility::Compatible => None,
            Compatibility::Skip { reason } => Some(reason@),
        }
    }
}

/// Why a GPU type is passed over, for a snapshot of a size and the products of the zone: it is not
/// on offer, its volumes are too large or too small, or its processors are of another kind.
pub open spec fn objection(
    zone: Seq<char>,
    gpu_type: Seq<char>,
    size: u64,
    products: ServerTypesResponse,
) -> Option<Seq<char>> {
    match products.product(gpu_type) {
        None => Some("Product "@ + gpu_type + " is not offered in "@ + zone),
        Some(product) => match product.volumes_constraint {
            Some(limit) => if size < limit.min_size {
                Some(
                    "Snapshot size "@ + text::decimal(size as nat)
                        + " bytes is below product minimum constraint of "@ + text::decimal(
                        limit.min_size as nat,
                    ) + " bytes"@,
                )
            } else if limit.max_size > 0 && size > limit.max_size {
                Some(
                    "Snapshot size "@ + text::decimal(size as nat)
                        + " bytes exceeds product maximum constraint of "@ + text::decimal(
                        limit.max_size as nat,
                    ) + " bytes"@,
                )
            } else {
                arch_objection(product.arch)
            },
            None => arch_objection(product.arch),
        },
    }
}

/// Why processors of a kind are passed over.
pub open spec fn arch_objection(arch: Option<String>) -> Option<Seq<char>> {
    match arch {
        Some(kind) => if kind@ == "x86_64"@ {
            None
        } else {
            Some("Product architecture "@ + kind@ + " is incompatible (expected x86_64)"@)
        },
        None => None,
    }
}

fn judge_arch(arch: &Option<String>) -> (judged: Compatibility)
    ensures
        judged.objection() == arch_objection(*arch),
{
    match arch {
        Some(kind) => {
            if same_text(kind.as_str(), "x86_64") {
                Compatibility::Compatible
            } else {
                Compatibility::Skip {
                    reason: "Product architecture ".to_owned()
                        .concat(kind.as_str())
                        .concat(" is incompatible (expected x86_64)"),
                }
            }
        },
        None => Compatibility::Compatible,
    }
}

/// Whether a GPU type goes with a snapshot of a size, by the products of the zone.
pub fn judge(zone: &str, gpu_type: &str, size: u64, products: &ServerTypesResponse) -> (judged:
    Compatibility)
    ensures
        judged.objection() == objection(zone@, gpu_type@, size, *products),
{
    match products.find(gpu_type) {
        None => Compatibility::Skip {
            reason: "Product ".to_owned().concat(gpu_type).concat(" is not offered in ").concat(zone),
        },
        Some(product) => match &product.volumes_constraint {
            Some(limit) => {
                if size < limit.min_size {
                    Compatibility::Skip {
                        reason: "Snapshot size ".to_owned()
                            .concat(decimal_text(size).as_str())
                            .concat(" bytes is below product minimum constraint of ")
                            .concat(decimal_text(limit.min_size).as_str())
                            .concat(" bytes"),
                    }
                } else if limit.max_size > 0 && size > limit.max_size {
                    Compatibility::Skip {
                        reason: "Snapshot size ".to_owned()
                            .concat(decimal_text(size).as_str())
                            .concat(" bytes exceeds product maximum constraint of ")
                            .concat(decimal_text(limit.max_size).as_str())
                            .concat(" bytes"),
                    }
                } else {
                    judge_arch(&product.arch)
                }
            },
            None => judge_arch(&product.arch),
        },
    }
}

impl ScalewayClient {
    /// Whether a GPU type goes with a snapshot, by what comes back from a look at the products of
    /// the zone.
    pub fn validate_candidate_compatibility(
        &self,
        gpu_type: &str,
        snapshot: &Snapshot,
        reply: Result<ServerTypesResponse, AppError>,
    ) -> (judged: Result<Compatibility, AppError>)
        ensures
            match reply {
                Ok(products) => judged matches Ok(c) && c.objection() == objection(
                    self.zone@,
                    gpu_type@,
                    snapshot.size,
                    products,
                ),
                Err(cause) => judged matches Err(e) && e == cause,
            },
    {
        match reply {
            Ok(products) => Ok(judge(self.zone.as_str(), gpu_type, snapshot.size, &products)),
            Err(e) => Err(e),
        }
    }
}

} // verus!
