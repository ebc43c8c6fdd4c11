//! Reading the answers of the clinical data server.

use crate::error::GatewayError;
use crate::fhir::{Resource, ResourceView};
use crate::reply::{is_success, succeeded, ClinicalReply, ClinicalReplyView};
use vstd::prelude::*;

verus! {

/// The model of an outcome that carries a patient resource.
pub open spec fn resource_outcome(outcome: Result<Resource, GatewayError>) -> Result<
    ResourceView,
    GatewayError,
> {
    match outcome {
        Ok(resource) => Ok(resource@),
        Err(error) => Err(error),
    }
}

/// Whether an answer to the probe shows that the server is ready.
pub open spec fn ready(reply: ClinicalReplyView) -> bool {
    match reply {
        ClinicalReplyView::Unreachable => false,
        ClinicalReplyView::Answered { status, bundle } => is_success(status),
    }
}

/// The patient that an answer to a search gives: the resource of the first
/// match.
pub open spec fn patient_outcome(reply: ClinicalReplyView) -> Result<ResourceView, GatewayError> {
    match reply {
        ClinicalReplyView::Unreachable => Err(GatewayError::Unreachable),
        ClinicalReplyView::Answered { status, bundle } => if !is_success(status) {
            Err(GatewayError::Rejected)
        } else {
            match bundle {
                Some(root) => if root.entry.len() == 0 {
                    Err(GatewayError::NotFound)
                } else {
                    Ok(root.entry[0].resource)
                },
                None => Err(GatewayError::ParseError),
            }
        },
    }
}

/// What an answer to a write says of the write.
pub open spec fn store_outcome(reply: ClinicalReplyView) -> Result<(), GatewayError> {
    match reply {
        ClinicalReplyView::Unreachable => Err(GatewayError::Unreachable),
        ClinicalReplyView::Answered { status, bundle } => if !is_success(status) {
            Err(GatewayError::Rejected)
        } else {
            Ok(())
        },
    }
}

/// Tells whether an answer to the probe shows that the server is ready: it
/// arrived, and its status is a success.
pub fn is_ready(reply: &ClinicalReply) -> (yes: bool)
    ensures
        yes == ready(reply@),
{
    match reply {
        ClinicalReply::Unreachable => false,
        ClinicalReply::Answered { status, bundle } => succeeded(*status),
    }
}

/// Reads the answer to a search for a patient.
///
/// The patient is the resource of the first match of the search result,
/// however many matches there are. An answer that did not arrive is
/// `Unreachable`, one with a status that is no success is `Rejected`, one
/// that holds no search result is a `ParseError`, and a search result
/// without a match is `NotFound`.
pub fn patient_from(reply: ClinicalReply) -> (outcome: Result<Resource, GatewayError>)
    ensures
        resource_outcome(outcome) == patient_outcome(reply@),
{
    match reply {
        ClinicalReply::Unreachable => Err(GatewayError::Unreachable),
        ClinicalReply::Answered { status, bundle } => {
            if !succeeded(status) {
                return Err(GatewayError::Rejected);
            }
            match bundle {
                Some(root) => {
                    let mut entries = root.entry;
                    if entries.len() == 0 {
                        Err(GatewayError::NotFound)
                    } else {
                        let first = entries.swap_remove(0);
                        Ok(first.resource)
                    }
                },
                None => Err(GatewayError::ParseError),
            }
        },
    }
}

/// Reads the answer to the write of a patient resource.
///
/// An answer that did not arrive is `Unreachable`, and one with a status
/// that is no success is `Rejected`; every other answer accepts the write.
pub fn stored(reply: &ClinicalReply) -> (outcome: Result<(), GatewayError>)
    ensures
        outcome == store_outcome(reply@),
{
    match reply {
        ClinicalReply::Unreachable => Err(GatewayError::Unreachable),
        ClinicalReply::Answered { status, bundle } => if succeeded(*status) {
            Ok(())
        } else {
            Err(GatewayError::Rejected)
        },
    }
}

} // verus!
