use vstd::prelude::*;

use crate::error::BacklogError;
use crate::ports::PortsError;

verus! {

/// An incoming-side failure: a command argument was malformed or
/// semantically invalid. Always recoverable by fixing the request.
#[derive(Debug)]
pub enum IncommingError {
    InvalidValue { resource: &'static str, msg: String },
}

pub type IncommingResult<T> = Result<T, IncommingError>;

impl IncommingError {
    pub fn invalid_value(resource: &'static str, msg: &str) -> (r: Self)
        ensures
            r matches IncommingError::InvalidValue { resource: res, msg: m } && res@ == resource@
                && m@ == msg@,
    {
        IncommingError::InvalidValue { resource, msg: msg.to_string() }
    }
}

/// An outgoing-side failure: the repository could not load or store the
/// aggregate. Surfaced as-is; any retry policy belongs to the adapter.
#[derive(Debug)]
pub enum OutcommingError {
    BacklogRepository(PortsError),
}

/// A business-rule failure surfaced from the domain while mutating the
/// aggregate, principally a lookup for an absent identity.
#[derive(Debug)]
pub enum BusinessLogicError {
    Backlog(BacklogError),
    NotFound { resource: &'static str, msg: String },
}

/// One failure of a use case, tagged with the tier it originated from; no
/// lower error is reinterpreted beyond this tagging.
#[derive(Debug)]
pub enum ServiceError {
    Incomming(IncommingError),
    Outcomming(OutcommingError),
    BusinessLogic(BusinessLogicError),
}

} // verus!
