use vstd::prelude::*;

verus! {

/// Failures of the persistence port: the stored document is missing, or the
/// adapter's input/output or (de)serialization failed. The adapter reports
/// the underlying cause as a plain message.
#[derive(Debug)]
pub enum PortsError {
    NotFound(String),
    InternalError(String),
}

pub type PortsResult<T> = Result<T, PortsError>;

impl PortsError {
    pub fn not_found(msg: &str) -> (r: Self)
        ensures
            r matches PortsError::NotFound(m) && m@ == msg@,
    {
        PortsError::NotFound(msg.to_string())
    }
}

} // verus!
