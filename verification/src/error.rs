use vstd::prelude::*;

verus! {

/// Domain-rule failures raised by the backlog model: a value outside its
/// allowed set, or a lookup for an id that the collection does not hold.
#[derive(Debug)]
pub enum BacklogError {
    TypeError(String),
    NotFound(String),
}

pub type BacklogResult<T> = Result<T, BacklogError>;

impl BacklogError {
    pub fn type_error(msg: &str) -> (r: Self)
        ensures
            r matches BacklogError::TypeError(m) && m@ == msg@,
    {
        BacklogError::TypeError(msg.to_string())
    }

    pub fn not_found(msg: &str) -> (r: Self)
        ensures
            r matches BacklogError::NotFound(m) && m@ == msg@,
    {
        BacklogError::NotFound(msg.to_string())
    }

    /// A readable rendering of the failure, usable where a display string is
    /// wanted.
    pub fn message(&self) -> (r: &str)
        ensures
            self matches BacklogError::TypeError(m) ==> r@ == m@,
            self matches BacklogError::NotFound(m) ==> r@ == m@,
    {
        match self {
            BacklogError::TypeError(m) => m.as_str(),
            BacklogError::NotFound(m) => m.as_str(),
        }
    }
}

} // verus!
