use vstd::prelude::*;

use crate::types::{Assignee, StoryPoint};

verus! {

/// Something with an identity that never changes once assigned.
pub trait Entity {
    /// The identifier, at the specification level.
    spec fn spec_id(&self) -> u128;

    /// Return the identifier.
    fn id(&self) -> (r: u128)
        ensures
            r == self.spec_id(),
    ;
}

/// Something that can be assigned to a person. Assigning overwrites any
/// earlier assignee; no rule blocks re-assignment.
pub trait Assignable: Sized {
    /// The current assignee, at the specification level.
    spec fn spec_assignee(&self) -> Option<Seq<char>>;

    /// The value after assigning: only the assignee differs.
    spec fn with_assignee(self, assignee: Assignee) -> Self;

    proof fn lemma_with_assignee(self, assignee: Assignee)
        ensures
            self.with_assignee(assignee).spec_assignee() == Some(assignee@),
    ;

    /// Assign to the given person, unconditionally.
    fn assign(&mut self, assignee: Assignee)
        ensures
            *final(self) == (*old(self)).with_assignee(assignee),
    ;
}

/// Something that can be estimated in story points. Estimating overwrites any
/// earlier estimate; no rule blocks re-estimation.
pub trait Estimatable: Sized {
    /// The current estimate, at the specification level.
    spec fn spec_point(&self) -> Option<u8>;

    /// The value after estimating: only the point differs.
    spec fn with_point(self, point: StoryPoint) -> Self;

    proof fn lemma_with_point(self, point: StoryPoint)
        ensures
            self.with_point(point).spec_point() == Some(point@),
    ;

    /// Estimate with the given point, unconditionally.
    fn estimate(&mut self, point: StoryPoint)
        ensures
            *final(self) == (*old(self)).with_point(point),
    ;
}

} // verus!
