//! Which things of the tracker are assigned to which.
use vstd::prelude::*;

use crate::github::{Issue, Milestone, OrganisationMember};
use crate::zenhub::{Pipeline, StartDate};

verus! {

/// Objects that can be assigned to one another: an issue to a milestone or a
/// pipeline, a member to an issue.
pub trait AssignedTo<T> {
    spec fn spec_assigned_to(&self, assignable: &T) -> bool;

    fn assigned_to(&self, assignable: &T) -> (r: bool)
        ensures
            r == self.spec_assigned_to(assignable),
    ;
}

/// A sprint: a milestone and the day it started.
#[derive(Clone, Debug, PartialEq)]
pub struct Sprint {
    pub milestone: Milestone,
    pub start_date: StartDate,
}

impl AssignedTo<Milestone> for Issue {
    /// The issue's milestone is the one with that id.
    open spec fn spec_assigned_to(&self, assignable: &Milestone) -> bool {
        self.milestone is Some && self.milestone->0.id == assignable.id
    }

    fn assigned_to(&self, assignable: &Milestone) -> (r: bool) {
        match &self.milestone {
            Some(m) => m.id == assignable.id,
            None => false,
        }
    }
}

impl AssignedTo<Pipeline> for Issue {
    /// The pipeline lists the issue's number.
    open spec fn spec_assigned_to(&self, assignable: &Pipeline) -> bool {
        exists|i: int|
            0 <= i < assignable.issues@.len() && #[trigger] assignable.issues@[i].issue_number
                == self.number
    }

    fn assigned_to(&self, assignable: &Pipeline) -> (r: bool) {
        let mut i: usize = 0;
        while i < assignable.issues.len()
            invariant
                0 <= i <= assignable.issues@.len(),
                forall|j: int|
                    0 <= j < i ==> #[trigger] assignable.issues@[j].issue_number != self.number,
            decreases assignable.issues@.len() - i,
        {
            if assignable.issues[i].issue_number == self.number {
                return true;
            }
            i = i + 1;
        }
        false
    }
}

impl AssignedTo<Issue> for OrganisationMember {
    /// One of the issue's assignees has the member's login.
    open spec fn spec_assigned_to(&self, assignable: &Issue) -> bool {
        exists|i: int|
            0 <= i < assignable.assignees@.len() && #[trigger] assignable.assignees@[i].login@
                == self.login@
    }

    fn assigned_to(&self, assignable: &Issue) -> (r: bool) {
        let mut i: usize = 0;
        while i < assignable.assignees.len()
            invariant
                0 <= i <= assignable.assignees@.len(),
                forall|j: int|
                    0 <= j < i ==> #[trigger] assignable.assignees@[j].login@ != self.login@,
            decreases assignable.assignees@.len() - i,
        {
            if assignable.assignees[i].login == self.login {
                return true;
            }
            i = i + 1;
        }
        false
    }
}

} // verus!
