//! Reconciling planned story points against what a milestone holds.
use vstd::prelude::*;

use crate::decimal::{decimal, to_decimal};
use crate::error::Error;

verus! {

/// The message when fewer points were planned than remain open.
pub const PLANNED_TOO_LOW: &'static str =
    "Planned points too low: should be higher than points remaining in sprint.";

/// The message when more points were planned than the milestone holds.
pub const PLANNED_TOO_HIGH: &'static str =
    "Planned points too high: should be lower than all points in milestone.";

/// Story points of a finished sprint, split by where the work was planned.
pub struct SprintPoints {
    pub planned: u32,
    pub in_milestone: u32,
    pub in_milestone_open: u32,
    pub done_in_sprint: u32,
    pub done_out_of_sprint: u32,
    pub done_total: u32,
}

/// Whether three point totals can be reconciled: the open points fit in the
/// plan, and the plan fits in the milestone.
pub open spec fn reconcilable(planned: int, in_milestone: int, in_milestone_open: int) -> bool {
    in_milestone_open <= planned && planned <= in_milestone
}

impl SprintPoints {
    /// The breakdown's own invariant: each part is what the totals give, and
    /// the parts add up to the total.
    pub open spec fn wf(&self) -> bool {
        &&& reconcilable(
            self.planned as int,
            self.in_milestone as int,
            self.in_milestone_open as int,
        )
        &&& self.done_in_sprint == self.planned - self.in_milestone_open
        &&& self.done_out_of_sprint == self.in_milestone - self.planned
        &&& self.done_total == self.done_in_sprint + self.done_out_of_sprint
    }

    /// Reconciles the planned points with the points of all issues in the
    /// milestone and of those still open in it.
    pub fn new(planned: u32, in_milestone: u32, in_milestone_open: u32) -> (r: Result<
        SprintPoints,
        Error,
    >)
        ensures
            r is Ok <==> reconcilable(planned as int, in_milestone as int, in_milestone_open as int),
            match r {
                Ok(p) => {
                    &&& p.wf()
                    &&& p.planned == planned
                    &&& p.in_milestone == in_milestone
                    &&& p.in_milestone_open == in_milestone_open
                },
                Err(Error::User { description }) => if planned < in_milestone_open {
                    description@ == PLANNED_TOO_LOW@
                } else {
                    planned > in_milestone && description@ == PLANNED_TOO_HIGH@
                },
                Err(_) => false,
            },
    {
        let done_in_sprint = match planned.checked_sub(in_milestone_open) {
            Some(d) => d,
            None => {
                return Err(Error::User { description: PLANNED_TOO_LOW.to_owned() });
            },
        };
        let done_out_of_sprint = match in_milestone.checked_sub(planned) {
            Some(d) => d,
            None => {
                return Err(Error::User { description: PLANNED_TOO_HIGH.to_owned() });
            },
        };
        let done_total = done_in_sprint + done_out_of_sprint;
        Ok(SprintPoints {
            planned,
            in_milestone,
            in_milestone_open,
            done_in_sprint,
            done_out_of_sprint,
            done_total,
        })
    }

    /// The points planned but not done.
    pub fn remaining(&self) -> (r: u32)
        requires
            self.wf(),
        ensures
            r == self.in_milestone_open,
    {
        self.planned - self.done_in_sprint
    }
}

/// The title that a closed sprint's milestone gets:
/// `<title> [<done in sprint>/<planned> + <done out of sprint>]`.
pub open spec fn closed_title(title: Seq<char>, p: SprintPoints) -> Seq<char> {
    title + " ["@ + decimal(p.done_in_sprint as nat) + "/"@ + decimal(p.planned as nat) + " + "@
        + decimal(p.done_out_of_sprint as nat) + "]"@
}

/// Writes the title that records a sprint's points on its closed milestone.
pub fn closed_milestone_title(title: &str, points: &SprintPoints) -> (r: String)
    ensures
        r@ == closed_title(title@, *points),
{
    let mut t = title.to_owned();
    t.append(" [");
    t.append(to_decimal(points.done_in_sprint).as_str());
    t.append("/");
    t.append(to_decimal(points.planned).as_str());
    t.append(" + ");
    t.append(to_decimal(points.done_out_of_sprint).as_str());
    t.append("]");
    t
}

} // verus!
