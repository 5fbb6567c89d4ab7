//! The estimation overlay's resources: boards, pipelines and estimates.
use vstd::prelude::*;

use crate::date::DateTime;
use crate::error::Error;

verus! {

/// A workspace of the overlay.
#[derive(Clone, Debug, PartialEq)]
pub struct Workspace {
    pub name: Option<String>,
    pub description: Option<String>,
    pub id: String,
    pub repositories: Vec<u64>,
}

/// What the overlay knows of an issue.
#[derive(Clone, Debug, PartialEq)]
pub struct Issue {
    pub estimate: Option<Estimate>,
    pub is_epic: bool,
}

/// A story-point estimate.
#[derive(Clone, Copy, Debug, PartialEq, Eq, Structural)]
pub struct Estimate {
    pub value: u32,
}

/// Body that sets an estimate.
#[derive(Clone, Copy, Debug, PartialEq, Eq, Structural)]
pub struct SetEstimate {
    pub estimate: u32,
}

/// An issue as a pipeline lists it.
#[derive(Clone, Debug, PartialEq)]
pub struct PipelineIssue {
    pub issue_number: u32,
    pub estimate: Option<Estimate>,
    pub is_epic: bool,
}

/// One column of a board.
#[derive(Clone, Debug, PartialEq)]
pub struct Pipeline {
    pub id: String,
    pub name: String,
    pub issues: Vec<PipelineIssue>,
}

/// Where to put an issue in a pipeline.
#[derive(Clone, Debug, PartialEq)]
pub struct PipelinePosition {
    pub pipeline_id: String,
    pub position: String,
}

/// A board: its pipelines, in order.
#[derive(Clone, Debug, PartialEq)]
pub struct Board {
    pub pipelines: Vec<Pipeline>,
}

/// The day a milestone's sprint started.
#[derive(Clone, Copy, Debug, PartialEq, Eq, Structural)]
pub struct StartDate {
    pub start_date: DateTime,
}

/// The estimates that an operator picks from, in the order offered.
pub open spec fn estimate_values() -> Seq<u32> {
    seq![0u32, 1, 2, 3, 5, 8, 13]
}

/// The estimates that an operator picks from.
pub fn estimate_choices() -> (r: Vec<Estimate>)
    ensures
        r@.len() == estimate_values().len(),
        forall|i: int| 0 <= i < r@.len() ==> #[trigger] r@[i].value == estimate_values()[i],
{
    let values: [u32; 7] = [0, 1, 2, 3, 5, 8, 13];
    let mut r: Vec<Estimate> = Vec::new();
    let mut i: usize = 0;
    while i < 7
        invariant
            0 <= i <= 7,
            values@ == estimate_values(),
            r@.len() == i,
            forall|j: int| 0 <= j < i ==> #[trigger] r@[j].value == estimate_values()[j],
        decreases 7 - i,
    {
        r.push(Estimate { value: values[i] });
        i = i + 1;
    }
    r
}

impl SetEstimate {
    /// The body that sets the estimate to `estimate`.
    pub fn from_value(estimate: u32) -> (r: SetEstimate)
        ensures
            r.estimate == estimate,
    {
        SetEstimate { estimate }
    }
}

impl PipelinePosition {
    /// The top of the pipeline `pipeline_id`.
    pub fn top(pipeline_id: &str) -> (r: PipelinePosition)
        ensures
            r.pipeline_id@ == pipeline_id@,
            r.position@ == "top"@,
    {
        PipelinePosition { pipeline_id: pipeline_id.to_owned(), position: "top".to_owned() }
    }
}

/// The first of a repository's workspaces, which the board is read from.
pub fn first_workspace(workspaces: Vec<Workspace>) -> (r: Result<Workspace, Error>)
    ensures
        match r {
            Ok(w) => workspaces@.len() > 0 && w == workspaces@[0],
            Err(Error::Unknown { description }) => workspaces@.len() == 0 && description@
                == "No Zenhub workspace found for repository."@,
            Err(_) => false,
        },
{
    let mut workspaces = workspaces;
    if workspaces.len() == 0 {
        return Err(
            Error::Unknown { description: "No Zenhub workspace found for repository.".to_owned() },
        );
    }
    Ok(workspaces.remove(0))
}

} // verus!
