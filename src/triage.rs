//! Triage: bringing issues one by one into a sprint's milestone, a pipeline of
//! the board and an owner.
//!
//! A session alternates between choosing a pipeline and triaging issues into
//! it. Each issue goes through a small state machine: the caller performs each
//! action that `IssueTriage::step` returns and hands back what came of it.
use vstd::prelude::*;

use crate::assign::AssignedTo;
use crate::choice::{last_index, lemma_last_index_bounds, Choices};
use crate::decimal::{decimal, parse_u32, parsed_u32, to_decimal};
use crate::error::Error;
use crate::github::{Issue, Milestone, OrganisationMember, Repository};
use crate::zenhub::{Board, Pipeline, Workspace};

verus! {

/// How triaging one issue ended.
#[derive(Clone, Copy, Debug, PartialEq, Eq, Structural)]
pub enum LoopStatus {
    /// Go on with the next issue in the same pipeline.
    Success,
    /// End the session.
    Quit,
    /// Choose another pipeline.
    NextPipeline,
}

/// What the operator typed when asked for an issue.
#[derive(Clone, Copy, Debug, PartialEq, Eq, Structural)]
pub enum IssueInput {
    Quit,
    NextPipeline,
    Number(u32),
    Invalid,
}

/// What a line typed at the issue prompt means: `q` quits, `n` moves on to
/// the next pipeline, a decimal number names an issue.
pub open spec fn issue_input(s: Seq<char>) -> IssueInput {
    if s == seq!['q'] {
        IssueInput::Quit
    } else if s == seq!['n'] {
        IssueInput::NextPipeline
    } else {
        match parsed_u32(s) {
            Some(n) => IssueInput::Number(n),
            None => IssueInput::Invalid,
        }
    }
}

/// Reads a line typed at the issue prompt.
pub fn read_issue_input(s: &str) -> (r: IssueInput)
    ensures
        r == issue_input(s@),
{
    let len = s.unicode_len();
    if len == 1 {
        let c = s.get_char(0);
        if c == 'q' {
            assert(s@ =~= seq!['q']);
            return IssueInput::Quit;
        }
        if c == 'n' {
            assert(s@ =~= seq!['n']);
            return IssueInput::NextPipeline;
        }
    }
    match parse_u32(s) {
        Some(n) => IssueInput::Number(n),
        None => IssueInput::Invalid,
    }
}

/// The pipelines' names, in board order.
pub open spec fn pipeline_names(pipelines: Seq<Pipeline>) -> Seq<Seq<char>> {
    pipelines.map_values(|p: Pipeline| p.name@)
}

/// The members' logins, in order.
pub open spec fn member_logins(members: Seq<OrganisationMember>) -> Seq<Seq<char>> {
    members.map_values(|m: OrganisationMember| m.login@)
}

/// What a triage session works with, loaded once at its start: the target
/// milestone, the board's pipelines and the organisation's members.
pub struct MilestoneManager {
    pub milestone: Milestone,
    pub repository: Repository,
    pub workspace: Workspace,
    pub pipelines: Vec<Pipeline>,
    pub members: Vec<OrganisationMember>,
    /// The pipelines by name.
    pub pipeline_choices: Choices,
    /// The members by login.
    pub member_choices: Choices,
}

fn pipeline_name_list(pipelines: &Vec<Pipeline>) -> (r: Vec<String>)
    ensures
        r@.map_values(|n: String| n@) == pipeline_names(pipelines@),
{
    let mut r: Vec<String> = Vec::new();
    let mut i: usize = 0;
    while i < pipelines.len()
        invariant
            i <= pipelines@.len(),
            r@.len() == i,
            forall|j: int| 0 <= j < i ==> #[trigger] r@[j]@ == pipelines@[j].name@,
        decreases pipelines@.len() - i,
    {
        r.push(pipelines[i].name.clone());
        i = i + 1;
    }
    assert(r@.map_values(|n: String| n@) =~= pipeline_names(pipelines@));
    r
}

fn member_login_list(members: &Vec<OrganisationMember>) -> (r: Vec<String>)
    ensures
        r@.map_values(|n: String| n@) == member_logins(members@),
{
    let mut r: Vec<String> = Vec::new();
    let mut i: usize = 0;
    while i < members.len()
        invariant
            i <= members@.len(),
            r@.len() == i,
            forall|j: int| 0 <= j < i ==> #[trigger] r@[j]@ == members@[j].login@,
        decreases members@.len() - i,
    {
        r.push(members[i].login.clone());
        i = i + 1;
    }
    assert(r@.map_values(|n: String| n@) =~= member_logins(members@));
    r
}

impl MilestoneManager {
    /// The choices stand for the pipelines by name and the members by login.
    pub open spec fn wf(&self) -> bool {
        &&& self.pipeline_choices.wf()
        &&& self.pipeline_choices.names() == pipeline_names(self.pipelines@)
        &&& self.member_choices.wf()
        &&& self.member_choices.names() == member_logins(self.members@)
    }

    /// A session on `milestone`, with the pipelines of `board`.
    pub fn new(
        milestone: Milestone,
        repository: Repository,
        workspace: Workspace,
        board: Board,
        members: Vec<OrganisationMember>,
    ) -> (r: MilestoneManager)
        ensures
            r.wf(),
            r.milestone == milestone,
            r.repository == repository,
            r.workspace == workspace,
            r.pipelines@ == board.pipelines@,
            r.members@ == members@,
    {
        let pipeline_choices = Choices::from_names(&pipeline_name_list(&board.pipelines));
        let member_choices = Choices::from_names(&member_login_list(&members));
        MilestoneManager {
            milestone,
            repository,
            workspace,
            pipelines: board.pipelines,
            members,
            pipeline_choices,
            member_choices,
        }
    }

    /// The pipeline that a name chosen by the operator stands for: the last
    /// one with that name.
    pub fn pipeline_named(&self, name: &str) -> (r: Option<usize>)
        requires
            self.wf(),
        ensures
            match r {
                None => last_index(pipeline_names(self.pipelines@), name@) < 0,
                Some(j) => j as int == last_index(pipeline_names(self.pipelines@), name@) && j
                    < self.pipelines@.len(),
            },
    {
        let r = self.pipeline_choices.get(name);
        proof {
            lemma_last_index_bounds(pipeline_names(self.pipelines@), name@);
        }
        r
    }

    /// The member that a login chosen by the operator stands for: the last
    /// one with that login.
    pub fn member_with_login(&self, login: &str) -> (r: Option<usize>)
        requires
            self.wf(),
        ensures
            match r {
                None => last_index(member_logins(self.members@), login@) < 0,
                Some(j) => j as int == last_index(member_logins(self.members@), login@) && j
                    < self.members@.len(),
            },
    {
        let r = self.member_choices.get(login);
        proof {
            lemma_last_index_bounds(member_logins(self.members@), login@);
        }
        r
    }
}

/// Where triaging one issue stands.
#[derive(Clone, Copy, Debug, PartialEq, Eq, Structural)]
pub enum IssueStage {
    /// Waiting for the operator's line at the issue prompt.
    AwaitingNumber,
    /// Waiting for the issue to be fetched.
    AwaitingIssue,
    /// Waiting for the answer to "Assign to milestone?".
    ConfirmingMilestone,
    /// Waiting for the issue's milestone to be set.
    AssigningMilestone,
    /// Waiting for the issue to be moved to the top of the pipeline.
    Moving,
    /// Waiting for the operator to confirm the assignees, or their absence.
    ConfirmingAssignees,
    /// Waiting for the operator to choose a member.
    ChoosingMember,
    /// Waiting for the member to be made the one assignee.
    AssigningMember,
    /// Finished with this issue.
    Done,
}

/// What came of the last action.
pub enum TriageEvent {
    /// The line typed at the issue prompt.
    Line(String),
    /// The issue, fetched.
    IssueFetched(Issue),
    /// The operator's yes or no.
    Answer(bool),
    /// The login that the operator chose.
    MemberChosen(String),
    /// The change asked for was made.
    Completed,
}

/// Why triaging an issue stopped short.
#[derive(Clone, Copy, Debug, PartialEq, Eq, Structural)]
pub enum TriageFailure {
    /// The line typed was neither `q`, `n` nor an issue number.
    InvalidIssueNumber,
    /// The login chosen is no member's.
    UnknownMember,
    /// An event came that the current stage does not wait for.
    UnexpectedEvent,
}

/// What the caller does next.
#[derive(Clone, Copy, Debug, PartialEq, Eq, Structural)]
pub enum TriageAction {
    /// Fetch the issue with this number.
    FetchIssue(u32),
    /// Ask "Assign to milestone?".
    ConfirmMilestone,
    /// Set the issue's milestone.
    AssignMilestone { issue_number: u32, milestone_number: u32 },
    /// Move the issue to the top of the pipeline with this index.
    MoveIssue { issue_number: u32, pipeline: usize },
    /// Ask "Leave unassigned?".
    ConfirmLeaveUnassigned,
    /// Ask whether the issue's assignees are correct.
    ConfirmAssignees,
    /// Let the operator choose a member.
    ChooseMember,
    /// Make the member with this index the issue's one assignee.
    AssignMember { issue_number: u32, member: usize },
    /// The issue is done with.
    Finished(LoopStatus),
    /// The issue is given up.
    Failed(TriageFailure),
}

/// The triage of one issue in one pipeline.
pub struct IssueTriage {
    /// The index of the pipeline.
    pub pipeline: usize,
    pub stage: IssueStage,
    /// The issue, once fetched.
    pub issue: Option<Issue>,
}

/// Where triage goes once an issue is in the milestone: the assignee
/// question.
pub open spec fn assignee_step(issue: Issue) -> (IssueStage, Option<Issue>, TriageAction) {
    (
        IssueStage::ConfirmingAssignees,
        Some(issue),
        if issue.assignees@.len() == 0 {
            TriageAction::ConfirmLeaveUnassigned
        } else {
            TriageAction::ConfirmAssignees
        },
    )
}

/// Where triage goes once an issue is in the milestone: a move to the top of
/// the pipeline unless the pipeline already lists it, then the assignees.
pub open spec fn pipeline_step(mgr: MilestoneManager, pipeline: usize, issue: Issue) -> (
    IssueStage,
    Option<Issue>,
    TriageAction,
) {
    if issue.spec_assigned_to(&mgr.pipelines@[pipeline as int]) {
        assignee_step(issue)
    } else {
        (
            IssueStage::Moving,
            Some(issue),
            TriageAction::MoveIssue { issue_number: issue.number, pipeline },
        )
    }
}

/// One step of triage: the next stage, the issue held, and the action to take.
pub open spec fn triage_next(mgr: MilestoneManager, t: IssueTriage, event: TriageEvent) -> (
    IssueStage,
    Option<Issue>,
    TriageAction,
) {
    match (t.stage, event) {
        (IssueStage::AwaitingNumber, TriageEvent::Line(s)) => match issue_input(s@) {
            IssueInput::Quit => (
                IssueStage::Done,
                t.issue,
                TriageAction::Finished(LoopStatus::Quit),
            ),
            IssueInput::NextPipeline => (
                IssueStage::Done,
                t.issue,
                TriageAction::Finished(LoopStatus::NextPipeline),
            ),
            IssueInput::Number(n) => (IssueStage::AwaitingIssue, t.issue, TriageAction::FetchIssue(n)),
            IssueInput::Invalid => (
                IssueStage::Done,
                t.issue,
                TriageAction::Failed(TriageFailure::InvalidIssueNumber),
            ),
        },
        (IssueStage::AwaitingIssue, TriageEvent::IssueFetched(issue)) => {
            if issue.spec_assigned_to(&mgr.milestone) {
                pipeline_step(mgr, t.pipeline, issue)
            } else {
                (IssueStage::ConfirmingMilestone, Some(issue), TriageAction::ConfirmMilestone)
            }
        },
        (IssueStage::ConfirmingMilestone, TriageEvent::Answer(yes)) => {
            if yes {
                (
                    IssueStage::AssigningMilestone,
                    t.issue,
                    TriageAction::AssignMilestone {
                        issue_number: t.issue->0.number,
                        milestone_number: mgr.milestone.number,
                    },
                )
            } else {
                (IssueStage::Done, t.issue, TriageAction::Finished(LoopStatus::Success))
            }
        },
        (IssueStage::AssigningMilestone, TriageEvent::Completed) => pipeline_step(
            mgr,
            t.pipeline,
            t.issue->0,
        ),
        (IssueStage::Moving, TriageEvent::Completed) => assignee_step(t.issue->0),
        (IssueStage::ConfirmingAssignees, TriageEvent::Answer(keep)) => {
            if keep {
                (IssueStage::Done, t.issue, TriageAction::Finished(LoopStatus::Success))
            } else {
                (IssueStage::ChoosingMember, t.issue, TriageAction::ChooseMember)
            }
        },
        (IssueStage::ChoosingMember, TriageEvent::MemberChosen(login)) => {
            let j = last_index(member_logins(mgr.members@), login@);
            if j < 0 {
                (IssueStage::Done, t.issue, TriageAction::Failed(TriageFailure::UnknownMember))
            } else if mgr.members@[j].spec_assigned_to(&t.issue->0) {
                (IssueStage::Done, t.issue, TriageAction::Finished(LoopStatus::Success))
            } else {
                (
                    IssueStage::AssigningMember,
                    t.issue,
                    TriageAction::AssignMember { issue_number: t.issue->0.number, member: j as usize },
                )
            }
        },
        (IssueStage::AssigningMember, TriageEvent::Completed) => (
            IssueStage::Done,
            t.issue,
            TriageAction::Finished(LoopStatus::Success),
        ),
        _ => (IssueStage::Done, t.issue, TriageAction::Failed(TriageFailure::UnexpectedEvent)),
    }
}

impl IssueTriage {
    /// The triage's invariant: the pipeline exists, an issue is held from the
    /// moment it is fetched, and the stages that change the milestone or the
    /// pipeline are only reached for an issue not already there.
    pub open spec fn wf(&self, mgr: &MilestoneManager) -> bool {
        &&& mgr.wf()
        &&& self.pipeline < mgr.pipelines@.len()
        &&& (self.stage == IssueStage::AwaitingNumber || self.stage == IssueStage::AwaitingIssue
            || self.stage == IssueStage::Done || self.issue is Some)
        &&& (self.stage == IssueStage::ConfirmingMilestone || self.stage
            == IssueStage::AssigningMilestone) ==> !self.issue->0.spec_assigned_to(&mgr.milestone)
        &&& self.stage == IssueStage::Moving ==> !self.issue->0.spec_assigned_to(
            &mgr.pipelines@[self.pipeline as int],
        )
    }

    /// Starts triaging an issue in the pipeline with index `pipeline`; the
    /// caller first asks the operator for an issue number.
    pub fn new(mgr: &MilestoneManager, pipeline: usize) -> (r: IssueTriage)
        requires
            mgr.wf(),
            pipeline < mgr.pipelines@.len(),
        ensures
            r.wf(mgr),
            r.pipeline == pipeline,
            r.stage == IssueStage::AwaitingNumber,
            r.issue is None,
    {
        IssueTriage { pipeline, stage: IssueStage::AwaitingNumber, issue: None }
    }

    fn enter_assignees(&mut self, issue: Issue) -> (r: TriageAction)
        ensures
            (final(self).stage, final(self).issue, r) == assignee_step(issue),
            final(self).pipeline == old(self).pipeline,
    {
        let action = if issue.assignees.len() == 0 {
            TriageAction::ConfirmLeaveUnassigned
        } else {
            TriageAction::ConfirmAssignees
        };
        self.stage = IssueStage::ConfirmingAssignees;
        self.issue = Some(issue);
        action
    }

    fn enter_pipeline(&mut self, mgr: &MilestoneManager, issue: Issue) -> (r: TriageAction)
        requires
            old(self).pipeline < mgr.pipelines@.len(),
        ensures
            (final(self).stage, final(self).issue, r) == pipeline_step(
                *mgr,
                old(self).pipeline,
                issue,
            ),
            final(self).pipeline == old(self).pipeline,
    {
        if issue.assigned_to(&mgr.pipelines[self.pipeline]) {
            self.enter_assignees(issue)
        } else {
            let number = issue.number;
            self.stage = IssueStage::Moving;
            self.issue = Some(issue);
            TriageAction::MoveIssue { issue_number: number, pipeline: self.pipeline }
        }
    }

    /// Takes in what came of the last action and says what to do next.
    pub fn step(&mut self, mgr: &MilestoneManager, event: TriageEvent) -> (r: TriageAction)
        requires
            old(self).wf(mgr),
        ensures
            (final(self).stage, final(self).issue, r) == triage_next(*mgr, *old(self), event),
            final(self).pipeline == old(self).pipeline,
            final(self).wf(mgr),
    {
        match event {
            TriageEvent::Line(s) => {
                if self.stage != IssueStage::AwaitingNumber {
                    self.stage = IssueStage::Done;
                    return TriageAction::Failed(TriageFailure::UnexpectedEvent);
                }
                self.stage = IssueStage::Done;
                match read_issue_input(s.as_str()) {
                    IssueInput::Quit => TriageAction::Finished(LoopStatus::Quit),
                    IssueInput::NextPipeline => TriageAction::Finished(LoopStatus::NextPipeline),
                    IssueInput::Number(n) => {
                        self.stage = IssueStage::AwaitingIssue;
                        TriageAction::FetchIssue(n)
                    },
                    IssueInput::Invalid => TriageAction::Failed(TriageFailure::InvalidIssueNumber),
                }
            },
            TriageEvent::IssueFetched(issue) => {
                if self.stage != IssueStage::AwaitingIssue {
                    self.stage = IssueStage::Done;
                    return TriageAction::Failed(TriageFailure::UnexpectedEvent);
                }
                if issue.assigned_to(&mgr.milestone) {
                    self.enter_pipeline(mgr, issue)
                } else {
                    self.stage = IssueStage::ConfirmingMilestone;
                    self.issue = Some(issue);
                    TriageAction::ConfirmMilestone
                }
            },
            TriageEvent::Answer(yes) => {
                if self.stage == IssueStage::ConfirmingMilestone {
                    if yes {
                        self.stage = IssueStage::AssigningMilestone;
                        let number = match &self.issue {
                            Some(i) => i.number,
                            None => 0,
                        };
                        TriageAction::AssignMilestone {
                            issue_number: number,
                            milestone_number: mgr.milestone.number,
                        }
                    } else {
                        self.stage = IssueStage::Done;
                        TriageAction::Finished(LoopStatus::Success)
                    }
                } else if self.stage == IssueStage::ConfirmingAssignees {
                    if yes {
                        self.stage = IssueStage::Done;
                        TriageAction::Finished(LoopStatus::Success)
                    } else {
                        self.stage = IssueStage::ChoosingMember;
                        TriageAction::ChooseMember
                    }
                } else {
                    self.stage = IssueStage::Done;
                    TriageAction::Failed(TriageFailure::UnexpectedEvent)
                }
            },
            TriageEvent::MemberChosen(login) => {
                if self.stage != IssueStage::ChoosingMember {
                    self.stage = IssueStage::Done;
                    return TriageAction::Failed(TriageFailure::UnexpectedEvent);
                }
                self.stage = IssueStage::Done;
                proof {
                    lemma_last_index_bounds(member_logins(mgr.members@), login@);
                }
                match mgr.member_with_login(login.as_str()) {
                    None => TriageAction::Failed(TriageFailure::UnknownMember),
                    Some(j) => match &self.issue {
                        Some(i) => {
                            if mgr.members[j].assigned_to(i) {
                                TriageAction::Finished(LoopStatus::Success)
                            } else {
                                self.stage = IssueStage::AssigningMember;
                                TriageAction::AssignMember { issue_number: i.number, member: j }
                            }
                        },
                        None => TriageAction::Failed(TriageFailure::UnexpectedEvent),
                    },
                }
            },
            TriageEvent::Completed => {
                if self.stage == IssueStage::AssigningMilestone || self.stage
                    == IssueStage::Moving {
                    let moving = self.stage == IssueStage::Moving;
                    match self.issue.take() {
                        Some(issue) => {
                            if moving {
                                self.enter_assignees(issue)
                            } else {
                                self.enter_pipeline(mgr, issue)
                            }
                        },
                        None => {
                            self.stage = IssueStage::Done;
                            TriageAction::Failed(TriageFailure::UnexpectedEvent)
                        },
                    }
                } else if self.stage == IssueStage::AssigningMember {
                    self.stage = IssueStage::Done;
                    TriageAction::Finished(LoopStatus::Success)
                } else {
                    self.stage = IssueStage::Done;
                    TriageAction::Failed(TriageFailure::UnexpectedEvent)
                }
            },
        }
    }
}

/// Triage never sets the milestone of an issue that is already in the target
/// milestone, never moves an issue that the pipeline already lists, and never
/// assigns a member who is already an assignee; and each step keeps the
/// triage's invariant, so this holds however often a step is taken again.
pub proof fn lemma_triage_changes_only_what_differs(
    mgr: MilestoneManager,
    t: IssueTriage,
    event: TriageEvent,
)
    requires
        t.wf(&mgr),
        mgr.members@.len() <= usize::MAX,
    ensures
        ({
            let (stage, issue, action) = triage_next(mgr, t, event);
            &&& action matches TriageAction::AssignMilestone { issue_number, milestone_number }
                ==> issue is Some && !issue->0.spec_assigned_to(&mgr.milestone) && issue_number
                == issue->0.number && milestone_number == mgr.milestone.number
            &&& action matches TriageAction::MoveIssue { issue_number, pipeline } ==> issue is Some
                && !issue->0.spec_assigned_to(&mgr.pipelines@[t.pipeline as int]) && issue_number
                == issue->0.number && pipeline == t.pipeline
            &&& action matches TriageAction::AssignMember { issue_number, member } ==> issue is Some
                && member < mgr.members@.len() && !mgr.members@[member as int].spec_assigned_to(
                &issue->0,
            ) && issue_number == issue->0.number
            &&& (IssueTriage { pipeline: t.pipeline, stage, issue }).wf(&mgr)
        }),
{
    match event {
        TriageEvent::MemberChosen(login) => {
            lemma_last_index_bounds(member_logins(mgr.members@), login@);
        },
        _ => {},
    }
}

/// Where a triage session stands.
#[derive(Clone, Copy, Debug, PartialEq, Eq, Structural)]
pub enum SessionStage {
    /// The operator is to choose a pipeline.
    ChoosingPipeline,
    /// Issues are triaged into the pipeline with this index.
    InPipeline(usize),
    /// The operator quit.
    Finished,
}

/// The message for a pipeline name that is no pipeline's.
pub open spec fn unknown_pipeline_text(name: Seq<char>) -> Seq<char> {
    "Unknown pipeline choice '"@ + name + "'"@
}

/// The session: which pipeline issues go to, until the operator quits.
pub struct TriageSession {
    pub stage: SessionStage,
}

impl TriageSession {
    /// A session starts by choosing a pipeline.
    pub fn new() -> (r: TriageSession)
        ensures
            r.stage == SessionStage::ChoosingPipeline,
    {
        TriageSession { stage: SessionStage::ChoosingPipeline }
    }

    /// Takes the pipeline name that the operator chose. An unknown name is a
    /// user error, after which the operator chooses again.
    pub fn choose_pipeline(&mut self, mgr: &MilestoneManager, name: &str) -> (r: Result<
        usize,
        Error,
    >)
        requires
            old(self).stage == SessionStage::ChoosingPipeline,
            mgr.wf(),
        ensures
            match r {
                Ok(i) => i as int == last_index(pipeline_names(mgr.pipelines@), name@) && i
                    < mgr.pipelines@.len() && final(self).stage == SessionStage::InPipeline(i),
                Err(Error::User { description }) => last_index(
                    pipeline_names(mgr.pipelines@),
                    name@,
                ) < 0 && description@ == unknown_pipeline_text(name@) && final(self).stage
                    == SessionStage::ChoosingPipeline,
                Err(_) => false,
            },
    {
        match mgr.pipeline_named(name) {
            Some(i) => {
                self.stage = SessionStage::InPipeline(i);
                Ok(i)
            },
            None => {
                let mut d = "Unknown pipeline choice '".to_owned();
                d.append(name);
                d.append("'");
                Err(Error::User { description: d })
            },
        }
    }

    /// Takes how triaging an issue ended: `None` for an error, which the
    /// caller has reported; triage then goes on in the same pipeline.
    pub fn issue_ended(&mut self, status: Option<LoopStatus>)
        requires
            old(self).stage is InPipeline,
        ensures
            final(self).stage == match status {
                Some(LoopStatus::Quit) => SessionStage::Finished,
                Some(LoopStatus::NextPipeline) => SessionStage::ChoosingPipeline,
                _ => old(self).stage,
            },
    {
        match status {
            Some(LoopStatus::Quit) => {
                self.stage = SessionStage::Finished;
            },
            Some(LoopStatus::NextPipeline) => {
                self.stage = SessionStage::ChoosingPipeline;
            },
            _ => {},
        }
    }
}

/// The error for a triage that failed, given the operator's input that
/// caused it (the line typed, or the login chosen).
pub fn failure_error(failure: TriageFailure, input: &str) -> (r: Error)
    ensures
        match (failure, r) {
            (TriageFailure::InvalidIssueNumber, Error::User { description }) => description@
                == "Invalid issue number "@ + input@ + "."@,
            (TriageFailure::UnknownMember, Error::User { description }) => description@
                == "Unknown member choice '"@ + input@ + "'"@,
            (TriageFailure::UnexpectedEvent, Error::Unknown { description }) => description@
                == "Unexpected triage event."@,
            _ => false,
        },
{
    match failure {
        TriageFailure::InvalidIssueNumber => {
            let mut d = "Invalid issue number ".to_owned();
            d.append(input);
            d.append(".");
            Error::User { description: d }
        },
        TriageFailure::UnknownMember => {
            let mut d = "Unknown member choice '".to_owned();
            d.append(input);
            d.append("'");
            Error::User { description: d }
        },
        TriageFailure::UnexpectedEvent => Error::Unknown {
            description: "Unexpected triage event.".to_owned(),
        },
    }
}

/// Texts joined with a separator between each two.
pub open spec fn joined(parts: Seq<Seq<char>>, sep: Seq<char>) -> Seq<char>
    decreases parts.len(),
{
    if parts.len() == 0 {
        Seq::empty()
    } else if parts.len() == 1 {
        parts[0]
    } else {
        joined(parts.drop_last(), sep) + sep + parts.last()
    }
}

/// The question that confirms an issue's assignees:
/// `Assigned to <logins, comma separated>; is this correct?`.
pub fn assignees_question(issue: &Issue) -> (r: String)
    ensures
        r@ == "Assigned to "@ + joined(member_logins(issue.assignees@), ", "@)
            + "; is this correct?"@,
{
    let ghost logins = member_logins(issue.assignees@);
    let mut names = String::new();
    let mut i: usize = 0;
    while i < issue.assignees.len()
        invariant
            i <= issue.assignees@.len(),
            logins == member_logins(issue.assignees@),
            names@ == joined(logins.take(i as int), ", "@),
        decreases issue.assignees@.len() - i,
    {
        if i > 0 {
            names.append(", ");
        }
        names.append(issue.assignees[i].login.as_str());
        proof {
            let t = logins.take(i + 1);
            assert(t.drop_last() =~= logins.take(i as int));
            if i == 0 {
                assert(logins.take(0) =~= Seq::<Seq<char>>::empty());
            }
        }
        i = i + 1;
    }
    assert(logins.take(i as int) =~= logins);
    let mut q = "Assigned to ".to_owned();
    q.append(names.as_str());
    q.append("; is this correct?");
    q
}

/// How an issue is shown: `<number>: <title>`.
pub fn issue_summary(issue: &Issue) -> (r: String)
    ensures
        r@ == decimal(issue.number as nat) + ": "@ + issue.title@,
{
    let mut s = to_decimal(issue.number);
    s.append(": ");
    s.append(issue.title.as_str());
    s
}

} // verus!
