//! Finishing a sprint: reviewing the issues closed during it, tallying the
//! points in its milestone, and closing the milestone.
use vstd::prelude::*;

use crate::choice::Choices;
use crate::decimal::{decimal, parse_u32, parsed_u32, to_decimal};
use crate::error::Error;
use crate::github::{Issue, Milestone, State};
use crate::points::{closed_milestone_title, closed_title, SprintPoints};
use crate::zenhub;

verus! {

/// Why options for a choice could not be offered.
pub enum InteractError {
    Options { description: String },
}

/// The milestones' titles, in order.
pub open spec fn milestone_titles(milestones: Seq<Milestone>) -> Seq<Seq<char>> {
    milestones.map_values(|m: Milestone| m.title@)
}

/// The titles that the operator chooses a sprint's milestone by, each standing
/// for the last milestone with that title; with no milestones there is
/// nothing to choose, and nothing more is done.
pub fn milestone_options(milestones: &Vec<Milestone>) -> (r: Result<Choices, InteractError>)
    ensures
        match r {
            Ok(c) => milestones@.len() > 0 && c.wf() && c.names() == milestone_titles(milestones@),
            Err(InteractError::Options { description }) => milestones@.len() == 0
                && description@ == "Select requires at least 1 option."@,
        },
{
    if milestones.len() == 0 {
        return Err(
            InteractError::Options { description: "Select requires at least 1 option.".to_owned() },
        );
    }
    let mut titles: Vec<String> = Vec::new();
    let mut i: usize = 0;
    while i < milestones.len()
        invariant
            i <= milestones@.len(),
            titles@.len() == i,
            forall|j: int| 0 <= j < i ==> #[trigger] titles@[j]@ == milestones@[j].title@,
        decreases milestones@.len() - i,
    {
        titles.push(milestones[i].title.clone());
        i = i + 1;
    }
    assert(titles@.map_values(|n: String| n@) =~= milestone_titles(milestones@));
    Ok(Choices::from_names(&titles))
}

/// Whether a closed issue may count for the sprint of milestone `milestone_id`:
/// it is in that milestone, or in none.
pub open spec fn may_count(issue: Issue, milestone_id: u32) -> bool {
    issue.milestone is None || issue.milestone->0.id == milestone_id
}

/// The issues of `s` that may count for the sprint, in order.
pub open spec fn candidates(s: Seq<Issue>, milestone_id: u32) -> Seq<Issue>
    decreases s.len(),
{
    if s.len() == 0 {
        Seq::empty()
    } else {
        let rest = candidates(s.drop_last(), milestone_id);
        if may_count(s.last(), milestone_id) {
            rest.push(s.last())
        } else {
            rest
        }
    }
}

/// The issues to review when finishing a sprint: those closed since it
/// started, then those closed in its milestone, leaving out each that is in
/// another milestone.
pub fn review_candidates(
    closed_since_start: Vec<Issue>,
    closed_in_milestone: Vec<Issue>,
    milestone: &Milestone,
) -> (r: Vec<Issue>)
    ensures
        r@ == candidates(closed_since_start@ + closed_in_milestone@, milestone.id),
{
    let mut all = closed_since_start;
    let mut second = closed_in_milestone;
    all.append(&mut second);
    let ghost original = all@;
    let mut kept: Vec<Issue> = Vec::new();
    let ghost mut k: int = 0;
    while all.len() > 0
        invariant
            0 <= k <= original.len(),
            all@ == original.skip(k),
            kept@ == candidates(original.take(k), milestone.id),
        decreases all@.len(),
    {
        let issue = all.remove(0);
        proof {
            assert(original.take(k + 1).drop_last() =~= original.take(k));
            assert(original.take(k + 1).last() == issue);
        }
        let counts = match &issue.milestone {
            None => true,
            Some(m) => m.id == milestone.id,
        };
        if counts {
            kept.push(issue);
        }
        proof {
            k = k + 1;
            assert(all@ =~= original.skip(k));
        }
    }
    assert(original.take(k) =~= original);
    kept
}

/// What reviewing a closed issue asks of the operator next.
#[derive(Clone, Copy, Debug, PartialEq, Eq, Structural)]
pub enum ReviewStep {
    /// Leave the issue out of the review.
    Skip,
    /// Ask whether to put the issue in the sprint's milestone.
    ConfirmMilestone,
    /// Ask for the issue's estimate.
    SelectEstimate,
    /// Nothing more to ask.
    Done,
}

/// The next step of reviewing a closed issue, given what the overlay knows of
/// it and the operator's answer to putting it in the milestone, once given.
/// Epics are left out; an issue with no milestone is put in it only if the
/// operator agrees, and left out otherwise; then an issue with no estimate
/// gets one.
pub open spec fn review_step(issue: Issue, overlay: zenhub::Issue, answer: Option<bool>) -> ReviewStep {
    if overlay.is_epic {
        ReviewStep::Skip
    } else if issue.milestone is None && answer is None {
        ReviewStep::ConfirmMilestone
    } else if issue.milestone is None && answer == Some(false) {
        ReviewStep::Skip
    } else if overlay.estimate is None {
        ReviewStep::SelectEstimate
    } else {
        ReviewStep::Done
    }
}

/// Decides the next step of reviewing a closed issue.
pub fn review_next(issue: &Issue, overlay: &zenhub::Issue, answer: Option<bool>) -> (r: ReviewStep)
    ensures
        r == review_step(*issue, *overlay, answer),
{
    if overlay.is_epic {
        ReviewStep::Skip
    } else if issue.milestone.is_none() && answer.is_none() {
        ReviewStep::ConfirmMilestone
    } else if issue.milestone.is_none() && answer == Some(false) {
        ReviewStep::Skip
    } else if overlay.estimate.is_none() {
        ReviewStep::SelectEstimate
    } else {
        ReviewStep::Done
    }
}

/// The points that an issue counts for: its estimate, none if it has none,
/// and none for an epic whatever its estimate.
pub open spec fn issue_points(overlay: zenhub::Issue) -> int {
    if overlay.is_epic {
        0
    } else {
        match overlay.estimate {
            Some(e) => e.value as int,
            None => 0,
        }
    }
}

/// The points of the first `n` issues; of the open ones only, if `open_only`.
pub open spec fn points_sum(
    issues: Seq<Issue>,
    overlays: Seq<zenhub::Issue>,
    n: int,
    open_only: bool,
) -> int
    decreases n,
{
    if n <= 0 {
        0
    } else {
        points_sum(issues, overlays, n - 1, open_only) + if !open_only || issues[n - 1].state
            == State::Open {
            issue_points(overlays[n - 1])
        } else {
            0
        }
    }
}

proof fn lemma_points_sum_monotone(
    issues: Seq<Issue>,
    overlays: Seq<zenhub::Issue>,
    m: int,
    n: int,
    open_only: bool,
)
    requires
        0 <= m <= n,
    ensures
        points_sum(issues, overlays, m, open_only) <= points_sum(issues, overlays, n, open_only),
        points_sum(issues, overlays, n, true) <= points_sum(issues, overlays, n, false),
    decreases n,
{
    if n > 0 {
        if m < n {
            lemma_points_sum_monotone(issues, overlays, m, n - 1, open_only);
        }
        lemma_points_sum_monotone(issues, overlays, n - 1, n - 1, open_only);
        if overlays[n - 1].estimate is Some {
            assert(issue_points(overlays[n - 1]) >= 0);
        }
    }
}

/// The points in a milestone: of all its issues, and of those still open,
/// with the overlay's view of each issue at the same index. `None` if the
/// points of all the issues do not fit in a `u32`.
pub fn milestone_points(issues: &Vec<Issue>, overlays: &Vec<zenhub::Issue>) -> (r: Option<
    (u32, u32),
>)
    requires
        issues@.len() == overlays@.len(),
    ensures
        match r {
            Some((all, open)) => all == points_sum(issues@, overlays@, issues@.len() as int, false)
                && open == points_sum(issues@, overlays@, issues@.len() as int, true),
            None => points_sum(issues@, overlays@, issues@.len() as int, false) > u32::MAX,
        },
{
    let mut all: u32 = 0;
    let mut open: u32 = 0;
    let mut i: usize = 0;
    while i < issues.len()
        invariant
            i <= issues@.len(),
            issues@.len() == overlays@.len(),
            all == points_sum(issues@, overlays@, i as int, false),
            open == points_sum(issues@, overlays@, i as int, true),
        decreases issues@.len() - i,
    {
        let o = &overlays[i];
        let points: u32 = if o.is_epic {
            0
        } else {
            match &o.estimate {
                Some(e) => e.value,
                None => 0,
            }
        };
        proof {
            lemma_points_sum_monotone(issues@, overlays@, i + 1, i + 1, false);
        }
        match all.checked_add(points) {
            Some(a) => {
                all = a;
            },
            None => {
                proof {
                    lemma_points_sum_monotone(
                        issues@,
                        overlays@,
                        i + 1,
                        issues@.len() as int,
                        false,
                    );
                }
                return None;
            },
        }
        if issues[i].state == State::Open {
            open = open + points;
        }
        i = i + 1;
    }
    Some((all, open))
}

/// An epic is left out of the review and adds nothing to the milestone's
/// points, whatever its estimate: giving the epic at index `k` any other
/// estimate changes neither.
pub proof fn lemma_epics_never_count(
    issues: Seq<Issue>,
    overlays: Seq<zenhub::Issue>,
    k: int,
    estimate: Option<zenhub::Estimate>,
    answer: Option<bool>,
    n: int,
    open_only: bool,
)
    requires
        0 <= k < overlays.len(),
        k < issues.len(),
        n <= overlays.len(),
        overlays[k].is_epic,
    ensures
        review_step(issues[k], overlays[k], answer) == ReviewStep::Skip,
        issue_points(overlays[k]) == 0,
        points_sum(
            issues,
            overlays.update(k, zenhub::Issue { estimate, is_epic: true }),
            n,
            open_only,
        ) == points_sum(issues, overlays, n, open_only),
    decreases n,
{
    if n > 0 {
        lemma_epics_never_count(issues, overlays, k, estimate, answer, n - 1, open_only);
        let changed = overlays.update(k, zenhub::Issue { estimate, is_epic: true });
        assert(issue_points(changed[n - 1]) == issue_points(overlays[n - 1]));
    }
}

/// What the operator typed when asked for the planned points.
#[derive(Clone, Copy, Debug, PartialEq, Eq, Structural)]
pub enum PlannedInput {
    Quit,
    Points(u32),
    Invalid,
}

/// What a line typed at the planned-points prompt means: `q` quits, a
/// decimal number is the points planned.
pub open spec fn planned_input(s: Seq<char>) -> PlannedInput {
    if s == seq!['q'] {
        PlannedInput::Quit
    } else {
        match parsed_u32(s) {
            Some(n) => PlannedInput::Points(n),
            None => PlannedInput::Invalid,
        }
    }
}

/// Reads a line typed at the planned-points prompt.
pub fn read_planned_input(s: &str) -> (r: PlannedInput)
    ensures
        r == planned_input(s@),
{
    if s.unicode_len() == 1 && s.get_char(0) == 'q' {
        assert(s@ =~= seq!['q']);
        return PlannedInput::Quit;
    }
    match parse_u32(s) {
        Some(n) => PlannedInput::Points(n),
        None => PlannedInput::Invalid,
    }
}

/// The error for a planned-points line that is no number.
pub fn invalid_planned_points(s: &str) -> (r: Error)
    ensures
        r matches Error::User { description } && description@ == "Invalid number of planned points "@
            + s@ + "."@,
{
    let mut d = "Invalid number of planned points ".to_owned();
    d.append(s);
    d.append(".");
    Error::User { description: d }
}

/// The report of a finished sprint.
pub open spec fn report_text(title: Seq<char>, p: SprintPoints) -> Seq<char> {
    "*"@ + title + "* Report\n---\nWe completed *"@ + decimal(p.done_in_sprint as nat)
        + "* planned points out of *"@ + decimal(p.planned as nat) + "* ("@ + decimal(
        p.in_milestone_open as nat,
    ) + " remaining).\nWe also did "@ + decimal(p.done_out_of_sprint as nat)
        + " out of sprint points.\nIn total, we finished *"@ + decimal(p.done_total as nat)
        + " points* of work."@
}

/// Writes the report of a finished sprint.
pub fn sprint_report(title: &str, points: &SprintPoints) -> (r: String)
    requires
        points.wf(),
    ensures
        r@ == report_text(title@, *points),
{
    let mut s = "*".to_owned();
    s.append(title);
    s.append("* Report\n---\nWe completed *");
    s.append(to_decimal(points.done_in_sprint).as_str());
    s.append("* planned points out of *");
    s.append(to_decimal(points.planned).as_str());
    s.append("* (");
    s.append(to_decimal(points.remaining()).as_str());
    s.append(" remaining).\nWe also did ");
    s.append(to_decimal(points.done_out_of_sprint).as_str());
    s.append(" out of sprint points.\nIn total, we finished *");
    s.append(to_decimal(points.done_total).as_str());
    s.append(" points* of work.");
    s
}

/// Where closing a sprint stands.
#[derive(Clone, Copy, Debug, PartialEq, Eq, Structural)]
pub enum CloseStage {
    /// Waiting for the operator to confirm the close.
    Confirming,
    /// Waiting for the milestone's new title to be set.
    Renaming,
    /// Waiting for the milestone to be closed.
    Closing,
    /// Waiting for an open issue to leave the milestone.
    Unassigning,
    /// Finished, whether closed or not.
    Done,
}

/// What came of the last closing action.
#[derive(Clone, Copy, Debug, PartialEq, Eq, Structural)]
pub enum CloseEvent {
    /// The operator's answer to closing the sprint.
    Answer(bool),
    /// The change asked for was made.
    Completed,
}

/// What the caller does next to close a sprint.
#[derive(Clone, Copy, Debug, PartialEq, Eq, Structural)]
pub enum CloseAction {
    /// Give the milestone the closer's `title`.
    Rename { milestone_number: u32 },
    /// Close the milestone.
    Close { milestone_number: u32 },
    /// Take the issue out of the milestone.
    ClearMilestone { issue_number: u32 },
    /// Nothing more to do.
    Finished,
}

/// Closes a sprint: once the operator confirms, the milestone is renamed to
/// record its points, closed, and each issue still open in it leaves it. A
/// "no" changes nothing.
pub struct SprintCloser {
    pub milestone_number: u32,
    /// The title that records the sprint's points.
    pub title: String,
    /// The numbers of the issues still open in the milestone, in order.
    pub open_issues: Vec<u32>,
    pub stage: CloseStage,
    /// How many open issues have been taken out of the milestone.
    pub cleared: usize,
}

/// The numbers of the issues, in order.
pub open spec fn issue_numbers(issues: Seq<Issue>) -> Seq<u32> {
    issues.map_values(|i: Issue| i.number)
}

/// The action that takes out the next open issue, or finishes.
pub open spec fn clear_next(open: Seq<u32>, cleared: int) -> (CloseStage, int, CloseAction) {
    if cleared < open.len() {
        (
            CloseStage::Unassigning,
            cleared + 1,
            CloseAction::ClearMilestone { issue_number: open[cleared] },
        )
    } else {
        (CloseStage::Done, cleared, CloseAction::Finished)
    }
}

/// One step of closing: the next stage, how many issues are then cleared,
/// and the action to take.
pub open spec fn close_next(
    milestone_number: u32,
    open: Seq<u32>,
    stage: CloseStage,
    cleared: int,
    event: CloseEvent,
) -> (CloseStage, int, CloseAction) {
    match (stage, event) {
        (CloseStage::Confirming, CloseEvent::Answer(true)) => (
            CloseStage::Renaming,
            cleared,
            CloseAction::Rename { milestone_number },
        ),
        (CloseStage::Renaming, CloseEvent::Completed) => (
            CloseStage::Closing,
            cleared,
            CloseAction::Close { milestone_number },
        ),
        (CloseStage::Closing, CloseEvent::Completed) => clear_next(open, cleared),
        (CloseStage::Unassigning, CloseEvent::Completed) => clear_next(open, cleared),
        _ => (CloseStage::Done, cleared, CloseAction::Finished),
    }
}

/// The actions of closing, one per event of `events`, from `stage` with
/// `cleared` issues out of the milestone.
pub open spec fn close_run(
    milestone_number: u32,
    open: Seq<u32>,
    stage: CloseStage,
    cleared: int,
    events: Seq<CloseEvent>,
) -> Seq<CloseAction>
    decreases events.len(),
{
    if events.len() == 0 {
        Seq::empty()
    } else {
        let (s, c, a) = close_next(milestone_number, open, stage, cleared, events[0]);
        seq![a] + close_run(milestone_number, open, s, c, events.drop_first())
    }
}

/// Whether an action changes anything on the tracker.
pub open spec fn is_change(a: CloseAction) -> bool {
    a is Rename || a is Close || a is ClearMilestone
}

impl SprintCloser {
    pub open spec fn wf(&self) -> bool {
        self.cleared <= self.open_issues@.len()
    }

    /// Prepares to close the sprint of `milestone` with `points`, with the
    /// issues still open in it; the caller first asks the operator.
    pub fn new(milestone: &Milestone, points: &SprintPoints, open_issues: &Vec<Issue>) -> (r:
        SprintCloser)
        ensures
            r.wf(),
            r.milestone_number == milestone.number,
            r.title@ == closed_title(milestone.title@, *points),
            r.open_issues@ == issue_numbers(open_issues@),
            r.stage == CloseStage::Confirming,
            r.cleared == 0,
    {
        let mut numbers: Vec<u32> = Vec::new();
        let mut i: usize = 0;
        while i < open_issues.len()
            invariant
                i <= open_issues@.len(),
                numbers@ == issue_numbers(open_issues@).take(i as int),
            decreases open_issues@.len() - i,
        {
            numbers.push(open_issues[i].number);
            i = i + 1;
            assert(numbers@ =~= issue_numbers(open_issues@).take(i as int));
        }
        assert(numbers@ =~= issue_numbers(open_issues@));
        SprintCloser {
            milestone_number: milestone.number,
            title: closed_milestone_title(milestone.title.as_str(), points),
            open_issues: numbers,
            stage: CloseStage::Confirming,
            cleared: 0,
        }
    }

    fn clear_next_issue(&mut self) -> (r: CloseAction)
        requires
            old(self).wf(),
        ensures
            (final(self).stage, final(self).cleared as int, r) == clear_next(
                old(self).open_issues@,
                old(self).cleared as int,
            ),
            final(self).milestone_number == old(self).milestone_number,
            final(self).title == old(self).title,
            final(self).open_issues == old(self).open_issues,
            final(self).wf(),
    {
        if self.cleared < self.open_issues.len() {
            let n = self.open_issues[self.cleared];
            self.stage = CloseStage::Unassigning;
            self.cleared = self.cleared + 1;
            CloseAction::ClearMilestone { issue_number: n }
        } else {
            self.stage = CloseStage::Done;
            CloseAction::Finished
        }
    }

    /// Takes in what came of the last action and says what to do next.
    pub fn step(&mut self, event: CloseEvent) -> (r: CloseAction)
        requires
            old(self).wf(),
        ensures
            (final(self).stage, final(self).cleared as int, r) == close_next(
                old(self).milestone_number,
                old(self).open_issues@,
                old(self).stage,
                old(self).cleared as int,
                event,
            ),
            final(self).milestone_number == old(self).milestone_number,
            final(self).title == old(self).title,
            final(self).open_issues == old(self).open_issues,
            final(self).wf(),
    {
        match (self.stage, event) {
            (CloseStage::Confirming, CloseEvent::Answer(true)) => {
                self.stage = CloseStage::Renaming;
                CloseAction::Rename { milestone_number: self.milestone_number }
            },
            (CloseStage::Renaming, CloseEvent::Completed) => {
                self.stage = CloseStage::Closing;
                CloseAction::Close { milestone_number: self.milestone_number }
            },
            (CloseStage::Closing, CloseEvent::Completed) => self.clear_next_issue(),
            (CloseStage::Unassigning, CloseEvent::Completed) => self.clear_next_issue(),
            _ => {
                self.stage = CloseStage::Done;
                CloseAction::Finished
            },
        }
    }
}

/// Declining to close changes nothing: after a "no", whatever events come,
/// no action renames, closes or takes an issue out of the milestone.
pub proof fn lemma_declined_close_changes_nothing(
    milestone_number: u32,
    open: Seq<u32>,
    events: Seq<CloseEvent>,
)
    requires
        events.len() > 0,
        events[0] == CloseEvent::Answer(false),
    ensures
        forall|i: int|
            0 <= i < events.len() ==> !is_change(
                #[trigger] close_run(milestone_number, open, CloseStage::Confirming, 0, events)[i],
            ),
{
    lemma_done_changes_nothing(milestone_number, open, 0, events.drop_first());
    let run = close_run(milestone_number, open, CloseStage::Confirming, 0, events);
    assert(run == seq![CloseAction::Finished] + close_run(
        milestone_number,
        open,
        CloseStage::Done,
        0,
        events.drop_first(),
    ));
}

proof fn lemma_done_changes_nothing(
    milestone_number: u32,
    open: Seq<u32>,
    cleared: int,
    events: Seq<CloseEvent>,
)
    ensures
        close_run(milestone_number, open, CloseStage::Done, cleared, events) =~= Seq::new(
            events.len(),
            |_i: int| CloseAction::Finished,
        ),
    decreases events.len(),
{
    if events.len() > 0 {
        lemma_done_changes_nothing(milestone_number, open, cleared, events.drop_first());
    }
}

/// Once the milestone is closed, each completion takes out the next open
/// issue, in order, and the one after the last finishes.
proof fn lemma_clearing(milestone_number: u32, open: Seq<u32>, stage: CloseStage, cleared: int)
    requires
        stage == CloseStage::Closing || stage == CloseStage::Unassigning,
        0 <= cleared <= open.len(),
    ensures
        close_run(
            milestone_number,
            open,
            stage,
            cleared,
            Seq::new((open.len() - cleared + 1) as nat, |_i: int| CloseEvent::Completed),
        ) =~= Seq::new(
            (open.len() - cleared) as nat,
            |i: int| CloseAction::ClearMilestone { issue_number: open[cleared + i] },
        ).push(CloseAction::Finished),
    decreases open.len() - cleared,
{
    let m = open.len() - cleared;
    let events = Seq::new((m + 1) as nat, |_i: int| CloseEvent::Completed);
    let rest = Seq::new(m as nat, |_i: int| CloseEvent::Completed);
    assert(events.drop_first() =~= rest);
    if cleared < open.len() {
        lemma_clearing(milestone_number, open, CloseStage::Unassigning, cleared + 1);
        assert(close_run(milestone_number, open, stage, cleared, events) == seq![
            CloseAction::ClearMilestone { issue_number: open[cleared] },
        ] + close_run(milestone_number, open, CloseStage::Unassigning, cleared + 1, rest));
    } else {
        assert(rest =~= Seq::<CloseEvent>::empty());
        assert(close_run(milestone_number, open, CloseStage::Done, cleared, rest) =~= Seq::<
            CloseAction,
        >::empty());
    }
}

/// Confirming the close renames the milestone, closes it, takes each issue
/// still open in it out of it, in order, and then finishes.
pub proof fn lemma_confirmed_close(milestone_number: u32, open: Seq<u32>)
    ensures
        close_run(
            milestone_number,
            open,
            CloseStage::Confirming,
            0,
            seq![CloseEvent::Answer(true)] + Seq::new(open.len() + 2, |_i: int| CloseEvent::Completed),
        ) =~= seq![
            CloseAction::Rename { milestone_number },
            CloseAction::Close { milestone_number },
        ] + Seq::new(open.len(), |i: int| CloseAction::ClearMilestone { issue_number: open[i] }).push(
            CloseAction::Finished,
        ),
{
    let n = open.len();
    let after_answer = Seq::new(n + 2, |_i: int| CloseEvent::Completed);
    let after_rename = Seq::new(n + 1, |_i: int| CloseEvent::Completed);
    let events = seq![CloseEvent::Answer(true)] + after_answer;
    assert(events.drop_first() =~= after_answer);
    assert(after_answer.drop_first() =~= after_rename);
    lemma_clearing(milestone_number, open, CloseStage::Closing, 0);
    let clears = Seq::new(n, |i: int| CloseAction::ClearMilestone { issue_number: open[i] });
    assert(Seq::new(
        n,
        |i: int| CloseAction::ClearMilestone { issue_number: open[0 + i] },
    ) =~= clears);
    assert(after_rename =~= Seq::new((n - 0 + 1) as nat, |_i: int| CloseEvent::Completed));
    let closing = close_run(milestone_number, open, CloseStage::Closing, 0, after_rename);
    assert(closing =~= clears.push(CloseAction::Finished));
    let renaming = close_run(milestone_number, open, CloseStage::Renaming, 0, after_answer);
    assert(renaming == seq![CloseAction::Close { milestone_number }] + closing);
    assert(close_run(milestone_number, open, CloseStage::Confirming, 0, events) == seq![
        CloseAction::Rename { milestone_number },
    ] + renaming);
}

} // verus!
