use decadog::date::{Date, DateTime};
use decadog::error::Error;
use decadog::finish::{
    invalid_planned_points, milestone_options, milestone_points, read_planned_input,
    review_candidates, review_next, sprint_report, CloseAction, CloseEvent, CloseStage,
    InteractError, PlannedInput, ReviewStep, SprintCloser,
};
use decadog::github::{Issue, Milestone, State};
use decadog::points::SprintPoints;
use decadog::zenhub::{self, Estimate};

fn day() -> DateTime {
    DateTime {
        date: Date { year: 2021, month: 6, day: 1 },
        hour: 12,
        minute: 0,
        second: 0,
        offset_seconds: 0,
    }
}

fn ms(id: u32, title: &str) -> Milestone {
    Milestone { id, number: id, title: title.to_owned(), state: State::Open, due_on: day() }
}

fn closed_issue(number: u32, state: State, milestone: Option<Milestone>) -> Issue {
    Issue {
        id: number,
        number,
        state,
        title: format!("#{}", number),
        milestone,
        assignees: vec![],
        labels: vec![],
        created_at: day(),
        updated_at: day(),
        closed_at: None,
        html_url: String::new(),
    }
}

fn overlay(estimate: Option<u32>, is_epic: bool) -> zenhub::Issue {
    zenhub::Issue { estimate: estimate.map(|value| Estimate { value }), is_epic }
}

#[test]
fn finish_no_milestones_offers_nothing() {
    match milestone_options(&vec![]) {
        Err(InteractError::Options { description }) => {
            assert_eq!(description, "Select requires at least 1 option.")
        }
        Ok(_) => panic!("expected no options"),
    }
    let choices = milestone_options(&vec![ms(2, "Sprint 2"), ms(1, "Sprint 1"), ms(3, "Sprint 2")])
        .ok()
        .unwrap();
    assert_eq!(choices.names_to_offer(), vec!["Sprint 2".to_owned(), "Sprint 1".to_owned()]);
    assert_eq!(choices.get("Sprint 2"), Some(2));
    assert_eq!(choices.get("Sprint 1"), Some(1));
    assert_eq!(choices.get("Sprint 9"), None);
}

#[test]
fn finish_review_candidates_drop_other_milestones() {
    let target = ms(5, "Sprint 5");
    let since = vec![
        closed_issue(1, State::Closed, None),
        closed_issue(2, State::Closed, Some(ms(4, "Sprint 4"))),
        closed_issue(3, State::Closed, Some(ms(5, "Sprint 5"))),
    ];
    let in_milestone = vec![closed_issue(4, State::Closed, Some(ms(5, "Sprint 5")))];
    let r = review_candidates(since, in_milestone, &target);
    let numbers: Vec<u32> = r.iter().map(|i| i.number).collect();
    assert_eq!(numbers, vec![1, 3, 4]);
}

#[test]
fn finish_epics_are_skipped_in_review() {
    let issue = closed_issue(1, State::Closed, None);
    assert_eq!(review_next(&issue, &overlay(None, true), None), ReviewStep::Skip);
    assert_eq!(review_next(&issue, &overlay(Some(8), true), Some(true)), ReviewStep::Skip);
}

#[test]
fn finish_review_steps() {
    let loose = closed_issue(1, State::Closed, None);
    let placed = closed_issue(2, State::Closed, Some(ms(5, "Sprint 5")));
    assert_eq!(review_next(&loose, &overlay(None, false), None), ReviewStep::ConfirmMilestone);
    assert_eq!(review_next(&loose, &overlay(None, false), Some(false)), ReviewStep::Skip);
    assert_eq!(review_next(&loose, &overlay(None, false), Some(true)), ReviewStep::SelectEstimate);
    assert_eq!(review_next(&loose, &overlay(Some(3), false), Some(true)), ReviewStep::Done);
    assert_eq!(review_next(&placed, &overlay(None, false), None), ReviewStep::SelectEstimate);
    assert_eq!(review_next(&placed, &overlay(Some(0), false), None), ReviewStep::Done);
}

#[test]
fn finish_points_exclude_epics() {
    let issues = vec![
        closed_issue(1, State::Closed, None),
        closed_issue(2, State::Open, None),
        closed_issue(3, State::Open, None),
        closed_issue(4, State::Closed, None),
        closed_issue(5, State::Open, None),
    ];
    let overlays = vec![
        overlay(Some(5), false),
        overlay(Some(3), false),
        overlay(Some(13), true),
        overlay(None, false),
        overlay(Some(2), false),
    ];
    assert_eq!(milestone_points(&issues, &overlays), Some((10, 5)));
    assert_eq!(milestone_points(&vec![], &vec![]), Some((0, 0)));
}

#[test]
fn finish_points_overflow() {
    let issues = vec![closed_issue(1, State::Closed, None), closed_issue(2, State::Open, None)];
    let overlays = vec![overlay(Some(u32::MAX), false), overlay(Some(1), false)];
    assert_eq!(milestone_points(&issues, &overlays), None);
    let fits = vec![overlay(Some(u32::MAX - 1), false), overlay(Some(1), false)];
    assert_eq!(milestone_points(&issues, &fits), Some((u32::MAX, 1)));
}

#[test]
fn finish_planned_input() {
    assert_eq!(read_planned_input("q"), PlannedInput::Quit);
    assert_eq!(read_planned_input("21"), PlannedInput::Points(21));
    assert_eq!(read_planned_input("n"), PlannedInput::Invalid);
    match invalid_planned_points("lots") {
        Error::User { description } => {
            assert_eq!(description, "Invalid number of planned points lots.")
        }
        _ => panic!("expected a user error"),
    }
}

#[test]
fn finish_report_text() {
    let p = SprintPoints::new(20, 30, 5).ok().unwrap();
    assert_eq!(
        sprint_report("Sprint 9", &p),
        "*Sprint 9* Report\n---\nWe completed *15* planned points out of *20* (5 remaining).\nWe also did 10 out of sprint points.\nIn total, we finished *25 points* of work."
    );
}

#[test]
fn finish_close_confirmed() {
    use_closer(true);
}

#[test]
fn finish_close_declined_changes_nothing() {
    use_closer(false);
}

fn use_closer(confirmed: bool) {
    let p = SprintPoints::new(20, 30, 5).ok().unwrap();
    let open = vec![closed_issue(11, State::Open, None), closed_issue(12, State::Open, None)];
    let mut closer = SprintCloser::new(&ms(7, "Sprint 7"), &p, &open);
    assert_eq!(closer.title, "Sprint 7 [15/20 + 10]");
    assert_eq!(closer.open_issues, vec![11, 12]);
    assert_eq!(closer.stage, CloseStage::Confirming);
    if !confirmed {
        assert_eq!(closer.step(CloseEvent::Answer(false)), CloseAction::Finished);
        assert_eq!(closer.step(CloseEvent::Completed), CloseAction::Finished);
        assert_eq!(closer.stage, CloseStage::Done);
        return;
    }
    assert_eq!(closer.step(CloseEvent::Answer(true)), CloseAction::Rename { milestone_number: 7 });
    assert_eq!(closer.step(CloseEvent::Completed), CloseAction::Close { milestone_number: 7 });
    assert_eq!(closer.step(CloseEvent::Completed), CloseAction::ClearMilestone { issue_number: 11 });
    assert_eq!(closer.step(CloseEvent::Completed), CloseAction::ClearMilestone { issue_number: 12 });
    assert_eq!(closer.step(CloseEvent::Completed), CloseAction::Finished);
    assert_eq!(closer.stage, CloseStage::Done);
}

#[test]
fn finish_close_with_no_open_issues() {
    let p = SprintPoints::new(3, 3, 0).ok().unwrap();
    let mut closer = SprintCloser::new(&ms(1, "S"), &p, &vec![]);
    assert_eq!(closer.step(CloseEvent::Answer(true)), CloseAction::Rename { milestone_number: 1 });
    assert_eq!(closer.step(CloseEvent::Completed), CloseAction::Close { milestone_number: 1 });
    assert_eq!(closer.step(CloseEvent::Completed), CloseAction::Finished);
}
