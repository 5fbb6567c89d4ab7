use decadog::assign::AssignedTo;
use decadog::date::{Date, DateTime};
use decadog::github::{Issue, Milestone, OrganisationMember, State};
use decadog::zenhub::{Pipeline, PipelineIssue};

fn epoch() -> DateTime {
    DateTime {
        date: Date { year: 1970, month: 1, day: 1 },
        hour: 0,
        minute: 0,
        second: 0,
        offset_seconds: 0,
    }
}

fn blank_issue() -> Issue {
    Issue {
        id: 0,
        number: 0,
        state: State::Open,
        title: String::new(),
        milestone: None,
        assignees: vec![],
        labels: vec![],
        created_at: epoch(),
        updated_at: epoch(),
        closed_at: Some(epoch()),
        html_url: String::new(),
    }
}

fn blank_milestone() -> Milestone {
    Milestone { id: 0, number: 0, title: String::new(), state: State::Open, due_on: epoch() }
}

#[test]
fn core_issue_assigned_to_milestone() {
    let milestone = blank_milestone();
    let issue = blank_issue();
    let mut issue_with_milestone = issue.clone();
    issue_with_milestone.milestone = Some(milestone.clone());
    assert!(!issue.assigned_to(&milestone));
    assert!(issue_with_milestone.assigned_to(&milestone));
}

#[test]
fn core_member_assigned_to_issue() {
    let issue = blank_issue();
    let member = OrganisationMember { login: String::new(), id: 0 };
    let mut issue_with_assignee = issue.clone();
    issue_with_assignee.assignees = vec![member.clone()];
    assert!(!member.assigned_to(&issue));
    assert!(member.assigned_to(&issue_with_assignee));
}

#[test]
fn milestone_assignment_compares_ids() {
    let mut issue = blank_issue();
    let mut other = blank_milestone();
    other.id = 9;
    other.title = "Sprint 1".to_owned();
    issue.milestone = Some(other);
    let mut target = blank_milestone();
    target.id = 10;
    target.title = "Sprint 1".to_owned();
    assert!(!issue.assigned_to(&target));
    target.id = 9;
    target.title = "Renamed".to_owned();
    assert!(issue.assigned_to(&target));
}

#[test]
fn pipeline_assignment_by_issue_number() {
    let mut issue = blank_issue();
    issue.number = 12;
    let pipeline = Pipeline {
        id: "p1".to_owned(),
        name: "In Progress".to_owned(),
        issues: vec![
            PipelineIssue { issue_number: 3, estimate: None, is_epic: false },
            PipelineIssue { issue_number: 12, estimate: None, is_epic: true },
        ],
    };
    assert!(issue.assigned_to(&pipeline));
    issue.number = 4;
    assert!(!issue.assigned_to(&pipeline));
}

#[test]
fn member_assignment_by_login_not_id() {
    let mut issue = blank_issue();
    issue.assignees = vec![OrganisationMember { login: "alice".to_owned(), id: 1 }];
    assert!(OrganisationMember { login: "alice".to_owned(), id: 2 }.assigned_to(&issue));
    assert!(!OrganisationMember { login: "bob".to_owned(), id: 1 }.assigned_to(&issue));
}
