use decadog::create::new_sprint;
use decadog::date::{Date, DateTime};
use decadog::error::{response_class, unexpected_status, Error, ResponseClass};
use decadog::github::{GetMilestones, Direction, IssueUpdate, MilestoneUpdate, State};
use decadog::secret::Secret;
use decadog::settings::{Command, Settings};
use decadog::zenhub::{estimate_choices, first_workspace, PipelinePosition, SetEstimate, Workspace};

fn settings(url: Option<&str>, token: Option<&str>) -> Settings {
    Settings {
        version: None,
        owner: "ow".to_owned(),
        repo: "re".to_owned(),
        github_url: "https://api.github.com/".to_owned(),
        github_token: Secret::new("github_token".to_owned()),
        zenhub_url: url.map(|u| u.to_owned()),
        zenhub_token: token.map(|t| Secret::new(t.to_owned())),
    }
}

fn settings_description(e: Error) -> String {
    match e {
        Error::Settings { description } => description,
        _ => panic!("expected a settings error"),
    }
}

#[test]
fn settings_overlay_access() {
    let s = settings(Some("https://api.zenhub.io/"), Some("zen"));
    let (url, token) = s.overlay_access(Command::Sync).ok().unwrap();
    assert_eq!(url, "https://api.zenhub.io/");
    assert_eq!(token, "zen");
}

#[test]
fn settings_missing_overlay() {
    let e = settings(None, Some("zen")).overlay_access(Command::Sync).err().unwrap();
    assert_eq!(settings_description(e), "Zenhub url required to sync sprint.");
    let e = settings(None, None).overlay_access(Command::Create).err().unwrap();
    assert_eq!(settings_description(e), "Zenhub url required to create sprint.");
    let e = settings(Some("u"), None).overlay_access(Command::Finish).err().unwrap();
    assert_eq!(settings_description(e), "Zenhub token required to finish sprint.");
}

#[test]
fn create_sprint_plan_two_weeks() {
    let plan = new_sprint("7", Date { year: 2022, month: 2, day: 20 }).unwrap();
    assert_eq!(plan.title, "Sprint 7");
    assert_eq!(plan.start_date.date, Date { year: 2022, month: 2, day: 20 });
    assert_eq!(plan.start_date.hour, 12);
    assert_eq!(plan.due_on.date, Date { year: 2022, month: 3, day: 5 });
    assert_eq!(plan.due_on.hour, 12);
    let year_end = new_sprint("8", Date { year: 2019, month: 12, day: 25 }).unwrap();
    assert_eq!(year_end.due_on.date, Date { year: 2020, month: 1, day: 7 });
}

#[test]
fn update_bodies() {
    let u = IssueUpdate::assign_milestone(Some(3));
    assert_eq!(u.milestone, Some(Some(3)));
    assert!(u.assignees.is_none());
    let clear = IssueUpdate::assign_milestone(None);
    assert_eq!(clear.milestone, Some(None));
    let m = IssueUpdate::assign_member("alice");
    assert_eq!(m.assignees, Some(vec!["alice".to_owned()]));
    assert!(m.milestone.is_none());
    assert_eq!(MilestoneUpdate::close().state, Some(State::Closed));
    assert_eq!(MilestoneUpdate::rename("T".to_owned()).title, Some("T".to_owned()));
    assert_eq!(GetMilestones::descending().direction, Some(Direction::Descending));
    assert_eq!(SetEstimate::from_value(5).estimate, 5);
    let top = PipelinePosition::top("p1");
    assert_eq!(top.pipeline_id, "p1");
    assert_eq!(top.position, "top");
}

#[test]
fn estimate_choices_are_fibonacci_like() {
    let values: Vec<u32> = estimate_choices().iter().map(|e| e.value).collect();
    assert_eq!(values, vec![0, 1, 2, 3, 5, 8, 13]);
}

#[test]
fn settings_base_url() {
    let u = decadog::settings::base_url("https://api.github.com/", "Github").ok().unwrap();
    assert_eq!(u.as_str(), "https://api.github.com/");
    match decadog::settings::base_url("no scheme", "Zenhub") {
        Err(Error::Config { description }) => {
            assert_eq!(description, "Invalid Zenhub base url no scheme")
        }
        _ => panic!("expected a config error"),
    }
}

#[test]
fn response_classes() {
    assert_eq!(response_class(200), ResponseClass::Success);
    assert_eq!(response_class(204), ResponseClass::Success);
    assert_eq!(response_class(299), ResponseClass::Success);
    assert_eq!(response_class(300), ResponseClass::Unexpected);
    assert_eq!(response_class(404), ResponseClass::ClientError);
    assert_eq!(response_class(422), ResponseClass::ClientError);
    assert_eq!(response_class(500), ResponseClass::Unexpected);
    assert_eq!(response_class(199), ResponseClass::Unexpected);
    match unexpected_status(502) {
        Error::Api { description, status } => {
            assert_eq!(status, 502);
            assert_eq!(description, "Unexpected response status code.");
        }
        _ => panic!("expected an api error"),
    }
}

#[test]
fn first_workspace_or_error() {
    let ws = |id: &str| Workspace {
        name: None,
        description: None,
        id: id.to_owned(),
        repositories: vec![1],
    };
    assert_eq!(first_workspace(vec![ws("a"), ws("b")]).ok().unwrap().id, "a");
    match first_workspace(vec![]) {
        Err(Error::Unknown { description }) => {
            assert_eq!(description, "No Zenhub workspace found for repository.")
        }
        _ => panic!("expected an error"),
    }
}

#[test]
fn date_validity() {
    assert!(Date { year: 2020, month: 2, day: 29 }.is_valid());
    assert!(!Date { year: 2019, month: 2, day: 29 }.is_valid());
    assert!(!Date { year: 1900, month: 2, day: 29 }.is_valid());
    assert!(Date { year: 2000, month: 2, day: 29 }.is_valid());
    assert!(!Date { year: 2021, month: 4, day: 31 }.is_valid());
    assert!(!Date { year: 2021, month: 13, day: 1 }.is_valid());
    assert!(Date { year: 10000, month: 1, day: 1 }.is_valid());
    assert!(Date { year: -4, month: 2, day: 29 }.is_valid());
    assert!(!Date { year: -1, month: 2, day: 29 }.is_valid());
    let t = DateTime {
        date: Date { year: 2021, month: 1, day: 1 },
        hour: 23,
        minute: 59,
        second: 59,
        offset_seconds: -3600,
    };
    assert!(t.is_valid());
    assert!(!DateTime { hour: 24, ..t }.is_valid());
}
