//! The issue tracker's resources, and the search queries sent to it.
use vstd::prelude::*;

use crate::date::{date_text, format_date, DateTime};

verus! {

/// Whether an issue or milestone is open.
#[derive(Clone, Copy, Debug, PartialEq, Eq, Structural)]
pub enum State {
    Open,
    Closed,
}

/// A search filter for state.
#[derive(Clone, Copy, Debug, PartialEq, Eq, Structural)]
pub enum SearchState {
    Open,
    Closed,
    All,
}

/// Direction in which to return results.
#[derive(Clone, Copy, Debug, PartialEq, Eq, Structural)]
pub enum Direction {
    Ascending,
    Descending,
}

/// Detail of a single client error.
#[derive(Clone, Debug, PartialEq)]
pub struct GithubClientErrorDetail {
    pub resource: String,
    pub field: String,
    pub code: String,
}

/// Returned from the API when one or more client errors have been made.
#[derive(Clone, Debug, PartialEq)]
pub struct GithubClientErrorBody {
    pub message: String,
    pub errors: Option<Vec<GithubClientErrorDetail>>,
    pub documentation_url: Option<String>,
}

/// A milestone, which stands for a sprint.
#[derive(Clone, Debug, PartialEq)]
pub struct Milestone {
    pub id: u32,
    pub number: u32,
    pub title: String,
    pub state: State,
    pub due_on: DateTime,
}

/// A member of the organisation that owns the repository.
#[derive(Clone, Debug, PartialEq)]
pub struct OrganisationMember {
    pub login: String,
    pub id: u32,
}

/// A user of the tracker.
#[derive(Clone, Debug, PartialEq)]
pub struct User {
    pub login: String,
    pub id: u32,
    pub name: String,
}

/// A label on an issue.
#[derive(Clone, Debug, PartialEq)]
pub struct Label {
    pub id: u32,
    pub name: String,
}

/// An issue, as fetched.
#[derive(Clone, Debug, PartialEq)]
pub struct Issue {
    pub id: u32,
    pub number: u32,
    pub state: State,
    pub title: String,
    pub milestone: Option<Milestone>,
    pub assignees: Vec<OrganisationMember>,
    pub labels: Vec<Label>,
    pub created_at: DateTime,
    pub updated_at: DateTime,
    pub closed_at: Option<DateTime>,
    pub html_url: String,
}

/// A repository.
#[derive(Clone, Debug, PartialEq)]
pub struct Repository {
    pub id: u64,
    pub name: String,
}

/// A change to an issue; a field left `None` is left as it is.
#[derive(Clone, Debug, PartialEq)]
pub struct IssueUpdate {
    /// `Some(None)` clears the milestone.
    pub milestone: Option<Option<u32>>,
    pub assignees: Option<Vec<String>>,
    pub state: Option<State>,
}

/// A change to a milestone; a field left `None` is left as it is.
#[derive(Clone, Debug, PartialEq)]
pub struct MilestoneUpdate {
    pub title: Option<String>,
    pub state: Option<State>,
    pub description: Option<String>,
    pub due_on: Option<DateTime>,
}

/// Request to search issues.
#[derive(Clone, Debug, PartialEq)]
pub struct SearchIssues {
    pub q: String,
    pub sort: Option<String>,
    /// Ignored unless `sort` is given.
    pub order: Option<Direction>,
    pub per_page: Option<u32>,
}

/// Request to list milestones.
#[derive(Clone, Debug, PartialEq)]
pub struct GetMilestones {
    pub state: Option<SearchState>,
    pub sort: Option<String>,
    pub direction: Option<Direction>,
}

impl IssueUpdate {
    /// An update that sets the milestone to `number`, or clears it, and
    /// changes nothing else.
    pub fn assign_milestone(number: Option<u32>) -> (r: IssueUpdate)
        ensures
            r.milestone == Some(number),
            r.assignees is None,
            r.state is None,
    {
        IssueUpdate { milestone: Some(number), assignees: None, state: None }
    }

    /// An update that makes `login` the one assignee, and changes nothing else.
    pub fn assign_member(login: &str) -> (r: IssueUpdate)
        ensures
            r.milestone is None,
            r.assignees is Some,
            r.assignees->0@.len() == 1,
            r.assignees->0@[0]@ == login@,
            r.state is None,
    {
        let mut assignees: Vec<String> = Vec::new();
        assignees.push(login.to_owned());
        IssueUpdate { milestone: None, assignees: Some(assignees), state: None }
    }
}

impl MilestoneUpdate {
    /// An update that renames a milestone and changes nothing else.
    pub fn rename(title: String) -> (r: MilestoneUpdate)
        ensures
            r.title == Some(title),
            r.state is None,
            r.description is None,
            r.due_on is None,
    {
        MilestoneUpdate { title: Some(title), state: None, description: None, due_on: None }
    }

    /// An update that closes a milestone and changes nothing else.
    pub fn close() -> (r: MilestoneUpdate)
        ensures
            r.title is None,
            r.state == Some(State::Closed),
            r.description is None,
            r.due_on is None,
    {
        MilestoneUpdate { title: None, state: Some(State::Closed), description: None, due_on: None }
    }
}

impl GetMilestones {
    /// Lists milestones in descending order, with the tracker's other defaults.
    pub fn descending() -> (r: GetMilestones)
        ensures
            r.state is None,
            r.sort is None,
            r.direction == Some(Direction::Descending),
    {
        GetMilestones { state: None, sort: None, direction: Some(Direction::Descending) }
    }
}

/// How a state is written in a search query.
pub open spec fn state_text(state: State) -> Seq<char> {
    match state {
        State::Open => "open"@,
        State::Closed => "closed"@,
    }
}

/// A query with one more term: terms are separated by one space.
pub open spec fn with_term(query: Seq<char>, term: Seq<char>) -> Seq<char> {
    if query.len() == 0 {
        term
    } else {
        query + " "@ + term
    }
}

/// A `key:value` term.
pub open spec fn key_value_term(key: Seq<char>, value: Seq<char>) -> Seq<char> {
    key + ":"@ + value
}

/// Builds a search query from terms, one after the other.
#[derive(Clone, Debug, PartialEq)]
pub struct SearchQueryBuilder {
    query: String,
}

impl View for SearchQueryBuilder {
    type V = Seq<char>;

    closed spec fn view(&self) -> Seq<char> {
        self.query@
    }
}

impl SearchQueryBuilder {
    /// An empty query.
    pub fn new() -> (r: SearchQueryBuilder)
        ensures
            r@ == Seq::<char>::empty(),
    {
        SearchQueryBuilder { query: String::new() }
    }

    /// The query text.
    pub fn build(self) -> (r: String)
        ensures
            r@ == self@,
    {
        self.query
    }

    fn push_separator(&mut self)
        ensures
            old(self)@.len() == 0 ==> final(self)@ == old(self)@,
            old(self)@.len() != 0 ==> final(self)@ == old(self)@ + " "@,
    {
        if !self.query.as_str().is_empty() {
            self.query.append(" ");
        }
    }

    /// Adds a term as it is.
    pub fn term(self, term: &str) -> (r: SearchQueryBuilder)
        ensures
            r@ == with_term(self@, term@),
    {
        let mut b = self;
        b.push_separator();
        b.query.append(term);
        b
    }

    /// Adds a `key:value` term.
    pub fn key_value(self, key: &str, value: &str) -> (r: SearchQueryBuilder)
        ensures
            r@ == with_term(self@, key_value_term(key@, value@)),
    {
        let mut b = self;
        b.push_separator();
        b.query.append(key);
        b.query.append(":");
        b.query.append(value);
        proof {
            reveal_strlit(":");
        }
        assert(b@ =~= with_term(self@, key_value_term(key@, value@)));
        b
    }

    /// Only issues with the label.
    pub fn label(self, label_name: &str) -> (r: SearchQueryBuilder)
        ensures
            r@ == with_term(self@, key_value_term("label"@, label_name@)),
    {
        self.key_value("label", label_name)
    }

    /// Only issues without the label.
    pub fn not_label(self, label_name: &str) -> (r: SearchQueryBuilder)
        ensures
            r@ == with_term(self@, key_value_term("-label"@, label_name@)),
    {
        self.key_value("-label", label_name)
    }

    /// Only issues, not pull requests.
    pub fn issue(self) -> (r: SearchQueryBuilder)
        ensures
            r@ == with_term(self@, key_value_term("type"@, "issue"@)),
    {
        self.key_value("type", "issue")
    }

    /// Only issues with no milestone.
    pub fn no_milestone(self) -> (r: SearchQueryBuilder)
        ensures
            r@ == with_term(self@, key_value_term("no"@, "milestone"@)),
    {
        self.key_value("no", "milestone")
    }

    /// Only issues in the state.
    pub fn state(self, state: &State) -> (r: SearchQueryBuilder)
        ensures
            r@ == with_term(self@, key_value_term("state"@, state_text(*state))),
    {
        let value = match state {
            State::Open => "open",
            State::Closed => "closed",
        };
        self.key_value("state", value)
    }

    /// Only issues in the milestone with this title.
    pub fn milestone(self, milestone_title: &str) -> (r: SearchQueryBuilder)
        ensures
            r@ == with_term(self@, "milestone:\""@ + milestone_title@ + "\""@),
    {
        let mut t = "milestone:\"".to_owned();
        t.append(milestone_title);
        t.append("\"");
        self.term(t.as_str())
    }

    /// Only issues closed on the day of `datetime` or later.
    pub fn closed_on_or_after(self, datetime: &DateTime) -> (r: SearchQueryBuilder)
        requires
            datetime.wf(),
        ensures
            r@ == with_term(
                with_term(self@, key_value_term("state"@, "closed"@)),
                "closed:>="@ + date_text(datetime.date),
            ),
    {
        let mut t = "closed:>=".to_owned();
        t.append(format_date(&datetime.date).as_str());
        self.state(&State::Closed).term(t.as_str())
    }

    /// Only issues of the repository `owner/repo`.
    pub fn owner_repo(self, owner: &str, repo: &str) -> (r: SearchQueryBuilder)
        ensures
            r@ == with_term(self@, "repo:"@ + owner@ + "/"@ + repo@),
    {
        let mut t = "repo:".to_owned();
        t.append(owner);
        t.append("/");
        t.append(repo);
        self.term(t.as_str())
    }
}

} // verus!
