//! The task tracker's side: the shape of a task it stores, and how it is reached.

use crate::calendar::Date;
use crate::http::{header, Method, Request, RequestView};
use crate::text::iso_date_text;
use vstd::prelude::*;

verus! {

/// Where tasks are created.
pub open spec fn tasks_endpoint() -> Seq<char> {
    "https://api.todoist.com/rest/v2/tasks"@
}

/// Access to the task tracker.
#[derive(Debug)]
pub struct TodoistClient {
    token: String,
}

impl TodoistClient {
    /// The token the client signs its requests with.
    pub closed spec fn token(&self) -> Seq<char> {
        self.token@
    }

    /// A client that signs with `token`.
    pub fn new(token: String) -> (r: TodoistClient)
        ensures
            r.token() == token@,
    {
        TodoistClient { token }
    }

    /// The request that creates a task; the task itself travels as its body.
    pub fn create_task_request(&self) -> (r: Request)
        ensures
            r@ == (RequestView {
                method: Method::Post,
                url: tasks_endpoint(),
                headers: seq![
                    ("Accept"@, "application/json"@),
                    ("User-Agent"@, "burocrate"@),
                ],
                bearer_token: Some(self.token()),
            }),
    {
        let mut headers = Vec::new();
        headers.push(header("Accept", "application/json"));
        headers.push(header("User-Agent", "burocrate"));
        let r = Request {
            method: Method::Post,
            url: String::from_str("https://api.todoist.com/rest/v2/tasks"),
            headers,
            bearer_token: Some(self.token.clone()),
        };
        assert(r@.headers =~= seq![
            ("Accept"@, "application/json"@),
            ("User-Agent"@, "burocrate"@),
        ]);
        r
    }
}

/// A task as the tracker takes and returns it.
#[derive(Debug)]
pub struct TodoistTask {
    pub id: Option<String>,
    pub project_id: String,
    pub parent_id: Option<String>,
    pub content: String,
    pub description: Option<String>,
    pub priority: Option<i32>,
    pub due_string: Option<String>,
    pub assignee: Option<String>,
    pub labels: Vec<String>,
}

/// What a `TodoistTask` holds, as plain text.
pub struct TodoistTaskView {
    pub id: Option<Seq<char>>,
    pub project_id: Seq<char>,
    pub parent_id: Option<Seq<char>>,
    pub content: Seq<char>,
    pub description: Option<Seq<char>>,
    pub priority: Option<i32>,
    pub due_string: Option<Seq<char>>,
    pub assignee: Option<Seq<char>>,
    pub labels: Seq<Seq<char>>,
}

impl View for TodoistTask {
    type V = TodoistTaskView;

    open spec fn view(&self) -> TodoistTaskView {
        TodoistTaskView {
            id: self.id.deep_view(),
            project_id: self.project_id@,
            parent_id: self.parent_id.deep_view(),
            content: self.content@,
            description: self.description.deep_view(),
            priority: self.priority,
            due_string: self.due_string.deep_view(),
            assignee: self.assignee.deep_view(),
            labels: self.labels.deep_view(),
        }
    }
}

/// A due date as the tracker reads it: `YYYY-MM-DD`, or nothing.
pub open spec fn due_text(due_date: Option<Date>) -> Option<Seq<char>> {
    match due_date {
        Some(d) => Some(iso_date_text(d.year() as int, d.month() as int, d.day() as int)),
        None => None,
    }
}

impl TodoistTaskView {
    /// The task on one line: its content, then the identifiers it has.
    pub open spec fn line(self) -> Seq<char> {
        match (self.parent_id, self.id) {
            (None, None) => self.content,
            (None, Some(i)) => self.content + " (id="@ + i + ")"@,
            (Some(p), Some(i)) => self.content + " (id="@ + i + ", parent="@ + p + ")"@,
            (Some(p), None) => self.content + " (parent="@ + p + ")"@,
        }
    }
}

impl TodoistTask {
    /// A task that the tracker has not seen yet, so without an identifier.
    pub fn new(
        parent_id: Option<&String>,
        project_id: &str,
        content: &str,
        due_date: Option<Date>,
        description: Option<String>,
        priority: Option<i32>,
        assignee: Option<String>,
        labels: Vec<String>,
    ) -> (r: TodoistTask)
        ensures
            r@ == (TodoistTaskView {
                id: None,
                project_id: project_id@,
                parent_id: parent_id.deep_view(),
                content: content@,
                description: description.deep_view(),
                priority: priority,
                due_string: due_text(due_date),
                assignee: assignee.deep_view(),
                labels: labels.deep_view(),
            }),
    {
        TodoistTask {
            id: None,
            content: String::from_str(content),
            description,
            priority,
            project_id: String::from_str(project_id),
            parent_id: match parent_id {
                Some(p) => Some(p.clone()),
                None => None,
            },
            due_string: match due_date {
                Some(d) => Some(d.iso_text()),
                None => None,
            },
            assignee,
            labels,
        }
    }

    /// The task on one line.
    pub fn to_text(&self) -> (r: String)
        ensures
            r@ == self@.line(),
    {
        let mut text = self.content.clone();
        match (&self.parent_id, &self.id) {
            (None, None) => {},
            (None, Some(i)) => {
                text.append(" (id=");
                text.append(i.as_str());
                text.append(")");
            },
            (Some(p), Some(i)) => {
                text.append(" (id=");
                text.append(i.as_str());
                text.append(", parent=");
                text.append(p.as_str());
                text.append(")");
            },
            (Some(p), None) => {
                text.append(" (parent=");
                text.append(p.as_str());
                text.append(")");
            },
        }
        text
    }
}

} // verus!
