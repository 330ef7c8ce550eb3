use burocrate::calendar::Date;
use burocrate::http::{Method, Request};
use burocrate::todoist::{TodoistClient, TodoistTask};

fn headers(request: &Request) -> Vec<(String, String)> {
    request.headers.iter().map(|h| (h.name.clone(), h.value.clone())).collect()
}

fn pair(name: &str, value: &str) -> (String, String) {
    (String::from(name), String::from(value))
}

fn stored(content: &str, id: Option<&str>, parent: Option<&str>) -> TodoistTask {
    let parent = parent.map(String::from);
    let mut task =
        TodoistTask::new(parent.as_ref(), "2203", content, None, None, None, None, Vec::new());
    task.id = id.map(String::from);
    task
}

#[test]
fn a_new_task_has_no_identifier() {
    let parent = String::from("77");
    let task = TodoistTask::new(
        Some(&parent),
        "2203",
        "Vask",
        Date::new(2024, 6, 5),
        Some(String::from("- **Gjester**: 2\n")),
        Some(4),
        Some(String::from("4711")),
        vec![String::from("airbnb"), String::from("yale")],
    );
    assert_eq!(task.id, None);
    assert_eq!(task.project_id, "2203");
    assert_eq!(task.parent_id, Some(String::from("77")));
    assert_eq!(task.content, "Vask");
    assert_eq!(task.description, Some(String::from("- **Gjester**: 2\n")));
    assert_eq!(task.priority, Some(4));
    assert_eq!(task.due_string, Some(String::from("2024-06-05")));
    assert_eq!(task.assignee, Some(String::from("4711")));
    assert_eq!(task.labels, vec![String::from("airbnb"), String::from("yale")]);
}

#[test]
fn a_new_task_may_leave_everything_optional_out() {
    let task = TodoistTask::new(None, "", "", None, None, None, None, Vec::new());
    assert_eq!(task.id, None);
    assert_eq!(task.project_id, "");
    assert_eq!(task.parent_id, None);
    assert_eq!(task.content, "");
    assert_eq!(task.description, None);
    assert_eq!(task.priority, None);
    assert_eq!(task.due_string, None);
    assert_eq!(task.assignee, None);
    assert!(task.labels.is_empty());
}

#[test]
fn the_due_date_travels_as_year_month_day() {
    let due = |y, m, d| {
        TodoistTask::new(None, "p", "c", Date::new(y, m, d), None, None, None, Vec::new())
            .due_string
    };
    assert_eq!(due(2024, 1, 9), Some(String::from("2024-01-09")));
    assert_eq!(due(2024, 12, 31), Some(String::from("2024-12-31")));
    assert_eq!(due(987, 10, 3), Some(String::from("0987-10-03")));
    assert_eq!(due(12345, 10, 3), Some(String::from("+12345-10-03")));
    assert_eq!(due(-44, 3, 15), Some(String::from("-0044-03-15")));
    assert_eq!(due(2023, 2, 29), None);
}

#[test]
fn a_task_reads_with_the_identifiers_it_has() {
    assert_eq!(stored("Vask", None, None).to_text(), "Vask");
    assert_eq!(stored("Vask", Some("12"), None).to_text(), "Vask (id=12)");
    assert_eq!(stored("Vask", Some("12"), Some("7")).to_text(), "Vask (id=12, parent=7)");
    assert_eq!(stored("Vask", None, Some("7")).to_text(), "Vask (parent=7)");
}

#[test]
fn tasks_are_created_with_a_signed_post() {
    let client = TodoistClient::new(String::from("s3cr3t"));
    let request = client.create_task_request();
    assert_eq!(request.method, Method::Post);
    assert_eq!(request.url, "https://api.todoist.com/rest/v2/tasks");
    assert_eq!(
        headers(&request),
        vec![pair("Accept", "application/json"), pair("User-Agent", "burocrate")]
    );
    assert_eq!(request.bearer_token, Some(String::from("s3cr3t")));
}
