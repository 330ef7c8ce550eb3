use burocrate::calendar::Date;
use burocrate::parsio::{DateError, ParsioDoc};
use burocrate::poll::{
    gather, Action, CycleError, Event, ParsedDocument, Poll, Settings, POLL_INTERVAL_MINUTES,
};
use burocrate::reservation::Reservation;
use burocrate::sync::{Progress, SinkReply, Step, SyncError};
use burocrate::todoist::TodoistTask;
use chrono::{Datelike, NaiveDate};
use date_time_parser::DateParser;

fn date(year: i32, month: u32, day: u32) -> Date {
    Date::new(year, month, day).expect("a day that exists")
}

fn settings() -> Settings {
    Settings {
        project_id: String::from("2203"),
        alice_id: String::from("alice-id"),
        bob_id: String::from("bob-id"),
    }
}

fn parsed(guest: &str, check_in: Option<Date>, checkout: Option<Date>) -> ParsedDocument {
    ParsedDocument {
        document: ParsioDoc {
            guest_name: String::from(guest),
            guest_location: String::from("Oslo"),
            check_in: String::from("check-in text"),
            checkout: String::from("checkout text"),
            booking_comment: String::new(),
            number_of_guests: String::from("2"),
            confirmation_code: String::from("HM1"),
            guest_paid_total: String::from("5000"),
            host_payout: String::from("4000"),
            received_at_datetime: String::new(),
        },
        check_in,
        checkout,
    }
}

fn booking(guest: &str) -> Reservation {
    parsed(guest, Date::new(2024, 6, 5), Date::new(2024, 6, 10))
        .document
        .into_reservation(Date::new(2024, 6, 5), Date::new(2024, 6, 10))
        .unwrap()
}

fn accepted(request: &TodoistTask, id: &str) -> SinkReply {
    let mut stored = TodoistTask::new(
        request.parent_id.as_ref(),
        &request.project_id,
        &request.content,
        None,
        request.description.clone(),
        request.priority,
        request.assignee.clone(),
        request.labels.clone(),
    );
    stored.due_string = request.due_string.clone();
    stored.id = Some(String::from(id));
    SinkReply::Created(stored)
}

fn without_identifier(request: &TodoistTask) -> SinkReply {
    match accepted(request, "") {
        SinkReply::Created(mut stored) => {
            stored.id = None;
            SinkReply::Created(stored)
        }
        SinkReply::Failed => SinkReply::Failed,
    }
}

fn submitted(action: Action) -> TodoistTask {
    match action {
        Action::Submit(request) => request,
        other => panic!("expected a submission, got {other:?}"),
    }
}

fn fetching(today: Date) -> Poll {
    let (poll, action) = Poll::new().step(Event::Tick, &settings(), today);
    assert!(matches!(action, Action::Fetch));
    assert!(poll.is_running());
    poll
}

const CHILD_TITLES: [&str; 8] = [
    "Bestill vaskehjelp",
    "Fiks egen overnatting",
    "Fiks egen overnatting",
    "Opprett dørkode",
    "Klargjør leiligheten",
    "Send velkomstmelding",
    "Slett dørkode",
    "Følg opp anmeldelse",
];

#[test]
fn the_interval_is_a_quarter_of_an_hour() {
    assert_eq!(POLL_INTERVAL_MINUTES, 15);
}

#[test]
fn a_poll_starts_idle_and_a_tick_starts_a_cycle() {
    let poll = Poll::new();
    assert!(!poll.is_running());
    assert_eq!(poll.reservation_count(), None);
    let (poll, action) = poll.step(Event::Tick, &settings(), date(2024, 1, 2));
    assert!(matches!(action, Action::Fetch));
    assert!(poll.is_running());
    assert_eq!(poll.reservation_count(), None);
}

#[test]
fn a_tick_during_a_cycle_changes_nothing() {
    let today = date(2024, 1, 2);
    let (poll, action) = fetching(today).step(Event::Tick, &settings(), today);
    assert!(matches!(action, Action::Wait));
    assert!(poll.is_running());
    let docs = vec![parsed("Ola", Date::new(2024, 6, 5), Date::new(2024, 6, 10))];
    let (poll, action) = poll.step(Event::Documents(docs), &settings(), today);
    assert!(matches!(action, Action::Submit(_)));
    let (poll, action) = poll.step(Event::Tick, &settings(), today);
    assert!(matches!(action, Action::Wait));
    assert_eq!(poll.reservation_count(), Some(1));
}

#[test]
fn events_that_do_not_concern_an_idle_poll_are_passed_over() {
    let today = date(2024, 1, 2);
    let docs = vec![parsed("Ola", Date::new(2024, 6, 5), Date::new(2024, 6, 10))];
    let (poll, action) = Poll::new().step(Event::Documents(docs), &settings(), today);
    assert!(matches!(action, Action::Wait));
    assert!(!poll.is_running());
    let (poll, action) = poll.step(Event::FetchFailed, &settings(), today);
    assert!(matches!(action, Action::Wait));
    assert!(!poll.is_running());
    let (poll, action) = poll.step(Event::Reply(SinkReply::Failed), &settings(), today);
    assert!(matches!(action, Action::Wait));
    assert!(!poll.is_running());
}

#[test]
fn a_failed_fetch_ends_the_cycle() {
    let today = date(2024, 1, 2);
    let (poll, action) = fetching(today).step(Event::FetchFailed, &settings(), today);
    assert!(matches!(action, Action::Fail(CycleError::Fetch)));
    assert!(!poll.is_running());
    let (poll, action) = poll.step(Event::Tick, &settings(), today);
    assert!(matches!(action, Action::Fetch));
    assert!(poll.is_running());
}

#[test]
fn a_fetch_without_documents_completes_the_cycle() {
    let today = date(2024, 1, 2);
    let (poll, action) = fetching(today).step(Event::Documents(Vec::new()), &settings(), today);
    assert!(matches!(action, Action::Finish));
    assert!(!poll.is_running());
}

#[test]
fn reservations_that_have_begun_are_left_out() {
    let today = date(2024, 6, 5);
    let docs = vec![
        parsed("Past", Date::new(2024, 6, 1), Date::new(2024, 6, 4)),
        parsed("Today", Date::new(2024, 6, 5), Date::new(2024, 6, 10)),
        parsed("Tomorrow", Date::new(2024, 6, 6), Date::new(2024, 6, 10)),
        parsed("Later", Date::new(2025, 1, 1), Date::new(2025, 1, 2)),
    ];
    let kept = gather(docs, today).unwrap();
    let guests: Vec<&str> = kept.iter().map(|r| r.guest.as_str()).collect();
    assert_eq!(guests, vec!["Tomorrow", "Later"]);
}

#[test]
fn gathering_keeps_the_order_of_the_documents() {
    let today = date(2024, 1, 2);
    let docs = vec![
        parsed("C", Date::new(2024, 8, 5), Date::new(2024, 8, 10)),
        parsed("A", Date::new(2024, 6, 5), Date::new(2024, 6, 10)),
        parsed("B", Date::new(2024, 7, 5), Date::new(2024, 7, 10)),
    ];
    let kept = gather(docs, today).unwrap();
    let guests: Vec<&str> = kept.iter().map(|r| r.guest.as_str()).collect();
    assert_eq!(guests, vec!["C", "A", "B"]);
    assert!(gather(Vec::new(), today).unwrap().is_empty());
}

#[test]
fn gathering_fails_on_the_first_date_that_could_not_be_read() {
    let today = date(2024, 1, 2);
    let docs = vec![
        parsed("A", Date::new(2024, 6, 5), Date::new(2024, 6, 10)),
        parsed("B", Date::new(2024, 6, 5), None),
        parsed("C", None, Date::new(2024, 6, 10)),
    ];
    assert_eq!(gather(docs, today).err(), Some(DateError::Checkout));
    let docs = vec![
        parsed("C", None, None),
        parsed("B", Date::new(2024, 6, 5), None),
    ];
    assert_eq!(gather(docs, today).err(), Some(DateError::CheckIn));
    let docs = vec![parsed("Past", Date::new(2020, 6, 5), None)];
    assert_eq!(gather(docs, today).err(), Some(DateError::Checkout));
}

#[test]
fn a_reservation_only_in_the_past_completes_the_cycle_at_once() {
    let today = date(2024, 7, 1);
    let docs = vec![parsed("Past", Date::new(2024, 6, 1), Date::new(2024, 6, 4))];
    let (poll, action) = fetching(today).step(Event::Documents(docs), &settings(), today);
    assert!(matches!(action, Action::Finish));
    assert!(!poll.is_running());
}

#[test]
fn an_unparseable_checkout_submits_nothing() {
    let today = date(2024, 1, 2);
    let read = |text: &str| {
        let found: Option<NaiveDate> = DateParser::parse(text);
        found.and_then(|d| Date::new(d.year(), d.month(), d.day()))
    };
    let checkout = read("sometime next week");
    assert_eq!(checkout, None);
    let docs = vec![parsed("Ola", Date::new(2024, 6, 5), checkout)];
    let (poll, action) = fetching(today).step(Event::Documents(docs), &settings(), today);
    assert!(matches!(action, Action::Fail(CycleError::Date(DateError::Checkout))));
    assert!(!poll.is_running());
    assert_eq!(poll.reservation_count(), None);
    let (poll, action) = poll.step(Event::Reply(SinkReply::Failed), &settings(), today);
    assert!(matches!(action, Action::Wait));
    assert!(!poll.is_running());
}

#[test]
fn an_unparseable_date_stops_the_documents_before_it_too() {
    let today = date(2024, 1, 2);
    let docs = vec![
        parsed("Ola", Date::new(2024, 6, 5), Date::new(2024, 6, 10)),
        parsed("Kari", None, Date::new(2024, 6, 10)),
    ];
    let (poll, action) = fetching(today).step(Event::Documents(docs), &settings(), today);
    assert!(matches!(action, Action::Fail(CycleError::Date(DateError::CheckIn))));
    assert!(!poll.is_running());
}

#[test]
fn a_parent_without_identifier_submits_no_child() {
    let today = date(2024, 1, 2);
    let docs = vec![
        parsed("Ola", Date::new(2024, 6, 5), Date::new(2024, 6, 10)),
        parsed("Kari", Date::new(2024, 7, 5), Date::new(2024, 7, 10)),
    ];
    let (poll, action) = fetching(today).step(Event::Documents(docs), &settings(), today);
    let parent = submitted(action);
    assert_eq!(parent.parent_id, None);
    let (poll, action) =
        poll.step(Event::Reply(without_identifier(&parent)), &settings(), today);
    assert!(matches!(action, Action::Fail(CycleError::Sync(SyncError::MissingParentId))));
    assert!(!poll.is_running());
    let (poll, action) = poll.step(Event::Reply(accepted(&parent, "1")), &settings(), today);
    assert!(matches!(action, Action::Wait));
    assert!(!poll.is_running());
}

#[test]
fn a_rejected_parent_ends_the_cycle() {
    let today = date(2024, 1, 2);
    let docs = vec![parsed("Ola", Date::new(2024, 6, 5), Date::new(2024, 6, 10))];
    let (poll, action) = fetching(today).step(Event::Documents(docs), &settings(), today);
    assert!(matches!(action, Action::Submit(_)));
    let (poll, action) = poll.step(Event::Reply(SinkReply::Failed), &settings(), today);
    assert!(matches!(action, Action::Fail(CycleError::Sync(SyncError::Rejected))));
    assert!(!poll.is_running());
}

#[test]
fn a_rejected_child_stops_the_remaining_ones() {
    let today = date(2024, 1, 2);
    let docs = vec![
        parsed("Ola", Date::new(2024, 6, 5), Date::new(2024, 6, 10)),
        parsed("Kari", Date::new(2024, 7, 5), Date::new(2024, 7, 10)),
    ];
    let (mut poll, action) = fetching(today).step(Event::Documents(docs), &settings(), today);
    let mut request = submitted(action);
    for n in 0..3 {
        let (next, action) =
            poll.step(Event::Reply(accepted(&request, &format!("{n}"))), &settings(), today);
        poll = next;
        request = submitted(action);
    }
    assert_eq!(request.content, "Fiks egen overnatting - Ola");
    let (poll, action) = poll.step(Event::Reply(SinkReply::Failed), &settings(), today);
    assert!(matches!(action, Action::Fail(CycleError::Sync(SyncError::Rejected))));
    assert!(!poll.is_running());
    let (_, action) = poll.step(Event::Reply(accepted(&request, "9")), &settings(), today);
    assert!(matches!(action, Action::Wait));
}

#[test]
fn a_cycle_over_two_documents_submits_two_parents_and_sixteen_children() {
    let today = date(2024, 1, 2);
    let docs = vec![
        parsed("Ola", Date::new(2024, 6, 5), Date::new(2024, 6, 10)),
        parsed("Kari", Date::new(2024, 5, 30), Date::new(2024, 6, 2)),
    ];
    let (mut poll, mut action) = fetching(today).step(Event::Documents(docs), &settings(), today);
    assert_eq!(poll.reservation_count(), Some(2));
    let mut requests: Vec<TodoistTask> = Vec::new();
    loop {
        match action {
            Action::Submit(request) => {
                let id = format!("id-{}", requests.len());
                let reply = accepted(&request, &id);
                requests.push(request);
                let (next, then) = poll.step(Event::Reply(reply), &settings(), today);
                poll = next;
                action = then;
            }
            Action::Finish => break,
            other => panic!("unexpected {other:?}"),
        }
        assert!(requests.len() <= 18);
    }
    assert!(!poll.is_running());
    assert_eq!(requests.len(), 18);
    let parents: Vec<&TodoistTask> = requests.iter().filter(|r| r.parent_id.is_none()).collect();
    let children: Vec<&TodoistTask> = requests.iter().filter(|r| r.parent_id.is_some()).collect();
    assert_eq!(parents.len(), 2);
    assert_eq!(children.len(), 16);
    assert_eq!(requests[0].content, "Ola - 5. til 10. Jun");
    assert_eq!(requests[0].due_string, Some(String::from("2024-06-13")));
    assert_eq!(requests[9].content, "Kari - 30. May til 2. Jun");
    assert_eq!(requests[9].due_string, Some(String::from("2024-06-05")));
    for (start, guest, parent_id) in [(0usize, "Ola", "id-0"), (9, "Kari", "id-9")] {
        assert_eq!(requests[start].parent_id, None);
        for (offset, title) in CHILD_TITLES.iter().enumerate() {
            let child = &requests[start + 1 + offset];
            assert_eq!(child.parent_id, Some(String::from(parent_id)));
            assert_eq!(child.content, format!("{title} - {guest}"));
            assert_eq!(child.project_id, "2203");
            assert_eq!(child.id, None);
            assert_eq!(child.description, requests[start].description);
            assert_eq!(child.labels[0], "airbnb");
        }
    }
    let due: Vec<Option<&str>> = requests[1..9].iter().map(|r| r.due_string.as_deref()).collect();
    assert_eq!(
        due,
        vec![
            Some("2024-01-02"),
            Some("2024-01-02"),
            Some("2024-01-02"),
            Some("2024-06-02"),
            Some("2024-06-04"),
            Some("2024-06-04"),
            Some("2024-06-12"),
            Some("2024-06-13"),
        ]
    );
    assert_eq!(requests[2].assignee, Some(String::from("alice-id")));
    assert_eq!(requests[3].assignee, Some(String::from("bob-id")));
    assert_eq!(requests[1].assignee, None);
    assert_eq!(requests[1].labels, vec![String::from("airbnb"), String::from("vaskehjelp")]);
    assert_eq!(requests[4].labels, vec![String::from("airbnb"), String::from("yale")]);
    assert_eq!(requests[5].labels, vec![String::from("airbnb")]);
}

#[test]
fn tasks_due_immediately_take_the_day_of_their_own_submission() {
    let docs = vec![parsed("Ola", Date::new(2024, 6, 5), Date::new(2024, 6, 10))];
    let monday = date(2024, 1, 1);
    let tuesday = date(2024, 1, 2);
    let (poll, action) = fetching(monday).step(Event::Documents(docs), &settings(), monday);
    let parent = submitted(action);
    let (poll, action) = poll.step(Event::Reply(accepted(&parent, "1")), &settings(), monday);
    let first = submitted(action);
    assert_eq!(first.due_string, Some(String::from("2024-01-01")));
    let (_, action) = poll.step(Event::Reply(accepted(&first, "2")), &settings(), tuesday);
    let second = submitted(action);
    assert_eq!(second.due_string, Some(String::from("2024-01-02")));
}

#[test]
fn one_reservation_goes_parent_first_then_child_by_child() {
    let today = date(2024, 1, 2);
    let reservation = booking("Ola");
    let (mut progress, parent) =
        Progress::begin(&reservation, "2203", "alice-id", "bob-id", today).unwrap();
    assert_eq!(progress.child_count(), 8);
    assert_eq!(parent.parent_id, None);
    assert_eq!(parent.content, "Ola - 5. til 10. Jun");
    let mut reply = accepted(&parent, "p-1");
    let mut seen = 0;
    loop {
        match progress.advance(&reservation, "2203", reply, today) {
            Step::Submit { progress: next, request } => {
                assert_eq!(request.parent_id, Some(String::from("p-1")));
                assert_eq!(request.content, format!("{} - Ola", CHILD_TITLES[seen]));
                seen += 1;
                reply = accepted(&request, "other");
                progress = next;
            }
            Step::Done => break,
            Step::Abort(e) => panic!("aborted: {e:?}"),
        }
    }
    assert_eq!(seen, 8);
}

#[test]
fn a_child_stored_without_identifier_does_not_stop_the_rest() {
    let today = date(2024, 1, 2);
    let reservation = booking("Ola");
    let (progress, parent) =
        Progress::begin(&reservation, "2203", "alice-id", "bob-id", today).unwrap();
    let step = progress.advance(&reservation, "2203", accepted(&parent, "p-1"), today);
    let (progress, first) = match step {
        Step::Submit { progress, request } => (progress, request),
        other => panic!("unexpected {other:?}"),
    };
    let step = progress.advance(&reservation, "2203", without_identifier(&first), today);
    match step {
        Step::Submit { request, .. } => {
            assert_eq!(request.parent_id, Some(String::from("p-1")));
            assert_eq!(request.content, "Fiks egen overnatting - Ola");
        }
        other => panic!("unexpected {other:?}"),
    }
}

#[test]
fn sync_errors_read_in_words() {
    assert_eq!(SyncError::MissingParentId.to_text(), "Missing Todoist parent ID");
    assert_eq!(SyncError::Rejected.to_text(), "Todoist did not accept the task");
}
