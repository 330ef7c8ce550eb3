//! Tasks before they are submitted: when they fall due, what they say, and
//! the fixed set of them that every reservation brings.

use crate::calendar::{
    first_day_number, last_day_number, lemma_shifted_is_a_date, lemma_there_and_back, Date,
};
use crate::reservation::{RenderError, Reservation, ReservationView};
use crate::text::{copy_optional, copy_texts, decimal, decimal_string};
use crate::todoist::{due_text, TodoistTask, TodoistTaskView};
use vstd::prelude::*;

verus! {

/// When a task falls due, relative to a reservation.
#[derive(Clone, Copy, Debug, PartialEq, Eq, Structural)]
pub enum RelativeDate {
    /// On the day the task is submitted.
    Immediately,
    /// So many days before the check-in.
    BeforeCheckIn(u64),
    /// So many days after the check-in.
    AfterCheckIn(u64),
    /// So many days before the checkout.
    BeforeCheckout(u64),
    /// So many days after the checkout.
    AfterCheckout(u64),
}

impl RelativeDate {
    /// The day the rule names for a reservation, on a given current day;
    /// nothing where that day lies outside the supported years.
    pub open spec fn resolved(self, reservation: ReservationView, today: Date) -> Option<Date> {
        match self {
            RelativeDate::Immediately => Some(today),
            RelativeDate::BeforeCheckIn(days) => reservation.check_in.shifted(-(days as int)),
            RelativeDate::AfterCheckIn(days) => reservation.check_in.shifted(days as int),
            RelativeDate::BeforeCheckout(days) => reservation.checkout.shifted(-(days as int)),
            RelativeDate::AfterCheckout(days) => reservation.checkout.shifted(days as int),
        }
    }

    /// The rule in words.
    pub open spec fn phrase(self) -> Seq<char> {
        match self {
            RelativeDate::Immediately => "immediately"@,
            RelativeDate::BeforeCheckIn(days) => "Days("@ + decimal(days as nat)
                + ") before check-in"@,
            RelativeDate::AfterCheckIn(days) => "Days("@ + decimal(days as nat)
                + ") after check-in"@,
            RelativeDate::BeforeCheckout(days) => "Days("@ + decimal(days as nat)
                + ") before checkout"@,
            RelativeDate::AfterCheckout(days) => "Days("@ + decimal(days as nat)
                + ") after checkout"@,
        }
    }

    /// The day the rule names for `reservation` when the current day is `today`.
    pub fn resolve(&self, reservation: &Reservation, today: Date) -> (r: Option<Date>)
        ensures
            r == self.resolved(reservation@, today),
    {
        match self {
            RelativeDate::Immediately => Some(today),
            RelativeDate::BeforeCheckIn(days) => reservation.check_in.minus_days(*days),
            RelativeDate::AfterCheckIn(days) => reservation.check_in.plus_days(*days),
            RelativeDate::BeforeCheckout(days) => reservation.checkout.minus_days(*days),
            RelativeDate::AfterCheckout(days) => reservation.checkout.plus_days(*days),
        }
    }

    /// The rule in words.
    pub fn to_text(&self) -> (r: String)
        ensures
            r@ == self.phrase(),
    {
        match self {
            RelativeDate::Immediately => String::from_str("immediately"),
            RelativeDate::BeforeCheckIn(days) => days_phrase(*days, ") before check-in"),
            RelativeDate::AfterCheckIn(days) => days_phrase(*days, ") after check-in"),
            RelativeDate::BeforeCheckout(days) => days_phrase(*days, ") before checkout"),
            RelativeDate::AfterCheckout(days) => days_phrase(*days, ") after checkout"),
        }
    }
}

/// Whether `date` is the day that stands at `number` on the line of all
/// days: that day where it is in range, and nothing where it is not.
pub open spec fn lands_on(date: Option<Date>, number: int) -> bool {
    match date {
        Some(d) => d.well_formed() && d.day_number() == number,
        None => !(first_day_number() <= number <= last_day_number()),
    }
}

/// A rule resolves by plain day arithmetic: `Immediately` gives the current
/// day, and every other rule the day that lies its number of days before or
/// after the check-in or the checkout, or nothing where that day is out of
/// range.
pub proof fn lemma_resolved_by_day_arithmetic(
    rule: RelativeDate,
    reservation: ReservationView,
    today: Date,
)
    requires
        reservation.well_formed(),
    ensures
        match rule {
            RelativeDate::Immediately => rule.resolved(reservation, today) == Some(today),
            RelativeDate::BeforeCheckIn(days) => lands_on(
                rule.resolved(reservation, today),
                reservation.check_in.day_number() - days,
            ),
            RelativeDate::AfterCheckIn(days) => lands_on(
                rule.resolved(reservation, today),
                reservation.check_in.day_number() + days,
            ),
            RelativeDate::BeforeCheckout(days) => lands_on(
                rule.resolved(reservation, today),
                reservation.checkout.day_number() - days,
            ),
            RelativeDate::AfterCheckout(days) => lands_on(
                rule.resolved(reservation, today),
                reservation.checkout.day_number() + days,
            ),
        },
{
    let resolved = rule.resolved(reservation, today);
    if resolved is Some {
        match rule {
            RelativeDate::Immediately => {},
            RelativeDate::BeforeCheckIn(days) => {
                lemma_shifted_is_a_date(reservation.check_in, -(days as int));
            },
            RelativeDate::AfterCheckIn(days) => {
                lemma_shifted_is_a_date(reservation.check_in, days as int);
            },
            RelativeDate::BeforeCheckout(days) => {
                lemma_shifted_is_a_date(reservation.checkout, -(days as int));
            },
            RelativeDate::AfterCheckout(days) => {
                lemma_shifted_is_a_date(reservation.checkout, days as int);
            },
        }
    }
}

/// A day found so many days before an anchor lies as many days before it on
/// the calendar: going forward again by the same number returns the anchor,
/// and likewise the other way round.
pub proof fn lemma_before_and_after_undo_each_other(
    reservation: ReservationView,
    days: u64,
    today: Date,
)
    requires
        reservation.well_formed(),
    ensures
        RelativeDate::BeforeCheckIn(days).resolved(reservation, today) matches Some(d)
            ==> d.shifted(days as int) == Some(reservation.check_in),
        RelativeDate::AfterCheckIn(days).resolved(reservation, today) matches Some(d)
            ==> d.shifted(-(days as int)) == Some(reservation.check_in),
        RelativeDate::BeforeCheckout(days).resolved(reservation, today) matches Some(d)
            ==> d.shifted(days as int) == Some(reservation.checkout),
        RelativeDate::AfterCheckout(days).resolved(reservation, today) matches Some(d)
            ==> d.shifted(-(days as int)) == Some(reservation.checkout),
{
    if reservation.check_in.shifted(-(days as int)) is Some {
        lemma_there_and_back(reservation.check_in, -(days as int));
    }
    if reservation.check_in.shifted(days as int) is Some {
        lemma_there_and_back(reservation.check_in, days as int);
    }
    if reservation.checkout.shifted(-(days as int)) is Some {
        lemma_there_and_back(reservation.checkout, -(days as int));
    }
    if reservation.checkout.shifted(days as int) is Some {
        lemma_there_and_back(reservation.checkout, days as int);
    }
}

/// A number of days in brackets, and what follows it.
fn days_phrase(days: u64, rest: &str) -> (r: String)
    ensures
        r@ == "Days("@ + decimal(days as nat) + rest@,
{
    let mut text = String::from_str("Days(");
    let number = decimal_string(days);
    text.append(number.as_str());
    text.append(rest);
    text
}

/// The label every task carries.
pub open spec fn base_label() -> Seq<char> {
    "airbnb"@
}

/// The labels of a task: the base label, then the category if there is one.
pub open spec fn labelled(category: Option<Seq<char>>) -> Seq<Seq<char>> {
    match category {
        Some(c) => seq![base_label(), c],
        None => seq![base_label()],
    }
}

/// A unit of work that has not been submitted.
#[derive(Debug)]
pub struct Task {
    title: String,
    description: String,
    due_date: RelativeDate,
    assigned_to: Option<String>,
    labels: Vec<String>,
}

/// What a `Task` holds, as plain text.
pub struct TaskView {
    pub title: Seq<char>,
    pub description: Seq<char>,
    pub due_date: RelativeDate,
    pub assigned_to: Option<Seq<char>>,
    pub labels: Seq<Seq<char>>,
}

impl View for Task {
    type V = TaskView;

    closed spec fn view(&self) -> TaskView {
        TaskView {
            title: self.title@,
            description: self.description@,
            due_date: self.due_date,
            assigned_to: self.assigned_to.deep_view(),
            labels: self.labels.deep_view(),
        }
    }
}

impl TaskView {
    /// The task that `Task::new` makes of its arguments.
    pub open spec fn drafted(
        title: Seq<char>,
        reservation: ReservationView,
        due_date: RelativeDate,
        assigned_to: Option<Seq<char>>,
        category: Option<Seq<char>>,
        appendix: bool,
    ) -> TaskView {
        TaskView {
            title: if appendix {
                title + " - "@ + reservation.guest
            } else {
                title
            },
            description: reservation.description(),
            due_date,
            assigned_to,
            labels: labelled(category),
        }
    }

    /// Whether the labels are the base label alone or followed by one category.
    pub open spec fn well_labelled(self) -> bool {
        1 <= self.labels.len() <= 2 && self.labels[0] == base_label()
    }

    /// The request that submits the task: for a reservation, under a parent
    /// if there is one, in a project, with the due date that holds on `today`.
    /// Its content is the title as it stands, so the guest's name is in it
    /// once where the title carries it.
    pub open spec fn request(
        self,
        reservation: ReservationView,
        parent_id: Option<Seq<char>>,
        project_id: Seq<char>,
        today: Date,
    ) -> TodoistTaskView {
        TodoistTaskView {
            id: None,
            project_id,
            parent_id,
            content: self.title,
            description: Some(self.description),
            priority: None,
            due_string: due_text(self.due_date.resolved(reservation, today)),
            assignee: self.assigned_to,
            labels: self.labels,
        }
    }

    /// The task on one line.
    pub open spec fn line(self) -> Seq<char> {
        match self.assigned_to {
            None => "Task: '"@ + self.title + "' due on "@ + self.due_date.phrase(),
            Some(assignee) => "Task: '"@ + self.title + "' due on "@ + self.due_date.phrase()
                + " and assigned to "@ + assignee,
        }
    }
}

/// A request depends on the day it is made on only through the due date of a
/// task that is due immediately: everything else in it is the same on any
/// two days, and so is that due date for every other rule.
pub proof fn lemma_request_varies_only_with_immediate_due_date(
    task: TaskView,
    reservation: ReservationView,
    parent_id: Option<Seq<char>>,
    project_id: Seq<char>,
    one_day: Date,
    another_day: Date,
)
    ensures
        task.request(reservation, parent_id, project_id, one_day) == (TodoistTaskView {
            due_string: task.request(reservation, parent_id, project_id, one_day).due_string,
            ..task.request(reservation, parent_id, project_id, another_day)
        }),
        task.due_date != RelativeDate::Immediately ==> task.request(
            reservation,
            parent_id,
            project_id,
            one_day,
        ) == task.request(reservation, parent_id, project_id, another_day),
{
}

impl Task {
    /// Every task carries the base label first and at most one category after it.
    #[verifier::type_invariant]
    pub closed spec fn well_formed(&self) -> bool {
        self@.well_labelled()
    }

    /// A task for `reservation`. With `appendix` the guest's name follows the
    /// title; `label` is the category, if the task has one.
    pub fn new(
        title: &str,
        reservation: &Reservation,
        due_date: RelativeDate,
        assigned_to: Option<String>,
        label: Option<&str>,
        appendix: bool,
    ) -> (r: Result<Task, RenderError>)
        ensures
            r matches Ok(task) && task@ == TaskView::drafted(
                title@,
                reservation@,
                due_date,
                assigned_to.deep_view(),
                label.deep_view(),
                appendix,
            ),
    {
        let mut processed_title = String::from_str(title);
        if appendix {
            processed_title.append(" - ");
            processed_title.append(reservation.guest.as_str());
        }
        let mut labels: Vec<String> = Vec::new();
        labels.push(String::from_str("airbnb"));
        match label {
            Some(category) => {
                labels.push(String::from_str(category));
            },
            None => {},
        }
        assert(labels.deep_view() =~= labelled(label.deep_view()));
        let description = reservation.get_description()?;
        Ok(Task { title: processed_title, description, due_date, assigned_to, labels })
    }

    /// The request that submits the task for `reservation`.
    pub fn to_todoist(
        &self,
        reservation: &Reservation,
        parent_task_id: Option<&String>,
        project_id: &str,
        today: Date,
    ) -> (r: TodoistTask)
        ensures
            r@ == self@.request(reservation@, parent_task_id.deep_view(), project_id@, today),
    {
        TodoistTask::new(
            parent_task_id,
            project_id,
            self.title.as_str(),
            self.due_date.resolve(reservation, today),
            Some(self.description.clone()),
            None,
            copy_optional(&self.assigned_to),
            copy_texts(&self.labels),
        )
    }

    /// The task on one line.
    pub fn to_text(&self) -> (r: String)
        ensures
            r@ == self@.line(),
    {
        let mut text = String::from_str("Task: '");
        let due = self.due_date.to_text();
        text.append(self.title.as_str());
        text.append("' due on ");
        text.append(due.as_str());
        match &self.assigned_to {
            None => {},
            Some(assignee) => {
                text.append(" and assigned to ");
                text.append(assignee.as_str());
            },
        }
        text
    }

    /// The title, with the guest's name where the task was made to carry it.
    pub fn title(&self) -> (r: &String)
        ensures
            r@ == self@.title,
    {
        &self.title
    }

    /// The description shared by all tasks of a reservation.
    pub fn description(&self) -> (r: &String)
        ensures
            r@ == self@.description,
    {
        &self.description
    }

    /// The rule that gives the due date.
    pub fn due_date(&self) -> (r: RelativeDate)
        ensures
            r == self@.due_date,
    {
        self.due_date
    }

    /// Who the task is assigned to, if anyone.
    pub fn assigned_to(&self) -> (r: &Option<String>)
        ensures
            r.deep_view() == self@.assigned_to,
    {
        &self.assigned_to
    }

    /// The labels: the base label, then the category if there is one.
    pub fn labels(&self) -> (r: &Vec<String>)
        ensures
            r.deep_view() == self@.labels,
            self@.well_labelled(),
    {
        proof {
            use_type_invariant(self);
        }
        &self.labels
    }
}

} // verus!
