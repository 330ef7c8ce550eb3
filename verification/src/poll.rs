//! One poll cycle after another: wait for the tick, fetch the documents,
//! submit the tasks of each upcoming reservation in turn.
//!
//! `Poll` decides; the caller acts. Each call of `Poll::step` takes what just
//! happened outside and returns what to do next. A cycle that fails ends at
//! once, and the next tick starts afresh with a new fetch.

use crate::calendar::Date;
use crate::catalog::{lemma_catalog_shape, parent_of, sub_task_catalog};
use crate::parsio::{DateError, ParsioDoc, ParsioDocView};
use crate::reservation::{RenderError, Reservation, ReservationView};
use crate::sync::{
    lemma_children_follow_in_order, Progress, ProgressView, SinkReply, SinkReplyView, StageView,
    Step, StepView, SyncError,
};
use crate::todoist::{TodoistTask, TodoistTaskView};
use vstd::prelude::*;

verus! {

/// Minutes between two ticks.
pub const POLL_INTERVAL_MINUTES: u32 = 15;

/// The identifiers a cycle works with: the project the tasks go to, and the
/// two operators who each arrange their own lodging.
#[derive(Debug)]
pub struct Settings {
    pub project_id: String,
    pub alice_id: String,
    pub bob_id: String,
}

/// `Settings` as plain text.
pub struct SettingsView {
    pub project_id: Seq<char>,
    pub alice_id: Seq<char>,
    pub bob_id: Seq<char>,
}

impl View for Settings {
    type V = SettingsView;

    open spec fn view(&self) -> SettingsView {
        SettingsView {
            project_id: self.project_id@,
            alice_id: self.alice_id@,
            bob_id: self.bob_id@,
        }
    }
}

/// A fetched document together with what reading its two date texts gave.
#[derive(Debug)]
pub struct ParsedDocument {
    pub document: ParsioDoc,
    pub check_in: Option<Date>,
    pub checkout: Option<Date>,
}

/// A `ParsedDocument` as plain text and dates.
pub struct ParsedDocumentView {
    pub document: ParsioDocView,
    pub check_in: Option<Date>,
    pub checkout: Option<Date>,
}

impl View for ParsedDocument {
    type V = ParsedDocumentView;

    open spec fn view(&self) -> ParsedDocumentView {
        ParsedDocumentView {
            document: self.document@,
            check_in: self.check_in,
            checkout: self.checkout,
        }
    }
}

/// The views of a list of documents, in order.
pub open spec fn document_views(documents: Seq<ParsedDocument>) -> Seq<ParsedDocumentView> {
    documents.map_values(|document: ParsedDocument| document@)
}

/// The views of a list of reservations, in order.
pub open spec fn reservation_views(reservations: Seq<Reservation>) -> Seq<ReservationView> {
    reservations.map_values(|reservation: Reservation| reservation@)
}

/// Whether a reservation is still to come on `today`: its check-in lies after that day.
pub open spec fn is_upcoming(reservation: ReservationView, today: Date) -> bool {
    reservation.check_in.day_number() > today.day_number()
}

/// The reservations a cycle works on: those of the documents, in order, whose
/// check-in lies after `today`. The first document with a date that could not
/// be read fails the whole list.
pub open spec fn gathered(documents: Seq<ParsedDocumentView>, today: Date) -> Result<
    Seq<ReservationView>,
    DateError,
>
    decreases documents.len(),
{
    if documents.len() == 0 {
        Ok(Seq::empty())
    } else {
        match gathered(documents.drop_last(), today) {
            Err(e) => Err(e),
            Ok(earlier) => {
                let last = documents.last();
                match last.document.reservation(last.check_in, last.checkout) {
                    Err(e) => Err(e),
                    Ok(reservation) => if is_upcoming(reservation, today) {
                        Ok(earlier.push(reservation))
                    } else {
                        Ok(earlier)
                    },
                }
            },
        }
    }
}

/// `r` seen through the views of what it holds.
pub open spec fn gather_view(r: Result<Vec<Reservation>, DateError>) -> Result<
    Seq<ReservationView>,
    DateError,
> {
    match r {
        Ok(reservations) => Ok(reservation_views(reservations@)),
        Err(e) => Err(e),
    }
}

/// The upcoming reservations among `documents`, or the first date error.
pub fn gather(documents: Vec<ParsedDocument>, today: Date) -> (r: Result<
    Vec<Reservation>,
    DateError,
>)
    ensures
        gather_view(r) == gathered(document_views(documents@), today),
{
    let ghost all = document_views(documents@);
    let ghost given = documents@;
    let mut reservations: Vec<Reservation> = Vec::new();
    assert(all.take(0).len() == 0);
    assert(reservation_views(reservations@) =~= Seq::<ReservationView>::empty());
    for parsed in it: documents.into_iter()
        invariant
            it.seq() == given,
            all == document_views(given),
            gathered(all.take(it.index() as int), today) == Ok::<Seq<ReservationView>, DateError>(
                reservation_views(reservations@),
            ),
    {
        let ghost taken = it.index() as int;
        proof {
            assert(all[taken] == parsed@);
            assert(all.take(taken + 1).drop_last() =~= all.take(taken));
            assert(all.take(taken + 1).last() == parsed@);
        }
        let ParsedDocument { document, check_in, checkout } = parsed;
        let ghost held = reservations@;
        match document.into_reservation(check_in, checkout) {
            Err(e) => {
                proof {
                    lemma_error_stays(all, taken + 1, today);
                    assert(all.take(all.len() as int) =~= all);
                }
                return Err(e);
            },
            Ok(reservation) => {
                if reservation.check_in.is_after(&today) {
                    reservations.push(reservation);
                    assert(reservation_views(reservations@) =~= reservation_views(held).push(
                        reservation@,
                    ));
                }
            },
        }
    }
    assert(all.take(all.len() as int) =~= all);
    Ok(reservations)
}

/// A date error among the first documents is the error of the whole list.
proof fn lemma_error_stays(documents: Seq<ParsedDocumentView>, count: int, today: Date)
    requires
        0 <= count <= documents.len(),
        gathered(documents.take(count), today) is Err,
    ensures
        gathered(documents.take(documents.len() as int), today) == gathered(
            documents.take(count),
            today,
        ),
    decreases documents.len() - count,
{
    if count < documents.len() {
        assert(documents.take(count + 1).drop_last() =~= documents.take(count));
        lemma_error_stays(documents, count + 1, today);
    }
}

/// Why a cycle ended early.
#[derive(Clone, Copy, Debug, PartialEq, Eq, Structural)]
pub enum CycleError {
    /// The documents could not be fetched.
    Fetch,
    /// A document carried a date that could not be read.
    Date(DateError),
    /// The tasks of a reservation could not be drawn up.
    Render(RenderError),
    /// The submissions of a reservation stopped early.
    Sync(SyncError),
}

/// What happened outside since the last step.
#[derive(Debug)]
pub enum Event {
    /// The interval has passed.
    Tick,
    /// The fetch returned these documents.
    Documents(Vec<ParsedDocument>),
    /// The fetch failed.
    FetchFailed,
    /// The tracker answered the submission under way.
    Reply(SinkReply),
}

/// An `Event` as plain text.
pub enum EventView {
    Tick,
    Documents(Seq<ParsedDocumentView>),
    FetchFailed,
    Reply(SinkReplyView),
}

impl View for Event {
    type V = EventView;

    open spec fn view(&self) -> EventView {
        match self {
            Event::Tick => EventView::Tick,
            Event::Documents(documents) => EventView::Documents(document_views(documents@)),
            Event::FetchFailed => EventView::FetchFailed,
            Event::Reply(reply) => EventView::Reply(reply@),
        }
    }
}

/// What the caller does next.
#[derive(Debug)]
pub enum Action {
    /// Nothing: the event does not concern the state the poll is in.
    Wait,
    /// Fetch the documents and bring them back.
    Fetch,
    /// Send the request and bring back the tracker's answer.
    Submit(TodoistTask),
    /// The cycle is complete; wait for the next tick.
    Finish,
    /// The cycle has failed; wait for the next tick.
    Fail(CycleError),
}

/// An `Action` as plain text.
pub enum ActionView {
    Wait,
    Fetch,
    Submit(TodoistTaskView),
    Finish,
    Fail(CycleError),
}

impl View for Action {
    type V = ActionView;

    open spec fn view(&self) -> ActionView {
        match self {
            Action::Wait => ActionView::Wait,
            Action::Fetch => ActionView::Fetch,
            Action::Submit(task) => ActionView::Submit(task@),
            Action::Finish => ActionView::Finish,
            Action::Fail(e) => ActionView::Fail(*e),
        }
    }
}

/// Where a poll stands.
pub enum PollView {
    /// Between cycles, waiting for the tick.
    Idle,
    /// In a cycle, waiting for the documents.
    Fetching,
    /// In a cycle, waiting for the tracker's answer to a submission for the
    /// reservation at `position`.
    Syncing { reservations: Seq<ReservationView>, position: nat, progress: ProgressView },
}

impl PollView {
    /// A cycle is under way.
    pub open spec fn is_running(self) -> bool {
        !(self is Idle)
    }

    /// The reservation whose tasks are being submitted is one of the cycle's.
    pub open spec fn well_formed(self) -> bool {
        match self {
            PollView::Syncing { reservations, position, progress } => position
                < reservations.len(),
            _ => true,
        }
    }

    /// Turning to the reservation at `position`: its parent goes out, or the
    /// cycle is complete where no reservation is left.
    pub open spec fn turned_to(
        reservations: Seq<ReservationView>,
        position: nat,
        settings: SettingsView,
        today: Date,
    ) -> (PollView, ActionView) {
        if position < reservations.len() {
            let reservation = reservations[position as int];
            (
                PollView::Syncing {
                    reservations,
                    position,
                    progress: ProgressView::begun(reservation, settings.alice_id, settings.bob_id),
                },
                ActionView::Submit(
                    parent_of(reservation).request(reservation, None, settings.project_id, today),
                ),
            )
        } else {
            (PollView::Idle, ActionView::Finish)
        }
    }

    /// The state after `event`, and what the caller is to do.
    ///
    /// A tick starts a cycle when none is under way. The documents of a cycle
    /// are gathered into its reservations; a date that cannot be read fails
    /// the cycle before anything is submitted. The reservations are taken in
    /// order, each through all its submissions; the first submission that
    /// fails, or a parent without identifier, fails the cycle. An event that
    /// does not concern the current state changes nothing.
    pub open spec fn next(self, event: EventView, settings: SettingsView, today: Date) -> (
        PollView,
        ActionView,
    ) {
        match (self, event) {
            (PollView::Idle, EventView::Tick) => (PollView::Fetching, ActionView::Fetch),
            (PollView::Fetching, EventView::FetchFailed) => (
                PollView::Idle,
                ActionView::Fail(CycleError::Fetch),
            ),
            (PollView::Fetching, EventView::Documents(documents)) => match gathered(
                documents,
                today,
            ) {
                Err(e) => (PollView::Idle, ActionView::Fail(CycleError::Date(e))),
                Ok(reservations) => PollView::turned_to(reservations, 0, settings, today),
            },
            (
                PollView::Syncing { reservations, position, progress },
                EventView::Reply(reply),
            ) => match progress.advanced(
                reservations[position as int],
                settings.project_id,
                reply,
                today,
            ) {
                StepView::Submit { progress, request } => (
                    PollView::Syncing { reservations, position, progress },
                    ActionView::Submit(request),
                ),
                StepView::Done => PollView::turned_to(
                    reservations,
                    position + 1,
                    settings,
                    today,
                ),
                StepView::Abort(e) => (PollView::Idle, ActionView::Fail(CycleError::Sync(e))),
            },
            _ => (self, ActionView::Wait),
        }
    }
}

/// Nothing is submitted while no cycle is under way, whatever happens.
pub proof fn lemma_idle_submits_nothing(event: EventView, settings: SettingsView, today: Date)
    ensures
        !(PollView::Idle.next(event, settings, today).1 is Submit),
        PollView::Idle.next(event, settings, today).0 is Idle || event is Tick,
{
}

/// A cycle starts on a tick, with a fetch, and on nothing else; it ends
/// with the word that it is complete or that it has failed, and with no
/// other; and that word is only given at the end of a cycle.
pub proof fn lemma_cycles_start_on_ticks_and_end_once(
    poll: PollView,
    event: EventView,
    settings: SettingsView,
    today: Date,
)
    ensures
        ({
            let (after, action) = poll.next(event, settings, today);
            &&& !poll.is_running() && after.is_running() ==> event is Tick && action is Fetch
            &&& poll.is_running() && !after.is_running() ==> action is Finish || action is Fail
            &&& action is Finish || action is Fail ==> poll.is_running() && !after.is_running()
        }),
{
}

/// A cycle never overlaps another: a tick that comes while one is under way changes nothing.
pub proof fn lemma_tick_during_cycle_changes_nothing(
    poll: PollView,
    settings: SettingsView,
    today: Date,
)
    requires
        poll.is_running(),
    ensures
        poll.next(EventView::Tick, settings, today) == (poll, ActionView::Wait),
{
}

/// A document with a date that could not be read fails the list it stands in.
pub proof fn lemma_unreadable_date_fails_gathering(
    documents: Seq<ParsedDocumentView>,
    index: int,
    today: Date,
)
    requires
        0 <= index < documents.len(),
        documents[index].check_in is None || documents[index].checkout is None,
    ensures
        gathered(documents, today) is Err,
    decreases documents.len(),
{
    if index < documents.len() - 1 {
        lemma_unreadable_date_fails_gathering(documents.drop_last(), index, today);
    }
}

/// Documents whose dates could all be read gather into reservations that
/// are all still to come, at most one for each document.
pub proof fn lemma_readable_documents_gather(documents: Seq<ParsedDocumentView>, today: Date)
    requires
        forall|i: int|
            0 <= i < documents.len() ==> (#[trigger] documents[i]).check_in is Some
                && documents[i].checkout is Some,
    ensures
        gathered(documents, today) matches Ok(reservations) && reservations.len()
            <= documents.len() && forall|j: int|
            0 <= j < reservations.len() ==> is_upcoming(#[trigger] reservations[j], today),
    decreases documents.len(),
{
    if documents.len() > 0 {
        let earlier = documents.drop_last();
        assert forall|i: int| 0 <= i < earlier.len() implies (#[trigger] earlier[i]).check_in
            is Some && earlier[i].checkout is Some by {
            assert(earlier[i] == documents[i]);
        }
        lemma_readable_documents_gather(earlier, today);
        assert(documents.last() == documents[documents.len() - 1]);
    }
}

/// Documents with a date that could not be read end the cycle before
/// anything is submitted.
pub proof fn lemma_unreadable_date_submits_nothing(
    documents: Seq<ParsedDocumentView>,
    index: int,
    settings: SettingsView,
    today: Date,
)
    requires
        0 <= index < documents.len(),
        documents[index].check_in is None || documents[index].checkout is None,
    ensures
        PollView::Fetching.next(EventView::Documents(documents), settings, today).0 is Idle,
        PollView::Fetching.next(EventView::Documents(documents), settings, today).1 is Fail,
{
    lemma_unreadable_date_fails_gathering(documents, index, today);
}

/// A parent that the tracker stored without an identifier ends the cycle:
/// the poll is idle again, holds no reservation, and has handed out nothing.
pub proof fn lemma_parent_without_identifier_ends_cycle(
    reservations: Seq<ReservationView>,
    position: nat,
    progress: ProgressView,
    stored: TodoistTaskView,
    settings: SettingsView,
    today: Date,
)
    requires
        progress.stage is Parent,
        stored.id is None,
    ensures
        (PollView::Syncing { reservations, position, progress }).next(
            EventView::Reply(SinkReplyView::Created(stored)),
            settings,
            today,
        ) == (PollView::Idle, ActionView::Fail(CycleError::Sync(SyncError::MissingParentId))),
{
}

/// The poll after a run of events, each with the day it happened on, and
/// what the poll asked for on each of them.
pub open spec fn replayed(
    poll: PollView,
    events: Seq<(EventView, Date)>,
    settings: SettingsView,
) -> (PollView, Seq<ActionView>)
    decreases events.len(),
{
    if events.len() == 0 {
        (poll, Seq::empty())
    } else {
        let (before, actions) = replayed(poll, events.drop_last(), settings);
        let (after, action) = before.next(events.last().0, settings, events.last().1);
        (after, actions.push(action))
    }
}

/// The tracker's answers of a run in which every submission is stored:
/// each stored task as an event, on the day it came.
pub open spec fn stored_replies(replies: Seq<(TodoistTaskView, Date)>) -> Seq<(EventView, Date)> {
    replies.map_values(
        |reply: (TodoistTaskView, Date)|
            (EventView::Reply(SinkReplyView::Created(reply.0)), reply.1),
    )
}

/// Where a cycle stands after `count` stored submissions: nine go to each
/// reservation, the parent and its eight sub-tasks, and the parent's answer
/// gives the identifier the sub-tasks go out under.
pub open spec fn after_stored(
    reservations: Seq<ReservationView>,
    settings: SettingsView,
    replies: Seq<(TodoistTaskView, Date)>,
    count: nat,
) -> PollView {
    if count >= 9 * reservations.len() {
        PollView::Idle
    } else {
        let position = count / 9;
        let reservation = reservations[position as int];
        PollView::Syncing {
            reservations,
            position,
            progress: ProgressView {
                children: sub_task_catalog(reservation, settings.alice_id, settings.bob_id),
                stage: if count % 9 == 0 {
                    StageView::Parent
                } else {
                    StageView::Child {
                        parent_id: replies[9 * position as int].0.id->0,
                        index: ((count % 9) - 1) as nat,
                    }
                },
            },
        }
    }
}

/// The submission with the given number in a cycle where every submission
/// is stored, made on `today`; the cycle's end where the number is past the
/// last one. Numbers count from 0, nine to a reservation: first the parent,
/// without parent reference, then the eight sub-tasks in catalog order under
/// the identifier that the parent was stored with.
pub open spec fn submission(
    reservations: Seq<ReservationView>,
    settings: SettingsView,
    replies: Seq<(TodoistTaskView, Date)>,
    number: nat,
    today: Date,
) -> ActionView {
    if number >= 9 * reservations.len() {
        ActionView::Finish
    } else {
        let position = number / 9;
        let reservation = reservations[position as int];
        if number % 9 == 0 {
            ActionView::Submit(
                parent_of(reservation).request(reservation, None, settings.project_id, today),
            )
        } else {
            ActionView::Submit(
                sub_task_catalog(reservation, settings.alice_id, settings.bob_id)[(number % 9)
                    - 1].request(
                    reservation,
                    Some(replies[9 * position as int].0.id->0),
                    settings.project_id,
                    today,
                ),
            )
        }
    }
}

/// One stored submission takes a cycle from where it stands after `count`
/// of them to where it stands after one more, and brings the submission
/// with the next number.
pub proof fn lemma_stored_submission_brings_the_next(
    reservations: Seq<ReservationView>,
    settings: SettingsView,
    replies: Seq<(TodoistTaskView, Date)>,
    count: nat,
)
    requires
        count < replies.len() == 9 * reservations.len(),
        forall|k: int| 0 <= k < replies.len() && k % 9 == 0 ==> (#[trigger] replies[k]).0.id is Some,
    ensures
        after_stored(reservations, settings, replies, count).next(
            EventView::Reply(SinkReplyView::Created(replies[count as int].0)),
            settings,
            replies[count as int].1,
        ) == (
            after_stored(reservations, settings, replies, count + 1),
            submission(reservations, settings, replies, count + 1, replies[count as int].1),
        ),
{
    let position = count / 9;
    let place = count % 9;
    let reservation = reservations[position as int];
    let stored = replies[count as int].0;
    let today = replies[count as int].1;
    let children = sub_task_catalog(reservation, settings.alice_id, settings.bob_id);
    lemma_catalog_shape(reservation, settings.alice_id, settings.bob_id);
    let before = after_stored(reservations, settings, replies, count);
    let progress = before->Syncing_progress;
    assert(progress.children == children);
    lemma_children_follow_in_order(progress, reservation, settings.project_id, stored, today);
    if place == 0 {
        assert(9 * position == count);
        assert((count + 1) / 9 == position && (count + 1) % 9 == 1);
    } else if place < 8 {
        assert((count + 1) / 9 == position && (count + 1) % 9 == place + 1);
    } else {
        assert((count + 1) / 9 == position + 1 && (count + 1) % 9 == 0);
    }
}

/// A cycle in which the tracker stores every submission, each parent with an
/// identifier, goes through its reservations in order and hands out nine
/// submissions for each: the parent, then its eight sub-tasks under the
/// parent's identifier. After the last answer the cycle is complete and the
/// poll is idle.
pub proof fn lemma_stored_cycle_submits_nine_per_reservation(
    reservations: Seq<ReservationView>,
    settings: SettingsView,
    today: Date,
    replies: Seq<(TodoistTaskView, Date)>,
    count: nat,
)
    requires
        count <= replies.len() == 9 * reservations.len(),
        forall|k: int| 0 <= k < replies.len() && k % 9 == 0 ==> (#[trigger] replies[k]).0.id is Some,
    ensures
        PollView::turned_to(reservations, 0, settings, today) == (
            after_stored(reservations, settings, replies, 0),
            submission(reservations, settings, replies, 0, today),
        ),
        ({
            let start = after_stored(reservations, settings, replies, 0);
            let (end, actions) = replayed(
                start,
                stored_replies(replies).take(count as int),
                settings,
            );
            &&& end == after_stored(reservations, settings, replies, count)
            &&& actions.len() == count
            &&& forall|k: int|
                0 <= k < count ==> #[trigger] actions[k] == submission(
                    reservations,
                    settings,
                    replies,
                    (k + 1) as nat,
                    replies[k].1,
                )
        }),
    decreases count,
{
    let start = after_stored(reservations, settings, replies, 0);
    let events = stored_replies(replies);
    if count > 0 {
        let earlier = (count - 1) as nat;
        lemma_stored_cycle_submits_nine_per_reservation(
            reservations,
            settings,
            today,
            replies,
            earlier,
        );
        lemma_stored_submission_brings_the_next(reservations, settings, replies, earlier);
        assert(events.take(count as int).drop_last() =~= events.take(earlier as int));
        assert(events.take(count as int).last() == events[earlier as int]);
    }
}

/// Where a poll stands, with what it holds.
#[derive(Debug)]
enum Phase {
    Idle,
    Fetching,
    Syncing { reservations: Vec<Reservation>, position: usize, progress: Progress },
}

/// The poll loop's state: idle between cycles, or part of the way through one.
#[derive(Debug)]
pub struct Poll {
    phase: Phase,
}

impl View for Poll {
    type V = PollView;

    closed spec fn view(&self) -> PollView {
        match self.phase {
            Phase::Idle => PollView::Idle,
            Phase::Fetching => PollView::Fetching,
            Phase::Syncing { reservations, position, progress } => PollView::Syncing {
                reservations: reservation_views(reservations@),
                position: position as nat,
                progress: progress@,
            },
        }
    }
}

/// `r` seen through the views of what it holds.
pub open spec fn step_view(r: (Poll, Action)) -> (PollView, ActionView) {
    (r.0@, r.1@)
}

impl Poll {
    /// The reservation whose tasks are being submitted is one of the cycle's.
    #[verifier::type_invariant]
    pub closed spec fn well_formed(&self) -> bool {
        self@.well_formed()
    }

    /// A poll between cycles.
    pub fn new() -> (r: Poll)
        ensures
            r@ == PollView::Idle,
    {
        Poll { phase: Phase::Idle }
    }

    /// Whether a cycle is under way.
    pub fn is_running(&self) -> (r: bool)
        ensures
            r == self@.is_running(),
    {
        match &self.phase {
            Phase::Idle => false,
            _ => true,
        }
    }

    /// How many reservations the cycle under way works on, once it has them.
    pub fn reservation_count(&self) -> (r: Option<usize>)
        ensures
            match self@ {
                PollView::Syncing { reservations, position, progress } => r == Some(
                    reservations.len() as usize,
                ),
                _ => r is None,
            },
    {
        match &self.phase {
            Phase::Syncing { reservations, position, progress } => Some(reservations.len()),
            _ => None,
        }
    }

    /// Turns to the reservation at `position`.
    fn turn_to(
        reservations: Vec<Reservation>,
        position: usize,
        settings: &Settings,
        today: Date,
    ) -> (r: (Poll, Action))
        ensures
            step_view(r) == PollView::turned_to(
                reservation_views(reservations@),
                position as nat,
                settings@,
                today,
            ),
    {
        if position < reservations.len() {
            match Progress::begin(
                &reservations[position],
                settings.project_id.as_str(),
                settings.alice_id.as_str(),
                settings.bob_id.as_str(),
                today,
            ) {
                Ok((progress, request)) => (
                    Poll { phase: Phase::Syncing { reservations, position, progress } },
                    Action::Submit(request),
                ),
                Err(e) => (Poll { phase: Phase::Idle }, Action::Fail(CycleError::Render(e))),
            }
        } else {
            (Poll { phase: Phase::Idle }, Action::Finish)
        }
    }

    /// Takes what happened outside and says what to do next. `today` is the
    /// current day: reservations count as upcoming against it, and tasks due
    /// immediately are due on it.
    pub fn step(self, event: Event, settings: &Settings, today: Date) -> (r: (Poll, Action))
        ensures
            step_view(r) == self@.next(event@, settings@, today),
    {
        proof {
            use_type_invariant(&self);
        }
        match (self.phase, event) {
            (Phase::Idle, Event::Tick) => (Poll { phase: Phase::Fetching }, Action::Fetch),
            (Phase::Fetching, Event::FetchFailed) => (
                Poll { phase: Phase::Idle },
                Action::Fail(CycleError::Fetch),
            ),
            (Phase::Fetching, Event::Documents(documents)) => match gather(documents, today) {
                Err(e) => (Poll { phase: Phase::Idle }, Action::Fail(CycleError::Date(e))),
                Ok(reservations) => Poll::turn_to(reservations, 0, settings, today),
            },
            (Phase::Syncing { reservations, position, progress }, Event::Reply(reply)) => {
                assert(reservation_views(reservations@).len() == reservations.len());
                match progress.advance(
                    &reservations[position],
                    settings.project_id.as_str(),
                    reply,
                    today,
                ) {
                    Step::Submit { progress, request } => (
                        Poll { phase: Phase::Syncing { reservations, position, progress } },
                        Action::Submit(request),
                    ),
                    Step::Done => Poll::turn_to(reservations, position + 1, settings, today),
                    Step::Abort(e) => (
                        Poll { phase: Phase::Idle },
                        Action::Fail(CycleError::Sync(e)),
                    ),
                }
            },
            (phase, _) => (Poll { phase }, Action::Wait),
        }
    }
}

} // verus!
