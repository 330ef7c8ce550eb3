//! Submitting the tasks of one reservation: the parent first, then each
//! sub-task under the identifier the tracker gave the parent.
//!
//! Nothing here talks to the tracker. `Progress` says which submission is
//! under way; the caller sends the request it is handed and brings back the
//! tracker's answer.

use crate::calendar::Date;
use crate::catalog::{get_sub_tasks, parent_of, parent_task, sub_task_catalog, views};
use crate::reservation::{RenderError, Reservation, ReservationView};
use crate::task::{Task, TaskView};
use crate::todoist::{TodoistTask, TodoistTaskView};
use vstd::prelude::*;

verus! {

/// What the tracker answered to a submission.
#[derive(Debug)]
pub enum SinkReply {
    /// The task as the tracker stored it.
    Created(TodoistTask),
    /// The submission did not go through.
    Failed,
}

/// A `SinkReply` as plain text.
pub enum SinkReplyView {
    Created(TodoistTaskView),
    Failed,
}

impl View for SinkReply {
    type V = SinkReplyView;

    open spec fn view(&self) -> SinkReplyView {
        match self {
            SinkReply::Created(task) => SinkReplyView::Created(task@),
            SinkReply::Failed => SinkReplyView::Failed,
        }
    }
}

/// Why the submissions of a reservation stopped early.
#[derive(Clone, Copy, Debug, PartialEq, Eq, Structural)]
pub enum SyncError {
    /// The tracker stored the parent but returned no identifier for it.
    MissingParentId,
    /// The tracker did not take a submission.
    Rejected,
}

impl SyncError {
    /// The error in words.
    pub open spec fn phrase(self) -> Seq<char> {
        match self {
            SyncError::MissingParentId => "Missing Todoist parent ID"@,
            SyncError::Rejected => "Todoist did not accept the task"@,
        }
    }

    /// The error in words.
    pub fn to_text(&self) -> (r: String)
        ensures
            r@ == self.phrase(),
    {
        match self {
            SyncError::MissingParentId => String::from_str("Missing Todoist parent ID"),
            SyncError::Rejected => String::from_str("Todoist did not accept the task"),
        }
    }
}

/// Which submission is under way.
#[derive(Debug)]
enum Stage {
    /// The parent has been handed out; its identifier is not known yet.
    Parent,
    /// The sub-task at `index` has been handed out under `parent_id`.
    Child { parent_id: String, index: usize },
}

/// Which submission is under way, as plain text.
pub enum StageView {
    Parent,
    Child { parent_id: Seq<char>, index: nat },
}

impl View for Stage {
    type V = StageView;

    closed spec fn view(&self) -> StageView {
        match self {
            Stage::Parent => StageView::Parent,
            Stage::Child { parent_id, index } => StageView::Child {
                parent_id: parent_id@,
                index: *index as nat,
            },
        }
    }
}

/// What the caller does next for the reservation.
#[derive(Debug)]
pub enum Step {
    /// Send the request and bring back the answer, to go on from `progress`.
    Submit { progress: Progress, request: TodoistTask },
    /// Every task of the reservation has been submitted.
    Done,
    /// Stop: nothing more is submitted for the reservation.
    Abort(SyncError),
}

/// A `Step` as plain text.
pub enum StepView {
    Submit { progress: ProgressView, request: TodoistTaskView },
    Done,
    Abort(SyncError),
}

impl View for Step {
    type V = StepView;

    open spec fn view(&self) -> StepView {
        match self {
            Step::Submit { progress, request } => StepView::Submit {
                progress: progress@,
                request: request@,
            },
            Step::Done => StepView::Done,
            Step::Abort(e) => StepView::Abort(*e),
        }
    }
}

/// The submissions of one reservation, part of the way through.
#[derive(Debug)]
pub struct Progress {
    children: Vec<Task>,
    stage: Stage,
}

/// What a `Progress` holds: the sub-tasks in order, and the stage.
pub struct ProgressView {
    pub children: Seq<TaskView>,
    pub stage: StageView,
}

impl View for Progress {
    type V = ProgressView;

    closed spec fn view(&self) -> ProgressView {
        ProgressView { children: views(self.children@), stage: self.stage@ }
    }
}

impl ProgressView {
    /// A sub-task that is under way is one of the sub-tasks.
    pub open spec fn well_formed(self) -> bool {
        match self.stage {
            StageView::Parent => true,
            StageView::Child { parent_id, index } => index < self.children.len(),
        }
    }

    /// Where a reservation starts: its sub-tasks drawn up, the parent handed out.
    pub open spec fn begun(
        reservation: ReservationView,
        alice: Seq<char>,
        bob: Seq<char>,
    ) -> ProgressView {
        ProgressView {
            children: sub_task_catalog(reservation, alice, bob),
            stage: StageView::Parent,
        }
    }

    /// Handing out the sub-task at `index` under `parent_id`, or finishing
    /// where no sub-task is left.
    pub open spec fn handed_out(
        self,
        index: nat,
        parent_id: Seq<char>,
        reservation: ReservationView,
        project_id: Seq<char>,
        today: Date,
    ) -> StepView {
        if index < self.children.len() {
            StepView::Submit {
                progress: ProgressView {
                    children: self.children,
                    stage: StageView::Child { parent_id, index },
                },
                request: self.children[index as int].request(
                    reservation,
                    Some(parent_id),
                    project_id,
                    today,
                ),
            }
        } else {
            StepView::Done
        }
    }

    /// What follows the tracker's answer to the submission under way. A
    /// failed submission aborts. A parent stored without an identifier aborts.
    /// Otherwise the next sub-task goes out under the parent's identifier,
    /// with the due date that holds on `today`, until none is left.
    pub open spec fn advanced(
        self,
        reservation: ReservationView,
        project_id: Seq<char>,
        reply: SinkReplyView,
        today: Date,
    ) -> StepView {
        match reply {
            SinkReplyView::Failed => StepView::Abort(SyncError::Rejected),
            SinkReplyView::Created(stored) => match self.stage {
                StageView::Parent => match stored.id {
                    None => StepView::Abort(SyncError::MissingParentId),
                    Some(id) => self.handed_out(0, id, reservation, project_id, today),
                },
                StageView::Child { parent_id, index } => self.handed_out(
                    index + 1,
                    parent_id,
                    reservation,
                    project_id,
                    today,
                ),
            },
        }
    }
}

/// A parent that the tracker stored without an identifier ends the
/// reservation: nothing is handed out after it.
pub proof fn lemma_parent_without_identifier_aborts(
    progress: ProgressView,
    reservation: ReservationView,
    project_id: Seq<char>,
    stored: TodoistTaskView,
    today: Date,
)
    requires
        progress.stage is Parent,
        stored.id is None,
    ensures
        progress.advanced(reservation, project_id, SinkReplyView::Created(stored), today)
            == StepView::Abort(SyncError::MissingParentId),
{
}

/// A submission that fails ends the reservation, whichever was under way.
pub proof fn lemma_failed_submission_aborts(
    progress: ProgressView,
    reservation: ReservationView,
    project_id: Seq<char>,
    today: Date,
)
    ensures
        progress.advanced(reservation, project_id, SinkReplyView::Failed, today)
            == StepView::Abort(SyncError::Rejected),
{
}

/// Every sub-task goes out under the identifier the tracker gave the parent,
/// and the sub-tasks go out in their order: the first after the parent, each
/// other one after the one before it.
pub proof fn lemma_children_follow_in_order(
    progress: ProgressView,
    reservation: ReservationView,
    project_id: Seq<char>,
    stored: TodoistTaskView,
    today: Date,
)
    requires
        progress.well_formed(),
        progress.stage is Parent ==> stored.id is Some,
    ensures
        ({
            let (parent_id, index) = match progress.stage {
                StageView::Parent => (stored.id->0, 0nat),
                StageView::Child { parent_id, index } => (parent_id, index + 1),
            };
            let step = progress.advanced(
                reservation,
                project_id,
                SinkReplyView::Created(stored),
                today,
            );
            if index < progress.children.len() {
                &&& step matches StepView::Submit { progress: after, request }
                &&& after.well_formed()
                &&& after.children == progress.children
                &&& after.stage == (StageView::Child { parent_id, index })
                &&& request.parent_id == Some(parent_id)
                &&& request == progress.children[index as int].request(
                    reservation,
                    Some(parent_id),
                    project_id,
                    today,
                )
            } else {
                step == StepView::Done
            }
        }),
{
}

impl Progress {
    /// The sub-task under way, if one is, is one of the sub-tasks.
    #[verifier::type_invariant]
    pub closed spec fn well_formed(&self) -> bool {
        self@.well_formed()
    }

    /// Draws up the tasks of `reservation` and hands out the parent's request.
    /// `alice_id` and `bob_id` are the two operators the lodging tasks go to.
    pub fn begin(
        reservation: &Reservation,
        project_id: &str,
        alice_id: &str,
        bob_id: &str,
        today: Date,
    ) -> (r: Result<(Progress, TodoistTask), RenderError>)
        ensures
            r matches Ok((progress, request)) && progress@ == ProgressView::begun(
                reservation@,
                alice_id@,
                bob_id@,
            ) && request@ == parent_of(reservation@).request(
                reservation@,
                None,
                project_id@,
                today,
            ),
    {
        let parent = parent_task(reservation)?;
        let children = get_sub_tasks(reservation, alice_id, bob_id)?;
        let request = parent.to_todoist(reservation, None, project_id, today);
        Ok((Progress { children, stage: Stage::Parent }, request))
    }

    /// Takes the tracker's answer to the submission under way and says what
    /// comes next.
    pub fn advance(
        self,
        reservation: &Reservation,
        project_id: &str,
        reply: SinkReply,
        today: Date,
    ) -> (r: Step)
        ensures
            r@ == self@.advanced(reservation@, project_id@, reply@, today),
    {
        proof {
            use_type_invariant(&self);
        }
        let stored = match reply {
            SinkReply::Failed => {
                return Step::Abort(SyncError::Rejected);
            },
            SinkReply::Created(stored) => stored,
        };
        let Progress { children, stage } = self;
        assert(views(children@).len() == children.len());
        let (parent_id, index) = match stage {
            Stage::Parent => match stored.id {
                None => {
                    return Step::Abort(SyncError::MissingParentId);
                },
                Some(id) => (id, 0),
            },
            Stage::Child { parent_id, index } => (parent_id, index + 1),
        };
        if index < children.len() {
            let request = children[index].to_todoist(
                reservation,
                Some(&parent_id),
                project_id,
                today,
            );
            Step::Submit {
                progress: Progress { children, stage: Stage::Child { parent_id, index } },
                request,
            }
        } else {
            Step::Done
        }
    }

    /// How many sub-tasks the reservation has.
    pub fn child_count(&self) -> (r: usize)
        ensures
            r == self@.children.len(),
    {
        self.children.len()
    }
}

} // verus!
