//! The tasks every reservation brings: one parent and eight sub-tasks.

use crate::reservation::{RenderError, Reservation, ReservationView};
use crate::task::{RelativeDate, Task, TaskView};
use vstd::prelude::*;

verus! {

/// The views of a list of tasks, in order.
pub open spec fn views(tasks: Seq<Task>) -> Seq<TaskView> {
    tasks.map_values(|task: Task| task@)
}

/// The title of the parent task: the guest and the stay.
pub open spec fn parent_title(reservation: ReservationView) -> Seq<char> {
    reservation.guest + " - "@ + reservation.duration()
}

/// The parent task of a reservation: due three days after checkout,
/// unassigned, with the base label alone.
pub open spec fn parent_of(reservation: ReservationView) -> TaskView {
    TaskView::drafted(
        parent_title(reservation),
        reservation,
        RelativeDate::AfterCheckout(3),
        None,
        None,
        false,
    )
}

/// The eight sub-tasks of a reservation, in the order they are submitted.
/// `alice` and `bob` are the two operators who each arrange their own lodging.
pub open spec fn sub_task_catalog(
    reservation: ReservationView,
    alice: Seq<char>,
    bob: Seq<char>,
) -> Seq<TaskView> {
    seq![
        TaskView::drafted(
            "Bestill vaskehjelp"@,
            reservation,
            RelativeDate::Immediately,
            None,
            Some("vaskehjelp"@),
            true,
        ),
        TaskView::drafted(
            "Fiks egen overnatting"@,
            reservation,
            RelativeDate::Immediately,
            Some(alice),
            Some("overnatting"@),
            true,
        ),
        TaskView::drafted(
            "Fiks egen overnatting"@,
            reservation,
            RelativeDate::Immediately,
            Some(bob),
            Some("overnatting"@),
            true,
        ),
        TaskView::drafted(
            "Opprett dørkode"@,
            reservation,
            RelativeDate::BeforeCheckIn(3),
            None,
            Some("yale"@),
            true,
        ),
        TaskView::drafted(
            "Klargjør leiligheten"@,
            reservation,
            RelativeDate::BeforeCheckIn(1),
            None,
            None,
            true,
        ),
        TaskView::drafted(
            "Send velkomstmelding"@,
            reservation,
            RelativeDate::BeforeCheckIn(1),
            None,
            None,
            true,
        ),
        TaskView::drafted(
            "Slett dørkode"@,
            reservation,
            RelativeDate::AfterCheckout(2),
            None,
            Some("yale"@),
            true,
        ),
        TaskView::drafted(
            "Følg opp anmeldelse"@,
            reservation,
            RelativeDate::AfterCheckout(3),
            None,
            None,
            true,
        ),
    ]
}

/// Every reservation has eight sub-tasks, whatever it holds; each carries the
/// guest's name after its title, the reservation's description, and the base
/// label first.
pub proof fn lemma_catalog_shape(reservation: ReservationView, alice: Seq<char>, bob: Seq<char>)
    ensures
        sub_task_catalog(reservation, alice, bob).len() == 8,
        forall|i: int|
            0 <= i < 8 ==> {
                let task = #[trigger] sub_task_catalog(reservation, alice, bob)[i];
                &&& task.description == reservation.description()
                &&& task.well_labelled()
                &&& task.title.len() >= reservation.guest.len()
                &&& task.title.subrange(
                    task.title.len() - reservation.guest.len(),
                    task.title.len() as int,
                ) == reservation.guest
            },
{
    let catalog = sub_task_catalog(reservation, alice, bob);
    assert forall|i: int| 0 <= i < 8 implies {
        let task = #[trigger] catalog[i];
        &&& task.description == reservation.description()
        &&& task.well_labelled()
        &&& task.title.len() >= reservation.guest.len()
        &&& task.title.subrange(
            task.title.len() - reservation.guest.len(),
            task.title.len() as int,
        ) == reservation.guest
    } by {
        let task = catalog[i];
        assert(task.title.subrange(
            task.title.len() - reservation.guest.len(),
            task.title.len() as int,
        ) =~= reservation.guest);
    }
}

/// Drawing up the tasks of a reservation twice gives the same tasks: what
/// `parent_task` and `get_sub_tasks` return is fixed by what the reservation
/// and the two operators' identifiers hold.
pub proof fn lemma_same_reservation_same_tasks(
    one: Reservation,
    other: Reservation,
    alice: Seq<char>,
    bob: Seq<char>,
    first_parent: Task,
    second_parent: Task,
    first_children: Seq<Task>,
    second_children: Seq<Task>,
)
    requires
        one@ == other@,
        first_parent@ == parent_of(one@),
        second_parent@ == parent_of(other@),
        views(first_children) == sub_task_catalog(one@, alice, bob),
        views(second_children) == sub_task_catalog(other@, alice, bob),
    ensures
        first_parent@ == second_parent@,
        first_children.len() == second_children.len(),
        forall|i: int|
            0 <= i < first_children.len() ==> (#[trigger] first_children[i])@
                == second_children[i]@,
{
    assert(views(first_children).len() == first_children.len());
    assert(views(second_children).len() == second_children.len());
    assert forall|i: int| 0 <= i < first_children.len() implies (#[trigger] first_children[i])@
        == second_children[i]@ by {
        assert(views(first_children)[i] == first_children[i]@);
        assert(views(second_children)[i] == second_children[i]@);
    }
}

/// The parent task of `reservation`.
pub fn parent_task(reservation: &Reservation) -> (r: Result<Task, RenderError>)
    ensures
        r matches Ok(task) && task@ == parent_of(reservation@),
{
    let mut title = reservation.guest.clone();
    let duration = reservation.get_duration();
    title.append(" - ");
    title.append(duration.as_str());
    Task::new(title.as_str(), reservation, RelativeDate::AfterCheckout(3), None, None, false)
}

/// The eight sub-tasks of `reservation`, in catalog order.
pub fn get_sub_tasks(reservation: &Reservation, alice_id: &str, bob_id: &str) -> (r: Result<
    Vec<Task>,
    RenderError,
>)
    ensures
        r matches Ok(tasks) && tasks.len() == 8 && views(tasks@) == sub_task_catalog(
            reservation@,
            alice_id@,
            bob_id@,
        ),
{
    let mut tasks: Vec<Task> = Vec::new();
    tasks.push(
        Task::new(
            "Bestill vaskehjelp",
            reservation,
            RelativeDate::Immediately,
            None,
            Some("vaskehjelp"),
            true,
        )?,
    );
    tasks.push(
        Task::new(
            "Fiks egen overnatting",
            reservation,
            RelativeDate::Immediately,
            Some(String::from_str(alice_id)),
            Some("overnatting"),
            true,
        )?,
    );
    tasks.push(
        Task::new(
            "Fiks egen overnatting",
            reservation,
            RelativeDate::Immediately,
            Some(String::from_str(bob_id)),
            Some("overnatting"),
            true,
        )?,
    );
    tasks.push(
        Task::new(
            "Opprett dørkode",
            reservation,
            RelativeDate::BeforeCheckIn(3),
            None,
            Some("yale"),
            true,
        )?,
    );
    tasks.push(
        Task::new(
            "Klargjør leiligheten",
            reservation,
            RelativeDate::BeforeCheckIn(1),
            None,
            None,
            true,
        )?,
    );
    tasks.push(
        Task::new(
            "Send velkomstmelding",
            reservation,
            RelativeDate::BeforeCheckIn(1),
            None,
            None,
            true,
        )?,
    );
    tasks.push(
        Task::new(
            "Slett dørkode",
            reservation,
            RelativeDate::AfterCheckout(2),
            None,
            Some("yale"),
            true,
        )?,
    );
    tasks.push(
        Task::new(
            "Følg opp anmeldelse",
            reservation,
            RelativeDate::AfterCheckout(3),
            None,
            None,
            true,
        )?,
    );
    assert(views(tasks@) =~= sub_task_catalog(reservation@, alice_id@, bob_id@));
    Ok(tasks)
}

} // verus!
