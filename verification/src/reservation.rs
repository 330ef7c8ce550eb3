//! A booking, and the texts that present it.

use crate::builder::{empty_builder, finish, push_text};
use crate::calendar::Date;
use crate::text::{day_and_month_text, day_text, iso_date_text};
use vstd::prelude::*;

verus! {

/// A booking with its dates resolved.
#[derive(Debug)]
pub struct Reservation {
    pub guest: String,
    pub origin: String,
    pub number_of_guests: String,
    pub check_in: Date,
    pub checkout: Date,
    pub comment: String,
    pub guest_paid: String,
    pub host_payout: String,
    pub confirmation_code: String,
}

/// What a `Reservation` holds, as plain text and dates.
pub struct ReservationView {
    pub guest: Seq<char>,
    pub origin: Seq<char>,
    pub number_of_guests: Seq<char>,
    pub check_in: Date,
    pub checkout: Date,
    pub comment: Seq<char>,
    pub guest_paid: Seq<char>,
    pub host_payout: Seq<char>,
    pub confirmation_code: Seq<char>,
}

impl View for Reservation {
    type V = ReservationView;

    open spec fn view(&self) -> ReservationView {
        ReservationView {
            guest: self.guest@,
            origin: self.origin@,
            number_of_guests: self.number_of_guests@,
            check_in: self.check_in,
            checkout: self.checkout,
            comment: self.comment@,
            guest_paid: self.guest_paid@,
            host_payout: self.host_payout@,
            confirmation_code: self.confirmation_code@,
        }
    }
}

/// Why a description could not be put together.
#[derive(Clone, Copy, Debug, PartialEq, Eq, Structural)]
pub enum RenderError {
    /// The assembled bytes were not valid UTF-8.
    InvalidUtf8,
}

/// One bullet of a description: the label, the value, and a line break.
pub open spec fn bullet(label: Seq<char>, value: Seq<char>) -> Seq<char> {
    label + value + seq!['\n']
}

impl ReservationView {
    /// Both dates are days that exist.
    pub open spec fn well_formed(self) -> bool {
        self.check_in.well_formed() && self.checkout.well_formed()
    }

    /// The check-in as `YYYY-MM-DD`.
    pub open spec fn check_in_text(self) -> Seq<char> {
        iso_date_text(
            self.check_in.year() as int,
            self.check_in.month() as int,
            self.check_in.day() as int,
        )
    }

    /// The checkout as `YYYY-MM-DD`.
    pub open spec fn checkout_text(self) -> Seq<char> {
        iso_date_text(
            self.checkout.year() as int,
            self.checkout.month() as int,
            self.checkout.day() as int,
        )
    }

    /// The bullet list that summarises the booking: one bullet for each of
    /// the nine fields.
    pub open spec fn description(self) -> Seq<char> {
        bullet("- **Gjest**: "@, self.guest) + bullet("- **Gjester**: "@, self.number_of_guests)
            + bullet("- **Innsjekk**: "@, self.check_in_text()) + bullet(
            "- **Utsjekk**: "@,
            self.checkout_text(),
        ) + bullet("- **Bosted**: "@, self.origin) + bullet("- **Kommentar**: "@, self.comment)
            + bullet("- **Betalt**: "@, self.guest_paid) + bullet(
            "- **Payout**: "@,
            self.host_payout,
        ) + bullet("- **Confirmation**: "@, self.confirmation_code)
    }

    /// Whether both dates lie in one month of one year.
    pub open spec fn within_one_month(self) -> bool {
        self.check_in.year() == self.checkout.year() && self.check_in.month()
            == self.checkout.month()
    }

    /// The stay on one line: the month of the check-in is left out where the
    /// checkout falls in the same month of the same year.
    pub open spec fn duration(self) -> Seq<char> {
        (if self.within_one_month() {
            day_text(self.check_in.day() as int)
        } else {
            day_and_month_text(self.check_in.month() as int, self.check_in.day() as int)
        }) + " til "@ + day_and_month_text(
            self.checkout.month() as int,
            self.checkout.day() as int,
        )
    }

    /// The booking in one sentence.
    pub open spec fn sentence(self) -> Seq<char> {
        self.guest + " has booked "@ + self.check_in_text() + " through "@
            + self.checkout_text() + " for "@ + self.number_of_guests + ". Payout "@
            + self.host_payout
    }
}

/// Whether `part` stands somewhere in `text`, unbroken.
pub open spec fn holds(text: Seq<char>, part: Seq<char>) -> bool {
    exists|start: int|
        0 <= start && start + part.len() <= text.len() && #[trigger] text.subrange(
            start,
            start + part.len(),
        ) == part
}

/// What stands between two texts stands in the whole.
proof fn lemma_middle_is_held(before: Seq<char>, part: Seq<char>, after: Seq<char>)
    ensures
        holds(before + part + after, part),
{
    let text = before + part + after;
    assert(text.subrange(before.len() as int, (before.len() + part.len()) as int) =~= part);
}

/// What stands in a text stands in any text built around it.
proof fn lemma_held_in_longer(
    before: Seq<char>,
    text: Seq<char>,
    after: Seq<char>,
    part: Seq<char>,
)
    requires
        holds(text, part),
    ensures
        holds(before + text + after, part),
{
    let start = choose|start: int|
        0 <= start && start + part.len() <= text.len() && #[trigger] text.subrange(
            start,
            start + part.len(),
        ) == part;
    let whole = before + text + after;
    assert(whole.subrange(before.len() + start, before.len() + start + part.len()) =~= part);
}

/// The value of a bullet stands in any text that the bullet stands in.
proof fn lemma_bullet_value_is_held(
    before: Seq<char>,
    label: Seq<char>,
    value: Seq<char>,
    after: Seq<char>,
)
    ensures
        holds(before + bullet(label, value) + after, value),
{
    lemma_middle_is_held(label, value, seq!['\n']);
    lemma_held_in_longer(before, bullet(label, value), after, value);
}

/// The description leaves no field out: the text of each of the nine stands in it.
pub proof fn lemma_description_holds_every_field(reservation: ReservationView)
    ensures
        holds(reservation.description(), reservation.guest),
        holds(reservation.description(), reservation.number_of_guests),
        holds(reservation.description(), reservation.check_in_text()),
        holds(reservation.description(), reservation.checkout_text()),
        holds(reservation.description(), reservation.origin),
        holds(reservation.description(), reservation.comment),
        holds(reservation.description(), reservation.guest_paid),
        holds(reservation.description(), reservation.host_payout),
        holds(reservation.description(), reservation.confirmation_code),
{
    let r = reservation;
    let all = r.description();
    let none = Seq::<char>::empty();
    let b1 = bullet("- **Gjest**: "@, r.guest);
    let b2 = bullet("- **Gjester**: "@, r.number_of_guests);
    let b3 = bullet("- **Innsjekk**: "@, r.check_in_text());
    let b4 = bullet("- **Utsjekk**: "@, r.checkout_text());
    let b5 = bullet("- **Bosted**: "@, r.origin);
    let b6 = bullet("- **Kommentar**: "@, r.comment);
    let b7 = bullet("- **Betalt**: "@, r.guest_paid);
    let b8 = bullet("- **Payout**: "@, r.host_payout);
    let b9 = bullet("- **Confirmation**: "@, r.confirmation_code);
    assert(holds(all, r.guest)) by {
        lemma_bullet_value_is_held(none, "- **Gjest**: "@, r.guest, b2 + b3 + b4 + b5 + b6 + b7 + b8 + b9);
        assert(all =~= (none) + b1 + (b2 + b3 + b4 + b5 + b6 + b7 + b8 + b9));
    }
    assert(holds(all, r.number_of_guests)) by {
        lemma_bullet_value_is_held(b1, "- **Gjester**: "@, r.number_of_guests, b3 + b4 + b5 + b6 + b7 + b8 + b9);
        assert(all =~= (b1) + b2 + (b3 + b4 + b5 + b6 + b7 + b8 + b9));
    }
    assert(holds(all, r.check_in_text())) by {
        lemma_bullet_value_is_held(b1 + b2, "- **Innsjekk**: "@, r.check_in_text(), b4 + b5 + b6 + b7 + b8 + b9);
        assert(all =~= (b1 + b2) + b3 + (b4 + b5 + b6 + b7 + b8 + b9));
    }
    assert(holds(all, r.checkout_text())) by {
        lemma_bullet_value_is_held(b1 + b2 + b3, "- **Utsjekk**: "@, r.checkout_text(), b5 + b6 + b7 + b8 + b9);
        assert(all =~= (b1 + b2 + b3) + b4 + (b5 + b6 + b7 + b8 + b9));
    }
    assert(holds(all, r.origin)) by {
        lemma_bullet_value_is_held(b1 + b2 + b3 + b4, "- **Bosted**: "@, r.origin, b6 + b7 + b8 + b9);
        assert(all =~= (b1 + b2 + b3 + b4) + b5 + (b6 + b7 + b8 + b9));
    }
    assert(holds(all, r.comment)) by {
        lemma_bullet_value_is_held(b1 + b2 + b3 + b4 + b5, "- **Kommentar**: "@, r.comment, b7 + b8 + b9);
        assert(all =~= (b1 + b2 + b3 + b4 + b5) + b6 + (b7 + b8 + b9));
    }
    assert(holds(all, r.guest_paid)) by {
        lemma_bullet_value_is_held(b1 + b2 + b3 + b4 + b5 + b6, "- **Betalt**: "@, r.guest_paid, b8 + b9);
        assert(all =~= (b1 + b2 + b3 + b4 + b5 + b6) + b7 + (b8 + b9));
    }
    assert(holds(all, r.host_payout)) by {
        lemma_bullet_value_is_held(b1 + b2 + b3 + b4 + b5 + b6 + b7, "- **Payout**: "@, r.host_payout, b9);
        assert(all =~= (b1 + b2 + b3 + b4 + b5 + b6 + b7) + b8 + (b9));
    }
    assert(holds(all, r.confirmation_code)) by {
        lemma_bullet_value_is_held(b1 + b2 + b3 + b4 + b5 + b6 + b7 + b8, "- **Confirmation**: "@, r.confirmation_code, none);
        assert(all =~= (b1 + b2 + b3 + b4 + b5 + b6 + b7 + b8) + b9 + (none));
    }
}

/// Label, value and line break as one string.
fn bullet_line(label: &str, value: &str) -> (r: String)
    ensures
        r@ == bullet(label@, value@),
{
    proof {
        reveal_strlit("\n");
    }
    let mut line = String::from_str(label);
    line.append(value);
    line.append("\n");
    assert(line@ =~= bullet(label@, value@));
    line
}

impl Reservation {
    /// The bullet list that summarises the booking.
    pub fn get_description(&self) -> (r: Result<String, RenderError>)
        ensures
            r matches Ok(text) && text@ == self@.description(),
    {
        let check_in = self.check_in.to_text();
        let checkout = self.checkout.to_text();
        let mut builder = empty_builder();
        let ghost mut held = Seq::<char>::empty();
        let line = bullet_line("- **Gjest**: ", self.guest.as_str());
        push_text(&mut builder, line, Ghost(held));
        proof {
            held = held + bullet("- **Gjest**: "@, self.guest@);
        }
        let line = bullet_line("- **Gjester**: ", self.number_of_guests.as_str());
        push_text(&mut builder, line, Ghost(held));
        proof {
            held = held + bullet("- **Gjester**: "@, self.number_of_guests@);
        }
        let line = bullet_line("- **Innsjekk**: ", check_in.as_str());
        push_text(&mut builder, line, Ghost(held));
        proof {
            held = held + bullet("- **Innsjekk**: "@, check_in@);
        }
        let line = bullet_line("- **Utsjekk**: ", checkout.as_str());
        push_text(&mut builder, line, Ghost(held));
        proof {
            held = held + bullet("- **Utsjekk**: "@, checkout@);
        }
        let line = bullet_line("- **Bosted**: ", self.origin.as_str());
        push_text(&mut builder, line, Ghost(held));
        proof {
            held = held + bullet("- **Bosted**: "@, self.origin@);
        }
        let line = bullet_line("- **Kommentar**: ", self.comment.as_str());
        push_text(&mut builder, line, Ghost(held));
        proof {
            held = held + bullet("- **Kommentar**: "@, self.comment@);
        }
        let line = bullet_line("- **Betalt**: ", self.guest_paid.as_str());
        push_text(&mut builder, line, Ghost(held));
        proof {
            held = held + bullet("- **Betalt**: "@, self.guest_paid@);
        }
        let line = bullet_line("- **Payout**: ", self.host_payout.as_str());
        push_text(&mut builder, line, Ghost(held));
        proof {
            held = held + bullet("- **Payout**: "@, self.host_payout@);
        }
        let line = bullet_line("- **Confirmation**: ", self.confirmation_code.as_str());
        push_text(&mut builder, line, Ghost(held));
        proof {
            held = held + bullet("- **Confirmation**: "@, self.confirmation_code@);
            assert(held =~= self@.description());
        }
        match finish(builder, Ghost(held)) {
            Ok(text) => Ok(text),
            Err(_) => Err(RenderError::InvalidUtf8),
        }
    }

    /// The stay on one line, as in `5. til 10. Jun` or `30. May til 2. Jun`.
    pub fn get_duration(&self) -> (r: String)
        ensures
            r@ == self@.duration(),
    {
        let mut text = if self.check_in.year() == self.checkout.year() && self.check_in.month()
            == self.checkout.month() {
            self.check_in.day_text()
        } else {
            self.check_in.day_and_month_text()
        };
        let checkout = self.checkout.day_and_month_text();
        text.append(" til ");
        text.append(checkout.as_str());
        assert(text@ =~= self@.duration());
        text
    }

    /// The booking in one sentence.
    pub fn to_text(&self) -> (r: String)
        ensures
            r@ == self@.sentence(),
    {
        let check_in = self.check_in.to_text();
        let checkout = self.checkout.to_text();
        let mut text = self.guest.clone();
        text.append(" has booked ");
        text.append(check_in.as_str());
        text.append(" through ");
        text.append(checkout.as_str());
        text.append(" for ");
        text.append(self.number_of_guests.as_str());
        text.append(". Payout ");
        text.append(self.host_payout.as_str());
        text
    }
}

} // verus!
