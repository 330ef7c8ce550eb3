//! The mailbox side: the documents it returns and how each becomes a reservation.

use crate::calendar::Date;
use crate::http::{header, Method, Request, RequestView};
use crate::reservation::{Reservation, ReservationView};
use vstd::prelude::*;

verus! {

/// Access to one parsed mailbox.
#[derive(Debug)]
pub struct ParsioClient {
    api_key: String,
    mailbox_id: String,
}

/// Where the parsed documents of a mailbox are listed.
pub open spec fn mailbox_url(mailbox_id: Seq<char>) -> Seq<char> {
    "https://api.parsio.io/mailboxes/"@ + mailbox_id + "/parsed"@
}

impl ParsioClient {
    /// The key the client shows with each request.
    pub closed spec fn api_key(&self) -> Seq<char> {
        self.api_key@
    }

    /// The mailbox the client reads.
    pub closed spec fn mailbox_id(&self) -> Seq<char> {
        self.mailbox_id@
    }

    /// A client for the mailbox `mailbox_id` that shows `api_key`.
    pub fn new(api_key: String, mailbox_id: String) -> (r: ParsioClient)
        ensures
            r.api_key() == api_key@,
            r.mailbox_id() == mailbox_id@,
    {
        ParsioClient { api_key, mailbox_id }
    }

    /// The request that lists the parsed documents of the mailbox.
    pub fn mailbox_request(&self) -> (r: Request)
        ensures
            r@ == (RequestView {
                method: Method::Get,
                url: mailbox_url(self.mailbox_id()),
                headers: seq![
                    ("Accept"@, "application/json"@),
                    ("User-Agent"@, "burocrate"@),
                    ("X-API-Key"@, self.api_key()),
                ],
                bearer_token: None,
            }),
    {
        let mut url = String::from_str("https://api.parsio.io/mailboxes/");
        url.append(self.mailbox_id.as_str());
        url.append("/parsed");
        let mut headers = Vec::new();
        headers.push(header("Accept", "application/json"));
        headers.push(header("User-Agent", "burocrate"));
        headers.push(header("X-API-Key", self.api_key.as_str()));
        let r = Request { method: Method::Get, url, headers, bearer_token: None };
        assert(r@.headers =~= seq![
            ("Accept"@, "application/json"@),
            ("User-Agent"@, "burocrate"@),
            ("X-API-Key"@, self.api_key()),
        ]);
        r
    }
}

/// One page of parsed documents.
#[derive(Debug)]
pub struct ParsioResponse {
    pub limit: u64,
    pub page: u64,
    pub docs: Vec<ParsioDoc>,
}

impl ParsioResponse {
    /// The documents of the page.
    pub fn into_docs(self) -> (r: Vec<ParsioDoc>)
        ensures
            r == self.docs,
    {
        self.docs
    }
}

/// A booking notification as the mailbox parsed it: every field is text.
#[derive(Debug)]
pub struct ParsioDoc {
    pub guest_name: String,
    pub guest_location: String,
    pub check_in: String,
    pub checkout: String,
    pub booking_comment: String,
    pub number_of_guests: String,
    pub confirmation_code: String,
    pub guest_paid_total: String,
    pub host_payout: String,
    pub received_at_datetime: String,
}

/// What a `ParsioDoc` holds, as plain text.
pub struct ParsioDocView {
    pub guest_name: Seq<char>,
    pub guest_location: Seq<char>,
    pub check_in: Seq<char>,
    pub checkout: Seq<char>,
    pub booking_comment: Seq<char>,
    pub number_of_guests: Seq<char>,
    pub confirmation_code: Seq<char>,
    pub guest_paid_total: Seq<char>,
    pub host_payout: Seq<char>,
    pub received_at_datetime: Seq<char>,
}

impl View for ParsioDoc {
    type V = ParsioDocView;

    open spec fn view(&self) -> ParsioDocView {
        ParsioDocView {
            guest_name: self.guest_name@,
            guest_location: self.guest_location@,
            check_in: self.check_in@,
            checkout: self.checkout@,
            booking_comment: self.booking_comment@,
            number_of_guests: self.number_of_guests@,
            confirmation_code: self.confirmation_code@,
            guest_paid_total: self.guest_paid_total@,
            host_payout: self.host_payout@,
            received_at_datetime: self.received_at_datetime@,
        }
    }
}

/// Which of a document's two dates could not be read.
#[derive(Clone, Copy, Debug, PartialEq, Eq, Structural)]
pub enum DateError {
    /// The check-in text names no date.
    CheckIn,
    /// The checkout text names no date.
    Checkout,
}

impl DateError {
    /// The error in words.
    pub fn to_text(&self) -> (r: String)
        ensures
            r@ == "Could not parse a date"@,
    {
        String::from_str("Could not parse a date")
    }
}

impl ParsioDocView {
    /// The document in one sentence.
    pub open spec fn sentence(self) -> Seq<char> {
        self.guest_name + " has booked "@ + self.check_in + " to "@ + self.checkout + " for "@
            + self.number_of_guests + ". Payout "@ + self.host_payout
    }

    /// The reservation the document stands for, given what reading its two
    /// date texts gave: none where a date could not be read, the check-in
    /// looked at first.
    pub open spec fn reservation(self, check_in: Option<Date>, checkout: Option<Date>) -> Result<
        ReservationView,
        DateError,
    > {
        match (check_in, checkout) {
            (None, _) => Err(DateError::CheckIn),
            (Some(_), None) => Err(DateError::Checkout),
            (Some(arrival), Some(departure)) => Ok(
                ReservationView {
                    guest: self.guest_name,
                    origin: self.guest_location,
                    number_of_guests: self.number_of_guests,
                    check_in: arrival,
                    checkout: departure,
                    comment: self.booking_comment,
                    guest_paid: self.guest_paid_total,
                    host_payout: self.host_payout,
                    confirmation_code: self.confirmation_code,
                },
            ),
        }
    }
}

/// `r` seen through the views of what it holds.
pub open spec fn outcome_view(r: Result<Reservation, DateError>) -> Result<
    ReservationView,
    DateError,
> {
    match r {
        Ok(reservation) => Ok(reservation@),
        Err(e) => Err(e),
    }
}

impl ParsioDoc {
    /// The document in one sentence.
    pub fn to_text(&self) -> (r: String)
        ensures
            r@ == self@.sentence(),
    {
        let mut text = self.guest_name.clone();
        text.append(" has booked ");
        text.append(self.check_in.as_str());
        text.append(" to ");
        text.append(self.checkout.as_str());
        text.append(" for ");
        text.append(self.number_of_guests.as_str());
        text.append(". Payout ");
        text.append(self.host_payout.as_str());
        text
    }

    /// The reservation the document stands for. `check_in` and `checkout` are
    /// what reading the two date texts gave.
    pub fn into_reservation(self, check_in: Option<Date>, checkout: Option<Date>) -> (r: Result<
        Reservation,
        DateError,
    >)
        ensures
            outcome_view(r) == self@.reservation(check_in, checkout),
    {
        let check_in = match check_in {
            Some(date) => date,
            None => {
                return Err(DateError::CheckIn);
            },
        };
        let checkout = match checkout {
            Some(date) => date,
            None => {
                return Err(DateError::Checkout);
            },
        };
        Ok(
            Reservation {
                guest: self.guest_name,
                origin: self.guest_location,
                number_of_guests: self.number_of_guests,
                check_in,
                checkout,
                comment: self.booking_comment,
                guest_paid: self.guest_paid_total,
                host_payout: self.host_payout,
                confirmation_code: self.confirmation_code,
            },
        )
    }
}

} // verus!
