use burocrate::calendar::Date;
use burocrate::http::{Method, Request};
use burocrate::parsio::{DateError, ParsioClient, ParsioDoc, ParsioResponse};
use chrono::{Datelike, NaiveDate, Utc};
use date_time_parser::DateParser;

fn headers(request: &Request) -> Vec<(String, String)> {
    request.headers.iter().map(|h| (h.name.clone(), h.value.clone())).collect()
}

fn pair(name: &str, value: &str) -> (String, String) {
    (String::from(name), String::from(value))
}

fn document(check_in: &str, checkout: &str) -> ParsioDoc {
    ParsioDoc {
        guest_name: String::from("Ola Nordmann"),
        guest_location: String::from("Oslo"),
        check_in: String::from(check_in),
        checkout: String::from(checkout),
        booking_comment: String::from("Hei!"),
        number_of_guests: String::from("2"),
        confirmation_code: String::from("HM1"),
        guest_paid_total: String::from("5000"),
        host_payout: String::from("4000"),
        received_at_datetime: String::from("2024-05-01T10:00:00"),
    }
}

fn read(text: &str) -> Option<Date> {
    let parsed: Option<NaiveDate> = DateParser::parse(text);
    parsed.and_then(|d| Date::new(d.year(), d.month(), d.day()))
}

#[test]
fn the_mailbox_is_listed_with_a_keyed_get() {
    let client = ParsioClient::new(String::from("k3y"), String::from("box42"));
    let request = client.mailbox_request();
    assert_eq!(request.method, Method::Get);
    assert_eq!(request.url, "https://api.parsio.io/mailboxes/box42/parsed");
    assert_eq!(
        headers(&request),
        vec![
            pair("Accept", "application/json"),
            pair("User-Agent", "burocrate"),
            pair("X-API-Key", "k3y"),
        ]
    );
    assert_eq!(request.bearer_token, None);
}

#[test]
fn a_response_hands_over_its_documents() {
    let response = ParsioResponse {
        limit: 100,
        page: 1,
        docs: vec![document("June 5", "June 10"), document("July 1", "July 3")],
    };
    let docs = response.into_docs();
    assert_eq!(docs.len(), 2);
    assert_eq!(docs[0].check_in, "June 5");
    assert_eq!(docs[1].checkout, "July 3");
}

#[test]
fn a_document_reads_as_one_sentence() {
    assert_eq!(
        document("June 5", "June 10").to_text(),
        "Ola Nordmann has booked June 5 to June 10 for 2. Payout 4000"
    );
}

#[test]
fn a_document_with_both_dates_becomes_a_reservation() {
    let reservation = document("June 5", "June 10")
        .into_reservation(Date::new(2024, 6, 5), Date::new(2024, 6, 10))
        .unwrap();
    assert_eq!(reservation.guest, "Ola Nordmann");
    assert_eq!(reservation.origin, "Oslo");
    assert_eq!(reservation.number_of_guests, "2");
    assert_eq!(Some(reservation.check_in), Date::new(2024, 6, 5));
    assert_eq!(Some(reservation.checkout), Date::new(2024, 6, 10));
    assert_eq!(reservation.comment, "Hei!");
    assert_eq!(reservation.guest_paid, "5000");
    assert_eq!(reservation.host_payout, "4000");
    assert_eq!(reservation.confirmation_code, "HM1");
}

#[test]
fn a_document_without_a_date_is_turned_down() {
    let day = Date::new(2024, 6, 5);
    assert_eq!(
        document("?", "June 10").into_reservation(None, day).err(),
        Some(DateError::CheckIn)
    );
    assert_eq!(
        document("June 5", "?").into_reservation(day, None).err(),
        Some(DateError::Checkout)
    );
    assert_eq!(document("?", "?").into_reservation(None, None).err(), Some(DateError::CheckIn));
    assert_eq!(DateError::CheckIn.to_text(), "Could not parse a date");
    assert_eq!(DateError::Checkout.to_text(), "Could not parse a date");
}

#[test]
fn dates_in_words_are_read_against_the_current_year() {
    let year = Utc::now().year();
    let reservation = document("June 5th", "Jun 10")
        .into_reservation(read("June 5th"), read("Jun 10"))
        .unwrap();
    assert_eq!(Some(reservation.check_in), Date::new(year, 6, 5));
    assert_eq!(Some(reservation.checkout), Date::new(year, 6, 10));
    assert_eq!(reservation.get_duration(), "5. til 10. Jun");
}

#[test]
fn a_checkout_that_names_no_date_is_turned_down() {
    let doc = document("June 5", "sometime next week");
    let check_in = read(&doc.check_in);
    let checkout = read(&doc.checkout);
    assert!(check_in.is_some());
    assert_eq!(checkout, None);
    assert_eq!(doc.into_reservation(check_in, checkout).err(), Some(DateError::Checkout));
}
