use llibres::books::{
    delete_response, storage_failure_response, Book, BookRequest, ErrorKind, StorageFailure,
};
use llibres::datetime::Timestamp;
use std::collections::HashMap;

fn request(title: &str) -> BookRequest {
    BookRequest {
        title: String::from(title),
        supertitle: Some(String::from("Chronicles")),
        rate: 9,
        status: 1,
        location: None,
        author: String::from("Frank Herbert"),
        publisher: String::from("Chilton"),
        language: String::from("en"),
        notes: Some(String::from("  kept as is  ")),
        kind: None,
        bought_at: None,
        updated_at: None,
    }
}

fn at(second: u32) -> Timestamp {
    Timestamp { year: 2021, month: 12, day: 1, hour: 9, minute: 20, second, nanosecond: 0 }
}

#[test]
fn created_title_is_trimmed() {
    let b = Book::assemble(&request("  Dune  "), 7, at(0));
    assert_eq!(b.title, "Dune");
    assert_eq!(b.id, 7);
    assert_eq!(b.created_at, at(0));
    assert_eq!(b.updated_at, Some(at(0)));
    assert_eq!(b.notes, Some(String::from("  kept as is  ")));
    assert_eq!(b.supertitle, Some(String::from("Chronicles")));
    assert_eq!(b.rate, 9);
    assert_eq!(b.author, "Frank Herbert");
}

#[test]
fn fresh_records_get_distinct_identities() {
    let a = Book::from_request(&request("\u{a0}Dune\n"));
    let b = Book::from_request(&request("Dune"));
    assert_ne!(a.id, b.id);
    assert_eq!(a.title, "Dune");
    assert_eq!(a.updated_at, Some(a.created_at));
}

#[test]
fn update_is_stamped_and_advances() {
    let mut rec = Book::assemble(&request("Dune"), 1, at(0));
    let mut req = request(" Dune Messiah ");
    req.updated_at = Some(at(59));
    req.prepare_update(at(5));
    assert_eq!(req.title, "Dune Messiah");
    assert_eq!(req.updated_at, Some(at(5)));
    assert_eq!(req.notes, Some(String::from("  kept as is  ")));
    let prior = rec.updated_at.unwrap();
    rec.updated_at = req.updated_at;
    assert!(prior.is_before(&rec.updated_at.unwrap()));
    assert!(!rec.updated_at.unwrap().is_before(&prior));
    assert!(!prior.is_before(&prior));
}

#[test]
fn touch_stamps_the_current_time() {
    let mut req = request("\tDune ");
    req.touch();
    assert_eq!(req.title, "Dune");
    let stamped = req.updated_at.unwrap();
    assert!(stamped.year >= 2020);
    assert!(at(0).is_before(&stamped));
    assert_eq!(req.rate, 9);
}

#[test]
fn delete_outcomes() {
    assert!(delete_response(Ok(1), "en").is_ok());
    let e = delete_response(Ok(0), "en").unwrap_err();
    assert_eq!(e.kind, ErrorKind::NotFound);
    assert_eq!(e.message, "not found");
    let e = delete_response(Ok(2), "ca").unwrap_err();
    assert_eq!(e.kind, ErrorKind::NotFound);
    assert_eq!(e.message, "no trobat");
    let e = delete_response(Err(StorageFailure), "ca").unwrap_err();
    assert_eq!(e.kind, ErrorKind::BadRequest);
    assert_eq!(e.message, "ups");
}

#[test]
fn deleting_twice_reports_missing() {
    let mut table: HashMap<u128, Book> = HashMap::new();
    table.insert(3, Book::assemble(&request("Dune"), 3, at(0)));
    let mut delete = |id: u128| delete_response(Ok(table.remove(&id).map_or(0, |_| 1)), "en");
    assert_eq!(delete(9).unwrap_err().kind, ErrorKind::NotFound);
    assert!(delete(3).is_ok());
    assert_eq!(delete(3).unwrap_err().kind, ErrorKind::NotFound);
}

#[test]
fn refused_write_is_a_bad_request() {
    let e = storage_failure_response("en");
    assert_eq!(e.kind, ErrorKind::BadRequest);
    assert_eq!(e.message, "unknown error");
    assert_eq!(storage_failure_response("ca").message, "error desconegut");
}
