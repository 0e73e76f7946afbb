use reading_log::book::Book;
use reading_log::status::{parse_status, Status};

const STATUS_ERROR: &str = "Invalid status. Use one of the following: done | reading | want";

fn fixed_now() -> String {
    "2030-05-06 07:08:09 UTC".to_string()
}

#[test]
fn status_absent_is_reading() {
    assert_eq!(Ok(Status::Reading), parse_status(None));
}

#[test]
fn status_tokens_map_to_their_variants() {
    assert_eq!(Ok(Status::Done), parse_status(Some("done".to_string())));
    assert_eq!(Ok(Status::Reading), parse_status(Some("reading".to_string())));
    assert_eq!(Ok(Status::WantToRead), parse_status(Some("want".to_string())));
}

#[test]
fn status_unknown_token_lists_valid_tokens() {
    assert_eq!(Err(STATUS_ERROR.to_string()), parse_status(Some("bogus".to_string())));
}

#[test]
fn status_match_is_case_sensitive() {
    assert_eq!(Err(STATUS_ERROR.to_string()), parse_status(Some("Done".to_string())));
    assert_eq!(Err(STATUS_ERROR.to_string()), parse_status(Some(String::new())));
}

#[test]
fn end_to_end_record_with_defaults() {
    let b = Book::assemble(
        "Dune".to_string(),
        "Herbert".to_string(),
        Some("01-01-2024".to_string()),
        None,
        None,
        None,
        fixed_now,
    )
    .unwrap();
    assert_eq!(b.title, "Dune");
    assert_eq!(b.author, "Herbert");
    assert_eq!(b.date_started, "2024-01-01 00:00:00 UTC");
    assert_eq!(b.date_finished, "");
    assert_eq!(b.url, "");
    assert_eq!(b.status, Status::Reading);
}

#[test]
fn record_start_defaults_to_now() {
    let b = Book::assemble(
        "Emma".to_string(),
        "Austen".to_string(),
        None,
        Some("12-31-2024".to_string()),
        Some("https://example.org/emma".to_string()),
        Some("done".to_string()),
        fixed_now,
    )
    .unwrap();
    assert_eq!(b.date_started, "2030-05-06 07:08:09 UTC");
    assert_eq!(b.date_finished, "2024-12-31 00:00:00 UTC");
    assert_eq!(b.url, "https://example.org/emma");
    assert_eq!(b.status, Status::Done);
}

#[test]
fn record_reports_start_date_error_first() {
    let r = Book::assemble(
        "T".to_string(),
        "A".to_string(),
        Some("foobar".to_string()),
        Some("nope".to_string()),
        None,
        Some("bogus".to_string()),
        fixed_now,
    );
    assert_eq!(r.unwrap_err(), "Unable to parse from string");
}

#[test]
fn record_reports_status_error_after_dates() {
    let r = Book::assemble(
        "T".to_string(),
        "A".to_string(),
        None,
        None,
        None,
        Some("bogus".to_string()),
        fixed_now,
    );
    assert_eq!(r.unwrap_err(), STATUS_ERROR);
}
