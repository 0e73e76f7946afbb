use crate::dates::{normalized_date, parse_date, text_result};
use crate::status::{invalid_status_message, parse_status, status_of_token, Status};
use vstd::prelude::*;

verus! {

/// One reading-log entry.
#[derive(Debug)]
pub struct Book {
    pub title: String,
    pub author: String,
    pub date_started: String,
    pub date_finished: String,
    pub url: String,
    pub status: Status,
}

/// The finish date field: the given date normalized, or empty when absent.
pub open spec fn finish_date_field(date: Option<String>) -> Result<Seq<char>, Seq<char>> {
    match date {
        Some(d) => normalized_date(d@),
        None => Ok(Seq::empty()),
    }
}

/// The status field: `Reading` when absent, else the status the token names.
pub open spec fn status_field(status: Option<String>) -> Result<Status, Seq<char>> {
    match status {
        None => Ok(Status::Reading),
        Some(s) => match status_of_token(s@) {
            Some(st) => Ok(st),
            None => Err(invalid_status_message()),
        },
    }
}

/// What assembling an entry yields once the start date has been resolved to
/// `start`: the first error among start date, finish date and status, else
/// the entry with the URL defaulting to the empty string.
pub open spec fn assembled(
    r: Result<Book, String>,
    title: String,
    author: String,
    start: Result<Seq<char>, Seq<char>>,
    date_finished: Option<String>,
    url: Option<String>,
    status: Option<String>,
) -> bool {
    match start {
        Err(e) => (r matches Err(x) && x@ == e),
        Ok(start) => match finish_date_field(date_finished) {
            Err(e) => (r matches Err(x) && x@ == e),
            Ok(finish) => match status_field(status) {
                Err(e) => (r matches Err(x) && x@ == e),
                Ok(st) => (r matches Ok(b) && b.title == title && b.author == author
                    && b.date_started@ == start && b.date_finished@ == finish && b.url@ == (
                match url {
                    Some(u) => u@,
                    None => Seq::empty(),
                }) && b.status == st),
            },
        },
    }
}

impl Book {
    /// Assembles an entry from raw inputs. The start date defaults to the
    /// value of `now_fn`, the finish date and the URL to the empty string,
    /// the status to `Reading`. The first error met (start date, then finish
    /// date, then status) is returned and nothing else is built.
    pub fn assemble<F: Fn() -> String>(
        title: String,
        author: String,
        date_started: Option<String>,
        date_finished: Option<String>,
        url: Option<String>,
        status: Option<String>,
        now_fn: F,
    ) -> (r: Result<Book, String>)
        requires
            date_started is None ==> now_fn.requires(()),
        ensures
            date_started matches Some(d) ==> assembled(
                r,
                title,
                author,
                normalized_date(d@),
                date_finished,
                url,
                status,
            ),
            date_started is None ==> exists|now: String|
                #[trigger] now_fn.ensures((), now) && assembled(
                    r,
                    title,
                    author,
                    Ok(now@),
                    date_finished,
                    url,
                    status,
                ),
    {
        let ghost started = date_started;
        let ghost finished = date_finished;
        let ghost given_url = url;
        let ghost given_status = status;
        let ghost given_title = title;
        let ghost given_author = author;
        let start = parse_date(date_started, true, &now_fn);
        let ghost start_text = text_result(start);
        let r = match start {
            Err(e) => Err(e),
            Ok(date_started) => match parse_date(date_finished, false, &now_fn) {
                Err(e) => Err(e),
                Ok(date_finished) => {
                    let url = match url {
                        Some(u) => u,
                        None => String::new(),
                    };
                    match parse_status(status) {
                        Err(e) => Err(e),
                        Ok(status) => Ok(
                            Book { title, author, date_started, date_finished, url, status },
                        ),
                    }
                },
            },
        };
        proof {
            assert(assembled(
                r,
                given_title,
                given_author,
                start_text,
                finished,
                given_url,
                given_status,
            ));
            if started is None {
                let now = start->Ok_0;
                assert(now_fn.ensures((), now));
            }
        }
        r
    }
}

} // verus!
