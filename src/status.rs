use vstd::prelude::*;

verus! {

/// How far along the reader is with a book.
#[derive(Clone, Copy, Debug, PartialEq, Eq, Structural)]
pub enum Status {
    Reading,
    WantToRead,
    Done,
}

pub open spec fn invalid_status_message() -> Seq<char> {
    "Invalid status. Use one of the following: done | reading | want"@
}

/// The status a raw token names, if it names one (matched exactly, case-sensitive).
pub open spec fn status_of_token(token: Seq<char>) -> Option<Status> {
    if token == "done"@ {
        Some(Status::Done)
    } else if token == "reading"@ {
        Some(Status::Reading)
    } else if token == "want"@ {
        Some(Status::WantToRead)
    } else {
        None
    }
}

/// Maps an optional status token to a status: absent means `Reading`;
/// `done`, `reading` and `want` name the three statuses; any other token is
/// an error that lists the accepted tokens.
pub fn parse_status(status: Option<String>) -> (r: Result<Status, String>)
    ensures
        status is None ==> r == Ok::<Status, String>(Status::Reading),
        status matches Some(s) ==> match status_of_token(s@) {
            Some(st) => r == Ok::<Status, String>(st),
            None => (r matches Err(e) && e@ == invalid_status_message()),
        },
{
    match status {
        None => Ok(Status::Reading),
        Some(s) => {
            let done = "done".to_owned();
            let reading = "reading".to_owned();
            let want = "want".to_owned();
            if s == done {
                Ok(Status::Done)
            } else if s == reading {
                Ok(Status::Reading)
            } else if s == want {
                Ok(Status::WantToRead)
            } else {
                Err("Invalid status. Use one of the following: done | reading | want".to_owned())
            }
        },
    }
}

} // verus!
