//! The errors that a request can end in, as a client sees them.

use crate::session::UploadError;
use crate::text::opt_text;
use vstd::prelude::*;
use vstd::string::StringExecFns;

verus! {

/// A request that failed, with the text that goes back to the client.
#[derive(Debug)]
pub enum Error {
    BadRequest(Option<String>),
    UnprocessableEntity(Option<String>),
    InternalServerError(Option<String>),
}

impl Error {
    /// The status code that stands for this error.
    pub open spec fn code(&self) -> int {
        match self {
            Error::BadRequest(_) => 400,
            Error::UnprocessableEntity(_) => 422,
            Error::InternalServerError(_) => 500,
        }
    }

    /// The text that this error carries, if any.
    pub open spec fn text(&self) -> Option<Seq<char>> {
        match self {
            Error::BadRequest(t) => opt_text(*t),
            Error::UnprocessableEntity(t) => opt_text(*t),
            Error::InternalServerError(t) => opt_text(*t),
        }
    }

    /// The body of the response: a bad request gives its text or no body at
    /// all, the other errors give their text or an empty body.
    pub open spec fn body_text(&self) -> Option<Seq<char>> {
        match self {
            Error::BadRequest(t) => opt_text(*t),
            _ => match self.text() {
                Some(t) => Some(t),
                None => Some(Seq::<char>::empty()),
            },
        }
    }

    /// The status code of the response.
    pub fn status(&self) -> (code: u16)
        ensures
            code == self.code(),
    {
        match self {
            Error::BadRequest(_) => 400,
            Error::UnprocessableEntity(_) => 422,
            Error::InternalServerError(_) => 500,
        }
    }

    /// The body of the response.
    pub fn body(self) -> (body: Option<String>)
        ensures
            opt_text(body) == self.body_text(),
    {
        match self {
            Error::BadRequest(t) => t,
            Error::UnprocessableEntity(t) => Some(text_or_empty(t)),
            Error::InternalServerError(t) => Some(text_or_empty(t)),
        }
    }
}

fn text_or_empty(text: Option<String>) -> (t: String)
    ensures
        t@ == match text {
            Some(t) => t@,
            None => Seq::<char>::empty(),
        },
{
    match text {
        Some(t) => t,
        None => String::new(),
    }
}

/// The status code that a refused upload request is answered with; none
/// where the answer is that nothing was found.
pub open spec fn refusal_code(e: UploadError) -> Option<int> {
    match e {
        UploadError::NotFound => None,
        UploadError::BadRange => Some(400),
        UploadError::ChunkTooLarge => Some(400),
        UploadError::TokenMismatch => Some(400),
        UploadError::IncompleteData => Some(400),
        UploadError::SizeMismatch => Some(422),
        UploadError::SealError => Some(500),
        UploadError::NoSender => Some(500),
    }
}

/// The text that a refused upload request is answered with.
pub open spec fn refusal_text(e: UploadError) -> Option<Seq<char>> {
    match e {
        UploadError::NotFound => None,
        UploadError::BadRange => Some("Incorrect Content-Range header"@),
        UploadError::ChunkTooLarge => Some("File chunk too large; the maximum is 1 MB"@),
        UploadError::TokenMismatch => Some("Cryptify Token header does not match"@),
        UploadError::IncompleteData => Some("Data not complete"@),
        UploadError::SizeMismatch => None,
        UploadError::SealError => Some("couldn't read postguard file"@),
        UploadError::NoSender => Some("no email attribute"@),
    }
}

/// The answer to a refused upload request: nothing where the session is not
/// found, an error with its text otherwise.
pub fn refusal(e: UploadError) -> (answer: Option<Error>)
    ensures
        match answer {
            None => refusal_code(e) is None,
            Some(error) => refusal_code(e) == Some(error.code()) && error.text() == refusal_text(
                e,
            ),
        },
{
    match e {
        UploadError::NotFound => None,
        UploadError::BadRange => Some(
            Error::BadRequest(Some(String::from_str("Incorrect Content-Range header"))),
        ),
        UploadError::ChunkTooLarge => Some(
            Error::BadRequest(Some(String::from_str("File chunk too large; the maximum is 1 MB"))),
        ),
        UploadError::TokenMismatch => Some(
            Error::BadRequest(Some(String::from_str("Cryptify Token header does not match"))),
        ),
        UploadError::IncompleteData => Some(
            Error::BadRequest(Some(String::from_str("Data not complete"))),
        ),
        UploadError::SizeMismatch => Some(Error::UnprocessableEntity(None)),
        UploadError::SealError => Some(
            Error::InternalServerError(Some(String::from_str("couldn't read postguard file"))),
        ),
        UploadError::NoSender => Some(
            Error::InternalServerError(Some(String::from_str("no email attribute"))),
        ),
    }
}

} // verus!
