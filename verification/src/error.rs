//! The error answers of the service.
use vstd::prelude::*;

verus! {

/// The status of an error answer.
#[derive(Clone, Copy, Debug, PartialEq, Eq, Structural)]
pub enum StatusCode {
    BadRequest,
    NotFound,
    InternalServerError,
}

impl StatusCode {
    /// The number of the status.
    pub open spec fn code(self) -> u16 {
        match self {
            StatusCode::BadRequest => 400,
            StatusCode::NotFound => 404,
            StatusCode::InternalServerError => 500,
        }
    }

    /// The number of the status and its usual words.
    pub open spec fn text(self) -> Seq<char> {
        match self {
            StatusCode::BadRequest => "400 Bad Request"@,
            StatusCode::NotFound => "404 Not Found"@,
            StatusCode::InternalServerError => "500 Internal Server Error"@,
        }
    }

    /// The number of the status.
    pub fn as_u16(self) -> (code: u16)
        ensures
            code == self.code(),
    {
        match self {
            StatusCode::BadRequest => 400,
            StatusCode::NotFound => 404,
            StatusCode::InternalServerError => 500,
        }
    }
}

/// Calls `actix_web::http::StatusCode::from_u16` and writes the result with its
/// `Display`.
///
/// Believed of it: a status is written as its number, a space and its usual words;
/// stated for the statuses that this service answers with.
#[verifier::external_body]
fn status_text(code: u16) -> (text: String)
    requires
        code == 400 || code == 404 || code == 500,
    ensures
        code == 400 ==> text@ == "400 Bad Request"@,
        code == 404 ==> text@ == "404 Not Found"@,
        code == 500 ==> text@ == "500 Internal Server Error"@,
{
    actix_web::http::StatusCode::from_u16(code).unwrap().to_string()
}

/// An error answer: its status and its message.
#[derive(Debug, PartialEq, Eq)]
pub struct CustomError {
    pub error: (StatusCode, String),
}

/// What an error answer says.
pub struct ErrorView {
    pub status: StatusCode,
    pub message: Seq<char>,
}

impl View for CustomError {
    type V = ErrorView;

    open spec fn view(&self) -> ErrorView {
        ErrorView { status: self.error.0, message: self.error.1@ }
    }
}

/// The body of an error answer.
#[derive(Debug, PartialEq, Eq)]
pub struct ErrorBody {
    pub error: String,
}

impl CustomError {
    /// An error answer with the given status and message.
    pub fn new(status: StatusCode, message: &str) -> (e: CustomError)
        ensures
            e@ == error_answer(status, message@),
    {
        CustomError { error: (status, message.to_string()) }
    }

    /// The error as a line of text.
    pub fn to_string(&self) -> (text: String)
        ensures
            text@ == "status: "@ + self@.status.text() + " msg: "@ + self@.message,
    {
        let mut text = "status: ".to_string();
        text.append(status_text(self.error.0.as_u16()).as_str());
        text.append(" msg: ");
        text.append(self.error.1.as_str());
        text
    }

    /// The status of the answer.
    pub fn status_code(&self) -> (status: StatusCode)
        ensures
            status == self@.status,
    {
        self.error.0
    }

    /// The answer: the number of its status, and its body.
    pub fn error_response(&self) -> (response: (u16, ErrorBody))
        ensures
            response.0 == self@.status.code(),
            response.1.error@ == self@.message,
    {
        (self.status_code().as_u16(), ErrorBody { error: self.error.1.clone() })
    }
}

/// The error answer with the given status and message.
pub open spec fn error_answer(status: StatusCode, message: Seq<char>) -> ErrorView {
    ErrorView { status, message }
}

/// The same result, with its error by its view.
pub open spec fn by_view<T>(r: Result<T, CustomError>) -> Result<T, ErrorView> {
    match r {
        Ok(v) => Ok(v),
        Err(e) => Err(e@),
    }
}

/// The answer where the database fails.
pub open spec fn db_error_answer() -> ErrorView {
    error_answer(StatusCode::InternalServerError, "db error"@)
}

/// The answer where the database fails.
pub fn db_error() -> (e: CustomError)
    ensures
        e@ == db_error_answer(),
{
    CustomError::new(StatusCode::InternalServerError, "db error")
}

} // verus!
