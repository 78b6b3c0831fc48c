//! Error responses of the record-store endpoints: which status code and
//! which message each error turns into, pinned exactly so the HTTP layer
//! has nothing left to decide.

use vstd::prelude::*;
use vstd::string::StringExecFns;

verus! {

/// The errors the record-store endpoints can answer with.
#[derive(PartialEq, Eq, Structural, Debug, Clone, Copy)]
pub enum CustomError {
    _BadRequest,
    TaskNotFound,
    InternalServerError,
}

impl CustomError {
    /// The HTTP status code this error is reported with.
    pub open spec fn status_of(self) -> u16 {
        match self {
            CustomError::_BadRequest => 400,
            CustomError::TaskNotFound => 404,
            CustomError::InternalServerError => 500,
        }
    }

    /// The message text this error is reported with.
    pub open spec fn message_of(self) -> Seq<char> {
        match self {
            CustomError::_BadRequest => "Bad Request"@,
            CustomError::TaskNotFound => "Information Not Found"@,
            CustomError::InternalServerError => "Internal Server Error"@,
        }
    }

    /// The status code of the response: 400 for a bad request, 404 when
    /// the requested record does not exist, 500 for a server-side fault.
    pub fn status_code(&self) -> (c: u16)
        ensures
            c == self.status_of(),
    {
        match self {
            CustomError::_BadRequest => 400,
            CustomError::TaskNotFound => 404,
            CustomError::InternalServerError => 500,
        }
    }

    /// The human-readable message of the response.
    pub fn message(&self) -> (m: String)
        ensures
            m@ == self.message_of(),
    {
        match self {
            CustomError::_BadRequest => String::from_str("Bad Request"),
            CustomError::TaskNotFound => String::from_str("Information Not Found"),
            CustomError::InternalServerError => String::from_str("Internal Server Error"),
        }
    }

    /// The JSON body of the response: an object with one `Error` field
    /// holding the message.
    pub fn error_body(&self) -> (b: String)
        ensures
            b@ == "{\"Error\":\""@ + self.message_of() + "\"}"@,
    {
        let m = self.message();
        String::from_str("{\"Error\":\"").concat(m.as_str()).concat("\"}")
    }
}

} // verus!
