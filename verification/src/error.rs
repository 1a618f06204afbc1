//! The errors that the service answers with, and the status that each one
//! stands for.

use vstd::prelude::*;
use vstd::string::StringExecFns;

verus! {

/// An error that a request can end in.
#[derive(Debug)]
pub enum Error {
    /// The request carries no valid credentials.
    Unauthorized,
    /// The user may not do what was asked.
    Forbidden,
    /// Nothing is served under the path.
    NotFound,
    /// The request is malformed; the message says how.
    BadRequest { message: String },
    /// Something failed inside the service. The cause is kept from the client.
    Internal,
}

impl Error {
    /// The HTTP status code of this error.
    pub open spec fn status(self) -> u16 {
        match self {
            Error::Unauthorized => 401,
            Error::Forbidden => 403,
            Error::NotFound => 404,
            Error::BadRequest { .. } => 400,
            Error::Internal => 500,
        }
    }

    /// What this error says of itself.
    pub open spec fn description(self) -> Seq<char> {
        match self {
            Error::Unauthorized => "authentication required"@,
            Error::Forbidden => "user may not perform that action"@,
            Error::NotFound => "request path not found"@,
            Error::BadRequest { message } => "bad request: "@ + message@,
            Error::Internal => "server error"@,
        }
    }

    /// What the client is told: the message of a malformed request, nothing
    /// of the cause of an internal error, and else the description.
    pub open spec fn client_message(self) -> Seq<char> {
        match self {
            Error::BadRequest { message } => message@,
            Error::Internal => "an internal server error occurred"@,
            _ => self.description(),
        }
    }

    /// Whether the HTTP status of this error says that the service is at
    /// fault, not the request.
    pub open spec fn server_fault(self) -> bool {
        500 <= self.status() <= 599
    }

    /// A malformed request, with the message that describes the fault.
    pub fn bad_req(message: String) -> (e: Error)
        ensures
            e == (Error::BadRequest { message }),
    {
        Error::BadRequest { message }
    }

    /// The HTTP status code of this error.
    pub fn http_code(&self) -> (code: u16)
        ensures
            code == self.status(),
            400 <= code <= 599,
    {
        match self {
            Error::Unauthorized => 401,
            Error::Forbidden => 403,
            Error::NotFound => 404,
            Error::BadRequest { .. } => 400,
            Error::Internal => 500,
        }
    }

    /// Whether the service is at fault, not the request: so it is for an
    /// internal error and for no other.
    pub fn is_server_error(&self) -> (fault: bool)
        ensures
            fault == self.server_fault(),
            fault <==> *self == Error::Internal,
    {
        match self {
            Error::Internal => true,
            _ => false,
        }
    }

    /// What the client is told of this error.
    pub fn http_message(&self) -> (text: String)
        ensures
            text@ == self.client_message(),
    {
        match self {
            Error::BadRequest { message } => message.clone(),
            Error::Internal => String::from_str("an internal server error occurred"),
            _ => self.describe(),
        }
    }

    /// What this error says of itself.
    pub fn describe(&self) -> (text: String)
        ensures
            text@ == self.description(),
    {
        match self {
            Error::Unauthorized => String::from_str("authentication required"),
            Error::Forbidden => String::from_str("user may not perform that action"),
            Error::NotFound => String::from_str("request path not found"),
            Error::BadRequest { message } => {
                let mut text = String::from_str("bad request: ");
                text.append(message.as_str());
                text
            },
            Error::Internal => String::from_str("server error"),
        }
    }
}

} // verus!
