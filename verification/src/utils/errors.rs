use vstd::prelude::*;
use vstd::string::StringExecFns;
use crate::text::joined;
use crate::types::errors::ErrorMessage;

verus! {

/// Why the server could not answer.
#[derive(Debug)]
pub enum RpcError {
    InternalServerError,
    BadRequest(String),
    Unauthorized,
}

impl RpcError {
    /// The error as a line of text.
    pub open spec fn text(self) -> Seq<char> {
        match self {
            RpcError::InternalServerError => "Internal Server Error"@,
            RpcError::BadRequest(what) => "BadRequest: "@ + what@,
            RpcError::Unauthorized => "Unauthorized"@,
        }
    }

    pub fn to_string(&self) -> (line: String)
        ensures
            line@ == self.text(),
    {
        match self {
            RpcError::InternalServerError => String::from_str("Internal Server Error"),
            RpcError::BadRequest(what) => joined("BadRequest: ", what.as_str()),
            RpcError::Unauthorized => String::from_str("Unauthorized"),
        }
    }

    /// The status that answers a request which ran into this error.
    pub open spec fn status(self) -> u16 {
        match self {
            RpcError::InternalServerError => 500,
            RpcError::BadRequest(_) => 400,
            RpcError::Unauthorized => 401,
        }
    }

    /// The body that goes out under that status.
    pub open spec fn body(self) -> Seq<char> {
        match self {
            RpcError::InternalServerError => "Internal Server Error, Please try later"@,
            RpcError::BadRequest(what) => what@,
            RpcError::Unauthorized => "Unauthorized"@,
        }
    }

    /// The status and body that answer a request which ran into this error.
    pub fn error_response(&self) -> (answer: ErrorMessage)
        ensures
            answer.code == self.status(),
            answer.message@ == self.body(),
    {
        match self {
            RpcError::InternalServerError => ErrorMessage {
                code: 500,
                message: String::from_str("Internal Server Error, Please try later"),
            },
            RpcError::BadRequest(what) => ErrorMessage { code: 400, message: what.clone() },
            RpcError::Unauthorized => ErrorMessage {
                code: 401,
                message: String::from_str("Unauthorized"),
            },
        }
    }
}

} // verus!
