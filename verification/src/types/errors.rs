use vstd::prelude::*;
use vstd::string::StringExecFns;
use crate::text::joined;

verus! {

/// Why a request to the API could not be served.
#[derive(Debug)]
pub enum ApiError {
    Unauthorized,
    NotFound(String),
    BadRequest(String),
    InternalError,
    InvalidParameter(String),
    ValidatorNotFound(String),
    TooManyValidatorsIds,
}

/// An error with its texts as sequences of characters.
pub enum ApiErrorView {
    Unauthorized,
    NotFound(Seq<char>),
    BadRequest(Seq<char>),
    InternalError,
    InvalidParameter(Seq<char>),
    ValidatorNotFound(Seq<char>),
    TooManyValidatorsIds,
}

impl View for ApiError {
    type V = ApiErrorView;

    open spec fn view(&self) -> ApiErrorView {
        match *self {
            ApiError::Unauthorized => ApiErrorView::Unauthorized,
            ApiError::NotFound(what) => ApiErrorView::NotFound(what@),
            ApiError::BadRequest(what) => ApiErrorView::BadRequest(what@),
            ApiError::InternalError => ApiErrorView::InternalError,
            ApiError::InvalidParameter(what) => ApiErrorView::InvalidParameter(what@),
            ApiError::ValidatorNotFound(what) => ApiErrorView::ValidatorNotFound(what@),
            ApiError::TooManyValidatorsIds => ApiErrorView::TooManyValidatorsIds,
        }
    }
}

/// A status code with the message that goes out under it.
#[derive(Debug)]
pub struct ErrorMessage {
    pub code: u16,
    pub message: String,
}

impl ApiError {
    /// The error as a line of text.
    pub open spec fn text(self) -> Seq<char> {
        match self {
            ApiError::Unauthorized => "Unauthorized"@,
            ApiError::NotFound(what) => "Api Endpoint Not Found: "@ + what@,
            ApiError::BadRequest(what) => "Bad Request: "@ + what@,
            ApiError::InternalError => "Internal Server Error"@,
            ApiError::InvalidParameter(what) => "Invalid parameter: "@ + what@,
            ApiError::ValidatorNotFound(what) => "Validator not found: "@ + what@,
            ApiError::TooManyValidatorsIds => "Too many validator IDs in request"@,
        }
    }

    pub fn to_string(&self) -> (line: String)
        ensures
            line@ == self.text(),
    {
        match self {
            ApiError::Unauthorized => String::from_str("Unauthorized"),
            ApiError::NotFound(what) => joined("Api Endpoint Not Found: ", what.as_str()),
            ApiError::BadRequest(what) => joined("Bad Request: ", what.as_str()),
            ApiError::InternalError => String::from_str("Internal Server Error"),
            ApiError::InvalidParameter(what) => joined("Invalid parameter: ", what.as_str()),
            ApiError::ValidatorNotFound(what) => joined("Validator not found: ", what.as_str()),
            ApiError::TooManyValidatorsIds => String::from_str("Too many validator IDs in request"),
        }
    }

    /// The status and body that answer a request with too many validator
    /// ids. No answer is laid down for the other errors.
    pub fn error_response(&self) -> (answer: ErrorMessage)
        requires
            self is TooManyValidatorsIds,
        ensures
            answer.code == 500,
            answer.message@ == "Too many validator IDs in request"@,
    {
        ErrorMessage { code: 500, message: String::from_str("Too many validator IDs in request") }
    }
}

} // verus!
