//! What can go wrong in a call to a node.

use crate::text::{decimal, decimal_text, join2};
use vstd::prelude::*;
use vstd::string::*;

verus! {

/// The failure of a call to a node.
#[derive(Debug, PartialEq, Eq)]
pub enum ApiError {
    /// The transport failed; the text is the transport's own account.
    NetworkError(String),
    AuthError(String),
    NotFound(String),
    /// The node answered with a status outside the 2xx range.
    ServerError { status: u16, message: String },
    /// The node answered well, but not in the expected shape.
    InvalidResponse(String),
    Timeout,
}

/// The mathematical value of an `ApiError`.
pub ghost enum ApiErrorView {
    NetworkError(Seq<char>),
    AuthError(Seq<char>),
    NotFound(Seq<char>),
    ServerError { status: u16, message: Seq<char> },
    InvalidResponse(Seq<char>),
    Timeout,
}

impl ApiErrorView {
    /// The failure as a sentence.
    pub open spec fn message(self) -> Seq<char> {
        match self {
            ApiErrorView::NetworkError(reason) => "Network error: "@ + reason,
            ApiErrorView::AuthError(reason) => "Authentication failed: "@ + reason,
            ApiErrorView::NotFound(what) => "Resource not found: "@ + what,
            ApiErrorView::ServerError { status, message } => "Server error: "@ + decimal_text(
                status as nat,
            ) + " - "@ + message,
            ApiErrorView::InvalidResponse(reason) => "Invalid response: "@ + reason,
            ApiErrorView::Timeout => "Timeout"@,
        }
    }
}

impl View for ApiError {
    type V = ApiErrorView;

    open spec fn view(&self) -> ApiErrorView {
        match self {
            ApiError::NetworkError(reason) => ApiErrorView::NetworkError(reason@),
            ApiError::AuthError(reason) => ApiErrorView::AuthError(reason@),
            ApiError::NotFound(what) => ApiErrorView::NotFound(what@),
            ApiError::ServerError { status, message } => ApiErrorView::ServerError {
                status: *status,
                message: message@,
            },
            ApiError::InvalidResponse(reason) => ApiErrorView::InvalidResponse(reason@),
            ApiError::Timeout => ApiErrorView::Timeout,
        }
    }
}

impl DeepView for ApiError {
    type V = ApiErrorView;

    open spec fn deep_view(&self) -> ApiErrorView {
        self@
    }
}

impl ApiError {
    /// The failure as a sentence.
    pub fn to_string(&self) -> (text: String)
        ensures
            text@ == self@.message(),
    {
        match self {
            ApiError::NetworkError(reason) => join2("Network error: ", reason.as_str()),
            ApiError::AuthError(reason) => join2("Authentication failed: ", reason.as_str()),
            ApiError::NotFound(what) => join2("Resource not found: ", what.as_str()),
            ApiError::ServerError { status, message } => {
                let code = decimal(*status as u64);
                join2("Server error: ", code.as_str()).concat(" - ").concat(message.as_str())
            },
            ApiError::InvalidResponse(reason) => join2("Invalid response: ", reason.as_str()),
            ApiError::Timeout => String::from_str("Timeout"),
        }
    }
}

} // verus!
