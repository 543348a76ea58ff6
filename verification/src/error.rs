//! Domain error kinds. Every failure of the read layer is one of these,
//! carrying a human-readable message; the transport boundary maps each kind
//! to its HTTP status.

use vstd::prelude::*;

verus! {

/// A failed request, classified by kind.
#[derive(Debug)]
pub enum ErrorResponse {
    /// The requested city or region id is absent from the index.
    NotFound(String),
    /// The requested language has no localized name for a found entity.
    BadRequest(String),
    /// Any backend fault: an unexpected status code or an undecodable body.
    InternalServerError(String),
}

/// Mathematical model of an [`ErrorResponse`]: the same kinds over
/// character sequences.
pub enum ErrorView {
    NotFound(Seq<char>),
    BadRequest(Seq<char>),
    InternalServerError(Seq<char>),
}

impl View for ErrorResponse {
    type V = ErrorView;

    open spec fn view(&self) -> ErrorView {
        match self {
            ErrorResponse::NotFound(m) => ErrorView::NotFound(m@),
            ErrorResponse::BadRequest(m) => ErrorView::BadRequest(m@),
            ErrorResponse::InternalServerError(m) => ErrorView::InternalServerError(m@),
        }
    }
}

impl DeepView for ErrorResponse {
    type V = ErrorView;

    open spec fn deep_view(&self) -> ErrorView {
        self.view()
    }
}

/// HTTP status the transport boundary answers with for this error kind.
pub open spec fn spec_http_status(e: ErrorView) -> u16 {
    match e {
        ErrorView::NotFound(_) => 404,
        ErrorView::BadRequest(_) => 400,
        ErrorView::InternalServerError(_) => 500,
    }
}

/// The message carried by an error, whatever its kind.
pub open spec fn spec_message(e: ErrorView) -> Seq<char> {
    match e {
        ErrorView::NotFound(m) => m,
        ErrorView::BadRequest(m) => m,
        ErrorView::InternalServerError(m) => m,
    }
}

impl ErrorResponse {
    /// The HTTP status for this error: 404, 400 or 500.
    pub fn http_status(&self) -> (s: u16)
        ensures
            s == spec_http_status(self@),
    {
        match self {
            ErrorResponse::NotFound(_) => 404,
            ErrorResponse::BadRequest(_) => 400,
            ErrorResponse::InternalServerError(_) => 500,
        }
    }

    /// The message carried by this error.
    pub fn message(&self) -> (m: &String)
        ensures
            m@ == spec_message(self@),
    {
        match self {
            ErrorResponse::NotFound(m) => m,
            ErrorResponse::BadRequest(m) => m,
            ErrorResponse::InternalServerError(m) => m,
        }
    }
}

} // verus!
