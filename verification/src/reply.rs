//! What a handler hands back to the HTTP layer: a status, an optional
//! content type and a complete body.

use vstd::prelude::*;

verus! {

/// Status of a successful response.
pub const STATUS_OK: u16 = 200;

/// Status of a response to a malformed request.
pub const STATUS_BAD_REQUEST: u16 = 400;

/// Status of a response to a method that a resource does not serve.
pub const STATUS_METHOD_NOT_ALLOWED: u16 = 405;

/// The content types that the service declares.
#[derive(Clone, Copy, Debug, PartialEq, Eq, Structural)]
pub enum ContentKind {
    /// `text/plain; charset=utf-8`
    PlainText,
    /// `application/json`
    Json,
}

impl ContentKind {
    /// The value of the `Content-Type` header for this kind.
    pub open spec fn spec_mime(self) -> Seq<char> {
        match self {
            ContentKind::PlainText => "text/plain; charset=utf-8"@,
            ContentKind::Json => "application/json"@,
        }
    }

    /// The value of the `Content-Type` header for this kind.
    pub fn mime(&self) -> (m: &'static str)
        ensures
            m@ == self.spec_mime(),
    {
        match self {
            ContentKind::PlainText => "text/plain; charset=utf-8",
            ContentKind::Json => "application/json",
        }
    }
}

/// A complete, non-streamed response.
#[derive(Debug)]
pub struct Reply {
    /// The HTTP status code.
    pub status: u16,
    /// The declared content type, if the handler declares one.
    pub content_type: Option<ContentKind>,
    /// The response body.
    pub body: String,
}

impl Reply {
    /// Whether the status is in the success class.
    pub open spec fn spec_is_success(&self) -> bool {
        200 <= self.status < 300
    }

    /// Whether the status is in the client-error class.
    pub open spec fn spec_is_client_error(&self) -> bool {
        400 <= self.status < 500
    }

    /// Whether the status is in the success class.
    #[verifier::when_used_as_spec(spec_is_success)]
    pub fn is_success(&self) -> (b: bool)
        ensures
            b == self.spec_is_success(),
    {
        200 <= self.status && self.status < 300
    }

    /// Whether the status is in the client-error class.
    #[verifier::when_used_as_spec(spec_is_client_error)]
    pub fn is_client_error(&self) -> (b: bool)
        ensures
            b == self.spec_is_client_error(),
    {
        400 <= self.status && self.status < 500
    }
}

} // verus!
