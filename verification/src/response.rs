//! The uniform response envelope: every outcome is wrapped in a
//! success/error body, and every error kind maps to exactly one HTTP
//! status code.

use vstd::prelude::*;

verus! {

/// Machine-readable code and human-readable message carried by an error
/// response.
#[derive(Debug)]
pub struct ErrorDetails {
    pub code: String,
    pub message: String,
}

/// The body shape shared by every response: a status tag, a top-level
/// message, and either `data` (success) or `errors` (failure), never both.
#[derive(Debug)]
pub struct BaseApiResponse<T, E> {
    pub status: String,
    pub message: String,
    pub data: Option<T>,
    pub errors: Option<E>,
}

impl<T, E> BaseApiResponse<T, E> {
    pub fn new(status: &str, message: &str, data: Option<T>, errors: Option<E>) -> (r: Self)
        ensures
            r.status@ == status@,
            r.message@ == message@,
            r.data == data,
            r.errors == errors,
    {
        BaseApiResponse { status: status.to_owned(), message: message.to_owned(), data, errors }
    }

    /// Pairs the finished envelope with the HTTP status code it is sent
    /// under.
    pub fn with_status_code(self, code: u16) -> (r: (u16, Self))
        ensures
            r.0 == code,
            r.1 == self,
    {
        (code, self)
    }
}

/// The error taxonomy of the service. `Unauthorized` and `Forbidden` are
/// part of the taxonomy but unused by the current endpoints.
#[derive(Clone, Copy, Debug, PartialEq, Eq, Structural)]
pub enum ApiError {
    NotFound,
    InternalServerError,
    BadRequest,
    Unauthorized,
    Forbidden,
}

impl ApiError {
    /// The one mapping from error kind to HTTP status code; no other code
    /// path chooses a status for an error.
    pub open spec fn spec_status_code(self) -> u16 {
        match self {
            ApiError::NotFound => 404,
            ApiError::InternalServerError => 500,
            ApiError::BadRequest => 400,
            ApiError::Unauthorized => 401,
            ApiError::Forbidden => 403,
        }
    }

    /// The display text of each error kind.
    pub open spec fn spec_message(self) -> Seq<char> {
        match self {
            ApiError::NotFound => "Not Found"@,
            ApiError::InternalServerError => "Internal Server Error"@,
            ApiError::BadRequest => "Bad Request"@,
            ApiError::Unauthorized => "Unauthorized"@,
            ApiError::Forbidden => "Forbidden"@,
        }
    }

    pub fn status_code(&self) -> (r: u16)
        ensures
            r == self.spec_status_code(),
    {
        match self {
            ApiError::NotFound => 404,
            ApiError::InternalServerError => 500,
            ApiError::BadRequest => 400,
            ApiError::Unauthorized => 401,
            ApiError::Forbidden => 403,
        }
    }

    pub fn message(&self) -> (r: String)
        ensures
            r@ == self.spec_message(),
    {
        match self {
            ApiError::NotFound => "Not Found".to_owned(),
            ApiError::InternalServerError => "Internal Server Error".to_owned(),
            ApiError::BadRequest => "Bad Request".to_owned(),
            ApiError::Unauthorized => "Unauthorized".to_owned(),
            ApiError::Forbidden => "Forbidden".to_owned(),
        }
    }

    /// Shapes a failed outcome as an envelope: the error's own text as the
    /// top-level message and as both halves of the error details, no data,
    /// and the status code given by `spec_status_code`.
    pub fn to_response<T>(self) -> (r: (u16, BaseApiResponse<T, ErrorDetails>))
        ensures
            r.0 == self.spec_status_code(),
            r.1.status@ == "error"@,
            r.1.message@ == self.spec_message(),
            r.1.data is None,
            r.1.errors matches Some(d) && d.code@ == self.spec_message() && d.message@
                == self.spec_message(),
    {
        let code = self.message();
        let message = self.message();
        let top_message = self.message();
        let details = ErrorDetails { code, message };
        let status = self.status_code();
        let body = BaseApiResponse::new("error", top_message.as_str(), None, Some(details));
        (status, body)
    }
}

/// Shapes a successful outcome: a `success` envelope carrying the data,
/// paired with the endpoint's success status.
pub fn success_response<T>(message: &str, data: Option<T>, status: u16) -> (r: (
    u16,
    BaseApiResponse<T, ErrorDetails>,
))
    ensures
        r.0 == status,
        r.1.status@ == "success"@,
        r.1.message@ == message@,
        r.1.data == data,
        r.1.errors is None,
{
    let body = BaseApiResponse::new("success", message, data, None);
    body.with_status_code(status)
}

/// Shapes a failed outcome: an `error` envelope carrying a code and detail
/// pair and no data, paired with the endpoint's failure status.
pub fn error_response<T>(message: &str, code: &str, detail: String, status: u16) -> (r: (
    u16,
    BaseApiResponse<T, ErrorDetails>,
))
    ensures
        r.0 == status,
        r.1.status@ == "error"@,
        r.1.message@ == message@,
        r.1.data is None,
        r.1.errors matches Some(d) && d.code@ == code@ && d.message@ == detail@,
{
    let code_field = code.to_owned();
    let details = ErrorDetails { code: code_field, message: detail };
    let body = BaseApiResponse::new("error", message, None, Some(details));
    body.with_status_code(status)
}

} // verus!
