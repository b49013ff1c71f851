use vstd::prelude::*;

use crate::api::models::ErrorResponse;
use crate::domain::models::{DomainError, ErrorKind};

verus! {

/// HTTP status for a malformed request.
pub const HTTP_BAD_REQUEST: u16 = 400;

/// HTTP status for a request that conflicts with the robot's state.
pub const HTTP_CONFLICT: u16 = 409;

/// Why an HTTP request failed.
#[derive(Debug)]
pub enum ApiError {
    /// The body could not be read as the expected JSON.
    BadRequest(String),
    /// The robot or the simulation refused the request.
    Domain(DomainError),
}

impl vstd::std_specs::convert::FromSpecImpl<DomainError> for ApiError {
    open spec fn obeys_from_spec() -> bool {
        true
    }

    open spec fn from_spec(v: DomainError) -> ApiError {
        ApiError::Domain(v)
    }
}

impl From<DomainError> for ApiError {
    fn from(value: DomainError) -> (r: ApiError) {
        ApiError::Domain(value)
    }
}

/// The HTTP status that answers an error: 400 for a malformed request, 409 for
/// a conflict with the robot's state.
pub open spec fn http_status_of(error: ApiError) -> u16 {
    match error {
        ApiError::BadRequest(_) => HTTP_BAD_REQUEST,
        ApiError::Domain(e) => match e.kind {
            ErrorKind::BadRequest => HTTP_BAD_REQUEST,
            ErrorKind::Conflict => HTTP_CONFLICT,
        },
    }
}

/// Whether `body` is the error body that answers `error`: its code and message,
/// and the state it was refused in, by name.
pub open spec fn is_error_body_of(body: ErrorResponse, error: ApiError) -> bool {
    match error {
        ApiError::BadRequest(message) => {
            &&& body.code@ == "BAD_REQUEST"@
            &&& body.message@ == message@
            &&& body.current_state.is_none()
        },
        ApiError::Domain(e) => {
            &&& body.code@ == e.code@
            &&& body.message@ == e.message@
            &&& match e.current_state {
                Some(state) => body.current_state.is_some() && body.current_state.unwrap()@
                    == state.name()@,
                None => body.current_state.is_none(),
            }
        },
    }
}

impl ApiError {
    /// The HTTP status and the JSON body that answer this error.
    pub fn into_error_response(self) -> (r: (u16, ErrorResponse))
        ensures
            r.0 == http_status_of(self),
            is_error_body_of(r.1, self),
    {
        match self {
            ApiError::BadRequest(message) => (
                HTTP_BAD_REQUEST,
                ErrorResponse {
                    code: String::from_str("BAD_REQUEST"),
                    message,
                    current_state: None,
                },
            ),
            ApiError::Domain(error) => {
                let status = match error.kind {
                    ErrorKind::BadRequest => HTTP_BAD_REQUEST,
                    ErrorKind::Conflict => HTTP_CONFLICT,
                };
                let current_state = match error.current_state {
                    Some(state) => Some(String::from_str(state.as_str())),
                    None => None,
                };
                (
                    status,
                    ErrorResponse {
                        code: String::from_str(error.code),
                        message: error.message,
                        current_state,
                    },
                )
            },
        }
    }
}

} // verus!
