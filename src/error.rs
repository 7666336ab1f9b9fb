use vstd::prelude::*;

use crate::response::ApiResponse;

verus! {

/// The error taxonomy of the service.
#[derive(Debug)]
pub enum AppError {
    /// A store or infrastructure failure.
    InternalServer(String),
    /// Malformed or invalid input.
    BadRequest(String),
    /// A referenced entity is absent.
    NotFound(String),
}

impl AppError {
    /// The transport status code each kind of error is paired with.
    pub open spec fn status_spec(self) -> u16 {
        match self {
            AppError::InternalServer(_) => 500,
            AppError::BadRequest(_) => 400,
            AppError::NotFound(_) => 404,
        }
    }

    /// The human-readable message carried by the error.
    pub open spec fn message_spec(self) -> Seq<char> {
        match self {
            AppError::InternalServer(m) => m@,
            AppError::BadRequest(m) => m@,
            AppError::NotFound(m) => m@,
        }
    }

    pub fn status_code(&self) -> (r: u16)
        ensures
            r == self.status_spec(),
    {
        match self {
            AppError::InternalServer(_) => 500,
            AppError::BadRequest(_) => 400,
            AppError::NotFound(_) => 404,
        }
    }

    pub fn message(&self) -> (r: String)
        ensures
            r@ == self.message_spec(),
    {
        match self {
            AppError::InternalServer(m) => m.clone(),
            AppError::BadRequest(m) => m.clone(),
            AppError::NotFound(m) => m.clone(),
        }
    }

    /// The status code and the failed envelope that render this error.
    pub fn into_response_parts(self) -> (r: (u16, ApiResponse<()>))
        ensures
            r.0 == self.status_spec(),
            !r.1.success,
            r.1.message@ == self.message_spec(),
            r.1.data is None,
    {
        let (status, error_message) = match &self {
            AppError::InternalServer(msg) => (500u16, msg.clone()),
            AppError::BadRequest(msg) => (400u16, msg.clone()),
            AppError::NotFound(msg) => (404u16, msg.clone()),
        };
        let body = ApiResponse::<()>::error(error_message.as_str());
        (status, body)
    }
}

} // verus!
