use vstd::prelude::*;
use vstd::string::*;

verus! {

/// Everything a request can fail with.
#[derive(Debug)]
pub enum ApiError {
    InvalidCredentials,
    UserAlreadyExists,
    Unauthorized,
    NotFound,
    ValidationError(String),
    InternalError(String),
}

/// What the transport layer renders for a failed request: a status code
/// and the text of the `error` field of the body.
#[derive(Debug)]
pub struct ErrorResponse {
    pub status: u16,
    pub message: String,
}

/// The status code an error is answered with.
pub open spec fn status_of(e: ApiError) -> u16 {
    match e {
        ApiError::InvalidCredentials => 401,
        ApiError::UserAlreadyExists => 409,
        ApiError::Unauthorized => 401,
        ApiError::NotFound => 404,
        ApiError::ValidationError(_) => 400,
        ApiError::InternalError(_) => 500,
    }
}

/// The text an error is answered with. Only a validation failure passes
/// its own message on; an internal failure never shows its detail.
pub open spec fn message_of(e: ApiError) -> Seq<char> {
    match e {
        ApiError::InvalidCredentials => "Invalid credentials"@,
        ApiError::UserAlreadyExists => "User already exists"@,
        ApiError::Unauthorized => "Unauthorized"@,
        ApiError::NotFound => "Not Found"@,
        ApiError::ValidationError(msg) => msg@,
        ApiError::InternalError(_) => "Internal server error"@,
    }
}

impl ApiError {
    /// Maps the error to its status code and message.
    pub fn into_response(self) -> (r: ErrorResponse)
        ensures
            r.status == status_of(self),
            r.message@ == message_of(self),
    {
        match self {
            ApiError::InvalidCredentials => ErrorResponse {
                status: 401,
                message: String::from_str("Invalid credentials"),
            },
            ApiError::UserAlreadyExists => ErrorResponse {
                status: 409,
                message: String::from_str("User already exists"),
            },
            ApiError::Unauthorized => ErrorResponse {
                status: 401,
                message: String::from_str("Unauthorized"),
            },
            ApiError::NotFound => ErrorResponse {
                status: 404,
                message: String::from_str("Not Found"),
            },
            ApiError::ValidationError(msg) => ErrorResponse { status: 400, message: msg },
            ApiError::InternalError(_) => ErrorResponse {
                status: 500,
                message: String::from_str("Internal server error"),
            },
        }
    }
}

} // verus!
