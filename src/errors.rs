use vstd::prelude::*;
use vstd::string::StringExecFns;

verus! {

/// The error kinds that store operations and request handling produce.
#[derive(Debug)]
pub enum AppError {
    NotFound,
    InternalServerError(String),
    UnProcessableEntity { field: String, message: String },
    MissingEnvironmentVarible(String),
    ParsingError(String),
    Unauthorized(String),
    Conflict(String),
}

/// The text shown for an error.
pub open spec fn message_of(e: AppError) -> Seq<char> {
    match e {
        AppError::NotFound => "Resource not found"@,
        AppError::InternalServerError(s) => "Internal Server Error: "@ + s@,
        AppError::UnProcessableEntity { field, message } => "Invalid Input, cannot be processed: "@
            + field@ + " - "@ + message@,
        AppError::MissingEnvironmentVarible(s) => "Environment Variable is missing: "@ + s@,
        AppError::ParsingError(s) => "Failed to Parse: "@ + s@,
        AppError::Unauthorized(s) => "Unauthorized: "@ + s@,
        AppError::Conflict(s) => "Conflict: "@ + s@,
    }
}

impl AppError {
    /// The text shown for this error.
    pub fn message(&self) -> (r: String)
        ensures
            r@ == message_of(*self),
    {
        match self {
            AppError::NotFound => "Resource not found".to_owned(),
            AppError::InternalServerError(s) => "Internal Server Error: ".to_owned().concat(s.as_str()),
            AppError::UnProcessableEntity { field, message } => "Invalid Input, cannot be processed: ".to_owned().concat(
                field.as_str(),
            ).concat(" - ").concat(message.as_str()),
            AppError::MissingEnvironmentVarible(s) => "Environment Variable is missing: ".to_owned().concat(
                s.as_str(),
            ),
            AppError::ParsingError(s) => "Failed to Parse: ".to_owned().concat(s.as_str()),
            AppError::Unauthorized(s) => "Unauthorized: ".to_owned().concat(s.as_str()),
            AppError::Conflict(s) => "Conflict: ".to_owned().concat(s.as_str()),
        }
    }
}

} // verus!
