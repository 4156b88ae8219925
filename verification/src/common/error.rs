//! Errors of the service and the HTTP answer that each one gets.

use vstd::prelude::*;
use vstd::std_specs::convert::FromSpecImpl;
use vstd::string::StringExecFns;

verus! {

/// A request that breaks one of the service's input rules.
#[derive(Debug, PartialEq, Eq, Structural, Clone, Copy)]
pub enum ValidationError {
    EndBeforeStart,
    ReservationInPast,
    InvalidRoomId,
    InvalidUserId,
    InvalidEmail,
    CapacityTooLarge,
}

/// A request that collides with what the store already holds.
#[derive(Debug, PartialEq, Eq, Structural, Clone, Copy)]
pub enum ConflictError {
    OverlappingReservation,
    EmailAlreadyExists,
}

/// Every error a request can end in.
#[derive(Debug)]
pub enum AppError {
    Validation(ValidationError),
    Conflict(ConflictError),
    NotFound(String),
    Database(String),
}

/// How an operation of the storage engine failed.
#[derive(Debug)]
pub enum DbFailure {
    /// The row that was asked for is not there.
    NotFound,
    /// A row would have broken a uniqueness constraint.
    UniqueViolation,
    /// Any other failure, with its text.
    Other(String),
}

/// The JSON body of an error answer.
pub struct ErrorResponse {
    pub error: String,
    pub code: String,
}

impl From<ValidationError> for AppError {
    fn from(err: ValidationError) -> Self {
        AppError::Validation(err)
    }
}

impl FromSpecImpl<ValidationError> for AppError {
    open spec fn obeys_from_spec() -> bool {
        true
    }

    open spec fn from_spec(v: ValidationError) -> AppError {
        AppError::Validation(v)
    }
}

impl From<ConflictError> for AppError {
    fn from(err: ConflictError) -> Self {
        AppError::Conflict(err)
    }
}

impl FromSpecImpl<ConflictError> for AppError {
    open spec fn obeys_from_spec() -> bool {
        true
    }

    open spec fn from_spec(v: ConflictError) -> AppError {
        AppError::Conflict(v)
    }
}

impl ValidationError {
    /// The human-readable text of the error.
    pub open spec fn spec_message(self) -> Seq<char> {
        match self {
            ValidationError::EndBeforeStart => "End time must be after start time"@,
            ValidationError::ReservationInPast => "Reservation cannot be made in the past"@,
            ValidationError::InvalidRoomId => "Invalid room ID"@,
            ValidationError::InvalidUserId => "Invalid user ID"@,
            ValidationError::InvalidEmail => "Invalid email"@,
            ValidationError::CapacityTooLarge => "Capacity too large"@,
        }
    }

    pub fn message(&self) -> (r: String)
        ensures
            r@ == self.spec_message(),
    {
        match self {
            ValidationError::EndBeforeStart => String::from_str("End time must be after start time"),
            ValidationError::ReservationInPast => String::from_str(
                "Reservation cannot be made in the past",
            ),
            ValidationError::InvalidRoomId => String::from_str("Invalid room ID"),
            ValidationError::InvalidUserId => String::from_str("Invalid user ID"),
            ValidationError::InvalidEmail => String::from_str("Invalid email"),
            ValidationError::CapacityTooLarge => String::from_str("Capacity too large"),
        }
    }
}

impl ConflictError {
    /// The human-readable text of the error.
    pub open spec fn spec_message(self) -> Seq<char> {
        match self {
            ConflictError::OverlappingReservation => "Overlapping reservation exists"@,
            ConflictError::EmailAlreadyExists => "Email already exists"@,
        }
    }

    pub fn message(&self) -> (r: String)
        ensures
            r@ == self.spec_message(),
    {
        match self {
            ConflictError::OverlappingReservation => String::from_str(
                "Overlapping reservation exists",
            ),
            ConflictError::EmailAlreadyExists => String::from_str("Email already exists"),
        }
    }
}

impl AppError {
    /// The human-readable text of the error.
    pub open spec fn spec_message(&self) -> Seq<char> {
        match self {
            AppError::Validation(e) => "Validation error: "@ + e.spec_message(),
            AppError::Conflict(e) => "Conflict: "@ + e.spec_message(),
            AppError::NotFound(s) => "Not found: "@ + s@,
            AppError::Database(s) => "Database error: "@ + s@,
        }
    }

    /// The HTTP status code of the answer.
    pub open spec fn spec_status(&self) -> u16 {
        match self {
            AppError::Validation(_) => 400,
            AppError::Conflict(_) => 409,
            AppError::NotFound(_) => 404,
            AppError::Database(_) => 500,
        }
    }

    /// The machine-readable code of the answer.
    pub open spec fn spec_code(&self) -> Seq<char> {
        match self {
            AppError::Validation(ValidationError::EndBeforeStart) => "INVALID_TIME_RANGE"@,
            AppError::Validation(ValidationError::ReservationInPast) => "RESERVATION_IN_PAST"@,
            AppError::Validation(ValidationError::InvalidRoomId) => "INVALID_ROOM_ID"@,
            AppError::Validation(ValidationError::InvalidUserId) => "INVALID_USER_ID"@,
            AppError::Validation(ValidationError::InvalidEmail) => "INVALID_EMAIL"@,
            AppError::Validation(ValidationError::CapacityTooLarge) => "CAPACITY_TOO_LARGE"@,
            AppError::Conflict(ConflictError::OverlappingReservation) => "OVERLAPPING_RESERVATION"@,
            AppError::Conflict(ConflictError::EmailAlreadyExists) => "EMAIL_ALREADY_EXISTS"@,
            AppError::NotFound(_) => "NOT_FOUND"@,
            AppError::Database(_) => "DATABASE_ERROR"@,
        }
    }

    pub fn message(&self) -> (r: String)
        ensures
            r@ == self.spec_message(),
    {
        match self {
            AppError::Validation(e) => {
                let mut s = String::from_str("Validation error: ");
                let m = e.message();
                s.append(m.as_str());
                s
            },
            AppError::Conflict(e) => {
                let mut s = String::from_str("Conflict: ");
                let m = e.message();
                s.append(m.as_str());
                s
            },
            AppError::NotFound(d) => {
                let mut s = String::from_str("Not found: ");
                s.append(d.as_str());
                s
            },
            AppError::Database(d) => {
                let mut s = String::from_str("Database error: ");
                s.append(d.as_str());
                s
            },
        }
    }

    pub fn status(&self) -> (r: u16)
        ensures
            r == self.spec_status(),
    {
        match self {
            AppError::Validation(_) => 400,
            AppError::Conflict(_) => 409,
            AppError::NotFound(_) => 404,
            AppError::Database(_) => 500,
        }
    }

    pub fn code(&self) -> (r: &'static str)
        ensures
            r@ == self.spec_code(),
    {
        match self {
            AppError::Validation(ValidationError::EndBeforeStart) => "INVALID_TIME_RANGE",
            AppError::Validation(ValidationError::ReservationInPast) => "RESERVATION_IN_PAST",
            AppError::Validation(ValidationError::InvalidRoomId) => "INVALID_ROOM_ID",
            AppError::Validation(ValidationError::InvalidUserId) => "INVALID_USER_ID",
            AppError::Validation(ValidationError::InvalidEmail) => "INVALID_EMAIL",
            AppError::Validation(ValidationError::CapacityTooLarge) => "CAPACITY_TOO_LARGE",
            AppError::Conflict(ConflictError::OverlappingReservation) => "OVERLAPPING_RESERVATION",
            AppError::Conflict(ConflictError::EmailAlreadyExists) => "EMAIL_ALREADY_EXISTS",
            AppError::NotFound(_) => "NOT_FOUND",
            AppError::Database(_) => "DATABASE_ERROR",
        }
    }

    /// The error that a failure of the storage engine gives: a missing row is not
    /// found, a broken uniqueness constraint is a taken e-mail address, and anything
    /// else is a database error with the failure's text.
    pub fn from_db_failure(failure: DbFailure) -> (r: AppError)
        ensures
            match failure {
                DbFailure::NotFound => r matches AppError::NotFound(msg) && msg@
                    == "Resource not found"@,
                DbFailure::UniqueViolation => r == AppError::Conflict(
                    ConflictError::EmailAlreadyExists,
                ),
                DbFailure::Other(text) => r matches AppError::Database(msg) && msg@ == text@,
            },
    {
        match failure {
            DbFailure::NotFound => AppError::NotFound(String::from_str("Resource not found")),
            DbFailure::UniqueViolation => AppError::Conflict(ConflictError::EmailAlreadyExists),
            DbFailure::Other(text) => AppError::Database(text),
        }
    }

    /// The answer to a failed request: its status code and its JSON body.
    pub fn into_response(self) -> (r: (u16, ErrorResponse))
        ensures
            r.0 == self.spec_status(),
            r.1.error@ == self.spec_message(),
            r.1.code@ == self.spec_code(),
    {
        let status = self.status();
        let code = String::from_str(self.code());
        let error = self.message();
        (status, ErrorResponse { error, code })
    }
}

} // verus!
