use rs2026::common::error::{AppError, ConflictError, DbFailure, ValidationError};

fn parts(e: AppError) -> (u16, String, String) {
    let (status, body) = e.into_response();
    (status, body.code, body.error)
}

#[test]
fn validation_errors_are_bad_requests() {
    let cases = [
        (ValidationError::EndBeforeStart, "INVALID_TIME_RANGE", "End time must be after start time"),
        (ValidationError::ReservationInPast, "RESERVATION_IN_PAST", "Reservation cannot be made in the past"),
        (ValidationError::InvalidRoomId, "INVALID_ROOM_ID", "Invalid room ID"),
        (ValidationError::InvalidUserId, "INVALID_USER_ID", "Invalid user ID"),
        (ValidationError::InvalidEmail, "INVALID_EMAIL", "Invalid email"),
        (ValidationError::CapacityTooLarge, "CAPACITY_TOO_LARGE", "Capacity too large"),
    ];
    for (e, code, text) in cases {
        let (status, c, message) = parts(AppError::from(e));
        assert_eq!(status, 400);
        assert_eq!(c, code);
        assert_eq!(message, format!("Validation error: {}", text));
    }
}

#[test]
fn conflicts_are_409() {
    let (status, code, message) = parts(AppError::from(ConflictError::OverlappingReservation));
    assert_eq!((status, code.as_str()), (409, "OVERLAPPING_RESERVATION"));
    assert_eq!(message, "Conflict: Overlapping reservation exists");
    let (status, code, message) = parts(AppError::Conflict(ConflictError::EmailAlreadyExists));
    assert_eq!((status, code.as_str()), (409, "EMAIL_ALREADY_EXISTS"));
    assert_eq!(message, "Conflict: Email already exists");
}

#[test]
fn not_found_and_database_errors() {
    let (status, code, message) = parts(AppError::NotFound("Resource not found".to_string()));
    assert_eq!((status, code.as_str()), (404, "NOT_FOUND"));
    assert_eq!(message, "Not found: Resource not found");
    let (status, code, message) = parts(AppError::Database("disk full".to_string()));
    assert_eq!((status, code.as_str()), (500, "DATABASE_ERROR"));
    assert_eq!(message, "Database error: disk full");
}

#[test]
fn storage_failures_map_to_errors() {
    match AppError::from_db_failure(DbFailure::NotFound) {
        AppError::NotFound(msg) => assert_eq!(msg, "Resource not found"),
        other => panic!("unexpected {:?}", other),
    }
    assert!(matches!(
        AppError::from_db_failure(DbFailure::UniqueViolation),
        AppError::Conflict(ConflictError::EmailAlreadyExists)
    ));
    match AppError::from_db_failure(DbFailure::Other("locked".to_string())) {
        AppError::Database(msg) => assert_eq!(msg, "locked"),
        other => panic!("unexpected {:?}", other),
    }
}
