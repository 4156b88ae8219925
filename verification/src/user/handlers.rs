//! What the user requests do, from the decoded request to the answer.

use vstd::prelude::*;

use crate::common::error::{AppError, ConflictError, ValidationError};
use crate::common::time::NANOS_PER_SECOND;
use crate::db::Database;
use crate::room::repository::{clock_text, key_space_text};

use super::repository;
use super::types::{is_valid_email, lowercase, CreateUserRequest, Email, UserId, UserResponse};

verus! {

/// Checks the address of the request, stores the user stamped `created_at` and answers
/// it. An address that is refused is an invalid e-mail; an address that a user already
/// has is a conflict; a table without a key left is a database error.
pub fn create_user_at(db: &mut Database, req: CreateUserRequest, created_at: i64) -> (r: Result<
    UserResponse,
    AppError,
>)
    requires
        old(db).wf(),
    ensures
        final(db).wf(),
        match r {
            Ok(resp) => {
                &&& is_valid_email(req.email@)
                &&& !old(db)@.email_taken(lowercase(req.email@))
                &&& old(db)@.users.len() < i32::MAX
                &&& final(db)@ == old(db)@.with_user(lowercase(req.email@), req.name@, created_at)
                &&& resp.shows(final(db)@.users.last())
            },
            Err(AppError::Validation(ValidationError::InvalidEmail)) => {
                &&& !is_valid_email(req.email@)
                &&& final(db)@ == old(db)@
            },
            Err(AppError::Conflict(ConflictError::EmailAlreadyExists)) => {
                &&& is_valid_email(req.email@)
                &&& old(db)@.email_taken(lowercase(req.email@))
                &&& final(db)@ == old(db)@
            },
            Err(AppError::Database(msg)) => {
                &&& is_valid_email(req.email@)
                &&& !old(db)@.email_taken(lowercase(req.email@))
                &&& old(db)@.users.len() >= i32::MAX
                &&& msg@ == key_space_text()
                &&& final(db)@ == old(db)@
            },
            Err(_) => false,
        },
{
    let email = match Email::parse(req.email.as_str()) {
        Ok(email) => email,
        Err(e) => {
            return Err(AppError::Validation(e));
        },
    };
    let user = repository::create_user_at(db, &email, req.name.as_str(), created_at)?;
    Ok(UserResponse::from(user))
}

/// Checks the address of the request, stores the user stamped with the current time
/// cut down to the whole second, and answers it.
pub fn create_user(db: &mut Database, req: CreateUserRequest) -> (r: Result<UserResponse, AppError>)
    requires
        old(db).wf(),
    ensures
        final(db).wf(),
        match r {
            Ok(resp) => {
                &&& is_valid_email(req.email@)
                &&& !old(db)@.email_taken(lowercase(req.email@))
                &&& old(db)@.users.len() < i32::MAX
                &&& final(db)@ == old(db)@.with_user(
                    lowercase(req.email@),
                    req.name@,
                    final(db)@.users.last().created_at,
                )
                &&& resp.shows(final(db)@.users.last())
                &&& final(db)@.users.last().created_at >= 0
                &&& final(db)@.users.last().created_at % NANOS_PER_SECOND == 0
            },
            Err(AppError::Validation(ValidationError::InvalidEmail)) => {
                &&& !is_valid_email(req.email@)
                &&& final(db)@ == old(db)@
            },
            Err(AppError::Conflict(ConflictError::EmailAlreadyExists)) => {
                &&& is_valid_email(req.email@)
                &&& old(db)@.email_taken(lowercase(req.email@))
                &&& final(db)@ == old(db)@
            },
            Err(AppError::Database(msg)) => {
                &&& is_valid_email(req.email@)
                &&& final(db)@ == old(db)@
                &&& !old(db)@.email_taken(lowercase(req.email@))
                &&& (old(db)@.users.len() >= i32::MAX && msg@ == key_space_text() || old(
                    db,
                )@.users.len() < i32::MAX && msg@ == clock_text())
            },
            Err(_) => false,
        },
        !is_valid_email(req.email@) <==> r matches Err(
            AppError::Validation(ValidationError::InvalidEmail),
        ),
{
    let email = match Email::parse(req.email.as_str()) {
        Ok(email) => email,
        Err(e) => {
            return Err(AppError::Validation(e));
        },
    };
    let user = repository::create_user(db, &email, req.name.as_str())?;
    Ok(UserResponse::from(user))
}

/// Answers the user with the given key.
pub fn get_user(db: &Database, user_id: i32) -> (r: Result<UserResponse, AppError>)
    requires
        db.wf(),
    ensures
        match db@.find_user(user_id) {
            Some(v) => r matches Ok(resp) && resp.shows(v),
            None => r matches Err(AppError::NotFound(msg)) && msg@
                == crate::room::repository::not_found_text(),
        },
{
    let user = repository::get_user_by_id(db, UserId(user_id))?;
    Ok(UserResponse::from(user))
}

} // verus!
