//! Storing and finding users.

use vstd::prelude::*;
use vstd::string::StringExecFns;

use crate::common::error::{AppError, ConflictError};
use crate::common::time::{clock_now, truncate_to_second, NANOS_PER_SECOND};
use crate::db::Database;
use crate::room::repository::{
    clock_error, clock_text, key_space_error, key_space_text, not_found_error, not_found_text,
};

use super::types::{Email, NewUser, User, UserId};

verus! {

/// Whether some user already has the address `email`.
fn email_in_use(db: &Database, email: &str) -> (r: bool)
    requires
        db.wf(),
    ensures
        r == db@.email_taken(email@),
{
    let target = String::from_str(email);
    let n = db.user_count();
    let mut i: usize = 0;
    while i < n
        invariant
            n == db@.users.len(),
            target@ == email@,
            i <= n,
            forall|k: int| 0 <= k < i ==> #[trigger] db@.users[k].email != email@,
        decreases n - i,
    {
        let user = db.user_at(i);
        if user.email == target {
            assert(db@.users[i as int].email == email@);
            return true;
        }
        i = i + 1;
    }
    false
}

/// Adds a user with a free address under the next key, stamped `created_at`.
fn store_user(db: &mut Database, email: &Email, name: &str, created_at: i64) -> (user: User)
    requires
        old(db).wf(),
        old(db)@.users.len() < i32::MAX,
        !old(db)@.email_taken(email@),
    ensures
        final(db).wf(),
        final(db)@ == old(db)@.with_user(email@, name@, created_at),
        user@ == final(db)@.users.last(),
{
    let new_user = NewUser { email: email.as_str(), name };
    let id = db.insert_user(new_user, created_at);
    db.user_at((id - 1) as usize).duplicate()
}

/// Stores a user created at `created_at`. An address that a user already has is a
/// conflict; a table without a key left is a database error.
pub fn create_user_at(db: &mut Database, email: &Email, name: &str, created_at: i64) -> (r:
    Result<User, AppError>)
    requires
        old(db).wf(),
    ensures
        final(db).wf(),
        match r {
            Ok(user) => {
                &&& !old(db)@.email_taken(email@)
                &&& old(db)@.users.len() < i32::MAX
                &&& final(db)@ == old(db)@.with_user(email@, name@, created_at)
                &&& user@ == final(db)@.users.last()
            },
            Err(AppError::Conflict(ConflictError::EmailAlreadyExists)) => old(db)@.email_taken(
                email@,
            ) && final(db)@ == old(db)@,
            Err(AppError::Database(msg)) => {
                &&& !old(db)@.email_taken(email@)
                &&& old(db)@.users.len() >= i32::MAX
                &&& msg@ == key_space_text()
                &&& final(db)@ == old(db)@
            },
            Err(_) => false,
        },
{
    if email_in_use(db, email.as_str()) {
        return Err(AppError::Conflict(ConflictError::EmailAlreadyExists));
    }
    if db.user_count() >= i32::MAX as usize {
        return Err(key_space_error());
    }
    Ok(store_user(db, email, name, created_at))
}

/// Stores a user, stamped with the current time cut down to the whole second. The
/// store's own checks come first: a taken address is a conflict and a table without a
/// key left is a database error; only then is the clock read, and a clock that no
/// timestamp holds is a database error too.
pub fn create_user(db: &mut Database, email: &Email, name: &str) -> (r: Result<User, AppError>)
    requires
        old(db).wf(),
    ensures
        final(db).wf(),
        match r {
            Ok(user) => {
                &&& !old(db)@.email_taken(email@)
                &&& old(db)@.users.len() < i32::MAX
                &&& final(db)@ == old(db)@.with_user(email@, name@, user.created_at)
                &&& user@ == final(db)@.users.last()
                &&& user.created_at >= 0
                &&& user.created_at % NANOS_PER_SECOND == 0
            },
            Err(AppError::Conflict(ConflictError::EmailAlreadyExists)) => old(db)@.email_taken(
                email@,
            ) && final(db)@ == old(db)@,
            Err(AppError::Database(msg)) => {
                &&& final(db)@ == old(db)@
                &&& !old(db)@.email_taken(email@)
                &&& (old(db)@.users.len() >= i32::MAX && msg@ == key_space_text() || old(
                    db,
                )@.users.len() < i32::MAX && msg@ == clock_text())
            },
            Err(_) => false,
        },
{
    if email_in_use(db, email.as_str()) {
        return Err(AppError::Conflict(ConflictError::EmailAlreadyExists));
    }
    if db.user_count() >= i32::MAX as usize {
        return Err(key_space_error());
    }
    match clock_now() {
        Some(now) => Ok(store_user(db, email, name, truncate_to_second(now))),
        None => Err(clock_error()),
    }
}

/// The user with the given key.
pub fn get_user_by_id(db: &Database, user_id: UserId) -> (r: Result<User, AppError>)
    requires
        db.wf(),
    ensures
        match db@.find_user(user_id.0) {
            Some(v) => r matches Ok(user) && user@ == v,
            None => r matches Err(AppError::NotFound(msg)) && msg@ == not_found_text(),
        },
{
    let id = user_id.0;
    if id < 1 || id as usize > db.user_count() {
        return Err(not_found_error());
    }
    Ok(db.user_at((id - 1) as usize).duplicate())
}

/// Whether a user has the given key.
pub fn user_exists(db: &Database, user_id: UserId) -> (r: Result<bool, AppError>)
    requires
        db.wf(),
    ensures
        r matches Ok(b) && b == db@.find_user(user_id.0) is Some,
{
    Ok(1 <= user_id.0 && user_id.0 as usize <= db.user_count())
}

} // verus!
