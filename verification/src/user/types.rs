//! Users and their e-mail addresses.

use vstd::prelude::*;
use vstd::string::StrSliceExecFns;
use vstd::std_specs::convert::FromSpecImpl;

use crate::common::error::ValidationError;
use crate::common::time::{format_rfc3339, rfc3339_text};

verus! {

/// The key of a user.
#[derive(Debug, Clone, Copy, PartialEq, Eq, Structural, Hash)]
pub struct UserId(pub i32);

impl From<i32> for UserId {
    fn from(id: i32) -> Self {
        UserId(id)
    }
}

impl FromSpecImpl<i32> for UserId {
    open spec fn obeys_from_spec() -> bool {
        true
    }

    open spec fn from_spec(v: i32) -> UserId {
        UserId(v)
    }
}

impl From<UserId> for i32 {
    fn from(id: UserId) -> Self {
        id.0
    }
}

impl FromSpecImpl<UserId> for i32 {
    open spec fn obeys_from_spec() -> bool {
        true
    }

    open spec fn from_spec(v: UserId) -> i32 {
        v.0
    }
}

/// A stored user.
#[derive(Debug, Clone)]
pub struct User {
    pub id: i32,
    pub email: String,
    pub name: String,
    /// When the user was stored (nanoseconds since the Unix epoch).
    pub created_at: i64,
}

/// A user as plain values.
pub struct UserView {
    pub id: i32,
    pub email: Seq<char>,
    pub name: Seq<char>,
    pub created_at: i64,
}

impl View for User {
    type V = UserView;

    open spec fn view(&self) -> UserView {
        UserView { id: self.id, email: self.email@, name: self.name@, created_at: self.created_at }
    }
}

impl User {
    pub fn user_id(&self) -> (r: UserId)
        ensures
            r.0 == self.id,
    {
        UserId(self.id)
    }

    /// A copy of the user.
    pub(crate) fn duplicate(&self) -> (r: User)
        ensures
            r@ == self@,
    {
        User {
            id: self.id,
            email: self.email.clone(),
            name: self.name.clone(),
            created_at: self.created_at,
        }
    }
}

/// What `str::to_lowercase` makes of a text: Unicode's lower-case mapping of each
/// character, with its context-dependent cases.
pub uninterp spec fn lowercase(s: Seq<char>) -> Seq<char>;

/// Calls `str::to_lowercase`; the contract claims only that the result is
/// `lowercase` of the argument's characters, a function of them alone.
#[verifier::external_body]
fn str_to_lowercase(s: &str) -> (r: String)
    ensures
        r@ == lowercase(s@),
{
    s.to_lowercase()
}

/// The longest address, in UTF-8 bytes, that is accepted.
pub const MAX_EMAIL_BYTES: usize = 254;

/// Whether a text is accepted as an e-mail address: it holds an `@` and its UTF-8
/// length, as `str::len` gives it, is at most 254 bytes.
pub open spec fn is_valid_email(value: Seq<char>) -> bool {
    value.contains('@') && (vstd::utf8::encode_utf8(value).len() as usize) <= MAX_EMAIL_BYTES
}

/// An accepted e-mail address, kept in lower case.
#[derive(Debug, Clone)]
pub struct Email(String);

impl View for Email {
    type V = Seq<char>;

    closed spec fn view(&self) -> Seq<char> {
        self.0@
    }
}

impl Email {
    /// Accepts an address that holds an `@` and is at most 254 bytes long, and keeps
    /// it in lower case.
    pub fn parse(value: &str) -> (r: Result<Self, ValidationError>)
        ensures
            match r {
                Ok(email) => is_valid_email(value@) && email@ == lowercase(value@),
                Err(e) => !is_valid_email(value@) && e == ValidationError::InvalidEmail,
            },
    {
        if value.len() > MAX_EMAIL_BYTES {
            return Err(ValidationError::InvalidEmail);
        }
        let n = value.unicode_len();
        let mut i: usize = 0;
        let mut found = false;
        while i < n && !found
            invariant
                n == value@.len(),
                i <= n,
                found ==> value@.contains('@'),
                !found ==> forall|k: int| 0 <= k < i ==> value@[k] != '@',
            decreases n - i,
        {
            if value.get_char(i) == '@' {
                found = true;
            }
            i = i + 1;
        }
        if !found {
            return Err(ValidationError::InvalidEmail);
        }
        Ok(Email(str_to_lowercase(value)))
    }

    pub fn as_str(&self) -> (r: &str)
        ensures
            r@ == self@,
    {
        self.0.as_str()
    }
}

/// The columns given when a user is stored.
#[derive(Debug)]
pub struct NewUser<'a> {
    pub email: &'a str,
    pub name: &'a str,
}

/// The body of a request that creates a user.
#[derive(Debug)]
pub struct CreateUserRequest {
    pub email: String,
    pub name: String,
}

/// A user as it is answered, its creation time in RFC 3339 form.
#[derive(Debug)]
pub struct UserResponse {
    pub id: i32,
    pub email: String,
    pub name: String,
    pub created_at: String,
}

impl UserResponse {
    /// Whether the answer shows the user `v`.
    pub open spec fn shows(self, v: UserView) -> bool {
        &&& self.id == v.id
        &&& self.email@ == v.email
        &&& self.name@ == v.name
        &&& self.created_at@ == rfc3339_text(v.created_at)
    }

    /// The answer that shows `user`.
    pub fn from(user: User) -> (r: Self)
        ensures
            r.id == user.id,
            r.email@ == user.email@,
            r.name@ == user.name@,
            r.created_at@ == rfc3339_text(user.created_at),
            r.shows(user@),
    {
        let created_at = format_rfc3339(user.created_at);
        UserResponse { id: user.id, email: user.email, name: user.name, created_at }
    }
}

} // verus!
