//! The `User` record and its validating constructor.

use vstd::prelude::*;
use crate::text::{is_blank, str_contains_char, str_is_blank};

verus! {

/// Message of the error returned for a blank name.
pub const EMPTY_NAME: &'static str = "Name cannot be empty";

/// Message of the error returned for an email address without `@`.
pub const INVALID_EMAIL: &'static str = "Invalid email format";

/// A person record.
///
/// The fields are public: a record can be assembled field by field, as a
/// decoder does, and such a record need not be valid. `User::new` is the
/// only constructor that checks, and what it returns satisfies `is_valid`.
#[derive(Debug, Clone)]
pub struct User {
    pub id: u64,
    pub name: String,
    pub email: String,
}

/// The message with which `User::new` rejects a name and an email address,
/// or `None` where it accepts them. The name is checked first.
pub open spec fn rejection(name: Seq<char>, email: Seq<char>) -> Option<Seq<char>> {
    if is_blank(name) {
        Some(EMPTY_NAME@)
    } else if !email.contains('@') {
        Some(INVALID_EMAIL@)
    } else {
        None
    }
}

impl User {
    /// The two rules of a valid record: the name has a character that is not
    /// whitespace, and the email address has an `@`.
    pub open spec fn is_valid(&self) -> bool {
        rejection(self.name@, self.email@) is None
    }

    /// Builds a record from its three fields, or says which rule the fields
    /// break. Nothing is trimmed or otherwise changed on the way in.
    pub fn new(id: u64, name: String, email: String) -> (r: Result<User, String>)
        ensures
            match rejection(name@, email@) {
                Some(message) => r matches Err(e) && e@ == message,
                None => r == Ok::<User, String>(User { id, name, email }),
            },
            r matches Ok(user) ==> user.is_valid(),
    {
        if str_is_blank(name.as_str()) {
            return Err(EMPTY_NAME.to_owned());
        }
        if !str_contains_char(email.as_str(), '@') {
            return Err(INVALID_EMAIL.to_owned());
        }
        Ok(User { id, name, email })
    }
}

/// Two records are equal when their three fields are: the same id, and
/// names and email addresses that read the same character for character.
impl PartialEq for User {
    fn eq(&self, other: &Self) -> (r: bool) {
        self.id == other.id && self.name == other.name && self.email == other.email
    }
}

impl vstd::std_specs::cmp::PartialEqSpecImpl for User {
    open spec fn obeys_eq_spec() -> bool {
        true
    }

    open spec fn eq_spec(&self, other: &Self) -> bool {
        &&& self.id == other.id
        &&& self.name@ == other.name@
        &&& self.email@ == other.email@
    }
}

} // verus!
