//! The author of a message.

use crate::order::int_order;
use core::cmp::Ordering;
use vstd::prelude::*;
use vstd::std_specs::cmp::PartialOrdSpecImpl;

verus! {

/// Who produced a message. `User` orders before `Ai`.
#[derive(Debug, Clone, Copy, PartialEq, Eq, Ord, Structural)]
pub enum Role {
    User,
    Ai,
}

impl Role {
    /// The position of the role in the order of roles: `User` is 0, `Ai` is 1.
    pub open spec fn rank(self) -> int {
        match self {
            Role::User => 0,
            Role::Ai => 1,
        }
    }

    /// The text a role is written as: `"User"` or `"Ai"`.
    pub open spec fn text(self) -> Seq<char> {
        match self {
            Role::User => "User"@,
            Role::Ai => "Ai"@,
        }
    }

    /// The role that a text names, if it names one. Only the exact texts
    /// `"User"` and `"Ai"` name a role.
    pub open spec fn named(text: Seq<char>) -> Option<Role> {
        if text == "User"@ {
            Some(Role::User)
        } else if text == "Ai"@ {
            Some(Role::Ai)
        } else {
            None
        }
    }

    /// The role as text.
    pub fn to_string(&self) -> (text: String)
        ensures
            text@ == self.text(),
    {
        match self {
            Role::User => "User".to_owned(),
            Role::Ai => "Ai".to_owned(),
        }
    }

    /// Reads a role from its text.
    pub fn from_text(text: &str) -> (role: Option<Role>)
        ensures
            role == Role::named(text@),
    {
        let given = text.to_owned();
        if given == Role::User.to_string() {
            Some(Role::User)
        } else if given == Role::Ai.to_string() {
            Some(Role::Ai)
        } else {
            None
        }
    }
}

impl PartialOrd for Role {
    fn partial_cmp(&self, other: &Role) -> (order: Option<Ordering>) {
        match (*self, *other) {
            (Role::User, Role::Ai) => Some(Ordering::Less),
            (Role::Ai, Role::User) => Some(Ordering::Greater),
            _ => Some(Ordering::Equal),
        }
    }
}

impl PartialOrdSpecImpl for Role {
    open spec fn obeys_partial_cmp_spec() -> bool {
        true
    }

    open spec fn partial_cmp_spec(&self, other: &Role) -> Option<Ordering> {
        Some(int_order(self.rank(), other.rank()))
    }
}

} // verus!
