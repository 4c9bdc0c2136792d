//! Conversation roles.

use vstd::prelude::*;

verus! {

/// The sender of a conversation message.
#[derive(Debug, PartialEq, Eq, Clone)]
pub enum Role {
    System,
    User,
    Assistant,
}

impl Role {
    /// The wire name of the role.
    pub open spec fn spec_name(self) -> Seq<char> {
        match self {
            Role::System => "system"@,
            Role::User => "user"@,
            Role::Assistant => "assistant"@,
        }
    }

    /// The wire name of the role.
    pub fn as_ref(&self) -> (r: &'static str)
        ensures
            r@ == self.spec_name(),
    {
        match self {
            Role::System => "system",
            Role::User => "user",
            Role::Assistant => "assistant",
        }
    }

    /// The role a wire name denotes, if it denotes one.
    pub fn from_name(value: &str) -> (r: Option<Role>)
        ensures
            match r {
                Some(role) => role.spec_name() == value@,
                None => value@ != "system"@ && value@ != "user"@ && value@ != "assistant"@,
            },
    {
        if crate::json::str_eq(value, "user") {
            Some(Role::User)
        } else if crate::json::str_eq(value, "assistant") {
            Some(Role::Assistant)
        } else if crate::json::str_eq(value, "system") {
            Some(Role::System)
        } else {
            None
        }
    }
}

} // verus!
