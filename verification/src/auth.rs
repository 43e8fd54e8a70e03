//! Authenticated callers and their privileges.

use vstd::prelude::*;
use crate::catalog::User;
use crate::text::str_eq;

verus! {

/// A caller whose session resolved to a user.
pub struct AuthUser(pub User);

/// A caller whose session resolved to an administrator.
pub struct AdminOnly(pub User);

impl AuthUser {
    /// Whether the user holds at least the junior-moderator role.
    pub fn is_minimod(&self) -> (r: bool)
        ensures
            r == (self.0.role@ == "minimod"@ || self.0.role@ == "mod"@ || self.0.role@
                == "admin"@),
    {
        str_eq(self.0.role.as_str(), "minimod") || str_eq(self.0.role.as_str(), "mod") || str_eq(
            self.0.role.as_str(),
            "admin",
        )
    }

    /// Whether the user holds at least the moderator role.
    pub fn is_mod(&self) -> (r: bool)
        ensures
            r == (self.0.role@ == "mod"@ || self.0.role@ == "admin"@),
    {
        str_eq(self.0.role.as_str(), "mod") || str_eq(self.0.role.as_str(), "admin")
    }

    /// Whether the user is an administrator.
    pub fn is_admin(&self) -> (r: bool)
        ensures
            r == (self.0.role@ == "admin"@),
    {
        str_eq(self.0.role.as_str(), "admin")
    }
}

} // verus!
