//! The user model: the closed set of roles and the authenticated user's full
//! record. The record is owned by the surrounding application's user store;
//! this library only reads it. Identifiers are opaque strings and timestamps
//! are whole-second Unix epoch values.

use vstd::prelude::*;

verus! {

/// The closed set of roles a user can hold. Authorization checks membership
/// of a policy set, never rank.
#[derive(Debug, Clone, Copy, PartialEq, Eq, Structural)]
pub enum UserRole {
    Admin,
    Moderator,
    User,
}

/// The lower-case wire name of each role.
pub open spec fn spec_role_str(r: UserRole) -> Seq<char> {
    match r {
        UserRole::Admin => "admin"@,
        UserRole::Moderator => "moderator"@,
        UserRole::User => "user"@,
    }
}

impl UserRole {
    pub fn to_str(&self) -> (r: &str)
        ensures
            r@ == spec_role_str(*self),
    {
        match self {
            UserRole::Admin => "admin",
            UserRole::Moderator => "moderator",
            UserRole::User => "user",
        }
    }
}

/// The authenticated user's record, as the user store hands it out.
#[derive(Debug, Clone)]
pub struct User {
    pub id: String,
    pub name: String,
    pub email: String,
    pub password: String,
    pub role: UserRole,
    pub photo: String,
    pub verified: bool,
    pub created_at: Option<i64>,
    pub updated_at: Option<i64>,
}

impl User {
    /// An exact copy of this record, field for field.
    pub fn duplicate(&self) -> (r: User)
        ensures
            r == *self,
    {
        User {
            id: self.id.clone(),
            name: self.name.clone(),
            email: self.email.clone(),
            password: self.password.clone(),
            role: self.role,
            photo: self.photo.clone(),
            verified: self.verified,
            created_at: self.created_at,
            updated_at: self.updated_at,
        }
    }
}

} // verus!
