//! Data-transfer shapes of the service's requests and replies, and the
//! filtering of a stored user record into its public form — the one place a
//! record's private fields (the password hash) are dropped before a record
//! leaves the service.

use vstd::prelude::*;

use crate::models::{spec_role_str, User};

verus! {

pub struct RegisterUSerDto {
    pub name: String,
    pub email: String,
    pub password: String,
    pub password_confirmation: String,
}

pub struct LoginUserDto {
    pub email: String,
    pub password: String,
}

pub struct RequestQueryDto {
    pub page: Option<usize>,
    pub limit: Option<usize>,
}

/// A user record as it leaves the service: no password, the role by its wire
/// name.
pub struct FilterUserDto {
    pub id: String,
    pub name: String,
    pub email: String,
    pub role: String,
    pub photo: String,
    pub verified: bool,
    pub created_at: Option<i64>,
    pub updated_at: Option<i64>,
}

pub struct UserData {
    pub user: FilterUserDto,
}

pub struct UserResponseDto {
    pub status: String,
    pub data: UserData,
}

pub struct UserListResponseDto {
    pub status: String,
    pub data: Vec<FilterUserDto>,
    pub results: usize,
}

pub struct UserLoginResponseDto {
    pub status: String,
    pub token: String,
}

/// `f` is exactly the public form of the record `u`.
pub open spec fn filter_matches(u: User, f: FilterUserDto) -> bool {
    &&& f.id@ == u.id@
    &&& f.name@ == u.name@
    &&& f.email@ == u.email@
    &&& f.role@ == spec_role_str(u.role)
    &&& f.photo@ == u.photo@
    &&& f.verified == u.verified
    &&& f.created_at == u.created_at
    &&& f.updated_at == u.updated_at
}

impl FilterUserDto {
    pub fn filter_user(user: &User) -> (r: FilterUserDto)
        ensures
            filter_matches(*user, r),
    {
        FilterUserDto {
            id: user.id.clone(),
            email: user.email.clone(),
            name: user.name.clone(),
            photo: user.photo.clone(),
            role: user.role.to_str().to_owned(),
            verified: user.verified,
            created_at: user.created_at,
            updated_at: user.updated_at,
        }
    }

    pub fn filter_users(users: &[User]) -> (r: Vec<FilterUserDto>)
        ensures
            r@.len() == users@.len(),
            forall|i: int| 0 <= i < users@.len() ==> filter_matches(users@[i], #[trigger] r@[i]),
    {
        let mut out: Vec<FilterUserDto> = Vec::new();
        let mut idx: usize = 0;
        while idx < users.len()
            invariant
                idx <= users@.len(),
                out@.len() == idx,
                forall|i: int| 0 <= i < idx ==> filter_matches(users@[i], #[trigger] out@[i]),
            decreases users@.len() - idx,
        {
            let f = FilterUserDto::filter_user(&users[idx]);
            out.push(f);
            idx += 1;
        }
        out
    }
}

} // verus!
