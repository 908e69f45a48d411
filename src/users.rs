use vstd::prelude::*;

use crate::roles::{RolesEnum, StatusEnum};

verus! {

/// An account as the credential store returns it, without its password digest.
pub struct User {
    pub user_id: i32,
    pub name: String,
    pub last_name: String,
    pub email: String,
    pub role: RolesEnum,
    pub status: StatusEnum,
    pub email_validated: bool,
}

/// The login view of an account: its identifier and password digest.
pub struct UserModel {
    pub user_id: i32,
    pub email: String,
    pub password_hash: String,
    pub role: RolesEnum,
    pub email_validated: bool,
}

/// Filters of the account listing, by stored status and role names.
pub struct UserFilters {
    pub status: String,
    pub role: String,
}

/// The role that the account listing shows when none is asked for.
pub fn default_role() -> (r: String)
    ensures
        r@ == "User"@,
{
    String::from_str("User")
}

/// The status that the account listing shows when none is asked for.
pub fn default_status() -> (r: String)
    ensures
        r@ == "Pending"@,
{
    String::from_str("Pending")
}

} // verus!
