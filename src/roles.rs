use vstd::prelude::*;

verus! {

/// The closed set of account roles.
#[derive(Clone, Copy, Debug, PartialEq, Eq, Structural)]
pub enum RolesEnum {
    User,
    RestaurantOwner,
    Admin,
}

/// The approval status of an account.
#[derive(Clone, Copy, Debug, PartialEq, Eq, Structural)]
pub enum StatusEnum {
    Pending,
    Accepted,
    Blocked,
}

/// The name under which a role is stored and carried in tokens.
pub open spec fn role_name(role: RolesEnum) -> Seq<char> {
    match role {
        RolesEnum::User => "User"@,
        RolesEnum::RestaurantOwner => "RestaurantOwner"@,
        RolesEnum::Admin => "Admin"@,
    }
}

/// The name under which a status is stored.
pub open spec fn status_name(status: StatusEnum) -> Seq<char> {
    match status {
        StatusEnum::Pending => "Pending"@,
        StatusEnum::Accepted => "Accepted"@,
        StatusEnum::Blocked => "Blocked"@,
    }
}

/// Character-wise equality of two string slices.
pub fn str_equal(a: &str, b: &str) -> (r: bool)
    ensures
        r == (a@ == b@),
{
    let x = a.to_owned();
    let y = b.to_owned();
    x == y
}

impl RolesEnum {
    pub fn name(&self) -> (r: String)
        ensures
            r@ == role_name(*self),
    {
        match self {
            RolesEnum::User => String::from_str("User"),
            RolesEnum::RestaurantOwner => String::from_str("RestaurantOwner"),
            RolesEnum::Admin => String::from_str("Admin"),
        }
    }

    /// Reads a stored role name; any other text is refused.
    pub fn from_name(s: &str) -> (r: Option<RolesEnum>)
        ensures
            r matches Some(role) ==> role_name(role) == s@,
            r is None ==> forall|role: RolesEnum| role_name(role) != s@,
    {
        if str_equal(s, "User") {
            Some(RolesEnum::User)
        } else if str_equal(s, "RestaurantOwner") {
            Some(RolesEnum::RestaurantOwner)
        } else if str_equal(s, "Admin") {
            Some(RolesEnum::Admin)
        } else {
            None
        }
    }
}

impl StatusEnum {
    pub fn name(&self) -> (r: String)
        ensures
            r@ == status_name(*self),
    {
        match self {
            StatusEnum::Pending => String::from_str("Pending"),
            StatusEnum::Accepted => String::from_str("Accepted"),
            StatusEnum::Blocked => String::from_str("Blocked"),
        }
    }

    /// Reads a stored status name; any other text is refused.
    pub fn from_name(s: &str) -> (r: Option<StatusEnum>)
        ensures
            r matches Some(status) ==> status_name(status) == s@,
            r is None ==> forall|status: StatusEnum| status_name(status) != s@,
    {
        if str_equal(s, "Pending") {
            Some(StatusEnum::Pending)
        } else if str_equal(s, "Accepted") {
            Some(StatusEnum::Accepted)
        } else if str_equal(s, "Blocked") {
            Some(StatusEnum::Blocked)
        } else {
            None
        }
    }
}

} // verus!
