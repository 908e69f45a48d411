use vstd::prelude::*;

use crate::error::AccessError;
use crate::roles::{RolesEnum, StatusEnum};
use crate::users::User;

verus! {

/// What acceptance does to an owner in `status`: `Pending` and `Blocked`
/// become `Accepted`; an accepted owner is a conflict.
pub open spec fn accept_transition(status: StatusEnum) -> Result<StatusEnum, AccessError> {
    match status {
        StatusEnum::Accepted => Err(AccessError::AlreadyAccepted),
        _ => Ok(StatusEnum::Accepted),
    }
}

/// What blocking does to an owner in `status`: `Accepted` becomes `Blocked`;
/// any other status is a conflict.
pub open spec fn block_transition(status: StatusEnum) -> Result<StatusEnum, AccessError> {
    match status {
        StatusEnum::Accepted => Ok(StatusEnum::Blocked),
        _ => Err(AccessError::AlreadyBlocked),
    }
}

/// The status of the looked-up `target`, if it is a restaurant owner; a
/// status change on anything else answers not found.
pub open spec fn owner_status(target: Option<&User>) -> Option<StatusEnum> {
    match target {
        Some(u) => if u.role == RolesEnum::RestaurantOwner {
            Some(u.status)
        } else {
            None
        },
        None => None,
    }
}

pub open spec fn acceptance(target: Option<&User>) -> Result<StatusEnum, AccessError> {
    match owner_status(target) {
        Some(s) => accept_transition(s),
        None => Err(AccessError::TargetNotFound),
    }
}

pub open spec fn blocking(target: Option<&User>) -> Result<StatusEnum, AccessError> {
    match owner_status(target) {
        Some(s) => block_transition(s),
        None => Err(AccessError::TargetNotFound),
    }
}

/// Acceptance of a restaurant owner: the status to store for `target`.
pub fn accept_restaurant_owner(target: Option<&User>) -> (r: Result<StatusEnum, AccessError>)
    ensures
        r == acceptance(target),
{
    match target {
        Some(u) => {
            if u.role != RolesEnum::RestaurantOwner {
                return Err(AccessError::TargetNotFound);
            }
            match u.status {
                StatusEnum::Accepted => Err(AccessError::AlreadyAccepted),
                _ => Ok(StatusEnum::Accepted),
            }
        },
        None => Err(AccessError::TargetNotFound),
    }
}

/// Blocking of a restaurant owner: the status to store for `target`.
pub fn block_restaurant_owner(target: Option<&User>) -> (r: Result<StatusEnum, AccessError>)
    ensures
        r == blocking(target),
{
    match target {
        Some(u) => {
            if u.role != RolesEnum::RestaurantOwner {
                return Err(AccessError::TargetNotFound);
            }
            match u.status {
                StatusEnum::Accepted => Ok(StatusEnum::Blocked),
                _ => Err(AccessError::AlreadyBlocked),
            }
        },
        None => Err(AccessError::TargetNotFound),
    }
}

/// On a restaurant owner: acceptance of an accepted owner is a conflict, of a
/// pending or blocked one it succeeds and stores `Accepted`; blocking of an
/// accepted owner succeeds and stores `Blocked`, of a pending or blocked one
/// it is a conflict.
pub proof fn lemma_status_transitions(target: User)
    requires
        target.role == RolesEnum::RestaurantOwner,
    ensures
        target.status == StatusEnum::Accepted ==> acceptance(Some(&target)) == Err::<
            StatusEnum,
            AccessError,
        >(AccessError::AlreadyAccepted),
        target.status != StatusEnum::Accepted ==> acceptance(Some(&target)) == Ok::<
            StatusEnum,
            AccessError,
        >(StatusEnum::Accepted),
        target.status == StatusEnum::Accepted ==> blocking(Some(&target)) == Ok::<
            StatusEnum,
            AccessError,
        >(StatusEnum::Blocked),
        target.status != StatusEnum::Accepted ==> blocking(Some(&target)) == Err::<
            StatusEnum,
            AccessError,
        >(AccessError::AlreadyBlocked),
{
}

/// Accepting the same owner twice in a row: once the first acceptance has
/// been stored, the second is a conflict.
pub proof fn lemma_accept_twice_conflicts(target: User)
    requires
        acceptance(Some(&target)) is Ok,
    ensures
        acceptance(Some(&User { status: acceptance(Some(&target))->Ok_0, ..target })) == Err::<
            StatusEnum,
            AccessError,
        >(AccessError::AlreadyAccepted),
{
}

} // verus!
