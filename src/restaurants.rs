use vstd::prelude::*;

use crate::roles::RolesEnum;
use crate::users::User;

verus! {

/// Details of a restaurant to create.
pub struct CreateRestaurant {
    pub name: String,
    pub location: String,
    pub cover_image_uri: String,
    pub phone: String,
    pub email: String,
}

/// A stored restaurant.
pub struct Restaurant {
    pub restaurant_id: i64,
    pub name: String,
    pub user_id: i64,
    pub location: String,
    pub cover_image_uri: String,
    pub phone: String,
    pub email: String,
}

/// A stored restaurant with its owner's identifier.
pub struct RestaurantUser {
    pub restaurant_id: i64,
    pub name: String,
    pub user_id: i64,
    pub location: String,
    pub phone: String,
    pub email: String,
    pub cover_image_uri: String,
    pub user_email: String,
}

/// Filter of the restaurant listing.
pub struct RestaurantFilters {
    pub is_accepted: bool,
}

/// Details of a menu to create.
pub struct CreateRestaurantMenu {
    pub name: String,
    pub is_active: bool,
}

/// A stored menu.
pub struct RestaurantMenu {
    pub restaurant_menu_id: i64,
    pub name: String,
    pub is_active: bool,
    pub restaurant_id: i64,
}

/// The restaurant listing shows accepted restaurants unless asked otherwise.
pub fn default_status() -> (r: bool)
    ensures
        r,
{
    true
}

/// Whose restaurants `current_user` may delete: `None` for any restaurant
/// (administrators), `Some(id)` for those owned by account `id` only.
pub fn deletion_owner(current_user: &User) -> (r: Option<i32>)
    ensures
        current_user.role == RolesEnum::Admin ==> r is None,
        current_user.role != RolesEnum::Admin ==> r == Some(current_user.user_id),
{
    match current_user.role {
        RolesEnum::Admin => None,
        _ => Some(current_user.user_id),
    }
}

} // verus!
