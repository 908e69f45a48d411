use restaurant_api::error::{respond, AccessError, AppResult};
use restaurant_api::files::stored_file_path;
use restaurant_api::owners::{accept_restaurant_owner, block_restaurant_owner};
use restaurant_api::restaurants::{default_status as default_restaurant_status, deletion_owner};
use restaurant_api::roles::{RolesEnum, StatusEnum};
use restaurant_api::shared::{default_page, default_page_size, paginated, PaginationInput};
use restaurant_api::users::{default_role, default_status, User};

fn owner(status: StatusEnum) -> User {
    User {
        user_id: 5,
        name: "Bo".to_string(),
        last_name: "Chef".to_string(),
        email: "bo@x.com".to_string(),
        role: RolesEnum::RestaurantOwner,
        status,
        email_validated: true,
    }
}

#[test]
fn accept_moves_pending_and_blocked_to_accepted() {
    assert_eq!(accept_restaurant_owner(Some(&owner(StatusEnum::Pending))).unwrap(), StatusEnum::Accepted);
    assert_eq!(accept_restaurant_owner(Some(&owner(StatusEnum::Blocked))).unwrap(), StatusEnum::Accepted);
}

#[test]
fn accept_of_accepted_owner_conflicts() {
    let err = accept_restaurant_owner(Some(&owner(StatusEnum::Accepted))).err().unwrap();
    assert!(matches!(err, AccessError::AlreadyAccepted));
    assert_eq!(err.status_code(), 409);
}

#[test]
fn block_moves_accepted_to_blocked() {
    assert_eq!(block_restaurant_owner(Some(&owner(StatusEnum::Accepted))).unwrap(), StatusEnum::Blocked);
}

#[test]
fn block_of_pending_or_blocked_owner_conflicts() {
    for s in [StatusEnum::Pending, StatusEnum::Blocked] {
        let err = block_restaurant_owner(Some(&owner(s))).err().unwrap();
        assert!(matches!(err, AccessError::AlreadyBlocked));
        assert_eq!(err.message(), "Already blocked!");
    }
}

#[test]
fn status_change_on_missing_or_non_owner_is_not_found() {
    assert!(matches!(accept_restaurant_owner(None), Err(AccessError::TargetNotFound)));
    let mut u = owner(StatusEnum::Pending);
    u.role = RolesEnum::User;
    assert!(matches!(accept_restaurant_owner(Some(&u)), Err(AccessError::TargetNotFound)));
    assert!(matches!(block_restaurant_owner(Some(&u)), Err(AccessError::TargetNotFound)));
}

#[test]
fn accepting_twice_gives_created_then_conflict() {
    let mut target = owner(StatusEnum::Pending);
    let first = respond(accept_restaurant_owner(Some(&target)), 201);
    match first {
        AppResult::Result(code, status) => {
            assert_eq!(code, 201);
            target.status = status;
        }
        AppResult::Error(..) => panic!("first acceptance should succeed"),
    }
    match respond(accept_restaurant_owner(Some(&target)), 201) {
        AppResult::Error(code, msg) => {
            assert_eq!(code, 409);
            assert_eq!(msg, "Already accepted!");
        }
        AppResult::Result(..) => panic!("second acceptance should conflict"),
    }
}

#[test]
fn status_and_role_names_round_trip() {
    for r in [RolesEnum::User, RolesEnum::RestaurantOwner, RolesEnum::Admin] {
        assert_eq!(RolesEnum::from_name(&r.name()), Some(r));
    }
    for s in [StatusEnum::Pending, StatusEnum::Accepted, StatusEnum::Blocked] {
        assert_eq!(StatusEnum::from_name(&s.name()), Some(s));
    }
    assert_eq!(RolesEnum::from_name("admin"), None);
    assert_eq!(StatusEnum::from_name("Rejected"), None);
    assert_eq!(RolesEnum::RestaurantOwner.name(), "RestaurantOwner");
}

#[test]
fn admins_delete_any_restaurant_others_only_their_own() {
    let mut u = owner(StatusEnum::Accepted);
    assert_eq!(deletion_owner(&u), Some(5));
    u.role = RolesEnum::Admin;
    assert_eq!(deletion_owner(&u), None);
}

#[test]
fn defaults_of_filters_and_pagination() {
    assert_eq!(default_role(), "User");
    assert_eq!(default_status(), "Pending");
    assert!(default_restaurant_status());
    assert_eq!(default_page(), 1);
    assert_eq!(default_page_size(), 10);
}

#[test]
fn page_offsets() {
    assert_eq!(PaginationInput { page: 1, page_size: 10 }.offset(), Some(0));
    assert_eq!(PaginationInput { page: 3, page_size: 10 }.offset(), Some(20));
    assert_eq!(PaginationInput { page: 0, page_size: 10 }.offset(), Some(-10));
    assert_eq!(PaginationInput { page: i64::MIN, page_size: 1 }.offset(), Some(i64::MIN));
    assert_eq!(PaginationInput { page: i64::MAX, page_size: 2 }.offset(), None);
}

#[test]
fn listing_answers() {
    match paginated(Some(vec![1, 2]), Some(7)) {
        AppResult::Result(code, l) => assert_eq!((code, l.count, l.items), (200, 7, vec![1, 2])),
        _ => panic!(),
    }
    match paginated(Some(vec![1]), None) {
        AppResult::Result(_, l) => assert_eq!(l.count, 0),
        _ => panic!(),
    }
    match paginated::<i32>(None, Some(3)) {
        AppResult::Error(code, m) => assert_eq!((code, m.as_str()), (500, "Something went wrong!")),
        _ => panic!(),
    }
}

#[test]
fn stored_file_path_drops_public_prefix() {
    assert_eq!(stored_file_path("api/files/uploads/12.jpeg"), "uploads/12.jpeg");
    assert_eq!(stored_file_path("api/files/api/files/x.jpeg"), "x.jpeg");
    assert_eq!(stored_file_path("uploads/12.jpeg"), "uploads/12.jpeg");
    assert_eq!(stored_file_path("api/files"), "api/files");
    assert_eq!(stored_file_path(""), "");
}
