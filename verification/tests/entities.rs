use baranki::entities::category::Model as Category;
use baranki::entities::image::FileExtension;
use baranki::entities::order::Status;
use baranki::entities::primary_settup;
use baranki::entities::user::{Model, Role};
use baranki::middleware::logging::ApiError;
use baranki::routes::auth_routes::{create_user, hash_for_storage, patch_user, register_user};
use baranki::routes::category_routes::{
    new_category, patched_category, public_listing, CategoryResponse, PublicCategoryResponse,
};
use baranki::routes::product_routes::new_product_flags;
use baranki::transaction::{Guard, Step};

#[test]
fn roles_are_stored_by_name() {
    assert_eq!(Role::from_str("admin"), Ok(Role::Admin));
    assert_eq!(Role::from_str("user"), Ok(Role::User));
    for other in ["", "Admin", "USER", "admin ", " user", "root", "admi", "users"] {
        assert_eq!(Role::from_str(other), Err(()));
    }
    assert_eq!(Role::Admin.to_string(), "admin");
    assert_eq!(Role::User.to_string(), "user");
    for role in [Role::Admin, Role::User] {
        assert_eq!(Role::from_str(&role.to_string()), Ok(role));
    }
}

#[test]
fn extensions_are_stored_by_name() {
    assert_eq!(FileExtension::from_str("jpg"), Ok(FileExtension::JPG));
    assert_eq!(FileExtension::from_str("png"), Ok(FileExtension::PNG));
    for other in ["", "JPG", "jpeg", ".jpg", "gif", "png "] {
        assert_eq!(FileExtension::from_str(other), Err(()));
    }
    assert_eq!(FileExtension::JPG.to_string(), "jpg");
    assert_eq!(FileExtension::PNG.to_string(), "png");
}

#[test]
fn statuses_are_read_in_lower_case_and_shown_as_they_are() {
    assert_eq!(Status::from_str("created"), Ok(Status::Created));
    assert_eq!(Status::from_str("processing"), Ok(Status::Processing));
    assert_eq!(Status::from_str("arriving"), Ok(Status::Arriving));
    assert_eq!(Status::from_str("waiting"), Ok(Status::Waiting));
    assert_eq!(Status::from_str("received"), Ok(Status::Received));
    assert_eq!(Status::from_str("Waiting"), Err("Invalid status: Waiting".to_string()));
    assert_eq!(Status::from_str(""), Err("Invalid status: ".to_string()));
    assert_eq!(Status::from_str("lost"), Err("Invalid status: lost".to_string()));
    assert_eq!(Status::Created.to_string(), "created");
    assert_eq!(Status::Processing.to_string(), "processing");
    assert_eq!(Status::Arriving.to_string(), "arriving");
    assert_eq!(Status::Waiting.to_string(), "Waiting");
    assert_eq!(Status::Received.to_string(), "Received");
}

fn with_hash(hash: &str) -> Model {
    Model { id: 1, username: "user".to_string(), password: hash.to_string(), role: Role::User }
}

#[test]
fn hashed_password_verifies_and_no_other() {
    let hash = hash_for_storage("Secret15").unwrap();
    assert!(hash.starts_with("$argon2"));
    assert_ne!(hash, "Secret15");
    assert!(hash.chars().count() > 43);
    let user = with_hash(&hash);
    assert!(user.has_password_hash());
    assert_eq!(user.check_hash("Secret15"), Ok(()));
    assert_eq!(user.check_hash("Secret16"), Err("Password verification failed".to_string()));
    assert_eq!(user.check_hash(""), Err("Password verification failed".to_string()));
    assert_eq!(user.try_check_hash("Secret15"), Some(Ok(())));
    assert_eq!(user.try_check_hash("secret15"), Some(Err("Password verification failed".to_string())));
}

#[test]
fn two_hashes_of_a_password_differ_and_both_verify() {
    let first = hash_for_storage("Muzion15").unwrap();
    let second = hash_for_storage("Muzion15").unwrap();
    assert_ne!(first, second);
    assert_eq!(with_hash(&first).check_hash("Muzion15"), Ok(()));
    assert_eq!(with_hash(&second).check_hash("Muzion15"), Ok(()));
}

#[test]
fn known_hash_verifies() {
    let hash = "$argon2id$v=19$m=16,t=2,p=1$c29tZXNhbHQ$IMit9qkFULCMA/ViizL57cnTLOa5DiVM9eMwpAvPwr4";
    let user = with_hash(hash);
    assert!(user.has_password_hash());
    assert_eq!(user.try_check_hash("wrong password"), Some(Err("Password verification failed".to_string())));
}

#[test]
fn text_that_is_no_hash_cannot_be_checked() {
    for text in ["", "Secret15", "$argon2id$", "not a hash"] {
        let user = with_hash(text);
        assert!(!user.has_password_hash(), "{:?}", text);
        assert_eq!(user.try_check_hash("Secret15"), None);
    }
}

#[test]
fn registration_hashes_an_acceptable_password() {
    let registration = register_user("JohnDoe", "Secret15");
    assert!(registration.plan.admitted);
    assert_eq!(
        registration.plan.steps,
        vec![Step::Check { passed: true }, Step::Write { when: Guard::Always }]
    );
    let user = registration.user.unwrap();
    assert_eq!(user.username, "JohnDoe");
    assert_eq!(user.role, Role::User);
    assert_ne!(user.password, "Secret15");
    assert_eq!(with_hash(&user.password).check_hash("Secret15"), Ok(()));
}

#[test]
fn administrator_creates_a_user_with_the_role_asked_for() {
    for role in [Role::Admin, Role::User] {
        let created = create_user("NewAdmin", "Muzion15", role);
        assert!(created.plan.admitted);
        let user = created.user.unwrap();
        assert_eq!(user.username, "NewAdmin");
        assert_eq!(user.role, role);
        assert_ne!(user.password, "Muzion15");
        assert_eq!(with_hash(&user.password).check_hash("Muzion15"), Ok(()));
    }
}

#[test]
fn registration_refuses_before_it_hashes() {
    for (name, password) in [("Jo", "Secret15"), ("JohnDoe", "12345"), ("John Doe", "Secret15"), ("", "")] {
        let registration = register_user(name, password);
        assert!(!registration.plan.admitted);
        assert!(matches!(
            &registration.user,
            Err(ApiError::ValidationFail(detail)) if detail == "Invalid username or password"
        ));
        assert_eq!(
            registration.plan.steps,
            vec![Step::Check { passed: false }, Step::Write { when: Guard::Always }]
        );
        let created = create_user(name, password, Role::Admin);
        assert!(!created.plan.admitted);
        assert!(created.user.is_err());
    }
}

#[test]
fn patch_of_a_user_hashes_a_new_password() {
    let patch = patch_user(Some("NewSecret1"));
    assert!(patch.plan.admitted);
    assert_eq!(
        patch.plan.steps,
        vec![
            Step::Read { must_exist: true, must_succeed: true },
            Step::Check { passed: true },
            Step::Write { when: Guard::Always },
        ]
    );
    let hash = patch.password.unwrap().unwrap();
    assert_eq!(with_hash(&hash).check_hash("NewSecret1"), Ok(()));
    let unchanged = patch_user(None);
    assert!(unchanged.password.is_none());
    assert_eq!(unchanged.plan.steps.len(), 3);
}

#[test]
fn new_store_starts_with_a_hashed_password() {
    let seed = primary_settup();
    assert!(seed.plan.admitted);
    assert_eq!(seed.plan.steps, vec![Step::Check { passed: true }, Step::Write { when: Guard::Always }]);
    let (user, admin) = seed.users.unwrap();
    assert_eq!((user.username.as_str(), user.role), ("user", Role::User));
    assert_eq!((admin.username.as_str(), admin.role), ("admin", Role::Admin));
    assert_eq!(user.password, admin.password);
    assert_ne!(user.password, "Secret15");
    assert_eq!(with_hash(&user.password).check_hash("Secret15"), Ok(()));
}

#[test]
fn new_category_is_not_featured_and_available_unless_told() {
    let plain = new_category("\u{41a}\u{440}\u{443}\u{433}\u{43b}\u{44b}\u{435}", None, None, None);
    assert_eq!(plain.name, "\u{41a}\u{440}\u{443}\u{433}\u{43b}\u{44b}\u{435}");
    assert_eq!((plain.image_id, plain.is_featured, plain.is_available), (None, false, true));
    let told = new_category("Round", Some(3), Some(true), Some(false));
    assert_eq!((told.name.as_str(), told.image_id, told.is_featured, told.is_available), ("Round", Some(3), true, false));
    let half = new_category("Round", None, Some(false), Some(true));
    assert_eq!((half.is_featured, half.is_available), (false, true));
}

#[test]
fn patch_of_a_category_keeps_what_it_does_not_name() {
    let stored = || category(3, "Round", Some(8));
    let same = patched_category(stored(), None, None, None, None);
    assert_eq!((same.id, same.name.as_str(), same.image_id, same.is_featured, same.is_available), (3, "Round", Some(8), true, false));
    let renamed = patched_category(stored(), Some("Square".to_string()), None, None, Some(true));
    assert_eq!((renamed.id, renamed.name.as_str(), renamed.image_id, renamed.is_featured, renamed.is_available), (3, "Square", Some(8), true, true));
    let moved = patched_category(stored(), None, Some(9), Some(false), None);
    assert_eq!((moved.name.as_str(), moved.image_id, moved.is_featured, moved.is_available), ("Round", Some(9), false, false));
}

#[test]
fn new_product_has_neither_flag_unless_told() {
    assert_eq!(new_product_flags(None, None), (false, false));
    assert_eq!(new_product_flags(Some(true), None), (true, false));
    assert_eq!(new_product_flags(None, Some(true)), (false, true));
    assert_eq!(new_product_flags(Some(false), Some(false)), (false, false));
}

fn category(id: i32, name: &str, image_id: Option<i32>) -> Category {
    Category { id, name: name.to_string(), image_id, is_featured: true, is_available: false }
}

#[test]
fn public_sees_identifier_name_and_image() {
    let shown = PublicCategoryResponse::new(category(3, "Round", Some(8)));
    assert_eq!((shown.id, shown.name.as_str(), shown.image_id), (3, "Round", Some(8)));
    let listed = CategoryResponse::new(category(4, "Square", None));
    assert_eq!((listed.id, listed.name.as_str(), listed.image_id), (4, "Square", None));
}

#[test]
fn listing_keeps_the_order() {
    let categories = vec![category(2, "b", None), category(1, "a", Some(5)), category(3, "c", Some(6))];
    let listing = public_listing(&categories);
    let seen: Vec<(i32, &str, Option<i32>)> =
        listing.iter().map(|c| (c.id, c.name.as_str(), c.image_id)).collect();
    assert_eq!(seen, vec![(2, "b", None), (1, "a", Some(5)), (3, "c", Some(6))]);
    assert!(public_listing(&Vec::new()).is_empty());
}
