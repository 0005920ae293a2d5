use cursor_backend::errors::ServiceError;
use cursor_backend::models::{CreateAddressRequest, CreateCompanyRequest, CreateGeoRequest,
    CreateUserRequest, UpdateUserRequest};
use cursor_backend::user_store::UserStore;

const NOW: u64 = 1_700_000_000;

fn plain_create(name: &str, username: &str, email: &str) -> CreateUserRequest {
    CreateUserRequest {
        name: name.to_string(),
        username: username.to_string(),
        email: email.to_string(),
        phone: None,
        website: None,
        address: None,
        company: None,
    }
}

fn empty_update() -> UpdateUserRequest {
    UpdateUserRequest {
        name: None,
        username: None,
        email: None,
        phone: None,
        website: None,
        address: None,
        company: None,
    }
}

#[test]
fn test_create_get_round_trip() {
    let mut store = UserStore::new();
    let mut req = plain_create("John Doe", "johndoe", "john@example.com");
    req.phone = Some("+1234567890".to_string());
    req.website = Some("https://johndoe.com".to_string());
    req.address = Some(CreateAddressRequest {
        street: "123 Main St".to_string(),
        suite: Some("Apt 4B".to_string()),
        city: "New York".to_string(),
        zipcode: "10001".to_string(),
        geo: Some(CreateGeoRequest { lat: 40_712_800, lng: -74_006_000 }),
    });
    req.company = Some(CreateCompanyRequest {
        name: "Doe Industries".to_string(),
        catch_phrase: Some("Doing things".to_string()),
        bs: None,
    });
    let created = store.create_user(req, NOW).expect("create succeeds");
    let fetched = store.get_user_by_id(created.id).expect("get succeeds");
    assert_eq!(fetched.name, "John Doe");
    assert_eq!(fetched.username, "johndoe");
    assert_eq!(fetched.email, "john@example.com");
    assert_eq!(fetched.phone.as_deref(), Some("+1234567890"));
    assert_eq!(fetched.website.as_deref(), Some("https://johndoe.com"));
    assert_eq!(fetched.created_at, NOW);
    assert_eq!(fetched.updated_at, NOW);
    let address = fetched.address.expect("address stored");
    assert_eq!(address.street, "123 Main St");
    assert_eq!(address.suite.as_deref(), Some("Apt 4B"));
    assert_eq!(address.city, "New York");
    assert_eq!(address.zipcode, "10001");
    assert_eq!(address.user_id, created.id);
    let geo = address.geo.expect("geo stored");
    assert_eq!(geo.lat, 40_712_800);
    assert_eq!(geo.lng, -74_006_000);
    let company = fetched.company.expect("company stored");
    assert_eq!(company.name, "Doe Industries");
    assert_eq!(company.catch_phrase.as_deref(), Some("Doing things"));
    assert_eq!(company.bs, None);
    assert_eq!(company.user_id, created.id);
}

#[test]
fn test_update_partial_keeps_omitted_fields() {
    let mut store = UserStore::new();
    let created = store
        .create_user(plain_create("Ada", "ada", "ada@x.com"), NOW)
        .expect("create succeeds");

    let mut patch = empty_update();
    patch.username = Some("lovelace".to_string());
    let updated = store.update_user(created.id, patch, NOW + 5).expect("update succeeds");
    assert_eq!(updated.name, "Ada");
    assert_eq!(updated.username, "lovelace");
    assert_eq!(updated.email, "ada@x.com");
    assert_eq!(updated.created_at, NOW);
    assert_eq!(updated.updated_at, NOW + 5);

    let fetched = store.get_user_by_id(created.id).expect("get succeeds");
    assert_eq!(fetched.name, "Ada");
    assert_eq!(fetched.username, "lovelace");
}

#[test]
fn test_ada_without_children_then_address_upsert() {
    let mut store = UserStore::new();
    let created = store
        .create_user(plain_create("Ada", "ada", "ada@x.com"), NOW)
        .expect("create succeeds");
    let fetched = store.get_user_by_id(created.id).expect("get succeeds");
    assert!(fetched.address.is_none());
    assert!(fetched.company.is_none());

    let mut patch = empty_update();
    patch.address = Some(CreateAddressRequest {
        street: "1 Lane".to_string(),
        suite: None,
        city: "X".to_string(),
        zipcode: "00000".to_string(),
        geo: None,
    });
    store.update_user(created.id, patch, NOW + 1).expect("update succeeds");
    let refetched = store.get_user_by_id(created.id).expect("get succeeds");
    let address = refetched.address.expect("address added by update");
    assert_eq!(address.street, "1 Lane");
    assert_eq!(address.city, "X");
    assert_eq!(address.zipcode, "00000");
    assert!(address.geo.is_none());
    assert!(refetched.company.is_none());
}

#[test]
fn test_update_overwrites_existing_address_keeping_row_id() {
    let mut store = UserStore::new();
    let mut req = plain_create("Ada", "ada", "ada@x.com");
    req.address = Some(CreateAddressRequest {
        street: "Old Street".to_string(),
        suite: None,
        city: "Oldtown".to_string(),
        zipcode: "11111".to_string(),
        geo: None,
    });
    let created = store.create_user(req, NOW).expect("create succeeds");
    let first_row_id = created.address.expect("address stored").id;

    let mut patch = empty_update();
    patch.address = Some(CreateAddressRequest {
        street: "New Street".to_string(),
        suite: None,
        city: "Newtown".to_string(),
        zipcode: "22222".to_string(),
        geo: None,
    });
    let updated = store.update_user(created.id, patch, NOW + 1).expect("update succeeds");
    let address = updated.address.expect("address still there");
    assert_eq!(address.id, first_row_id);
    assert_eq!(address.street, "New Street");
    assert_eq!(address.city, "Newtown");
}

#[test]
fn test_delete_then_get_not_found() {
    let mut store = UserStore::new();
    let created = store
        .create_user(plain_create("Ada", "ada", "ada@x.com"), NOW)
        .expect("create succeeds");
    store.delete_user(created.id).expect("delete succeeds");

    let err = store.get_user_by_id(created.id).expect_err("gone after delete");
    assert_eq!(err, ServiceError::NotFound);

    let err2 = store.delete_user(created.id).expect_err("second delete fails");
    assert_eq!(err2, ServiceError::NotFound);
    assert_eq!(err2.status_code(), 404);
}

#[test]
fn test_delete_cascades_children() {
    let mut store = UserStore::new();
    let mut req = plain_create("Ada", "ada", "ada@x.com");
    req.address = Some(CreateAddressRequest {
        street: "1 Lane".to_string(),
        suite: None,
        city: "X".to_string(),
        zipcode: "00000".to_string(),
        geo: None,
    });
    req.company = Some(CreateCompanyRequest {
        name: "Analytical Engines".to_string(),
        catch_phrase: None,
        bs: None,
    });
    let created = store.create_user(req, NOW).expect("create succeeds");
    store.delete_user(created.id).expect("delete succeeds");

    let other = store
        .create_user(plain_create("Bob", "bob", "bob@x.com"), NOW)
        .expect("create succeeds");
    let fetched = store.get_user_by_id(other.id).expect("get succeeds");
    assert!(fetched.address.is_none());
    assert!(fetched.company.is_none());
    assert_eq!(store.get_all_users().len(), 1);
}

#[test]
fn test_get_all_users_one_aggregate_per_profile() {
    let mut store = UserStore::new();
    store.create_user(plain_create("Ada", "ada", "ada@x.com"), NOW).expect("create succeeds");
    store.create_user(plain_create("Bob", "bob", "bob@x.com"), NOW).expect("create succeeds");
    let all = store.get_all_users();
    assert_eq!(all.len(), 2);
    let mut names: Vec<String> = all.iter().map(|u| u.name.clone()).collect();
    names.sort();
    assert_eq!(names, vec!["Ada".to_string(), "Bob".to_string()]);
}

#[test]
fn test_create_rejects_out_of_range_geo() {
    let mut store = UserStore::new();
    let mut req = plain_create("Ada", "ada", "ada@x.com");
    req.address = Some(CreateAddressRequest {
        street: "1 Lane".to_string(),
        suite: None,
        city: "X".to_string(),
        zipcode: "00000".to_string(),
        geo: Some(CreateGeoRequest { lat: 91_000_000, lng: 0 }),
    });
    let err = store.create_user(req, NOW).expect_err("latitude out of range");
    assert_eq!(err, ServiceError::ValidationFailed);
    assert!(store.get_all_users().is_empty());
}

#[test]
fn test_update_nonexistent_not_found() {
    let mut store = UserStore::new();
    let err = store.update_user(7, empty_update(), NOW).expect_err("no such profile");
    assert_eq!(err, ServiceError::NotFound);
}
