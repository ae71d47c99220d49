use lusion_db::store::{MemStore, UserRepository};
use lusion_db::users::{CreateUser, StoreError};

fn create_input(username: &str, password: &str) -> CreateUser {
    CreateUser {
        username: username.to_owned(),
        password: password.to_owned(),
        nickname: None,
        avatar_url: None,
    }
}

fn random_unused_id() -> u128 {
    uuid::Uuid::new_v4().as_u128()
}

#[test]
fn test_find_users_should_ok() {
    let store = MemStore::new();
    let result = store.find_users();

    assert!(result.is_ok());
}

#[test]
fn test_find_user_should_ok() {
    let store = MemStore::new();
    let result = store.find_user(random_unused_id());

    assert!(result.is_ok());
}

#[test]
fn test_create_user_should_ok() {
    let mut store = MemStore::new();
    let result = store.create_user(CreateUser {
        username: "admin".to_owned(),
        password: "1234".to_owned(),
        nickname: None,
        avatar_url: None,
    });

    match result {
        Ok(user) => {
            assert_eq!(user.username, "admin");
            assert_eq!(user.nickname, "admin");
        }
        Err(e) => panic!("creation failed: {:?}", e),
    }
}

#[test]
fn test_update_user_password_should_ok() {
    let mut store = MemStore::new();
    let result = store.update_user_password(random_unused_id(), "4321");

    assert!(result.is_ok());
}

#[test]
fn test_delete_user_should_ok() {
    let mut store = MemStore::new();
    let result = store.delete_user(random_unused_id());

    assert!(result.is_ok());
}

#[test]
fn created_ids_are_pairwise_distinct() {
    let mut store = MemStore::new();
    let a = store.create_user(create_input("alice", "pw-a")).unwrap();
    let b = store.create_user(create_input("bob", "pw-b")).unwrap();
    let c = store.create_user(create_input("carol", "pw-c")).unwrap();

    assert_ne!(a.id, b.id);
    assert_ne!(a.id, c.id);
    assert_ne!(b.id, c.id);
}

#[test]
fn nickname_defaults_to_username_only_when_unset() {
    let mut store = MemStore::new();
    let defaulted = store.create_user(create_input("dora", "pw")).unwrap();
    assert_eq!(defaulted.nickname, "dora");

    let explicit = store
        .create_user(CreateUser {
            username: "erin".to_owned(),
            password: "pw".to_owned(),
            nickname: Some("the boss".to_owned()),
            avatar_url: None,
        })
        .unwrap();
    assert_eq!(explicit.nickname, "the boss");
}

#[test]
fn default_avatar_comes_from_the_enumerated_set() {
    let defaults: Vec<String> = (1..=20)
        .map(|n| format!("/api/images/avatars/{}.png", n))
        .collect();

    let mut store = MemStore::new();
    let user = store.create_user(create_input("frank", "pw")).unwrap();
    assert!(defaults.contains(&user.avatar_url));

    for _ in 0..50 {
        let url = lusion_db::avatars::random_avatar_url();
        assert!(defaults.contains(&url));
    }
}

#[test]
fn explicit_avatar_is_kept() {
    let mut store = MemStore::new();
    let user = store
        .create_user(CreateUser {
            username: "gail".to_owned(),
            password: "pw".to_owned(),
            nickname: None,
            avatar_url: Some("/static/me.png".to_owned()),
        })
        .unwrap();
    assert_eq!(user.avatar_url, "/static/me.png");
}

#[test]
fn output_never_carries_the_password() {
    let mut store = MemStore::new();
    let user = store.create_user(create_input("henry", "s3cret")).unwrap();
    let mut twin = user.clone();
    twin.password = "other".to_owned();

    let out = user.to_output();
    let out_twin = twin.to_output();
    assert_eq!(out.id, out_twin.id);
    assert_eq!(out.username, out_twin.username);
    assert_eq!(out.nickname, out_twin.nickname);
    assert_eq!(out.avatar_url, out_twin.avatar_url);
    assert_eq!(out.created_at, out_twin.created_at);
    assert_eq!(out.updated_at, out_twin.updated_at);

    assert_ne!(out.username, "s3cret");
    assert_ne!(out.nickname, "s3cret");
    assert_ne!(out.avatar_url, "s3cret");
}

#[test]
fn timestamps_are_equal_at_creation_and_never_decrease() {
    let mut store = MemStore::new();
    let user = store.create_user(create_input("ivy", "pw")).unwrap();
    assert_eq!(user.created_at, user.updated_at);

    let count = store.update_user_password(user.id, "pw2").unwrap();
    assert_eq!(count, 1);
    let after = store.find_user(user.id).unwrap().unwrap();
    assert!(after.updated_at >= user.updated_at);
    assert!(after.updated_at >= after.created_at);
}

#[test]
fn update_and_delete_of_missing_id_are_quiet_noops() {
    let mut store = MemStore::new();
    let resident = store.create_user(create_input("jack", "pw")).unwrap();
    let missing = random_unused_id();

    assert_eq!(store.update_user_password(missing, "pw2"), Ok(0));
    assert_eq!(store.delete_user(missing), Ok(0));

    let all = store.find_users().unwrap();
    assert_eq!(all.len(), 1);
    assert_eq!(all[0].id, resident.id);
    assert_eq!(all[0].password, "pw");
}

#[test]
fn duplicate_username_is_a_conflict_and_persists_one_row() {
    let mut store = MemStore::new();
    store.create_user(create_input("kate", "first")).unwrap();
    let second = store.create_user(create_input("kate", "second"));

    assert_eq!(second, Err(StoreError::UniqueViolation));
    let all = store.find_users().unwrap();
    assert_eq!(all.len(), 1);
    assert_eq!(all[0].password, "first");
}

#[test]
fn scenario_create_admin() {
    let mut store = MemStore::new();
    let user = store.create_user(create_input("admin", "1234")).unwrap();

    assert_eq!(user.username, "admin");
    assert_eq!(user.nickname, "admin");
    assert!(!user.avatar_url.is_empty());
    let other = store.create_user(create_input("admin2", "1234")).unwrap();
    assert_ne!(user.id, other.id);
}

#[test]
fn scenario_find_unused_id_is_absent() {
    let store = MemStore::new();
    let found = store.find_user(random_unused_id());
    assert!(found.is_ok());
    assert!(found.unwrap().is_none());
}

#[test]
fn scenario_update_password_of_existing_row() {
    let mut store = MemStore::new();
    let user = store.create_user(create_input("lena", "1234")).unwrap();

    let count = store.update_user_password(user.id, "4321").unwrap();
    assert_eq!(count, 1);

    let after = store.find_user(user.id).unwrap().unwrap();
    assert_eq!(after.password, "4321");
    assert!(after.updated_at >= user.updated_at);
    assert_eq!(after.username, user.username);
    assert_eq!(after.created_at, user.created_at);
}

#[test]
fn scenario_delete_existing_row() {
    let mut store = MemStore::new();
    let user = store.create_user(create_input("mona", "pw")).unwrap();

    assert_eq!(store.delete_user(user.id), Ok(1));
    assert!(store.find_user(user.id).unwrap().is_none());
    assert!(store.find_users().unwrap().is_empty());
}

#[test]
fn find_users_returns_rows_in_insertion_order() {
    let mut store = MemStore::new();
    let a = store.create_user(create_input("nina", "pw")).unwrap();
    let b = store.create_user(create_input("omar", "pw")).unwrap();
    let c = store.create_user(create_input("pete", "pw")).unwrap();

    let all = store.find_users().unwrap();
    let ids: Vec<u128> = all.iter().map(|u| u.id).collect();
    assert_eq!(ids, vec![a.id, b.id, c.id]);
}
