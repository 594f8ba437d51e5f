use blog_api::models::User;
use blog_api::store::{NewUser, StoreQuery, StoreReply, UniqueField, UserStore};
use blog_api::time::Timestamp;

const T0: Timestamp = Timestamp { secs: 1_700_000_000, nanos: 5 };
const T1: Timestamp = Timestamp { secs: 1_700_000_100, nanos: 0 };

fn new_user(username: &str, email: &str) -> NewUser {
    NewUser {
        username: username.to_string(),
        email: email.to_string(),
        password_hash: format!("hash-of-{}", username),
        display_name: Some(format!("The {}", username)),
        created_at: T0,
        updated_at: T0,
    }
}

fn inserted(reply: StoreReply) -> u64 {
    match reply {
        StoreReply::Inserted(id) => id,
        other => panic!("not inserted: {:?}", other),
    }
}

fn row(reply: StoreReply) -> Option<User> {
    match reply {
        StoreReply::Row(row) => row,
        other => panic!("not a row: {:?}", other),
    }
}

fn found(reply: StoreReply) -> bool {
    match reply {
        StoreReply::Exists(answer) => answer,
        other => panic!("not an answer of existence: {:?}", other),
    }
}

#[test]
fn new_store_is_empty() {
    let store = UserStore::new();
    assert_eq!(store.len(), 0);
    assert!(!found(store.read(&StoreQuery::EmailExists { email: "a@b.c".to_string() })));
    assert!(!found(store.read(&StoreQuery::UsernameExists { username: "a".to_string() })));
    assert!(row(store.read(&StoreQuery::FetchById { id: 1 })).is_none());
    assert!(row(store.read(&StoreQuery::FetchActiveByEmail { email: "a@b.c".to_string() })).is_none());
}

#[test]
fn insert_gives_fresh_identifiers_from_one() {
    let mut store = UserStore::new();
    let a = inserted(store.insert(new_user("alice", "alice@example.com")));
    let b = inserted(store.insert(new_user("bob", "bob@example.com")));
    assert_eq!(a, 1);
    assert_eq!(b, 2);
    assert_eq!(store.len(), 2);
}

#[test]
fn inserted_user_is_stored_as_given() {
    let mut store = UserStore::new();
    let id = inserted(store.insert(new_user("alice", "alice@example.com")));
    let user = row(store.read(&StoreQuery::FetchById { id })).unwrap();
    assert_eq!(user.id, id);
    assert_eq!(user.username, "alice");
    assert_eq!(user.email, "alice@example.com");
    assert_eq!(user.password_hash, "hash-of-alice");
    assert_eq!(user.display_name.as_deref(), Some("The alice"));
    assert_eq!(user.bio, None);
    assert_eq!(user.profile_picture_url, None);
    assert_eq!(user.created_at, T0);
    assert_eq!(user.updated_at, T0);
    assert_eq!(user.deleted_at, None);
}

#[test]
fn insert_reports_a_taken_email() {
    let mut store = UserStore::new();
    inserted(store.insert(new_user("alice", "alice@example.com")));
    let reply = store.insert(new_user("alice2", "alice@example.com"));
    assert!(matches!(reply, StoreReply::Conflict(UniqueField::Email)));
    assert_eq!(store.len(), 1);
}

#[test]
fn insert_reports_a_taken_username() {
    let mut store = UserStore::new();
    inserted(store.insert(new_user("alice", "alice@example.com")));
    let reply = store.insert(new_user("alice", "other@example.com"));
    assert!(matches!(reply, StoreReply::Conflict(UniqueField::Username)));
    assert_eq!(store.len(), 1);
}

#[test]
fn insert_reports_the_email_first_where_both_are_taken() {
    let mut store = UserStore::new();
    inserted(store.insert(new_user("alice", "alice@example.com")));
    let reply = store.insert(new_user("alice", "alice@example.com"));
    assert!(matches!(reply, StoreReply::Conflict(UniqueField::Email)));
}

#[test]
fn store_compares_emails_and_usernames_exactly() {
    let mut store = UserStore::new();
    inserted(store.insert(new_user("alice", "alice@example.com")));
    assert!(found(store.read(&StoreQuery::EmailExists { email: "alice@example.com".to_string() })));
    assert!(!found(store.read(&StoreQuery::EmailExists { email: "Alice@example.com".to_string() })));
    assert!(found(store.read(&StoreQuery::UsernameExists { username: "alice".to_string() })));
    assert!(!found(store.read(&StoreQuery::UsernameExists { username: "Alice".to_string() })));
    inserted(store.insert(new_user("Alice", "Alice@example.com")));
    assert_eq!(store.len(), 2);
}

#[test]
fn read_does_not_insert() {
    let store = UserStore::new();
    let reply = store.read(&StoreQuery::Insert { user: new_user("alice", "alice@example.com") });
    assert!(matches!(reply, StoreReply::Failed));
    assert_eq!(store.len(), 0);
}

#[test]
fn answer_serves_every_query() {
    let mut store = UserStore::new();
    let id = inserted(store.answer(StoreQuery::Insert { user: new_user("alice", "alice@example.com") }));
    assert!(found(store.answer(StoreQuery::EmailExists { email: "alice@example.com".to_string() })));
    assert!(found(store.answer(StoreQuery::UsernameExists { username: "alice".to_string() })));
    assert!(!found(store.answer(StoreQuery::UsernameExists { username: "bob".to_string() })));
    assert_eq!(row(store.answer(StoreQuery::FetchById { id })).unwrap().username, "alice");
    assert!(row(store.answer(StoreQuery::FetchById { id: id + 1 })).is_none());
    let found = row(store.answer(StoreQuery::FetchActiveByEmail { email: "alice@example.com".to_string() }));
    assert_eq!(found.unwrap().id, id);
    assert!(matches!(
        store.answer(StoreQuery::Insert { user: new_user("alice", "x@example.com") }),
        StoreReply::Conflict(UniqueField::Username)
    ));
}

#[test]
fn soft_delete_sets_the_deletion_time_and_keeps_the_user() {
    let mut store = UserStore::new();
    let a = inserted(store.insert(new_user("alice", "alice@example.com")));
    let b = inserted(store.insert(new_user("bob", "bob@example.com")));
    assert!(store.soft_delete(a, T1));
    assert_eq!(store.len(), 2);
    let alice = row(store.read(&StoreQuery::FetchById { id: a })).unwrap();
    assert_eq!(alice.deleted_at, Some(T1));
    assert_eq!(alice.username, "alice");
    assert_eq!(alice.email, "alice@example.com");
    assert_eq!(alice.created_at, T0);
    let bob = row(store.read(&StoreQuery::FetchById { id: b })).unwrap();
    assert_eq!(bob.deleted_at, None);
}

#[test]
fn soft_deleted_user_is_not_active_but_keeps_email_and_username() {
    let mut store = UserStore::new();
    let a = inserted(store.insert(new_user("alice", "alice@example.com")));
    assert!(store.soft_delete(a, T1));
    assert!(row(store.read(&StoreQuery::FetchActiveByEmail { email: "alice@example.com".to_string() })).is_none());
    assert!(found(store.read(&StoreQuery::EmailExists { email: "alice@example.com".to_string() })));
    assert!(found(store.read(&StoreQuery::UsernameExists { username: "alice".to_string() })));
    assert!(matches!(
        store.insert(new_user("alice", "alice@example.com")),
        StoreReply::Conflict(UniqueField::Email)
    ));
}

#[test]
fn soft_delete_of_an_unknown_or_deleted_user_changes_nothing() {
    let mut store = UserStore::new();
    assert!(!store.soft_delete(1, T1));
    let a = inserted(store.insert(new_user("alice", "alice@example.com")));
    assert!(!store.soft_delete(a + 1, T1));
    assert!(store.soft_delete(a, T0));
    assert!(!store.soft_delete(a, T1));
    let alice = row(store.read(&StoreQuery::FetchById { id: a })).unwrap();
    assert_eq!(alice.deleted_at, Some(T0));
}
