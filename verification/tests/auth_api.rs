use pcloud::auth::authenticate;
use pcloud::auth::handlers::{delete_current_user, login, protected, register};
use pcloud::auth::middleware::{authorize, bearer_token, Claims};
use pcloud::auth::models::Credentials;
use pcloud::status::{ReplyKey, CREATED, OK, UNAUTHORIZED};
use pcloud::user::{NewUser, UserStore};

fn new_user(username: &str, password: &str) -> NewUser {
    NewUser { username: username.to_string(), password: password.to_string() }
}

fn creds(username: &str, password: &str) -> Credentials {
    Credentials { username: username.to_string(), password: password.to_string() }
}

#[test]
fn test_register_and_login() {
    let mut store = UserStore::new();

    let reply = register(&mut store, new_user("testuser", "password123"));
    assert_eq!(reply.status, CREATED);
    assert_eq!(reply.key, ReplyKey::Message);
    assert_eq!(reply.text, "User created successfully");

    let claims = login(&store, &creds("testuser", "password123")).expect("login succeeds");
    assert!(!claims.sub.is_empty());
    assert_eq!(claims.sub, "testuser");
}

#[test]
fn test_protected_route_access() {
    let mut store = UserStore::new();
    register(&mut store, new_user("testuser2", "password123"));
    let claims = login(&store, &creds("testuser2", "password123")).expect("login succeeds");

    // With the token's claims the request is admitted and greeted.
    let user = authorize(&store, Some(&claims)).expect("admitted");
    assert_eq!(protected(&user).message, "Hello, testuser2!");

    // Without a token it is refused.
    assert_eq!(bearer_token(None), None);
    assert_eq!(authorize(&store, None).unwrap_err(), UNAUTHORIZED);
}

#[test]
fn test_delete_user() {
    let mut store = UserStore::new();
    register(&mut store, new_user("todelete", "password123"));
    let claims = login(&store, &creds("todelete", "password123")).expect("login succeeds");
    let user = authorize(&store, Some(&claims)).expect("admitted");

    let reply = delete_current_user(&mut store, &user);
    assert_eq!(reply.status, OK);
    assert_eq!(reply.text, "User deleted successfully");

    assert_eq!(login(&store, &creds("todelete", "password123")).unwrap_err(), UNAUTHORIZED);
}

#[test]
fn test_delete_user_leaves_other_users_unaffected() {
    let mut store = UserStore::new();
    register(&mut store, new_user("user_one", "password123"));
    register(&mut store, new_user("user_two", "password456"));

    let one = authenticate(&store, &creds("user_one", "password123")).expect("user_one signs in");
    let reply = delete_current_user(&mut store, &one);
    assert_eq!(reply.status, OK);

    assert_eq!(login(&store, &creds("user_one", "password123")).unwrap_err(), UNAUTHORIZED);
    assert!(login(&store, &creds("user_two", "password456")).is_ok());
}

#[test]
fn token_claims_survive_a_bearer_header() {
    let header = "Bearer abc.def.ghi";
    assert_eq!(bearer_token(Some(header)), Some("abc.def.ghi".to_string()));
    assert_eq!(bearer_token(Some("Basic abc")), None);
    assert_eq!(bearer_token(Some("Bearer")), None);
    assert_eq!(bearer_token(Some("Bearer ")), Some(String::new()));
}

#[test]
fn token_with_unknown_or_oversized_id_is_refused() {
    let store = UserStore::new();
    let c = Claims { sub: "ghost".to_string(), user_id: 7, exp: 0 };
    assert_eq!(authorize(&store, Some(&c)).unwrap_err(), UNAUTHORIZED);
    let c = Claims { sub: "ghost".to_string(), user_id: u64::MAX, exp: 0 };
    assert_eq!(authorize(&store, Some(&c)).unwrap_err(), UNAUTHORIZED);
}
