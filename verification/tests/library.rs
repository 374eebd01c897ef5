use pcloud::ansible::{
    deployment_args, deployment_extra_vars, exit_code_debug, failure_message,
    list_containers_args, playbook_outcome,
};
use pcloud::auth::handlers::{claims_for, delete_reply, login as api_login, login_at, register_reply};
use std::time::{SystemTime, UNIX_EPOCH};
use pcloud::auth::middleware::claims_subject_id;
use pcloud::auth::models::Credentials;
use pcloud::auth::registration::register_user;
use pcloud::auth::{authenticate, AuthError};
use pcloud::routes::portal_routes::{
    dashboard_page, delete_current_user, login, logout, register, service_page,
    service_resources, settings_page, DASHBOARD_PAGE, LOGIN_PAGE, REGISTER_PAGE, SETTINGS_PAGE,
};
use pcloud::status::{ReplyKey, CONFLICT, INTERNAL_SERVER_ERROR, NOT_FOUND};
use pcloud::text::{push_decimal, push_signed_decimal, starts_with, strip_prefix};
use pcloud::user::{
    create_user, delete_user, find_user_by_id, find_user_by_username, NewUser, User,
    UserDeleteError, UserError, UserStore,
};

fn new_user(username: &str, password: &str) -> NewUser {
    NewUser { username: username.to_string(), password: password.to_string() }
}

fn creds(username: &str, password: &str) -> Credentials {
    Credentials { username: username.to_string(), password: password.to_string() }
}

#[test]
fn decimal_text() {
    for (n, text) in [(0u64, "0"), (7, "7"), (1234567890, "1234567890"), (u64::MAX, "18446744073709551615")] {
        let mut s = String::new();
        push_decimal(&mut s, n);
        assert_eq!(s, text);
    }
    let mut s = String::from("x");
    push_signed_decimal(&mut s, -42);
    assert_eq!(s, "x-42");
    let mut s = String::new();
    push_signed_decimal(&mut s, i64::MIN);
    assert_eq!(s, "-9223372036854775808");
}

#[test]
fn prefixes() {
    assert!(starts_with("Bearer x", "Bearer "));
    assert!(!starts_with("Bear", "Bearer "));
    assert!(starts_with("anything", ""));
    assert_eq!(strip_prefix("héllo wörld", "héllo "), Some("wörld".to_string()));
    assert_eq!(strip_prefix("hello", "world"), None);
}

#[test]
fn ansible_messages() {
    assert_eq!(
        deployment_extra_vars("web", "nginx:latest"),
        "container_name=web container_image=nginx:latest"
    );
    assert_eq!(
        deployment_args("web", "nginx"),
        vec![
            "-i".to_string(),
            "ansible/inventory.ini".to_string(),
            "ansible/playbook.yml".to_string(),
            "--extra-vars".to_string(),
            "container_name=web container_image=nginx".to_string(),
        ]
    );
    assert_eq!(
        list_containers_args(),
        vec![
            "-i".to_string(),
            "ansible/inventory.ini".to_string(),
            "ansible/list_containers.yml".to_string(),
        ]
    );
    assert_eq!(exit_code_debug(Some(2)), format!("{:?}", Some(2)));
    assert_eq!(exit_code_debug(Some(-1)), format!("{:?}", Some(-1)));
    assert_eq!(exit_code_debug(None), format!("{:?}", None::<i32>));
    assert_eq!(
        failure_message(Some(4), "boom", "out"),
        format!("Exit code: {:?}. Stderr: {}. Stdout: {}", Some(4), "boom", "out")
    );
    assert_eq!(playbook_outcome(true, Some(0), "out", "err"), Ok(()));
    assert_eq!(
        playbook_outcome(false, None, "out", "err"),
        Err("Exit code: None. Stderr: err. Stdout: out".to_string())
    );
}

#[test]
fn store_assigns_increasing_ids_and_refuses_taken_names() {
    let mut store = UserStore::new();
    assert_eq!(create_user(&mut store, new_user("alice", "pw-a")), Ok(()));
    assert_eq!(create_user(&mut store, new_user("alice", "other")), Err(UserError::UsernameTaken));
    let alice = find_user_by_username(&store, "alice").expect("alice exists");
    assert_eq!(alice.id, 1);
    assert_eq!(alice.username, "alice");
    assert!(alice.password_hash.starts_with("$2b$12$"));
    assert_eq!(alice.password_hash.len(), 60);
    assert!(alice.password_hash.is_ascii());
    assert_ne!(alice.password_hash, "pw-a");
    assert_eq!(find_user_by_username(&store, "bob").map(|u| u.id), None);
    let by_id = find_user_by_id(&store, 1).expect("id 1 exists");
    assert_eq!(by_id.username, "alice");
    assert!(find_user_by_id(&store, 2).is_none());
}

#[test]
fn deleting_twice_reports_not_found_and_ids_are_not_reused() {
    let mut store = UserStore::new();
    register_user(&mut store, new_user("carol", "pw")).unwrap();
    assert_eq!(delete_user(&mut store, 1), Ok(()));
    assert_eq!(delete_user(&mut store, 1), Err(UserDeleteError::UserNotFound));
    store_insert_hash(&mut store, "dave");
    assert_eq!(find_user_by_username(&store, "dave").unwrap().id, 2);
}

fn store_insert_hash(store: &mut UserStore, name: &str) {
    pcloud::user::insert_user(store, name.to_string(), Ok("not-a-bcrypt-hash".to_string())).unwrap();
}

#[test]
fn wrong_password_and_unknown_user() {
    let mut store = UserStore::new();
    register_user(&mut store, new_user("erin", "secret")).unwrap();
    assert_eq!(authenticate(&store, &creds("erin", "wrong")).unwrap_err(), AuthError::InvalidPassword);
    assert_eq!(authenticate(&store, &creds("nobody", "secret")).unwrap_err(), AuthError::UserNotFound);
    // A stored hash bcrypt cannot read never matches.
    store_insert_hash(&mut store, "frank");
    assert_eq!(
        authenticate(&store, &creds("frank", "not-a-bcrypt-hash")).unwrap_err(),
        AuthError::InvalidPassword
    );
}

#[test]
fn replies_for_each_outcome() {
    let r = register_reply(&Err(UserError::UsernameTaken));
    assert_eq!((r.status, r.key, r.text.as_str()), (CONFLICT, ReplyKey::Error, "User already exists"));
    let r = register_reply(&Err(UserError::DatabaseError("x".to_string())));
    assert_eq!(
        (r.status, r.key, r.text.as_str()),
        (INTERNAL_SERVER_ERROR, ReplyKey::Error, "An unexpected error occurred")
    );
    let r = delete_reply(&Err(UserDeleteError::UserNotFound));
    assert_eq!((r.status, r.key, r.text.as_str()), (NOT_FOUND, ReplyKey::Error, "User not found"));
}

#[test]
fn issued_claims_name_the_account() {
    let user = User { id: 5, username: "gina".to_string(), password_hash: String::new() };
    let c = claims_for(&user, 1_700_000_000);
    assert_eq!(c.sub, "gina");
    assert_eq!(c.user_id, 5);
    assert_eq!(c.exp, 1_700_086_400);
    assert_eq!(claims_subject_id(&c), Some(5));
}

#[test]
fn portal_flow() {
    let mut store = UserStore::new();
    assert_eq!(register(&mut store, creds("hank", "pw")), LOGIN_PAGE);
    assert_eq!(register(&mut store, creds("hank", "pw")), REGISTER_PAGE);

    let refused = login(&store, &creds("hank", "bad"));
    assert_eq!((refused.redirect, refused.session_user_id), (LOGIN_PAGE, None));
    let signed_in = login(&store, &creds("hank", "pw"));
    assert_eq!((signed_in.redirect, signed_in.session_user_id), (DASHBOARD_PAGE, Some(1)));

    let page = dashboard_page(&store, Some(1)).expect("dashboard");
    assert_eq!(page.user.username, "hank");
    assert_eq!(page.services, vec!["container".to_string(), "virtual_network".to_string()]);
    assert_eq!(settings_page(&store, None).unwrap_err(), LOGIN_PAGE);
    assert_eq!(dashboard_page(&store, Some(9)).unwrap_err(), LOGIN_PAGE);

    let svc = service_page(&store, Some(1), "container".to_string()).expect("service page");
    assert_eq!(svc.resources, vec!["container-1".to_string(), "container-2".to_string()]);

    let gone = delete_current_user(&mut store, Some(1));
    assert_eq!((gone.redirect, gone.clear_session), (LOGIN_PAGE, true));
    let again = delete_current_user(&mut store, Some(1));
    assert_eq!((again.redirect, again.clear_session), (SETTINGS_PAGE, false));
    assert_eq!(logout(), LOGIN_PAGE);
}

#[test]
fn resources_per_service() {
    assert_eq!(service_resources(&"virtual_network".to_string()), vec!["vnet-main".to_string()]);
    assert!(service_resources(&"other".to_string()).is_empty());
}

#[test]
fn sign_in_token_expires_a_day_after_now() {
    let mut store = UserStore::new();
    register_user(&mut store, new_user("ivy", "pw")).unwrap();
    let before = SystemTime::now().duration_since(UNIX_EPOCH).unwrap().as_secs() as usize;
    let claims = api_login(&store, &creds("ivy", "pw")).unwrap();
    let after = SystemTime::now().duration_since(UNIX_EPOCH).unwrap().as_secs() as usize;
    assert!(before + 86400 <= claims.exp && claims.exp <= after + 86400);
    assert_eq!(claims.user_id, 1);
}

#[test]
fn sign_in_at_a_given_time_expires_exactly_a_day_later() {
    let mut store = UserStore::new();
    register_user(&mut store, new_user("jade", "pw")).unwrap();
    let claims = login_at(&store, &creds("jade", "pw"), 1_700_000_000).unwrap();
    assert_eq!(claims.exp, 1_700_086_400);
    assert_eq!(claims.sub, "jade");
    assert_eq!(claims.user_id, 1);
    assert_eq!(login_at(&store, &creds("jade", "nope"), 1_700_000_000).unwrap_err(), 401);
}
