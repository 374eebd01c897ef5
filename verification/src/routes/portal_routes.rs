//! The decisions behind the portal pages: where each form sends the browser, what the
//! session holds and what a page shows.
use vstd::prelude::*;

use crate::auth::models::Credentials;
use crate::auth::registration::law_sign_up_fails_only_when_hashing_fails;
use crate::auth::{authenticate, login_accepted};
use crate::services::all_service_names;
use crate::user::{
    create_user, delete_user, deleted, find_user_by_id, id_in_use, name_of_id, registered,
    sign_up_outcome, valid_rows, NewUser, User, UserError, UserStore,
};

verus! {

/// The session key under which the signed-in account id is kept.
pub const USER_ID_KEY: &'static str = "user_id";

pub const LOGIN_PAGE: &'static str = "/portal/login";

pub const REGISTER_PAGE: &'static str = "/portal/register";

pub const DASHBOARD_PAGE: &'static str = "/portal/dashboard";

pub const SETTINGS_PAGE: &'static str = "/portal/settings";

/// Where a sign-in sends the browser, and the account id to keep in the session.
#[derive(Debug)]
pub struct PortalLogin {
    pub redirect: &'static str,
    pub session_user_id: Option<i64>,
}

/// Where deleting one's account sends the browser, and whether the session is cleared.
#[derive(Debug)]
pub struct PortalDelete {
    pub redirect: &'static str,
    pub clear_session: bool,
}

/// What the dashboard and settings pages show.
#[derive(Debug)]
pub struct PageContext {
    pub user: User,
    pub services: Vec<String>,
}

/// What a service page shows.
#[derive(Debug)]
pub struct ServicePageContext {
    pub user: User,
    pub services: Vec<String>,
    pub service_name: String,
    pub resources: Vec<String>,
}

/// `user` is the account stored under the id `id`.
pub open spec fn is_account(rows: crate::user::UserRows, user: User, id: i64) -> bool {
    &&& user.id == id
    &&& id_in_use(rows, id)
    &&& user.username@ == name_of_id(rows, id)
    &&& rows[user.username@] == (id, user.password_hash@)
}

/// The service names as the portal lists them.
pub open spec fn portal_services(services: Seq<String>) -> bool {
    services.len() == 2 && services[0]@ == "container"@ && services[1]@ == "virtual_network"@
}

/// Signs in from the portal form: to the dashboard with the account id kept in the
/// session, or back to the sign-in page.
pub fn login(store: &UserStore, creds: &Credentials) -> (r: PortalLogin)
    ensures
        login_accepted(store@, creds.username@, creds.password@) ==> r.redirect@ == DASHBOARD_PAGE@
            && r.session_user_id == Some(store@[creds.username@].0),
        !login_accepted(store@, creds.username@, creds.password@) ==> r.redirect@ == LOGIN_PAGE@
            && r.session_user_id is None,
{
    match authenticate(store, creds) {
        Ok(user) => PortalLogin { redirect: DASHBOARD_PAGE, session_user_id: Some(user.id) },
        Err(_) => PortalLogin { redirect: LOGIN_PAGE, session_user_id: None },
    }
}

/// What the portal's sign-up form does: a sign-up of `name` with `password` takes `before`
/// to `after` with some outcome, and `page` is where the browser goes for it (the sign-in
/// page after success, back to the sign-up page otherwise).
pub open spec fn portal_sign_up_outcome(
    before: UserStore,
    after: UserStore,
    name: Seq<char>,
    password: Seq<char>,
    page: Seq<char>,
) -> bool {
    exists|result: Result<(), UserError>|
        #[trigger] sign_up_outcome(before, after, name, password, result) && page == if result is Ok {
            LOGIN_PAGE@
        } else {
            REGISTER_PAGE@
        }
}

/// The portal's sign-up form sends a taken name back to the sign-up page and changes
/// nothing. For a free name, while ids are left, it goes on to the sign-in page with an
/// account that signs in with the given password, unless hashing the password failed:
/// then it goes back to the sign-up page, no row changes, and the table counts one more
/// hashing failure.
pub proof fn law_portal_sign_up_reaches_login_unless_hashing_fails(
    before: UserStore,
    after: UserStore,
    name: Seq<char>,
    password: Seq<char>,
    page: Seq<char>,
)
    requires
        portal_sign_up_outcome(before, after, name, password, page),
    ensures
        before@.contains_key(name) ==> page == REGISTER_PAGE@ && after@ == before@,
        !before@.contains_key(name) && before.accepts_new_ids() ==> {
            &&& page == LOGIN_PAGE@ <==> after.hashing_failures() == before.hashing_failures()
            &&& page == LOGIN_PAGE@ ==> login_accepted(after@, name, password)
            &&& page != LOGIN_PAGE@ ==> page == REGISTER_PAGE@ && after@ == before@
                && after.hashing_failures() == before.hashing_failures() + 1
        },
{
    reveal_strlit("/portal/login");
    reveal_strlit("/portal/register");
    assert(LOGIN_PAGE@[8] != REGISTER_PAGE@[8]);
    let result = choose|result: Result<(), UserError>|
        #[trigger] sign_up_outcome(before, after, name, password, result) && page == if result is Ok {
            LOGIN_PAGE@
        } else {
            REGISTER_PAGE@
        };
    law_sign_up_fails_only_when_hashing_fails(before, after, name, password, result);
}

/// Signs up from the portal form: to the sign-in page when the account was created, else
/// back to the sign-up page.
pub fn register(store: &mut UserStore, creds: Credentials) -> (r: &'static str)
    ensures
        valid_rows(final(store)@),
        r@ == LOGIN_PAGE@ ==> registered(
            old(store)@,
            final(store)@,
            creds.username@,
            creds.password@,
        ),
        r@ != LOGIN_PAGE@ ==> r@ == REGISTER_PAGE@ && final(store)@ == old(store)@,
        old(store)@.contains_key(creds.username@) ==> r@ == REGISTER_PAGE@,
        portal_sign_up_outcome(*old(store), *final(store), creds.username@, creds.password@, r@),
{
    proof {
        reveal_strlit("/portal/login");
        reveal_strlit("/portal/register");
        assert(LOGIN_PAGE@[8] != REGISTER_PAGE@[8]);
    }
    let new_user = NewUser { username: creds.username, password: creds.password };
    match create_user(store, new_user) {
        Ok(_) => LOGIN_PAGE,
        Err(_) => REGISTER_PAGE,
    }
}

/// The account the session belongs to, if the session holds an id of an existing account.
pub fn session_user(store: &UserStore, session_user_id: Option<i64>) -> (r: Option<User>)
    ensures
        match session_user_id {
            Some(id) => if id_in_use(store@, id) {
                r matches Some(u) && is_account(store@, u, id)
            } else {
                r is None
            },
            None => r is None,
        },
{
    match session_user_id {
        Some(id) => find_user_by_id(store, id),
        None => None,
    }
}

/// The dashboard of the signed-in account, or the sign-in page to go to.
pub fn dashboard_page(store: &UserStore, session_user_id: Option<i64>) -> (r: Result<
    PageContext,
    &'static str,
>)
    ensures
        match session_user_id {
            Some(id) => if id_in_use(store@, id) {
                r matches Ok(page) && is_account(store@, page.user, id) && portal_services(
                    page.services@,
                )
            } else {
                r matches Err(p) && p@ == LOGIN_PAGE@
            },
            None => r matches Err(p) && p@ == LOGIN_PAGE@,
        },
{
    match session_user(store, session_user_id) {
        Some(user) => Ok(PageContext { user, services: all_service_names() }),
        None => Err(LOGIN_PAGE),
    }
}

/// The settings page of the signed-in account, or the sign-in page to go to.
pub fn settings_page(store: &UserStore, session_user_id: Option<i64>) -> (r: Result<
    PageContext,
    &'static str,
>)
    ensures
        match session_user_id {
            Some(id) => if id_in_use(store@, id) {
                r matches Ok(page) && is_account(store@, page.user, id) && portal_services(
                    page.services@,
                )
            } else {
                r matches Err(p) && p@ == LOGIN_PAGE@
            },
            None => r matches Err(p) && p@ == LOGIN_PAGE@,
        },
{
    match session_user(store, session_user_id) {
        Some(user) => Ok(PageContext { user, services: all_service_names() }),
        None => Err(LOGIN_PAGE),
    }
}

/// The resources a service page lists.
pub open spec fn resources_of(service_name: Seq<char>) -> Seq<Seq<char>> {
    if service_name == "container"@ {
        seq!["container-1"@, "container-2"@]
    } else if service_name == "virtual_network"@ {
        seq!["vnet-main"@]
    } else {
        seq![]
    }
}

/// The resources a service page lists: two containers, the main virtual network, or none.
pub fn service_resources(service_name: &String) -> (r: Vec<String>)
    ensures
        r@.len() == resources_of(service_name@).len(),
        forall|i: int| 0 <= i < r@.len() ==> #[trigger] r@[i]@ == resources_of(service_name@)[i],
{
    let mut r: Vec<String> = Vec::new();
    let container = String::from_str("container");
    let virtual_network = String::from_str("virtual_network");
    if *service_name == container {
        r.push(String::from_str("container-1"));
        r.push(String::from_str("container-2"));
    } else if *service_name == virtual_network {
        r.push(String::from_str("vnet-main"));
    }
    r
}

/// A service page of the signed-in account, or the sign-in page to go to.
pub fn service_page(store: &UserStore, session_user_id: Option<i64>, service_name: String) -> (r:
    Result<ServicePageContext, &'static str>)
    ensures
        match session_user_id {
            Some(id) => if id_in_use(store@, id) {
                r matches Ok(page) && is_account(store@, page.user, id) && portal_services(
                    page.services@,
                ) && page.service_name@ == service_name@ && page.resources@.len()
                    == resources_of(service_name@).len() && forall|i: int|
                    0 <= i < page.resources@.len() ==> #[trigger] page.resources@[i]@
                        == resources_of(service_name@)[i]
            } else {
                r matches Err(p) && p@ == LOGIN_PAGE@
            },
            None => r matches Err(p) && p@ == LOGIN_PAGE@,
        },
{
    match session_user(store, session_user_id) {
        Some(user) => {
            let resources = service_resources(&service_name);
            Ok(ServicePageContext { user, services: all_service_names(), service_name, resources })
        },
        None => Err(LOGIN_PAGE),
    }
}

/// Deletes the signed-in account from the settings page: to the sign-in page with the
/// session cleared when it was deleted, else back to the settings page.
pub fn delete_current_user(store: &mut UserStore, session_user_id: Option<i64>) -> (r: PortalDelete)
    ensures
        valid_rows(final(store)@),
        match session_user_id {
            Some(id) => if id_in_use(old(store)@, id) {
                r.redirect@ == LOGIN_PAGE@ && r.clear_session && deleted(
                    old(store)@,
                    final(store)@,
                    id,
                )
            } else {
                r.redirect@ == SETTINGS_PAGE@ && !r.clear_session && final(store)@ == old(store)@
            },
            None => r.redirect@ == SETTINGS_PAGE@ && !r.clear_session && final(store)@ == old(store)@,
        },
{
    proof {
        use_type_invariant(&*store);
        store.lemma_valid();
    }
    match session_user_id {
        Some(id) => match delete_user(store, id) {
            Ok(_) => PortalDelete { redirect: LOGIN_PAGE, clear_session: true },
            Err(_) => PortalDelete { redirect: SETTINGS_PAGE, clear_session: false },
        },
        None => PortalDelete { redirect: SETTINGS_PAGE, clear_session: false },
    }
}

/// Where signing out sends the browser.
pub fn logout() -> (r: &'static str)
    ensures
        r@ == LOGIN_PAGE@,
{
    LOGIN_PAGE
}

} // verus!
