use tenant_auth::csrf::new_csrf_token;
use tenant_auth::resolver::{resolve, resolve_with};
use tenant_auth::session::{
    callback, login, login_with, reset_key, reset_key_with, update, user, Callback, CallbackStep,
    Landing, SessionState, UserReply,
};
use tenant_auth::store::{StoreError, TenantStore};
use tenant_auth::tenant::{GitHubUser, Tenant};

fn alice() -> GitHubUser {
    GitHubUser { login: "alice".to_string(), id: 42 }
}

fn session_with_state(state: &str) -> SessionState {
    SessionState { tenant_id: None, csrf_state: Some(state.to_string()) }
}

fn is_base58_char(c: char) -> bool {
    "123456789ABCDEFGHJKLMNPQRSTUVWXYZabcdefghijkmnopqrstuvwxyz".contains(c)
}

#[test]
fn csrf_token_is_base58_text_of_128_bits() {
    let a = new_csrf_token();
    let b = new_csrf_token();
    assert!(!a.is_empty());
    assert!(a.len() >= 16 && a.len() <= 22);
    assert!(a.chars().all(is_base58_char));
    assert!(b.chars().all(is_base58_char));
    assert_ne!(a, b);
}

#[test]
fn landing_locations_differ() {
    assert_eq!(Landing::Authenticated.location(), "/#/user");
    assert_eq!(Landing::Anonymous.location(), "/");
}

#[test]
fn user_without_session_issues_state() {
    let store = TenantStore::new();
    let mut session = SessionState::new();
    match user(&mut session, &store) {
        UserReply::Authorize(state) => {
            assert!(state.chars().all(is_base58_char));
            assert_eq!(session.csrf_state, Some(state));
            assert_eq!(session.tenant_id, None);
        }
        UserReply::Current(_) => panic!("no tenant is bound"),
    }
}

#[test]
fn user_with_unknown_tenant_issues_state() {
    let store = TenantStore::new();
    let mut session = SessionState { tenant_id: Some(5), csrf_state: None };
    assert!(matches!(user(&mut session, &store), UserReply::Authorize(_)));
    assert!(session.csrf_state.is_some());
}

#[test]
fn user_with_bound_session_returns_tenant() {
    let mut store = TenantStore::new();
    let mut session = SessionState::new();
    login_with(&mut session, &mut store, &alice(), 9).ok().unwrap();
    match user(&mut session, &store) {
        UserReply::Current(v) => {
            assert_eq!(v.id, 1);
            assert_eq!(v.app_id, 9);
            assert_eq!(v.github_login, "alice");
            assert_eq!(v.github_id, 42);
            assert_eq!(v.block_list, "");
            assert!(!v.captcha);
        }
        UserReply::Authorize(_) => panic!("the session is bound"),
    }
    assert_eq!(session.csrf_state, None);
}

#[test]
fn issued_state_round_trip_exchanges() {
    let store = TenantStore::new();
    let mut session = SessionState::new();
    let state = match user(&mut session, &store) {
        UserReply::Authorize(s) => s,
        UserReply::Current(_) => panic!("no tenant is bound"),
    };
    let cb = Callback { code: "c0de".to_string(), state };
    match callback(&mut session, &cb) {
        CallbackStep::Exchange(code) => assert_eq!(code, "c0de"),
        CallbackStep::Reject => panic!("state matched"),
    }
    assert_eq!(session.csrf_state, None);
    // the state is used up: a replay is refused
    assert!(matches!(callback(&mut session, &cb), CallbackStep::Reject));
}

#[test]
fn callback_without_stored_state_rejects() {
    let mut session = SessionState::new();
    let cb = Callback { code: "abc".to_string(), state: "y".to_string() };
    assert!(matches!(callback(&mut session, &cb), CallbackStep::Reject));
}

#[test]
fn first_time_callback_creates_tenant() {
    let mut store = TenantStore::new();
    let mut session = session_with_state("st4te");
    let cb = Callback { code: "abc".to_string(), state: "st4te".to_string() };
    match callback(&mut session, &cb) {
        CallbackStep::Exchange(code) => assert_eq!(code, "abc"),
        CallbackStep::Reject => panic!("state matched"),
    }
    let landing = login(&mut session, &mut store, &alice()).ok().unwrap();
    assert_eq!(landing.location(), "/#/user");
    assert_eq!(store.len(), 1);
    let t = store.find_tenant_by_github_id(42).unwrap();
    assert_eq!(t.github_login, "alice");
    assert_eq!(t.github_id, 42);
    assert_eq!(session.tenant_id, Some(t.id));
}

#[test]
fn returning_user_callback_keeps_tenant() {
    let mut store = TenantStore::new();
    let first = store.insert_tenant(77, "alice".to_string(), 42).ok().unwrap();
    let mut session = session_with_state("s");
    let cb = Callback { code: "abc".to_string(), state: "s".to_string() };
    assert!(matches!(callback(&mut session, &cb), CallbackStep::Exchange(_)));
    let landing = login_with(&mut session, &mut store, &alice(), 1234).ok().unwrap();
    assert_eq!(landing.location(), "/#/user");
    assert_eq!(store.len(), 1);
    assert_eq!(session.tenant_id, Some(first.id));
    let t = store.find_tenant_by_id(first.id).unwrap();
    assert_eq!(t.app_id, 77);
}

#[test]
fn mismatched_state_redirects_anonymous() {
    let mut session = session_with_state("y");
    let cb = Callback { code: "abc".to_string(), state: "x".to_string() };
    match callback(&mut session, &cb) {
        CallbackStep::Reject => assert_eq!(Landing::Anonymous.location(), "/"),
        CallbackStep::Exchange(_) => panic!("state did not match"),
    }
    assert_eq!(session.csrf_state, None);
    assert_eq!(session.tenant_id, None);
}

#[test]
fn reset_key_without_session_is_unauthorized() {
    let mut store = TenantStore::new();
    store.insert_tenant(5, "alice".to_string(), 42).ok().unwrap();
    let session = SessionState::new();
    assert!(reset_key(&session, &mut store).is_none());
    assert_eq!(store.len(), 1);
    let t = store.find_tenant_by_github_id(42).unwrap();
    assert_eq!(t.app_id, 5);
}

#[test]
fn reset_key_with_unknown_tenant_is_unauthorized() {
    let mut store = TenantStore::new();
    let session = SessionState { tenant_id: Some(3), csrf_state: None };
    assert!(reset_key_with(&session, &mut store, 8).is_none());
    assert_eq!(store.len(), 0);
}

#[test]
fn reset_key_changes_only_app_id() {
    let mut store = TenantStore::new();
    let mut session = SessionState::new();
    login_with(&mut session, &mut store, &alice(), 10).ok().unwrap();
    let edit = Tenant {
        id: 1,
        app_id: 10,
        github_login: "x".to_string(),
        github_id: 0,
        block_list: "spam".to_string(),
        captcha: true,
    };
    update(&session, &mut store, &edit).unwrap();
    let v = reset_key_with(&session, &mut store, 11).unwrap();
    assert_eq!(v.app_id, 11);
    assert_eq!(v.id, 1);
    assert_eq!(v.github_login, "alice");
    assert_eq!(v.github_id, 42);
    assert_eq!(v.block_list, "spam");
    assert!(v.captcha);
    let t = store.find_tenant_by_id(1).unwrap();
    assert_eq!(t.app_id, 11);
    assert_eq!(t.block_list, "spam");
    let w = reset_key(&session, &mut store).unwrap();
    assert_eq!(w.id, 1);
    assert_eq!(w.github_id, 42);
    assert_eq!(store.find_tenant_by_id(1).unwrap().app_id, w.app_id);
}

#[test]
fn update_ignores_smuggled_identity() {
    let mut store = TenantStore::new();
    let mut session = SessionState::new();
    login_with(&mut session, &mut store, &alice(), 10).ok().unwrap();
    let edit = Tenant {
        id: 999,
        app_id: 123,
        github_login: "mallory".to_string(),
        github_id: 7,
        block_list: "a,b".to_string(),
        captcha: true,
    };
    let v = update(&session, &mut store, &edit).unwrap();
    assert_eq!(v.id, 1);
    assert_eq!(v.app_id, 10);
    assert_eq!(v.github_login, "alice");
    assert_eq!(v.github_id, 42);
    assert_eq!(v.block_list, "a,b");
    assert!(v.captcha);
    assert!(store.find_tenant_by_id(999).is_none());
    assert!(store.find_tenant_by_github_id(7).is_none());
}

#[test]
fn update_without_session_is_unauthorized() {
    let mut store = TenantStore::new();
    let edit = Tenant::new(1, "a".to_string(), 1);
    assert!(update(&SessionState::new(), &mut store, &edit).is_none());
    assert_eq!(store.len(), 0);
}

#[test]
fn resolve_is_idempotent() {
    let mut store = TenantStore::new();
    let a = resolve(&mut store, &alice()).ok().unwrap();
    let renamed = GitHubUser { login: "alice2".to_string(), id: 42 };
    let b = resolve(&mut store, &renamed).ok().unwrap();
    let c = resolve_with(&mut store, &alice(), 3).ok().unwrap();
    assert_eq!(a.id, b.id);
    assert_eq!(a.id, c.id);
    assert_eq!(a.app_id, c.app_id);
    assert_eq!(b.github_login, "alice");
    assert_eq!(store.len(), 1);
}

#[test]
fn distinct_identities_get_distinct_ids() {
    let mut store = TenantStore::new();
    let a = resolve_with(&mut store, &alice(), 1).ok().unwrap();
    let bob = GitHubUser { login: "bob".to_string(), id: 43 };
    let b = resolve_with(&mut store, &bob, 2).ok().unwrap();
    assert_eq!(a.id, 1);
    assert_eq!(b.id, 2);
    assert_eq!(store.len(), 2);
}

#[test]
fn second_insert_of_identity_is_refused() {
    let mut store = TenantStore::new();
    store.insert_tenant(1, "alice".to_string(), 42).ok().unwrap();
    let r = store.insert_tenant(2, "alice".to_string(), 42);
    assert!(matches!(r, Err(StoreError::DuplicateIdentity)));
    assert_eq!(store.len(), 1);
}

#[test]
fn update_of_unknown_record_changes_nothing() {
    let mut store = TenantStore::new();
    store.insert_tenant(1, "alice".to_string(), 42).ok().unwrap();
    let edit = Tenant::new(9, "b".to_string(), 5);
    assert!(store.update_tenant(&edit).is_none());
    assert_eq!(store.find_tenant_by_id(1).unwrap().app_id, 1);
}

#[test]
fn login_binds_session() {
    let mut store = TenantStore::new();
    let mut session = SessionState::new();
    let landing = login(&mut session, &mut store, &alice()).ok().unwrap();
    assert!(matches!(landing, Landing::Authenticated));
    assert_eq!(session.tenant_id, Some(1));
}
