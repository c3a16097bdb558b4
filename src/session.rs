use vstd::prelude::*;
use crate::csrf::{is_csrf_token, new_csrf_token};
use crate::entropy::random_app_id;
use crate::resolver::{resolve_with, resolved};
use crate::store::{apply_update, find_id, lemma_find_after_update, lemma_find_id_some, StoreError, StoreModel, TenantStore};
use crate::tenant::{with_app_id, with_profile, GitHubUser, Tenant, TenantModel, UserTenant};

verus! {

/// What a session holds: the tenant it is bound to and the CSRF state
/// issued with the last authorization request.
pub struct SessionModel {
    pub tenant_id: Option<i64>,
    pub csrf_state: Option<Seq<char>>,
}

/// The per-client session, passed into and back out of each operation.
pub struct SessionState {
    pub tenant_id: Option<i64>,
    pub csrf_state: Option<String>,
}

impl View for SessionState {
    type V = SessionModel;

    open spec fn view(&self) -> SessionModel {
        SessionModel {
            tenant_id: self.tenant_id,
            csrf_state: match self.csrf_state {
                Some(s) => Some(s@),
                None => None,
            },
        }
    }
}

impl SessionState {
    /// A fresh session: unauthenticated, with no pending state.
    pub fn new() -> (r: SessionState)
        ensures
            r@ == (SessionModel { tenant_id: None, csrf_state: None }),
    {
        SessionState { tenant_id: None, csrf_state: None }
    }
}

/// The query of the provider's redirect back to this service.
pub struct Callback {
    pub code: String,
    pub state: String,
}

/// The query of the direct sign-in with an access token obtained elsewhere.
pub struct LoginCallback {
    pub access_token: String,
}

/// Where a client is sent once a sign-in attempt is over.
pub enum Landing {
    Authenticated,
    Anonymous,
}

/// The path of each landing location.
pub open spec fn landing_path(l: Landing) -> Seq<char> {
    match l {
        Landing::Authenticated => "/#/user"@,
        Landing::Anonymous => "/"@,
    }
}

impl Landing {
    /// The path to redirect to.
    pub fn location(&self) -> (r: String)
        ensures
            r@ == landing_path(*self),
    {
        proof {
            reveal_strlit("/#/user");
            reveal_strlit("/");
        }
        match self {
            Landing::Authenticated => "/#/user".to_owned(),
            Landing::Anonymous => "/".to_owned(),
        }
    }
}

/// The answer to "who am I".
pub enum UserReply {
    /// The session is bound to this tenant.
    Current(UserTenant),
    /// Not signed in: authorize at the provider with this CSRF state.
    Authorize(String),
}

/// The decision on a provider redirect.
pub enum CallbackStep {
    /// The state matched: exchange this authorization code.
    Exchange(String),
    /// The state was missing or did not match: no exchange.
    Reject,
}

/// The stored record that the session is bound to, if any.
pub open spec fn bound_tenant(session: SessionModel, s: StoreModel) -> Option<TenantModel> {
    match session.tenant_id {
        Some(id) => find_id(s.tenants, id),
        None => None,
    }
}

/// The session after issuing CSRF state `token`.
pub open spec fn after_issue(session: SessionModel, token: Seq<char>) -> SessionModel {
    SessionModel { csrf_state: Some(token), ..session }
}

/// The session after a callback has used up its CSRF state.
pub open spec fn after_callback(session: SessionModel) -> SessionModel {
    SessionModel { csrf_state: None, ..session }
}

/// Whether a callback that echoes `echoed` proceeds to the code exchange.
pub open spec fn state_accepted(session: SessionModel, echoed: Seq<char>) -> bool {
    session.csrf_state == Some(echoed)
}

/// A CSRF state that was just issued and is echoed back unchanged is
/// accepted; any other echo is refused, and once a callback has been handled
/// no echo is accepted until a new state is issued.
pub proof fn lemma_csrf_round_trip(session: SessionModel, token: Seq<char>, echoed: Seq<char>)
    ensures
        state_accepted(after_issue(session, token), token),
        echoed != token ==> !state_accepted(after_issue(session, token), echoed),
        !state_accepted(after_callback(session), echoed),
{
}

/// The record that the session is bound to, looked up in the store.
fn current_tenant(session: &SessionState, store: &TenantStore) -> (r: Option<Tenant>)
    ensures
        match bound_tenant(session@, store@) {
            Some(t) => r matches Some(x) && x@ == t,
            None => r is None,
        },
        r matches Some(x) ==> session.tenant_id == Some(x.id),
{
    match session.tenant_id {
        Some(id) => {
            let r = store.find_tenant_by_id(id);
            proof {
                if r is Some {
                    lemma_find_id_some(store@.tenants, id);
                }
            }
            r
        },
        None => None,
    }
}

/// Reports the bound tenant; otherwise issues a new CSRF state, keeps it on
/// the session and asks the caller to authorize with it.
pub fn user(session: &mut SessionState, store: &TenantStore) -> (r: UserReply)
    ensures
        match bound_tenant(old(session)@, store@) {
            Some(t) => r matches UserReply::Current(v) && v@ == t && final(session)@ == old(
                session,
            )@,
            None => r matches UserReply::Authorize(s) && is_csrf_token(s@) && final(session)@
                == after_issue(old(session)@, s@),
        },
{
    match current_tenant(session, store) {
        Some(t) => UserReply::Current(UserTenant::from_tenant(t)),
        None => {
            let state = new_csrf_token();
            session.csrf_state = Some(state.clone());
            UserReply::Authorize(state)
        },
    }
}

/// Checks the state echoed by the provider against the one on the session.
/// The stored state is used up whatever the outcome; only a match leads to
/// a code exchange.
pub fn callback(session: &mut SessionState, cb: &Callback) -> (r: CallbackStep)
    ensures
        final(session)@ == after_callback(old(session)@),
        state_accepted(old(session)@, cb.state@) ==> (r matches CallbackStep::Exchange(c) && c@
            == cb.code@),
        !state_accepted(old(session)@, cb.state@) ==> r is Reject,
{
    let matched = match &session.csrf_state {
        Some(s) => *s == cb.state,
        None => false,
    };
    session.csrf_state = None;
    if matched {
        CallbackStep::Exchange(cb.code.clone())
    } else {
        CallbackStep::Reject
    }
}

/// Resolves `user`'s identity, creating a record with credential `app_id` on
/// first sight, and binds the session to it.
pub fn login_with(
    session: &mut SessionState,
    store: &mut TenantStore,
    user: &GitHubUser,
    app_id: i64,
) -> (r: Result<Landing, StoreError>)
    requires
        old(store)@.wf(),
    ensures
        final(store)@.wf(),
        match resolved(old(store)@, user.login@, user.id, app_id) {
            Some((s1, t)) => {
                &&& r matches Ok(Landing::Authenticated)
                &&& final(store)@ == s1
                &&& final(session)@ == (SessionModel { tenant_id: Some(t.id), ..old(session)@ })
            },
            None => {
                &&& r matches Err(StoreError::IdsExhausted)
                &&& final(store)@ == old(store)@
                &&& final(session)@ == old(session)@
            },
        },
{
    match resolve_with(store, user, app_id) {
        Ok(t) => {
            session.tenant_id = Some(t.id);
            Ok(Landing::Authenticated)
        },
        Err(e) => Err(e),
    }
}

/// Resolves `user`'s identity, creating a record with a freshly drawn
/// credential on first sight, and binds the session to it.
pub fn login(session: &mut SessionState, store: &mut TenantStore, user: &GitHubUser) -> (r: Result<
    Landing,
    StoreError,
>)
    requires
        old(store)@.wf(),
    ensures
        final(store)@.wf(),
        match r {
            Ok(l) => {
                &&& l is Authenticated
                &&& exists|a: i64|
                    #[trigger] resolved(old(store)@, user.login@, user.id, a) matches Some((s1, t))
                        && final(store)@ == s1 && final(session)@ == (SessionModel {
                        tenant_id: Some(t.id),
                        ..old(session)@
                    })
            },
            Err(e) => {
                &&& e is IdsExhausted
                &&& forall|a: i64| #[trigger] resolved(old(store)@, user.login@, user.id, a) is None
                &&& final(store)@ == old(store)@
                &&& final(session)@ == old(session)@
            },
        },
{
    let app_id = random_app_id();
    login_with(session, store, user, app_id)
}

/// Puts credential `app_id` on the bound tenant's record, leaving every other
/// field as stored, and returns the record. `None`, with the store untouched,
/// when the session is not bound to a stored tenant.
pub fn reset_key_with(session: &SessionState, store: &mut TenantStore, app_id: i64) -> (r: Option<
    UserTenant,
>)
    requires
        old(store)@.wf(),
    ensures
        final(store)@.wf(),
        match bound_tenant(session@, old(store)@) {
            Some(t) => {
                &&& r matches Some(v) && v@ == with_app_id(t, app_id)
                &&& final(store)@ == (StoreModel {
                    tenants: apply_update(old(store)@.tenants, with_app_id(t, app_id)),
                    ..old(store)@
                })
                &&& bound_tenant(session@, final(store)@) == Some(with_app_id(t, app_id))
            },
            None => r is None && final(store)@ == old(store)@,
        },
{
    match current_tenant(session, store) {
        Some(t) => {
            let new_tenant = Tenant {
                id: t.id,
                app_id,
                github_login: t.github_login,
                github_id: t.github_id,
                block_list: t.block_list,
                captcha: t.captcha,
            };
            proof {
                lemma_find_after_update(store@, new_tenant@);
            }
            let stored = store.update_tenant(&new_tenant);
            assert(stored is Some);
            Some(UserTenant::from_tenant(new_tenant))
        },
        None => None,
    }
}

/// Puts a freshly drawn credential on the bound tenant's record, leaving
/// every other field as stored, and returns the record. `None`, with the
/// store untouched, when the session is not bound to a stored tenant.
pub fn reset_key(session: &SessionState, store: &mut TenantStore) -> (r: Option<UserTenant>)
    requires
        old(store)@.wf(),
    ensures
        final(store)@.wf(),
        match bound_tenant(session@, old(store)@) {
            Some(t) => match r {
                Some(v) => {
                    &&& v@ == with_app_id(t, v.app_id)
                    &&& final(store)@ == (StoreModel {
                        tenants: apply_update(old(store)@.tenants, v@),
                        ..old(store)@
                    })
                    &&& bound_tenant(session@, final(store)@) == Some(v@)
                },
                None => false,
            },
            None => r is None && final(store)@ == old(store)@,
        },
{
    let app_id = random_app_id();
    reset_key_with(session, store, app_id)
}

/// Applies the block list and the captcha flag of `new_tenant` to the bound
/// tenant's record; its id, credential, login and external identity stay as
/// stored, whatever `new_tenant` holds. `None`, with the store untouched,
/// when the session is not bound to a stored tenant.
pub fn update(session: &SessionState, store: &mut TenantStore, new_tenant: &Tenant) -> (r: Option<
    UserTenant,
>)
    requires
        old(store)@.wf(),
    ensures
        final(store)@.wf(),
        match bound_tenant(session@, old(store)@) {
            Some(t) => {
                &&& r matches Some(v) && v@ == with_profile(t, new_tenant@)
                &&& final(store)@ == (StoreModel {
                    tenants: apply_update(old(store)@.tenants, with_profile(t, new_tenant@)),
                    ..old(store)@
                })
                &&& bound_tenant(session@, final(store)@) == Some(with_profile(t, new_tenant@))
            },
            None => r is None && final(store)@ == old(store)@,
        },
{
    match current_tenant(session, store) {
        Some(t) => {
            let edited = Tenant {
                id: t.id,
                app_id: t.app_id,
                github_login: t.github_login,
                github_id: t.github_id,
                block_list: new_tenant.block_list.clone(),
                captcha: new_tenant.captcha,
            };
            proof {
                lemma_find_after_update(store@, edited@);
            }
            let stored = store.update_tenant(&edited);
            assert(stored is Some);
            Some(UserTenant::from_tenant(edited))
        },
        None => None,
    }
}

} // verus!
