use vstd::prelude::*;
use crate::entropy::random_app_id;
use crate::store::{find_github, lemma_find_github_none, StoreError, StoreModel, TenantStore};
use crate::tenant::{GitHubUser, Tenant, TenantModel};

verus! {

/// The record created for a first-time identity in store `s`.
pub open spec fn fresh_tenant(s: StoreModel, login: Seq<char>, github_id: i64, app_id: i64) -> TenantModel {
    TenantModel {
        id: s.next_id,
        app_id,
        github_login: login,
        github_id,
        block_list: Seq::empty(),
        captcha: false,
    }
}

/// The store and the record after resolving the identity `github_id`: the
/// stored record when there is one, else a new record with credential
/// `app_id` appended to the store. `None` when no id is left to assign.
pub open spec fn resolved(s: StoreModel, login: Seq<char>, github_id: i64, app_id: i64) -> Option<
    (StoreModel, TenantModel),
> {
    match find_github(s.tenants, github_id) {
        Some(t) => Some((s, t)),
        None => if s.next_id < i64::MAX {
            let t = fresh_tenant(s, login, github_id, app_id);
            Some((StoreModel { tenants: s.tenants.push(t), next_id: (s.next_id + 1) as i64 }, t))
        } else {
            None
        },
    }
}

/// Resolving an identity keeps the store well formed, and afterwards the
/// resolved record is the only one that carries that identity.
pub proof fn lemma_one_tenant_per_identity(
    s: StoreModel,
    login: Seq<char>,
    github_id: i64,
    app_id: i64,
)
    requires
        s.wf(),
    ensures
        match resolved(s, login, github_id, app_id) {
            Some((s1, t)) => {
                &&& s1.wf()
                &&& forall|i: int|
                    0 <= i < s1.tenants.len() && #[trigger] s1.tenants[i].github_id == github_id
                        ==> s1.tenants[i] == t
            },
            None => true,
        },
{
    match find_github(s.tenants, github_id) {
        Some(t) => {
            lemma_find_github_some(s.tenants, github_id);
            let k = choose|k: int| 0 <= k < s.tenants.len() && s.tenants[k] == t;
            assert forall|i: int|
                0 <= i < s.tenants.len() && #[trigger] s.tenants[i].github_id == github_id
                    implies s.tenants[i] == t by {
                if i != k {
                    if i < k {
                        assert(s.tenants[i].github_id != s.tenants[k].github_id);
                    } else {
                        assert(s.tenants[k].github_id != s.tenants[i].github_id);
                    }
                }
            }
        },
        None => {
            lemma_find_github_none(s.tenants, github_id);
        },
    }
}

/// A lookup that finds a record finds one that is stored.
pub proof fn lemma_find_github_some(s: Seq<TenantModel>, github_id: i64)
    requires
        find_github(s, github_id) is Some,
    ensures
        exists|k: int|
            0 <= k < s.len() && s[k] == find_github(s, github_id)->Some_0
                && s[k].github_id == github_id,
    decreases s.len(),
{
    if s.last().github_id != github_id {
        lemma_find_github_some(s.drop_last(), github_id);
        let k = choose|k: int|
            0 <= k < s.drop_last().len() && s.drop_last()[k] == find_github(
                s.drop_last(),
                github_id,
            )->Some_0 && s.drop_last()[k].github_id == github_id;
        assert(s[k] == s.drop_last()[k]);
    } else {
        assert(s[s.len() - 1] == s.last());
    }
}

/// Resolving an identity that is already stored returns the same record
/// and leaves the store as it is, whatever login and credential come with
/// the second call.
pub proof fn lemma_resolve_idempotent(
    s: StoreModel,
    login: Seq<char>,
    github_id: i64,
    app_id: i64,
    login2: Seq<char>,
    app_id2: i64,
)
    requires
        resolved(s, login, github_id, app_id) is Some,
    ensures
        resolved(s, login, github_id, app_id) matches Some((s1, t)) && resolved(
            s1,
            login2,
            github_id,
            app_id2,
        ) == Some((s1, t)),
{
    if find_github(s.tenants, github_id) is None {
        let t = fresh_tenant(s, login, github_id, app_id);
        let s1 = s.tenants.push(t);
        assert(s1.drop_last() =~= s.tenants);
    }
}

/// Finds the record of `user`'s identity, or creates one with credential
/// `app_id`. A duplicate reported by the store is answered by fetching the
/// record that is now there.
pub fn resolve_with(store: &mut TenantStore, user: &GitHubUser, app_id: i64) -> (r: Result<
    Tenant,
    StoreError,
>)
    requires
        old(store)@.wf(),
    ensures
        final(store)@.wf(),
        match resolved(old(store)@, user.login@, user.id, app_id) {
            Some((s1, t)) => r matches Ok(x) && x@ == t && final(store)@ == s1,
            None => r matches Err(StoreError::IdsExhausted) && final(store)@ == old(store)@,
        },
{
    match store.find_tenant_by_github_id(user.id) {
        Some(t) => Ok(t),
        None => match store.insert_tenant(app_id, user.login.clone(), user.id) {
            Err(StoreError::DuplicateIdentity) => match store.find_tenant_by_github_id(user.id) {
                Some(t) => Ok(t),
                None => Err(StoreError::DuplicateIdentity),
            },
            other => other,
        },
    }
}

/// Finds the record of `user`'s identity, or creates one with a freshly
/// drawn credential.
pub fn resolve(store: &mut TenantStore, user: &GitHubUser) -> (r: Result<Tenant, StoreError>)
    requires
        old(store)@.wf(),
    ensures
        final(store)@.wf(),
        match r {
            Ok(t) => resolved(old(store)@, user.login@, user.id, t.app_id) == Some((final(store)@, t@)),
            Err(e) => {
                &&& e is IdsExhausted
                &&& find_github(old(store)@.tenants, user.id) is None
                &&& old(store)@.next_id == i64::MAX
                &&& final(store)@ == old(store)@
            },
        },
{
    let app_id = random_app_id();
    resolve_with(store, user, app_id)
}

} // verus!
