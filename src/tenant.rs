use vstd::prelude::*;

verus! {

/// The value of a tenant record, with text as character sequences.
pub struct TenantModel {
    pub id: i64,
    pub app_id: i64,
    pub github_login: Seq<char>,
    pub github_id: i64,
    pub block_list: Seq<char>,
    pub captcha: bool,
}

/// A durable tenant record.
///
/// `id` is assigned by the store, `github_id` is the identity provider's
/// immutable numeric id, and `app_id` is the rotatable credential.
pub struct Tenant {
    pub id: i64,
    pub app_id: i64,
    pub github_login: String,
    pub github_id: i64,
    pub block_list: String,
    pub captcha: bool,
}

/// The view of a tenant handed back to its owner: every field of the record.
pub struct UserTenant {
    pub id: i64,
    pub app_id: i64,
    pub github_login: String,
    pub github_id: i64,
    pub block_list: String,
    pub captcha: bool,
}

/// The profile that the identity provider reports for a signed-in user.
pub struct GitHubUser {
    pub login: String,
    pub id: i64,
}

impl View for Tenant {
    type V = TenantModel;

    open spec fn view(&self) -> TenantModel {
        TenantModel {
            id: self.id,
            app_id: self.app_id,
            github_login: self.github_login@,
            github_id: self.github_id,
            block_list: self.block_list@,
            captcha: self.captcha,
        }
    }
}

impl View for UserTenant {
    type V = TenantModel;

    open spec fn view(&self) -> TenantModel {
        TenantModel {
            id: self.id,
            app_id: self.app_id,
            github_login: self.github_login@,
            github_id: self.github_id,
            block_list: self.block_list@,
            captcha: self.captcha,
        }
    }
}

/// A record with a fresh credential and every other field of `t`.
pub open spec fn with_app_id(t: TenantModel, app_id: i64) -> TenantModel {
    TenantModel { app_id, ..t }
}

/// A record with the editable fields of `edit` and every other field of `t`.
pub open spec fn with_profile(t: TenantModel, edit: TenantModel) -> TenantModel {
    TenantModel { block_list: edit.block_list, captcha: edit.captcha, ..t }
}

/// Rotating the credential sets `app_id` and keeps the id, the login, the
/// external identity, the block list and the captcha flag.
pub proof fn lemma_rotation_keeps_fields(t: TenantModel, app_id: i64)
    ensures
        with_app_id(t, app_id).app_id == app_id,
        with_app_id(t, app_id).id == t.id,
        with_app_id(t, app_id).github_login == t.github_login,
        with_app_id(t, app_id).github_id == t.github_id,
        with_app_id(t, app_id).block_list == t.block_list,
        with_app_id(t, app_id).captcha == t.captcha,
{
}

/// A profile edit takes only the block list and the captcha flag from the
/// edit; the id, credential, login and external identity stay those of the
/// stored record, whatever the edit holds.
pub proof fn lemma_profile_edit_keeps_identity(t: TenantModel, edit: TenantModel)
    ensures
        with_profile(t, edit).block_list == edit.block_list,
        with_profile(t, edit).captcha == edit.captcha,
        with_profile(t, edit).id == t.id,
        with_profile(t, edit).app_id == t.app_id,
        with_profile(t, edit).github_login == t.github_login,
        with_profile(t, edit).github_id == t.github_id,
{
}

impl Tenant {
    /// A record not yet stored: id 0, an empty block list and captcha off.
    pub fn new(app_id: i64, github_login: String, github_id: i64) -> (r: Tenant)
        ensures
            r@ == (TenantModel {
                id: 0,
                app_id,
                github_login: github_login@,
                github_id,
                block_list: Seq::empty(),
                captcha: false,
            }),
    {
        Tenant { id: 0, app_id, github_login, github_id, block_list: String::new(), captcha: false }
    }

    /// A field-by-field copy.
    pub fn copy(&self) -> (r: Tenant)
        ensures
            r@ == self@,
    {
        Tenant {
            id: self.id,
            app_id: self.app_id,
            github_login: self.github_login.clone(),
            github_id: self.github_id,
            block_list: self.block_list.clone(),
            captcha: self.captcha,
        }
    }
}

impl UserTenant {
    /// The owner's view of a record.
    pub fn from_tenant(t: Tenant) -> (r: UserTenant)
        ensures
            r@ == t@,
    {
        UserTenant {
            id: t.id,
            app_id: t.app_id,
            github_login: t.github_login,
            github_id: t.github_id,
            block_list: t.block_list,
            captcha: t.captcha,
        }
    }
}

} // verus!
