use vstd::prelude::*;
use crate::tenant::{Tenant, TenantModel};

verus! {

/// The records of a store and the id that the next insert assigns.
pub struct StoreModel {
    pub tenants: Seq<TenantModel>,
    pub next_id: i64,
}

/// The last record of `s` with internal id `id`.
pub open spec fn find_id(s: Seq<TenantModel>, id: i64) -> Option<TenantModel>
    decreases s.len(),
{
    if s.len() == 0 {
        None
    } else if s.last().id == id {
        Some(s.last())
    } else {
        find_id(s.drop_last(), id)
    }
}

/// The last record of `s` with external identity `github_id`.
pub open spec fn find_github(s: Seq<TenantModel>, github_id: i64) -> Option<TenantModel>
    decreases s.len(),
{
    if s.len() == 0 {
        None
    } else if s.last().github_id == github_id {
        Some(s.last())
    } else {
        find_github(s.drop_last(), github_id)
    }
}

/// The records after the record with `edit.id`, if any, takes the credential
/// and the editable fields of `edit`; identity fields never change.
pub open spec fn apply_update(s: Seq<TenantModel>, edit: TenantModel) -> Seq<TenantModel> {
    s.map_values(
        |x: TenantModel|
            if x.id == edit.id {
                TenantModel {
                    app_id: edit.app_id,
                    block_list: edit.block_list,
                    captcha: edit.captcha,
                    ..x
                }
            } else {
                x
            },
    )
}

impl StoreModel {
    /// Internal ids and external identities are each unique, and every id is
    /// below the next one to assign.
    pub open spec fn wf(self) -> bool {
        &&& 1 <= self.next_id
        &&& forall|i: int|
            0 <= i < self.tenants.len() ==> 1 <= #[trigger] self.tenants[i].id < self.next_id
        &&& forall|i: int, j: int|
            0 <= i < j < self.tenants.len() ==> #[trigger] self.tenants[i].id
                != #[trigger] self.tenants[j].id
        &&& forall|i: int, j: int|
            0 <= i < j < self.tenants.len() ==> #[trigger] self.tenants[i].github_id
                != #[trigger] self.tenants[j].github_id
    }
}

/// Lookup by id finds the one record that carries it.
pub proof fn lemma_find_id_at(s: Seq<TenantModel>, id: i64, k: int)
    requires
        0 <= k < s.len(),
        s[k].id == id,
        forall|i: int, j: int| 0 <= i < j < s.len() ==> #[trigger] s[i].id != #[trigger] s[j].id,
    ensures
        find_id(s, id) == Some(s[k]),
    decreases s.len(),
{
    if k != s.len() - 1 {
        assert(s.last().id != id) by {
            assert(s[k].id != s[s.len() - 1].id);
        }
        lemma_find_id_at(s.drop_last(), id, k);
    }
}

/// A lookup by external identity that finds nothing means no record carries it.
pub proof fn lemma_find_github_none(s: Seq<TenantModel>, github_id: i64)
    requires
        find_github(s, github_id) is None,
    ensures
        forall|i: int| 0 <= i < s.len() ==> #[trigger] s[i].github_id != github_id,
    decreases s.len(),
{
    if s.len() > 0 {
        lemma_find_github_none(s.drop_last(), github_id);
        assert forall|i: int| 0 <= i < s.len() implies #[trigger] s[i].github_id != github_id by {
            if i < s.len() - 1 {
                assert(s.drop_last()[i] == s[i]);
            }
        }
    }
}

/// A lookup by id finds nothing where no record carries the id.
pub proof fn lemma_find_id_absent(s: Seq<TenantModel>, id: i64)
    requires
        forall|i: int| 0 <= i < s.len() ==> #[trigger] s[i].id != id,
    ensures
        find_id(s, id) is None,
    decreases s.len(),
{
    if s.len() > 0 {
        assert(s[s.len() - 1].id != id);
        assert forall|i: int| 0 <= i < s.len() - 1 implies #[trigger] s.drop_last()[i].id != id by {
            assert(s.drop_last()[i] == s[i]);
        }
        lemma_find_id_absent(s.drop_last(), id);
    }
}

/// A lookup by id that finds a record finds one that is stored.
pub proof fn lemma_find_id_some(s: Seq<TenantModel>, id: i64)
    requires
        find_id(s, id) is Some,
    ensures
        exists|k: int| 0 <= k < s.len() && s[k] == find_id(s, id)->Some_0 && s[k].id == id,
    decreases s.len(),
{
    if s.last().id != id {
        lemma_find_id_some(s.drop_last(), id);
        let k = choose|k: int|
            0 <= k < s.drop_last().len() && s.drop_last()[k] == find_id(s.drop_last(), id)->Some_0
                && s.drop_last()[k].id == id;
        assert(s[k] == s.drop_last()[k]);
    } else {
        assert(s[s.len() - 1] == s.last());
    }
}

/// After an update, a lookup by the same id finds the updated record.
pub proof fn lemma_find_after_update(s: StoreModel, edit: TenantModel)
    requires
        s.wf(),
        find_id(s.tenants, edit.id) is Some,
    ensures
        find_id(apply_update(s.tenants, edit), edit.id) == Some(
            TenantModel {
                app_id: edit.app_id,
                block_list: edit.block_list,
                captcha: edit.captcha,
                ..find_id(s.tenants, edit.id)->Some_0
            },
        ),
{
    lemma_find_id_some(s.tenants, edit.id);
    let k = choose|k: int|
        0 <= k < s.tenants.len() && s.tenants[k] == find_id(s.tenants, edit.id)->Some_0
            && s.tenants[k].id == edit.id;
    let u = apply_update(s.tenants, edit);
    assert forall|i: int, j: int| 0 <= i < j < u.len() implies #[trigger] u[i].id != #[trigger] u[j].id by {
        assert(s.tenants[i].id != s.tenants[j].id);
    }
    lemma_find_id_at(u, edit.id, k);
}

/// What a store reports when it cannot take a record.
pub enum StoreError {
    /// Every internal id has been assigned.
    IdsExhausted,
    /// A record with the same external identity is already stored.
    DuplicateIdentity,
}

/// A keyed store of tenant records: at most one record per internal id and
/// at most one per external identity.
pub struct TenantStore {
    tenants: Vec<Tenant>,
    next_id: i64,
}

impl View for TenantStore {
    type V = StoreModel;

    closed spec fn view(&self) -> StoreModel {
        StoreModel { tenants: self.tenants@.map_values(|t: Tenant| t@), next_id: self.next_id }
    }
}

impl TenantStore {
    /// An empty store whose first record gets id 1.
    pub fn new() -> (r: TenantStore)
        ensures
            r@.wf(),
            r@.tenants == Seq::<TenantModel>::empty(),
            r@.next_id == 1,
    {
        let r = TenantStore { tenants: Vec::new(), next_id: 1 };
        assert(r@.tenants =~= Seq::<TenantModel>::empty());
        r
    }

    /// The number of stored records.
    pub fn len(&self) -> (r: usize)
        ensures
            r == self@.tenants.len(),
    {
        self.tenants.len()
    }

    /// The record with internal id `id`.
    pub fn find_tenant_by_id(&self, id: i64) -> (r: Option<Tenant>)
        ensures
            match r {
                Some(t) => find_id(self@.tenants, id) == Some(t@),
                None => find_id(self@.tenants, id) is None,
            },
    {
        let ghost s = self@.tenants;
        let mut i: usize = self.tenants.len();
        assert(s.subrange(0, i as int) =~= s);
        while i > 0
            invariant
                i <= self.tenants.len(),
                s == self@.tenants,
                find_id(s.subrange(0, i as int), id) == find_id(s, id),
            decreases i,
        {
            let t = &self.tenants[i - 1];
            assert(s[i - 1] == t@);
            if t.id == id {
                return Some(t.copy());
            }
            assert(s.subrange(0, i as int).drop_last() =~= s.subrange(0, i - 1));
            i -= 1;
        }
        None
    }

    /// The record with external identity `github_id`.
    pub fn find_tenant_by_github_id(&self, github_id: i64) -> (r: Option<Tenant>)
        ensures
            match r {
                Some(t) => find_github(self@.tenants, github_id) == Some(t@),
                None => find_github(self@.tenants, github_id) is None,
            },
    {
        let ghost s = self@.tenants;
        let mut i: usize = self.tenants.len();
        assert(s.subrange(0, i as int) =~= s);
        while i > 0
            invariant
                i <= self.tenants.len(),
                s == self@.tenants,
                find_github(s.subrange(0, i as int), github_id) == find_github(s, github_id),
            decreases i,
        {
            let t = &self.tenants[i - 1];
            assert(s[i - 1] == t@);
            if t.github_id == github_id {
                return Some(t.copy());
            }
            assert(s.subrange(0, i as int).drop_last() =~= s.subrange(0, i - 1));
            i -= 1;
        }
        None
    }

    /// Stores a new record under the next internal id, with an empty block
    /// list and captcha off. A second record for an external identity is
    /// refused, so each identity has at most one record.
    pub fn insert_tenant(&mut self, app_id: i64, github_login: String, github_id: i64) -> (r: Result<
        Tenant,
        StoreError,
    >)
        requires
            old(self)@.wf(),
        ensures
            final(self)@.wf(),
            match r {
                Ok(t) => {
                    &&& find_github(old(self)@.tenants, github_id) is None
                    &&& old(self)@.next_id < i64::MAX
                    &&& t@ == (TenantModel {
                        id: old(self)@.next_id,
                        app_id,
                        github_login: github_login@,
                        github_id,
                        block_list: Seq::empty(),
                        captcha: false,
                    })
                    &&& final(self)@.tenants == old(self)@.tenants.push(t@)
                    &&& final(self)@.next_id == old(self)@.next_id + 1
                },
                Err(StoreError::DuplicateIdentity) => {
                    &&& find_github(old(self)@.tenants, github_id) is Some
                    &&& final(self)@ == old(self)@
                },
                Err(StoreError::IdsExhausted) => {
                    &&& find_github(old(self)@.tenants, github_id) is None
                    &&& old(self)@.next_id == i64::MAX
                    &&& final(self)@ == old(self)@
                },
            },
    {
        if self.find_tenant_by_github_id(github_id).is_some() {
            return Err(StoreError::DuplicateIdentity);
        }
        if self.next_id == i64::MAX {
            return Err(StoreError::IdsExhausted);
        }
        proof {
            lemma_find_github_none(self@.tenants, github_id);
        }
        let ghost s = self@.tenants;
        let mut t = Tenant::new(app_id, github_login, github_id);
        t.id = self.next_id;
        self.tenants.push(t.copy());
        self.next_id = self.next_id + 1;
        assert(self@.tenants =~= s.push(t@));
        Ok(t)
    }

    /// Writes the credential and the editable fields of `edit` onto the record
    /// with id `edit.id`, and returns that record as now stored. The record's
    /// id, login and external identity are kept as they were.
    pub fn update_tenant(&mut self, edit: &Tenant) -> (r: Option<Tenant>)
        requires
            old(self)@.wf(),
        ensures
            final(self)@.wf(),
            final(self)@.next_id == old(self)@.next_id,
            match find_id(old(self)@.tenants, edit.id) {
                Some(t) => {
                    &&& r matches Some(u) && u@ == (TenantModel {
                        app_id: edit.app_id,
                        block_list: edit.block_list@,
                        captcha: edit.captcha,
                        ..t
                    })
                    &&& final(self)@.tenants == apply_update(old(self)@.tenants, edit@)
                },
                None => r is None && final(self)@ == old(self)@,
            },
    {
        let ghost s = self@.tenants;
        let mut k: usize = 0;
        while k < self.tenants.len() && self.tenants[k].id != edit.id
            invariant
                k <= self.tenants.len(),
                s == self@.tenants,
                forall|j: int| 0 <= j < k ==> #[trigger] s[j].id != edit.id,
            decreases self.tenants.len() - k,
        {
            assert(s[k as int] == self.tenants[k as int]@);
            k += 1;
        }
        if k == self.tenants.len() {
            proof {
                lemma_find_id_absent(s, edit.id);
            }
            return None;
        }
        assert(s[k as int] == self.tenants[k as int]@);
        proof {
            lemma_find_id_at(s, edit.id, k as int);
        }
        let old_t = &self.tenants[k];
        let u = Tenant {
            id: old_t.id,
            app_id: edit.app_id,
            github_login: old_t.github_login.clone(),
            github_id: old_t.github_id,
            block_list: edit.block_list.clone(),
            captcha: edit.captcha,
        };
        self.tenants.set(k, u.copy());
        assert(self@.tenants =~= apply_update(s, edit@)) by {
            assert forall|j: int| 0 <= j < s.len() && j != k implies #[trigger] s[j].id != edit.id by {
                if j < k {
                } else {
                    assert(s[k as int].id != s[j].id);
                }
            }
        }
        Some(u)
    }
}

} // verus!
