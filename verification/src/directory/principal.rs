//! The principal: a record of the directory, such as an account, a group or
//! a mailing list.
//!
//! Besides its fixed fields a principal carries a list of data entries of
//! several kinds. Where the list holds two entries of one kind the first
//! one counts; `unique_kinds` says that it holds no two.
use vstd::prelude::*;
use super::field::PrincipalField;
use super::permission::Permission;
use super::types::Type;
use super::value::{PrincipalValue, ValueView};
use crate::text::{clone_strings, strings_eq, strs};

verus! {

/// The role of an administrator.
pub const ROLE_ADMIN: u32 = 0xffff_ffff;

/// The role of the administrator of a tenant.
pub const ROLE_TENANT_ADMIN: u32 = 0xffff_fffe;

/// The role of a user.
pub const ROLE_USER: u32 = 0xffff_fffd;

/// A permission, granted or denied.
#[derive(Debug, Clone, Copy, PartialEq, Eq, Structural)]
pub struct PermissionGrant {
    pub permission: Permission,
    pub grant: bool,
}

/// The quota that a principal gives to the principals of one type.
#[derive(Debug, Clone, Copy, PartialEq, Eq, Structural)]
pub struct PrincipalQuota {
    pub quota: u64,
    pub typ: Type,
}

/// An entry of the data list of a principal.
#[derive(Debug, Clone, PartialEq, Eq)]
pub enum PrincipalData {
    MemberOf(Vec<u32>),
    Roles(Vec<u32>),
    Lists(Vec<u32>),
    Permissions(Vec<PermissionGrant>),
    Picture(String),
    Urls(Vec<String>),
    PrincipalQuota(Vec<PrincipalQuota>),
}

/// A `PrincipalData` as a mathematical value.
#[verifier::ext_equal]
pub enum DataView {
    MemberOf(Seq<u32>),
    Roles(Seq<u32>),
    Lists(Seq<u32>),
    Permissions(Seq<PermissionGrant>),
    Picture(Seq<char>),
    Urls(Seq<Seq<char>>),
    PrincipalQuota(Seq<PrincipalQuota>),
}

/// The kind of an entry of the data list.
#[derive(Debug, Clone, Copy, PartialEq, Eq, Structural)]
pub enum DataKind {
    MemberOf,
    Roles,
    Lists,
    Permissions,
    Picture,
    Urls,
    PrincipalQuota,
}

impl DataView {
    /// The kind of the entry.
    pub open spec fn kind(self) -> DataKind {
        match self {
            DataView::MemberOf(_) => DataKind::MemberOf,
            DataView::Roles(_) => DataKind::Roles,
            DataView::Lists(_) => DataKind::Lists,
            DataView::Permissions(_) => DataKind::Permissions,
            DataView::Picture(_) => DataKind::Picture,
            DataView::Urls(_) => DataKind::Urls,
            DataView::PrincipalQuota(_) => DataKind::PrincipalQuota,
        }
    }

    /// The ids of an entry that holds ids, none for another entry.
    pub open spec fn ids(self) -> Seq<u32> {
        match self {
            DataView::MemberOf(l) => l,
            DataView::Roles(l) => l,
            DataView::Lists(l) => l,
            _ => Seq::empty(),
        }
    }

    /// The grants of a permissions entry, none for another entry.
    pub open spec fn grants(self) -> Seq<PermissionGrant> {
        match self {
            DataView::Permissions(l) => l,
            _ => Seq::empty(),
        }
    }
}

impl View for PrincipalData {
    type V = DataView;

    open spec fn view(&self) -> DataView {
        match self {
            PrincipalData::MemberOf(l) => DataView::MemberOf(l@),
            PrincipalData::Roles(l) => DataView::Roles(l@),
            PrincipalData::Lists(l) => DataView::Lists(l@),
            PrincipalData::Permissions(l) => DataView::Permissions(l@),
            PrincipalData::Picture(s) => DataView::Picture(s@),
            PrincipalData::Urls(l) => DataView::Urls(strs(l@)),
            PrincipalData::PrincipalQuota(l) => DataView::PrincipalQuota(l@),
        }
    }
}

impl PrincipalData {
    /// The kind of the entry.
    pub fn kind(&self) -> (kind: DataKind)
        ensures
            kind == self@.kind(),
    {
        match self {
            PrincipalData::MemberOf(_) => DataKind::MemberOf,
            PrincipalData::Roles(_) => DataKind::Roles,
            PrincipalData::Lists(_) => DataKind::Lists,
            PrincipalData::Permissions(_) => DataKind::Permissions,
            PrincipalData::Picture(_) => DataKind::Picture,
            PrincipalData::Urls(_) => DataKind::Urls,
            PrincipalData::PrincipalQuota(_) => DataKind::PrincipalQuota,
        }
    }
}

/// The entries of a data list, as mathematical values in the same order.
pub open spec fn data_views(data: Seq<PrincipalData>) -> Seq<DataView> {
    data.map_values(|d: PrincipalData| d@)
}

/// The view of an optional string.
pub open spec fn opt_str(s: Option<String>) -> Option<Seq<char>> {
    match s {
        Some(s) => Some(s@),
        None => None,
    }
}

/// Whether `i` is the position of the first entry of a kind.
pub open spec fn is_first_of_kind(data: Seq<DataView>, kind: DataKind, i: int) -> bool {
    &&& 0 <= i < data.len()
    &&& data[i].kind() == kind
    &&& forall|k: int| 0 <= k < i ==> (#[trigger] data[k]).kind() != kind
}

/// The position of the first entry of a kind, if the list has one.
pub open spec fn first_of_kind(data: Seq<DataView>, kind: DataKind) -> Option<int> {
    if exists|i: int| is_first_of_kind(data, kind, i) {
        Some(choose|i: int| is_first_of_kind(data, kind, i))
    } else {
        None
    }
}

/// The first entry of a kind, if the list has one.
pub open spec fn entry_of_kind(data: Seq<DataView>, kind: DataKind) -> Option<DataView> {
    match first_of_kind(data, kind) {
        Some(i) => Some(data[i]),
        None => None,
    }
}

/// The list holds no two entries of one kind.
pub open spec fn unique_kinds(data: Seq<DataView>) -> bool {
    forall|i: int, j: int|
        0 <= i < j < data.len() ==> (#[trigger] data[i]).kind() != (#[trigger] data[j]).kind()
}

/// A position at which the first entry of a kind stands is the one that
/// `first_of_kind` gives.
pub proof fn lemma_first_of_kind(data: Seq<DataView>, kind: DataKind, i: int)
    requires
        is_first_of_kind(data, kind, i),
    ensures
        first_of_kind(data, kind) == Some(i),
{
    let j = choose|j: int| is_first_of_kind(data, kind, j);
    if j < i {
        assert(data[j].kind() != kind);
    }
    if i < j {
        assert(data[i].kind() != kind);
    }
}

/// A list without an entry of a kind has no first entry of that kind.
pub proof fn lemma_no_entry_of_kind(data: Seq<DataView>, kind: DataKind)
    requires
        forall|k: int| 0 <= k < data.len() ==> (#[trigger] data[k]).kind() != kind,
    ensures
        first_of_kind(data, kind) is None,
{
}

/// Whether `i` is the first position of `s` at which `p` holds.
pub open spec fn is_first_where<E>(s: Seq<E>, p: spec_fn(E) -> bool, i: int) -> bool {
    &&& 0 <= i < s.len()
    &&& p(s[i])
    &&& forall|k: int| 0 <= k < i ==> !p(#[trigger] s[k])
}

/// The first position of `s` at which `p` holds, if there is one.
pub open spec fn first_where<E>(s: Seq<E>, p: spec_fn(E) -> bool) -> Option<int> {
    if exists|i: int| is_first_where(s, p, i) {
        Some(choose|i: int| is_first_where(s, p, i))
    } else {
        None
    }
}

/// A first position at which `p` holds is the one that `first_where`
/// gives.
pub proof fn lemma_first_where<E>(s: Seq<E>, p: spec_fn(E) -> bool, i: int)
    requires
        is_first_where(s, p, i),
    ensures
        first_where(s, p) == Some(i),
{
    let j = choose|j: int| is_first_where(s, p, j);
    if j < i {
        assert(!p(s[j]));
    }
    if i < j {
        assert(!p(s[i]));
    }
}

/// Where `p` holds of no item there is no first position.
pub proof fn lemma_nowhere<E>(s: Seq<E>, p: spec_fn(E) -> bool)
    requires
        forall|k: int| 0 <= k < s.len() ==> !p(#[trigger] s[k]),
    ensures
        first_where(s, p) is None,
{
}

/// The test for an entry for the same permission as `g`.
pub open spec fn same_permission(g: PermissionGrant) -> spec_fn(PermissionGrant) -> bool {
    |x: PermissionGrant| x.permission == g.permission
}

/// The test for an entry that equals `g`.
pub open spec fn same_grant(g: PermissionGrant) -> spec_fn(PermissionGrant) -> bool {
    |x: PermissionGrant| x == g
}

/// The test for an entry that does not grant, if `grant` is set, or does
/// not deny, if it is not.
pub open spec fn other_than(grant: bool) -> spec_fn(PermissionGrant) -> bool {
    |x: PermissionGrant| x.grant != grant
}

/// The test for a quota for the given type.
pub open spec fn quota_of(typ: Type) -> spec_fn(PrincipalQuota) -> bool {
    |q: PrincipalQuota| q.typ == typ
}

/// The grants after a permission was granted or denied: the first entry for
/// the permission says so now, or a new entry at the end does.
pub open spec fn upsert_grant(l: Seq<PermissionGrant>, g: PermissionGrant) -> Seq<PermissionGrant> {
    match first_where(l, same_permission(g)) {
        Some(i) => l.update(i, g),
        None => l.push(g),
    }
}

/// The grants without the first entry that equals `g`: the last entry
/// takes its place.
pub open spec fn swap_remove_grant(l: Seq<PermissionGrant>, g: PermissionGrant) -> Seq<
    PermissionGrant,
> {
    match first_where(l, same_grant(g)) {
        Some(i) => l.update(i, l.last()).drop_last(),
        None => l,
    }
}

/// The data list with the first entry of a kind replaced.
pub open spec fn replace_entry(data: Seq<DataView>, kind: DataKind, entry: DataView) -> Seq<
    DataView,
> {
    match first_of_kind(data, kind) {
        Some(i) => data.update(i, entry),
        None => data,
    }
}

/// What is done with a field of a stored principal.
#[derive(Debug, Clone, Copy, PartialEq, Eq, Structural)]
pub enum PrincipalAction {
    /// The field takes the value in place of the one it had.
    Replace,
    AddItem,
    RemoveItem,
}

/// A change to a field of a stored principal.
#[derive(Debug, Clone, PartialEq, Eq)]
pub struct PrincipalUpdate {
    pub action: PrincipalAction,
    pub field: PrincipalField,
    pub value: PrincipalValue,
}

/// A `PrincipalUpdate` as a mathematical value.
#[verifier::ext_equal]
pub struct UpdateView {
    pub action: PrincipalAction,
    pub field: PrincipalField,
    pub value: ValueView,
}

impl View for PrincipalUpdate {
    type V = UpdateView;

    open spec fn view(&self) -> UpdateView {
        UpdateView { action: self.action, field: self.field, value: self.value@ }
    }
}

/// The updates of a list, as mathematical values in the same order.
pub open spec fn update_views(updates: Seq<PrincipalUpdate>) -> Seq<UpdateView> {
    updates.map_values(|u: PrincipalUpdate| u@)
}

impl PrincipalUpdate {
    /// The update that sets a field.
    pub fn set(field: PrincipalField, value: PrincipalValue) -> (update: Self)
        ensures
            update@ == (UpdateView { action: PrincipalAction::Replace, field, value: value@ }),
    {
        PrincipalUpdate { action: PrincipalAction::Replace, field, value }
    }

    /// The update that adds an item to a field.
    pub fn add_item(field: PrincipalField, value: PrincipalValue) -> (update: Self)
        ensures
            update@ == (UpdateView { action: PrincipalAction::AddItem, field, value: value@ }),
    {
        PrincipalUpdate { action: PrincipalAction::AddItem, field, value }
    }

    /// The update that removes an item from a field.
    pub fn remove_item(field: PrincipalField, value: PrincipalValue) -> (update: Self)
        ensures
            update@ == (UpdateView { action: PrincipalAction::RemoveItem, field, value: value@ }),
    {
        PrincipalUpdate { action: PrincipalAction::RemoveItem, field, value }
    }
}

/// The update that sets a field, as a mathematical value.
pub open spec fn set_update(field: PrincipalField, value: ValueView) -> UpdateView {
    UpdateView { action: PrincipalAction::Replace, field, value }
}

/// A principal as a mathematical value.
#[verifier::ext_equal]
pub struct PrincipalView {
    pub id: u32,
    pub typ: Type,
    pub name: Seq<char>,
    pub description: Option<Seq<char>>,
    pub secrets: Seq<Seq<char>>,
    pub emails: Seq<Seq<char>>,
    pub quota: Option<u64>,
    pub tenant: Option<u32>,
    pub data: Seq<DataView>,
}

impl PrincipalView {
    /// The same principal with another data list.
    pub open spec fn with_data(self, data: Seq<DataView>) -> PrincipalView {
        PrincipalView {
            id: self.id,
            typ: self.typ,
            name: self.name,
            description: self.description,
            secrets: self.secrets,
            emails: self.emails,
            quota: self.quota,
            tenant: self.tenant,
            data,
        }
    }

    /// The ids of the first entry of a kind that holds ids, none if there
    /// is no such entry.
    pub open spec fn ids_of(self, kind: DataKind) -> Seq<u32> {
        match entry_of_kind(self.data, kind) {
            Some(d) => d.ids(),
            None => Seq::empty(),
        }
    }

    /// The principals that this one is a member of.
    pub open spec fn member_of(self) -> Seq<u32> {
        self.ids_of(DataKind::MemberOf)
    }

    /// The roles of the principal.
    pub open spec fn roles(self) -> Seq<u32> {
        self.ids_of(DataKind::Roles)
    }

    /// The mailing lists of the principal.
    pub open spec fn lists(self) -> Seq<u32> {
        self.ids_of(DataKind::Lists)
    }

    /// The permissions of the principal.
    pub open spec fn permissions(self) -> Seq<PermissionGrant> {
        match entry_of_kind(self.data, DataKind::Permissions) {
            Some(d) => d.grants(),
            None => Seq::empty(),
        }
    }

    /// The addresses of the principal on the web.
    pub open spec fn urls(self) -> Seq<Seq<char>> {
        match entry_of_kind(self.data, DataKind::Urls) {
            Some(DataView::Urls(l)) => l,
            _ => Seq::empty(),
        }
    }

    /// The picture of the principal.
    pub open spec fn picture(self) -> Option<Seq<char>> {
        match entry_of_kind(self.data, DataKind::Picture) {
            Some(DataView::Picture(s)) => Some(s),
            _ => None,
        }
    }

    /// The quotas that the principal gives to principals by their type.
    pub open spec fn quotas(self) -> Seq<PrincipalQuota> {
        match entry_of_kind(self.data, DataKind::PrincipalQuota) {
            Some(DataView::PrincipalQuota(l)) => l,
            _ => Seq::empty(),
        }
    }

    /// The quota that the principal gives to the principals of a type: that
    /// of the first entry for the type.
    pub open spec fn quota_for(self, typ: Type) -> Option<u64> {
        match first_where(self.quotas(), quota_of(typ)) {
            Some(i) => Some(self.quotas()[i].quota),
            None => None,
        }
    }

    /// The principal after an entry was added to its data list.
    pub open spec fn push_data(self, entry: DataView) -> PrincipalView {
        self.with_data(self.data.push(entry))
    }

    /// The principal after what a directory outside knows of it was taken
    /// over.
    ///
    /// The memberships of the outside record are added as a new entry if
    /// there are any. Its roles are added as a new entry if there are any
    /// and the principal has none. Its description, secrets, addresses and
    /// quota replace those of the principal where the outside record has
    /// them and they differ.
    pub open spec fn merged(self, external: PrincipalView) -> PrincipalView {
        let with_members = if external.member_of().len() > 0 {
            self.push_data(DataView::MemberOf(external.member_of()))
        } else {
            self
        };
        let with_roles = if external.roles().len() > 0 && with_members.roles().len() == 0 {
            with_members.push_data(DataView::Roles(external.roles()))
        } else {
            with_members
        };
        PrincipalView {
            id: self.id,
            typ: self.typ,
            name: self.name,
            description: if self.takes_description(external) {
                external.description
            } else {
                self.description
            },
            secrets: if self.takes_secrets(external) {
                external.secrets
            } else {
                self.secrets
            },
            emails: if self.takes_emails(external) {
                external.emails
            } else {
                self.emails
            },
            quota: if self.takes_quota(external) {
                external.quota
            } else {
                self.quota
            },
            tenant: self.tenant,
            data: with_roles.data,
        }
    }

    /// Whether the description of the outside record replaces that of the
    /// principal: it is there, not empty, and differs.
    pub open spec fn takes_description(self, external: PrincipalView) -> bool {
        external.description is Some && external.description->0.len() > 0 && self.description
            != external.description
    }

    /// Whether the secrets of the outside record replace those of the
    /// principal.
    pub open spec fn takes_secrets(self, external: PrincipalView) -> bool {
        external.secrets.len() > 0 && self.secrets != external.secrets
    }

    /// Whether the addresses of the outside record replace those of the
    /// principal.
    pub open spec fn takes_emails(self, external: PrincipalView) -> bool {
        external.emails.len() > 0 && self.emails != external.emails
    }

    /// Whether the quota of the outside record replaces that of the
    /// principal.
    pub open spec fn takes_quota(self, external: PrincipalView) -> bool {
        external.quota is Some && self.quota != external.quota
    }

    /// The updates that store what `merged` changed of the fixed fields, in
    /// the order description, secrets, addresses, quota.
    pub open spec fn merge_updates(self, external: PrincipalView) -> Seq<UpdateView> {
        (if self.takes_description(external) {
            seq![
                set_update(PrincipalField::Description, ValueView::String(external.description->0)),
            ]
        } else {
            Seq::<UpdateView>::empty()
        }) + (if self.takes_secrets(external) {
            seq![set_update(PrincipalField::Secrets, ValueView::StringList(external.secrets))]
        } else {
            Seq::<UpdateView>::empty()
        }) + (if self.takes_emails(external) {
            seq![set_update(PrincipalField::Emails, ValueView::StringList(external.emails))]
        } else {
            Seq::<UpdateView>::empty()
        }) + (if self.takes_quota(external) {
            seq![set_update(PrincipalField::Quota, ValueView::Integer(external.quota->0))]
        } else {
            Seq::<UpdateView>::empty()
        })
    }
}

fn copy_ids(ids: &[u32]) -> (copy: Vec<u32>)
    ensures
        copy@ == ids@,
{
    let mut copy: Vec<u32> = Vec::new();
    let mut i: usize = 0;
    while i < ids.len()
        invariant
            i <= ids@.len(),
            copy@ =~= ids@.take(i as int),
        decreases ids@.len() - i,
    {
        copy.push(ids[i]);
        i += 1;
    }
    assert(ids@.take(i as int) =~= ids@);
    copy
}

proof fn lemma_push_data(data: Seq<PrincipalData>, entry: PrincipalData)
    ensures
        data_views(data.push(entry)) == data_views(data).push(entry@),
{
    assert(data_views(data.push(entry)) =~= data_views(data).push(entry@));
}

proof fn lemma_push_update(updates: Seq<PrincipalUpdate>, update: PrincipalUpdate)
    ensures
        update_views(updates.push(update)) == update_views(updates).push(update@),
{
    assert(update_views(updates.push(update)) =~= update_views(updates).push(update@));
}

/// A directory record.
#[derive(Debug, Clone, PartialEq, Eq)]
pub struct Principal {
    pub id: u32,
    pub typ: Type,
    pub name: String,
    pub description: Option<String>,
    pub secrets: Vec<String>,
    pub emails: Vec<String>,
    pub quota: Option<u64>,
    pub tenant: Option<u32>,
    pub data: Vec<PrincipalData>,
}

impl View for Principal {
    type V = PrincipalView;

    open spec fn view(&self) -> PrincipalView {
        PrincipalView {
            id: self.id,
            typ: self.typ,
            name: self.name@,
            description: opt_str(self.description),
            secrets: strs(self.secrets@),
            emails: strs(self.emails@),
            quota: self.quota,
            tenant: self.tenant,
            data: data_views(self.data@),
        }
    }
}

impl Principal {
    /// A principal with an id and a type and nothing else.
    pub fn new(id: u32, typ: Type) -> (p: Self)
        ensures
            p@ == (PrincipalView {
                id,
                typ,
                name: Seq::empty(),
                description: None,
                secrets: Seq::empty(),
                emails: Seq::empty(),
                quota: None,
                tenant: None,
                data: Seq::empty(),
            }),
    {
        let p = Principal {
            id,
            typ,
            name: String::new(),
            description: None,
            secrets: Vec::new(),
            emails: Vec::new(),
            quota: None,
            tenant: None,
            data: Vec::new(),
        };
        assert(p@.secrets =~= Seq::empty());
        assert(p@.emails =~= Seq::empty());
        assert(p@.data =~= Seq::empty());
        p
    }

    /// The id of the principal.
    pub fn id(&self) -> (id: u32)
        ensures
            id == self@.id,
    {
        self.id
    }

    /// The type of the principal.
    pub fn typ(&self) -> (typ: Type)
        ensures
            typ == self@.typ,
    {
        self.typ
    }

    /// The name of the principal.
    pub fn name(&self) -> (name: &str)
        ensures
            name@ == self@.name,
    {
        self.name.as_str()
    }

    /// The quota of the principal, zero if it has none.
    pub fn quota(&self) -> (quota: u64)
        ensures
            quota == (match self@.quota {
                Some(q) => q,
                None => 0,
            }),
    {
        match self.quota {
            Some(q) => q,
            None => 0,
        }
    }

    /// The tenant of the principal. This edition has no tenants.
    pub fn tenant(&self) -> (tenant: Option<u32>)
        ensures
            tenant is None,
    {
        None
    }

    /// The description of the principal.
    pub fn description(&self) -> (r: Option<&str>)
        ensures
            match r {
                Some(s) => self@.description == Some(s@),
                None => self@.description is None,
            },
    {
        match &self.description {
            Some(s) => Some(s.as_str()),
            None => None,
        }
    }

    /// The position of the first entry of a kind in the data list.
    pub fn position(&self, kind: DataKind) -> (r: Option<usize>)
        ensures
            match r {
                Some(i) => first_of_kind(self@.data, kind) == Some(i as int) && i < self.data@.len()
                    && self.data@[i as int]@.kind() == kind,
                None => first_of_kind(self@.data, kind) is None,
            },
    {
        let mut i: usize = 0;
        while i < self.data.len()
            invariant
                i <= self.data@.len(),
                forall|k: int| 0 <= k < i ==> (#[trigger] self@.data[k]).kind() != kind,
            decreases self.data@.len() - i,
        {
            if self.data[i].kind() == kind {
                proof {
                    assert(self@.data[i as int] == self.data@[i as int]@);
                    lemma_first_of_kind(self@.data, kind, i as int);
                }
                return Some(i);
            }
            assert(self@.data[i as int] == self.data@[i as int]@);
            i += 1;
        }
        proof {
            lemma_no_entry_of_kind(self@.data, kind);
        }
        None
    }

    /// The principals that this one is a member of.
    pub fn member_of(&self) -> (ids: &[u32])
        ensures
            ids@ == self@.member_of(),
    {
        match self.position(DataKind::MemberOf) {
            Some(i) => match &self.data[i] {
                PrincipalData::MemberOf(items) => items.as_slice(),
                _ => &[],
            },
            None => &[],
        }
    }

    /// The principals that this one is a member of, to be changed in place.
    pub fn member_of_mut(&mut self) -> (ids: Option<&mut Vec<u32>>)
        ensures
            match ids {
                Some(l) => {
                    &&& first_of_kind(old(self)@.data, DataKind::MemberOf) is Some
                    &&& l@ == old(self)@.member_of()
                    &&& final(self)@ =~= old(self)@.with_data(
                        old(self)@.data.update(
                            first_of_kind(old(self)@.data, DataKind::MemberOf)->0,
                            DataView::MemberOf(final(l)@),
                        ),
                    )
                },
                None => first_of_kind(old(self)@.data, DataKind::MemberOf) is None && final(self)@
                    =~= old(self)@,
            },
    {
        match self.position(DataKind::MemberOf) {
            Some(i) => match &mut self.data[i] {
                PrincipalData::MemberOf(items) => Some(items),
                _ => None,
            },
            None => None,
        }
    }
    /// The roles of the principal.
    pub fn roles(&self) -> (ids: &[u32])
        ensures
            ids@ == self@.roles(),
    {
        match self.position(DataKind::Roles) {
            Some(i) => match &self.data[i] {
                PrincipalData::Roles(items) => items.as_slice(),
                _ => &[],
            },
            None => &[],
        }
    }

    /// The mailing lists of the principal.
    pub fn lists(&self) -> (ids: &[u32])
        ensures
            ids@ == self@.lists(),
    {
        match self.position(DataKind::Lists) {
            Some(i) => match &self.data[i] {
                PrincipalData::Lists(items) => items.as_slice(),
                _ => &[],
            },
            None => &[],
        }
    }

    /// The permissions of the principal.
    pub fn permissions(&self) -> (grants: &[PermissionGrant])
        ensures
            grants@ == self@.permissions(),
    {
        match self.position(DataKind::Permissions) {
            Some(i) => match &self.data[i] {
                PrincipalData::Permissions(items) => items.as_slice(),
                _ => &[],
            },
            None => &[],
        }
    }

    /// The addresses of the principal on the web.
    pub fn urls(&self) -> (urls: &[String])
        ensures
            strs(urls@) == self@.urls(),
    {
        match self.position(DataKind::Urls) {
            Some(i) => match &self.data[i] {
                PrincipalData::Urls(items) => items.as_slice(),
                _ => {
                    let none: &[String] = &[];
                    assert(strs(none@) =~= Seq::<Seq<char>>::empty());
                    none
                },
            },
            None => {
                let none: &[String] = &[];
                assert(strs(none@) =~= Seq::<Seq<char>>::empty());
                none
            },
        }
    }

    /// The roles of the principal, to be changed in place.
    pub fn roles_mut(&mut self) -> (ids: Option<&mut Vec<u32>>)
        ensures
            match ids {
                Some(l) => {
                    &&& first_of_kind(old(self)@.data, DataKind::Roles) is Some
                    &&& l@ == old(self)@.roles()
                    &&& final(self)@ =~= old(self)@.with_data(
                        old(self)@.data.update(
                            first_of_kind(old(self)@.data, DataKind::Roles)->0,
                            DataView::Roles(final(l)@),
                        ),
                    )
                },
                None => first_of_kind(old(self)@.data, DataKind::Roles) is None && final(self)@
                    =~= old(self)@,
            },
    {
        match self.position(DataKind::Roles) {
            Some(i) => match &mut self.data[i] {
                PrincipalData::Roles(items) => Some(items),
                _ => None,
            },
            None => None,
        }
    }

    /// The picture of the principal.
    pub fn picture(&self) -> (picture: Option<&String>)
        ensures
            match picture {
                Some(s) => self@.picture() == Some(s@),
                None => self@.picture() is None,
            },
    {
        match self.position(DataKind::Picture) {
            Some(i) => match &self.data[i] {
                PrincipalData::Picture(picture) => Some(picture),
                _ => None,
            },
            None => None,
        }
    }

    /// The picture of the principal, to be changed in place.
    pub fn picture_mut(&mut self) -> (picture: Option<&mut String>)
        ensures
            match picture {
                Some(s) => {
                    &&& first_of_kind(old(self)@.data, DataKind::Picture) is Some
                    &&& old(self)@.picture() == Some(s@)
                    &&& final(self)@ =~= old(self)@.with_data(
                        old(self)@.data.update(
                            first_of_kind(old(self)@.data, DataKind::Picture)->0,
                            DataView::Picture(final(s)@),
                        ),
                    )
                },
                None => first_of_kind(old(self)@.data, DataKind::Picture) is None && final(self)@
                    =~= old(self)@,
            },
    {
        match self.position(DataKind::Picture) {
            Some(i) => match &mut self.data[i] {
                PrincipalData::Picture(picture) => Some(picture),
                _ => None,
            },
            None => None,
        }
    }

    /// The quota that the principal gives to the principals of a type.
    pub fn principal_quota(&self, typ: &Type) -> (quota: Option<u64>)
        ensures
            quota == self@.quota_for(*typ),
    {
        match self.position(DataKind::PrincipalQuota) {
            Some(i) => match &self.data[i] {
                PrincipalData::PrincipalQuota(quotas) => {
                    let ghost p = quota_of(*typ);
                    let mut k: usize = 0;
                    while k < quotas.len()
                        invariant
                            k <= quotas@.len(),
                            quotas@ == self@.quotas(),
                            p == quota_of(*typ),
                            forall|j: int| 0 <= j < k ==> !p(#[trigger] quotas@[j]),
                        decreases quotas@.len() - k,
                    {
                        if quotas[k].typ == *typ {
                            proof {
                                lemma_first_where(quotas@, p, k as int);
                            }
                            return Some(quotas[k].quota);
                        }
                        k += 1;
                    }
                    proof {
                        lemma_nowhere(quotas@, p);
                    }
                    None
                },
                _ => None,
            },
            None => {
                proof {
                    lemma_nowhere(self@.quotas(), quota_of(*typ));
                }
                None
            },
        }
    }

    /// Grants or denies a permission: the first entry for the permission is
    /// changed, or a new one is added at the end.
    pub fn add_permission(&mut self, permission: Permission, grant: bool)
        ensures
            final(self)@ == old(self)@.with_data(
                match first_of_kind(old(self)@.data, DataKind::Permissions) {
                    Some(i) => old(self)@.data.update(
                        i,
                        DataView::Permissions(
                            upsert_grant(old(self)@.permissions(), PermissionGrant { permission, grant }),
                        ),
                    ),
                    None => old(self)@.data.push(
                        DataView::Permissions(seq![PermissionGrant { permission, grant }]),
                    ),
                },
            ),
    {
        let g = PermissionGrant { permission, grant };
        match self.position(DataKind::Permissions) {
            Some(i) => {
                match &mut self.data[i] {
                    PrincipalData::Permissions(permissions) => {
                        let ghost p = same_permission(g);
                        let ghost before = permissions@;
                        let mut k: usize = 0;
                        let mut found = false;
                        while !found && k < permissions.len()
                            invariant
                                k <= before.len(),
                                p == same_permission(g),
                                g == (PermissionGrant { permission, grant }),
                                !found ==> permissions@ == before,
                                !found ==> forall|j: int| 0 <= j < k ==> !p(#[trigger] before[j]),
                                found ==> permissions@ == upsert_grant(before, g),
                            decreases before.len() - k, if found { 0int } else { 1int },
                        {
                            if permissions[k].permission == permission {
                                proof {
                                    lemma_first_where(before, p, k as int);
                                }
                                permissions[k] = g;
                                found = true;
                            } else {
                                k += 1;
                            }
                        }
                        if !found {
                            proof {
                                lemma_nowhere(before, p);
                            }
                            permissions.push(g);
                        }
                    },
                    _ => {},
                }
                assert(self@ =~= old(self)@.with_data(
                    old(self)@.data.update(
                        i as int,
                        DataView::Permissions(upsert_grant(old(self)@.permissions(), g)),
                    ),
                ));
            },
            None => {
                let mut l: Vec<PermissionGrant> = Vec::new();
                l.push(g);
                let entry = PrincipalData::Permissions(l);
                proof {
                    assert(l@ =~= seq![g]);
                    lemma_push_data(self.data@, entry);
                }
                self.data.push(entry);
            },
        }
    }

    /// Adds grants as they come, without looking for entries for the same
    /// permission.
    pub fn add_permissions(&mut self, grants: Vec<PermissionGrant>)
        ensures
            final(self)@ == old(self)@.with_data(
                match first_of_kind(old(self)@.data, DataKind::Permissions) {
                    Some(i) => old(self)@.data.update(
                        i,
                        DataView::Permissions(old(self)@.permissions() + grants@),
                    ),
                    None => old(self)@.data.push(DataView::Permissions(grants@)),
                },
            ),
    {
        let mut grants = grants;
        let ghost added = grants@;
        match self.position(DataKind::Permissions) {
            Some(i) => {
                match &mut self.data[i] {
                    PrincipalData::Permissions(permissions) => {
                        permissions.append(&mut grants);
                    },
                    _ => {},
                }
                assert(self@ =~= old(self)@.with_data(
                    old(self)@.data.update(
                        i as int,
                        DataView::Permissions(old(self)@.permissions() + added),
                    ),
                ));
            },
            None => {
                let entry = PrincipalData::Permissions(grants);
                proof {
                    lemma_push_data(self.data@, entry);
                }
                self.data.push(entry);
            },
        }
    }

    /// Removes the first entry that grants, or denies, the permission. The
    /// last entry takes its place, so the order is not kept.
    pub fn remove_permission(&mut self, permission: Permission, grant: bool)
        ensures
            final(self)@ == old(self)@.with_data(
                replace_entry(
                    old(self)@.data,
                    DataKind::Permissions,
                    DataView::Permissions(
                        swap_remove_grant(
                            old(self)@.permissions(),
                            PermissionGrant { permission, grant },
                        ),
                    ),
                ),
            ),
    {
        let g = PermissionGrant { permission, grant };
        match self.position(DataKind::Permissions) {
            Some(i) => {
                match &mut self.data[i] {
                    PrincipalData::Permissions(permissions) => {
                        let ghost p = same_grant(g);
                        let ghost before = permissions@;
                        let mut k: usize = 0;
                        let mut found = false;
                        while !found && k < permissions.len()
                            invariant
                                k <= before.len(),
                                p == same_grant(g),
                                g == (PermissionGrant { permission, grant }),
                                !found ==> permissions@ == before,
                                !found ==> forall|j: int| 0 <= j < k ==> !p(#[trigger] before[j]),
                                found ==> permissions@ == swap_remove_grant(before, g),
                            decreases before.len() - k, if found { 0int } else { 1int },
                        {
                            if permissions[k].permission == permission && permissions[k].grant
                                == grant {
                                proof {
                                    lemma_first_where(before, p, k as int);
                                }
                                permissions.swap_remove(k);
                                assert(permissions@ =~= before.update(
                                    k as int,
                                    before.last(),
                                ).drop_last());
                                found = true;
                            } else {
                                k += 1;
                            }
                        }
                        if !found {
                            proof {
                                lemma_nowhere(before, p);
                            }
                        }
                    },
                    _ => {},
                }
                assert(self@ =~= old(self)@.with_data(
                    old(self)@.data.update(
                        i as int,
                        DataView::Permissions(swap_remove_grant(old(self)@.permissions(), g)),
                    ),
                ));
            },
            None => {
                assert(self@ =~= old(self)@.with_data(old(self)@.data));
            },
        }
    }

    /// Removes every entry that grants, if `grant` is set, or every entry
    /// that denies, if it is not. The others keep their order.
    pub fn remove_permissions(&mut self, grant: bool)
        ensures
            final(self)@ == old(self)@.with_data(
                replace_entry(
                    old(self)@.data,
                    DataKind::Permissions,
                    DataView::Permissions(
                        old(self)@.permissions().filter(other_than(grant)),
                    ),
                ),
            ),
    {
        match self.position(DataKind::Permissions) {
            Some(i) => {
                match &mut self.data[i] {
                    PrincipalData::Permissions(permissions) => {
                        let ghost keep = other_than(grant);
                        let ghost before = permissions@;
                        let mut kept: Vec<PermissionGrant> = Vec::new();
                        let mut k: usize = 0;
                        assert(before.take(0) =~= Seq::<PermissionGrant>::empty());
                        proof {
                            reveal(Seq::filter);
                        }
                        while k < permissions.len()
                            invariant
                                k <= before.len(),
                                permissions@ == before,
                                keep == other_than(grant),
                                kept@ == before.take(k as int).filter(keep),
                            decreases before.len() - k,
                        {
                            proof {
                                reveal(Seq::filter);
                                assert(before.take(k as int + 1).drop_last() =~= before.take(
                                    k as int,
                                ));
                            }
                            if permissions[k].grant != grant {
                                kept.push(permissions[k]);
                            }
                            k += 1;
                        }
                        assert(before.take(k as int) =~= before);
                        *permissions = kept;
                    },
                    _ => {},
                }
                assert(self@ =~= old(self)@.with_data(
                    old(self)@.data.update(
                        i as int,
                        DataView::Permissions(
                            old(self)@.permissions().filter(other_than(grant)),
                        ),
                    ),
                ));
            },
            None => {
                assert(self@ =~= old(self)@.with_data(old(self)@.data));
            },
        }
    }

    /// Takes over what a directory outside knows of the principal, and
    /// gives the updates that store the change of the fixed fields.
    pub fn update_external(&mut self, external: Principal) -> (updates: Vec<PrincipalUpdate>)
        ensures
            final(self)@ == old(self)@.merged(external@),
            update_views(updates@) == old(self)@.merge_updates(external@),
    {
        let mut updates: Vec<PrincipalUpdate> = Vec::new();
        assert(update_views(updates@) =~= Seq::<UpdateView>::empty());
        let ghost local = self@;
        let ghost ext = external@;

        let member_of = copy_ids(external.member_of());
        if member_of.len() > 0 {
            let entry = PrincipalData::MemberOf(member_of);
            proof {
                lemma_push_data(self.data@, entry);
            }
            self.data.push(entry);
        }
        let roles = copy_ids(external.roles());
        if roles.len() > 0 {
            if self.roles().len() == 0 {
                let entry = PrincipalData::Roles(roles);
                proof {
                    lemma_push_data(self.data@, entry);
                }
                self.data.push(entry);
            }
        }
        let ghost data = self@.data;

        let Principal { description, secrets, emails, quota, .. } = external;

        let takes_description = match &description {
            Some(v) => !v.as_str().is_empty() && !opt_string_eq(&self.description, &description),
            None => false,
        };
        if takes_description {
            let value = match &description {
                Some(v) => v.clone(),
                None => String::new(),
            };
            self.description = description;
            let update = PrincipalUpdate::set(
                PrincipalField::Description,
                PrincipalValue::String(value),
            );
            proof {
                lemma_push_update(updates@, update);
            }
            updates.push(update);
        }
        if secrets.len() > 0 && !strings_eq(&secrets, &self.secrets) {
            let update = PrincipalUpdate::set(
                PrincipalField::Secrets,
                PrincipalValue::StringList(clone_strings(&secrets)),
            );
            self.secrets = secrets;
            proof {
                lemma_push_update(updates@, update);
            }
            updates.push(update);
        }
        if emails.len() > 0 && !strings_eq(&emails, &self.emails) {
            let update = PrincipalUpdate::set(
                PrincipalField::Emails,
                PrincipalValue::StringList(clone_strings(&emails)),
            );
            self.emails = emails;
            proof {
                lemma_push_update(updates@, update);
            }
            updates.push(update);
        }
        if let Some(q) = quota {
            let differs = match self.quota {
                Some(mine) => mine != q,
                None => true,
            };
            if differs {
                self.quota = quota;
                let update = PrincipalUpdate::set(PrincipalField::Quota, PrincipalValue::Integer(q));
                proof {
                    lemma_push_update(updates@, update);
                }
                updates.push(update);
            }
        }
        proof {
            assert(update_views(updates@) =~= local.merge_updates(ext));
            assert(self@ =~= local.merged(ext));
        }
        updates
    }

    /// The administrator that is let in when the directory is out of
    /// reach: an individual with the last id, the given secret and the role
    /// of an administrator.
    pub fn fallback_admin(fallback_pass: String) -> (p: Self)
        ensures
            p@ == (PrincipalView {
                id: 0xffff_ffff,
                typ: Type::Individual,
                name: "Fallback Administrator"@,
                description: None,
                secrets: seq![fallback_pass@],
                emails: Seq::empty(),
                quota: None,
                tenant: None,
                data: seq![DataView::Roles(seq![ROLE_ADMIN])],
            }),
    {
        let mut secrets: Vec<String> = Vec::new();
        secrets.push(fallback_pass);
        let mut roles: Vec<u32> = Vec::new();
        roles.push(ROLE_ADMIN);
        let mut data: Vec<PrincipalData> = Vec::new();
        data.push(PrincipalData::Roles(roles));
        let p = Principal {
            id: 0xffff_ffff,
            typ: Type::Individual,
            name: "Fallback Administrator".to_owned(),
            secrets,
            data,
            description: None,
            emails: Vec::new(),
            quota: None,
            tenant: None,
        };
        assert(p@.secrets =~= seq![fallback_pass@]);
        assert(p@.emails =~= Seq::empty());
        assert(roles@ =~= seq![ROLE_ADMIN]);
        assert(p@.data =~= seq![DataView::Roles(seq![ROLE_ADMIN])]);
        p
    }
}

/// Whether two optional strings hold the same characters, or are both
/// absent.
pub fn opt_string_eq(a: &Option<String>, b: &Option<String>) -> (r: bool)
    ensures
        r == (opt_str(*a) == opt_str(*b)),
{
    match (a, b) {
        (Some(x), Some(y)) => *x == *y,
        (None, None) => true,
        _ => false,
    }
}

/// Where the list has an entry of a kind at `k`, it has a first entry of
/// that kind at `k` or before.
proof fn lemma_has_first_of_kind(data: Seq<DataView>, kind: DataKind, k: int)
    requires
        0 <= k < data.len(),
        data[k].kind() == kind,
    ensures
        exists|i: int| 0 <= i <= k && is_first_of_kind(data, kind, i),
    decreases k,
{
    if exists|j: int| 0 <= j < k && (#[trigger] data[j]).kind() == kind {
        let j = choose|j: int| 0 <= j < k && (#[trigger] data[j]).kind() == kind;
        lemma_has_first_of_kind(data, kind, j);
    } else {
        assert(is_first_of_kind(data, kind, k));
    }
}

/// A list that has no first entry of a kind has no entry of that kind.
pub proof fn lemma_kind_absent(data: Seq<DataView>, kind: DataKind)
    requires
        first_of_kind(data, kind) is None,
    ensures
        forall|k: int| 0 <= k < data.len() ==> (#[trigger] data[k]).kind() != kind,
{
    assert forall|k: int| 0 <= k < data.len() implies (#[trigger] data[k]).kind() != kind by {
        if data[k].kind() == kind {
            lemma_has_first_of_kind(data, kind, k);
        }
    }
}

/// Replacing an entry by one of its kind keeps the kinds apart.
pub proof fn lemma_update_keeps_kinds(data: Seq<DataView>, i: int, entry: DataView)
    requires
        unique_kinds(data),
        0 <= i < data.len(),
        entry.kind() == data[i].kind(),
    ensures
        unique_kinds(data.update(i, entry)),
{
    let after = data.update(i, entry);
    assert forall|a: int, b: int| 0 <= a < b < after.len() implies (#[trigger] after[a]).kind() != (
    #[trigger] after[b]).kind() by {
        assert(data[a].kind() != data[b].kind());
    }
}

/// Adding an entry of a kind that the list does not have keeps the kinds
/// apart.
pub proof fn lemma_push_keeps_kinds(data: Seq<DataView>, entry: DataView)
    requires
        unique_kinds(data),
        first_of_kind(data, entry.kind()) is None,
    ensures
        unique_kinds(data.push(entry)),
{
    lemma_kind_absent(data, entry.kind());
    let after = data.push(entry);
    assert forall|a: int, b: int| 0 <= a < b < after.len() implies (#[trigger] after[a]).kind() != (
    #[trigger] after[b]).kind() by {
        if b < data.len() {
            assert(data[a].kind() != data[b].kind());
        } else {
            assert(data[a].kind() != entry.kind());
        }
    }
}

/// Granting or denying a permission keeps the kinds of a principal's data
/// apart.
pub proof fn lemma_add_permission_keeps_kinds(p: PrincipalView, g: PermissionGrant)
    requires
        unique_kinds(p.data),
    ensures
        unique_kinds(
            match first_of_kind(p.data, DataKind::Permissions) {
                Some(i) => p.data.update(i, DataView::Permissions(upsert_grant(p.permissions(), g))),
                None => p.data.push(DataView::Permissions(seq![g])),
            },
        ),
{
    match first_of_kind(p.data, DataKind::Permissions) {
        Some(i) => {
            lemma_update_keeps_kinds(
                p.data,
                i,
                DataView::Permissions(upsert_grant(p.permissions(), g)),
            );
        },
        None => {
            lemma_push_keeps_kinds(p.data, DataView::Permissions(seq![g]));
        },
    }
}

/// Taking over an outside record keeps the kinds of a principal's data
/// apart if the principal has no memberships entry where the outside record
/// has memberships, and no empty roles entry where it has roles.
pub proof fn lemma_merged_keeps_kinds(local: PrincipalView, external: PrincipalView)
    requires
        unique_kinds(local.data),
        external.member_of().len() > 0 ==> first_of_kind(local.data, DataKind::MemberOf) is None,
        external.roles().len() > 0 && local.roles().len() == 0 ==> first_of_kind(
            local.data,
            DataKind::Roles,
        ) is None,
    ensures
        unique_kinds(local.merged(external).data),
{
    let members = DataView::MemberOf(external.member_of());
    let with_members = if external.member_of().len() > 0 {
        local.push_data(members)
    } else {
        local
    };
    if external.member_of().len() > 0 {
        lemma_push_keeps_kinds(local.data, members);
    }
    // An entry of memberships at the end does not change which roles count.
    assert(first_of_kind(with_members.data, DataKind::Roles) == first_of_kind(
        local.data,
        DataKind::Roles,
    ) && with_members.roles() == local.roles()) by {
        if external.member_of().len() > 0 {
            match first_of_kind(local.data, DataKind::Roles) {
                Some(i) => {
                    assert(is_first_of_kind(local.data, DataKind::Roles, i));
                    assert(forall|k: int|
                        0 <= k < i ==> (#[trigger] with_members.data[k]) == local.data[k]);
                    assert(with_members.data[i] == local.data[i]);
                    assert(is_first_of_kind(with_members.data, DataKind::Roles, i));
                    lemma_first_of_kind(with_members.data, DataKind::Roles, i);
                },
                None => {
                    lemma_kind_absent(local.data, DataKind::Roles);
                    assert forall|k: int| 0 <= k < with_members.data.len() implies (
                    #[trigger] with_members.data[k]).kind() != DataKind::Roles by {
                        if k < local.data.len() {
                            assert(with_members.data[k] == local.data[k]);
                        }
                    }
                    lemma_no_entry_of_kind(with_members.data, DataKind::Roles);
                },
            }
        }
    }
    if external.roles().len() > 0 && with_members.roles().len() == 0 {
        lemma_push_keeps_kinds(with_members.data, DataView::Roles(external.roles()));
    }
}

} // verus!
