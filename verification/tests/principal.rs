use mail_services::directory::field::PrincipalField;
use mail_services::directory::permission::Permission;
use mail_services::directory::principal::{
    DataKind, PermissionGrant, Principal, PrincipalAction, PrincipalData, PrincipalQuota,
    PrincipalUpdate, ROLE_ADMIN, ROLE_TENANT_ADMIN, ROLE_USER,
};
use mail_services::directory::search::{build_search_index, IndexOp};
use mail_services::directory::types::Type;
use mail_services::directory::value::PrincipalValue;

fn s(v: &str) -> String {
    v.to_string()
}

fn grant(permission: Permission, grant: bool) -> PermissionGrant {
    PermissionGrant { permission, grant }
}

#[test]
fn new_principal_is_empty() {
    let p = Principal::new(3, Type::Resource);
    assert_eq!(p.id(), 3);
    assert_eq!(p.typ(), Type::Resource);
    assert_eq!(p.name(), "");
    assert_eq!(p.quota(), 0);
    assert_eq!(p.tenant(), None);
    assert_eq!(p.description(), None);
    assert!(p.member_of().is_empty());
    assert!(p.roles().is_empty());
    assert!(p.lists().is_empty());
    assert!(p.permissions().is_empty());
    assert!(p.urls().is_empty());
    assert_eq!(p.picture(), None);
    assert_eq!(p.principal_quota(&Type::Individual), None);
    assert_eq!(p.position(DataKind::Roles), None);
}

#[test]
fn accessors_read_the_first_entry_of_a_kind() {
    let mut p = Principal::new(1, Type::Individual);
    p.name = s("jane");
    p.description = Some(s("d"));
    p.quota = Some(10);
    p.tenant = Some(5);
    p.data = vec![
        PrincipalData::Roles(vec![1, 2]),
        PrincipalData::MemberOf(vec![9]),
        PrincipalData::Roles(vec![3]),
        PrincipalData::Lists(vec![4]),
        PrincipalData::Picture(s("pic")),
        PrincipalData::Urls(vec![s("u1"), s("u2")]),
        PrincipalData::PrincipalQuota(vec![
            PrincipalQuota { quota: 100, typ: Type::Group },
            PrincipalQuota { quota: 200, typ: Type::Individual },
            PrincipalQuota { quota: 300, typ: Type::Group },
        ]),
    ];
    assert_eq!(p.name(), "jane");
    assert_eq!(p.description(), Some("d"));
    assert_eq!(p.quota(), 10);
    assert_eq!(p.tenant(), None);
    assert_eq!(p.roles(), &[1, 2]);
    assert_eq!(p.member_of(), &[9]);
    assert_eq!(p.lists(), &[4]);
    assert_eq!(p.picture(), Some(&s("pic")));
    assert_eq!(p.urls(), &[s("u1"), s("u2")]);
    assert_eq!(p.principal_quota(&Type::Group), Some(100));
    assert_eq!(p.principal_quota(&Type::Individual), Some(200));
    assert_eq!(p.principal_quota(&Type::Domain), None);
    assert_eq!(p.position(DataKind::Roles), Some(0));
    assert_eq!(p.position(DataKind::Picture), Some(4));
    assert_eq!(p.position(DataKind::Permissions), None);

    p.roles_mut().unwrap().push(7);
    p.member_of_mut().unwrap().clear();
    p.picture_mut().unwrap().push_str("ture");
    assert_eq!(p.roles(), &[1, 2, 7]);
    assert_eq!(p.data[2], PrincipalData::Roles(vec![3]));
    assert!(p.member_of().is_empty());
    assert_eq!(p.picture(), Some(&s("picture")));
    let mut bare = Principal::new(1, Type::Individual);
    assert!(bare.roles_mut().is_none());
    assert!(bare.member_of_mut().is_none());
    assert!(bare.picture_mut().is_none());
}

#[test]
fn add_permission_upserts() {
    let mut p = Principal::new(1, Type::Individual);
    p.add_permission(Permission::EmailSend, true);
    assert_eq!(p.permissions(), &[grant(Permission::EmailSend, true)]);
    p.add_permission(Permission::EmailReceive, false);
    p.add_permission(Permission::EmailSend, false);
    assert_eq!(
        p.permissions(),
        &[grant(Permission::EmailSend, false), grant(Permission::EmailReceive, false)]
    );
    assert_eq!(p.data.len(), 1);
}

#[test]
fn add_permissions_does_not_deduplicate() {
    let mut p = Principal::new(1, Type::Individual);
    p.add_permissions(vec![grant(Permission::EmailSend, true)]);
    p.add_permissions(vec![grant(Permission::EmailSend, true), grant(Permission::ImapFetch, false)]);
    assert_eq!(
        p.permissions(),
        &[
            grant(Permission::EmailSend, true),
            grant(Permission::EmailSend, true),
            grant(Permission::ImapFetch, false),
        ]
    );
    assert_eq!(p.data.len(), 1);
    // With duplicates, an upsert changes the first entry only.
    p.add_permission(Permission::EmailSend, false);
    assert_eq!(p.permissions()[0], grant(Permission::EmailSend, false));
    assert_eq!(p.permissions()[1], grant(Permission::EmailSend, true));
}

#[test]
fn remove_permission_swaps_the_last_entry_in() {
    let mut p = Principal::new(1, Type::Individual);
    p.add_permissions(vec![
        grant(Permission::EmailSend, true),
        grant(Permission::EmailReceive, true),
        grant(Permission::ImapFetch, false),
        grant(Permission::Pop3List, true),
    ]);
    p.remove_permission(Permission::EmailSend, false);
    assert_eq!(p.permissions().len(), 4);
    p.remove_permission(Permission::EmailSend, true);
    assert_eq!(
        p.permissions(),
        &[
            grant(Permission::Pop3List, true),
            grant(Permission::EmailReceive, true),
            grant(Permission::ImapFetch, false),
        ]
    );
    p.remove_permission(Permission::ImapFetch, false);
    assert_eq!(
        p.permissions(),
        &[grant(Permission::Pop3List, true), grant(Permission::EmailReceive, true)]
    );
    let mut bare = Principal::new(1, Type::Individual);
    bare.remove_permission(Permission::EmailSend, true);
    bare.remove_permissions(true);
    assert!(bare.data.is_empty());
}

#[test]
fn remove_permissions_keeps_the_other_grants_in_order() {
    let mut p = Principal::new(1, Type::Individual);
    p.add_permissions(vec![
        grant(Permission::EmailSend, true),
        grant(Permission::EmailReceive, false),
        grant(Permission::ImapFetch, true),
        grant(Permission::Pop3List, false),
    ]);
    p.remove_permissions(true);
    assert_eq!(
        p.permissions(),
        &[grant(Permission::EmailReceive, false), grant(Permission::Pop3List, false)]
    );
    p.remove_permissions(false);
    assert!(p.permissions().is_empty());
    assert_eq!(p.data, vec![PrincipalData::Permissions(vec![])]);
}

#[test]
fn update_external_takes_over_what_differs() {
    let mut local = Principal::new(1, Type::Individual);
    local.name = s("jane");
    local.description = Some(s("old"));
    local.secrets = vec![s("s")];
    local.emails = vec![s("jane@example.org")];
    local.quota = Some(5);

    let mut external = Principal::new(99, Type::Group);
    external.name = s("ignored");
    external.description = Some(s("new"));
    external.secrets = vec![s("s")];
    external.emails = vec![s("jane@example.org"), s("j@example.org")];
    external.quota = Some(6);
    external.data = vec![PrincipalData::MemberOf(vec![10, 11]), PrincipalData::Roles(vec![20])];

    let updates = local.update_external(external);
    assert_eq!(
        updates,
        vec![
            PrincipalUpdate::set(PrincipalField::Description, PrincipalValue::String(s("new"))),
            PrincipalUpdate::set(
                PrincipalField::Emails,
                PrincipalValue::StringList(vec![s("jane@example.org"), s("j@example.org")])
            ),
            PrincipalUpdate::set(PrincipalField::Quota, PrincipalValue::Integer(6)),
        ]
    );
    assert_eq!(updates[0].action, PrincipalAction::Replace);
    assert_eq!(local.id(), 1);
    assert_eq!(local.typ(), Type::Individual);
    assert_eq!(local.name(), "jane");
    assert_eq!(local.description(), Some("new"));
    assert_eq!(local.secrets, vec![s("s")]);
    assert_eq!(local.emails, vec![s("jane@example.org"), s("j@example.org")]);
    assert_eq!(local.quota(), 6);
    assert_eq!(local.member_of(), &[10, 11]);
    assert_eq!(local.roles(), &[20]);
}

#[test]
fn update_external_keeps_local_roles_and_skips_empty_values() {
    let mut local = Principal::new(1, Type::Individual);
    local.description = Some(s("kept"));
    local.secrets = vec![s("kept")];
    local.quota = Some(5);
    local.data = vec![PrincipalData::Roles(vec![1])];

    let mut external = Principal::new(1, Type::Individual);
    external.description = Some(s(""));
    external.data = vec![PrincipalData::Roles(vec![2]), PrincipalData::MemberOf(vec![])];

    let updates = local.update_external(external);
    assert!(updates.is_empty());
    assert_eq!(local.description(), Some("kept"));
    assert_eq!(local.secrets, vec![s("kept")]);
    assert_eq!(local.quota(), 5);
    assert_eq!(local.data, vec![PrincipalData::Roles(vec![1])]);

    // Equal values lead to no update either.
    let mut same = Principal::new(1, Type::Individual);
    same.description = Some(s("kept"));
    same.secrets = vec![s("kept")];
    same.quota = Some(5);
    assert!(local.update_external(same).is_empty());
}

#[test]
fn update_external_adds_members_without_looking() {
    let mut local = Principal::new(1, Type::Individual);
    local.data = vec![PrincipalData::MemberOf(vec![1])];
    let mut external = Principal::new(1, Type::Individual);
    external.data = vec![PrincipalData::MemberOf(vec![2])];
    local.update_external(external);
    assert_eq!(
        local.data,
        vec![PrincipalData::MemberOf(vec![1]), PrincipalData::MemberOf(vec![2])]
    );
    assert_eq!(local.member_of(), &[1]);
}

#[test]
fn fallback_admin_is_an_administrator() {
    let admin = Principal::fallback_admin(s("secret"));
    assert_eq!(admin.id(), u32::MAX);
    assert_eq!(admin.typ(), Type::Individual);
    assert_eq!(admin.name(), "Fallback Administrator");
    assert_eq!(admin.secrets, vec![s("secret")]);
    assert_eq!(admin.roles(), &[ROLE_ADMIN]);
    assert!(admin.emails.is_empty());
    assert_eq!(admin.description(), None);
    assert_eq!(ROLE_ADMIN, u32::MAX);
    assert_eq!(ROLE_TENANT_ADMIN, u32::MAX - 1);
    assert_eq!(ROLE_USER, u32::MAX - 2);
}

#[test]
fn update_constructors() {
    let value = PrincipalValue::Integer(1);
    assert_eq!(
        PrincipalUpdate::add_item(PrincipalField::Roles, value.clone()).action,
        PrincipalAction::AddItem
    );
    assert_eq!(
        PrincipalUpdate::remove_item(PrincipalField::Roles, value.clone()).action,
        PrincipalAction::RemoveItem
    );
    let set = PrincipalUpdate::set(PrincipalField::Roles, value.clone());
    assert_eq!(set.field, PrincipalField::Roles);
    assert_eq!(set.value, value);
}

#[test]
fn index_texts_are_name_description_and_addresses() {
    let mut p = Principal::new(1, Type::Individual);
    p.name = s("Jane Doe");
    p.emails = vec![s("jane@example.org"), s("jd@example.org")];
    assert_eq!(p.index_texts(), vec![s("Jane Doe"), s("jane@example.org"), s("jd@example.org")]);
    p.description = Some(s("Head of ops"));
    assert_eq!(
        p.index_texts(),
        vec![s("Jane Doe"), s("Head of ops"), s("jane@example.org"), s("jd@example.org")]
    );
}

fn sorted(mut ops: Vec<IndexOp>) -> Vec<IndexOp> {
    ops.sort_by_key(|op| match op {
        IndexOp::Add { word, .. } => (0, word.clone()),
        IndexOp::Clear { word, .. } => (1, word.clone()),
    });
    ops
}

fn add(word: &str, principal_id: u32) -> IndexOp {
    IndexOp::Add { word: word.as_bytes().to_vec(), principal_id }
}

fn clear(word: &str, principal_id: u32) -> IndexOp {
    IndexOp::Clear { word: word.as_bytes().to_vec(), principal_id }
}

#[test]
fn search_index_delta_is_the_symmetric_difference() {
    let current = vec![s("jane"), s("doe"), s("ops"), s("jane")];
    let new = vec![s("jane"), s("smith"), s("ops"), s("héllo"), s("smith")];
    let mut batch = vec![add("before", 1)];
    build_search_index(&mut batch, 7, &current, &new);
    assert_eq!(batch[0], add("before", 1));
    assert_eq!(batch.len(), 4);
    // Additions come before removals.
    assert!(matches!(batch[1], IndexOp::Add { .. }));
    assert!(matches!(batch[2], IndexOp::Add { .. }));
    assert!(matches!(batch[3], IndexOp::Clear { .. }));
    assert_eq!(
        sorted(batch[1..].to_vec()),
        vec![add("héllo", 7), add("smith", 7), clear("doe", 7)]
    );
}

#[test]
fn search_index_of_a_new_or_removed_principal() {
    let words = vec![s("a"), s("b")];
    let mut batch = Vec::new();
    build_search_index(&mut batch, 1, &Vec::new(), &words);
    assert_eq!(sorted(batch), vec![add("a", 1), add("b", 1)]);
    let mut batch = Vec::new();
    build_search_index(&mut batch, 1, &words, &Vec::new());
    assert_eq!(sorted(batch), vec![clear("a", 1), clear("b", 1)]);
    let mut batch = Vec::new();
    build_search_index(&mut batch, 1, &words, &words);
    assert!(batch.is_empty());
}

#[test]
fn search_index_there_and_back_is_a_no_op() {
    let a = vec![s("jane"), s("doe"), s("ops")];
    let b = vec![s("jane"), s("smith")];
    let mut forth = Vec::new();
    build_search_index(&mut forth, 3, &a, &b);
    let mut back = Vec::new();
    build_search_index(&mut back, 3, &b, &a);
    // What one adds the other clears.
    let mirrored: Vec<IndexOp> = back
        .iter()
        .map(|op| match op {
            IndexOp::Add { word, principal_id } => {
                IndexOp::Clear { word: word.clone(), principal_id: *principal_id }
            }
            IndexOp::Clear { word, principal_id } => {
                IndexOp::Add { word: word.clone(), principal_id: *principal_id }
            }
        })
        .collect();
    assert_eq!(sorted(forth.clone()), sorted(mirrored));
    // Applied to an index that is in step with `a`, the two leave it as it was.
    let mut index: std::collections::BTreeSet<Vec<u8>> =
        a.iter().map(|w| w.as_bytes().to_vec()).collect();
    let start = index.clone();
    for op in forth.iter().chain(back.iter()) {
        match op {
            IndexOp::Add { word, .. } => {
                index.insert(word.clone());
            }
            IndexOp::Clear { word, .. } => {
                index.remove(word);
            }
        }
    }
    assert_eq!(index, start);
}
