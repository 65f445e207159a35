use std::str::FromStr;

use mail_services::directory::field::{PrincipalField, FIELD_COUNT};
use mail_services::directory::permission::Permission;
use mail_services::directory::types::Type;

const NATIVE: [Type; 11] = [
    Type::Individual,
    Type::Group,
    Type::Resource,
    Type::Location,
    Type::List,
    Type::Other,
    Type::Domain,
    Type::Tenant,
    Type::Role,
    Type::ApiKey,
    Type::OauthClient,
];

#[test]
fn type_codes_round_trip() {
    for t in NATIVE {
        assert_eq!(Type::from_u8(t.to_u8()), t);
        assert!(t.to_u8() as usize <= Type::MAX_ID);
    }
    let codes: Vec<u8> = NATIVE.iter().map(|t| t.to_u8()).collect();
    assert_eq!(codes, vec![0, 1, 2, 3, 5, 6, 7, 8, 9, 10, 11]);
}

#[test]
fn legacy_and_unknown_codes_are_other() {
    assert_eq!(Type::from_u8(4), Type::Other);
    assert_eq!(Type::from_u8(6), Type::Other);
    assert_eq!(Type::from_u8(12), Type::Other);
    assert_eq!(Type::from_u8(255), Type::Other);
}

#[test]
fn superuser_parses_to_individual() {
    assert_eq!(Type::parse("superuser"), Some(Type::Individual));
    assert_eq!(Type::from_str("superuser"), Ok(Type::Individual));
}

#[test]
fn type_names_round_trip() {
    for t in NATIVE {
        if t == Type::Other {
            assert_eq!(Type::parse(t.to_jmap()), None);
        } else {
            assert_eq!(Type::parse(t.to_jmap()), Some(t));
        }
    }
    assert_eq!(Type::ApiKey.to_jmap(), "apiKey");
    assert_eq!(Type::OauthClient.to_jmap(), "oauthClient");
    assert_eq!(Type::Other.to_jmap(), "other");
    assert_eq!(Type::parse("Group"), None);
    assert_eq!(Type::parse(""), None);
    assert_eq!(Type::parse("groups"), None);
    assert_eq!(Type::from_str("nobody"), Err(()));
    assert_eq!(Type::default(), Type::Individual);
}

#[test]
fn type_display_names() {
    assert_eq!(Type::Individual.as_str(), "Individual");
    assert_eq!(Type::ApiKey.as_str(), "API Key");
    assert_eq!(Type::OauthClient.as_str(), "OAuth Client");
    assert_eq!(Type::List.as_str(), "List");
}

#[test]
fn fields_round_trip_by_name_and_number() {
    for id in 0..FIELD_COUNT {
        let field = PrincipalField::from_id(id).unwrap();
        assert_eq!(field.id(), id);
        assert_eq!(PrincipalField::try_parse(field.as_str()), Some(field));
    }
    assert_eq!(PrincipalField::from_id(FIELD_COUNT), None);
    assert_eq!(PrincipalField::try_parse("id"), None);
    assert_eq!(PrincipalField::try_parse("memberOf"), Some(PrincipalField::MemberOf));
    assert_eq!(PrincipalField::try_parse("memberof"), None);
    assert_eq!(PrincipalField::UsedQuota.as_str(), "usedQuota");
    assert_eq!(PrincipalField::EnabledPermissions.as_str(), "enabledPermissions");
}

#[test]
fn every_permission_is_listed_once() {
    let all = Permission::all();
    assert_eq!(all.len(), Permission::COUNT);
    for (id, permission) in all.iter().enumerate() {
        assert_eq!(permission.id(), id);
        assert_eq!(Permission::from_id(id), Some(*permission));
    }
    assert_eq!(Permission::from_id(Permission::COUNT), None);
}

#[test]
fn user_permissions() {
    assert!(Permission::Authenticate.is_user_permission());
    assert!(Permission::EmailSend.is_user_permission());
    assert!(Permission::JmapEmailGet.is_user_permission());
    assert!(Permission::ImapFetch.is_user_permission());
    assert!(Permission::Pop3Dele.is_user_permission());
    assert!(Permission::SieveHaveSpace.is_user_permission());
    assert!(Permission::SpamFilterTrain.is_user_permission());
    assert!(Permission::DavCalFreeBusyQuery.is_user_permission());
    assert!(Permission::CalendarSchedulingReceive.is_user_permission());
    assert!(!Permission::Impersonate.is_user_permission());
    assert!(!Permission::SettingsUpdate.is_user_permission());
    assert!(!Permission::PurgeAccount.is_user_permission());
    assert!(!Permission::ApiKeyCreate.is_user_permission());
    let users = Permission::all().iter().filter(|p| p.is_user_permission()).count();
    assert_eq!(users, 136);
    assert!(Permission::all().iter().all(|p| !p.is_tenant_admin_permission()));
}
