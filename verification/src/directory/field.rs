//! The fields of a principal at the boundary of the directory interface.
use vstd::prelude::*;
use crate::text::str_eq;

verus! {

/// A field of a principal.
#[derive(Debug, Clone, Copy, PartialEq, Eq, Hash, Structural)]
pub enum PrincipalField {
    Name,
    Type,
    Quota,
    UsedQuota,
    Description,
    Secrets,
    Emails,
    MemberOf,
    Members,
    Tenant,
    Roles,
    Lists,
    EnabledPermissions,
    DisabledPermissions,
    Picture,
    Urls,
    ExternalMembers,
    Locale,
}

/// The number of fields.
pub const FIELD_COUNT: u8 = 18;

/// The field with the given number, for a number below `FIELD_COUNT`.
pub open spec fn field_of_id(id: u8) -> Option<PrincipalField> {
    match id {
        0 => Some(PrincipalField::Name),
        1 => Some(PrincipalField::Type),
        2 => Some(PrincipalField::Quota),
        3 => Some(PrincipalField::UsedQuota),
        4 => Some(PrincipalField::Description),
        5 => Some(PrincipalField::Secrets),
        6 => Some(PrincipalField::Emails),
        7 => Some(PrincipalField::MemberOf),
        8 => Some(PrincipalField::Members),
        9 => Some(PrincipalField::Tenant),
        10 => Some(PrincipalField::Roles),
        11 => Some(PrincipalField::Lists),
        12 => Some(PrincipalField::EnabledPermissions),
        13 => Some(PrincipalField::DisabledPermissions),
        14 => Some(PrincipalField::Picture),
        15 => Some(PrincipalField::Urls),
        16 => Some(PrincipalField::ExternalMembers),
        17 => Some(PrincipalField::Locale),
        _ => None,
    }
}

/// The field that a key on the wire names, if any.
pub open spec fn field_of_name(name: Seq<char>) -> Option<PrincipalField> {
    if name == "name"@ {
        Some(PrincipalField::Name)
    } else if name == "type"@ {
        Some(PrincipalField::Type)
    } else if name == "quota"@ {
        Some(PrincipalField::Quota)
    } else if name == "usedQuota"@ {
        Some(PrincipalField::UsedQuota)
    } else if name == "description"@ {
        Some(PrincipalField::Description)
    } else if name == "secrets"@ {
        Some(PrincipalField::Secrets)
    } else if name == "emails"@ {
        Some(PrincipalField::Emails)
    } else if name == "memberOf"@ {
        Some(PrincipalField::MemberOf)
    } else if name == "members"@ {
        Some(PrincipalField::Members)
    } else if name == "tenant"@ {
        Some(PrincipalField::Tenant)
    } else if name == "roles"@ {
        Some(PrincipalField::Roles)
    } else if name == "lists"@ {
        Some(PrincipalField::Lists)
    } else if name == "enabledPermissions"@ {
        Some(PrincipalField::EnabledPermissions)
    } else if name == "disabledPermissions"@ {
        Some(PrincipalField::DisabledPermissions)
    } else if name == "picture"@ {
        Some(PrincipalField::Picture)
    } else if name == "urls"@ {
        Some(PrincipalField::Urls)
    } else if name == "externalMembers"@ {
        Some(PrincipalField::ExternalMembers)
    } else if name == "locale"@ {
        Some(PrincipalField::Locale)
    } else {
        None
    }
}

impl PrincipalField {
    /// The number of the field.
    pub open spec fn spec_id(self) -> u8 {
        match self {
            PrincipalField::Name => 0,
            PrincipalField::Type => 1,
            PrincipalField::Quota => 2,
            PrincipalField::UsedQuota => 3,
            PrincipalField::Description => 4,
            PrincipalField::Secrets => 5,
            PrincipalField::Emails => 6,
            PrincipalField::MemberOf => 7,
            PrincipalField::Members => 8,
            PrincipalField::Tenant => 9,
            PrincipalField::Roles => 10,
            PrincipalField::Lists => 11,
            PrincipalField::EnabledPermissions => 12,
            PrincipalField::DisabledPermissions => 13,
            PrincipalField::Picture => 14,
            PrincipalField::Urls => 15,
            PrincipalField::ExternalMembers => 16,
            PrincipalField::Locale => 17,
        }
    }

    /// The key of the field on the wire.
    pub open spec fn name(self) -> Seq<char> {
        match self {
            PrincipalField::Name => "name"@,
            PrincipalField::Type => "type"@,
            PrincipalField::Quota => "quota"@,
            PrincipalField::UsedQuota => "usedQuota"@,
            PrincipalField::Description => "description"@,
            PrincipalField::Secrets => "secrets"@,
            PrincipalField::Emails => "emails"@,
            PrincipalField::MemberOf => "memberOf"@,
            PrincipalField::Members => "members"@,
            PrincipalField::Tenant => "tenant"@,
            PrincipalField::Roles => "roles"@,
            PrincipalField::Lists => "lists"@,
            PrincipalField::EnabledPermissions => "enabledPermissions"@,
            PrincipalField::DisabledPermissions => "disabledPermissions"@,
            PrincipalField::Picture => "picture"@,
            PrincipalField::Urls => "urls"@,
            PrincipalField::ExternalMembers => "externalMembers"@,
            PrincipalField::Locale => "locale"@,
        }
    }

    /// The number of the field, below `FIELD_COUNT`.
    #[verifier::when_used_as_spec(spec_id)]
    pub fn id(self) -> (id: u8)
        ensures
            id == self.spec_id(),
            id < FIELD_COUNT,
            field_of_id(id) == Some(self),
    {
        match self {
            PrincipalField::Name => 0,
            PrincipalField::Type => 1,
            PrincipalField::Quota => 2,
            PrincipalField::UsedQuota => 3,
            PrincipalField::Description => 4,
            PrincipalField::Secrets => 5,
            PrincipalField::Emails => 6,
            PrincipalField::MemberOf => 7,
            PrincipalField::Members => 8,
            PrincipalField::Tenant => 9,
            PrincipalField::Roles => 10,
            PrincipalField::Lists => 11,
            PrincipalField::EnabledPermissions => 12,
            PrincipalField::DisabledPermissions => 13,
            PrincipalField::Picture => 14,
            PrincipalField::Urls => 15,
            PrincipalField::ExternalMembers => 16,
            PrincipalField::Locale => 17,
        }
    }

    /// The field with the given number.
    pub fn from_id(id: u8) -> (field: Option<Self>)
        ensures
            field == field_of_id(id),
            field is Some <==> id < FIELD_COUNT,
            field is Some ==> field->0.spec_id() == id,
    {
        match id {
            0 => Some(PrincipalField::Name),
            1 => Some(PrincipalField::Type),
            2 => Some(PrincipalField::Quota),
            3 => Some(PrincipalField::UsedQuota),
            4 => Some(PrincipalField::Description),
            5 => Some(PrincipalField::Secrets),
            6 => Some(PrincipalField::Emails),
            7 => Some(PrincipalField::MemberOf),
            8 => Some(PrincipalField::Members),
            9 => Some(PrincipalField::Tenant),
            10 => Some(PrincipalField::Roles),
            11 => Some(PrincipalField::Lists),
            12 => Some(PrincipalField::EnabledPermissions),
            13 => Some(PrincipalField::DisabledPermissions),
            14 => Some(PrincipalField::Picture),
            15 => Some(PrincipalField::Urls),
            16 => Some(PrincipalField::ExternalMembers),
            17 => Some(PrincipalField::Locale),
            _ => None,
        }
    }

    /// The key of the field on the wire.
    pub fn as_str(&self) -> (name: &'static str)
        ensures
            name@ == self.name(),
    {
        match self {
            PrincipalField::Name => "name",
            PrincipalField::Type => "type",
            PrincipalField::Quota => "quota",
            PrincipalField::UsedQuota => "usedQuota",
            PrincipalField::Description => "description",
            PrincipalField::Secrets => "secrets",
            PrincipalField::Emails => "emails",
            PrincipalField::MemberOf => "memberOf",
            PrincipalField::Members => "members",
            PrincipalField::Tenant => "tenant",
            PrincipalField::Roles => "roles",
            PrincipalField::Lists => "lists",
            PrincipalField::EnabledPermissions => "enabledPermissions",
            PrincipalField::DisabledPermissions => "disabledPermissions",
            PrincipalField::Picture => "picture",
            PrincipalField::Urls => "urls",
            PrincipalField::ExternalMembers => "externalMembers",
            PrincipalField::Locale => "locale",
        }
    }

    /// The field that a key on the wire names, if any.
    pub fn try_parse(value: &str) -> (field: Option<Self>)
        ensures
            field == field_of_name(value@),
    {
        if str_eq(value, "name") {
            Some(PrincipalField::Name)
        } else if str_eq(value, "type") {
            Some(PrincipalField::Type)
        } else if str_eq(value, "quota") {
            Some(PrincipalField::Quota)
        } else if str_eq(value, "usedQuota") {
            Some(PrincipalField::UsedQuota)
        } else if str_eq(value, "description") {
            Some(PrincipalField::Description)
        } else if str_eq(value, "secrets") {
            Some(PrincipalField::Secrets)
        } else if str_eq(value, "emails") {
            Some(PrincipalField::Emails)
        } else if str_eq(value, "memberOf") {
            Some(PrincipalField::MemberOf)
        } else if str_eq(value, "members") {
            Some(PrincipalField::Members)
        } else if str_eq(value, "tenant") {
            Some(PrincipalField::Tenant)
        } else if str_eq(value, "roles") {
            Some(PrincipalField::Roles)
        } else if str_eq(value, "lists") {
            Some(PrincipalField::Lists)
        } else if str_eq(value, "enabledPermissions") {
            Some(PrincipalField::EnabledPermissions)
        } else if str_eq(value, "disabledPermissions") {
            Some(PrincipalField::DisabledPermissions)
        } else if str_eq(value, "picture") {
            Some(PrincipalField::Picture)
        } else if str_eq(value, "urls") {
            Some(PrincipalField::Urls)
        } else if str_eq(value, "externalMembers") {
            Some(PrincipalField::ExternalMembers)
        } else if str_eq(value, "locale") {
            Some(PrincipalField::Locale)
        } else {
            None
        }
    }
}

/// What is known of the keys: enough to tell any two of them, and `id`,
/// apart.
pub proof fn reveal_field_names()
    ensures
        "name"@.len() == 4 && "name"@[0] == 'n',
        "type"@.len() == 4 && "type"@[0] == 't',
        "quota"@.len() == 5 && "quota"@[0] == 'q',
        "usedQuota"@.len() == 9 && "usedQuota"@[0] == 'u',
        "description"@.len() == 11,
        "secrets"@.len() == 7 && "secrets"@[0] == 's',
        "emails"@.len() == 6 && "emails"@[0] == 'e',
        "memberOf"@.len() == 8,
        "members"@.len() == 7 && "members"@[0] == 'm',
        "tenant"@.len() == 6 && "tenant"@[0] == 't',
        "roles"@.len() == 5 && "roles"@[0] == 'r',
        "lists"@.len() == 5 && "lists"@[0] == 'l',
        "enabledPermissions"@.len() == 18,
        "disabledPermissions"@.len() == 19,
        "picture"@.len() == 7 && "picture"@[0] == 'p',
        "urls"@.len() == 4 && "urls"@[0] == 'u',
        "externalMembers"@.len() == 15,
        "locale"@.len() == 6 && "locale"@[0] == 'l',
        "id"@.len() == 2,
{
    reveal_strlit("name");
    reveal_strlit("type");
    reveal_strlit("quota");
    reveal_strlit("usedQuota");
    reveal_strlit("description");
    reveal_strlit("secrets");
    reveal_strlit("emails");
    reveal_strlit("memberOf");
    reveal_strlit("members");
    reveal_strlit("tenant");
    reveal_strlit("roles");
    reveal_strlit("lists");
    reveal_strlit("enabledPermissions");
    reveal_strlit("disabledPermissions");
    reveal_strlit("picture");
    reveal_strlit("urls");
    reveal_strlit("externalMembers");
    reveal_strlit("locale");
    reveal_strlit("id");
}

/// Every field comes back from its key on the wire, and from its number.
pub proof fn lemma_field_round_trip(field: PrincipalField)
    ensures
        field_of_name(field.name()) == Some(field),
        field_of_id(field.spec_id()) == Some(field),
        field_of_name("id"@) is None,
{
    reveal_field_names();
}

} // verus!
