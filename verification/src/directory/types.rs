//! The type of a principal and its encodings.
use vstd::prelude::*;
use crate::text::str_eq;

verus! {

/// What a principal is.
#[derive(Debug, Clone, Copy, PartialEq, Eq, Hash, Structural)]
pub enum Type {
    Individual,
    Group,
    Resource,
    Location,
    List,
    Other,
    Domain,
    Tenant,
    Role,
    ApiKey,
    OauthClient,
}

impl Default for Type {
    fn default() -> (t: Self)
        ensures
            t == Type::Individual,
    {
        Type::Individual
    }
}

/// The type that a byte stands for. The retired code 4 and every code that
/// was never given out stand for `Other`.
pub open spec fn type_of_code(code: u8) -> Type {
    match code {
        0 => Type::Individual,
        1 => Type::Group,
        2 => Type::Resource,
        3 => Type::Location,
        5 => Type::List,
        7 => Type::Domain,
        8 => Type::Tenant,
        9 => Type::Role,
        10 => Type::ApiKey,
        11 => Type::OauthClient,
        _ => Type::Other,
    }
}

/// The type that a name on the wire stands for, if any. The retired name
/// `superuser` stands for `Individual`. No name stands for `Other`.
pub open spec fn type_of_name(name: Seq<char>) -> Option<Type> {
    if name == "individual"@ {
        Some(Type::Individual)
    } else if name == "group"@ {
        Some(Type::Group)
    } else if name == "resource"@ {
        Some(Type::Resource)
    } else if name == "location"@ {
        Some(Type::Location)
    } else if name == "list"@ {
        Some(Type::List)
    } else if name == "tenant"@ {
        Some(Type::Tenant)
    } else if name == "superuser"@ {
        Some(Type::Individual)
    } else if name == "role"@ {
        Some(Type::Role)
    } else if name == "domain"@ {
        Some(Type::Domain)
    } else if name == "apiKey"@ {
        Some(Type::ApiKey)
    } else if name == "oauthClient"@ {
        Some(Type::OauthClient)
    } else {
        None
    }
}

impl Type {
    /// The largest code that stands for a type.
    pub const MAX_ID: usize = 11;

    /// The byte that stands for the type.
    pub open spec fn code(self) -> u8 {
        match self {
            Type::Individual => 0,
            Type::Group => 1,
            Type::Resource => 2,
            Type::Location => 3,
            Type::List => 5,
            Type::Other => 6,
            Type::Domain => 7,
            Type::Tenant => 8,
            Type::Role => 9,
            Type::ApiKey => 10,
            Type::OauthClient => 11,
        }
    }

    /// The name of the type on the wire.
    pub open spec fn jmap_name(self) -> Seq<char> {
        match self {
            Type::Individual => "individual"@,
            Type::Group => "group"@,
            Type::Resource => "resource"@,
            Type::Location => "location"@,
            Type::Other => "other"@,
            Type::List => "list"@,
            Type::Tenant => "tenant"@,
            Type::Role => "role"@,
            Type::Domain => "domain"@,
            Type::ApiKey => "apiKey"@,
            Type::OauthClient => "oauthClient"@,
        }
    }

    /// The name of the type as shown to people.
    pub open spec fn display_name(self) -> Seq<char> {
        match self {
            Type::Individual => "Individual"@,
            Type::Group => "Group"@,
            Type::Resource => "Resource"@,
            Type::Location => "Location"@,
            Type::Tenant => "Tenant"@,
            Type::List => "List"@,
            Type::Other => "Other"@,
            Type::Role => "Role"@,
            Type::Domain => "Domain"@,
            Type::ApiKey => "API Key"@,
            Type::OauthClient => "OAuth Client"@,
        }
    }

    /// The byte that stands for the type.
    pub fn to_u8(self) -> (code: u8)
        ensures
            code == self.code(),
            code <= Type::MAX_ID,
    {
        match self {
            Type::Individual => 0,
            Type::Group => 1,
            Type::Resource => 2,
            Type::Location => 3,
            Type::List => 5,
            Type::Other => 6,
            Type::Domain => 7,
            Type::Tenant => 8,
            Type::Role => 9,
            Type::ApiKey => 10,
            Type::OauthClient => 11,
        }
    }

    /// The type that a byte stands for.
    pub fn from_u8(value: u8) -> (t: Self)
        ensures
            t == type_of_code(value),
    {
        match value {
            0 => Type::Individual,
            1 => Type::Group,
            2 => Type::Resource,
            3 => Type::Location,
            4 => Type::Other,
            5 => Type::List,
            6 => Type::Other,
            7 => Type::Domain,
            8 => Type::Tenant,
            9 => Type::Role,
            10 => Type::ApiKey,
            11 => Type::OauthClient,
            _ => Type::Other,
        }
    }

    /// The name of the type on the wire.
    pub fn to_jmap(&self) -> (name: &'static str)
        ensures
            name@ == self.jmap_name(),
    {
        match self {
            Type::Individual => "individual",
            Type::Group => "group",
            Type::Resource => "resource",
            Type::Location => "location",
            Type::Other => "other",
            Type::List => "list",
            Type::Tenant => "tenant",
            Type::Role => "role",
            Type::Domain => "domain",
            Type::ApiKey => "apiKey",
            Type::OauthClient => "oauthClient",
        }
    }

    /// The name of the type as shown to people.
    pub fn as_str(&self) -> (name: &'static str)
        ensures
            name@ == self.display_name(),
    {
        match self {
            Type::Individual => "Individual",
            Type::Group => "Group",
            Type::Resource => "Resource",
            Type::Location => "Location",
            Type::Tenant => "Tenant",
            Type::List => "List",
            Type::Other => "Other",
            Type::Role => "Role",
            Type::Domain => "Domain",
            Type::ApiKey => "API Key",
            Type::OauthClient => "OAuth Client",
        }
    }

    /// The type that a name on the wire stands for, if any.
    pub fn parse(value: &str) -> (t: Option<Self>)
        ensures
            t == type_of_name(value@),
    {
        if str_eq(value, "individual") {
            Some(Type::Individual)
        } else if str_eq(value, "group") {
            Some(Type::Group)
        } else if str_eq(value, "resource") {
            Some(Type::Resource)
        } else if str_eq(value, "location") {
            Some(Type::Location)
        } else if str_eq(value, "list") {
            Some(Type::List)
        } else if str_eq(value, "tenant") {
            Some(Type::Tenant)
        } else if str_eq(value, "superuser") {
            Some(Type::Individual)
        } else if str_eq(value, "role") {
            Some(Type::Role)
        } else if str_eq(value, "domain") {
            Some(Type::Domain)
        } else if str_eq(value, "apiKey") {
            Some(Type::ApiKey)
        } else if str_eq(value, "oauthClient") {
            Some(Type::OauthClient)
        } else {
            None
        }
    }
}

impl std::str::FromStr for Type {
    type Err = ();

    fn from_str(s: &str) -> (r: Result<Self, ()>)
        ensures
            r == (match type_of_name(s@) {
                Some(t) => Ok::<Type, ()>(t),
                None => Err::<Type, ()>(()),
            }),
    {
        match Type::parse(s) {
            Some(t) => Ok(t),
            None => Err(()),
        }
    }
}

proof fn reveal_type_names()
    ensures
        "individual"@.len() == 10,
        "group"@.len() == 5,
        "resource"@.len() == 8 && "resource"@[0] == 'r',
        "location"@.len() == 8 && "location"@[0] == 'l',
        "list"@.len() == 4 && "list"@[0] == 'l',
        "tenant"@.len() == 6 && "tenant"@[0] == 't',
        "superuser"@.len() == 9,
        "role"@.len() == 4 && "role"@[0] == 'r',
        "domain"@.len() == 6 && "domain"@[0] == 'd',
        "apiKey"@.len() == 6 && "apiKey"@[0] == 'a',
        "oauthClient"@.len() == 11,
        "other"@.len() == 5 && "other"@[0] == 'o',
        "group"@[0] == 'g',
{
    reveal_strlit("individual");
    reveal_strlit("group");
    reveal_strlit("resource");
    reveal_strlit("location");
    reveal_strlit("list");
    reveal_strlit("tenant");
    reveal_strlit("superuser");
    reveal_strlit("role");
    reveal_strlit("domain");
    reveal_strlit("apiKey");
    reveal_strlit("oauthClient");
    reveal_strlit("other");
}

/// Every type comes back from its code.
pub proof fn lemma_code_round_trip(t: Type)
    ensures
        type_of_code(t.code()) == t,
{
}

/// The retired code 4 stands for `Other`, as does every code above the
/// largest.
pub proof fn lemma_unknown_codes(code: u8)
    requires
        code == 4 || code > Type::MAX_ID,
    ensures
        type_of_code(code) == Type::Other,
{
}

/// The retired name `superuser` stands for `Individual`.
pub proof fn lemma_superuser_is_individual()
    ensures
        type_of_name("superuser"@) == Some(Type::Individual),
{
    reveal_type_names();
}

/// Every type but `Other` comes back from its name on the wire, and the
/// name of `Other` stands for no type.
pub proof fn lemma_name_round_trip(t: Type)
    ensures
        t != Type::Other ==> type_of_name(t.jmap_name()) == Some(t),
        type_of_name(Type::Other.jmap_name()) is None,
{
    reveal_type_names();
}

} // verus!
