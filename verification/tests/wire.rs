use mail_services::directory::field::PrincipalField;
use mail_services::directory::principal_set::PrincipalSet;
use mail_services::directory::types::Type;
use mail_services::directory::value::PrincipalValue;
use mail_services::directory::wire::{
    DecodeError, StringOrMany, StringOrU64, WireEntry, WireItem, WireValue, MAX_STRING_LEN,
};
use serde_json::Value;

fn item_of(value: &Value) -> WireItem {
    match value {
        Value::String(s) => WireItem::Str(s.clone()),
        Value::Number(n) => match n.as_u64() {
            Some(v) => WireItem::U64(v),
            None => WireItem::Other,
        },
        _ => WireItem::Other,
    }
}

fn value_of(value: &Value) -> WireValue {
    match value {
        Value::Null => WireValue::Null,
        Value::String(s) => WireValue::Str(s.clone()),
        Value::Number(n) => match n.as_u64() {
            Some(v) => WireValue::U64(v),
            None => WireValue::Other,
        },
        Value::Array(items) => WireValue::Array(items.iter().map(item_of).collect()),
        _ => WireValue::Other,
    }
}

fn entries_of(json: &str) -> Vec<WireEntry> {
    let value: Value = serde_json::from_str(json).unwrap();
    value
        .as_object()
        .unwrap()
        .iter()
        .map(|(key, value)| WireEntry { key: key.clone(), value: value_of(value) })
        .collect()
}

fn json_of(entries: &[WireEntry]) -> Value {
    let mut object = serde_json::Map::new();
    for entry in entries {
        let value = match &entry.value {
            WireValue::Null | WireValue::Other => Value::Null,
            WireValue::Str(s) => Value::String(s.clone()),
            WireValue::U64(v) => Value::from(*v),
            WireValue::Array(items) => Value::Array(
                items
                    .iter()
                    .map(|item| match item {
                        WireItem::Str(s) => Value::String(s.clone()),
                        WireItem::U64(v) => Value::from(*v),
                        WireItem::Other => Value::Null,
                    })
                    .collect(),
            ),
        };
        object.insert(entry.key.clone(), value);
    }
    Value::Object(object)
}

fn decode(json: &str) -> Result<PrincipalSet, DecodeError> {
    PrincipalSet::deserialize(&entries_of(json))
}

fn strings(items: &[&str]) -> PrincipalValue {
    PrincipalValue::StringList(items.iter().map(|i| i.to_string()).collect())
}

#[test]
fn principal_json_round_trip() {
    let input = r#"{"id":7,"type":"group","name":"ops","emails":"x@y","memberOf":["a","b"]}"#;
    let parsed = decode(input).unwrap();
    let expected = PrincipalSet::new(0, Type::Group)
        .with_field(PrincipalField::Name, PrincipalValue::String("ops".to_string()))
        .with_field(PrincipalField::Emails, strings(&["x@y"]))
        .with_field(PrincipalField::MemberOf, strings(&["a", "b"]));
    assert_eq!(parsed, expected);
    assert_eq!(parsed.typ(), Type::Group);

    let written = json_of(&parsed.serialize());
    assert_eq!(
        written,
        serde_json::from_str::<Value>(
            r#"{"id":0,"type":"group","name":"ops","emails":["x@y"],"memberOf":["a","b"]}"#
        )
        .unwrap()
    );
    let again = decode(&serde_json::to_string(&written).unwrap()).unwrap();
    assert_eq!(again, parsed);
}

#[test]
fn a_513_byte_name_is_rejected() {
    let long = "n".repeat(MAX_STRING_LEN + 1);
    let json = format!(r#"{{"name":"{}"}}"#, long);
    let error = decode(&json).unwrap_err();
    assert_eq!(error, DecodeError::StringTooLong);
    assert_eq!(error.message(), "string too long");
    let fits = "n".repeat(MAX_STRING_LEN);
    let json = format!(r#"{{"name":"{}"}}"#, fits);
    assert_eq!(decode(&json).unwrap().name(), fits);
    // The limit is on bytes, not on characters.
    let wide = "é".repeat(257);
    let json = format!(r#"{{"description":"{}"}}"#, wide);
    assert_eq!(decode(&json).unwrap_err(), DecodeError::StringTooLong);
    let wide = "é".repeat(256);
    let json = format!(r#"{{"description":"{}"}}"#, wide);
    assert_eq!(decode(&json).unwrap().description(), Some(wide.as_str()));
}

#[test]
fn long_strings_are_rejected_everywhere() {
    let long = "x".repeat(513);
    for json in [
        format!(r#"{{"emails":"{}"}}"#, long),
        format!(r#"{{"emails":["ok","{}"]}}"#, long),
        format!(r#"{{"quota":"{}"}}"#, long),
        format!(r#"{{"quota":["{}"]}}"#, long),
        format!(r#"{{"picture":"{}"}}"#, long),
    ] {
        assert_eq!(decode(&json).unwrap_err(), DecodeError::StringTooLong);
    }
}

#[test]
fn unknown_keys_are_rejected_and_id_is_ignored() {
    let error = decode(r#"{"name":"a","colour":"red"}"#).unwrap_err();
    assert_eq!(error, DecodeError::InvalidField("colour".to_string()));
    assert_eq!(error.message(), "invalid principal field: colour");
    assert_eq!(decode(r#"{"id":"anything"}"#).unwrap(), PrincipalSet::default());
    assert_eq!(decode(r#"{"id":[1,{"a":2}]}"#).unwrap(), PrincipalSet::default());
    assert_eq!(decode(r#"{"usedQuota":12}"#).unwrap(), PrincipalSet::default());
    assert_eq!(decode(r#"{}"#).unwrap(), PrincipalSet::default());
}

#[test]
fn the_type_is_read_by_its_name() {
    assert_eq!(decode(r#"{"type":"superuser"}"#).unwrap().typ(), Type::Individual);
    assert_eq!(decode(r#"{"type":"apiKey"}"#).unwrap().typ(), Type::ApiKey);
    let error = decode(r#"{"type":"other"}"#).unwrap_err();
    assert_eq!(error, DecodeError::InvalidPrincipalType);
    assert_eq!(error.message(), "invalid principal type");
    assert_eq!(decode(r#"{"type":5}"#).unwrap_err(), DecodeError::InvalidType);
    assert_eq!(decode(r#"{"type":null}"#).unwrap_err(), DecodeError::InvalidType);
}

#[test]
fn optional_strings_may_be_null() {
    let p = decode(r#"{"description":null,"tenant":null,"picture":"p","locale":"en"}"#).unwrap();
    assert!(!p.has_field(PrincipalField::Description));
    assert!(!p.has_field(PrincipalField::Tenant));
    assert_eq!(p.get_str(PrincipalField::Picture), Some("p"));
    assert_eq!(p.get_str(PrincipalField::Locale), Some("en"));
    assert_eq!(decode(r#"{"name":null}"#).unwrap_err(), DecodeError::InvalidType);
    assert_eq!(decode(r#"{"description":7}"#).unwrap_err(), DecodeError::InvalidType);
    assert_eq!(decode(r#"{"description":["a"]}"#).unwrap_err(), DecodeError::InvalidType);
}

#[test]
fn quota_takes_integers_and_strings() {
    let quota = |json: &str| decode(json).map(|p| p.get(PrincipalField::Quota).cloned());
    assert_eq!(quota(r#"{"quota":1024}"#), Ok(Some(PrincipalValue::Integer(1024))));
    assert_eq!(quota(r#"{"quota":"1024"}"#), Ok(Some(PrincipalValue::String("1024".to_string()))));
    assert_eq!(quota(r#"{"quota":[1,2]}"#), Ok(Some(PrincipalValue::IntegerList(vec![1, 2]))));
    assert_eq!(quota(r#"{"quota":["a","b"]}"#), Ok(Some(strings(&["a", "b"]))));
    assert_eq!(quota(r#"{"quota":[]}"#), Ok(Some(strings(&[]))));
    let error = decode(r#"{"quota":[1,"a"]}"#).unwrap_err();
    assert_eq!(error, DecodeError::InvalidValue);
    assert_eq!(error.message(), "invalid principal value");
    let error = decode(r#"{"quota":-1}"#).unwrap_err();
    assert_eq!(error, DecodeError::InvalidType);
    assert_eq!(error.message(), "invalid type");
    assert_eq!(decode(r#"{"quota":1.5}"#).unwrap_err(), DecodeError::InvalidType);
    assert_eq!(decode(r#"{"quota":null}"#).unwrap_err(), DecodeError::InvalidType);
    assert_eq!(decode(r#"{"quota":true}"#).unwrap_err(), DecodeError::InvalidType);
    assert_eq!(decode(r#"{"quota":[1,null]}"#).unwrap_err(), DecodeError::InvalidType);
    assert_eq!(decode(r#"{"quota":[[1]]}"#).unwrap_err(), DecodeError::InvalidType);
}

#[test]
fn list_fields_take_one_string_or_many() {
    for key in [
        "secrets", "emails", "memberOf", "members", "roles", "lists", "enabledPermissions",
        "disabledPermissions", "urls", "externalMembers",
    ] {
        let field = PrincipalField::try_parse(key).unwrap();
        let one = decode(&format!(r#"{{"{}":"a"}}"#, key)).unwrap();
        assert_eq!(one.get(field), Some(&strings(&["a"])));
        let many = decode(&format!(r#"{{"{}":["a","b","a"]}}"#, key)).unwrap();
        assert_eq!(many.get(field), Some(&strings(&["a", "b", "a"])));
        let none = decode(&format!(r#"{{"{}":[]}}"#, key)).unwrap();
        assert!(!none.has_field(field));
        assert_eq!(decode(&format!(r#"{{"{}":[1]}}"#, key)).unwrap_err(), DecodeError::InvalidType);
        assert_eq!(decode(&format!(r#"{{"{}":5}}"#, key)).unwrap_err(), DecodeError::InvalidType);
        assert_eq!(decode(&format!(r#"{{"{}":null}}"#, key)).unwrap_err(), DecodeError::InvalidType);
    }
}

#[test]
fn the_first_bad_entry_decides_the_error() {
    let entries = vec![
        WireEntry { key: "name".to_string(), value: WireValue::Str("a".to_string()) },
        WireEntry { key: "type".to_string(), value: WireValue::Str("nothing".to_string()) },
        WireEntry { key: "bogus".to_string(), value: WireValue::Null },
    ];
    assert_eq!(PrincipalSet::deserialize(&entries), Err(DecodeError::InvalidPrincipalType));
    let entries = vec![
        WireEntry { key: "bogus".to_string(), value: WireValue::Null },
        WireEntry { key: "type".to_string(), value: WireValue::Str("nothing".to_string()) },
    ];
    assert_eq!(
        PrincipalSet::deserialize(&entries),
        Err(DecodeError::InvalidField("bogus".to_string()))
    );
}

#[test]
fn of_two_entries_for_a_field_the_later_counts() {
    let entries = vec![
        WireEntry { key: "name".to_string(), value: WireValue::Str("a".to_string()) },
        WireEntry { key: "description".to_string(), value: WireValue::Str("d".to_string()) },
        WireEntry { key: "name".to_string(), value: WireValue::Str("b".to_string()) },
        WireEntry { key: "description".to_string(), value: WireValue::Null },
        WireEntry { key: "type".to_string(), value: WireValue::Str("role".to_string()) },
        WireEntry { key: "type".to_string(), value: WireValue::Str("list".to_string()) },
    ];
    let p = PrincipalSet::deserialize(&entries).unwrap();
    assert_eq!(p.name(), "b");
    assert_eq!(p.description(), Some("d"));
    assert_eq!(p.typ(), Type::List);
}

#[test]
fn serialize_writes_id_type_and_the_fields_that_are_set() {
    let p = PrincipalSet::new(9, Type::Domain)
        .with_field(PrincipalField::Quota, PrincipalValue::IntegerList(vec![1, 2]))
        .with_field(PrincipalField::Name, PrincipalValue::String("example.org".to_string()));
    assert_eq!(
        p.serialize(),
        vec![
            WireEntry { key: "id".to_string(), value: WireValue::U64(9) },
            WireEntry { key: "type".to_string(), value: WireValue::Str("domain".to_string()) },
            WireEntry { key: "name".to_string(), value: WireValue::Str("example.org".to_string()) },
            WireEntry {
                key: "quota".to_string(),
                value: WireValue::Array(vec![WireItem::U64(1), WireItem::U64(2)])
            },
        ]
    );
    assert_eq!(strings(&["a"]).to_wire(), WireValue::Array(vec![WireItem::Str("a".to_string())]));
    assert_eq!(PrincipalValue::Integer(3).to_wire(), WireValue::U64(3));
}

#[test]
fn accepted_principals_round_trip_but_for_the_id() {
    let p = PrincipalSet::new(31, Type::Individual)
        .with_field(PrincipalField::Name, PrincipalValue::String("jane".to_string()))
        .with_field(PrincipalField::Description, PrincipalValue::String("".to_string()))
        .with_field(PrincipalField::Quota, PrincipalValue::Integer(u64::MAX))
        .with_field(PrincipalField::Secrets, strings(&["s1", "s2"]))
        .with_field(PrincipalField::Emails, strings(&["jane@example.org"]))
        .with_field(PrincipalField::Locale, PrincipalValue::String("en".to_string()))
        .with_field(PrincipalField::ExternalMembers, strings(&["x"]));
    let back = PrincipalSet::deserialize(&p.serialize()).unwrap();
    assert_eq!(back.id(), 0);
    assert_eq!(back.typ(), p.typ());
    let mut expected = p.clone();
    expected.id = 0;
    assert_eq!(back, expected);
}

#[test]
fn items_are_read_one_by_one() {
    assert_eq!(
        StringOrU64::deserialize(&WireItem::Str("a".to_string())),
        Ok(StringOrU64::String("a".to_string()))
    );
    assert_eq!(StringOrU64::deserialize(&WireItem::U64(4)), Ok(StringOrU64::U64(4)));
    assert_eq!(StringOrU64::deserialize(&WireItem::Other), Err(DecodeError::InvalidType));
    assert_eq!(
        StringOrU64::deserialize(&WireItem::Str("a".repeat(513))),
        Err(DecodeError::StringTooLong)
    );
    assert_eq!(
        StringOrMany::deserialize(&WireValue::Str("a".to_string())),
        Ok(StringOrMany::One("a".to_string()))
    );
    assert_eq!(
        StringOrMany::deserialize(&WireValue::Array(vec![WireItem::Str("a".to_string())])),
        Ok(StringOrMany::Many(vec!["a".to_string()]))
    );
    assert_eq!(StringOrMany::deserialize(&WireValue::Array(vec![])), Ok(StringOrMany::Many(vec![])));
    assert_eq!(StringOrMany::deserialize(&WireValue::U64(1)), Err(DecodeError::InvalidType));
    assert_eq!(
        PrincipalValue::deserialize(&WireValue::Str("a".to_string())),
        Ok(PrincipalValue::String("a".to_string()))
    );
    assert_eq!(PrincipalValue::deserialize(&WireValue::Other), Err(DecodeError::InvalidType));
}
