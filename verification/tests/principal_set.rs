use mail_services::directory::field::PrincipalField;
use mail_services::directory::principal_set::PrincipalSet;
use mail_services::directory::types::Type;
use mail_services::directory::value::{PrincipalValue, U64_LEN};

fn s(v: &str) -> String {
    v.to_string()
}

fn list(items: &[&str]) -> PrincipalValue {
    PrincipalValue::StringList(items.iter().map(|i| i.to_string()).collect())
}

#[test]
fn new_principal_has_no_fields() {
    let p = PrincipalSet::new(7, Type::Group);
    assert_eq!(p.id(), 7);
    assert_eq!(p.typ(), Type::Group);
    assert_eq!(p.name(), "");
    assert!(!p.has_name());
    assert_eq!(p.quota(), 0);
    assert_eq!(p.tenant(), None);
    assert_eq!(p.description(), None);
    assert_eq!(p.field_len(PrincipalField::Emails), 0);
    assert_eq!(PrincipalSet::default(), PrincipalSet::new(0, Type::Individual));
}

#[test]
fn append_str_then_has_str_value() {
    let starts = vec![
        None,
        Some(PrincipalValue::String(s("a"))),
        Some(PrincipalValue::String(s("x"))),
        Some(list(&["a", "b"])),
        Some(list(&["x", "b"])),
        Some(list(&[])),
        Some(PrincipalValue::Integer(5)),
        Some(PrincipalValue::IntegerList(vec![1, 2])),
    ];
    for start in starts {
        let mut p = PrincipalSet::new(1, Type::Individual).with_opt_field(PrincipalField::Emails, start);
        p.append_str(PrincipalField::Emails, s("x"));
        assert!(p.has_str_value(PrincipalField::Emails, "x"));
        assert!(p.has_field(PrincipalField::Emails));
    }
}

#[test]
fn append_str_promotion_rules() {
    let key = PrincipalField::Emails;
    let mut p = PrincipalSet::new(1, Type::Individual);
    p.append_str(key, s("a"));
    assert_eq!(p.get(key), Some(&list(&["a"])));
    p.append_str(key, s("a"));
    assert_eq!(p.get(key), Some(&list(&["a"])));
    p.append_str(key, s("b")).append_str(key, s("c"));
    assert_eq!(p.get(key), Some(&list(&["a", "b", "c"])));

    p.set(key, PrincipalValue::String(s("solo")));
    p.append_str(key, s("solo"));
    assert_eq!(p.get(key), Some(&PrincipalValue::String(s("solo"))));
    p.append_str(key, s("duo"));
    assert_eq!(p.get(key), Some(&list(&["solo", "duo"])));

    p.set(key, PrincipalValue::Integer(42));
    p.append_str(key, s("x"));
    assert_eq!(p.get(key), Some(&list(&["42", "x"])));

    p.set(key, PrincipalValue::IntegerList(vec![0, 18446744073709551615, 1000]));
    p.append_str(key, s("x"));
    assert_eq!(p.get(key), Some(&list(&["0", "18446744073709551615", "1000", "x"])));
}

#[test]
fn prepend_str_promotion_rules() {
    let key = PrincipalField::Secrets;
    let mut p = PrincipalSet::new(1, Type::Individual);
    p.prepend_str(key, s("a"));
    assert_eq!(p.get(key), Some(&list(&["a"])));
    p.prepend_str(key, s("b"));
    assert_eq!(p.get(key), Some(&list(&["b", "a"])));
    p.prepend_str(key, s("a"));
    assert_eq!(p.get(key), Some(&list(&["b", "a"])));

    p.set(key, PrincipalValue::String(s("solo")));
    p.prepend_str(key, s("solo"));
    assert_eq!(p.get(key), Some(&PrincipalValue::String(s("solo"))));
    p.prepend_str(key, s("first"));
    assert_eq!(p.get(key), Some(&list(&["first", "solo"])));

    p.set(key, PrincipalValue::Integer(7));
    p.prepend_str(key, s("x"));
    assert_eq!(p.get(key), Some(&list(&["x", "7"])));

    p.set(key, PrincipalValue::IntegerList(vec![1, 20]));
    p.prepend_str(key, s("x"));
    assert_eq!(p.get(key), Some(&list(&["x", "1", "20"])));
}

#[test]
fn append_int_promotion_rules() {
    let key = PrincipalField::Quota;
    let mut p = PrincipalSet::new(1, Type::Individual);
    p.append_int(key, 5);
    assert_eq!(p.get(key), Some(&PrincipalValue::IntegerList(vec![5])));
    p.append_int(key, 5).append_int(key, 6);
    assert_eq!(p.get(key), Some(&PrincipalValue::IntegerList(vec![5, 6])));
    assert!(p.has_int_value(key, 6));
    assert!(!p.has_int_value(key, 7));

    p.set(key, PrincipalValue::Integer(9));
    p.append_int(key, 9);
    assert_eq!(p.get(key), Some(&PrincipalValue::Integer(9)));
    p.append_int(key, 10);
    assert_eq!(p.get(key), Some(&PrincipalValue::IntegerList(vec![9, 10])));

    p.set(key, PrincipalValue::String(s("12")));
    p.append_int(key, 1);
    assert_eq!(p.get(key), Some(&PrincipalValue::IntegerList(vec![12, 1])));

    p.set(key, list(&["+7", "nope", "", "18446744073709551616", "007", "-1", "1 "]));
    p.append_int(key, 3);
    assert_eq!(p.get(key), Some(&PrincipalValue::IntegerList(vec![7, 0, 0, 0, 7, 0, 0, 3])));
}

#[test]
fn retain_with_a_test_that_accepts_nothing_removes_the_field() {
    let mut p = PrincipalSet::new(1, Type::Individual)
        .with_field(PrincipalField::Name, PrincipalValue::String(s("n")))
        .with_field(PrincipalField::Emails, list(&["a", "b"]))
        .with_field(PrincipalField::Quota, PrincipalValue::Integer(1))
        .with_field(PrincipalField::Roles, PrincipalValue::IntegerList(vec![1, 2]));
    p.retain_str(PrincipalField::Name, |_| false);
    p.retain_str(PrincipalField::Emails, |_| false);
    p.retain_str(PrincipalField::Description, |_| false);
    p.retain_int(PrincipalField::Quota, |_| false);
    p.retain_int(PrincipalField::Roles, |_| false);
    assert!(!p.has_field(PrincipalField::Name));
    assert!(!p.has_field(PrincipalField::Emails));
    assert!(!p.has_field(PrincipalField::Description));
    assert!(!p.has_field(PrincipalField::Quota));
    assert!(!p.has_field(PrincipalField::Roles));
}

#[test]
fn retain_removes_a_field_of_the_other_shape() {
    let full = || {
        PrincipalSet::new(1, Type::Individual)
            .with_field(PrincipalField::Quota, PrincipalValue::Integer(5))
            .with_field(PrincipalField::Roles, PrincipalValue::IntegerList(vec![1, 2]))
            .with_field(PrincipalField::Name, PrincipalValue::String(s("n")))
            .with_field(PrincipalField::Emails, list(&["a"]))
    };
    // A field of integers has no string to keep, whatever the test says.
    let mut p = full();
    p.retain_str(PrincipalField::Quota, |_| false);
    p.retain_str(PrincipalField::Roles, |_| true);
    assert!(!p.has_field(PrincipalField::Quota));
    assert!(!p.has_field(PrincipalField::Roles));
    assert_eq!(p.get(PrincipalField::Name), Some(&PrincipalValue::String(s("n"))));
    assert_eq!(p.get(PrincipalField::Emails), Some(&list(&["a"])));
    // And a field of strings has no integer to keep.
    let mut p = full();
    p.retain_int(PrincipalField::Name, |_| false);
    p.retain_int(PrincipalField::Emails, |_| true);
    assert!(!p.has_field(PrincipalField::Name));
    assert!(!p.has_field(PrincipalField::Emails));
    assert_eq!(p.get(PrincipalField::Quota), Some(&PrincipalValue::Integer(5)));
    assert_eq!(p.get(PrincipalField::Roles), Some(&PrincipalValue::IntegerList(vec![1, 2])));
}

#[test]
fn retain_with_a_test_that_accepts_nothing_leaves_no_field_of_any_shape() {
    let shapes = vec![
        None,
        Some(PrincipalValue::String(s("a"))),
        Some(list(&["a", "b"])),
        Some(list(&[])),
        Some(PrincipalValue::Integer(5)),
        Some(PrincipalValue::IntegerList(vec![1, 2])),
        Some(PrincipalValue::IntegerList(vec![])),
    ];
    for shape in shapes {
        let start = PrincipalSet::new(1, Type::Individual)
            .with_field(PrincipalField::Name, PrincipalValue::String(s("kept")))
            .with_opt_field(PrincipalField::Urls, shape);
        let mut by_str = start.clone();
        by_str.retain_str(PrincipalField::Urls, |_| false);
        let mut by_int = start.clone();
        by_int.retain_int(PrincipalField::Urls, |_| false);
        for p in [by_str, by_int] {
            assert!(!p.has_field(PrincipalField::Urls));
            assert_eq!(p.name(), "kept");
            assert_eq!(p.id(), 1);
        }
    }
}

#[test]
fn retain_keeps_what_the_test_accepts_in_order() {
    let mut p = PrincipalSet::new(1, Type::Individual)
        .with_field(PrincipalField::Emails, list(&["a@x", "b@y", "c@x", "d@y"]))
        .with_field(PrincipalField::Roles, PrincipalValue::IntegerList(vec![1, 2, 3, 4, 5]))
        .with_field(PrincipalField::Name, PrincipalValue::String(s("keep")));
    p.retain_str(PrincipalField::Emails, |e| e.ends_with("@y"));
    p.retain_int(PrincipalField::Roles, |r| r % 2 == 1);
    p.retain_str(PrincipalField::Name, |n| n == "keep");
    assert_eq!(p.get(PrincipalField::Emails), Some(&list(&["b@y", "d@y"])));
    assert_eq!(p.get(PrincipalField::Roles), Some(&PrincipalValue::IntegerList(vec![1, 3, 5])));
    assert_eq!(p.name(), "keep");
}

#[test]
fn getters_read_the_first_item() {
    let p = PrincipalSet::new(1, Type::Individual)
        .with_field(PrincipalField::Name, PrincipalValue::String(s("jane")))
        .with_field(PrincipalField::Description, list(&["first", "second"]))
        .with_field(PrincipalField::Quota, PrincipalValue::IntegerList(vec![10, 20]))
        .with_field(PrincipalField::Emails, list(&[]));
    assert_eq!(p.name(), "jane");
    assert!(p.has_name());
    assert_eq!(p.description(), Some("first"));
    assert_eq!(p.quota(), 10);
    assert_eq!(p.get_str(PrincipalField::Quota), None);
    assert_eq!(p.get_int(PrincipalField::Name), None);
    assert_eq!(p.get_str(PrincipalField::Emails), None);
    assert_eq!(p.get_str_array(PrincipalField::Name), Some(&[s("jane")][..]));
    assert_eq!(p.get_str_array(PrincipalField::Description), Some(&[s("first"), s("second")][..]));
    assert_eq!(p.get_str_array(PrincipalField::Quota), None);
    assert_eq!(p.get_str_array(PrincipalField::Urls), None);
    assert_eq!(p.get_int_array(PrincipalField::Quota), Some(&[10u64, 20][..]));
    assert_eq!(p.get_int_array(PrincipalField::Name), None);
    assert_eq!(p.field_len(PrincipalField::Description), 2);
    assert_eq!(p.field_len(PrincipalField::Name), 1);
    assert_eq!(p.field_len(PrincipalField::Emails), 0);
    assert_eq!(p.iter_str(PrincipalField::Description), vec![&s("first"), &s("second")]);
    assert_eq!(p.iter_str(PrincipalField::Quota), Vec::<&String>::new());
    assert_eq!(p.iter_int(PrincipalField::Quota), vec![10, 20]);
    assert_eq!(p.iter_int(PrincipalField::Urls), Vec::<u64>::new());
}

#[test]
fn take_converts_between_strings_and_integers() {
    let full = || {
        PrincipalSet::new(1, Type::Individual)
            .with_field(PrincipalField::Name, PrincipalValue::String(s("15")))
            .with_field(PrincipalField::Emails, list(&["x7", "8"]))
            .with_field(PrincipalField::Quota, PrincipalValue::Integer(99))
            .with_field(PrincipalField::Roles, PrincipalValue::IntegerList(vec![3, 4]))
            .with_field(PrincipalField::Lists, PrincipalValue::IntegerList(vec![]))
    };
    let mut p = full();
    assert_eq!(p.take_str(PrincipalField::Name), Some(s("15")));
    assert!(!p.has_field(PrincipalField::Name));
    assert_eq!(p.take_str(PrincipalField::Name), None);
    assert_eq!(p.take_str(PrincipalField::Emails), Some(s("x7")));
    assert_eq!(p.take_str(PrincipalField::Quota), Some(s("99")));
    assert_eq!(p.take_str(PrincipalField::Roles), Some(s("3")));
    assert_eq!(p.take_str(PrincipalField::Lists), None);
    assert!(!p.has_field(PrincipalField::Lists));

    let mut p = full();
    assert_eq!(p.take_int(PrincipalField::Name), Some(15));
    assert_eq!(p.take_int(PrincipalField::Emails), None);
    assert_eq!(p.take_int(PrincipalField::Quota), Some(99));
    assert_eq!(p.take_int(PrincipalField::Roles), Some(3));
    assert_eq!(p.take_int(PrincipalField::Lists), None);
    assert_eq!(p.take_int(PrincipalField::Urls), None);

    let mut p = full();
    assert_eq!(p.take_str_array(PrincipalField::Roles), Some(vec![s("3"), s("4")]));
    assert_eq!(p.take_str_array(PrincipalField::Quota), Some(vec![s("99")]));
    assert_eq!(p.take_str_array(PrincipalField::Emails), Some(vec![s("x7"), s("8")]));
    assert_eq!(p.take_str_array(PrincipalField::Urls), None);
    assert_eq!(p.take_int_array(PrincipalField::Name), Some(vec![15]));
    assert_eq!(p.take_int_array(PrincipalField::Lists), Some(vec![]));

    let mut p = full();
    assert_eq!(p.take_int_array(PrincipalField::Emails), Some(vec![0, 8]));
    assert_eq!(p.take(PrincipalField::Quota), Some(PrincipalValue::Integer(99)));
    assert_eq!(p.remove(PrincipalField::Quota), None);
    assert_eq!(p.remove(PrincipalField::Roles), Some(PrincipalValue::IntegerList(vec![3, 4])));
}

#[test]
fn find_str_looks_into_lowercased_strings() {
    let p = PrincipalSet::new(1, Type::Individual)
        .with_field(PrincipalField::Name, PrincipalValue::String(s("Jane DOE")))
        .with_field(PrincipalField::Emails, list(&["Jane@Example.ORG", "jd@example.org"]))
        .with_field(PrincipalField::Quota, PrincipalValue::Integer(123));
    assert!(p.find_str("jane doe"));
    assert!(p.find_str("e d"));
    assert!(p.find_str("@example.org"));
    assert!(p.find_str(""));
    assert!(!p.find_str("Jane"));
    assert!(!p.find_str("123"));
    assert!(!p.find_str("john"));
    assert!(!PrincipalSet::new(1, Type::Individual).find_str(""));
    assert!(PrincipalValue::String(s("ÀB")).find_str("àb"));
    assert!(!PrincipalValue::Integer(1).find_str("1"));
}

#[test]
fn items_can_be_changed_in_place() {
    let mut p = PrincipalSet::new(1, Type::Individual)
        .with_field(PrincipalField::Emails, list(&["A@x", "b@x"]))
        .with_field(PrincipalField::Name, PrincipalValue::String(s("N")))
        .with_field(PrincipalField::Roles, PrincipalValue::IntegerList(vec![1, 2]));
    *p.iter_mut_str(PrincipalField::Emails, 0).unwrap() = s("a@x");
    *p.iter_mut_str(PrincipalField::Name, 0).unwrap() = s("n");
    *p.iter_mut_int(PrincipalField::Roles, 1).unwrap() += 40;
    assert!(p.iter_mut_str(PrincipalField::Emails, 2).is_none());
    assert!(p.iter_mut_str(PrincipalField::Name, 1).is_none());
    assert!(p.iter_mut_str(PrincipalField::Roles, 0).is_none());
    assert!(p.iter_mut_str(PrincipalField::Urls, 0).is_none());
    assert!(p.iter_mut_int(PrincipalField::Emails, 0).is_none());
    assert_eq!(p.get(PrincipalField::Emails), Some(&list(&["a@x", "b@x"])));
    assert_eq!(p.name(), "n");
    assert_eq!(p.get(PrincipalField::Roles), Some(&PrincipalValue::IntegerList(vec![1, 42])));
    assert!(!p.has_field(PrincipalField::Urls));
}

#[test]
fn values_convert_to_arrays() {
    assert_eq!(PrincipalValue::String(s("a")).into_array(), list(&["a"]));
    assert_eq!(PrincipalValue::Integer(3).into_array(), PrincipalValue::IntegerList(vec![3]));
    assert_eq!(list(&["a", "b"]).into_array(), list(&["a", "b"]));
    assert_eq!(PrincipalValue::Integer(0).into_str_array(), vec![s("0")]);
    assert_eq!(PrincipalValue::Integer(1234567890).into_str_array(), vec![s("1234567890")]);
    assert_eq!(
        PrincipalValue::IntegerList(vec![10, 205]).into_str_array(),
        vec![s("10"), s("205")]
    );
    assert_eq!(PrincipalValue::String(s("77")).into_int_array(), vec![77]);
    assert_eq!(PrincipalValue::String(s("+")).into_int_array(), vec![0]);
    assert_eq!(list(&["1", "b", "18446744073709551615"]).into_int_array(), vec![1, 0, u64::MAX]);
    assert_eq!(PrincipalValue::Integer(5).as_int(), Some(5));
    assert_eq!(PrincipalValue::IntegerList(vec![]).as_int(), None);
    assert_eq!(list(&["x", "y"]).as_str(), Some("x"));
    assert_eq!(list(&[]).as_str(), None);
    assert_eq!(PrincipalValue::Integer(5).as_str(), None);
    assert_eq!(list(&["x", "y"]).len(), 2);
}

#[test]
fn values_are_made_from_plain_values() {
    assert_eq!(PrincipalValue::from(7u64), PrincipalValue::Integer(7));
    assert_eq!(PrincipalValue::from(7u32), PrincipalValue::Integer(7));
    assert_eq!(PrincipalValue::from(s("a")), PrincipalValue::String(s("a")));
    assert_eq!(PrincipalValue::from(vec![s("a")]), list(&["a"]));
    assert_eq!(PrincipalValue::from(vec![1u64, 2]), PrincipalValue::IntegerList(vec![1, 2]));
    assert_eq!(PrincipalValue::from_str("a"), PrincipalValue::String(s("a")));
    assert_eq!(PrincipalValue::from_u32_list(vec![1, 2]), PrincipalValue::IntegerList(vec![1, 2]));
    assert_eq!(list(&["a"]).clone(), list(&["a"]));
    assert_ne!(list(&["a"]), PrincipalValue::String(s("a")));
}

#[test]
fn serialized_size_counts_length_prefixes() {
    assert_eq!(U64_LEN, 8);
    assert_eq!(PrincipalValue::String(s("abc")).serialized_size(), 5);
    assert_eq!(PrincipalValue::String(s("é")).serialized_size(), 4);
    assert_eq!(list(&["a", "bcd", ""]).serialized_size(), 3 + 5 + 2);
    assert_eq!(list(&[]).serialized_size(), 0);
    assert_eq!(PrincipalValue::Integer(0).serialized_size(), 8);
    assert_eq!(PrincipalValue::IntegerList(vec![1, 2, 3]).serialized_size(), 24);
}

#[test]
fn value_items_in_place() {
    let mut v = list(&["a", "b"]);
    v.iter_mut_str(1).unwrap().push('!');
    assert_eq!(v, list(&["a", "b!"]));
    assert!(v.iter_mut_int(0).is_none());
    assert_eq!(v.iter_str(), vec![&s("a"), &s("b!")]);
    let mut i = PrincipalValue::Integer(1);
    *i.iter_mut_int(0).unwrap() = 2;
    assert_eq!(i.iter_int(), vec![2]);
    assert!(i.iter_mut_int(1).is_none());
    assert!(i.has_int_value(2));
    assert!(v.has_str_value("a"));
    assert!(!v.has_str_value("b"));
}

#[test]
fn numbers_round_trip_through_strings() {
    for v in [0u64, 1, 9, 10, 11, 99, 100, 12345, 4294967295, 4294967296, u64::MAX - 1, u64::MAX] {
        let text = PrincipalValue::Integer(v).into_str_array();
        assert_eq!(text, vec![v.to_string()]);
        assert_eq!(PrincipalValue::StringList(text).into_int_array(), vec![v]);
    }
    let parse = |text: &str| PrincipalValue::String(s(text)).into_int_array()[0];
    assert_eq!(parse("18446744073709551615"), u64::MAX);
    assert_eq!(parse("18446744073709551616"), 0);
    assert_eq!(parse("99999999999999999999999999"), 0);
    assert_eq!(parse("+18446744073709551615"), u64::MAX);
    assert_eq!(parse("0000000000000000000000000000018"), 18);
    assert_eq!(parse("+0"), 0);
    assert_eq!(parse("++1"), 0);
    assert_eq!(parse("1+"), 0);
    assert_eq!(parse("١٢"), 0);
    assert_eq!(parse("12é"), 0);
    assert_eq!(parse(" 12"), 0);
    assert_eq!(parse("1_000"), 0);
    assert_eq!(parse("0x10"), 0);
}

#[test]
fn every_value_has_one_of_four_shapes() {
    let p = PrincipalSet::new(1, Type::Individual)
        .with_field(PrincipalField::Name, PrincipalValue::String(s("n")))
        .with_field(PrincipalField::Emails, list(&["a"]))
        .with_field(PrincipalField::Quota, PrincipalValue::Integer(1))
        .with_field(PrincipalField::Roles, PrincipalValue::IntegerList(vec![1]));
    for id in 0..18 {
        let field = PrincipalField::from_id(id).unwrap();
        if let Some(value) = p.get(field) {
            let shapes = [
                matches!(value, PrincipalValue::String(_)),
                matches!(value, PrincipalValue::StringList(_)),
                matches!(value, PrincipalValue::Integer(_)),
                matches!(value, PrincipalValue::IntegerList(_)),
            ];
            assert_eq!(shapes.iter().filter(|is| **is).count(), 1);
        }
    }
}
