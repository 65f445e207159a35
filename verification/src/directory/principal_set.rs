//! A principal as the directory interface sees it: an id, a type, and a
//! value for each field that is set.
use std::collections::HashMap;
use std::collections::hash_map::Entry;
use vstd::prelude::*;
use super::field::{PrincipalField, FIELD_COUNT};
use super::types::Type;
use super::value::{
    PrincipalValue,
    ValueView,
    decimals,
    ints_to_strings,
    parsed,
    strings_to_ints,
};
use crate::text::{
    decimal,
    lemma_strs_push,
    parse_or_zero,
    parse_u64,
    str_eq,
    str_refs,
    strs,
    u64_to_string,
};

verus! {

/// A principal as a set of fields.
#[derive(Debug, Clone, PartialEq, Eq)]
pub struct PrincipalSet {
    pub id: u32,
    pub typ: Type,
    fields: HashMap<u8, PrincipalValue>,
}

/// A `PrincipalSet` as a mathematical value.
#[verifier::ext_equal]
pub struct PrincipalSetView {
    pub id: u32,
    pub typ: Type,
    pub fields: Map<PrincipalField, ValueView>,
}

/// `core::slice::from_ref` gives a slice of length one that holds the
/// referenced value.
pub assume_specification<T>[ core::slice::from_ref::<T> ](s: &T) -> (r: &[T])
    ensures
        r@ == seq![*s],
;

/// The value of a field after a string is appended to it.
///
/// A list of strings takes the string at its end unless it holds it
/// already. A single string that differs becomes a list of the two. An
/// integer or a list of integers becomes a list of strings: the numbers in
/// decimal digits, then the string. A field that is not set becomes a list
/// of the one string.
pub open spec fn append_str_to(current: Option<ValueView>, s: Seq<char>) -> ValueView {
    match current {
        Some(ValueView::StringList(l)) => if l.contains(s) {
            ValueView::StringList(l)
        } else {
            ValueView::StringList(l.push(s))
        },
        Some(ValueView::String(x)) => if x == s {
            ValueView::String(x)
        } else {
            ValueView::StringList(seq![x, s])
        },
        Some(ValueView::Integer(i)) => ValueView::StringList(seq![decimal(i as nat), s]),
        Some(ValueView::IntegerList(l)) => ValueView::StringList(decimals(l).push(s)),
        None => ValueView::StringList(seq![s]),
    }
}

/// The value of a field after a string is put in front of it, by the rules
/// of `append_str_to`.
pub open spec fn prepend_str_to(current: Option<ValueView>, s: Seq<char>) -> ValueView {
    match current {
        Some(ValueView::StringList(l)) => if l.contains(s) {
            ValueView::StringList(l)
        } else {
            ValueView::StringList(seq![s] + l)
        },
        Some(ValueView::String(x)) => if x == s {
            ValueView::String(x)
        } else {
            ValueView::StringList(seq![s, x])
        },
        Some(ValueView::Integer(i)) => ValueView::StringList(seq![s, decimal(i as nat)]),
        Some(ValueView::IntegerList(l)) => ValueView::StringList(seq![s] + decimals(l)),
        None => ValueView::StringList(seq![s]),
    }
}

/// The value of a field after an integer is appended to it.
///
/// A list of integers takes the integer at its end unless it holds it
/// already. A single integer that differs becomes a list of the two. A
/// string or a list of strings becomes a list of integers: the number that
/// each string stands for, or zero, then the integer. A field that is not
/// set becomes a list of the one integer.
pub open spec fn append_int_to(current: Option<ValueView>, v: u64) -> ValueView {
    match current {
        Some(ValueView::IntegerList(l)) => if l.contains(v) {
            ValueView::IntegerList(l)
        } else {
            ValueView::IntegerList(l.push(v))
        },
        Some(ValueView::Integer(i)) => if i == v {
            ValueView::Integer(i)
        } else {
            ValueView::IntegerList(seq![i, v])
        },
        Some(ValueView::String(s)) => ValueView::IntegerList(seq![parse_or_zero(s), v]),
        Some(ValueView::StringList(l)) => ValueView::IntegerList(parsed(l).push(v)),
        None => ValueView::IntegerList(seq![v]),
    }
}

/// The items of `l` whose mark in `keep` is set, in their order.
pub open spec fn retained<E>(l: Seq<E>, keep: Seq<bool>) -> Seq<E>
    decreases l.len(),
{
    if l.len() == 0 || keep.len() != l.len() {
        Seq::empty()
    } else if keep.last() {
        retained(l.drop_last(), keep.drop_last()).push(l.last())
    } else {
        retained(l.drop_last(), keep.drop_last())
    }
}

/// The fields after the items of a list were sifted: the field holds what
/// was kept, and is gone if nothing was.
pub open spec fn after_retain(
    before: Map<PrincipalField, ValueView>,
    key: PrincipalField,
    kept: ValueView,
) -> Map<PrincipalField, ValueView> {
    if kept.item_count() == 0 {
        before.remove(key)
    } else {
        before.insert(key, kept)
    }
}

/// What `retain_str` does to the fields `before`, with the test `f`: a
/// single string stays if `f` accepts it, and the field is removed if not;
/// a list of strings keeps the strings that `f` accepts, and the field is
/// removed if none is left; a field that holds integers holds no string
/// and is removed, and `f` is not asked; a field that is not set stays
/// unset. The other fields stay as they are.
pub open spec fn retain_str_relation<F: Fn(&String) -> bool>(
    before: Map<PrincipalField, ValueView>,
    key: PrincipalField,
    f: F,
    after: Map<PrincipalField, ValueView>,
) -> bool {
    match before.get(key) {
        Some(ValueView::String(s)) => exists|x: String, keep: bool|
            x@ == s && #[trigger] call_ensures(f, (&x,), keep) && after == (if keep {
                before
            } else {
                before.remove(key)
            }),
        Some(ValueView::StringList(l)) => exists|xs: Seq<String>, keep: Seq<bool>|
            {
                &&& strs(xs) == l
                &&& keep.len() == xs.len()
                &&& forall|i: int|
                    0 <= i < xs.len() ==> call_ensures(f, (&#[trigger] xs[i],), keep[i])
                &&& after == #[trigger] after_retain(
                    before,
                    key,
                    ValueView::StringList(retained(strs(xs), keep)),
                )
            },
        Some(ValueView::Integer(_)) => after == before.remove(key),
        Some(ValueView::IntegerList(_)) => after == before.remove(key),
        None => after == before,
    }
}

/// What `retain_int` does to the fields `before`, with the test `f`: as
/// `retain_str_relation`, for integers. A field that holds strings holds no
/// integer and is removed.
pub open spec fn retain_int_relation<F: Fn(&u64) -> bool>(
    before: Map<PrincipalField, ValueView>,
    key: PrincipalField,
    f: F,
    after: Map<PrincipalField, ValueView>,
) -> bool {
    match before.get(key) {
        Some(ValueView::Integer(i)) => exists|x: u64, keep: bool|
            x == i && #[trigger] call_ensures(f, (&x,), keep) && after == (if keep {
                before
            } else {
                before.remove(key)
            }),
        Some(ValueView::IntegerList(l)) => exists|xs: Seq<u64>, keep: Seq<bool>|
            {
                &&& xs == l
                &&& keep.len() == xs.len()
                &&& forall|i: int|
                    0 <= i < xs.len() ==> call_ensures(f, (&#[trigger] xs[i],), keep[i])
                &&& after == #[trigger] after_retain(
                    before,
                    key,
                    ValueView::IntegerList(retained(xs, keep)),
                )
            },
        Some(ValueView::String(_)) => after == before.remove(key),
        Some(ValueView::StringList(_)) => after == before.remove(key),
        None => after == before,
    }
}

/// Whether a list holds a string.
pub fn strings_contain(l: &Vec<String>, s: &str) -> (found: bool)
    ensures
        found == strs(l@).contains(s@),
{
    let mut i: usize = 0;
    while i < l.len()
        invariant
            i <= l@.len(),
            forall|k: int| 0 <= k < i ==> strs(l@)[k] != s@,
        decreases l@.len() - i,
    {
        if str_eq(l[i].as_str(), s) {
            assert(strs(l@)[i as int] == s@);
            return true;
        }
        i += 1;
    }
    false
}

/// Whether a list holds an integer.
pub fn ints_contain(l: &Vec<u64>, v: u64) -> (found: bool)
    ensures
        found == l@.contains(v),
{
    let mut i: usize = 0;
    while i < l.len()
        invariant
            i <= l@.len(),
            forall|k: int| 0 <= k < i ==> l@[k] != v,
        decreases l@.len() - i,
    {
        if l[i] == v {
            assert(l@[i as int] == v);
            return true;
        }
        i += 1;
    }
    false
}

proof fn lemma_retained_push<E>(l: Seq<E>, keep: Seq<bool>, x: E, k: bool)
    requires
        l.len() == keep.len(),
    ensures
        retained(l.push(x), keep.push(k)) == if k {
            retained(l, keep).push(x)
        } else {
            retained(l, keep)
        },
{
    assert(l.push(x).drop_last() =~= l);
    assert(keep.push(k).drop_last() =~= keep);
}

/// The strings of `l` that `f` accepts, in their order.
fn retain_strings<F: Fn(&String) -> bool>(l: Vec<String>, f: &F) -> (r: (Vec<String>, Ghost<Seq<bool>>))
    requires
        forall|x: &String| call_requires(*f, (x,)),
    ensures
        r.1@.len() == l@.len(),
        forall|i: int| 0 <= i < l@.len() ==> call_ensures(*f, (&#[trigger] l@[i],), r.1@[i]),
        strs(r.0@) == retained(strs(l@), r.1@),
{
    let mut l = l;
    let ghost all = l@;
    let mut kept: Vec<String> = Vec::new();
    let ghost mut keep: Seq<bool> = Seq::empty();
    let mut i: usize = 0;
    assert(strs(all).take(0) =~= Seq::<Seq<char>>::empty());
    assert(strs(kept@) =~= Seq::<Seq<char>>::empty());
    while i < l.len()
        invariant
            i <= l@.len(),
            l@.len() == all.len(),
            forall|k: int| i <= k < all.len() ==> l@[k] == all[k],
            keep.len() == i,
            forall|k: int| 0 <= k < i ==> call_ensures(*f, (&#[trigger] all[k],), keep[k]),
            strs(kept@) == retained(strs(all).take(i as int), keep),
            forall|x: &String| call_requires(*f, (x,)),
        decreases l@.len() - i,
    {
        let ok = f(&l[i]);
        proof {
            assert(strs(all).take(i as int + 1) =~= strs(all).take(i as int).push(all[i as int]@));
            lemma_retained_push(strs(all).take(i as int), keep, all[i as int]@, ok);
            keep = keep.push(ok);
        }
        if ok {
            let mut s = String::new();
            core::mem::swap(&mut l[i], &mut s);
            proof {
                lemma_strs_push(kept@, s);
            }
            kept.push(s);
        }
        i += 1;
    }
    assert(strs(all).take(i as int) =~= strs(all));
    (kept, Ghost(keep))
}

/// The integers of `l` that `f` accepts, in their order.
fn retain_ints<F: Fn(&u64) -> bool>(l: Vec<u64>, f: &F) -> (r: (Vec<u64>, Ghost<Seq<bool>>))
    requires
        forall|x: &u64| call_requires(*f, (x,)),
    ensures
        r.1@.len() == l@.len(),
        forall|i: int| 0 <= i < l@.len() ==> call_ensures(*f, (&#[trigger] l@[i],), r.1@[i]),
        r.0@ == retained(l@, r.1@),
{
    let mut kept: Vec<u64> = Vec::new();
    let ghost mut keep: Seq<bool> = Seq::empty();
    let mut i: usize = 0;
    assert(l@.take(0) =~= Seq::<u64>::empty());
    while i < l.len()
        invariant
            i <= l@.len(),
            keep.len() == i,
            forall|k: int| 0 <= k < i ==> call_ensures(*f, (&#[trigger] l@[k],), keep[k]),
            kept@ == retained(l@.take(i as int), keep),
            forall|x: &u64| call_requires(*f, (x,)),
        decreases l@.len() - i,
    {
        let ok = f(&l[i]);
        proof {
            assert(l@.take(i as int + 1) =~= l@.take(i as int).push(l@[i as int]));
            lemma_retained_push(l@.take(i as int), keep, l@[i as int], ok);
            keep = keep.push(ok);
        }
        if ok {
            kept.push(l[i]);
        }
        i += 1;
    }
    assert(l@.take(i as int) =~= l@);
    (kept, Ghost(keep))
}

impl PrincipalSetView {
    /// The value of a field as a string: the first string of the field.
    pub open spec fn str_of(self, key: PrincipalField) -> Option<Seq<char>> {
        match self.fields.get(key) {
            Some(v) => v.first_str(),
            None => None,
        }
    }

    /// The value of a field as an integer: the first integer of the field.
    pub open spec fn int_of(self, key: PrincipalField) -> Option<u64> {
        match self.fields.get(key) {
            Some(v) => v.first_int(),
            None => None,
        }
    }

    /// The strings of a field, none if it is not set or holds integers.
    pub open spec fn strs_of(self, key: PrincipalField) -> Seq<Seq<char>> {
        match self.fields.get(key) {
            Some(v) => v.str_items(),
            None => Seq::empty(),
        }
    }

    /// The integers of a field, none if it is not set or holds strings.
    pub open spec fn ints_of(self, key: PrincipalField) -> Seq<u64> {
        match self.fields.get(key) {
            Some(v) => v.int_items(),
            None => Seq::empty(),
        }
    }

    /// Whether a field holds the string `s`.
    pub open spec fn has_str(self, key: PrincipalField, s: Seq<char>) -> bool {
        self.fields.contains_key(key) && self.fields[key].has_str(s)
    }

    /// Whether a field holds the integer `v`.
    pub open spec fn has_int(self, key: PrincipalField, v: u64) -> bool {
        self.fields.contains_key(key) && self.fields[key].has_int(v)
    }

    /// Whether `needle` occurs in the lowercase form of a string of some
    /// field.
    pub open spec fn finds(self, needle: Seq<char>) -> bool {
        exists|key: PrincipalField| #[trigger]
            self.fields.contains_key(key) && self.fields[key].finds(needle)
    }

    /// The same principal with other fields.
    pub open spec fn with_fields(self, fields: Map<PrincipalField, ValueView>) -> PrincipalSetView {
        PrincipalSetView { id: self.id, typ: self.typ, fields }
    }
}

impl View for PrincipalSet {
    type V = PrincipalSetView;

    closed spec fn view(&self) -> PrincipalSetView {
        PrincipalSetView {
            id: self.id,
            typ: self.typ,
            fields: Map::new(
                |f: PrincipalField| self.fields@.contains_key(f.spec_id()),
                |f: PrincipalField| self.fields@[f.spec_id()]@,
            ),
        }
    }
}

impl Default for PrincipalSet {
    fn default() -> (p: Self)
        ensures
            p@ == (PrincipalSetView { id: 0, typ: Type::Individual, fields: Map::empty() }),
    {
        PrincipalSet::new(0, Type::Individual)
    }
}

impl PrincipalSet {
    /// A principal without fields.
    pub fn new(id: u32, typ: Type) -> (p: Self)
        ensures
            p@ == (PrincipalSetView { id, typ, fields: Map::empty() }),
    {
        let p = PrincipalSet { id, typ, fields: HashMap::new() };
        assert(p@.fields =~= Map::empty());
        p
    }

    /// The value of a field, if the field is set.
    pub fn get(&self, key: PrincipalField) -> (value: Option<&PrincipalValue>)
        ensures
            match value {
                Some(v) => self@.fields.contains_key(key) && self@.fields[key] == v@,
                None => !self@.fields.contains_key(key),
            },
    {
        let id = key.id();
        self.fields.get(&id)
    }

    /// Sets a field, in place of the value it had.
    pub fn set(&mut self, key: PrincipalField, value: PrincipalValue) -> (r: &mut Self)
        ensures
            r@ == old(self)@.with_fields(old(self)@.fields.insert(key, value@)),
            *final(self) == *final(r),
    {
        self.fields.insert(key.id(), value);
        assert(self@.fields =~= old(self)@.fields.insert(key, value@));
        self
    }

    /// Takes a field out.
    pub fn take(&mut self, key: PrincipalField) -> (value: Option<PrincipalValue>)
        ensures
            final(self)@ == old(self)@.with_fields(old(self)@.fields.remove(key)),
            match value {
                Some(v) => old(self)@.fields.contains_key(key) && old(self)@.fields[key] == v@,
                None => !old(self)@.fields.contains_key(key),
            },
    {
        let id = key.id();
        let value = self.fields.remove(&id);
        assert(self@.fields =~= old(self)@.fields.remove(key));
        value
    }

    /// The id of the principal.
    pub fn id(&self) -> (id: u32)
        ensures
            id == self@.id,
    {
        self.id
    }

    /// The type of the principal.
    pub fn typ(&self) -> (typ: Type)
        ensures
            typ == self@.typ,
    {
        self.typ
    }

    /// Changes the type of the principal.
    pub fn set_typ(&mut self, typ: Type)
        ensures
            final(self)@ == (PrincipalSetView {
                id: old(self)@.id,
                typ,
                fields: old(self)@.fields,
            }),
    {
        self.typ = typ;
    }

    /// The name of the principal, empty if it has none.
    pub fn name(&self) -> (name: &str)
        ensures
            name@ == (match self@.str_of(PrincipalField::Name) {
                Some(s) => s,
                None => Seq::empty(),
            }),
    {
        match self.get_str(PrincipalField::Name) {
            Some(s) => s,
            None => {
                proof {
                    reveal_strlit("");
                }
                assert(""@ =~= Seq::<char>::empty());
                ""
            },
        }
    }

    /// Whether the principal has a name.
    pub fn has_name(&self) -> (r: bool)
        ensures
            r == self@.fields.contains_key(PrincipalField::Name),
    {
        self.has_field(PrincipalField::Name)
    }

    /// The quota of the principal, zero if it has none.
    pub fn quota(&self) -> (quota: u64)
        ensures
            quota == (match self@.int_of(PrincipalField::Quota) {
                Some(q) => q,
                None => 0,
            }),
    {
        match self.get_int(PrincipalField::Quota) {
            Some(q) => q,
            None => 0,
        }
    }

    /// The tenant of the principal. This edition has no tenants.
    pub fn tenant(&self) -> (tenant: Option<u32>)
        ensures
            tenant is None,
    {
        None
    }

    /// The description of the principal.
    pub fn description(&self) -> (r: Option<&str>)
        ensures
            match r {
                Some(s) => self@.str_of(PrincipalField::Description) == Some(s@),
                None => self@.str_of(PrincipalField::Description) is None,
            },
    {
        self.get_str(PrincipalField::Description)
    }

    /// The first string of a field.
    pub fn get_str(&self, key: PrincipalField) -> (r: Option<&str>)
        ensures
            match r {
                Some(s) => self@.str_of(key) == Some(s@),
                None => self@.str_of(key) is None,
            },
    {
        match self.get(key) {
            Some(v) => v.as_str(),
            None => None,
        }
    }

    /// The first integer of a field.
    pub fn get_int(&self, key: PrincipalField) -> (r: Option<u64>)
        ensures
            r == self@.int_of(key),
    {
        match self.get(key) {
            Some(v) => v.as_int(),
            None => None,
        }
    }

    /// The strings of a field that holds strings: a single string counts
    /// as a list of one. Nothing for a field that is not set or holds
    /// integers.
    pub fn get_str_array(&self, key: PrincipalField) -> (r: Option<&[String]>)
        ensures
            match r {
                Some(l) => {
                    &&& self@.fields.contains_key(key)
                    &&& self@.fields[key] is String || self@.fields[key] is StringList
                    &&& strs(l@) == self@.fields[key].str_items()
                },
                None => !self@.fields.contains_key(key) || self@.fields[key] is Integer
                    || self@.fields[key] is IntegerList,
            },
    {
        match self.get(key) {
            Some(PrincipalValue::StringList(v)) => Some(v.as_slice()),
            Some(PrincipalValue::String(v)) => {
                let l = core::slice::from_ref(v);
                assert(strs(l@) =~= seq![v@]);
                Some(l)
            },
            _ => None,
        }
    }

    /// The integers of a field that holds integers: a single integer counts
    /// as a list of one. Nothing for a field that is not set or holds
    /// strings.
    pub fn get_int_array(&self, key: PrincipalField) -> (r: Option<&[u64]>)
        ensures
            match r {
                Some(l) => {
                    &&& self@.fields.contains_key(key)
                    &&& self@.fields[key] is Integer || self@.fields[key] is IntegerList
                    &&& l@ == self@.fields[key].int_items()
                },
                None => !self@.fields.contains_key(key) || self@.fields[key] is String
                    || self@.fields[key] is StringList,
            },
    {
        match self.get(key) {
            Some(PrincipalValue::IntegerList(v)) => Some(v.as_slice()),
            Some(PrincipalValue::Integer(v)) => Some(core::slice::from_ref(v)),
            _ => None,
        }
    }

    /// Takes a field out and gives its first item as a string: an integer
    /// is written in decimal digits.
    pub fn take_str(&mut self, key: PrincipalField) -> (r: Option<String>)
        ensures
            final(self)@ == old(self)@.with_fields(old(self)@.fields.remove(key)),
            match r {
                Some(s) => old(self)@.fields.contains_key(key) && old(
                    self,
                )@.fields[key].first_as_string() == Some(s@),
                None => !old(self)@.fields.contains_key(key) || old(
                    self,
                )@.fields[key].first_as_string() is None,
            },
    {
        match self.take(key) {
            Some(PrincipalValue::String(s)) => Some(s),
            Some(PrincipalValue::StringList(l)) => {
                let mut l = l;
                if l.len() > 0 {
                    Some(l.swap_remove(0))
                } else {
                    None
                }
            },
            Some(PrincipalValue::Integer(i)) => Some(u64_to_string(i)),
            Some(PrincipalValue::IntegerList(l)) => {
                if l.len() > 0 {
                    Some(u64_to_string(l[0]))
                } else {
                    None
                }
            },
            None => None,
        }
    }

    /// Takes a field out and gives its first item as an integer: a string
    /// gives the number it stands for, and nothing if it stands for none.
    pub fn take_int(&mut self, key: PrincipalField) -> (r: Option<u64>)
        ensures
            final(self)@ == old(self)@.with_fields(old(self)@.fields.remove(key)),
            r == (match old(self)@.fields.get(key) {
                Some(v) => v.first_as_int(),
                None => None,
            }),
    {
        match self.take(key) {
            Some(PrincipalValue::Integer(i)) => Some(i),
            Some(PrincipalValue::IntegerList(l)) => {
                if l.len() > 0 {
                    Some(l[0])
                } else {
                    None
                }
            },
            Some(PrincipalValue::String(s)) => parse_u64(s.as_str()),
            Some(PrincipalValue::StringList(l)) => {
                if l.len() > 0 {
                    parse_u64(l[0].as_str())
                } else {
                    None
                }
            },
            None => None,
        }
    }

    /// Takes a field out and gives its items as strings.
    pub fn take_str_array(&mut self, key: PrincipalField) -> (r: Option<Vec<String>>)
        ensures
            final(self)@ == old(self)@.with_fields(old(self)@.fields.remove(key)),
            match r {
                Some(l) => old(self)@.fields.contains_key(key) && strs(l@) == old(
                    self,
                )@.fields[key].as_strings(),
                None => !old(self)@.fields.contains_key(key),
            },
    {
        match self.take(key) {
            Some(v) => Some(v.into_str_array()),
            None => None,
        }
    }

    /// Takes a field out and gives its items as integers.
    pub fn take_int_array(&mut self, key: PrincipalField) -> (r: Option<Vec<u64>>)
        ensures
            final(self)@ == old(self)@.with_fields(old(self)@.fields.remove(key)),
            match r {
                Some(l) => old(self)@.fields.contains_key(key) && l@ == old(
                    self,
                )@.fields[key].as_ints(),
                None => !old(self)@.fields.contains_key(key),
            },
    {
        match self.take(key) {
            Some(v) => Some(v.into_int_array()),
            None => None,
        }
    }

    /// The strings of a field, in order.
    pub fn iter_str(&self, key: PrincipalField) -> (items: Vec<&String>)
        ensures
            str_refs(items@) == self@.strs_of(key),
    {
        match self.get(key) {
            Some(v) => v.iter_str(),
            None => {
                let items: Vec<&String> = Vec::new();
                assert(str_refs(items@) =~= Seq::<Seq<char>>::empty());
                items
            },
        }
    }

    /// The integers of a field, in order.
    pub fn iter_int(&self, key: PrincipalField) -> (items: Vec<u64>)
        ensures
            items@ == self@.ints_of(key),
    {
        match self.get(key) {
            Some(v) => v.iter_int(),
            None => Vec::new(),
        }
    }

    /// Appends an integer to a field.
    pub fn append_int(&mut self, key: PrincipalField, value: u64) -> (r: &mut Self)
        ensures
            r@ == old(self)@.with_fields(
                old(self)@.fields.insert(key, append_int_to(old(self)@.fields.get(key), value)),
            ),
            *final(self) == *final(r),
    {
        let updated = match self.take(key) {
            Some(PrincipalValue::IntegerList(l)) => {
                let mut l = l;
                if !ints_contain(&l, value) {
                    l.push(value);
                }
                PrincipalValue::IntegerList(l)
            },
            Some(PrincipalValue::Integer(i)) => {
                if value != i {
                    let mut l: Vec<u64> = Vec::new();
                    l.push(i);
                    l.push(value);
                    assert(l@ =~= seq![i, value]);
                    PrincipalValue::IntegerList(l)
                } else {
                    PrincipalValue::Integer(i)
                }
            },
            Some(PrincipalValue::String(s)) => {
                let mut l: Vec<u64> = Vec::new();
                l.push(super::value::parse_or_default(s.as_str()));
                l.push(value);
                assert(l@ =~= seq![parse_or_zero(s@), value]);
                PrincipalValue::IntegerList(l)
            },
            Some(PrincipalValue::StringList(l)) => {
                let mut r = strings_to_ints(&l);
                r.push(value);
                PrincipalValue::IntegerList(r)
            },
            None => {
                let mut l: Vec<u64> = Vec::new();
                l.push(value);
                assert(l@ =~= seq![value]);
                PrincipalValue::IntegerList(l)
            },
        };
        let r = self.set(key, updated);
        assert(r@.fields =~= old(self)@.fields.insert(
            key,
            append_int_to(old(self)@.fields.get(key), value),
        ));
        r
    }

    /// Appends a string to a field.
    pub fn append_str(&mut self, key: PrincipalField, value: String) -> (r: &mut Self)
        ensures
            r@ == old(self)@.with_fields(
                old(self)@.fields.insert(key, append_str_to(old(self)@.fields.get(key), value@)),
            ),
            *final(self) == *final(r),
    {
        let updated = match self.take(key) {
            Some(PrincipalValue::StringList(l)) => {
                let mut l = l;
                if !strings_contain(&l, value.as_str()) {
                    proof {
                        lemma_strs_push(l@, value);
                    }
                    l.push(value);
                }
                PrincipalValue::StringList(l)
            },
            Some(PrincipalValue::String(s)) => {
                if !(s == value) {
                    let mut l: Vec<String> = Vec::new();
                    l.push(s);
                    l.push(value);
                    assert(strs(l@) =~= seq![s@, value@]);
                    PrincipalValue::StringList(l)
                } else {
                    PrincipalValue::String(s)
                }
            },
            Some(PrincipalValue::Integer(i)) => {
                let mut l: Vec<String> = Vec::new();
                l.push(u64_to_string(i));
                l.push(value);
                assert(strs(l@) =~= seq![decimal(i as nat), value@]);
                PrincipalValue::StringList(l)
            },
            Some(PrincipalValue::IntegerList(l)) => {
                let mut r = ints_to_strings(&l);
                proof {
                    lemma_strs_push(r@, value);
                }
                r.push(value);
                PrincipalValue::StringList(r)
            },
            None => {
                let mut l: Vec<String> = Vec::new();
                l.push(value);
                assert(strs(l@) =~= seq![value@]);
                PrincipalValue::StringList(l)
            },
        };
        let r = self.set(key, updated);
        assert(r@.fields =~= old(self)@.fields.insert(
            key,
            append_str_to(old(self)@.fields.get(key), value@),
        ));
        r
    }

    /// Puts a string in front of a field.
    pub fn prepend_str(&mut self, key: PrincipalField, value: String) -> (r: &mut Self)
        ensures
            r@ == old(self)@.with_fields(
                old(self)@.fields.insert(key, prepend_str_to(old(self)@.fields.get(key), value@)),
            ),
            *final(self) == *final(r),
    {
        let updated = match self.take(key) {
            Some(PrincipalValue::StringList(l)) => {
                let mut l = l;
                if !strings_contain(&l, value.as_str()) {
                    let ghost before = l@;
                    l.insert(0, value);
                    assert(strs(l@) =~= seq![value@] + strs(before));
                }
                PrincipalValue::StringList(l)
            },
            Some(PrincipalValue::String(s)) => {
                if !(s == value) {
                    let mut l: Vec<String> = Vec::new();
                    l.push(value);
                    l.push(s);
                    assert(strs(l@) =~= seq![value@, s@]);
                    PrincipalValue::StringList(l)
                } else {
                    PrincipalValue::String(s)
                }
            },
            Some(PrincipalValue::Integer(i)) => {
                let mut l: Vec<String> = Vec::new();
                l.push(value);
                l.push(u64_to_string(i));
                assert(strs(l@) =~= seq![value@, decimal(i as nat)]);
                PrincipalValue::StringList(l)
            },
            Some(PrincipalValue::IntegerList(l)) => {
                let mut r = ints_to_strings(&l);
                let ghost before = r@;
                r.insert(0, value);
                assert(strs(r@) =~= seq![value@] + strs(before));
                PrincipalValue::StringList(r)
            },
            None => {
                let mut l: Vec<String> = Vec::new();
                l.push(value);
                assert(strs(l@) =~= seq![value@]);
                PrincipalValue::StringList(l)
            },
        };
        let r = self.set(key, updated);
        assert(r@.fields =~= old(self)@.fields.insert(
            key,
            prepend_str_to(old(self)@.fields.get(key), value@),
        ));
        r
    }

    /// The principal with a field set.
    pub fn with_field(self, key: PrincipalField, value: PrincipalValue) -> (r: Self)
        ensures
            r@ == self@.with_fields(self@.fields.insert(key, value@)),
    {
        let mut p = self;
        p.set(key, value);
        p
    }

    /// The principal with a field set, if a value is given.
    pub fn with_opt_field(self, key: PrincipalField, value: Option<PrincipalValue>) -> (r: Self)
        ensures
            r@ == (match value {
                Some(v) => self@.with_fields(self@.fields.insert(key, v@)),
                None => self@,
            }),
    {
        let mut p = self;
        if let Some(value) = value {
            p.set(key, value);
        }
        p
    }

    /// Whether a field is set.
    pub fn has_field(&self, key: PrincipalField) -> (r: bool)
        ensures
            r == self@.fields.contains_key(key),
    {
        self.get(key).is_some()
    }

    /// Whether a field holds the string `value`.
    pub fn has_str_value(&self, key: PrincipalField, value: &str) -> (r: bool)
        ensures
            r == self@.has_str(key, value@),
    {
        match self.get(key) {
            Some(v) => v.has_str_value(value),
            None => false,
        }
    }

    /// Whether a field holds the integer `value`.
    pub fn has_int_value(&self, key: PrincipalField, value: u64) -> (r: bool)
        ensures
            r == self@.has_int(key, value),
    {
        match self.get(key) {
            Some(v) => v.has_int_value(value),
            None => false,
        }
    }

    /// Whether `value` occurs in the lowercase form of a string of some
    /// field.
    pub fn find_str(&self, value: &str) -> (found: bool)
        ensures
            found == self@.finds(value@),
    {
        let mut id: u8 = 0;
        while id < FIELD_COUNT
            invariant
                id <= FIELD_COUNT,
                forall|key: PrincipalField|
                    key.spec_id() < id && #[trigger] self@.fields.contains_key(key)
                        ==> !self@.fields[key].finds(value@),
            decreases FIELD_COUNT - id,
        {
            if let Some(key) = PrincipalField::from_id(id) {
                if let Some(v) = self.get(key) {
                    if v.find_str(value) {
                        assert(self@.fields.contains_key(key) && self@.fields[key].finds(value@));
                        return true;
                    }
                }
                assert forall|other: PrincipalField|
                    other.spec_id() < id + 1 && #[trigger] self@.fields.contains_key(
                        other,
                    ) implies !self@.fields[other].finds(value@) by {
                    if other.spec_id() == id {
                        assert(other == key);
                    }
                }
            }
            id += 1;
        }
        false
    }

    /// How many items a field holds, zero if it is not set.
    pub fn field_len(&self, key: PrincipalField) -> (n: usize)
        ensures
            n == (match self@.fields.get(key) {
                Some(v) => v.item_count(),
                None => 0,
            }),
    {
        match self.get(key) {
            Some(v) => v.len(),
            None => 0,
        }
    }

    /// Takes a field out.
    pub fn remove(&mut self, key: PrincipalField) -> (value: Option<PrincipalValue>)
        ensures
            final(self)@ == old(self)@.with_fields(old(self)@.fields.remove(key)),
            match value {
                Some(v) => old(self)@.fields.contains_key(key) && old(self)@.fields[key] == v@,
                None => !old(self)@.fields.contains_key(key),
            },
    {
        self.take(key)
    }

    /// Keeps the strings of a field that `f` accepts, and removes the field
    /// if none is left: also a field that holds integers, which has no
    /// string to keep. `f` is called once for each string, in order.
    pub fn retain_str<F: Fn(&String) -> bool>(&mut self, key: PrincipalField, f: F)
        requires
            forall|x: &String| call_requires(f, (x,)),
        ensures
            final(self)@.id == old(self)@.id,
            final(self)@.typ == old(self)@.typ,
            retain_str_relation(old(self)@.fields, key, f, final(self)@.fields),
    {
        match self.take(key) {
            Some(PrincipalValue::String(s)) => {
                let keep = f(&s);
                let ghost x = s;
                if keep {
                    self.set(key, PrincipalValue::String(s));
                    assert(self@.fields =~= old(self)@.fields);
                }
                assert(call_ensures(f, (&x,), keep));
            },
            Some(PrincipalValue::StringList(l)) => {
                let ghost xs = l@;
                let (kept, Ghost(keep)) = retain_strings(l, &f);
                if kept.len() > 0 {
                    self.set(key, PrincipalValue::StringList(kept));
                }
                proof {
                    let after = after_retain(
                        old(self)@.fields,
                        key,
                        ValueView::StringList(retained(strs(xs), keep)),
                    );
                    assert(self@.fields =~= after);
                }
            },
            Some(PrincipalValue::Integer(_)) => {},
            Some(PrincipalValue::IntegerList(_)) => {},
            None => {
                assert(self@.fields =~= old(self)@.fields);
            },
        }
    }

    /// Keeps the integers of a field that `f` accepts, and removes the field
    /// if none is left: also a field that holds strings, which has no
    /// integer to keep. `f` is called once for each integer, in order.
    pub fn retain_int<F: Fn(&u64) -> bool>(&mut self, key: PrincipalField, f: F)
        requires
            forall|x: &u64| call_requires(f, (x,)),
        ensures
            final(self)@.id == old(self)@.id,
            final(self)@.typ == old(self)@.typ,
            retain_int_relation(old(self)@.fields, key, f, final(self)@.fields),
    {
        match self.take(key) {
            Some(PrincipalValue::Integer(i)) => {
                let keep = f(&i);
                if keep {
                    self.set(key, PrincipalValue::Integer(i));
                    assert(self@.fields =~= old(self)@.fields);
                }
                proof {
                    assert(old(self)@.fields.get(key) == Some(ValueView::Integer(i)));
                    assert(call_ensures(f, (&i,), keep));
                    assert(self@.fields == (if keep {
                        old(self)@.fields
                    } else {
                        old(self)@.fields.remove(key)
                    }));
                }
            },
            Some(PrincipalValue::IntegerList(l)) => {
                let ghost xs = l@;
                let (kept, Ghost(keep)) = retain_ints(l, &f);
                if kept.len() > 0 {
                    self.set(key, PrincipalValue::IntegerList(kept));
                }
                proof {
                    let after = after_retain(
                        old(self)@.fields,
                        key,
                        ValueView::IntegerList(retained(xs, keep)),
                    );
                    assert(self@.fields =~= after);
                    assert(old(self)@.fields.get(key) == Some(ValueView::IntegerList(xs)));
                    assert(forall|i: int|
                        0 <= i < xs.len() ==> call_ensures(f, (&#[trigger] xs[i],), keep[i]));
                }
            },
            Some(PrincipalValue::String(_)) => {},
            Some(PrincipalValue::StringList(_)) => {},
            None => {
                assert(self@.fields =~= old(self)@.fields);
            },
        }
    }

    /// The integer at position `index` among the integers of a field, to
    /// be changed in place.
    pub fn iter_mut_int(&mut self, key: PrincipalField, index: usize) -> (item: Option<&mut u64>)
        ensures
            match item {
                Some(i) => {
                    &&& old(self)@.fields.contains_key(key)
                    &&& index < old(self)@.fields[key].int_items().len()
                    &&& *i == old(self)@.fields[key].int_items()[index as int]
                    &&& final(self)@ =~= old(self)@.with_fields(
                        old(self)@.fields.insert(
                            key,
                            old(self)@.fields[key].with_int(index as int, *final(i)),
                        ),
                    )
                },
                None => {
                    &&& final(self)@ =~= old(self)@
                    &&& old(self)@.fields.contains_key(key) ==> index >= old(
                        self,
                    )@.fields[key].int_items().len()
                },
            },
    {
        match self.fields.entry(key.id()) {
            Entry::Occupied(entry) => entry.into_mut().iter_mut_int(index),
            Entry::Vacant(_) => None,
        }
    }

    /// The string at position `index` among the strings of a field, to be
    /// changed in place.
    pub fn iter_mut_str(&mut self, key: PrincipalField, index: usize) -> (item: Option<&mut String>)
        ensures
            match item {
                Some(s) => {
                    &&& old(self)@.fields.contains_key(key)
                    &&& index < old(self)@.fields[key].str_items().len()
                    &&& (*s)@ == old(self)@.fields[key].str_items()[index as int]
                    &&& final(self)@ =~= old(self)@.with_fields(
                        old(self)@.fields.insert(
                            key,
                            old(self)@.fields[key].with_str(index as int, (*final(s))@),
                        ),
                    )
                },
                None => {
                    &&& final(self)@ =~= old(self)@
                    &&& old(self)@.fields.contains_key(key) ==> index >= old(
                        self,
                    )@.fields[key].str_items().len()
                },
            },
    {
        match self.fields.entry(key.id()) {
            Entry::Occupied(entry) => entry.into_mut().iter_mut_str(index),
            Entry::Vacant(_) => None,
        }
    }
}

/// The value of a field is of exactly one of four shapes: a string, a list
/// of strings, an integer, a list of integers.
pub proof fn lemma_value_has_one_shape(p: PrincipalSetView, field: PrincipalField)
    requires
        p.fields.contains_key(field),
    ensures
        ({
            let v = p.fields[field];
            &&& v is String || v is StringList || v is Integer || v is IntegerList
            &&& !(v is String && v is StringList)
            &&& !(v is String && v is Integer)
            &&& !(v is String && v is IntegerList)
            &&& !(v is StringList && v is Integer)
            &&& !(v is StringList && v is IntegerList)
            &&& !(v is Integer && v is IntegerList)
        }),
{
}

/// A field holds a string once that string has been appended to it,
/// whatever the field held before.
pub proof fn lemma_append_str_then_has(p: PrincipalSetView, key: PrincipalField, s: Seq<char>)
    ensures
        p.with_fields(p.fields.insert(key, append_str_to(p.fields.get(key), s))).has_str(key, s),
{
    let v = append_str_to(p.fields.get(key), s);
    match p.fields.get(key) {
        Some(ValueView::StringList(l)) => {
            if !l.contains(s) {
                assert(l.push(s)[l.len() as int] == s);
            }
        },
        Some(ValueView::String(x)) => {
            if x == s {
                assert(seq![x][0] == s);
            } else {
                assert(seq![x, s][1] == s);
            }
        },
        Some(ValueView::Integer(i)) => {
            assert(seq![decimal(i as nat), s][1] == s);
        },
        Some(ValueView::IntegerList(l)) => {
            assert(decimals(l).push(s)[decimals(l).len() as int] == s);
        },
        None => {
            assert(seq![s][0] == s);
        },
    }
    assert(v.str_items().contains(s));
}

/// A field holds an integer once that integer has been appended to it,
/// whatever the field held before.
pub proof fn lemma_append_int_then_has(p: PrincipalSetView, key: PrincipalField, v: u64)
    ensures
        p.with_fields(p.fields.insert(key, append_int_to(p.fields.get(key), v))).has_int(key, v),
{
    let after = append_int_to(p.fields.get(key), v);
    match p.fields.get(key) {
        Some(ValueView::IntegerList(l)) => {
            if !l.contains(v) {
                assert(l.push(v)[l.len() as int] == v);
            }
        },
        Some(ValueView::Integer(i)) => {
            if i == v {
                assert(seq![i][0] == v);
            } else {
                assert(seq![i, v][1] == v);
            }
        },
        Some(ValueView::String(x)) => {
            assert(seq![parse_or_zero(x), v][1] == v);
        },
        Some(ValueView::StringList(l)) => {
            assert(parsed(l).push(v)[parsed(l).len() as int] == v);
        },
        None => {
            assert(seq![v][0] == v);
        },
    }
    assert(after.int_items().contains(v));
}

proof fn lemma_retained_none<E>(l: Seq<E>, keep: Seq<bool>)
    requires
        forall|i: int| 0 <= i < keep.len() ==> !keep[i],
    ensures
        retained(l, keep).len() == 0,
    decreases l.len(),
{
    if l.len() > 0 && keep.len() == l.len() {
        lemma_retained_none(l.drop_last(), keep.drop_last());
    }
}

/// Sifting the strings of a field with a test that accepts nothing leaves
/// the field unset, whatever it held, and the other fields as they were.
pub proof fn lemma_retain_str_nothing<F: Fn(&String) -> bool>(
    before: Map<PrincipalField, ValueView>,
    key: PrincipalField,
    f: F,
    after: Map<PrincipalField, ValueView>,
)
    requires
        retain_str_relation(before, key, f, after),
        forall|x: &String, r: bool| call_ensures(f, (x,), r) ==> !r,
    ensures
        !after.contains_key(key),
        after == before.remove(key),
{
    match before.get(key) {
        Some(ValueView::StringList(l)) => {
            let (xs, keep) = choose|xs: Seq<String>, keep: Seq<bool>|
                {
                    &&& strs(xs) == l
                    &&& keep.len() == xs.len()
                    &&& forall|i: int|
                        0 <= i < xs.len() ==> call_ensures(f, (&#[trigger] xs[i],), keep[i])
                    &&& after == #[trigger] after_retain(
                        before,
                        key,
                        ValueView::StringList(retained(strs(xs), keep)),
                    )
                };
            assert forall|i: int| 0 <= i < keep.len() implies !keep[i] by {
                assert(call_ensures(f, (&xs[i],), keep[i]));
            }
            lemma_retained_none(strs(xs), keep);
        },
        None => {
            assert(before.remove(key) =~= before);
        },
        _ => {},
    }
}

/// Sifting the integers of a field with a test that accepts nothing leaves
/// the field unset, whatever it held, and the other fields as they were.
pub proof fn lemma_retain_int_nothing<F: Fn(&u64) -> bool>(
    before: Map<PrincipalField, ValueView>,
    key: PrincipalField,
    f: F,
    after: Map<PrincipalField, ValueView>,
)
    requires
        retain_int_relation(before, key, f, after),
        forall|x: &u64, r: bool| call_ensures(f, (x,), r) ==> !r,
    ensures
        !after.contains_key(key),
        after == before.remove(key),
{
    match before.get(key) {
        Some(ValueView::IntegerList(l)) => {
            let (xs, keep) = choose|xs: Seq<u64>, keep: Seq<bool>|
                {
                    &&& xs == l
                    &&& keep.len() == xs.len()
                    &&& forall|i: int|
                        0 <= i < xs.len() ==> call_ensures(f, (&#[trigger] xs[i],), keep[i])
                    &&& after == #[trigger] after_retain(
                        before,
                        key,
                        ValueView::IntegerList(retained(xs, keep)),
                    )
                };
            assert forall|i: int| 0 <= i < keep.len() implies !keep[i] by {
                assert(call_ensures(f, (&xs[i],), keep[i]));
            }
            lemma_retained_none(xs, keep);
        },
        None => {
            assert(before.remove(key) =~= before);
        },
        _ => {},
    }
}

/// Sifting the strings of a field leaves every other field as it was,
/// whatever the test accepts.
pub proof fn lemma_retain_str_keeps_others<F: Fn(&String) -> bool>(
    before: Map<PrincipalField, ValueView>,
    key: PrincipalField,
    f: F,
    after: Map<PrincipalField, ValueView>,
    other: PrincipalField,
)
    requires
        retain_str_relation(before, key, f, after),
        other != key,
    ensures
        after.contains_key(other) == before.contains_key(other),
        before.contains_key(other) ==> after[other] == before[other],
{
}

/// Sifting the integers of a field leaves every other field as it was,
/// whatever the test accepts.
pub proof fn lemma_retain_int_keeps_others<F: Fn(&u64) -> bool>(
    before: Map<PrincipalField, ValueView>,
    key: PrincipalField,
    f: F,
    after: Map<PrincipalField, ValueView>,
    other: PrincipalField,
)
    requires
        retain_int_relation(before, key, f, after),
        other != key,
    ensures
        after.contains_key(other) == before.contains_key(other),
        before.contains_key(other) ==> after[other] == before[other],
{
}

} // verus!
