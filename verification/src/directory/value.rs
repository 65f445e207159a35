//! The value of a principal's field: a string, an integer, or a list of
//! either.
use vstd::prelude::*;
use vstd::std_specs::cmp::PartialEqSpecImpl;
use vstd::std_specs::convert::FromSpecImpl;
use crate::text::{
    clone_strings,
    decimal,
    has_substring,
    lemma_strs_push,
    lowercase,
    parse_or_zero,
    parse_u64,
    str_contains,
    str_refs,
    strings_eq,
    strs,
    to_lowercase,
    u64_to_string,
    utf8_len,
};

verus! {

/// Length in bytes of a stored integer.
pub const U64_LEN: usize = 8;

/// The value of a field.
#[derive(Debug)]
pub enum PrincipalValue {
    String(String),
    StringList(Vec<String>),
    Integer(u64),
    IntegerList(Vec<u64>),
}

/// The value of a field as a mathematical value.
#[verifier::ext_equal]
pub enum ValueView {
    String(Seq<char>),
    StringList(Seq<Seq<char>>),
    Integer(u64),
    IntegerList(Seq<u64>),
}

impl View for PrincipalValue {
    type V = ValueView;

    open spec fn view(&self) -> ValueView {
        match self {
            PrincipalValue::String(s) => ValueView::String(s@),
            PrincipalValue::StringList(l) => ValueView::StringList(strs(l@)),
            PrincipalValue::Integer(i) => ValueView::Integer(*i),
            PrincipalValue::IntegerList(l) => ValueView::IntegerList(l@),
        }
    }
}

/// The decimal form of each number, in the same order.
pub open spec fn decimals(l: Seq<u64>) -> Seq<Seq<char>> {
    l.map_values(|i: u64| decimal(i as nat))
}

/// The number that each string stands for, zero where it stands for none,
/// in the same order.
pub open spec fn parsed(l: Seq<Seq<char>>) -> Seq<u64> {
    l.map_values(|s: Seq<char>| parse_or_zero(s))
}

/// The sum of the stored sizes of the strings: the length of each in bytes
/// and two bytes for that length.
pub open spec fn strings_size(l: Seq<Seq<char>>) -> nat
    decreases l.len(),
{
    if l.len() == 0 {
        0
    } else {
        strings_size(l.drop_last()) + utf8_len(l.last()) + 2
    }
}

impl ValueView {
    /// The strings of the value: the one string, the strings of the list, or
    /// none if the value holds integers.
    pub open spec fn str_items(self) -> Seq<Seq<char>> {
        match self {
            ValueView::String(s) => seq![s],
            ValueView::StringList(l) => l,
            _ => Seq::empty(),
        }
    }

    /// The integers of the value: the one integer, the integers of the list,
    /// or none if the value holds strings.
    pub open spec fn int_items(self) -> Seq<u64> {
        match self {
            ValueView::Integer(i) => seq![i],
            ValueView::IntegerList(l) => l,
            _ => Seq::empty(),
        }
    }

    /// The first string of the value, if it holds strings and is not an
    /// empty list.
    pub open spec fn first_str(self) -> Option<Seq<char>> {
        if self.str_items().len() > 0 {
            Some(self.str_items()[0])
        } else {
            None
        }
    }

    /// The first integer of the value, if it holds integers and is not an
    /// empty list.
    pub open spec fn first_int(self) -> Option<u64> {
        if self.int_items().len() > 0 {
            Some(self.int_items()[0])
        } else {
            None
        }
    }

    /// How many items the value holds.
    pub open spec fn item_count(self) -> nat {
        match self {
            ValueView::String(_) => 1,
            ValueView::StringList(l) => l.len(),
            ValueView::Integer(_) => 1,
            ValueView::IntegerList(l) => l.len(),
        }
    }

    /// The value as a list: a single item becomes a list of one.
    pub open spec fn as_list(self) -> ValueView {
        match self {
            ValueView::String(s) => ValueView::StringList(seq![s]),
            ValueView::Integer(i) => ValueView::IntegerList(seq![i]),
            v => v,
        }
    }

    /// The items of the value as strings: an integer in decimal digits.
    pub open spec fn as_strings(self) -> Seq<Seq<char>> {
        match self {
            ValueView::StringList(l) => l,
            ValueView::String(s) => seq![s],
            ValueView::Integer(i) => seq![decimal(i as nat)],
            ValueView::IntegerList(l) => decimals(l),
        }
    }

    /// The items of the value as integers: a string gives the number it
    /// stands for, or zero.
    pub open spec fn as_ints(self) -> Seq<u64> {
        match self {
            ValueView::IntegerList(l) => l,
            ValueView::Integer(i) => seq![i],
            ValueView::String(s) => seq![parse_or_zero(s)],
            ValueView::StringList(l) => parsed(l),
        }
    }

    /// The first item as a string: an integer in decimal digits.
    pub open spec fn first_as_string(self) -> Option<Seq<char>> {
        if self.as_strings().len() > 0 {
            Some(self.as_strings()[0])
        } else {
            None
        }
    }

    /// The first item as an integer, if there is a first item and, where
    /// it is a string, that string stands for a number.
    pub open spec fn first_as_int(self) -> Option<u64> {
        match self {
            ValueView::Integer(i) => Some(i),
            ValueView::IntegerList(l) => if l.len() > 0 {
                Some(l[0])
            } else {
                None
            },
            ValueView::String(s) => crate::text::parse_decimal(s),
            ValueView::StringList(l) => if l.len() > 0 {
                crate::text::parse_decimal(l[0])
            } else {
                None
            },
        }
    }

    /// The size of the value when stored: a string takes its length in
    /// bytes and two more, an integer eight bytes, a list the sum of its
    /// items.
    pub open spec fn stored_size(self) -> nat {
        match self {
            ValueView::String(s) => utf8_len(s) + 2,
            ValueView::StringList(l) => strings_size(l),
            ValueView::Integer(_) => 8,
            ValueView::IntegerList(l) => l.len() * 8,
        }
    }

    /// Whether `needle` occurs in the lowercase form of one of the strings
    /// of the value.
    pub open spec fn finds(self, needle: Seq<char>) -> bool {
        exists|i: int|
            0 <= i < self.str_items().len() && has_substring(
                lowercase(#[trigger] self.str_items()[i]),
                needle,
            )
    }

    /// The value with its string at position `index` replaced by `s`.
    pub open spec fn with_str(self, index: int, s: Seq<char>) -> ValueView {
        match self {
            ValueView::String(_) => ValueView::String(s),
            ValueView::StringList(l) => ValueView::StringList(l.update(index, s)),
            v => v,
        }
    }

    /// The value with its integer at position `index` replaced by `i`.
    pub open spec fn with_int(self, index: int, i: u64) -> ValueView {
        match self {
            ValueView::Integer(_) => ValueView::Integer(i),
            ValueView::IntegerList(l) => ValueView::IntegerList(l.update(index, i)),
            v => v,
        }
    }

    /// Whether the value holds the string `s`.
    pub open spec fn has_str(self, s: Seq<char>) -> bool {
        self.str_items().contains(s)
    }

    /// Whether the value holds the integer `i`.
    pub open spec fn has_int(self, i: u64) -> bool {
        self.int_items().contains(i)
    }
}

proof fn lemma_strings_size_push(l: Seq<Seq<char>>, s: Seq<char>)
    ensures
        strings_size(l.push(s)) == strings_size(l) + utf8_len(s) + 2,
{
    assert(l.push(s).drop_last() =~= l);
}

proof fn lemma_strings_size_take(l: Seq<Seq<char>>, i: int)
    requires
        0 <= i <= l.len(),
    ensures
        strings_size(l.take(i)) <= strings_size(l),
    decreases l.len() - i,
{
    if i < l.len() {
        assert(l.take(i + 1) =~= l.take(i).push(l[i]));
        lemma_strings_size_push(l.take(i), l[i]);
        lemma_strings_size_take(l, i + 1);
    } else {
        assert(l.take(i) =~= l);
    }
}

impl PrincipalValue {
    /// The first string of the value, if it holds strings.
    pub fn as_str(&self) -> (r: Option<&str>)
        ensures
            match r {
                Some(s) => self@.first_str() == Some(s@),
                None => self@.first_str() is None,
            },
    {
        match self {
            PrincipalValue::String(v) => Some(v.as_str()),
            PrincipalValue::StringList(v) => {
                if v.len() > 0 {
                    Some(v[0].as_str())
                } else {
                    None
                }
            },
            _ => None,
        }
    }

    /// The first integer of the value, if it holds integers.
    pub fn as_int(&self) -> (r: Option<u64>)
        ensures
            r == self@.first_int(),
    {
        match self {
            PrincipalValue::Integer(v) => Some(*v),
            PrincipalValue::IntegerList(v) => {
                if v.len() > 0 {
                    Some(v[0])
                } else {
                    None
                }
            },
            _ => None,
        }
    }

    /// The strings of the value, in order: the one string, the strings of
    /// the list, or none if the value holds integers.
    pub fn iter_str(&self) -> (items: Vec<&String>)
        ensures
            str_refs(items@) == self@.str_items(),
    {
        let mut items: Vec<&String> = Vec::new();
        match self {
            PrincipalValue::String(v) => {
                items.push(v);
                assert(str_refs(items@) =~= self@.str_items());
            },
            PrincipalValue::StringList(v) => {
                let mut i: usize = 0;
                while i < v.len()
                    invariant
                        i <= v@.len(),
                        str_refs(items@) =~= strs(v@).take(i as int),
                    decreases v@.len() - i,
                {
                    let ghost before = items@;
                    items.push(&v[i]);
                    proof {
                        assert(str_refs(items@) =~= str_refs(before).push(v@[i as int]@));
                        assert(strs(v@).take(i as int + 1) =~= strs(v@).take(i as int).push(
                            v@[i as int]@,
                        ));
                    }
                    i += 1;
                }
                assert(strs(v@).take(i as int) =~= strs(v@));
            },
            _ => {
                assert(str_refs(items@) =~= self@.str_items());
            },
        }
        items
    }

    /// The integers of the value, in order: the one integer, the integers
    /// of the list, or none if the value holds strings.
    pub fn iter_int(&self) -> (items: Vec<u64>)
        ensures
            items@ == self@.int_items(),
    {
        let mut items: Vec<u64> = Vec::new();
        match self {
            PrincipalValue::Integer(v) => {
                items.push(*v);
                assert(items@ =~= self@.int_items());
            },
            PrincipalValue::IntegerList(v) => {
                let mut i: usize = 0;
                while i < v.len()
                    invariant
                        i <= v@.len(),
                        items@ =~= v@.take(i as int),
                    decreases v@.len() - i,
                {
                    items.push(v[i]);
                    i += 1;
                }
                assert(v@.take(i as int) =~= v@);
            },
            _ => {
                assert(items@ =~= self@.int_items());
            },
        }
        items
    }

    /// The string at position `index` among the strings of the value, to
    /// be changed in place. There is none if the value holds integers or
    /// has no more than `index` strings.
    pub fn iter_mut_str(&mut self, index: usize) -> (item: Option<&mut String>)
        ensures
            match item {
                Some(s) => {
                    &&& index < old(self)@.str_items().len()
                    &&& (*s)@ == old(self)@.str_items()[index as int]
                    &&& final(self)@ =~= old(self)@.with_str(index as int, (*final(s))@)
                },
                None => index >= old(self)@.str_items().len() && final(self)@ == old(self)@,
            },
    {
        match self {
            PrincipalValue::String(v) => {
                if index == 0 {
                    Some(v)
                } else {
                    None
                }
            },
            PrincipalValue::StringList(l) => {
                if index < l.len() {
                    Some(&mut l[index])
                } else {
                    None
                }
            },
            _ => None,
        }
    }

    /// The integer at position `index` among the integers of the value, to
    /// be changed in place. There is none if the value holds strings or has
    /// no more than `index` integers.
    pub fn iter_mut_int(&mut self, index: usize) -> (item: Option<&mut u64>)
        ensures
            match item {
                Some(i) => {
                    &&& index < old(self)@.int_items().len()
                    &&& *i == old(self)@.int_items()[index as int]
                    &&& final(self)@ == old(self)@.with_int(index as int, *final(i))
                },
                None => index >= old(self)@.int_items().len() && final(self)@ == old(self)@,
            },
    {
        match self {
            PrincipalValue::Integer(v) => {
                if index == 0 {
                    Some(v)
                } else {
                    None
                }
            },
            PrincipalValue::IntegerList(l) => {
                if index < l.len() {
                    Some(&mut l[index])
                } else {
                    None
                }
            },
            _ => None,
        }
    }

    /// How many items the value holds.
    pub fn len(&self) -> (n: usize)
        ensures
            n == self@.item_count(),
    {
        match self {
            PrincipalValue::String(_) => 1,
            PrincipalValue::StringList(l) => l.len(),
            PrincipalValue::Integer(_) => 1,
            PrincipalValue::IntegerList(l) => l.len(),
        }
    }

    /// The value as a list: a single item becomes a list of one.
    pub fn into_array(self) -> (r: Self)
        ensures
            r@ == self@.as_list(),
    {
        match self {
            PrincipalValue::String(v) => {
                let mut l: Vec<String> = Vec::new();
                l.push(v);
                assert(strs(l@) =~= seq![v@]);
                PrincipalValue::StringList(l)
            },
            PrincipalValue::Integer(v) => {
                let mut l: Vec<u64> = Vec::new();
                l.push(v);
                assert(l@ =~= seq![v]);
                PrincipalValue::IntegerList(l)
            },
            v => v,
        }
    }

    /// The items of the value as strings: an integer is written in decimal
    /// digits.
    pub fn into_str_array(self) -> (r: Vec<String>)
        ensures
            strs(r@) == self@.as_strings(),
    {
        match self {
            PrincipalValue::StringList(v) => v,
            PrincipalValue::String(v) => {
                let mut l: Vec<String> = Vec::new();
                l.push(v);
                assert(strs(l@) =~= seq![v@]);
                l
            },
            PrincipalValue::Integer(v) => {
                let mut l: Vec<String> = Vec::new();
                let s = u64_to_string(v);
                l.push(s);
                assert(strs(l@) =~= seq![decimal(v as nat)]);
                l
            },
            PrincipalValue::IntegerList(v) => ints_to_strings(&v),
        }
    }

    /// The items of the value as integers: a string gives the number it
    /// stands for, or zero if it stands for none.
    pub fn into_int_array(self) -> (r: Vec<u64>)
        ensures
            r@ == self@.as_ints(),
    {
        match self {
            PrincipalValue::IntegerList(v) => v,
            PrincipalValue::Integer(v) => {
                let mut l: Vec<u64> = Vec::new();
                l.push(v);
                assert(l@ =~= seq![v]);
                l
            },
            PrincipalValue::String(v) => {
                let mut l: Vec<u64> = Vec::new();
                l.push(parse_or_default(v.as_str()));
                assert(l@ =~= seq![parse_or_zero(v@)]);
                l
            },
            PrincipalValue::StringList(v) => strings_to_ints(&v),
        }
    }

    /// The size of the value when stored.
    pub fn serialized_size(&self) -> (n: usize)
        requires
            self@.stored_size() <= usize::MAX,
        ensures
            n == self@.stored_size(),
    {
        match self {
            PrincipalValue::String(s) => s.as_str().len() + 2,
            PrincipalValue::StringList(l) => {
                let mut n: usize = 0;
                let mut i: usize = 0;
                while i < l.len()
                    invariant
                        i <= l@.len(),
                        n == strings_size(strs(l@).take(i as int)),
                        strings_size(strs(l@)) <= usize::MAX,
                    decreases l@.len() - i,
                {
                    proof {
                        let all = strs(l@);
                        assert(all.take(i as int + 1) =~= all.take(i as int).push(all[i as int]));
                        lemma_strings_size_push(all.take(i as int), all[i as int]);
                        lemma_strings_size_take(all, i as int + 1);
                    }
                    n = n + (l[i].as_str().len() + 2);
                    i += 1;
                }
                assert(strs(l@).take(i as int) =~= strs(l@));
                n
            },
            PrincipalValue::Integer(_) => U64_LEN,
            PrincipalValue::IntegerList(l) => l.len() * U64_LEN,
        }
    }

    /// Whether `value` occurs in the lowercase form of one of the strings
    /// of the value. A search for a string with an uppercase letter finds
    /// nothing but by chance: the caller passes it in lowercase.
    #[verifier::loop_isolation(false)]
    pub fn find_str(&self, value: &str) -> (found: bool)
        ensures
            found == self@.finds(value@),
    {
        match self {
            PrincipalValue::String(s) => {
                let lower = to_lowercase(s.as_str());
                let found = str_contains(lower.as_str(), value);
                proof {
                    let items = self@.str_items();
                    if found {
                        assert(has_substring(lowercase(items[0]), value@));
                    }
                }
                found
            },
            PrincipalValue::StringList(l) => {
                let mut i: usize = 0;
                while i < l.len()
                    invariant
                        i <= l@.len(),
                        forall|k: int|
                            0 <= k < i ==> !has_substring(lowercase(#[trigger] strs(l@)[k]), value@),
                    decreases l@.len() - i,
                {
                    let lower = to_lowercase(l[i].as_str());
                    if str_contains(lower.as_str(), value) {
                        assert(has_substring(lowercase(self@.str_items()[i as int]), value@));
                        return true;
                    }
                    i += 1;
                }
                false
            },
            _ => false,
        }
    }

    /// Whether the value holds the string `value`.
    #[verifier::loop_isolation(false)]
    pub fn has_str_value(&self, value: &str) -> (found: bool)
        ensures
            found == self@.has_str(value@),
    {
        match self {
            PrincipalValue::String(v) => {
                let found = crate::text::str_eq(v.as_str(), value);
                proof {
                    let items = self@.str_items();
                    if found {
                        assert(items[0] == value@);
                    }
                }
                found
            },
            PrincipalValue::StringList(l) => {
                let mut i: usize = 0;
                while i < l.len()
                    invariant
                        i <= l@.len(),
                        forall|k: int| 0 <= k < i ==> strs(l@)[k] != value@,
                    decreases l@.len() - i,
                {
                    if crate::text::str_eq(l[i].as_str(), value) {
                        assert(strs(l@)[i as int] == value@);
                        return true;
                    }
                    i += 1;
                }
                false
            },
            _ => false,
        }
    }

    /// Whether the value holds the integer `value`.
    #[verifier::loop_isolation(false)]
    pub fn has_int_value(&self, value: u64) -> (found: bool)
        ensures
            found == self@.has_int(value),
    {
        match self {
            PrincipalValue::Integer(v) => {
                let found = *v == value;
                proof {
                    let items = self@.int_items();
                    if found {
                        assert(items[0] == value);
                    }
                }
                found
            },
            PrincipalValue::IntegerList(l) => {
                let mut i: usize = 0;
                while i < l.len()
                    invariant
                        i <= l@.len(),
                        forall|k: int| 0 <= k < i ==> l@[k] != value,
                    decreases l@.len() - i,
                {
                    if l[i] == value {
                        assert(l@[i as int] == value);
                        return true;
                    }
                    i += 1;
                }
                false
            },
            _ => false,
        }
    }
}

/// The number that a string stands for, zero if it stands for none.
pub fn parse_or_default(s: &str) -> (v: u64)
    ensures
        v == parse_or_zero(s@),
{
    match parse_u64(s) {
        Some(v) => v,
        None => 0,
    }
}

/// Each number in decimal digits, in the same order.
pub fn ints_to_strings(v: &Vec<u64>) -> (r: Vec<String>)
    ensures
        strs(r@) == decimals(v@),
{
    let mut r: Vec<String> = Vec::new();
    let mut i: usize = 0;
    while i < v.len()
        invariant
            i <= v@.len(),
            strs(r@) =~= decimals(v@).take(i as int),
        decreases v@.len() - i,
    {
        let s = u64_to_string(v[i]);
        proof {
            lemma_strs_push(r@, s);
        }
        r.push(s);
        i += 1;
    }
    assert(decimals(v@).take(i as int) =~= decimals(v@));
    r
}

/// The number that each string stands for, in the same order.
pub fn strings_to_ints(v: &Vec<String>) -> (r: Vec<u64>)
    ensures
        r@ == parsed(strs(v@)),
{
    let mut r: Vec<u64> = Vec::new();
    let mut i: usize = 0;
    while i < v.len()
        invariant
            i <= v@.len(),
            r@ =~= parsed(strs(v@)).take(i as int),
        decreases v@.len() - i,
    {
        r.push(parse_or_default(v[i].as_str()));
        i += 1;
    }
    assert(parsed(strs(v@)).take(i as int) =~= parsed(strs(v@)));
    r
}

impl Clone for PrincipalValue {
    fn clone(&self) -> (r: Self)
        ensures
            r@ == self@,
    {
        match self {
            PrincipalValue::String(s) => PrincipalValue::String(s.clone()),
            PrincipalValue::StringList(l) => PrincipalValue::StringList(clone_strings(l)),
            PrincipalValue::Integer(i) => PrincipalValue::Integer(*i),
            PrincipalValue::IntegerList(l) => {
                let mut copy: Vec<u64> = Vec::new();
                let mut i: usize = 0;
                while i < l.len()
                    invariant
                        i <= l@.len(),
                        copy@ =~= l@.take(i as int),
                    decreases l@.len() - i,
                {
                    copy.push(l[i]);
                    i += 1;
                }
                assert(l@.take(i as int) =~= l@);
                PrincipalValue::IntegerList(copy)
            },
        }
    }
}

impl PartialEq for PrincipalValue {
    #[verifier::loop_isolation(false)]
    fn eq(&self, other: &Self) -> (r: bool) {
        match (self, other) {
            (PrincipalValue::String(a), PrincipalValue::String(b)) => *a == *b,
            (PrincipalValue::StringList(a), PrincipalValue::StringList(b)) => strings_eq(a, b),
            (PrincipalValue::Integer(a), PrincipalValue::Integer(b)) => *a == *b,
            (PrincipalValue::IntegerList(a), PrincipalValue::IntegerList(b)) => {
                if a.len() != b.len() {
                    return false;
                }
                let mut i: usize = 0;
                while i < a.len()
                    invariant
                        i <= a@.len(),
                        a@.len() == b@.len(),
                        forall|k: int| 0 <= k < i ==> a@[k] == b@[k],
                    decreases a@.len() - i,
                {
                    if a[i] != b[i] {
                        return false;
                    }
                    i += 1;
                }
                assert(a@ =~= b@);
                true
            },
            _ => false,
        }
    }
}

impl PartialEqSpecImpl for PrincipalValue {
    open spec fn obeys_eq_spec() -> bool {
        true
    }

    open spec fn eq_spec(&self, other: &Self) -> bool {
        self@ == other@
    }
}

impl Eq for PrincipalValue {

}

impl From<u64> for PrincipalValue {
    fn from(v: u64) -> (r: Self) {
        PrincipalValue::Integer(v)
    }
}

impl FromSpecImpl<u64> for PrincipalValue {
    open spec fn obeys_from_spec() -> bool {
        true
    }

    open spec fn from_spec(v: u64) -> Self {
        PrincipalValue::Integer(v)
    }
}

impl From<String> for PrincipalValue {
    fn from(v: String) -> (r: Self) {
        PrincipalValue::String(v)
    }
}

impl FromSpecImpl<String> for PrincipalValue {
    open spec fn obeys_from_spec() -> bool {
        true
    }

    open spec fn from_spec(v: String) -> Self {
        PrincipalValue::String(v)
    }
}

impl From<Vec<String>> for PrincipalValue {
    fn from(v: Vec<String>) -> (r: Self) {
        PrincipalValue::StringList(v)
    }
}

impl FromSpecImpl<Vec<String>> for PrincipalValue {
    open spec fn obeys_from_spec() -> bool {
        true
    }

    open spec fn from_spec(v: Vec<String>) -> Self {
        PrincipalValue::StringList(v)
    }
}

impl From<Vec<u64>> for PrincipalValue {
    fn from(v: Vec<u64>) -> (r: Self) {
        PrincipalValue::IntegerList(v)
    }
}

impl FromSpecImpl<Vec<u64>> for PrincipalValue {
    open spec fn obeys_from_spec() -> bool {
        true
    }

    open spec fn from_spec(v: Vec<u64>) -> Self {
        PrincipalValue::IntegerList(v)
    }
}

impl From<u32> for PrincipalValue {
    fn from(v: u32) -> (r: Self) {
        PrincipalValue::Integer(v as u64)
    }
}

impl FromSpecImpl<u32> for PrincipalValue {
    open spec fn obeys_from_spec() -> bool {
        true
    }

    open spec fn from_spec(v: u32) -> Self {
        PrincipalValue::Integer(v as u64)
    }
}

impl PrincipalValue {
    /// A string value with the characters of `v`.
    pub fn from_str(v: &str) -> (r: Self)
        ensures
            r@ == ValueView::String(v@),
    {
        PrincipalValue::String(v.to_owned())
    }

    /// A list of integers with the numbers of `v`, widened to 64 bits.
    pub fn from_u32_list(v: Vec<u32>) -> (r: Self)
        ensures
            r@ == ValueView::IntegerList(v@.map_values(|i: u32| i as u64)),
    {
        let mut l: Vec<u64> = Vec::new();
        let mut i: usize = 0;
        while i < v.len()
            invariant
                i <= v@.len(),
                l@ =~= v@.map_values(|i: u32| i as u64).take(i as int),
            decreases v@.len() - i,
        {
            l.push(v[i] as u64);
            i += 1;
        }
        assert(v@.map_values(|i: u32| i as u64).take(i as int) =~= v@.map_values(|i: u32| i as u64));
        PrincipalValue::IntegerList(l)
    }
}

} // verus!
