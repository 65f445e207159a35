//! The wire form of a principal at the directory interface: an object with
//! `id`, `type` and one entry for each field that is set.
//!
//! The object is handled here as the list of its entries, each value being
//! one of the kinds that the format knows. Turning text into such a list,
//! and back, is left to the caller.
use vstd::prelude::*;
use vstd::string::*;
use super::field::{PrincipalField, FIELD_COUNT, field_of_id, field_of_name};
use super::principal_set::{PrincipalSet, PrincipalSetView};
use super::types::{Type, type_of_name};
use super::value::{PrincipalValue, ValueView};
use crate::text::{lemma_strs_push, str_eq, strs, utf8_len};

verus! {

/// The longest string that is accepted, in bytes.
pub const MAX_STRING_LEN: usize = 512;

/// An item of an array on the wire.
#[derive(Debug, Clone, PartialEq, Eq)]
pub enum WireItem {
    Str(String),
    U64(u64),
    /// Anything else: a negative or fractional number, a boolean, null, an
    /// array or an object.
    Other,
}

/// A value on the wire.
#[derive(Debug, Clone, PartialEq, Eq)]
pub enum WireValue {
    Null,
    Str(String),
    U64(u64),
    Array(Vec<WireItem>),
    /// Anything else: a negative or fractional number, a boolean or an
    /// object.
    Other,
}

/// An entry of an object on the wire.
#[derive(Debug, Clone, PartialEq, Eq)]
pub struct WireEntry {
    pub key: String,
    pub value: WireValue,
}

/// A `WireItem` as a mathematical value.
pub enum WireItemView {
    Str(Seq<char>),
    U64(u64),
    Other,
}

/// A `WireValue` as a mathematical value.
#[verifier::ext_equal]
pub enum WireValueView {
    Null,
    Str(Seq<char>),
    U64(u64),
    Array(Seq<WireItemView>),
    Other,
}

/// A `WireEntry` as a mathematical value.
#[verifier::ext_equal]
pub struct WireEntryView {
    pub key: Seq<char>,
    pub value: WireValueView,
}

impl View for WireItem {
    type V = WireItemView;

    open spec fn view(&self) -> WireItemView {
        match self {
            WireItem::Str(s) => WireItemView::Str(s@),
            WireItem::U64(v) => WireItemView::U64(*v),
            WireItem::Other => WireItemView::Other,
        }
    }
}

/// The items of a list, as mathematical values in the same order.
pub open spec fn item_views(items: Seq<WireItem>) -> Seq<WireItemView> {
    items.map_values(|i: WireItem| i@)
}

impl View for WireValue {
    type V = WireValueView;

    open spec fn view(&self) -> WireValueView {
        match self {
            WireValue::Null => WireValueView::Null,
            WireValue::Str(s) => WireValueView::Str(s@),
            WireValue::U64(v) => WireValueView::U64(*v),
            WireValue::Array(items) => WireValueView::Array(item_views(items@)),
            WireValue::Other => WireValueView::Other,
        }
    }
}

impl View for WireEntry {
    type V = WireEntryView;

    open spec fn view(&self) -> WireEntryView {
        WireEntryView { key: self.key@, value: self.value@ }
    }
}

/// The entries of a list, as mathematical values in the same order.
pub open spec fn entry_views(entries: Seq<WireEntry>) -> Seq<WireEntryView> {
    entries.map_values(|e: WireEntry| e@)
}

/// Why an object on the wire is not a principal.
#[derive(Debug, Clone, PartialEq, Eq)]
pub enum DecodeError {
    /// A key names no field.
    InvalidField(String),
    /// A value is of a kind that its field does not take.
    InvalidType,
    /// A string is longer than `MAX_STRING_LEN` bytes.
    StringTooLong,
    /// The type is not the name of a type.
    InvalidPrincipalType,
    /// An array holds both strings and integers.
    InvalidValue,
}

/// A `DecodeError` as a mathematical value.
pub enum DecodeErrorView {
    InvalidField(Seq<char>),
    InvalidType,
    StringTooLong,
    InvalidPrincipalType,
    InvalidValue,
}

impl View for DecodeError {
    type V = DecodeErrorView;

    open spec fn view(&self) -> DecodeErrorView {
        match self {
            DecodeError::InvalidField(key) => DecodeErrorView::InvalidField(key@),
            DecodeError::InvalidType => DecodeErrorView::InvalidType,
            DecodeError::StringTooLong => DecodeErrorView::StringTooLong,
            DecodeError::InvalidPrincipalType => DecodeErrorView::InvalidPrincipalType,
            DecodeError::InvalidValue => DecodeErrorView::InvalidValue,
        }
    }
}

impl DecodeErrorView {
    /// The error in words.
    pub open spec fn message(self) -> Seq<char> {
        match self {
            DecodeErrorView::InvalidField(key) => "invalid principal field: "@ + key,
            DecodeErrorView::InvalidType => "invalid type"@,
            DecodeErrorView::StringTooLong => "string too long"@,
            DecodeErrorView::InvalidPrincipalType => "invalid principal type"@,
            DecodeErrorView::InvalidValue => "invalid principal value"@,
        }
    }
}

impl DecodeError {
    /// The error in words.
    pub fn message(&self) -> (text: String)
        ensures
            text@ == self@.message(),
    {
        match self {
            DecodeError::InvalidField(key) => {
                String::from_str("invalid principal field: ").concat(key.as_str())
            },
            DecodeError::InvalidType => String::from_str("invalid type"),
            DecodeError::StringTooLong => String::from_str("string too long"),
            DecodeError::InvalidPrincipalType => String::from_str("invalid principal type"),
            DecodeError::InvalidValue => String::from_str("invalid principal value"),
        }
    }
}

/// Whether a string is short enough to be accepted.
pub open spec fn fits(s: Seq<char>) -> bool {
    utf8_len(s) <= MAX_STRING_LEN
}

/// What is wrong with an item of a mixed array, if anything.
pub open spec fn item_error(item: WireItemView) -> Option<DecodeErrorView> {
    match item {
        WireItemView::Str(s) => if fits(s) {
            None
        } else {
            Some(DecodeErrorView::StringTooLong)
        },
        WireItemView::U64(_) => None,
        WireItemView::Other => Some(DecodeErrorView::InvalidType),
    }
}

/// What is wrong with an item of an array of strings, if anything.
pub open spec fn string_item_error(item: WireItemView) -> Option<DecodeErrorView> {
    match item {
        WireItemView::Str(s) => if fits(s) {
            None
        } else {
            Some(DecodeErrorView::StringTooLong)
        },
        _ => Some(DecodeErrorView::InvalidType),
    }
}

/// What is wrong with the first item of an array that has something wrong,
/// if any has.
pub open spec fn first_error(
    items: Seq<WireItemView>,
    check: spec_fn(WireItemView) -> Option<DecodeErrorView>,
) -> Option<DecodeErrorView>
    decreases items.len(),
{
    if items.len() == 0 {
        None
    } else {
        match first_error(items.drop_last(), check) {
            Some(e) => Some(e),
            None => check(items.last()),
        }
    }
}

/// The strings among the items of an array, in their order.
pub open spec fn item_strs(items: Seq<WireItemView>) -> Seq<Seq<char>>
    decreases items.len(),
{
    if items.len() == 0 {
        Seq::empty()
    } else {
        match items.last() {
            WireItemView::Str(s) => item_strs(items.drop_last()).push(s),
            _ => item_strs(items.drop_last()),
        }
    }
}

/// The integers among the items of an array, in their order.
pub open spec fn item_ints(items: Seq<WireItemView>) -> Seq<u64>
    decreases items.len(),
{
    if items.len() == 0 {
        Seq::empty()
    } else {
        match items.last() {
            WireItemView::U64(v) => item_ints(items.drop_last()).push(v),
            _ => item_ints(items.drop_last()),
        }
    }
}

/// The value that a value on the wire stands for where the field takes
/// strings and integers alike.
///
/// An integer and a string stand for themselves. An array stands for the
/// list of its strings or of its integers; an empty array is an empty list
/// of strings; an array that holds both is refused. Null and every other
/// kind of value are refused.
pub open spec fn decode_value(value: WireValueView) -> Result<ValueView, DecodeErrorView> {
    match value {
        WireValueView::U64(v) => Ok(ValueView::Integer(v)),
        WireValueView::Str(s) => if fits(s) {
            Ok(ValueView::String(s))
        } else {
            Err(DecodeErrorView::StringTooLong)
        },
        WireValueView::Array(items) => match first_error(items, |i: WireItemView| item_error(i)) {
            Some(e) => Err(e),
            None => if item_ints(items).len() == 0 {
                Ok(ValueView::StringList(item_strs(items)))
            } else if item_strs(items).len() == 0 {
                Ok(ValueView::IntegerList(item_ints(items)))
            } else {
                Err(DecodeErrorView::InvalidValue)
            },
        },
        _ => Err(DecodeErrorView::InvalidType),
    }
}

/// The strings that a value on the wire stands for where the field takes a
/// list of strings: a string is a list of one, an array of strings the list
/// of its items.
pub open spec fn decode_strings(value: WireValueView) -> Result<Seq<Seq<char>>, DecodeErrorView> {
    match value {
        WireValueView::Str(s) => if fits(s) {
            Ok(seq![s])
        } else {
            Err(DecodeErrorView::StringTooLong)
        },
        WireValueView::Array(items) => match first_error(
            items,
            |i: WireItemView| string_item_error(i),
        ) {
            Some(e) => Err(e),
            None => Ok(item_strs(items)),
        },
        _ => Err(DecodeErrorView::InvalidType),
    }
}

/// What an entry does to the principal that is being read.
pub enum Step {
    /// Sets a field.
    Put(PrincipalField, ValueView),
    /// Sets the type.
    SetType(Type),
    /// Nothing.
    Skip,
}

/// What an entry with a known field does.
///
/// The name is a string. The description, the tenant, the picture and the
/// locale are a string or null, and null sets nothing. The type is the name
/// of a type. The quota is any value that `decode_value` accepts. The used
/// quota is ignored. Every other field is a list of strings, and an empty
/// array sets nothing.
pub open spec fn decode_field(field: PrincipalField, value: WireValueView) -> Result<
    Step,
    DecodeErrorView,
> {
    match field {
        PrincipalField::Name => match value {
            WireValueView::Str(s) => if fits(s) {
                Ok(Step::Put(field, ValueView::String(s)))
            } else {
                Err(DecodeErrorView::StringTooLong)
            },
            _ => Err(DecodeErrorView::InvalidType),
        },
        PrincipalField::Description | PrincipalField::Tenant | PrincipalField::Picture
        | PrincipalField::Locale => match value {
            WireValueView::Null => Ok(Step::Skip),
            WireValueView::Str(s) => if fits(s) {
                Ok(Step::Put(field, ValueView::String(s)))
            } else {
                Err(DecodeErrorView::StringTooLong)
            },
            _ => Err(DecodeErrorView::InvalidType),
        },
        PrincipalField::Type => match value {
            WireValueView::Str(s) => match type_of_name(s) {
                Some(t) => Ok(Step::SetType(t)),
                None => Err(DecodeErrorView::InvalidPrincipalType),
            },
            _ => Err(DecodeErrorView::InvalidType),
        },
        PrincipalField::Quota => match decode_value(value) {
            Ok(v) => Ok(Step::Put(field, v)),
            Err(e) => Err(e),
        },
        PrincipalField::UsedQuota => Ok(Step::Skip),
        _ => match decode_strings(value) {
            Ok(l) => if l.len() == 0 {
                Ok(Step::Skip)
            } else {
                Ok(Step::Put(field, ValueView::StringList(l)))
            },
            Err(e) => Err(e),
        },
    }
}

/// What an entry does: the key names a field, or is `id`, which is
/// ignored; every other key is refused.
pub open spec fn decode_entry(entry: WireEntryView) -> Result<Step, DecodeErrorView> {
    match field_of_name(entry.key) {
        Some(field) => decode_field(field, entry.value),
        None => if entry.key == "id"@ {
            Ok(Step::Skip)
        } else {
            Err(DecodeErrorView::InvalidField(entry.key))
        },
    }
}

impl PrincipalSetView {
    /// The principal after a step.
    pub open spec fn after(self, step: Step) -> PrincipalSetView {
        match step {
            Step::Put(field, value) => self.with_fields(self.fields.insert(field, value)),
            Step::SetType(typ) => PrincipalSetView { id: self.id, typ, fields: self.fields },
            Step::Skip => self,
        }
    }
}

/// The principal that the entries of an object stand for.
///
/// The entries are read in order and the first one that is refused decides
/// the error. A principal starts with the id 0, the type `Individual` and
/// no fields; of two entries for one field the later one counts.
pub open spec fn decode(entries: Seq<WireEntryView>) -> Result<PrincipalSetView, DecodeErrorView>
    decreases entries.len(),
{
    if entries.len() == 0 {
        Ok(PrincipalSetView { id: 0, typ: Type::Individual, fields: Map::empty() })
    } else {
        match decode(entries.drop_last()) {
            Err(e) => Err(e),
            Ok(p) => match decode_entry(entries.last()) {
                Err(e) => Err(e),
                Ok(step) => Ok(p.after(step)),
            },
        }
    }
}

/// The view of the outcome of reading a value.
pub open spec fn value_result(r: Result<PrincipalValue, DecodeError>) -> Result<
    ValueView,
    DecodeErrorView,
> {
    match r {
        Ok(v) => Ok(v@),
        Err(e) => Err(e@),
    }
}

/// The view of the outcome of reading a principal.
pub open spec fn principal_result(r: Result<PrincipalSet, DecodeError>) -> Result<
    PrincipalSetView,
    DecodeErrorView,
> {
    match r {
        Ok(p) => Ok(p@),
        Err(e) => Err(e@),
    }
}

/// Whether a string is short enough to be accepted.
pub fn check_len(s: &str) -> (ok: bool)
    ensures
        ok == fits(s@),
{
    s.as_bytes().len() <= MAX_STRING_LEN
}

/// A string or an integer, as an item of a mixed array holds it.
#[derive(Debug, Clone, PartialEq, Eq)]
pub enum StringOrU64 {
    String(String),
    U64(u64),
}

impl StringOrU64 {
    /// Reads an item of a mixed array.
    pub fn deserialize(item: &WireItem) -> (r: Result<StringOrU64, DecodeError>)
        ensures
            match r {
                Ok(StringOrU64::String(s)) => item@ == WireItemView::Str(s@) && fits(s@),
                Ok(StringOrU64::U64(v)) => item@ == WireItemView::U64(v),
                Err(e) => item_error(item@) == Some(e@),
            },
            r is Ok <==> item_error(item@) is None,
    {
        match item {
            WireItem::Str(s) => {
                if check_len(s.as_str()) {
                    Ok(StringOrU64::String(s.clone()))
                } else {
                    Err(DecodeError::StringTooLong)
                }
            },
            WireItem::U64(v) => Ok(StringOrU64::U64(*v)),
            WireItem::Other => Err(DecodeError::InvalidType),
        }
    }
}

/// One string or many, as a field that takes a list of strings holds them
/// on the wire.
#[derive(Debug, Clone, PartialEq, Eq)]
pub enum StringOrMany {
    One(String),
    Many(Vec<String>),
}

impl StringOrMany {
    /// The strings, one or many.
    pub open spec fn items(self) -> Seq<Seq<char>> {
        match self {
            StringOrMany::One(s) => seq![s@],
            StringOrMany::Many(l) => strs(l@),
        }
    }

    /// Reads the value of a field that takes a list of strings.
    #[verifier::loop_isolation(false)]
    pub fn deserialize(value: &WireValue) -> (r: Result<StringOrMany, DecodeError>)
        ensures
            match r {
                Ok(v) => decode_strings(value@) == Ok::<Seq<Seq<char>>, DecodeErrorView>(v.items())
                    && (v is One <==> value@ is Str),
                Err(e) => decode_strings(value@) == Err::<Seq<Seq<char>>, DecodeErrorView>(e@),
            },
    {
        match value {
            WireValue::Str(s) => {
                if check_len(s.as_str()) {
                    Ok(StringOrMany::One(s.clone()))
                } else {
                    Err(DecodeError::StringTooLong)
                }
            },
            WireValue::Array(items) => {
                let ghost check = |i: WireItemView| string_item_error(i);
                let ghost all = item_views(items@);
                let mut many: Vec<String> = Vec::new();
                let mut i: usize = 0;
                assert(all.take(0) =~= Seq::<WireItemView>::empty());
                while i < items.len()
                    invariant
                        i <= items@.len(),
                        all == item_views(items@),
                        check == |i: WireItemView| string_item_error(i),
                        first_error(all.take(i as int), check) is None,
                        strs(many@) == item_strs(all.take(i as int)),
                    decreases items@.len() - i,
                {
                    proof {
                        assert(all.take(i as int + 1).drop_last() =~= all.take(i as int));
                        assert(all.take(i as int + 1).last() == items@[i as int]@);
                    }
                    match &items[i] {
                        WireItem::Str(s) => {
                            if check_len(s.as_str()) {
                                let copy = s.clone();
                                proof {
                                    lemma_strs_push(many@, copy);
                                }
                                many.push(copy);
                            } else {
                                proof {
                                    lemma_first_error_stays(all, check, i as int + 1);
                                }
                                return Err(DecodeError::StringTooLong);
                            }
                        },
                        _ => {
                            proof {
                                lemma_first_error_stays(all, check, i as int + 1);
                            }
                            return Err(DecodeError::InvalidType);
                        },
                    }
                    i += 1;
                }
                assert(all.take(i as int) =~= all);
                Ok(StringOrMany::Many(many))
            },
            _ => Err(DecodeError::InvalidType),
        }
    }
}

/// An error among the first `n` items is the first error of the array.
proof fn lemma_first_error_stays(
    items: Seq<WireItemView>,
    check: spec_fn(WireItemView) -> Option<DecodeErrorView>,
    n: int,
)
    requires
        0 <= n <= items.len(),
        first_error(items.take(n), check) is Some,
    ensures
        first_error(items, check) == first_error(items.take(n), check),
    decreases items.len() - n,
{
    if n < items.len() {
        assert(items.take(n + 1).drop_last() =~= items.take(n));
        lemma_first_error_stays(items, check, n + 1);
    } else {
        assert(items.take(n) =~= items);
    }
}

impl PrincipalValue {
    /// Reads the value of a field that takes strings and integers alike.
    #[verifier::loop_isolation(false)]
    pub fn deserialize(value: &WireValue) -> (r: Result<PrincipalValue, DecodeError>)
        ensures
            value_result(r) == decode_value(value@),
    {
        match value {
            WireValue::U64(v) => Ok(PrincipalValue::Integer(*v)),
            WireValue::Str(s) => {
                if check_len(s.as_str()) {
                    Ok(PrincipalValue::String(s.clone()))
                } else {
                    Err(DecodeError::StringTooLong)
                }
            },
            WireValue::Array(items) => {
                let ghost check = |i: WireItemView| item_error(i);
                let ghost all = item_views(items@);
                let mut vec_u64: Vec<u64> = Vec::new();
                let mut vec_string: Vec<String> = Vec::new();
                let mut i: usize = 0;
                assert(all.take(0) =~= Seq::<WireItemView>::empty());
                assert(strs(vec_string@) =~= Seq::<Seq<char>>::empty());
                while i < items.len()
                    invariant
                        i <= items@.len(),
                        all == item_views(items@),
                        check == |i: WireItemView| item_error(i),
                        first_error(all.take(i as int), check) is None,
                        strs(vec_string@) == item_strs(all.take(i as int)),
                        vec_u64@ == item_ints(all.take(i as int)),
                    decreases items@.len() - i,
                {
                    proof {
                        assert(all.take(i as int + 1).drop_last() =~= all.take(i as int));
                        assert(all.take(i as int + 1).last() == items@[i as int]@);
                    }
                    match StringOrU64::deserialize(&items[i]) {
                        Ok(StringOrU64::String(s)) => {
                            proof {
                                lemma_strs_push(vec_string@, s);
                            }
                            vec_string.push(s);
                        },
                        Ok(StringOrU64::U64(u)) => {
                            vec_u64.push(u);
                        },
                        Err(e) => {
                            proof {
                                lemma_first_error_stays(all, check, i as int + 1);
                            }
                            return Err(e);
                        },
                    }
                    i += 1;
                }
                assert(all.take(i as int) =~= all);
                let no_ints = vec_u64.len() == 0;
                let no_strings = vec_string.len() == 0;
                if no_ints {
                    Ok(PrincipalValue::StringList(vec_string))
                } else if no_strings {
                    Ok(PrincipalValue::IntegerList(vec_u64))
                } else {
                    Err(DecodeError::InvalidValue)
                }
            },
            _ => Err(DecodeError::InvalidType),
        }
    }
}

/// What an entry does, with the value to set where it sets one.
enum Decoded {
    Put(PrincipalField, PrincipalValue),
    SetType(Type),
    Skip,
}

impl Decoded {
    spec fn step(self) -> Step {
        match self {
            Decoded::Put(field, value) => Step::Put(field, value@),
            Decoded::SetType(typ) => Step::SetType(typ),
            Decoded::Skip => Step::Skip,
        }
    }
}

fn read_string(field: PrincipalField, value: &WireValue, optional: bool) -> (r: Result<
    Decoded,
    DecodeError,
>)
    ensures
        match r {
            Ok(d) => match value@ {
                WireValueView::Str(s) => fits(s) && d.step() == Step::Put(field, ValueView::String(s)),
                WireValueView::Null => optional && d.step() == Step::Skip,
                _ => false,
            },
            Err(e) => match value@ {
                WireValueView::Str(s) => !fits(s) && e@ == DecodeErrorView::StringTooLong,
                WireValueView::Null => !optional && e@ == DecodeErrorView::InvalidType,
                _ => e@ == DecodeErrorView::InvalidType,
            },
        },
{
    match value {
        WireValue::Str(s) => {
            if check_len(s.as_str()) {
                Ok(Decoded::Put(field, PrincipalValue::String(s.clone())))
            } else {
                Err(DecodeError::StringTooLong)
            }
        },
        WireValue::Null => {
            if optional {
                Ok(Decoded::Skip)
            } else {
                Err(DecodeError::InvalidType)
            }
        },
        _ => Err(DecodeError::InvalidType),
    }
}

fn read_field(field: PrincipalField, value: &WireValue) -> (r: Result<Decoded, DecodeError>)
    ensures
        match r {
            Ok(d) => decode_field(field, value@) == Ok::<Step, DecodeErrorView>(d.step()),
            Err(e) => decode_field(field, value@) == Err::<Step, DecodeErrorView>(e@),
        },
{
    match field {
        PrincipalField::Name => read_string(field, value, false),
        PrincipalField::Description | PrincipalField::Tenant | PrincipalField::Picture
        | PrincipalField::Locale => read_string(field, value, true),
        PrincipalField::Type => match value {
            WireValue::Str(s) => match Type::parse(s.as_str()) {
                Some(t) => Ok(Decoded::SetType(t)),
                None => Err(DecodeError::InvalidPrincipalType),
            },
            _ => Err(DecodeError::InvalidType),
        },
        PrincipalField::Quota => match PrincipalValue::deserialize(value) {
            Ok(v) => Ok(Decoded::Put(field, v)),
            Err(e) => Err(e),
        },
        PrincipalField::UsedQuota => Ok(Decoded::Skip),
        PrincipalField::Secrets | PrincipalField::Emails | PrincipalField::MemberOf
        | PrincipalField::Members | PrincipalField::Roles | PrincipalField::Lists
        | PrincipalField::EnabledPermissions | PrincipalField::DisabledPermissions
        | PrincipalField::Urls | PrincipalField::ExternalMembers => match StringOrMany::deserialize(
            value,
        ) {
            Ok(StringOrMany::One(v)) => {
                let mut l: Vec<String> = Vec::new();
                l.push(v);
                assert(strs(l@) =~= seq![v@]);
                Ok(Decoded::Put(field, PrincipalValue::StringList(l)))
            },
            Ok(StringOrMany::Many(v)) => {
                if v.len() > 0 {
                    Ok(Decoded::Put(field, PrincipalValue::StringList(v)))
                } else {
                    Ok(Decoded::Skip)
                }
            },
            Err(e) => Err(e),
        },
    }
}

fn read_entry(entry: &WireEntry) -> (r: Result<Decoded, DecodeError>)
    ensures
        match r {
            Ok(d) => decode_entry(entry@) == Ok::<Step, DecodeErrorView>(d.step()),
            Err(e) => decode_entry(entry@) == Err::<Step, DecodeErrorView>(e@),
        },
{
    match PrincipalField::try_parse(entry.key.as_str()) {
        Some(field) => read_field(field, &entry.value),
        None => {
            if str_eq(entry.key.as_str(), "id") {
                Ok(Decoded::Skip)
            } else {
                Err(DecodeError::InvalidField(entry.key.clone()))
            }
        },
    }
}

/// An error among the first `n` entries is the error of the object.
proof fn lemma_decode_error_stays(entries: Seq<WireEntryView>, n: int)
    requires
        0 <= n <= entries.len(),
        decode(entries.take(n)) is Err,
    ensures
        decode(entries) == decode(entries.take(n)),
    decreases entries.len() - n,
{
    if n < entries.len() {
        assert(entries.take(n + 1).drop_last() =~= entries.take(n));
        lemma_decode_error_stays(entries, n + 1);
    } else {
        assert(entries.take(n) =~= entries);
    }
}

impl PrincipalSet {
    /// Reads a principal from the entries of an object on the wire.
    pub fn deserialize(entries: &Vec<WireEntry>) -> (r: Result<PrincipalSet, DecodeError>)
        ensures
            principal_result(r) == decode(entry_views(entries@)),
    {
        let ghost all = entry_views(entries@);
        let mut principal = PrincipalSet::new(0, Type::Individual);
        let mut i: usize = 0;
        assert(all.take(0) =~= Seq::<WireEntryView>::empty());
        while i < entries.len()
            invariant
                i <= entries@.len(),
                all == entry_views(entries@),
                decode(all.take(i as int)) == Ok::<PrincipalSetView, DecodeErrorView>(principal@),
            decreases entries@.len() - i,
        {
            proof {
                assert(all.take(i as int + 1).drop_last() =~= all.take(i as int));
                assert(all.take(i as int + 1).last() == entries@[i as int]@);
            }
            match read_entry(&entries[i]) {
                Ok(Decoded::Put(field, value)) => {
                    principal.set(field, value);
                },
                Ok(Decoded::SetType(typ)) => {
                    principal.set_typ(typ);
                },
                Ok(Decoded::Skip) => {},
                Err(e) => {
                    proof {
                        lemma_decode_error_stays(all, i as int + 1);
                    }
                    return Err(e);
                },
            }
            i += 1;
        }
        assert(all.take(i as int) =~= all);
        Ok(principal)
    }
}

/// The items of an array of strings on the wire.
pub open spec fn str_items(l: Seq<Seq<char>>) -> Seq<WireItemView> {
    l.map_values(|s: Seq<char>| WireItemView::Str(s))
}

/// The items of an array of integers on the wire.
pub open spec fn int_items(l: Seq<u64>) -> Seq<WireItemView> {
    l.map_values(|v: u64| WireItemView::U64(v))
}

/// The wire form of a value: a list is an array, a single item stands for
/// itself.
pub open spec fn encode_value(v: ValueView) -> WireValueView {
    match v {
        ValueView::String(s) => WireValueView::Str(s),
        ValueView::StringList(l) => WireValueView::Array(str_items(l)),
        ValueView::Integer(i) => WireValueView::U64(i),
        ValueView::IntegerList(l) => WireValueView::Array(int_items(l)),
    }
}

/// The entries of the fields with a number below `n` that are set, in the
/// order of their numbers.
pub open spec fn field_entries(fields: Map<PrincipalField, ValueView>, n: nat) -> Seq<
    WireEntryView,
>
    decreases n,
{
    if n == 0 {
        Seq::empty()
    } else {
        let rest = field_entries(fields, (n - 1) as nat);
        match field_of_id((n - 1) as u8) {
            Some(field) => if fields.contains_key(field) {
                rest.push(WireEntryView { key: field.name(), value: encode_value(fields[field]) })
            } else {
                rest
            },
            None => rest,
        }
    }
}

/// The entries `id` and `type` that the wire form of a principal starts
/// with.
pub open spec fn head_entries(id: u32, typ: Type) -> Seq<WireEntryView> {
    seq![
        WireEntryView { key: "id"@, value: WireValueView::U64(id as u64) },
        WireEntryView { key: "type"@, value: WireValueView::Str(typ.jmap_name()) },
    ]
}

/// The wire form of a principal: `id`, `type`, then an entry for each field
/// that is set.
pub open spec fn encode(p: PrincipalSetView) -> Seq<WireEntryView> {
    head_entries(p.id, p.typ) + field_entries(p.fields, FIELD_COUNT as nat)
}

/// Whether every string of a list is short enough to be accepted.
pub open spec fn all_fit(l: Seq<Seq<char>>) -> bool {
    forall|i: int| 0 <= i < l.len() ==> fits(#[trigger] l[i])
}

/// Whether a field with this value is read back from the wire as it is:
/// the value has the shape that reading gives the field, and its strings
/// are short enough.
pub open spec fn accepted_value(field: PrincipalField, v: ValueView) -> bool {
    match field {
        PrincipalField::Name | PrincipalField::Description | PrincipalField::Tenant
        | PrincipalField::Picture | PrincipalField::Locale => match v {
            ValueView::String(s) => fits(s),
            _ => false,
        },
        PrincipalField::Type | PrincipalField::UsedQuota => false,
        PrincipalField::Quota => match v {
            ValueView::Integer(_) => true,
            ValueView::String(s) => fits(s),
            ValueView::StringList(l) => all_fit(l),
            ValueView::IntegerList(l) => l.len() > 0,
        },
        _ => match v {
            ValueView::StringList(l) => l.len() > 0 && all_fit(l),
            _ => false,
        },
    }
}

/// Whether a principal is read back from the wire as it is, but for its
/// id: its type has a name on the wire and each of its fields is accepted.
pub open spec fn accepted(p: PrincipalSetView) -> bool {
    &&& p.typ != Type::Other
    &&& forall|field: PrincipalField| #[trigger]
        p.fields.contains_key(field) ==> accepted_value(field, p.fields[field])
}

impl PrincipalValue {
    /// The wire form of the value.
    pub fn to_wire(&self) -> (wire: WireValue)
        ensures
            wire@ == encode_value(self@),
    {
        match self {
            PrincipalValue::String(s) => WireValue::Str(s.clone()),
            PrincipalValue::StringList(l) => {
                let mut items: Vec<WireItem> = Vec::new();
                let mut i: usize = 0;
                while i < l.len()
                    invariant
                        i <= l@.len(),
                        item_views(items@) =~= str_items(strs(l@)).take(i as int),
                    decreases l@.len() - i,
                {
                    let ghost before = items@;
                    let item = WireItem::Str(l[i].clone());
                    items.push(item);
                    proof {
                        let all = str_items(strs(l@));
                        assert(item_views(items@) =~= item_views(before).push(item@));
                        assert(all.take(i as int + 1) =~= all.take(i as int).push(all[i as int]));
                    }
                    i += 1;
                }
                assert(str_items(strs(l@)).take(i as int) =~= str_items(strs(l@)));
                WireValue::Array(items)
            },
            PrincipalValue::Integer(v) => WireValue::U64(*v),
            PrincipalValue::IntegerList(l) => {
                let mut items: Vec<WireItem> = Vec::new();
                let mut i: usize = 0;
                while i < l.len()
                    invariant
                        i <= l@.len(),
                        item_views(items@) =~= int_items(l@).take(i as int),
                    decreases l@.len() - i,
                {
                    let ghost before = items@;
                    let item = WireItem::U64(l[i]);
                    items.push(item);
                    proof {
                        let all = int_items(l@);
                        assert(item_views(items@) =~= item_views(before).push(item@));
                        assert(all.take(i as int + 1) =~= all.take(i as int).push(all[i as int]));
                    }
                    i += 1;
                }
                assert(int_items(l@).take(i as int) =~= int_items(l@));
                WireValue::Array(items)
            },
        }
    }
}

impl PrincipalSet {
    /// The wire form of the principal.
    pub fn serialize(&self) -> (entries: Vec<WireEntry>)
        ensures
            entry_views(entries@) == encode(self@),
    {
        let mut entries: Vec<WireEntry> = Vec::new();
        entries.push(
            WireEntry { key: String::from_str("id"), value: WireValue::U64(self.id() as u64) },
        );
        entries.push(
            WireEntry {
                key: String::from_str("type"),
                value: WireValue::Str(String::from_str(self.typ().to_jmap())),
            },
        );
        let ghost head = head_entries(self@.id, self@.typ);
        assert(entry_views(entries@) =~= head);
        let mut id: u8 = 0;
        while id < FIELD_COUNT
            invariant
                id <= FIELD_COUNT,
                entry_views(entries@) =~= head + field_entries(self@.fields, id as nat),
            decreases FIELD_COUNT - id,
        {
            let ghost before = entry_views(entries@);
            if let Some(field) = PrincipalField::from_id(id) {
                if let Some(value) = self.get(field) {
                    let entry = WireEntry {
                        key: String::from_str(field.as_str()),
                        value: value.to_wire(),
                    };
                    entries.push(entry);
                    assert(entry_views(entries@) =~= before.push(entry@));
                }
            }
            id += 1;
        }
        entries
    }
}

proof fn lemma_str_items(l: Seq<Seq<char>>)
    requires
        all_fit(l),
    ensures
        first_error(str_items(l), |i: WireItemView| item_error(i)) is None,
        first_error(str_items(l), |i: WireItemView| string_item_error(i)) is None,
        item_strs(str_items(l)) == l,
        item_ints(str_items(l)).len() == 0,
    decreases l.len(),
{
    if l.len() > 0 {
        assert(str_items(l).drop_last() =~= str_items(l.drop_last()));
        assert(str_items(l).last() == WireItemView::Str(l.last()));
        assert(all_fit(l.drop_last()));
        lemma_str_items(l.drop_last());
        assert(item_strs(str_items(l)) =~= l);
    } else {
        assert(item_strs(str_items(l)) =~= l);
    }
}

proof fn lemma_int_items(l: Seq<u64>)
    ensures
        first_error(int_items(l), |i: WireItemView| item_error(i)) is None,
        item_ints(int_items(l)) == l,
        item_strs(int_items(l)).len() == 0,
    decreases l.len(),
{
    if l.len() > 0 {
        assert(int_items(l).drop_last() =~= int_items(l.drop_last()));
        assert(int_items(l).last() == WireItemView::U64(l.last()));
        lemma_int_items(l.drop_last());
        assert(item_ints(int_items(l)) =~= l);
    } else {
        assert(item_ints(int_items(l)) =~= l);
    }
}

/// The entry that a field is written as is read back as that field with
/// that value, if the value is accepted.
pub proof fn lemma_entry_round_trip(field: PrincipalField, v: ValueView)
    requires
        accepted_value(field, v),
    ensures
        decode_entry(WireEntryView { key: field.name(), value: encode_value(v) }) == Ok::<
            Step,
            DecodeErrorView,
        >(Step::Put(field, v)),
{
    super::field::lemma_field_round_trip(field);
    match v {
        ValueView::StringList(l) => {
            lemma_str_items(l);
        },
        ValueView::IntegerList(l) => {
            lemma_int_items(l);
        },
        _ => {},
    }
}

/// The fields with a number below `n`.
spec fn fields_below(fields: Map<PrincipalField, ValueView>, n: nat) -> Map<
    PrincipalField,
    ValueView,
> {
    Map::new(
        |f: PrincipalField| fields.contains_key(f) && f.spec_id() < n,
        |f: PrincipalField| fields[f],
    )
}

proof fn lemma_fields_round_trip(p: PrincipalSetView, n: nat)
    requires
        accepted(p),
        n <= FIELD_COUNT,
    ensures
        decode(head_entries(p.id, p.typ) + field_entries(p.fields, n)) == Ok::<
            PrincipalSetView,
            DecodeErrorView,
        >(PrincipalSetView { id: 0, typ: p.typ, fields: fields_below(p.fields, n) }),
    decreases n,
{
    let head = head_entries(p.id, p.typ);
    if n == 0 {
        super::field::reveal_field_names();
        super::types::lemma_name_round_trip(p.typ);
        assert(head + field_entries(p.fields, 0) =~= head);
        assert(head.drop_last() =~= seq![head[0]]);
        assert(head.drop_last().drop_last() =~= Seq::<WireEntryView>::empty());
        assert(decode(head.drop_last().drop_last()) == Ok::<PrincipalSetView, DecodeErrorView>(
            PrincipalSetView { id: 0, typ: Type::Individual, fields: Map::empty() },
        ));
        assert(decode_entry(head[0]) == Ok::<Step, DecodeErrorView>(Step::Skip));
        assert(decode(head.drop_last()) == Ok::<PrincipalSetView, DecodeErrorView>(
            PrincipalSetView { id: 0, typ: Type::Individual, fields: Map::empty() },
        ));
        assert(decode_entry(head[1]) == Ok::<Step, DecodeErrorView>(Step::SetType(p.typ)));
        assert(fields_below(p.fields, 0) =~= Map::empty());
    } else {
        let m = (n - 1) as nat;
        lemma_fields_round_trip(p, m);
        let rest = field_entries(p.fields, m);
        let field = field_of_id(m as u8)->0;
        assert(field.spec_id() == m);
        assert forall|f: PrincipalField| f.spec_id() == m implies f == field by {
            super::field::lemma_field_round_trip(f);
        }
        if p.fields.contains_key(field) {
            let entry = WireEntryView { key: field.name(), value: encode_value(p.fields[field]) };
            lemma_entry_round_trip(field, p.fields[field]);
            let all = head + rest.push(entry);
            assert(all =~= (head + rest).push(entry));
            assert(all.drop_last() =~= head + rest);
            assert(all.last() == entry);
            assert(fields_below(p.fields, n) =~= fields_below(p.fields, m).insert(
                field,
                p.fields[field],
            ));
        } else {
            assert(fields_below(p.fields, n) =~= fields_below(p.fields, m));
        }
    }
}

/// A principal that is written to the wire and read back is the same
/// principal with the id 0, if it is accepted: the id is not read.
pub proof fn lemma_round_trip(p: PrincipalSetView)
    requires
        accepted(p),
    ensures
        decode(encode(p)) == Ok::<PrincipalSetView, DecodeErrorView>(
            PrincipalSetView { id: 0, typ: p.typ, fields: p.fields },
        ),
{
    lemma_fields_round_trip(p, FIELD_COUNT as nat);
    assert(fields_below(p.fields, FIELD_COUNT as nat) =~= p.fields) by {
        assert forall|f: PrincipalField| f.spec_id() < FIELD_COUNT by {}
    }
}

} // verus!
