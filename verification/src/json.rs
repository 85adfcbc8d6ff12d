//! JSON values as `serde_json` parses them, and what the library reads of them.

use vstd::prelude::*;

verus! {

/// A parsed JSON value of `serde_json`. Its inside is read only through the
/// accessors below.
#[verifier::external_type_specification]
#[verifier::external_body]
pub struct ExValue(serde_json::Value);

/// The error of `serde_json`'s parser.
#[verifier::external_type_specification]
#[verifier::external_body]
pub struct ExJsonError(serde_json::Error);

/// What a JSON value holds.
pub enum JsonModel {
    Null,
    Boolean(bool),
    /// A number: its value where `serde_json` holds it as an integer, else
    /// nothing.
    Number(Option<int>),
    Text(Seq<char>),
    List(Seq<JsonModel>),
    Object(Map<Seq<char>, JsonModel>),
}

/// What the value `v` holds.
pub uninterp spec fn value_model(v: serde_json::Value) -> JsonModel;

/// What `serde_json` parses `bytes` to, or nothing where it reports an error.
pub uninterp spec fn json_parse(bytes: Seq<u8>) -> Option<JsonModel>;

/// The member `key` of an object; nothing for a missing member and for a
/// value that is no object.
pub open spec fn member(m: JsonModel, key: Seq<char>) -> Option<JsonModel> {
    match m {
        JsonModel::Object(members) => if members.dom().contains(key) {
            Some(members[key])
        } else {
            None
        },
        _ => None,
    }
}

/// The integer that a value holds.
pub open spec fn integer(m: JsonModel) -> Option<int> {
    match m {
        JsonModel::Number(n) => n,
        _ => None,
    }
}

/// The integer that a value holds, where it lies from `low` to `high`.
pub open spec fn integer_within(m: JsonModel, low: int, high: int) -> Option<int> {
    match integer(m) {
        Some(n) => if low <= n <= high {
            Some(n)
        } else {
            None
        },
        None => None,
    }
}

/// `serde_json::from_slice` at the type `Value`: the parsed value holds what
/// `json_parse` names for these bytes, and an error comes exactly where
/// `json_parse` gives nothing. The parser reports nesting deeper than its
/// limit as an error.
#[verifier::external_body]
pub(crate) fn parse_value(bytes: &[u8]) -> (r: Result<serde_json::Value, serde_json::Error>)
    ensures
        match r {
            Ok(v) => json_parse(bytes@) == Some(value_model(v)),
            Err(_) => json_parse(bytes@) is None,
        },
{
    serde_json::from_slice::<serde_json::Value>(bytes)
}

/// `Value::get` with a string index: the member of that name where the value
/// is an object that has it, else nothing.
#[verifier::external_body]
pub(crate) fn value_member<'a>(
    v: &'a serde_json::Value,
    key: &str,
) -> (r: Option<&'a serde_json::Value>)
    ensures
        match member(value_model(*v), key@) {
            Some(m) => r is Some && value_model(*r->0) == m,
            None => r is None,
        },
{
    v.get(key)
}

/// `Value::as_u64`: the number where the value is an integer from zero to
/// `u64::MAX`.
pub assume_specification[ serde_json::Value::as_u64 ](v: &serde_json::Value) -> (r: Option<u64>)
    ensures
        match integer_within(value_model(*v), 0, u64::MAX as int) {
            Some(n) => r == Some(n as u64),
            None => r is None,
        },
;

/// `Value::as_i64`: the number where the value is an integer from `i64::MIN`
/// to `i64::MAX`.
pub assume_specification[ serde_json::Value::as_i64 ](v: &serde_json::Value) -> (r: Option<i64>)
    ensures
        match integer_within(value_model(*v), i64::MIN as int, i64::MAX as int) {
            Some(n) => r == Some(n as i64),
            None => r is None,
        },
;

/// `Value::as_bool`: the boolean where the value is one.
pub assume_specification[ serde_json::Value::as_bool ](v: &serde_json::Value) -> (r: Option<bool>)
    ensures
        r == (match value_model(*v) {
            JsonModel::Boolean(b) => Some(b),
            _ => None,
        }),
;

/// `Value::is_null`: whether the value is `null`.
pub assume_specification[ serde_json::Value::is_null ](v: &serde_json::Value) -> (r: bool)
    ensures
        r == (value_model(*v) is Null),
;

/// `Value::as_str`: the text where the value is a string.
pub assume_specification<'a>[ serde_json::Value::as_str ](v: &'a serde_json::Value) -> (r: Option<
    &'a str,
>)
    ensures
        match value_model(*v) {
            JsonModel::Text(s) => r is Some && r->0@ == s,
            _ => r is None,
        },
;

/// `Value::as_array`: the elements where the value is an array.
pub assume_specification<'a>[ serde_json::Value::as_array ](v: &'a serde_json::Value) -> (r: Option<
    &'a Vec<serde_json::Value>,
>)
    ensures
        match value_model(*v) {
            JsonModel::List(items) => r is Some && r->0@.len() == items.len() && forall|i: int|
                0 <= i < items.len() ==> value_model(#[trigger] r->0@[i]) == items[i],
            _ => r is None,
        },
;

/// `Value::clone`: a value that holds the same.
pub assume_specification[ <serde_json::Value as Clone>::clone ](
    v: &serde_json::Value,
) -> (r: serde_json::Value)
    ensures
        value_model(r) == value_model(*v),
;

/// The member `key` where it is there and not `null`.
pub open spec fn present(m: JsonModel, key: Seq<char>) -> Option<JsonModel> {
    match member(m, key) {
        Some(JsonModel::Null) => None,
        other => other,
    }
}

/// The text of a string.
pub open spec fn text_of(m: JsonModel) -> Option<Seq<char>> {
    match m {
        JsonModel::Text(s) => Some(s),
        _ => None,
    }
}

/// The value of a boolean.
pub open spec fn bool_of(m: JsonModel) -> Option<bool> {
    match m {
        JsonModel::Boolean(b) => Some(b),
        _ => None,
    }
}

/// The integer of a number that fits `u32`.
pub open spec fn u32_of(m: JsonModel) -> Option<u32> {
    match integer_within(m, 0, u32::MAX as int) {
        Some(n) => Some(n as u32),
        None => None,
    }
}

/// The integer of a number that fits `u64`.
pub open spec fn u64_of(m: JsonModel) -> Option<u64> {
    match integer_within(m, 0, u64::MAX as int) {
        Some(n) => Some(n as u64),
        None => None,
    }
}

/// The integer of a number that fits `i32`.
pub open spec fn i32_of(m: JsonModel) -> Option<i32> {
    match integer_within(m, i32::MIN as int, i32::MAX as int) {
        Some(n) => Some(n as i32),
        None => None,
    }
}

/// The integer of a number that fits `i64`.
pub open spec fn i64_of(m: JsonModel) -> Option<i64> {
    match integer_within(m, i64::MIN as int, i64::MAX as int) {
        Some(n) => Some(n as i64),
        None => None,
    }
}

/// The text of an optional string.
pub open spec fn opt_text(s: Option<String>) -> Option<Seq<char>> {
    match s {
        Some(s) => Some(s@),
        None => None,
    }
}

/// The member `key` where it is there and not `null`.
pub fn value_present<'a>(v: &'a serde_json::Value, key: &str) -> (r: Option<&'a serde_json::Value>)
    ensures
        match present(value_model(*v), key@) {
            Some(m) => r is Some && value_model(*r->0) == m,
            None => r is None,
        },
{
    match value_member(v, key) {
        Some(found) => if found.is_null() {
            None
        } else {
            Some(found)
        },
        None => None,
    }
}

/// Reads a string.
pub fn read_text(v: &serde_json::Value) -> (r: Option<String>)
    ensures
        opt_text(r) == text_of(value_model(*v)),
{
    match v.as_str() {
        Some(s) => Some(s.to_owned()),
        None => None,
    }
}

/// Reads a boolean.
pub fn read_bool(v: &serde_json::Value) -> (r: Option<bool>)
    ensures
        r == bool_of(value_model(*v)),
{
    v.as_bool()
}

/// Reads an integer that fits `u32`.
pub fn read_u32(v: &serde_json::Value) -> (r: Option<u32>)
    ensures
        r == u32_of(value_model(*v)),
{
    match v.as_u64() {
        Some(n) => if n <= 0xffff_ffff {
            Some(n as u32)
        } else {
            None
        },
        None => None,
    }
}

/// Reads an integer that fits `u64`.
pub fn read_u64(v: &serde_json::Value) -> (r: Option<u64>)
    ensures
        r == u64_of(value_model(*v)),
{
    v.as_u64()
}

/// Reads an integer that fits `i32`.
pub fn read_i32(v: &serde_json::Value) -> (r: Option<i32>)
    ensures
        r == i32_of(value_model(*v)),
{
    match v.as_i64() {
        Some(n) => if -0x8000_0000 <= n && n <= 0x7fff_ffff {
            Some(n as i32)
        } else {
            None
        },
        None => None,
    }
}

/// Reads an integer that fits `i64`.
pub fn read_i64(v: &serde_json::Value) -> (r: Option<i64>)
    ensures
        r == i64_of(value_model(*v)),
{
    v.as_i64()
}

/// A type whose values are read from JSON.
pub trait FromJson: Sized {
    /// Whether `m` holds this value.
    spec fn reads(&self, m: JsonModel) -> bool;

    /// Reads a value of the type from `v`; nothing exactly where `v` holds
    /// none.
    fn from_json(v: &serde_json::Value) -> (r: Option<Self>)
        ensures
            match r {
                Some(value) => value.reads(value_model(*v)),
                None => forall|value: Self| !value.reads(value_model(*v)),
            },
    ;
}

impl FromJson for bool {
    open spec fn reads(&self, m: JsonModel) -> bool {
        bool_of(m) == Some(*self)
    }

    fn from_json(v: &serde_json::Value) -> (r: Option<bool>) {
        read_bool(v)
    }
}

impl FromJson for u32 {
    open spec fn reads(&self, m: JsonModel) -> bool {
        u32_of(m) == Some(*self)
    }

    fn from_json(v: &serde_json::Value) -> (r: Option<u32>) {
        read_u32(v)
    }
}

impl FromJson for u64 {
    open spec fn reads(&self, m: JsonModel) -> bool {
        u64_of(m) == Some(*self)
    }

    fn from_json(v: &serde_json::Value) -> (r: Option<u64>) {
        read_u64(v)
    }
}

impl FromJson for i32 {
    open spec fn reads(&self, m: JsonModel) -> bool {
        i32_of(m) == Some(*self)
    }

    fn from_json(v: &serde_json::Value) -> (r: Option<i32>) {
        read_i32(v)
    }
}

impl FromJson for i64 {
    open spec fn reads(&self, m: JsonModel) -> bool {
        i64_of(m) == Some(*self)
    }

    fn from_json(v: &serde_json::Value) -> (r: Option<i64>) {
        read_i64(v)
    }
}

impl FromJson for String {
    open spec fn reads(&self, m: JsonModel) -> bool {
        text_of(m) == Some(self@)
    }

    fn from_json(v: &serde_json::Value) -> (r: Option<String>) {
        read_text(v)
    }
}

/// Any JSON value reads as itself.
impl FromJson for serde_json::Value {
    open spec fn reads(&self, m: JsonModel) -> bool {
        value_model(*self) == m
    }

    fn from_json(v: &serde_json::Value) -> (r: Option<serde_json::Value>) {
        Some(v.clone())
    }
}

/// A pair reads from an array of two.
impl<A: FromJson, B: FromJson> FromJson for (A, B) {
    open spec fn reads(&self, m: JsonModel) -> bool {
        match m {
            JsonModel::List(items) => items.len() == 2 && self.0.reads(items[0]) && self.1.reads(
                items[1],
            ),
            _ => false,
        }
    }

    fn from_json(v: &serde_json::Value) -> (r: Option<(A, B)>) {
        let items = v.as_array()?;
        if items.len() != 2 {
            return None;
        }
        let first = A::from_json(&items[0])?;
        let second = B::from_json(&items[1])?;
        Some((first, second))
    }
}

/// A list reads from an array, item by item.
impl<T: FromJson> FromJson for Vec<T> {
    open spec fn reads(&self, m: JsonModel) -> bool {
        match m {
            JsonModel::List(items) => self@.len() == items.len() && forall|i: int|
                0 <= i < items.len() ==> (#[trigger] self@[i]).reads(items[i]),
            _ => false,
        }
    }

    fn from_json(v: &serde_json::Value) -> (r: Option<Vec<T>>) {
        let items = v.as_array()?;
        let ghost models = value_model(*v)->List_0;
        let mut out: Vec<T> = Vec::new();
        let mut i: usize = 0;
        while i < items.len()
            invariant
                value_model(*v) == JsonModel::List(models),
                i <= items@.len(),
                items@.len() == models.len(),
                forall|j: int|
                    0 <= j < models.len() ==> value_model(#[trigger] items@[j]) == models[j],
                out@.len() == i,
                forall|j: int| 0 <= j < i ==> (#[trigger] out@[j]).reads(models[j]),
            decreases items@.len() - i,
        {
            match T::from_json(&items[i]) {
                Some(item) => {
                    out.push(item);
                },
                None => {
                    assert forall|other: Vec<T>| !other.reads(value_model(*v)) by {
                        if other.reads(value_model(*v)) {
                            assert(other@[i as int].reads(models[i as int]));
                        }
                    }
                    return None;
                },
            }
            i += 1;
        }
        Some(out)
    }
}

/// Whether `value` is the member `key` of `m`, which must be there.
pub open spec fn field_reads<T: FromJson>(value: T, m: JsonModel, key: Seq<char>) -> bool {
    match member(m, key) {
        Some(found) => value.reads(found),
        None => false,
    }
}

/// Whether `value` is the member `key` of `m`, which may be missing or
/// `null`: the value is nothing then.
pub open spec fn opt_field_reads<T: FromJson>(
    value: Option<T>,
    m: JsonModel,
    key: Seq<char>,
) -> bool {
    match present(m, key) {
        Some(found) => value is Some && value->0.reads(found),
        None => value is None,
    }
}

/// Reads the member `key`, which must be there.
pub fn get_field<T: FromJson>(v: &serde_json::Value, key: &str) -> (r: Option<T>)
    ensures
        match r {
            Some(value) => field_reads(value, value_model(*v), key@),
            None => forall|value: T| !field_reads(value, value_model(*v), key@),
        },
{
    T::from_json(value_member(v, key)?)
}

/// Reads the member `key`, which may be missing or `null`.
pub fn get_opt_field<T: FromJson>(v: &serde_json::Value, key: &str) -> (r: Option<Option<T>>)
    ensures
        match r {
            Some(value) => opt_field_reads(value, value_model(*v), key@),
            None => forall|value: Option<T>| !opt_field_reads(value, value_model(*v), key@),
        },
{
    match value_present(v, key) {
        Some(found) => match T::from_json(found) {
            Some(value) => Some(Some(value)),
            None => None,
        },
        None => Some(None),
    }
}

} // verus!
