//! The library's own JSON tree, filled by serde_json's parser, and the typed
//! field readers that the record decoders are written with.
use serde_json::Error as JsonError;
use vstd::prelude::*;

use crate::text::{parse_u64, u64_of_text};

verus! {

#[verifier::external_type_specification]
#[verifier::external_body]
pub struct ExJsonError(JsonError);

#[verifier::external_type_specification]
#[verifier::external_body]
pub struct ExJsonValue(serde_json::Value);

/// One JSON value. A number keeps the text that serde_json renders for it;
/// an object keeps its members in serde_json's order, each key once.
#[derive(Debug)]
pub enum Json {
    Null,
    Bool(bool),
    Number(String),
    Str(String),
    Array(Vec<Json>),
    Object(Vec<(String, Json)>),
}

/// Why a JSON document was not accepted as the expected record.
#[derive(Debug)]
pub enum CodecError {
    /// The bytes are not a JSON document.
    Syntax { message: String },
    /// `what` (a field or a record) holds a value of another JSON type.
    InvalidType { what: String, expected: String },
    /// The field `field` is absent.
    MissingField { field: String },
    /// `value` is not one of the tokens that `expected` lists.
    InvalidValue { value: String, expected: String },
}

/// The model of a [`CodecError`].
pub enum CodecFault {
    Syntax(Seq<char>),
    InvalidType(Seq<char>, Seq<char>),
    MissingField(Seq<char>),
    InvalidValue(Seq<char>, Seq<char>),
}

impl View for CodecError {
    type V = CodecFault;

    open spec fn view(&self) -> CodecFault {
        match self {
            CodecError::Syntax { message } => CodecFault::Syntax(message@),
            CodecError::InvalidType { what, expected } => CodecFault::InvalidType(
                what@,
                expected@,
            ),
            CodecError::MissingField { field } => CodecFault::MissingField(field@),
            CodecError::InvalidValue { value, expected } => CodecFault::InvalidValue(
                value@,
                expected@,
            ),
        }
    }
}

/// The document that serde_json reads from `b`, or `None` where it refuses `b`.
pub uninterp spec fn json_of_bytes(b: Seq<u8>) -> Option<Json>;

/// Relies on serde_json::from_slice into serde_json::Value: it parses the bytes
/// as one JSON document or refuses them, and the outcome depends on the bytes
/// alone (objects are kept in serde_json's sorted map).
#[verifier::external_body]
pub(crate) fn parse_json(bytes: &[u8]) -> (r: Result<Json, JsonError>)
    ensures
        match r {
            Ok(j) => json_of_bytes(bytes@) == Some(j),
            Err(_) => json_of_bytes(bytes@) is None,
        },
{
    serde_json::from_slice::<serde_json::Value>(bytes).map(json_from_value)
}

/// Copies a serde_json::Value into a [`Json`], node for node; a number is kept
/// as serde_json's text for it. Only [`parse_json`] calls it.
#[verifier::external_body]
fn json_from_value(v: serde_json::Value) -> Json {
    match v {
        serde_json::Value::Null => Json::Null,
        serde_json::Value::Bool(b) => Json::Bool(b),
        serde_json::Value::Number(n) => Json::Number(n.to_string()),
        serde_json::Value::String(s) => Json::Str(s),
        serde_json::Value::Array(a) => Json::Array(a.into_iter().map(json_from_value).collect()),
        serde_json::Value::Object(m) => Json::Object(
            m.into_iter().map(|(k, x)| (k, json_from_value(x))).collect(),
        ),
    }
}

/// The first member of `entries` named `key`.
pub open spec fn find_member(entries: Seq<(String, Json)>, key: Seq<char>) -> Option<Json>
    decreases entries.len(),
{
    if entries.len() == 0 {
        None
    } else if entries[0].0@ == key {
        Some(entries[0].1)
    } else {
        find_member(entries.drop_first(), key)
    }
}

/// The member `key` of `j`, where `j` is an object that has one.
pub open spec fn member(j: Json, key: Seq<char>) -> Option<Json> {
    match j {
        Json::Object(entries) => find_member(entries@, key),
        _ => None,
    }
}

pub open spec fn fault_of<T>(r: Result<T, CodecFault>) -> Option<CodecFault> {
    match r {
        Ok(_) => None,
        Err(f) => Some(f),
    }
}

/// The first of two possible faults.
pub open spec fn or_fault(a: Option<CodecFault>, b: Option<CodecFault>) -> Option<CodecFault> {
    if a is Some {
        a
    } else {
        b
    }
}

/// The fault of a record named `name` whose JSON is not an object.
pub open spec fn object_fault(j: Json, name: Seq<char>) -> Option<CodecFault> {
    if j is Object {
        None
    } else {
        Some(CodecFault::InvalidType(name, "an object"@))
    }
}

/// A required string member.
pub open spec fn str_member(j: Json, key: Seq<char>) -> Result<Seq<char>, CodecFault> {
    match member(j, key) {
        None => Err(CodecFault::MissingField(key)),
        Some(Json::Str(s)) => Ok(s@),
        Some(_) => Err(CodecFault::InvalidType(key, "a string"@)),
    }
}

/// An optional string member: absent and `null` both read as `None`.
pub open spec fn opt_str_member(j: Json, key: Seq<char>) -> Result<Option<Seq<char>>, CodecFault> {
    match member(j, key) {
        None => Ok(None),
        Some(Json::Null) => Ok(None),
        Some(Json::Str(s)) => Ok(Some(s@)),
        Some(_) => Err(CodecFault::InvalidType(key, "a string"@)),
    }
}

/// A JSON value read as a `u64`.
pub open spec fn u64_value(v: Json, what: Seq<char>) -> Result<u64, CodecFault> {
    match v {
        Json::Number(t) => match u64_of_text(t@) {
            Some(n) => Ok(n),
            None => Err(CodecFault::InvalidType(what, "an unsigned integer"@)),
        },
        _ => Err(CodecFault::InvalidType(what, "an unsigned integer"@)),
    }
}

/// A required unsigned integer member.
pub open spec fn u64_member(j: Json, key: Seq<char>) -> Result<u64, CodecFault> {
    match member(j, key) {
        None => Err(CodecFault::MissingField(key)),
        Some(v) => u64_value(v, key),
    }
}

/// An optional unsigned integer member: absent and `null` both read as `None`.
pub open spec fn opt_u64_member(j: Json, key: Seq<char>) -> Result<Option<u64>, CodecFault> {
    match member(j, key) {
        None => Ok(None),
        Some(Json::Null) => Ok(None),
        Some(v) => match u64_value(v, key) {
            Ok(n) => Ok(Some(n)),
            Err(f) => Err(f),
        },
    }
}

/// A required boolean member.
pub open spec fn bool_member(j: Json, key: Seq<char>) -> Result<bool, CodecFault> {
    match member(j, key) {
        None => Err(CodecFault::MissingField(key)),
        Some(Json::Bool(b)) => Ok(b),
        Some(_) => Err(CodecFault::InvalidType(key, "a boolean"@)),
    }
}

/// Whether every item of `items` is a JSON string.
pub open spec fn all_strings(items: Seq<Json>) -> bool {
    forall|i: int| 0 <= i < items.len() ==> (#[trigger] items[i]) is Str
}

/// A required member that is a list of strings.
pub open spec fn str_list_member(j: Json, key: Seq<char>) -> Result<Seq<Seq<char>>, CodecFault> {
    match member(j, key) {
        None => Err(CodecFault::MissingField(key)),
        Some(Json::Array(items)) => if all_strings(items@) {
            Ok(items@.map_values(|x: Json| x->Str_0@))
        } else {
            Err(CodecFault::InvalidType(key, "a list of strings"@))
        },
        Some(_) => Err(CodecFault::InvalidType(key, "a list of strings"@)),
    }
}

impl Json {
    /// Whether this value is an object.
    pub fn is_object(&self) -> (r: bool)
        ensures
            r == (*self is Object),
    {
        match self {
            Json::Object(_) => true,
            _ => false,
        }
    }

    /// The member `key` of this object.
    pub fn member(&self, key: &str) -> (r: Option<&Json>)
        ensures
            match r {
                Some(v) => member(*self, key@) == Some(*v),
                None => member(*self, key@) is None,
            },
    {
        match self {
            Json::Object(entries) => {
                let wanted = String::from_str(key);
                let n = entries.len();
                let mut i: usize = 0;
                assert(entries@.subrange(0, n as int) =~= entries@);
                while i < n
                    invariant
                        *self == Json::Object(*entries),
                        wanted@ == key@,
                        n == entries@.len(),
                        i <= n,
                        find_member(entries@, key@) == find_member(
                            entries@.subrange(i as int, n as int),
                            key@,
                        ),
                    decreases n - i,
                {
                    let ghost rest = entries@.subrange(i as int, n as int);
                    assert(rest.drop_first() =~= entries@.subrange(i + 1, n as int));
                    assert(rest[0] == entries@[i as int]);
                    if entries[i].0 == wanted {
                        return Some(&entries[i].1);
                    }
                    i = i + 1;
                }
                assert(entries@.subrange(n as int, n as int).len() == 0);
                None
            },
            _ => None,
        }
    }
}

/// A name of the wire format, as an owned string for an error.
pub fn name_text(s: &str) -> (r: String)
    ensures
        r@ == s@,
{
    String::from_str(s)
}

/// Refuses a record named `name` whose JSON is not an object.
pub fn object_check(j: &Json, name: &str) -> (r: Result<(), CodecError>)
    ensures
        match r {
            Ok(_) => object_fault(*j, name@) is None,
            Err(e) => object_fault(*j, name@) == Some(e@),
        },
{
    if j.is_object() {
        Ok(())
    } else {
        Err(CodecError::InvalidType { what: name_text(name), expected: name_text("an object") })
    }
}

/// Reads the required string member `key`.
pub fn req_str(j: &Json, key: &str) -> (r: Result<String, CodecError>)
    ensures
        match r {
            Ok(s) => str_member(*j, key@) == Ok::<Seq<char>, CodecFault>(s@),
            Err(e) => str_member(*j, key@) == Err::<Seq<char>, CodecFault>(e@),
        },
{
    match j.member(key) {
        None => Err(CodecError::MissingField { field: name_text(key) }),
        Some(Json::Str(s)) => Ok(s.clone()),
        Some(_) => Err(CodecError::InvalidType { what: name_text(key), expected: name_text("a string") }),
    }
}

/// Reads the optional string member `key`.
pub fn opt_str(j: &Json, key: &str) -> (r: Result<Option<String>, CodecError>)
    ensures
        match r {
            Ok(Some(s)) => opt_str_member(*j, key@) == Ok::<_, CodecFault>(Some(s@)),
            Ok(None) => opt_str_member(*j, key@) == Ok::<Option<Seq<char>>, CodecFault>(None),
            Err(e) => opt_str_member(*j, key@) == Err::<Option<Seq<char>>, CodecFault>(e@),
        },
{
    match j.member(key) {
        None => Ok(None),
        Some(Json::Null) => Ok(None),
        Some(Json::Str(s)) => Ok(Some(s.clone())),
        Some(_) => Err(CodecError::InvalidType { what: name_text(key), expected: name_text("a string") }),
    }
}

/// Reads `v` as a `u64`; `what` names it in the error.
pub fn read_u64(v: &Json, what: &str) -> (r: Result<u64, CodecError>)
    ensures
        match r {
            Ok(n) => u64_value(*v, what@) == Ok::<u64, CodecFault>(n),
            Err(e) => u64_value(*v, what@) == Err::<u64, CodecFault>(e@),
        },
{
    let parsed = match v {
        Json::Number(t) => parse_u64(t.as_str()),
        _ => None,
    };
    match parsed {
        Some(n) => Ok(n),
        None => Err(CodecError::InvalidType { what: name_text(what), expected: name_text("an unsigned integer") }),
    }
}

/// Reads the required unsigned integer member `key`.
pub fn req_u64(j: &Json, key: &str) -> (r: Result<u64, CodecError>)
    ensures
        match r {
            Ok(n) => u64_member(*j, key@) == Ok::<u64, CodecFault>(n),
            Err(e) => u64_member(*j, key@) == Err::<u64, CodecFault>(e@),
        },
{
    match j.member(key) {
        None => Err(CodecError::MissingField { field: name_text(key) }),
        Some(v) => read_u64(v, key),
    }
}

/// Reads the optional unsigned integer member `key`.
pub fn opt_u64(j: &Json, key: &str) -> (r: Result<Option<u64>, CodecError>)
    ensures
        match r {
            Ok(n) => opt_u64_member(*j, key@) == Ok::<Option<u64>, CodecFault>(n),
            Err(e) => opt_u64_member(*j, key@) == Err::<Option<u64>, CodecFault>(e@),
        },
{
    match j.member(key) {
        None => Ok(None),
        Some(Json::Null) => Ok(None),
        Some(v) => match read_u64(v, key) {
            Ok(n) => Ok(Some(n)),
            Err(e) => Err(e),
        },
    }
}

/// Reads the required boolean member `key`.
pub fn req_bool(j: &Json, key: &str) -> (r: Result<bool, CodecError>)
    ensures
        match r {
            Ok(b) => bool_member(*j, key@) == Ok::<bool, CodecFault>(b),
            Err(e) => bool_member(*j, key@) == Err::<bool, CodecFault>(e@),
        },
{
    match j.member(key) {
        None => Err(CodecError::MissingField { field: name_text(key) }),
        Some(Json::Bool(b)) => Ok(*b),
        Some(_) => Err(CodecError::InvalidType { what: name_text(key), expected: name_text("a boolean") }),
    }
}

/// Reads the required member `key`, a list of strings.
pub fn req_str_list(j: &Json, key: &str) -> (r: Result<Vec<String>, CodecError>)
    ensures
        match r {
            Ok(v) => str_list_member(*j, key@) == Ok::<Seq<Seq<char>>, CodecFault>(
                v@.map_values(|s: String| s@),
            ),
            Err(e) => str_list_member(*j, key@) == Err::<Seq<Seq<char>>, CodecFault>(e@),
        },
{
    match j.member(key) {
        None => Err(CodecError::MissingField { field: name_text(key) }),
        Some(Json::Array(items)) => {
            let mut out: Vec<String> = Vec::new();
            let n = items.len();
            let mut i: usize = 0;
            while i < n
                invariant
                    member(*j, key@) == Some(Json::Array(*items)),
                    n == items@.len(),
                    i <= n,
                    out@.len() == i,
                    all_strings(items@.subrange(0, i as int)),
                    forall|k: int| 0 <= k < i ==> (#[trigger] out@[k])@ == items@[k]->Str_0@,
                decreases n - i,
            {
                match &items[i] {
                    Json::Str(s) => {
                        out.push(s.clone());
                    },
                    _ => {
                        assert(!(items@[i as int] is Str));
                        assert(!all_strings(items@));
                        return Err(CodecError::InvalidType { what: name_text(key), expected: name_text("a list of strings") });
                    },
                }
                assert(all_strings(items@.subrange(0, i + 1))) by {
                    assert forall|k: int| 0 <= k < i + 1 implies (#[trigger] items@.subrange(0, i + 1)[k]) is Str by {
                        assert(items@.subrange(0, i + 1)[k] == items@[k]);
                        if k < i {
                            assert(items@.subrange(0, i as int)[k] == items@[k]);
                        }
                    }
                }
                i = i + 1;
            }
            assert(items@.subrange(0, n as int) =~= items@);
            assert(out@.map_values(|s: String| s@) =~= items@.map_values(|x: Json| x->Str_0@));
            Ok(out)
        },
        Some(_) => Err(CodecError::InvalidType { what: name_text(key), expected: name_text("a list of strings") }),
    }
}

/// A record that can be read from a JSON value.
pub trait FromJson: Sized {
    /// Why `j` is refused, or `None` where it is accepted.
    spec fn json_fault(j: Json) -> Option<CodecFault>;

    /// `v` is the record that `j` holds.
    spec fn decodes(j: Json, v: Self) -> bool;

    fn from_json(j: &Json) -> (r: Result<Self, CodecError>)
        ensures
            match r {
                Ok(v) => Self::json_fault(*j) is None && Self::decodes(*j, v),
                Err(e) => Self::json_fault(*j) == Some(e@),
            },
    ;
}

/// The first fault among `items[i..]`.
pub open spec fn items_fault<T: FromJson>(items: Seq<Json>, i: int) -> Option<CodecFault>
    decreases items.len() - i,
{
    if i < 0 || i >= items.len() {
        None
    } else {
        or_fault(T::json_fault(items[i]), items_fault::<T>(items, i + 1))
    }
}

/// A JSON list of records: every item is decoded, and the first item refused
/// decides the error.
impl<T: FromJson> FromJson for Vec<T> {
    open spec fn json_fault(j: Json) -> Option<CodecFault> {
        match j {
            Json::Array(items) => items_fault::<T>(items@, 0),
            _ => Some(CodecFault::InvalidType("a list"@, "an array"@)),
        }
    }

    open spec fn decodes(j: Json, v: Self) -> bool {
        &&& j is Array
        &&& v@.len() == j->Array_0@.len()
        &&& forall|k: int| 0 <= k < v@.len() ==> T::decodes(j->Array_0@[k], #[trigger] v@[k])
    }

    fn from_json(j: &Json) -> (r: Result<Self, CodecError>) {
        match j {
            Json::Array(items) => {
                let mut out: Vec<T> = Vec::new();
                let n = items.len();
                let mut i: usize = 0;
                while i < n
                    invariant
                        *j == Json::Array(*items),
                        n == items@.len(),
                        i <= n,
                        out@.len() == i,
                        items_fault::<T>(items@, 0) == items_fault::<T>(items@, i as int),
                        forall|k: int| 0 <= k < i ==> T::decodes(items@[k], #[trigger] out@[k]),
                    decreases n - i,
                {
                    assert(items_fault::<T>(items@, i as int) == or_fault(
                        T::json_fault(items@[i as int]),
                        items_fault::<T>(items@, i + 1),
                    ));
                    match T::from_json(&items[i]) {
                        Ok(v) => {
                            out.push(v);
                        },
                        Err(e) => {
                            return Err(e);
                        },
                    }
                    i = i + 1;
                }
                Ok(out)
            },
            _ => Err(CodecError::InvalidType { what: name_text("a list"), expected: name_text("an array") }),
        }
    }
}

/// The model of an optional string.
pub open spec fn opt_view(o: Option<String>) -> Option<Seq<char>> {
    match o {
        Some(s) => Some(s@),
        None => None,
    }
}

/// A required member that holds a nested record.
pub open spec fn record_fault<T: FromJson>(j: Json, key: Seq<char>) -> Option<CodecFault> {
    match member(j, key) {
        None => Some(CodecFault::MissingField(key)),
        Some(x) => T::json_fault(x),
    }
}

/// `v` is the nested record that the member `key` holds.
pub open spec fn record_member<T: FromJson>(j: Json, key: Seq<char>, v: T) -> bool {
    match member(j, key) {
        None => false,
        Some(x) => T::decodes(x, v),
    }
}

/// Reads the required member `key`, a nested record.
pub fn req_record<T: FromJson>(j: &Json, key: &str) -> (r: Result<T, CodecError>)
    ensures
        match r {
            Ok(v) => record_fault::<T>(*j, key@) is None && record_member::<T>(*j, key@, v),
            Err(e) => record_fault::<T>(*j, key@) == Some(e@),
        },
{
    match j.member(key) {
        None => Err(CodecError::MissingField { field: name_text(key) }),
        Some(x) => T::from_json(x),
    }
}

/// Item `i` of a positional record, a string named `name`.
pub open spec fn str_at(items: Seq<Json>, i: int, name: Seq<char>) -> Result<Seq<char>, CodecFault> {
    if i >= items.len() {
        Err(CodecFault::MissingField(name))
    } else {
        match items[i] {
            Json::Str(s) => Ok(s@),
            _ => Err(CodecFault::InvalidType(name, "a string"@)),
        }
    }
}

/// Item `i` of a positional record, an unsigned integer named `name`.
pub open spec fn u64_at(items: Seq<Json>, i: int, name: Seq<char>) -> Result<u64, CodecFault> {
    if i >= items.len() {
        Err(CodecFault::MissingField(name))
    } else {
        u64_value(items[i], name)
    }
}

/// Reads item `i` of a positional record, a string named `name`.
pub fn item_str(items: &Vec<Json>, i: usize, name: &str) -> (r: Result<String, CodecError>)
    ensures
        match r {
            Ok(s) => str_at(items@, i as int, name@) == Ok::<Seq<char>, CodecFault>(s@),
            Err(e) => str_at(items@, i as int, name@) == Err::<Seq<char>, CodecFault>(e@),
        },
{
    if i >= items.len() {
        Err(CodecError::MissingField { field: name_text(name) })
    } else {
        match &items[i] {
            Json::Str(s) => Ok(s.clone()),
            _ => Err(CodecError::InvalidType { what: name_text(name), expected: name_text("a string") }),
        }
    }
}

/// Reads item `i` of a positional record, an unsigned integer named `name`.
pub fn item_u64(items: &Vec<Json>, i: usize, name: &str) -> (r: Result<u64, CodecError>)
    ensures
        match r {
            Ok(n) => u64_at(items@, i as int, name@) == Ok::<u64, CodecFault>(n),
            Err(e) => u64_at(items@, i as int, name@) == Err::<u64, CodecFault>(e@),
        },
{
    if i >= items.len() {
        Err(CodecError::MissingField { field: name_text(name) })
    } else {
        read_u64(&items[i], name)
    }
}

} // verus!
