//! What reading a field says of the document.

use crate::error::{ConfigError, RvllmError};
use crate::hf::{
    bool_field_opt, f32_field, json_of, plain_names_are_members, str_field, usize_field, Json,
};
use crate::ids::F32Bits;
use crate::text::{number_value, split_at_char};
use vstd::prelude::*;

verus! {

/// A number is read exactly where the document is an object with a non-negative
/// integer under the name, and it is that integer. A name that is not there is
/// reported missing from the file, anything else as of the wrong type.
pub proof fn numbers_are_read_as_they_stand(
    v: serde_json::Value,
    field: &'static str,
    file: &str,
    r: Result<usize, RvllmError>,
)
    requires
        call_ensures(usize_field, (&v, field, file), r),
    ensures
        r is Ok <==> (json_of(v) matches Json::Object(m) && m.contains_key(field@)
            && m[field@] is Unsigned),
        r matches Ok(n) ==> (json_of(v) matches Json::Object(m) && (m[field@]->Unsigned_0
            <= usize::MAX ==> n == m[field@]->Unsigned_0)),
        r matches Err(e) ==> (e matches RvllmError::Config { err, field: f } && f == field && match
            err {
            ConfigError::MissingHfField { name, file: from } => name == field && from@ == file@ && !(
            json_of(v) matches Json::Object(m) && m.contains_key(field@)),
            ConfigError::HfTypeMismatch { name, expected } => name == field && (json_of(
                v,
            ) matches Json::Object(m) && m.contains_key(field@)),
        }),
{
}

/// A truth value is read exactly where the document is an object with one under
/// the name.
pub proof fn truth_values_are_read_as_they_stand(
    v: serde_json::Value,
    field: &'static str,
    r: Option<bool>,
)
    requires
        call_ensures(bool_field_opt, (&v, field), r),
    ensures
        r matches Some(b) ==> (json_of(v) matches Json::Object(m) && m.contains_key(field@)
            && m[field@] == Json::Bool(b)),
        r is None ==> !(json_of(v) matches Json::Object(m) && m.contains_key(field@)
            && m[field@] is Bool),
{
}

/// A text under a plain name is read exactly where the document is an object with
/// a text under the name, and it is that text.
pub proof fn texts_are_read_as_they_stand(
    v: serde_json::Value,
    name: &'static str,
    file: &str,
    r: Result<String, RvllmError>,
)
    requires
        call_ensures(str_field, (&v, name, file), r),
        !name@.contains('.'),
        number_value(name@, usize::MAX as nat) is None,
    ensures
        r is Ok <==> (json_of(v) matches Json::Object(m) && m.contains_key(name@)
            && m[name@] is Text),
        r matches Ok(s) ==> (json_of(v) matches Json::Object(m) && m[name@] == Json::Text(s@)),
{
    plain_names_are_members(json_of(v), name@);
}

/// A text under a name, a dot and an index is that of the list under the name.
pub proof fn texts_are_read_from_lists(
    v: serde_json::Value,
    dotted: &'static str,
    name: Seq<char>,
    index: Seq<char>,
    n: nat,
    file: &str,
    r: Result<String, RvllmError>,
)
    requires
        call_ensures(str_field, (&v, dotted, file), r),
        split_at_char(dotted@, '.') == seq![name, index],
        number_value(name, usize::MAX as nat) is None,
        number_value(index, usize::MAX as nat) == Some(n),
    ensures
        r is Ok <==> (json_of(v) matches Json::Object(m) && m.contains_key(name) && (
        m[name] matches Json::Array(a) && n < a.len() && a[n as int] is Text)),
        r matches Ok(s) ==> (json_of(v) matches Json::Object(m) && (m[name] matches Json::Array(a)
            && a[n as int] == Json::Text(s@))),
{
    let path = seq![name, index];
    let j = json_of(v);
    assert(path.drop_last() =~= seq![name]);
    assert(seq![name].drop_last() =~= Seq::empty());
    assert(j.walk(Seq::empty()) == Some(j));
    assert(j.walk(seq![name]) == j.member(name));
}

/// A number in single precision is handed on as it was read.
pub proof fn singles_are_handed_on(
    number: Option<F32Bits>,
    field: &'static str,
    file: &str,
    r: Result<F32Bits, RvllmError>,
)
    requires
        call_ensures(f32_field, (number, field, file), r),
    ensures
        r is Ok <==> number is Some,
        r matches Ok(x) ==> number == Some(x),
{
}

} // verus!
