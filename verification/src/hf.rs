//! Reading fields of a Hugging Face `config.json`.
//!
//! Nothing is defaulted: a field that is missing or of the wrong type is an
//! error that names it.

use crate::error::{ConfigError, RvllmError};
use crate::ids::F32Bits;
use crate::text::{number_value, parse_number, split_at_char, split_has_piece};
use vstd::prelude::*;

verus! {

/// `serde_json::Value`, a parsed JSON document.
#[verifier::external_type_specification]
#[verifier::external_body]
pub struct ExValue(serde_json::Value);

/// What a JSON value holds. Numbers other than integers from zero to `u64::MAX`
/// are not told apart.
pub enum Json {
    Null,
    Bool(bool),
    Unsigned(u64),
    OtherNumber,
    Text(Seq<char>),
    Array(Seq<Json>),
    Object(Map<Seq<char>, Json>),
}

/// What a `serde_json::Value` holds.
pub uninterp spec fn json_of(v: serde_json::Value) -> Json;

impl Json {
    /// The member of an object under a key.
    pub open spec fn member(self, key: Seq<char>) -> Option<Json> {
        match self {
            Json::Object(m) => if m.contains_key(key) {
                Some(m[key])
            } else {
                None
            },
            _ => None,
        }
    }

    /// The element of an array at an index.
    pub open spec fn element(self, index: nat) -> Option<Json> {
        match self {
            Json::Array(a) => if index < a.len() {
                Some(a[index as int])
            } else {
                None
            },
            _ => None,
        }
    }

    /// One step of a dotted path. A piece that is a number selects from an
    /// array, any other piece from an object.
    pub open spec fn step(self, piece: Seq<char>) -> Option<Json> {
        match number_value(piece, usize::MAX as nat) {
            Some(i) => self.element(i),
            None => self.member(piece),
        }
    }

    /// What a path leads to, piece by piece.
    pub open spec fn walk(self, path: Seq<Seq<char>>) -> Option<Json>
        decreases path.len(),
    {
        if path.len() == 0 {
            Some(self)
        } else {
            match self.walk(path.drop_last()) {
                Some(j) => j.step(path.last()),
                None => None,
            }
        }
    }
}

/// `serde_json::Value::get` with a string: the member of an object under the
/// key; `None` where the key is not there or the value is no object.
#[verifier::external_body]
fn get_member<'v>(v: &'v serde_json::Value, key: &str) -> (r: Option<&'v serde_json::Value>)
    ensures
        match r {
            Some(x) => json_of(*v).member(key@) == Some(json_of(*x)),
            None => json_of(*v).member(key@) is None,
        },
{
    v.get(key)
}

/// `serde_json::Value::get` with an integer: the element of an array at the
/// index; `None` where the array is shorter or the value is no array.
#[verifier::external_body]
fn get_element<'v>(v: &'v serde_json::Value, index: usize) -> (r: Option<&'v serde_json::Value>)
    ensures
        match r {
            Some(x) => json_of(*v).element(index as nat) == Some(json_of(*x)),
            None => json_of(*v).element(index as nat) is None,
        },
{
    v.get(index)
}

/// `serde_json::Value::as_u64`: the number, where the value is an integer from
/// zero to `u64::MAX`.
#[verifier::external_body]
fn as_unsigned(v: &serde_json::Value) -> (r: Option<u64>)
    ensures
        r == match json_of(*v) {
            Json::Unsigned(n) => Some(n),
            _ => None,
        },
{
    v.as_u64()
}

/// `serde_json::Value::as_bool`: the truth value, where the value is one.
#[verifier::external_body]
fn as_boolean(v: &serde_json::Value) -> (r: Option<bool>)
    ensures
        r == match json_of(*v) {
            Json::Bool(b) => Some(b),
            _ => None,
        },
{
    v.as_bool()
}

/// `serde_json::Value::as_str`: the text, where the value is a string.
#[verifier::external_body]
fn as_text(v: &serde_json::Value) -> (r: Option<&str>)
    ensures
        match r {
            Some(s) => json_of(*v) == Json::Text(s@),
            None => !(json_of(*v) is Text),
        },
{
    v.as_str()
}

/// Whether `e` says that a field is missing from a file.
pub open spec fn is_missing(e: RvllmError, name: &'static str, file: Seq<char>) -> bool {
    e matches RvllmError::Config { err: ConfigError::MissingHfField { name: n, file: f }, field }
        && n == name && f@ == file && field == name
}

/// The error of a field of the wrong type.
pub open spec fn wrong_type(name: &'static str, expected: &'static str) -> RvllmError {
    RvllmError::Config { err: ConfigError::HfTypeMismatch { name, expected }, field: name }
}

fn missing(name: &'static str, file: &str) -> (r: RvllmError)
    ensures
        is_missing(r, name, file@),
{
    RvllmError::config(ConfigError::MissingHfField { name, file: file.to_owned() }, name)
}

fn mismatch(name: &'static str, expected: &'static str) -> (r: RvllmError)
    ensures
        r == wrong_type(name, expected),
{
    RvllmError::config(ConfigError::HfTypeMismatch { name, expected }, name)
}

/// A field that was looked up and must be a non-negative integer: `None` where
/// it is not there, `Some(None)` where it is something else.
pub fn usize_from(found: Option<Option<u64>>, field: &'static str, file: &str) -> (r: Result<
    usize,
    RvllmError,
>)
    ensures
        match found {
            Some(Some(n)) => r == Ok::<usize, RvllmError>(n as usize),
            Some(None) => r == Err::<usize, RvllmError>(
                wrong_type(field, "non-negative integer"),
            ),
            None => r is Err && is_missing(r->Err_0, field, file@),
        },
{
    match found {
        Some(Some(n)) => Ok(n as usize),
        Some(None) => Err(mismatch(field, "non-negative integer")),
        None => Err(missing(field, file)),
    }
}

/// A field that was looked up and must be a string: `None` where it is not
/// there, `Some(None)` where it is something else.
pub fn str_from(found: Option<Option<&str>>, field: &'static str, file: &str) -> (r: Result<
    String,
    RvllmError,
>)
    ensures
        match found {
            Some(Some(s)) => r is Ok && r->Ok_0@ == s@,
            Some(None) => r == Err::<String, RvllmError>(wrong_type(field, "string")),
            None => r is Err && is_missing(r->Err_0, field, file@),
        },
{
    match found {
        Some(Some(s)) => Ok(s.to_owned()),
        Some(None) => Err(mismatch(field, "string")),
        None => Err(missing(field, file)),
    }
}

/// A field that must be a non-negative integer.
pub fn usize_field(v: &serde_json::Value, field: &'static str, file: &str) -> (r: Result<
    usize,
    RvllmError,
>)
    ensures
        match json_of(*v).member(field@) {
            Some(Json::Unsigned(n)) => r == Ok::<usize, RvllmError>(n as usize),
            Some(_) => r == Err::<usize, RvllmError>(wrong_type(field, "non-negative integer")),
            None => r is Err && is_missing(r->Err_0, field, file@),
        },
{
    let found = match get_member(v, field) {
        Some(x) => Some(as_unsigned(x)),
        None => None,
    };
    usize_from(found, field, file)
}

/// A field that must be a number, rounded to single precision. `number` is the
/// field as it was read; `None` where it is not there or no number, which counts
/// as missing.
pub fn f32_field(number: Option<F32Bits>, field: &'static str, file: &str) -> (r: Result<
    F32Bits,
    RvllmError,
>)
    ensures
        match number {
            Some(x) => r == Ok::<F32Bits, RvllmError>(x),
            None => r is Err && is_missing(r->Err_0, field, file@),
        },
{
    match number {
        Some(x) => Ok(x),
        None => Err(missing(field, file)),
    }
}

/// A field that may be a truth value.
pub fn bool_field_opt(v: &serde_json::Value, field: &'static str) -> (r: Option<bool>)
    ensures
        r == match json_of(*v).member(field@) {
            Some(Json::Bool(b)) => Some(b),
            _ => None,
        },
{
    match get_member(v, field) {
        Some(x) => as_boolean(x),
        None => None,
    }
}

/// The index that a piece of a dotted path denotes.
pub fn parse_index(piece: &str) -> (r: Option<usize>)
    ensures
        match number_value(piece@, usize::MAX as nat) {
            Some(i) => r is Some && r->0 == i,
            None => r is None,
        },
{
    match parse_number(piece) {
        Some(n) => if n <= usize::MAX as u64 {
            Some(n as usize)
        } else {
            None
        },
        None => None,
    }
}

fn step_into<'v>(v: &'v serde_json::Value, piece: &str) -> (r: Option<&'v serde_json::Value>)
    ensures
        match r {
            Some(x) => json_of(*v).step(piece@) == Some(json_of(*x)),
            None => json_of(*v).step(piece@) is None,
        },
{
    match parse_index(piece) {
        Some(i) => get_element(v, i),
        None => get_member(v, piece),
    }
}

/// A prefix of a path that leads nowhere makes the path lead nowhere.
proof fn dead_ends_stay_dead(j: Json, path: Seq<Seq<char>>, n: int)
    requires
        0 <= n <= path.len(),
        j.walk(path.take(n)) is None,
    ensures
        j.walk(path) is None,
    decreases path.len() - n,
{
    if n == path.len() {
        assert(path.take(n) =~= path);
    } else {
        assert(path.take(n + 1).drop_last() =~= path.take(n));
        dead_ends_stay_dead(j, path, n + 1);
    }
}

/// All but the last piece of a prefix are pieces of the whole.
proof fn pieces_of_a_prefix(s: Seq<char>, n: int, sep: char)
    requires
        0 <= n <= s.len(),
    ensures
        ({
            let p = split_at_char(s.take(n), sep);
            let q = split_at_char(s, sep);
            &&& 1 <= p.len() <= q.len()
            &&& q.take(p.len() - 1) == p.drop_last()
        }),
    decreases s.len() - n,
{
    split_has_piece(s.take(n), sep);
    if n == s.len() {
        assert(s.take(n) =~= s);
    } else {
        pieces_of_a_prefix(s, n + 1, sep);
        assert(s.take(n + 1).drop_last() =~= s.take(n));
        let p = split_at_char(s.take(n), sep);
        let m = split_at_char(s.take(n + 1), sep);
        let q = split_at_char(s, sep);
        assert(p.drop_last() =~= m.take(p.len() - 1));
        assert(q.take(p.len() - 1) =~= q.take(m.len() - 1).take(p.len() - 1));
        assert(m.drop_last().take(p.len() - 1) =~= m.take(p.len() - 1));
    }
}

/// A field that must be a string, under a dotted path such as
/// `architectures.0`.
pub fn str_field(v: &serde_json::Value, dotted: &'static str, file: &str) -> (r: Result<
    String,
    RvllmError,
>)
    ensures
        match json_of(*v).walk(split_at_char(dotted@, '.')) {
            Some(Json::Text(s)) => r is Ok && r->Ok_0@ == s,
            Some(_) => r == Err::<String, RvllmError>(wrong_type(dotted, "string")),
            None => r is Err && is_missing(r->Err_0, dotted, file@),
        },
{
    let ghost whole = json_of(*v);
    let ghost path = split_at_char(dotted@, '.');
    let len: usize = dotted.unicode_len();
    let mut cur = v;
    let mut start: usize = 0;
    let mut i: usize = 0;
    proof {
        assert(dotted@.take(0) =~= Seq::empty());
        assert(split_at_char(dotted@.take(0), '.').drop_last() =~= Seq::empty());
    }
    while i < len
        invariant
            len == dotted@.len(),
            start <= i <= len,
            whole == json_of(*v),
            path == split_at_char(dotted@, '.'),
            split_at_char(dotted@.take(i as int), '.').len() >= 1,
            split_at_char(dotted@.take(i as int), '.').last() == dotted@.subrange(
                start as int,
                i as int,
            ),
            whole.walk(split_at_char(dotted@.take(i as int), '.').drop_last()) == Some(
                json_of(*cur),
            ),
        decreases len - i,
    {
        let ghost before = split_at_char(dotted@.take(i as int), '.');
        proof {
            assert(dotted@.take(i + 1).drop_last() =~= dotted@.take(i as int));
            assert(dotted@.take(i + 1).last() == dotted@[i as int]);
        }
        let ghost after = split_at_char(dotted@.take(i + 1), '.');
        if dotted.get_char(i) == '.' {
            let piece = dotted.substring_char(start, i);
            proof {
                assert(piece@ =~= before.last());
                assert(after.drop_last() =~= before);
            }
            match step_into(cur, piece) {
                Some(x) => {
                    cur = x;
                },
                None => {
                    proof {
                        pieces_of_a_prefix(dotted@, i + 1, '.');
                        assert(path.take(after.len() - 1) == before);
                        dead_ends_stay_dead(whole, path, after.len() - 1);
                    }
                    return Err(missing(dotted, file));
                },
            }
            start = i + 1;
            proof {
                assert(after.last() =~= dotted@.subrange(i + 1, i + 1));
            }
        } else {
            proof {
                assert(after.drop_last() =~= before.drop_last());
                assert(after.last() =~= dotted@.subrange(start as int, i + 1));
            }
        }
        i = i + 1;
    }
    proof {
        assert(dotted@.take(i as int) =~= dotted@);
    }
    let piece = dotted.substring_char(start, len);
    proof {
        assert(piece@ =~= path.last());
    }
    let found = match step_into(cur, piece) {
        Some(x) => Some(as_text(x)),
        None => None,
    };
    str_from(found, dotted, file)
}

/// A path without dots that is no number is the name of a member.
pub proof fn plain_names_are_members(j: Json, name: Seq<char>)
    requires
        !name.contains('.'),
        number_value(name, usize::MAX as nat) is None,
    ensures
        j.walk(split_at_char(name, '.')) == j.member(name),
{
    plain_names_are_one_piece(name);
    let path = split_at_char(name, '.');
    assert(path.drop_last() =~= Seq::empty());
    assert(j.walk(path.drop_last()) == Some(j));
    assert(path.last() == name);
}

proof fn plain_names_are_one_piece(name: Seq<char>)
    requires
        !name.contains('.'),
    ensures
        split_at_char(name, '.') == seq![name],
    decreases name.len(),
{
    if name.len() == 0 {
        assert(name =~= Seq::empty());
    } else {
        assert forall|c: char| name.drop_last().contains(c) implies name.contains(c) by {
            let i = choose|i: int| 0 <= i < name.drop_last().len() && name.drop_last()[i] == c;
            assert(name[i] == c);
        }
        plain_names_are_one_piece(name.drop_last());
        assert(name[name.len() - 1] == name.last());
        assert(name.drop_last().push(name.last()) =~= name);
        assert(split_at_char(name, '.') =~= seq![name]);
    }
}

} // verus!
