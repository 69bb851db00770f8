//! JSON as plain values, and the boundary to serde_json, which reads the
//! text.
use vstd::prelude::*;
use vstd::pervasive::VecAdditionalExecFns;
use crate::function::word_is;

verus! {

#[verifier::external_type_specification]
#[verifier::external_body]
pub struct ExJsonValue(serde_json::Value);

/// A JSON value. A number keeps its value where it is an integer that fits
/// an `i64`; an object keeps its members in the order serde_json gives them,
/// each key once.
pub enum Json {
    Null,
    Bool(bool),
    Number(Option<i64>),
    Text(String),
    List(Vec<Json>),
    Object(Vec<(String, Json)>),
}

/// The value that serde_json reads from a JSON text, or `None` where the
/// text is not JSON.
pub uninterp spec fn json_of(text: Seq<char>) -> Option<Json>;

/// Relies on the variants of serde_json::Value, each copied into the
/// matching variant of `Json`, and on serde_json::Number::as_i64 for
/// numbers.
#[verifier::external_body]
fn convert_value(v: serde_json::Value) -> (r: Json) {
    match v {
        serde_json::Value::Null => Json::Null,
        serde_json::Value::Bool(b) => Json::Bool(b),
        serde_json::Value::Number(n) => Json::Number(n.as_i64()),
        serde_json::Value::String(s) => Json::Text(s),
        serde_json::Value::Array(a) => Json::List(a.into_iter().map(convert_value).collect()),
        serde_json::Value::Object(m) => Json::Object(
            m.into_iter().map(|(k, v)| (k, convert_value(v))).collect(),
        ),
    }
}

/// Relies on serde_json::from_str: it reads a JSON text into a value, or
/// fails; the outcome depends on the text alone.
#[verifier::external_body]
pub(crate) fn parse_json(text: &str) -> (r: Option<Json>)
    ensures
        r == json_of(text@),
{
    serde_json::from_str::<serde_json::Value>(text).ok().map(convert_value)
}

/// The value of the first member of an object under `key`.
pub open spec fn field_of(members: Seq<(String, Json)>, key: Seq<char>) -> Option<Json>
    decreases members.len(),
{
    if members.len() == 0 {
        None
    } else if field_of(members.drop_last(), key) is Some {
        field_of(members.drop_last(), key)
    } else if members.last().0@ == key {
        Some(members.last().1)
    } else {
        None
    }
}

/// Takes the members of an object apart: for each key, the value of the
/// first member under it.
pub fn pick_fields(members: Vec<(String, Json)>, keys: &Vec<&str>) -> (r: Vec<Option<Json>>)
    requires
        forall|a: int, b: int|
            0 <= a < b < keys@.len() ==> #[trigger] keys@[a]@ != #[trigger] keys@[b]@,
    ensures
        r@.len() == keys@.len(),
        forall|j: int| 0 <= j < keys@.len() ==> #[trigger] r@[j] == field_of(members@, keys@[j]@),
{
    let ghost s = members@;
    let ghost n = members@.len();
    let mut out: Vec<Option<Json>> = Vec::new();
    let mut j: usize = 0;
    while j < keys.len()
        invariant
            j <= keys@.len(),
            out@.len() == j,
            forall|k: int| 0 <= k < j ==> #[trigger] out@[k] is None,
        decreases keys@.len() - j,
    {
        out.push(None);
        j += 1;
    }
    let len = members.len();
    let mut rest = members;
    let mut i: usize = 0;
    assert(s.subrange(0, 0).len() == 0);
    while rest.len() > 0
        invariant
            forall|a: int, b: int|
                0 <= a < b < keys@.len() ==> #[trigger] keys@[a]@ != #[trigger] keys@[b]@,
            n == s.len(),
            n == len,
            i <= n,
            rest@ == s.subrange(i as int, n as int),
            out@.len() == keys@.len(),
            forall|k: int|
                0 <= k < keys@.len() ==> #[trigger] out@[k] == field_of(
                    s.subrange(0, i as int),
                    keys@[k]@,
                ),
        decreases rest@.len(),
    {
        let ghost before = out@;
        let (key, value) = rest.remove(0);
        assert(s.subrange(0, i + 1).drop_last() =~= s.subrange(0, i as int));
        let mut held = Some(value);
        let mut j: usize = 0;
        while j < keys.len()
            invariant
                out@.len() == keys@.len(),
                before.len() == keys@.len(),
                i < n,
                n == s.len(),
                s[i as int].0 == key,
                forall|a: int, b: int|
                    0 <= a < b < keys@.len() ==> #[trigger] keys@[a]@ != #[trigger] keys@[b]@,
                held is Some ==> held == Some(s[i as int].1),
                held is None ==> forall|k: int| j <= k < keys@.len() ==> #[trigger] keys@[k]@ != key@,
                j <= keys@.len(),
                forall|k: int|
                    0 <= k < j ==> #[trigger] out@[k] == field_of(s.subrange(0, i + 1), keys@[k]@),
                forall|k: int| j <= k < keys@.len() ==> #[trigger] out@[k] == before[k],
                forall|k: int|
                    0 <= k < keys@.len() ==> #[trigger] before[k] == field_of(
                        s.subrange(0, i as int),
                        keys@[k]@,
                    ),
                s.subrange(0, i + 1).drop_last() == s.subrange(0, i as int),
                s.subrange(0, i + 1).last() == s[i as int],
            decreases keys@.len() - j,
        {
            if held.is_some() && out[j].is_none() && word_is(key.as_str(), keys[j]) {
                let v = held;
                held = None;
                out.set(j, v);
                assert forall|k: int| j < k < keys@.len() implies #[trigger] keys@[k]@ != key@ by {
                    assert(keys@[j as int]@ != keys@[k]@);
                }
            }
            j += 1;
        }
        i += 1;
    }
    assert(s.subrange(0, n as int) =~= s);
    out
}

} // verus!
