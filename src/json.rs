//! A JSON document as a tree of plain values, read by serde_json, and the
//! field-level rules by which the models are decoded from it.
use vstd::prelude::*;

verus! {

#[verifier::external_type_specification]
#[verifier::external_body]
pub struct ExJsonValue(serde_json::Value);

/// A JSON value.
///
/// A number holds what it is as an unsigned and as a signed 64-bit integer,
/// when it is one; a number with a fraction or out of range is neither.
/// An object holds its entries in the order the parser gave them.
#[derive(Debug)]
pub enum JsonValue {
    Null,
    Bool(bool),
    Number(Option<u64>, Option<i64>),
    Str(String),
    Array(Vec<JsonValue>),
    Object(Vec<(String, JsonValue)>),
}

/// The value that serde_json reads from the bytes `b`, if they hold one JSON document.
pub uninterp spec fn parsed_json(b: Seq<u8>) -> Option<JsonValue>;

/// Converts serde_json's tree into the library's, variant for variant; relies on
/// serde_json::Number::as_u64 and as_i64 for what a number is as an integer.
#[verifier::external_body]
fn tree(v: &serde_json::Value) -> JsonValue {
    match v {
        serde_json::Value::Null => JsonValue::Null,
        serde_json::Value::Bool(b) => JsonValue::Bool(*b),
        serde_json::Value::Number(n) => JsonValue::Number(n.as_u64(), n.as_i64()),
        serde_json::Value::String(s) => JsonValue::Str(s.clone()),
        serde_json::Value::Array(a) => JsonValue::Array(a.iter().map(tree).collect()),
        serde_json::Value::Object(o) => JsonValue::Object(
            o.iter().map(|(k, x)| (k.clone(), tree(x))).collect(),
        ),
    }
}

/// Relies on serde_json::from_slice (into serde_json::Value): it reads one JSON
/// document from the bytes, or fails with an error whose message is returned, and
/// the outcome depends on the bytes alone.
#[verifier::external_body]
pub(crate) fn parse_json(b: &[u8]) -> (r: Result<JsonValue, String>)
    ensures
        r is Ok <==> parsed_json(b@) is Some,
        r matches Ok(v) ==> parsed_json(b@) == Some(v),
{
    serde_json::from_slice::<serde_json::Value>(b).map(|v| tree(&v)).map_err(|e| e.to_string())
}

/// The first entry of `es` under the key `k`.
pub open spec fn entry(es: Seq<(String, JsonValue)>, k: Seq<char>) -> Option<JsonValue>
    decreases es.len(),
{
    if es.len() == 0 {
        None
    } else if es[0].0@ == k {
        Some(es[0].1)
    } else {
        entry(es.drop_first(), k)
    }
}

/// The member `k` of `j`, when `j` is an object that has one.
pub open spec fn field(j: JsonValue, k: Seq<char>) -> Option<JsonValue> {
    match j {
        JsonValue::Object(es) => entry(es@, k),
        _ => None,
    }
}

/// Looks up the member `k` of `j`.
pub fn get_field<'a>(j: &'a JsonValue, k: &str) -> (r: Option<&'a JsonValue>)
    ensures
        match r {
            Some(v) => field(*j, k@) == Some(*v),
            None => field(*j, k@) is None,
        },
{
    match j {
        JsonValue::Object(es) => {
            let key = String::from_str(k);
            let mut i: usize = 0;
            assert(es@.skip(0) =~= es@);
            while i < es.len()
                invariant
                    i <= es@.len(),
                    key@ == k@,
                    *j == JsonValue::Object(*es),
                    entry(es@, k@) == entry(es@.skip(i as int), k@),
                decreases es@.len() - i,
            {
                assert(es@.skip(i as int).drop_first() =~= es@.skip(i + 1));
                assert(es@.skip(i as int)[0] == es@[i as int]);
                if es[i].0 == key {
                    return Some(&es[i].1);
                }
                i = i + 1;
            }
            None
        },
        _ => None,
    }
}

/// `f` is a string with the characters of `s`.
pub open spec fn str_is(f: Option<JsonValue>, s: String) -> bool {
    f matches Some(JsonValue::Str(t)) && t@ == s@
}

/// `f` is absent or null and `o` is `None`, or `f` is a string and `o` holds it.
pub open spec fn opt_str_is(f: Option<JsonValue>, o: Option<String>) -> bool {
    match f {
        None => o is None,
        Some(JsonValue::Null) => o is None,
        Some(JsonValue::Str(t)) => o matches Some(s) && s@ == t@,
        _ => false,
    }
}

/// `f` is the boolean `b`.
pub open spec fn bool_is(f: Option<JsonValue>, b: bool) -> bool {
    f matches Some(JsonValue::Bool(x)) && x == b
}

/// `f` is a non-negative integer equal to `n`.
pub open spec fn nat_is(f: Option<JsonValue>, n: nat) -> bool {
    f matches Some(JsonValue::Number(Some(u), _)) && u as nat == n
}

/// `f` is absent or null and `o` is `None`, or `f` is the non-negative integer in `o`.
pub open spec fn opt_nat_is(f: Option<JsonValue>, o: Option<nat>) -> bool {
    match f {
        None => o is None,
        Some(JsonValue::Null) => o is None,
        Some(JsonValue::Number(Some(u), _)) => o == Some(u as nat),
        _ => false,
    }
}

/// `f` is the integer `n`, or is absent and `n` is zero.
pub open spec fn int_or_zero_is(f: Option<JsonValue>, n: i64) -> bool {
    match f {
        None => n == 0,
        Some(JsonValue::Number(_, Some(x))) => x == n,
        _ => false,
    }
}

/// The items are strings with the characters of `v`, one for one.
pub open spec fn strs_are(items: Seq<JsonValue>, v: Seq<String>) -> bool {
    &&& items.len() == v.len()
    &&& forall|i: int| 0 <= i < items.len() ==> #[trigger] str_is(Some(items[i]), v[i])
}

/// `f` is an array of strings with the characters of `v`.
pub open spec fn strings_is(f: Option<JsonValue>, v: Vec<String>) -> bool {
    f matches Some(JsonValue::Array(items)) && strs_are(items@, v@)
}

/// `f` is absent or null and `o` is `None`, or `f` is an array of strings as in `o`.
pub open spec fn opt_strings_is(f: Option<JsonValue>, o: Option<Vec<String>>) -> bool {
    match f {
        None => o is None,
        Some(JsonValue::Null) => o is None,
        Some(v) => o matches Some(x) && strings_is(Some(v), x),
    }
}

/// The entries have the keys of `m` and string values with the characters of `m`'s
/// values, one for one and in order.
pub open spec fn pairs_are(es: Seq<(String, JsonValue)>, m: Seq<(String, String)>) -> bool {
    &&& es.len() == m.len()
    &&& forall|i: int|
        0 <= i < es.len() ==> es[i].0@ == (#[trigger] m[i]).0@ && str_is(Some(es[i].1), m[i].1)
}

/// No two of the named strings have the same name.
pub open spec fn keys_unique(m: Seq<(String, String)>) -> bool {
    forall|a: int, b: int|
        0 <= a < b < m.len() ==> (#[trigger] m[a]).0@ != (#[trigger] m[b]).0@
}

/// `f` is an object whose members are all strings, as listed in `m`, with no name
/// twice.
pub open spec fn string_map_is(f: Option<JsonValue>, m: Vec<(String, String)>) -> bool {
    f matches Some(JsonValue::Object(es)) && pairs_are(es@, m@) && keys_unique(m@)
}

/// Whether two of the named strings have the same name.
pub fn has_duplicate_key(m: &Vec<(String, String)>) -> (r: bool)
    ensures
        r == !keys_unique(m@),
{
    let mut i: usize = 0;
    while i < m.len()
        invariant
            i <= m@.len(),
            forall|a: int, b: int|
                0 <= a < b < m@.len() && a < i ==> (#[trigger] m@[a]).0@ != (#[trigger] m@[b]).0@,
        decreases m@.len() - i,
    {
        let mut k: usize = i + 1;
        while k < m.len()
            invariant
                i < m@.len(),
                i < k <= m@.len(),
                forall|a: int, b: int|
                    0 <= a < b < m@.len() && a < i ==> (#[trigger] m@[a]).0@ != (#[trigger] m@[b]).0@,
                forall|b: int| i < b < k ==> m@[i as int].0@ != (#[trigger] m@[b]).0@,
            decreases m@.len() - k,
        {
            if m[i].0 == m[k].0 {
                assert(m@[i as int].0@ == m@[k as int].0@);
                return true;
            }
            k = k + 1;
        }
        i = i + 1;
    }
    false
}

/// `f` is absent and `m` is empty, or `f` is an object of strings as listed in `m`.
pub open spec fn string_map_or_empty_is(f: Option<JsonValue>, m: Vec<(String, String)>) -> bool {
    match f {
        None => m@.len() == 0,
        Some(_) => string_map_is(f, m),
    }
}

/// Decodes a required string member.
pub fn string_field(j: &JsonValue, k: &str) -> (r: Option<String>)
    ensures
        match r {
            Some(s) => str_is(field(*j, k@), s),
            None => forall|s: String| !str_is(field(*j, k@), s),
        },
{
    match get_field(j, k) {
        Some(JsonValue::Str(t)) => Some(t.clone()),
        _ => None,
    }
}

/// Decodes an optional string member.
pub fn opt_string_field(j: &JsonValue, k: &str) -> (r: Option<Option<String>>)
    ensures
        match r {
            Some(o) => opt_str_is(field(*j, k@), o),
            None => forall|o: Option<String>| !opt_str_is(field(*j, k@), o),
        },
{
    match get_field(j, k) {
        None => Some(None),
        Some(JsonValue::Null) => Some(None),
        Some(JsonValue::Str(t)) => Some(Some(t.clone())),
        _ => None,
    }
}

/// Decodes a required boolean member.
pub fn bool_field(j: &JsonValue, k: &str) -> (r: Option<bool>)
    ensures
        match r {
            Some(b) => bool_is(field(*j, k@), b),
            None => forall|b: bool| !bool_is(field(*j, k@), b),
        },
{
    match get_field(j, k) {
        Some(JsonValue::Bool(b)) => Some(*b),
        _ => None,
    }
}

/// Decodes a required member that is a non-negative integer of at most `max`.
pub fn nat_field(j: &JsonValue, k: &str, max: u64) -> (r: Option<u64>)
    ensures
        match r {
            Some(n) => n <= max && nat_is(field(*j, k@), n as nat),
            None => forall|n: nat| n <= max ==> !nat_is(field(*j, k@), n),
        },
{
    match get_field(j, k) {
        Some(JsonValue::Number(Some(u), _)) => {
            if *u <= max {
                Some(*u)
            } else {
                None
            }
        },
        _ => None,
    }
}

/// Decodes an optional member that is a non-negative integer of at most `max`.
pub fn opt_nat_field(j: &JsonValue, k: &str, max: u64) -> (r: Option<Option<u64>>)
    ensures
        match r {
            Some(o) => (o matches Some(n) ==> n <= max) && opt_nat_is(
                field(*j, k@),
                match o {
                    Some(n) => Some(n as nat),
                    None => None,
                },
            ),
            None => forall|o: Option<nat>|
                (o matches Some(n) ==> n <= max) ==> !opt_nat_is(field(*j, k@), o),
        },
{
    match get_field(j, k) {
        None => Some(None),
        Some(JsonValue::Null) => Some(None),
        Some(JsonValue::Number(Some(u), _)) => {
            if *u <= max {
                Some(Some(*u))
            } else {
                None
            }
        },
        _ => None,
    }
}

/// Decodes a signed integer member that is zero when absent.
pub fn int_or_zero_field(j: &JsonValue, k: &str) -> (r: Option<i64>)
    ensures
        match r {
            Some(n) => int_or_zero_is(field(*j, k@), n),
            None => forall|n: i64| !int_or_zero_is(field(*j, k@), n),
        },
{
    match get_field(j, k) {
        None => Some(0),
        Some(JsonValue::Number(_, Some(x))) => Some(*x),
        _ => None,
    }
}

/// Decodes an array of strings.
pub fn strings_of(v: &JsonValue) -> (r: Option<Vec<String>>)
    ensures
        match r {
            Some(x) => strings_is(Some(*v), x),
            None => forall|x: Vec<String>| !strings_is(Some(*v), x),
        },
{
    match v {
        JsonValue::Array(items) => {
            let mut out: Vec<String> = Vec::new();
            let mut i: usize = 0;
            while i < items.len()
                invariant
                    i <= items@.len(),
                    out@.len() == i,
                    *v == JsonValue::Array(*items),
                    forall|k: int| 0 <= k < i ==> #[trigger] str_is(Some(items@[k]), out@[k]),
                decreases items@.len() - i,
            {
                match &items[i] {
                    JsonValue::Str(t) => {
                        out.push(t.clone());
                    },
                    _ => {
                        let ghost bad = i as int;
                        assert forall|x: Vec<String>| !strings_is(Some(*v), x) by {
                            if strings_is(Some(*v), x) {
                                assert(str_is(Some(items@[bad]), x@[bad]));
                            }
                        }
                        return None;
                    },
                }
                i = i + 1;
            }
            Some(out)
        },
        _ => None,
    }
}

/// Decodes a required member that is an array of strings.
pub fn strings_field(j: &JsonValue, k: &str) -> (r: Option<Vec<String>>)
    ensures
        match r {
            Some(x) => strings_is(field(*j, k@), x),
            None => forall|x: Vec<String>| !strings_is(field(*j, k@), x),
        },
{
    match get_field(j, k) {
        Some(v) => strings_of(v),
        None => None,
    }
}

/// Decodes an optional member that is an array of strings.
pub fn opt_strings_field(j: &JsonValue, k: &str) -> (r: Option<Option<Vec<String>>>)
    ensures
        match r {
            Some(o) => opt_strings_is(field(*j, k@), o),
            None => forall|o: Option<Vec<String>>| !opt_strings_is(field(*j, k@), o),
        },
{
    match get_field(j, k) {
        None => Some(None),
        Some(JsonValue::Null) => Some(None),
        Some(v) => match strings_of(v) {
            Some(x) => Some(Some(x)),
            None => None,
        },
    }
}

/// Decodes an object whose members are all strings, keeping their order.
pub fn string_map_of(v: &JsonValue) -> (r: Option<Vec<(String, String)>>)
    ensures
        match r {
            Some(m) => string_map_is(Some(*v), m),
            None => forall|m: Vec<(String, String)>| !string_map_is(Some(*v), m),
        },
{
    match v {
        JsonValue::Object(es) => {
            let mut out: Vec<(String, String)> = Vec::new();
            let mut i: usize = 0;
            while i < es.len()
                invariant
                    i <= es@.len(),
                    out@.len() == i,
                    *v == JsonValue::Object(*es),
                    forall|k: int|
                        0 <= k < i ==> es@[k].0@ == (#[trigger] out@[k]).0@ && str_is(
                            Some(es@[k].1),
                            out@[k].1,
                        ),
                decreases es@.len() - i,
            {
                match &es[i].1 {
                    JsonValue::Str(t) => {
                        let name = es[i].0.clone();
                        let text = t.clone();
                        out.push((name, text));
                    },
                    _ => {
                        let ghost bad = i as int;
                        assert forall|m: Vec<(String, String)>| !string_map_is(Some(*v), m) by {
                            if string_map_is(Some(*v), m) {
                                assert(str_is(Some(es@[bad].1), m@[bad].1) && m@[bad] == m@[bad]);
                            }
                        }
                        return None;
                    },
                }
                i = i + 1;
            }
            if has_duplicate_key(&out) {
                let ghost (a, b) = choose|a: int, b: int|
                    0 <= a < b < out@.len() && #[trigger] out@[a].0@ == #[trigger] out@[b].0@;
                assert forall|m: Vec<(String, String)>| !string_map_is(Some(*v), m) by {
                    if string_map_is(Some(*v), m) {
                        assert(m@[a] == m@[a] && m@[b] == m@[b]);
                        assert(out@[a] == out@[a] && out@[b] == out@[b]);
                    }
                }
                return None;
            }
            Some(out)
        },
        _ => None,
    }
}

/// Decodes a required member that is an object of strings.
pub fn string_map_field(j: &JsonValue, k: &str) -> (r: Option<Vec<(String, String)>>)
    ensures
        match r {
            Some(m) => string_map_is(field(*j, k@), m),
            None => forall|m: Vec<(String, String)>| !string_map_is(field(*j, k@), m),
        },
{
    match get_field(j, k) {
        Some(v) => string_map_of(v),
        None => None,
    }
}

/// Decodes a member that is an object of strings, and empty when absent.
pub fn string_map_or_empty_field(j: &JsonValue, k: &str) -> (r: Option<Vec<(String, String)>>)
    ensures
        match r {
            Some(m) => string_map_or_empty_is(field(*j, k@), m),
            None => forall|m: Vec<(String, String)>| !string_map_or_empty_is(field(*j, k@), m),
        },
{
    match get_field(j, k) {
        None => Some(Vec::new()),
        Some(v) => string_map_of(v),
    }
}

/// Looking a key up after one more entry: the earlier entries are seen first.
pub broadcast proof fn lemma_entry_push(
    es: Seq<(String, JsonValue)>,
    x: (String, JsonValue),
    k: Seq<char>,
)
    ensures
        #[trigger] entry(es.push(x), k) == if entry(es, k) is Some {
            entry(es, k)
        } else if x.0@ == k {
            Some(x.1)
        } else {
            None::<JsonValue>
        },
    decreases es.len(),
{
    if es.len() == 0 {
        assert(es.push(x)[0] == x);
        assert(es.push(x).drop_first() =~= Seq::<(String, JsonValue)>::empty());
        assert(entry(Seq::<(String, JsonValue)>::empty(), k) is None);
        assert(entry(es, k) is None);
    } else {
        assert(es.push(x)[0] == es[0]);
        assert(es.push(x).drop_first() =~= es.drop_first().push(x));
        lemma_entry_push(es.drop_first(), x, k);
        if es[0].0@ != k {
            assert(entry(es, k) == entry(es.drop_first(), k));
            assert(entry(es.push(x), k) == entry(es.drop_first().push(x), k));
        }
    }
}

/// Encodes a string.
pub fn str_json(s: &String) -> (r: JsonValue)
    ensures
        str_is(Some(r), *s),
{
    JsonValue::Str(s.clone())
}

/// Encodes an optional string: null when absent.
pub fn opt_str_json(o: &Option<String>) -> (r: JsonValue)
    ensures
        opt_str_is(Some(r), *o),
{
    match o {
        Some(s) => JsonValue::Str(s.clone()),
        None => JsonValue::Null,
    }
}

/// Encodes a non-negative integer, as serde_json holds it: unsigned, and signed when
/// it fits.
pub fn nat_json(n: u64) -> (r: JsonValue)
    ensures
        nat_is(Some(r), n as nat),
{
    if n <= 9223372036854775807 {
        JsonValue::Number(Some(n), Some(n as i64))
    } else {
        JsonValue::Number(Some(n), None)
    }
}

/// Encodes an optional non-negative integer: null when absent.
pub fn opt_nat_json(o: Option<u64>) -> (r: JsonValue)
    ensures
        opt_nat_is(
            Some(r),
            match o {
                Some(n) => Some(n as nat),
                None => None,
            },
        ),
{
    match o {
        Some(n) => nat_json(n),
        None => JsonValue::Null,
    }
}

/// Encodes a signed integer, as serde_json holds it: signed, and unsigned when it is
/// not negative.
pub fn int_json(x: i64) -> (r: JsonValue)
    ensures
        int_or_zero_is(Some(r), x),
{
    if x >= 0 {
        JsonValue::Number(Some(x as u64), Some(x))
    } else {
        JsonValue::Number(None, Some(x))
    }
}

/// Encodes strings as an array.
pub fn strings_json(v: &Vec<String>) -> (r: JsonValue)
    ensures
        strings_is(Some(r), *v),
{
    let mut items: Vec<JsonValue> = Vec::new();
    let mut i: usize = 0;
    while i < v.len()
        invariant
            i <= v@.len(),
            items@.len() == i,
            forall|k: int| 0 <= k < i ==> #[trigger] str_is(Some(items@[k]), v@[k]),
        decreases v@.len() - i,
    {
        items.push(JsonValue::Str(v[i].clone()));
        i = i + 1;
    }
    JsonValue::Array(items)
}

/// Encodes optional strings: null when absent.
pub fn opt_strings_json(o: &Option<Vec<String>>) -> (r: JsonValue)
    ensures
        opt_strings_is(Some(r), *o),
{
    match o {
        Some(v) => strings_json(v),
        None => JsonValue::Null,
    }
}

/// Encodes named strings as an object, in their order.
pub fn string_map_json(m: &Vec<(String, String)>) -> (r: JsonValue)
    requires
        keys_unique(m@),
    ensures
        string_map_is(Some(r), *m),
{
    let mut es: Vec<(String, JsonValue)> = Vec::new();
    let mut i: usize = 0;
    while i < m.len()
        invariant
            i <= m@.len(),
            es@.len() == i,
            forall|k: int|
                0 <= k < i ==> es@[k].0@ == (#[trigger] m@[k]).0@ && str_is(
                    Some(es@[k].1),
                    m@[k].1,
                ),
        decreases m@.len() - i,
    {
        let name = m[i].0.clone();
        let text = m[i].1.clone();
        es.push((name, JsonValue::Str(text)));
        i = i + 1;
    }
    JsonValue::Object(es)
}

/// An array of strings determines the strings decoded from it.
pub proof fn lemma_strings_unique(f: Option<JsonValue>, a: Vec<String>, b: Vec<String>)
    requires
        strings_is(f, a),
        strings_is(f, b),
    ensures
        a.deep_view() == b.deep_view(),
{
    let items = f->0->Array_0;
    assert forall|i: int| 0 <= i < a@.len() implies a@[i]@ == b@[i]@ by {
        assert(str_is(Some(items@[i]), a@[i]));
        assert(str_is(Some(items@[i]), b@[i]));
    }
    assert(a.deep_view() =~= b.deep_view());
}

/// An object of strings determines the named strings decoded from it.
pub proof fn lemma_string_map_unique(
    f: Option<JsonValue>,
    a: Vec<(String, String)>,
    b: Vec<(String, String)>,
)
    requires
        string_map_is(f, a),
        string_map_is(f, b),
    ensures
        a.deep_view() == b.deep_view(),
{
    let es = f->0->Object_0;
    assert forall|i: int| 0 <= i < a@.len() implies a@[i].0@ == b@[i].0@ && a@[i].1@
        == b@[i].1@ by {
        assert(a@[i] == a@[i] && b@[i] == b@[i]);
        assert(str_is(Some(es@[i].1), a@[i].1));
        assert(str_is(Some(es@[i].1), b@[i].1));
    }
    assert(a.deep_view() =~= b.deep_view());
}

} // verus!
