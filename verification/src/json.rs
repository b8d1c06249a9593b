use vstd::prelude::*;

verus! {

broadcast use vstd::std_specs::vec::group_vec_axioms;

/// A JSON document held as plain values, so that the request and response
/// mapping can be reasoned about. Numbers that fit a signed 64-bit integer are
/// read; any other number is carried through as its literal text, unread.
pub enum JsonVal {
    Null,
    Truth(bool),
    Int(i64),
    NumberLit(String),
    Text(String),
    List(Vec<JsonVal>),
    Object(Vec<(String, JsonVal)>),
}

/// The mathematical shape of a JSON document.
pub enum JsonRep {
    Null,
    Truth(bool),
    Int(int),
    NumberLit(Seq<char>),
    Text(Seq<char>),
    List(Seq<JsonRep>),
    Object(Seq<(Seq<char>, JsonRep)>),
}

/// The shape of a held document.
pub open spec fn rep(j: JsonVal) -> JsonRep
    decreases j,
{
    match j {
        JsonVal::Null => JsonRep::Null,
        JsonVal::Truth(b) => JsonRep::Truth(b),
        JsonVal::Int(i) => JsonRep::Int(i as int),
        JsonVal::NumberLit(s) => JsonRep::NumberLit(s@),
        JsonVal::Text(s) => JsonRep::Text(s@),
        JsonVal::List(items) => JsonRep::List(
            Seq::new(
                items@.len(),
                |i: int|
                    if 0 <= i < items@.len() {
                        rep(items@[i])
                    } else {
                        JsonRep::Null
                    },
            ),
        ),
        JsonVal::Object(fields) => JsonRep::Object(
            Seq::new(
                fields@.len(),
                |i: int|
                    if 0 <= i < fields@.len() {
                        (fields@[i].0@, rep(fields@[i].1))
                    } else {
                        (Seq::empty(), JsonRep::Null)
                    },
            ),
        ),
    }
}

/// The value under the first occurrence of a key in an object's fields.
pub open spec fn lookup(fields: Seq<(Seq<char>, JsonRep)>, key: Seq<char>) -> Option<JsonRep>
    decreases fields.len(),
{
    if fields.len() == 0 {
        None
    } else if fields[0].0 == key {
        Some(fields[0].1)
    } else {
        lookup(fields.subrange(1, fields.len() as int), key)
    }
}

proof fn lemma_lookup_skip(fields: Seq<(Seq<char>, JsonRep)>, key: Seq<char>, i: int)
    requires
        0 <= i <= fields.len(),
        forall|k: int| 0 <= k < i ==> fields[k].0 != key,
    ensures
        lookup(fields, key) == lookup(fields.subrange(i, fields.len() as int), key),
    decreases i,
{
    if i > 0 {
        let t = fields.subrange(1, fields.len() as int);
        lemma_lookup_skip(t, key, i - 1);
        assert(t.subrange(i - 1, t.len() as int) =~= fields.subrange(i, fields.len() as int));
    } else {
        assert(fields.subrange(0, fields.len() as int) =~= fields);
    }
}

/// The field of an object under a key, searched front to back.
pub(crate) fn get_field<'a>(fields: &'a Vec<(String, JsonVal)>, key: &str) -> (r: Option<&'a JsonVal>)
    ensures
        ({
            let reps = Seq::new(fields@.len(), |i: int| (fields@[i].0@, rep(fields@[i].1)));
            match r {
                Some(v) => lookup(reps, key@) == Some(rep(*v)),
                None => lookup(reps, key@) is None,
            }
        }),
{
    let ghost reps = Seq::new(fields@.len(), |i: int| (fields@[i].0@, rep(fields@[i].1)));
    let key_string = key.to_owned();
    let mut i: usize = 0;
    while i < fields.len()
        invariant
            i <= fields@.len(),
            key_string@ == key@,
            reps == Seq::new(fields@.len(), |k: int| (fields@[k].0@, rep(fields@[k].1))),
            forall|k: int| 0 <= k < i ==> reps[k].0 != key@,
        decreases fields@.len() - i,
    {
        if fields[i].0.eq(&key_string) {
            proof {
                lemma_lookup_skip(reps, key@, i as int);
                assert(reps.subrange(i as int, reps.len() as int)[0] == reps[i as int]);
            }
            return Some(&fields[i].1);
        }
        i += 1;
    }
    proof {
        lemma_lookup_skip(reps, key@, i as int);
        assert(reps.subrange(i as int, reps.len() as int).len() == 0);
    }
    None
}

#[verifier::external_type_specification]
#[verifier::external_body]
pub struct ExValue(serde_json::Value);

/// The document a text holds, if the text is well-formed JSON.
pub uninterp spec fn json_of_text(s: Seq<char>) -> Option<JsonRep>;

/// The rendering of a document as compact JSON text.
pub uninterp spec fn text_of_json(j: JsonRep) -> Seq<char>;

/// Trusted companion of `parse_json`: maps each variant of `serde_json::Value`
/// onto the library's document type, one arm each.
#[verifier::external_body]
fn value_to_jsonval(v: &serde_json::Value) -> JsonVal {
    match v {
        serde_json::Value::Null => JsonVal::Null,
        serde_json::Value::Bool(b) => JsonVal::Truth(*b),
        serde_json::Value::Number(n) => match n.as_i64() {
            Some(i) => JsonVal::Int(i),
            None => JsonVal::NumberLit(n.to_string()),
        },
        serde_json::Value::String(s) => JsonVal::Text(s.clone()),
        serde_json::Value::Array(a) => JsonVal::List(a.iter().map(value_to_jsonval).collect()),
        serde_json::Value::Object(m) => JsonVal::Object(m.iter().map(|(k, x)| (k.clone(), value_to_jsonval(x))).collect()),
    }
}

/// Trusted companion of `json_to_text`: maps each variant of the library's
/// document type back onto `serde_json::Value`. A number literal that does not
/// read back as a JSON number becomes a null rather than a fault.
#[verifier::external_body]
fn jsonval_to_value(j: &JsonVal) -> serde_json::Value {
    match j {
        JsonVal::Null => serde_json::Value::Null,
        JsonVal::Truth(b) => serde_json::Value::Bool(*b),
        JsonVal::Int(i) => serde_json::Value::Number(serde_json::Number::from(*i)),
        JsonVal::NumberLit(s) => s.parse::<serde_json::Number>().map_or(serde_json::Value::Null, serde_json::Value::Number),
        JsonVal::Text(s) => serde_json::Value::String(s.clone()),
        JsonVal::List(v) => serde_json::Value::Array(v.iter().map(jsonval_to_value).collect()),
        JsonVal::Object(f) => serde_json::Value::Object(f.iter().map(|(k, x)| (k.clone(), jsonval_to_value(x))).collect()),
    }
}

/// Relies on serde_json::from_str over serde_json::Value: whether a text
/// parses as JSON, and the document it then holds, depend on the text alone.
/// On failure the result carries serde_json's own description.
#[verifier::external_body]
pub(crate) fn parse_json(s: &str) -> (r: Result<JsonVal, String>)
    ensures
        r is Ok <==> json_of_text(s@) is Some,
        r is Ok ==> rep(r->Ok_0) == json_of_text(s@)->Some_0,
{
    match serde_json::from_str::<serde_json::Value>(s) {
        Ok(v) => Ok(value_to_jsonval(&v)),
        Err(e) => Err(e.to_string()),
    }
}

/// Relies on serde_json::to_string over serde_json::Value, which renders any
/// value of its own type: the text depends on the document alone.
#[verifier::external_body]
pub(crate) fn json_to_text(j: &JsonVal) -> (r: String)
    ensures
        r@ == text_of_json(rep(*j)),
{
    serde_json::to_string(&jsonval_to_value(j)).unwrap_or(String::new())
}

} // verus!
