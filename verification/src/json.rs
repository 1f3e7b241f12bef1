//! A structured JSON-like value tree.
//!
//! Envelope payloads are event-kind-specific JSON-like trees. This module
//! models them as a plain recursive datatype so that contracts can speak of
//! their exact contents, together with a mathematical view (`JsonVal`) over
//! sequences.

use vstd::prelude::*;

verus! {

/// Mathematical model of a JSON-like value: the view of [`JsonValue`].
#[verifier::ext_equal]
pub enum JsonVal {
    Null,
    Bool(bool),
    Num(u64),
    Str(Seq<char>),
    Arr(Seq<JsonVal>),
    Obj(Seq<(Seq<char>, JsonVal)>),
}

/// A structured JSON-like value: null, boolean, unsigned number, string,
/// array, or object. Object fields keep their insertion order, which is part
/// of the wire contract (e.g. role lists preserve source order).
#[derive(Debug, PartialEq, Eq)]
pub enum JsonValue {
    Null,
    Bool(bool),
    Num(u64),
    Str(String),
    Arr(Vec<JsonValue>),
    Obj(Vec<(String, JsonValue)>),
}

impl JsonValue {
    /// The mathematical value of this tree.
    pub open spec fn as_val(self) -> JsonVal
        decreases self, 1int,
    {
        match self {
            JsonValue::Null => JsonVal::Null,
            JsonValue::Bool(b) => JsonVal::Bool(b),
            JsonValue::Num(n) => JsonVal::Num(n),
            JsonValue::Str(s) => JsonVal::Str(s@),
            JsonValue::Arr(items) => JsonVal::Arr(arr_val(items@)),
            JsonValue::Obj(fields) => JsonVal::Obj(obj_val(fields@)),
        }
    }
}

/// The mathematical values of an array's elements, in order.
pub open spec fn arr_val(items: Seq<JsonValue>) -> Seq<JsonVal>
    decreases items, 0int,
{
    if items.len() == 0 {
        Seq::empty()
    } else {
        seq![items[0].as_val()] + arr_val(items.drop_first())
    }
}

/// The mathematical values of an object's fields, in order.
pub open spec fn obj_val(fields: Seq<(String, JsonValue)>) -> Seq<(Seq<char>, JsonVal)>
    decreases fields, 0int,
{
    if fields.len() == 0 {
        Seq::empty()
    } else {
        seq![(fields[0].0@, fields[0].1.as_val())] + obj_val(fields.drop_first())
    }
}

impl View for JsonValue {
    type V = JsonVal;

    open spec fn view(&self) -> JsonVal {
        self.as_val()
    }
}

/// An array's value is the pointwise value of its elements.
pub proof fn lemma_arr_val(items: Seq<JsonValue>)
    ensures
        arr_val(items).len() == items.len(),
        forall|i: int| 0 <= i < items.len() ==> arr_val(items)[i] == items[i].as_val(),
    decreases items.len(),
{
    if items.len() > 0 {
        lemma_arr_val(items.drop_first());
    }
}

/// An object's value is the pointwise value of its fields.
pub proof fn lemma_obj_val(fields: Seq<(String, JsonValue)>)
    ensures
        obj_val(fields).len() == fields.len(),
        forall|i: int| 0 <= i < fields.len() ==> obj_val(fields)[i] == (
            fields[i].0@,
            fields[i].1.as_val(),
        ),
    decreases fields.len(),
{
    if fields.len() > 0 {
        lemma_obj_val(fields.drop_first());
    }
}

/// Whether an object field list carries a field named `key`.
pub open spec fn obj_has_key(fields: Seq<(Seq<char>, JsonVal)>, key: Seq<char>) -> bool {
    exists|i: int| 0 <= i < fields.len() && fields[i].0 == key
}

/// The value of the first field named `key`, if any.
pub open spec fn obj_lookup(fields: Seq<(Seq<char>, JsonVal)>, key: Seq<char>) -> Option<JsonVal>
    decreases fields.len(),
{
    if fields.len() == 0 {
        None
    } else if fields[0].0 == key {
        Some(fields[0].1)
    } else {
        obj_lookup(fields.drop_first(), key)
    }
}

/// A deep copy: the result has the same mathematical value as the input.
pub fn clone_json(v: &JsonValue) -> (r: JsonValue)
    ensures
        r@ == v@,
    decreases v, 1int,
{
    match v {
        JsonValue::Null => JsonValue::Null,
        JsonValue::Bool(b) => JsonValue::Bool(*b),
        JsonValue::Num(n) => JsonValue::Num(*n),
        JsonValue::Str(s) => JsonValue::Str(s.clone()),
        JsonValue::Arr(items) => JsonValue::Arr(clone_json_items(items)),
        JsonValue::Obj(fields) => JsonValue::Obj(clone_json_fields(fields)),
    }
}

/// A deep copy of an array's elements.
fn clone_json_items(items: &Vec<JsonValue>) -> (r: Vec<JsonValue>)
    ensures
        arr_val(r@) == arr_val(items@),
    decreases items, 0int,
{
    let mut out: Vec<JsonValue> = Vec::new();
    let mut i: usize = 0;
    proof {
        lemma_arr_val(items@);
    }
    while i < items.len()
        invariant
            i <= items@.len(),
            out@.len() == i,
            forall|j: int| 0 <= j < i ==> out@[j].as_val() == items@[j].as_val(),
        decreases items@.len() - i,
    {
        out.push(clone_json(&items[i]));
        i += 1;
    }
    proof {
        lemma_arr_val(items@);
        lemma_arr_val(out@);
        assert(arr_val(out@) =~= arr_val(items@));
    }
    out
}

/// A deep copy of an object's fields.
fn clone_json_fields(fields: &Vec<(String, JsonValue)>) -> (r: Vec<(String, JsonValue)>)
    ensures
        obj_val(r@) == obj_val(fields@),
    decreases fields, 0int,
{
    let mut out: Vec<(String, JsonValue)> = Vec::new();
    let mut i: usize = 0;
    while i < fields.len()
        invariant
            i <= fields@.len(),
            out@.len() == i,
            forall|j: int| 0 <= j < i ==> out@[j].0@ == fields@[j].0@
                && out@[j].1.as_val() == fields@[j].1.as_val(),
        decreases fields@.len() - i,
    {
        let name = fields[i].0.clone();
        let value = clone_json(&fields[i].1);
        out.push((name, value));
        i += 1;
    }
    proof {
        lemma_obj_val(fields@);
        lemma_obj_val(out@);
        assert(obj_val(out@) =~= obj_val(fields@));
    }
    out
}

impl Clone for JsonValue {
    /// A deep copy: the clone has the same mathematical value.
    fn clone(&self) -> (r: JsonValue)
        ensures
            r@ == self@,
    {
        clone_json(self)
    }
}

} // verus!
