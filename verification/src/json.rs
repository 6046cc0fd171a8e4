//! JSON-shaped values. A request context (caller identity, claims) and the
//! literal operands of access expressions are both JSON-shaped; the library
//! owns this representation so that every lookup and comparison on it is
//! specified mathematically.

use vstd::prelude::*;

use crate::text::str_eq;

verus! {

/// Mathematical model of a JSON-shaped value. Object fields are kept in
/// order; a lookup finds the first field with a matching key.
pub enum JsonView {
    Null,
    Bool(bool),
    Int(int),
    Str(Seq<char>),
    Arr(Seq<JsonView>),
    Obj(Seq<(Seq<char>, JsonView)>),
}

/// A JSON-shaped value.
#[derive(Debug, PartialEq)]
pub enum JsonValue {
    Null,
    Bool(bool),
    Int(i64),
    Str(String),
    Arr(Vec<JsonValue>),
    Obj(Vec<(String, JsonValue)>),
}

/// The element-wise view of a sequence of JSON values.
pub open spec fn json_seq_view(s: Seq<JsonValue>) -> Seq<JsonView>
    decreases s,
{
    Seq::new(s.len(), |i: int| if 0 <= i < s.len() {
        s[i]@
    } else {
        JsonView::Null
    })
}

/// The element-wise view of a sequence of object fields.
pub open spec fn json_fields_view(s: Seq<(String, JsonValue)>) -> Seq<(Seq<char>, JsonView)>
    decreases s,
{
    Seq::new(s.len(), |i: int| if 0 <= i < s.len() {
        (s[i].0@, s[i].1@)
    } else {
        (Seq::empty(), JsonView::Null)
    })
}

impl View for JsonValue {
    type V = JsonView;

    open spec fn view(&self) -> JsonView
        decreases self,
    {
        match self {
            JsonValue::Null => JsonView::Null,
            JsonValue::Bool(b) => JsonView::Bool(*b),
            JsonValue::Int(i) => JsonView::Int(*i as int),
            JsonValue::Str(s) => JsonView::Str(s@),
            JsonValue::Arr(vs) => JsonView::Arr(json_seq_view(vs@)),
            JsonValue::Obj(fs) => JsonView::Obj(json_fields_view(fs@)),
        }
    }
}

/// Looks a key up in an ordered field sequence: the first match wins.
pub open spec fn json_obj_get(fields: Seq<(Seq<char>, JsonView)>, key: Seq<char>) -> Option<
    JsonView,
>
    decreases fields.len(),
{
    if fields.len() == 0 {
        None
    } else if fields[0].0 == key {
        Some(fields[0].1)
    } else {
        json_obj_get(fields.drop_first(), key)
    }
}

impl JsonView {
    /// A key lookup on a non-object value finds nothing.
    pub open spec fn get_key(self, key: Seq<char>) -> Option<JsonView> {
        match self {
            JsonView::Obj(fields) => json_obj_get(fields, key),
            _ => None,
        }
    }
}

impl JsonValue {
    /// Looks a key up in an object value, as the model's `get_key` says.
    #[verifier::loop_isolation(false)]
    pub fn get<'a>(&'a self, key: &str) -> (r: Option<&'a JsonValue>)
        ensures
            match r {
                Some(v) => self@.get_key(key@) == Some(v@),
                None => self@.get_key(key@) is None,
            },
    {
        match self {
            JsonValue::Obj(fs) => {
                let ghost fields = json_fields_view(fs@);
                let mut i: usize = 0;
                proof {
                    assert(fields.skip(0) =~= fields);
                }
                while i < fs.len()
                    invariant
                        i <= fs.len(),
                        fields == json_fields_view(fs@),
                        json_obj_get(fields, key@) == json_obj_get(
                            fields.skip(i as int),
                            key@,
                        ),
                    decreases fs.len() - i,
                {
                    if str_eq(fs[i].0.as_str(), key) {
                        proof {
                            assert(fields.skip(i as int)[0] == fields[i as int]);
                        }
                        return Some(&fs[i].1);
                    }
                    proof {
                        assert(fields.skip(i as int)[0] == fields[i as int]);
                        assert(fields.skip(i as int).drop_first() =~= fields.skip(i + 1));
                    }
                    i = i + 1;
                }
                proof {
                    assert(fields.skip(fs@.len() as int) =~= Seq::<
                        (Seq<char>, JsonView),
                    >::empty());
                }
                None
            },
            _ => None,
        }
    }

    /// A deep copy with the same view.
    #[verifier::loop_isolation(false)]
    pub fn duplicate(&self) -> (r: JsonValue)
        ensures
            r@ == self@,
        decreases self,
    {
        match self {
            JsonValue::Null => JsonValue::Null,
            JsonValue::Bool(b) => JsonValue::Bool(*b),
            JsonValue::Int(i) => JsonValue::Int(*i),
            JsonValue::Str(s) => JsonValue::Str(s.clone()),
            JsonValue::Arr(vs) => {
                let mut out: Vec<JsonValue> = Vec::new();
                let mut i: usize = 0;
                while i < vs.len()
                    invariant
                        i <= vs.len(),
                        out@.len() == i,
                        forall|j: int| 0 <= j < i ==> out@[j]@ == vs@[j]@,
                    decreases vs.len() - i,
                {
                    out.push(vs[i].duplicate());
                    i = i + 1;
                }
                proof {
                    assert(json_seq_view(out@) =~= json_seq_view(vs@));
                }
                JsonValue::Arr(out)
            },
            JsonValue::Obj(fs) => {
                let mut out: Vec<(String, JsonValue)> = Vec::new();
                let mut i: usize = 0;
                while i < fs.len()
                    invariant
                        i <= fs.len(),
                        out@.len() == i,
                        forall|j: int|
                            0 <= j < i ==> out@[j].0@ == fs@[j].0@ && out@[j].1@ == fs@[j].1@,
                    decreases fs.len() - i,
                {
                    out.push((fs[i].0.clone(), fs[i].1.duplicate()));
                    i = i + 1;
                }
                proof {
                    assert(json_fields_view(out@) =~= json_fields_view(fs@));
                }
                JsonValue::Obj(out)
            },
        }
    }
}

/// Deep equality of two JSON values, decided exactly as view equality.
#[verifier::loop_isolation(false)]
pub fn json_eq(a: &JsonValue, b: &JsonValue) -> (r: bool)
    ensures
        r == (a@ == b@),
    decreases a,
{
    match (a, b) {
        (JsonValue::Null, JsonValue::Null) => true,
        (JsonValue::Bool(x), JsonValue::Bool(y)) => x == y,
        (JsonValue::Int(x), JsonValue::Int(y)) => x == y,
        (JsonValue::Str(x), JsonValue::Str(y)) => str_eq(x.as_str(), y.as_str()),
        (JsonValue::Arr(x), JsonValue::Arr(y)) => {
            if x.len() != y.len() {
                proof {
                    assert(json_seq_view(x@).len() != json_seq_view(y@).len());
                }
                false
            } else {
                let mut i: usize = 0;
                while i < x.len()
                    invariant
                        i <= x.len(),
                        x@.len() == y@.len(),
                        forall|j: int| 0 <= j < i ==> x@[j]@ == y@[j]@,
                    decreases x.len() - i,
                {
                    if !json_eq(&x[i], &y[i]) {
                        proof {
                            assert(json_seq_view(x@)[i as int] != json_seq_view(y@)[i as int]);
                        }
                        return false;
                    }
                    i = i + 1;
                }
                proof {
                    assert(json_seq_view(x@) =~= json_seq_view(y@));
                }
                true
            }
        },
        (JsonValue::Obj(x), JsonValue::Obj(y)) => {
            if x.len() != y.len() {
                proof {
                    assert(json_fields_view(x@).len() != json_fields_view(y@).len());
                }
                false
            } else {
                let mut i: usize = 0;
                while i < x.len()
                    invariant
                        i <= x.len(),
                        x@.len() == y@.len(),
                        forall|j: int|
                            0 <= j < i ==> x@[j].0@ == y@[j].0@ && x@[j].1@ == y@[j].1@,
                    decreases x.len() - i,
                {
                    if !str_eq(x[i].0.as_str(), y[i].0.as_str()) {
                        proof {
                            assert(json_fields_view(x@)[i as int].0 != json_fields_view(
                                y@,
                            )[i as int].0);
                        }
                        return false;
                    }
                    if !json_eq(&x[i].1, &y[i].1) {
                        proof {
                            assert(json_fields_view(x@)[i as int].1 != json_fields_view(
                                y@,
                            )[i as int].1);
                        }
                        return false;
                    }
                    i = i + 1;
                }
                proof {
                    assert(json_fields_view(x@) =~= json_fields_view(y@));
                }
                true
            }
        },
        _ => {
            proof {
                assert(a@ != b@);
            }
            false
        },
    }
}

} // verus!
