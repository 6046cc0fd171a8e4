//! The validated GraphQL argument values the mappers consume. Arguments
//! arrive already parsed and type-checked; the library owns this
//! representation so that every lookup on it is specified mathematically.

use vstd::prelude::*;

use crate::error::{ExecutionError, ExecutionErrorView};
use crate::json::{json_fields_view, json_seq_view, JsonValue, JsonView};
use crate::text::str_eq;

verus! {

/// Model of a validated GraphQL argument value.
pub enum GraphQLValueView {
    Null,
    Number(int),
    Str(Seq<char>),
    Boolean(bool),
    Enum(Seq<char>),
    List(Seq<GraphQLValueView>),
    Object(Seq<(Seq<char>, GraphQLValueView)>),
    Variable(Seq<char>),
}

/// A validated GraphQL argument value: a literal, a collection of further
/// values, or a reference to one of the request's bound variables.
#[derive(Debug, PartialEq)]
pub enum GraphQLValue {
    Null,
    Number(i64),
    Str(String),
    Boolean(bool),
    Enum(String),
    List(Vec<GraphQLValue>),
    Object(Vec<(String, GraphQLValue)>),
    Variable(String),
}

/// The element-wise view of a sequence of argument values.
pub open spec fn gql_seq_view(s: Seq<GraphQLValue>) -> Seq<GraphQLValueView>
    decreases s,
{
    Seq::new(s.len(), |i: int| if 0 <= i < s.len() {
        s[i]@
    } else {
        GraphQLValueView::Null
    })
}

/// The element-wise view of a sequence of named argument values.
pub open spec fn gql_fields_view(s: Seq<(String, GraphQLValue)>) -> Seq<
    (Seq<char>, GraphQLValueView),
>
    decreases s,
{
    Seq::new(s.len(), |i: int| if 0 <= i < s.len() {
        (s[i].0@, s[i].1@)
    } else {
        (Seq::empty(), GraphQLValueView::Null)
    })
}

impl View for GraphQLValue {
    type V = GraphQLValueView;

    open spec fn view(&self) -> GraphQLValueView
        decreases self,
    {
        match self {
            GraphQLValue::Null => GraphQLValueView::Null,
            GraphQLValue::Number(n) => GraphQLValueView::Number(*n as int),
            GraphQLValue::Str(s) => GraphQLValueView::Str(s@),
            GraphQLValue::Boolean(b) => GraphQLValueView::Boolean(*b),
            GraphQLValue::Enum(s) => GraphQLValueView::Enum(s@),
            GraphQLValue::List(vs) => GraphQLValueView::List(gql_seq_view(vs@)),
            GraphQLValue::Object(fs) => GraphQLValueView::Object(gql_fields_view(fs@)),
            GraphQLValue::Variable(s) => GraphQLValueView::Variable(s@),
        }
    }
}

/// Looks a name up in an ordered field sequence: the first match wins.
pub open spec fn gql_obj_get(
    fields: Seq<(Seq<char>, GraphQLValueView)>,
    key: Seq<char>,
) -> Option<GraphQLValueView>
    decreases fields.len(),
{
    if fields.len() == 0 {
        None
    } else if fields[0].0 == key {
        Some(fields[0].1)
    } else {
        gql_obj_get(fields.drop_first(), key)
    }
}

/// Looks a name up in a list of named values, first match first.
#[verifier::loop_isolation(false)]
pub fn lookup_named<'a>(entries: &'a Vec<(String, GraphQLValue)>, key: &str) -> (r: Option<
    &'a GraphQLValue,
>)
    ensures
        match r {
            Some(v) => gql_obj_get(gql_fields_view(entries@), key@) == Some(v@),
            None => gql_obj_get(gql_fields_view(entries@), key@) is None,
        },
{
    let ghost fields = gql_fields_view(entries@);
    let mut i: usize = 0;
    proof {
        assert(fields.skip(0) =~= fields);
    }
    while i < entries.len()
        invariant
            i <= entries.len(),
            fields == gql_fields_view(entries@),
            gql_obj_get(fields, key@) == gql_obj_get(fields.skip(i as int), key@),
        decreases entries.len() - i,
    {
        if str_eq(entries[i].0.as_str(), key) {
            proof {
                assert(fields.skip(i as int)[0] == fields[i as int]);
            }
            return Some(&entries[i].1);
        }
        proof {
            assert(fields.skip(i as int)[0] == fields[i as int]);
            assert(fields.skip(i as int).drop_first() =~= fields.skip(i + 1));
        }
        i = i + 1;
    }
    proof {
        assert(fields.skip(entries@.len() as int) =~= Seq::<
            (Seq<char>, GraphQLValueView),
        >::empty());
    }
    None
}

impl GraphQLValue {
    /// A deep copy with the same view.
    #[verifier::loop_isolation(false)]
    pub fn duplicate(&self) -> (r: GraphQLValue)
        ensures
            r@ == self@,
        decreases self,
    {
        match self {
            GraphQLValue::Null => GraphQLValue::Null,
            GraphQLValue::Number(n) => GraphQLValue::Number(*n),
            GraphQLValue::Str(s) => GraphQLValue::Str(s.clone()),
            GraphQLValue::Boolean(b) => GraphQLValue::Boolean(*b),
            GraphQLValue::Enum(s) => GraphQLValue::Enum(s.clone()),
            GraphQLValue::List(vs) => {
                let mut out: Vec<GraphQLValue> = Vec::new();
                let mut i: usize = 0;
                while i < vs.len()
                    invariant
                        i <= vs.len(),
                        out@.len() == i,
                        forall|j: int| 0 <= j < i ==> out@[j]@ == vs@[j]@,
                    decreases vs.len() - i,
                {
                    out.push(vs[i].duplicate());
                    i = i + 1;
                }
                proof {
                    assert(gql_seq_view(out@) =~= gql_seq_view(vs@));
                }
                GraphQLValue::List(out)
            },
            GraphQLValue::Object(fs) => {
                let mut out: Vec<(String, GraphQLValue)> = Vec::new();
                let mut i: usize = 0;
                while i < fs.len()
                    invariant
                        i <= fs.len(),
                        out@.len() == i,
                        forall|j: int|
                            0 <= j < i ==> out@[j].0@ == fs@[j].0@ && out@[j].1@ == fs@[j].1@,
                    decreases fs.len() - i,
                {
                    out.push((fs[i].0.clone(), fs[i].1.duplicate()));
                    i = i + 1;
                }
                proof {
                    assert(gql_fields_view(out@) =~= gql_fields_view(fs@));
                }
                GraphQLValue::Object(out)
            },
            GraphQLValue::Variable(s) => GraphQLValue::Variable(s.clone()),
        }
    }

    /// Looks an argument field up in an object value.
    pub fn get_field<'a>(&'a self, key: &str) -> (r: Option<&'a GraphQLValue>)
        ensures
            match r {
                Some(v) => self@ matches GraphQLValueView::Object(fields) && gql_obj_get(
                    fields,
                    key@,
                ) == Some(v@),
                None => self@ matches GraphQLValueView::Object(fields) ==> gql_obj_get(
                    fields,
                    key@,
                ) is None,
            },
    {
        match self {
            GraphQLValue::Object(fs) => lookup_named(fs, key),
            _ => None,
        }
    }
}

/// What converting an argument value to a JSON-shaped literal yields:
/// enums become their token text; a value holding a variable reference
/// cannot be converted.
pub open spec fn gql_to_json_spec(v: GraphQLValueView) -> Option<JsonView>
    decreases v,
{
    match v {
        GraphQLValueView::Null => Some(JsonView::Null),
        GraphQLValueView::Number(n) => Some(JsonView::Int(n)),
        GraphQLValueView::Str(s) => Some(JsonView::Str(s)),
        GraphQLValueView::Boolean(b) => Some(JsonView::Bool(b)),
        GraphQLValueView::Enum(s) => Some(JsonView::Str(s)),
        GraphQLValueView::List(vs) => match gql_list_to_json_spec(vs) {
            Some(items) => Some(JsonView::Arr(items)),
            None => None,
        },
        GraphQLValueView::Object(fs) => match gql_fields_to_json_spec(fs) {
            Some(fields) => Some(JsonView::Obj(fields)),
            None => None,
        },
        GraphQLValueView::Variable(_) => None,
    }
}

/// The element-wise conversion of a value list; one inconvertible element
/// makes the whole list inconvertible.
pub open spec fn gql_list_to_json_spec(vs: Seq<GraphQLValueView>) -> Option<Seq<JsonView>>
    decreases vs,
{
    if vs.len() == 0 {
        Some(Seq::empty())
    } else {
        match (gql_to_json_spec(vs.first()), gql_list_to_json_spec(vs.drop_first())) {
            (Some(h), Some(t)) => Some(seq![h] + t),
            _ => None,
        }
    }
}

/// The element-wise conversion of named values.
pub open spec fn gql_fields_to_json_spec(fs: Seq<(Seq<char>, GraphQLValueView)>) -> Option<
    Seq<(Seq<char>, JsonView)>,
>
    decreases fs,
{
    if fs.len() == 0 {
        Some(Seq::empty())
    } else {
        match (gql_to_json_spec(fs.first().1), gql_fields_to_json_spec(fs.drop_first())) {
            (Some(h), Some(t)) => Some(seq![(fs.first().0, h)] + t),
            _ => None,
        }
    }
}

/// Converts an argument value to a JSON-shaped literal, exactly as the
/// conversion model says; a value holding a variable reference is rejected.
#[verifier::loop_isolation(false)]
pub fn gql_to_json(v: &GraphQLValue) -> (r: Result<JsonValue, ExecutionError>)
    ensures
        match r {
            Ok(j) => gql_to_json_spec(v@) == Some(j@),
            Err(e) => gql_to_json_spec(v@) is None && e@ == ExecutionErrorView::InvalidLiteral,
        },
    decreases v,
{
    match v {
        GraphQLValue::Null => Ok(JsonValue::Null),
        GraphQLValue::Number(n) => Ok(JsonValue::Int(*n)),
        GraphQLValue::Str(s) => Ok(JsonValue::Str(s.clone())),
        GraphQLValue::Boolean(b) => Ok(JsonValue::Bool(*b)),
        GraphQLValue::Enum(s) => Ok(JsonValue::Str(s.clone())),
        GraphQLValue::List(vs) => {
            let ghost s = gql_seq_view(vs@);
            let mut out: Vec<JsonValue> = Vec::new();
            let mut i: usize = 0;
            proof {
                assert(s.skip(0) =~= s);
            }
            while i < vs.len()
                invariant
                    i <= vs.len(),
                    s == gql_seq_view(vs@),
                    json_seq_view(out@).len() == i,
                    match gql_list_to_json_spec(s.skip(i as int)) {
                        Some(t) => gql_list_to_json_spec(s) == Some(json_seq_view(out@) + t),
                        None => gql_list_to_json_spec(s) is None,
                    },
                decreases vs.len() - i,
            {
                proof {
                    assert(s.skip(i as int).first() == s[i as int]);
                    assert(s.skip(i as int).drop_first() =~= s.skip(i + 1));
                }
                match gql_to_json(&vs[i]) {
                    Ok(j) => {
                        let ghost out0 = json_seq_view(out@);
                        let ghost jv = j@;
                        out.push(j);
                        proof {
                            assert(json_seq_view(out@) =~= out0.push(jv));
                            match gql_list_to_json_spec(s.skip(i + 1)) {
                                Some(t) => {
                                    assert((out0 + (seq![jv] + t)) =~= (out0.push(jv) + t));
                                },
                                None => {},
                            }
                        }
                        i = i + 1;
                    },
                    Err(e) => {
                        return Err(e);
                    },
                }
            }
            proof {
                assert(s.skip(vs@.len() as int) =~= Seq::<GraphQLValueView>::empty());
                assert(json_seq_view(out@) + Seq::<JsonView>::empty() =~= json_seq_view(out@));
            }
            Ok(JsonValue::Arr(out))
        },
        GraphQLValue::Object(fs) => {
            let ghost s = gql_fields_view(fs@);
            let mut out: Vec<(String, JsonValue)> = Vec::new();
            let mut i: usize = 0;
            proof {
                assert(s.skip(0) =~= s);
            }
            while i < fs.len()
                invariant
                    i <= fs.len(),
                    s == gql_fields_view(fs@),
                    json_fields_view(out@).len() == i,
                    match gql_fields_to_json_spec(s.skip(i as int)) {
                        Some(t) => gql_fields_to_json_spec(s) == Some(json_fields_view(out@) + t),
                        None => gql_fields_to_json_spec(s) is None,
                    },
                decreases fs.len() - i,
            {
                proof {
                    assert(s.skip(i as int).first() == s[i as int]);
                    assert(s.skip(i as int).drop_first() =~= s.skip(i + 1));
                }
                match gql_to_json(&fs[i].1) {
                    Ok(j) => {
                        let ghost out0 = json_fields_view(out@);
                        let ghost entry = (fs@[i as int].0@, j@);
                        out.push((fs[i].0.clone(), j));
                        proof {
                            assert(json_fields_view(out@) =~= out0.push(entry));
                            match gql_fields_to_json_spec(s.skip(i + 1)) {
                                Some(t) => {
                                    assert((out0 + (seq![entry] + t)) =~= (out0.push(entry) + t));
                                },
                                None => {},
                            }
                        }
                        i = i + 1;
                    },
                    Err(e) => {
                        return Err(e);
                    },
                }
            }
            proof {
                assert(s.skip(fs@.len() as int) =~= Seq::<(Seq<char>, GraphQLValueView)>::empty());
                assert(json_fields_view(out@) + Seq::<(Seq<char>, JsonView)>::empty()
                    =~= json_fields_view(out@));
            }
            Ok(JsonValue::Obj(out))
        },
        GraphQLValue::Variable(_) => Err(ExecutionError::InvalidLiteral),
    }
}

} // verus!
