//! Request-dispatch decisions: which subsystem serves a named operation, and
//! what the introspection resolvers answer for their constant fields. The
//! surrounding server performs the actual calls; these functions only
//! decide.

use vstd::prelude::*;

use crate::error::{ExecutionError, ExecutionErrorView};
use crate::json::{JsonValue, JsonView};
use crate::text::str_eq;

verus! {

/// The type of a top-level GraphQL operation.
#[derive(Clone, Copy, Debug, PartialEq, Eq, Structural)]
pub enum OperationType {
    Query,
    Mutation,
    Subscription,
}

/// Which subsystem serves an operation.
#[derive(Clone, Copy, Debug, PartialEq, Eq, Structural)]
pub enum OperationTarget {
    DatabaseSubsystem,
    ServiceSubsystem,
}

/// The element-wise view of a name list.
pub open spec fn names_view(s: Seq<String>) -> Seq<Seq<char>> {
    Seq::new(s.len(), |i: int| if 0 <= i < s.len() {
        s[i]@
    } else {
        Seq::empty()
    })
}

/// Whether a name appears in the list.
pub open spec fn name_listed(names: Seq<Seq<char>>, name: Seq<char>) -> bool
    decreases names.len(),
{
    if names.len() == 0 {
        false
    } else {
        names.first() == name || name_listed(names.drop_first(), name)
    }
}

/// What dispatching an operation decides: queries and mutations go to the
/// database subsystem when it offers the name, else to the service
/// subsystem when that offers it, else the name is unknown; subscriptions
/// are not served.
pub open spec fn resolve_target_spec(
    op: OperationType,
    name: Seq<char>,
    database_ops: Seq<Seq<char>>,
    service_ops: Seq<Seq<char>>,
) -> Result<OperationTarget, ExecutionErrorView> {
    match op {
        OperationType::Subscription => Err(ExecutionErrorView::UnsupportedOperation),
        _ => {
            if name_listed(database_ops, name) {
                Ok(OperationTarget::DatabaseSubsystem)
            } else if name_listed(service_ops, name) {
                Ok(OperationTarget::ServiceSubsystem)
            } else if op == OperationType::Query {
                Err(ExecutionErrorView::NoSuchQuery(name))
            } else {
                Err(ExecutionErrorView::NoSuchMutation(name))
            }
        },
    }
}

/// Whether a name appears in the list.
#[verifier::loop_isolation(false)]
fn contains_name(names: &Vec<String>, name: &str) -> (r: bool)
    ensures
        r == name_listed(names_view(names@), name@),
{
    let ghost ns = names_view(names@);
    let mut i: usize = 0;
    proof {
        assert(ns.skip(0) =~= ns);
    }
    while i < names.len()
        invariant
            i <= names.len(),
            ns == names_view(names@),
            name_listed(ns, name@) == name_listed(ns.skip(i as int), name@),
        decreases names.len() - i,
    {
        proof {
            assert(ns.skip(i as int).first() == ns[i as int]);
            assert(ns.skip(i as int).drop_first() =~= ns.skip(i + 1));
        }
        if str_eq(names[i].as_str(), name) {
            return true;
        }
        i = i + 1;
    }
    proof {
        assert(ns.skip(names@.len() as int) =~= Seq::<Seq<char>>::empty());
    }
    false
}

/// The root of data-operation dispatch for one operation type.
#[derive(Debug, PartialEq)]
pub struct DataRootElement {
    pub operation_type: OperationType,
}

impl DataRootElement {
    /// Decides which subsystem serves the named operation, given each
    /// subsystem's operation names for this operation type.
    pub fn resolve(
        &self,
        name: &str,
        database_ops: &Vec<String>,
        service_ops: &Vec<String>,
    ) -> (r: Result<OperationTarget, ExecutionError>)
        ensures
            match r {
                Ok(t) => resolve_target_spec(
                    self.operation_type,
                    name@,
                    names_view(database_ops@),
                    names_view(service_ops@),
                ) == Ok::<_, ExecutionErrorView>(t),
                Err(e) => resolve_target_spec(
                    self.operation_type,
                    name@,
                    names_view(database_ops@),
                    names_view(service_ops@),
                ) == Err::<OperationTarget, _>(e@),
            },
    {
        match self.operation_type {
            OperationType::Subscription => Err(ExecutionError::UnsupportedOperation),
            _ => {
                if contains_name(database_ops, name) {
                    Ok(OperationTarget::DatabaseSubsystem)
                } else if contains_name(service_ops, name) {
                    Ok(OperationTarget::ServiceSubsystem)
                } else if matches!(self.operation_type, OperationType::Query) {
                    Err(ExecutionError::NoSuchQuery(name.to_owned()))
                } else {
                    Err(ExecutionError::NoSuchMutation(name.to_owned()))
                }
            },
        }
    }
}

/// What a directive's introspection field answers: the name, constant
/// defaults for everything a directive does not track, and an error for a
/// field the type does not have.
pub open spec fn directive_field_spec(
    directive_name: Seq<char>,
    field_name: Seq<char>,
) -> Result<JsonView, ExecutionErrorView> {
    if field_name == "name"@ {
        Ok(JsonView::Str(directive_name))
    } else if field_name == "description"@ {
        Ok(JsonView::Null)
    } else if field_name == "isRepeatable"@ {
        Ok(JsonView::Bool(false))
    } else if field_name == "locations"@ {
        Ok(JsonView::Arr(Seq::empty()))
    } else if field_name == "args"@ {
        Ok(JsonView::Arr(Seq::empty()))
    } else if field_name == "__typename"@ {
        Ok(JsonView::Str("__Directive"@))
    } else {
        Err(ExecutionErrorView::InvalidField(field_name, "Directive"@))
    }
}

/// Answers a directive's introspection field.
pub fn resolve_directive_field(directive_name: &str, field_name: &str) -> (r: Result<
    JsonValue,
    ExecutionError,
>)
    ensures
        match r {
            Ok(v) => directive_field_spec(directive_name@, field_name@) == Ok::<
                _,
                ExecutionErrorView,
            >(v@),
            Err(e) => directive_field_spec(directive_name@, field_name@) == Err::<JsonView, _>(
                e@,
            ),
        },
{
    if str_eq(field_name, "name") {
        Ok(JsonValue::Str(directive_name.to_owned()))
    } else if str_eq(field_name, "description") {
        Ok(JsonValue::Null)
    } else if str_eq(field_name, "isRepeatable") {
        Ok(JsonValue::Bool(false))
    } else if str_eq(field_name, "locations") {
        let empty: Vec<JsonValue> = Vec::new();
        proof {
            assert(crate::json::json_seq_view(empty@) =~= Seq::<JsonView>::empty());
        }
        Ok(JsonValue::Arr(empty))
    } else if str_eq(field_name, "args") {
        let empty: Vec<JsonValue> = Vec::new();
        proof {
            assert(crate::json::json_seq_view(empty@) =~= Seq::<JsonView>::empty());
        }
        Ok(JsonValue::Arr(empty))
    } else if str_eq(field_name, "__typename") {
        Ok(JsonValue::Str("__Directive".to_owned()))
    } else {
        Err(ExecutionError::InvalidField(field_name.to_owned(), "Directive".to_owned()))
    }
}

/// How an input value's introspection field is answered: directly with a
/// value, or by handing the field's type over to the caller's type
/// resolver.
#[derive(Debug, PartialEq)]
pub enum InputValueFieldAnswer {
    Value(JsonValue),
    TypeSelection,
}

/// What an input value's introspection field answers: the name, the
/// description or null, a null default value, a type selection for `type`,
/// and an error for a field the type does not have.
pub open spec fn input_value_field_spec(
    name: Seq<char>,
    description: Option<Seq<char>>,
    field_name: Seq<char>,
) -> Result<Option<JsonView>, ExecutionErrorView> {
    if field_name == "name"@ {
        Ok(Some(JsonView::Str(name)))
    } else if field_name == "description"@ {
        match description {
            Some(d) => Ok(Some(JsonView::Str(d))),
            None => Ok(Some(JsonView::Null)),
        }
    } else if field_name == "type"@ {
        Ok(None)
    } else if field_name == "defaultValue"@ {
        Ok(Some(JsonView::Null))
    } else {
        Err(ExecutionErrorView::InvalidField(field_name, "InputValue"@))
    }
}

/// Answers an input value's introspection field; `type` is handed back as a
/// type selection for the caller to resolve.
pub fn resolve_input_value_field(
    name: &str,
    description: &Option<String>,
    field_name: &str,
) -> (r: Result<InputValueFieldAnswer, ExecutionError>)
    ensures
        match r {
            Ok(InputValueFieldAnswer::Value(v)) => input_value_field_spec(
                name@,
                match description {
                    Some(d) => Some(d@),
                    None => None,
                },
                field_name@,
            ) == Ok::<_, ExecutionErrorView>(Some(v@)),
            Ok(InputValueFieldAnswer::TypeSelection) => input_value_field_spec(
                name@,
                match description {
                    Some(d) => Some(d@),
                    None => None,
                },
                field_name@,
            ) == Ok::<Option<JsonView>, ExecutionErrorView>(None),
            Err(e) => input_value_field_spec(
                name@,
                match description {
                    Some(d) => Some(d@),
                    None => None,
                },
                field_name@,
            ) == Err::<Option<JsonView>, _>(e@),
        },
{
    if str_eq(field_name, "name") {
        Ok(InputValueFieldAnswer::Value(JsonValue::Str(name.to_owned())))
    } else if str_eq(field_name, "description") {
        match description {
            Some(d) => Ok(InputValueFieldAnswer::Value(JsonValue::Str(d.clone()))),
            None => Ok(InputValueFieldAnswer::Value(JsonValue::Null)),
        }
    } else if str_eq(field_name, "type") {
        Ok(InputValueFieldAnswer::TypeSelection)
    } else if str_eq(field_name, "defaultValue") {
        Ok(InputValueFieldAnswer::Value(JsonValue::Null))
    } else {
        Err(ExecutionError::InvalidField(field_name.to_owned(), "InputValue".to_owned()))
    }
}

} // verus!
