use sqlgraph::dispatch::{resolve_directive_field, resolve_input_value_field, DataRootElement,
    InputValueFieldAnswer, OperationTarget, OperationType};
use sqlgraph::error::ExecutionError;
use sqlgraph::json::{json_eq, JsonValue};
use sqlgraph::system::{InterceptionMap, SerializableSubsystem, SerializableSystem};

fn obj(fields: Vec<(&str, JsonValue)>) -> JsonValue {
    JsonValue::Obj(fields.into_iter().map(|(k, v)| (k.to_string(), v)).collect())
}

#[test]
fn json_equality_is_deep() {
    let a = obj(vec![("x", JsonValue::Arr(vec![JsonValue::Int(1), JsonValue::Null]))]);
    let b = obj(vec![("x", JsonValue::Arr(vec![JsonValue::Int(1), JsonValue::Null]))]);
    let c = obj(vec![("x", JsonValue::Arr(vec![JsonValue::Int(2), JsonValue::Null]))]);
    assert!(json_eq(&a, &b));
    assert!(!json_eq(&a, &c));
    assert!(!json_eq(&a, &JsonValue::Null));
}

#[test]
fn json_get_finds_the_first_match() {
    let v = obj(vec![("k", JsonValue::Int(1)), ("k", JsonValue::Int(2))]);
    assert_eq!(v.get("k"), Some(&JsonValue::Int(1)));
    assert_eq!(v.get("missing"), None);
    assert_eq!(JsonValue::Int(3).get("k"), None);
}

#[test]
fn json_duplicate_is_equal() {
    let v = obj(vec![("x", JsonValue::Arr(vec![JsonValue::Str("s".to_string())]))]);
    assert_eq!(v.duplicate(), v);
}

#[test]
fn queries_dispatch_database_first() {
    let root = DataRootElement { operation_type: OperationType::Query };
    let database_ops = vec!["concerts".to_string()];
    let service_ops = vec!["weather".to_string()];
    assert_eq!(
        root.resolve("concerts", &database_ops, &service_ops),
        Ok(OperationTarget::DatabaseSubsystem)
    );
    assert_eq!(
        root.resolve("weather", &database_ops, &service_ops),
        Ok(OperationTarget::ServiceSubsystem)
    );
    assert_eq!(
        root.resolve("unknown", &database_ops, &service_ops),
        Err(ExecutionError::NoSuchQuery("unknown".to_string()))
    );
}

#[test]
fn mutations_and_subscriptions_dispatch() {
    let root = DataRootElement { operation_type: OperationType::Mutation };
    assert_eq!(
        root.resolve("createConcert", &vec!["createConcert".to_string()], &vec![]),
        Ok(OperationTarget::DatabaseSubsystem)
    );
    assert_eq!(
        root.resolve("unknown", &vec![], &vec![]),
        Err(ExecutionError::NoSuchMutation("unknown".to_string()))
    );
    let sub = DataRootElement { operation_type: OperationType::Subscription };
    assert_eq!(
        sub.resolve("anything", &vec![], &vec![]),
        Err(ExecutionError::UnsupportedOperation)
    );
}

#[test]
fn directive_fields_answer_constants() {
    assert_eq!(
        resolve_directive_field("deprecated", "name"),
        Ok(JsonValue::Str("deprecated".to_string()))
    );
    assert_eq!(resolve_directive_field("deprecated", "description"), Ok(JsonValue::Null));
    assert_eq!(
        resolve_directive_field("deprecated", "isRepeatable"),
        Ok(JsonValue::Bool(false))
    );
    assert_eq!(resolve_directive_field("deprecated", "locations"), Ok(JsonValue::Arr(vec![])));
    assert_eq!(resolve_directive_field("deprecated", "args"), Ok(JsonValue::Arr(vec![])));
    assert_eq!(
        resolve_directive_field("deprecated", "__typename"),
        Ok(JsonValue::Str("__Directive".to_string()))
    );
    assert_eq!(
        resolve_directive_field("deprecated", "other"),
        Err(ExecutionError::InvalidField("other".to_string(), "Directive".to_string()))
    );
}

#[test]
fn input_value_fields_answer_or_defer() {
    assert_eq!(
        resolve_input_value_field("limit", &None, "name"),
        Ok(InputValueFieldAnswer::Value(JsonValue::Str("limit".to_string())))
    );
    assert_eq!(
        resolve_input_value_field("limit", &Some("how many".to_string()), "description"),
        Ok(InputValueFieldAnswer::Value(JsonValue::Str("how many".to_string())))
    );
    assert_eq!(
        resolve_input_value_field("limit", &None, "description"),
        Ok(InputValueFieldAnswer::Value(JsonValue::Null))
    );
    assert_eq!(
        resolve_input_value_field("limit", &None, "type"),
        Ok(InputValueFieldAnswer::TypeSelection)
    );
    assert_eq!(
        resolve_input_value_field("limit", &None, "defaultValue"),
        Ok(InputValueFieldAnswer::Value(JsonValue::Null))
    );
    assert_eq!(
        resolve_input_value_field("limit", &None, "other"),
        Err(ExecutionError::InvalidField("other".to_string(), "InputValue".to_string()))
    );
}

#[test]
fn interception_map_routes_by_name() {
    let map = InterceptionMap {
        entries: vec![
            ("createConcert".to_string(), vec![0, 2]),
            ("deleteConcert".to_string(), vec![1]),
        ],
    };
    assert_eq!(map.get("createConcert"), Some(&vec![0usize, 2usize]));
    assert_eq!(map.get("deleteConcert"), Some(&vec![1usize]));
    assert_eq!(map.get("updateConcert"), None);
}

#[test]
fn serializable_system_keeps_its_shape() {
    let system = SerializableSystem {
        subsystems: vec![SerializableSubsystem {
            id: "database".to_string(),
            subsystem_index: 0,
            serialized_subsystem: vec![1, 2, 3],
        }],
        query_interception_map: InterceptionMap { entries: vec![] },
        mutation_interception_map: InterceptionMap { entries: vec![] },
    };
    assert_eq!(system.subsystems.len(), 1);
    assert_eq!(system.subsystems[0].id, "database");
    assert_eq!(system.subsystems[0].serialized_subsystem, vec![1, 2, 3]);
}
