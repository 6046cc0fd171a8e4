use sqlgraph::error::ExecutionError;
use sqlgraph::graphql::GraphQLValue;
use sqlgraph::json::JsonValue;
use sqlgraph::predicate::{AbstractPredicate, ColumnPath};
use sqlgraph::predicate_mapper::{PredicateParameter, PredicateParameterType,
    PredicateParameterTypeKind};
use sqlgraph::schema::{ColumnId, ColumnPathLink};

fn column(table_id: usize, column_index: usize) -> ColumnId {
    ColumnId { table_id, column_index }
}

fn key_path(id: ColumnId) -> ColumnPath {
    ColumnPath::Physical(vec![ColumnPathLink { self_column_id: id, linked_column_id: None }])
}

fn object(fields: Vec<(&str, GraphQLValue)>) -> GraphQLValue {
    GraphQLValue::Object(fields.into_iter().map(|(k, v)| (k.to_string(), v)).collect())
}

/// Predicate types: 0 = IntFilter (operator), 1 = implicit-equal leaf,
/// 2 = ConcertFilter (composite over id/title).
fn predicate_types() -> Vec<PredicateParameterType> {
    let operator_params = vec![
        PredicateParameter { name: "eq".to_string(), type_id: 1, column_id: None },
        PredicateParameter { name: "neq".to_string(), type_id: 1, column_id: None },
        PredicateParameter { name: "lt".to_string(), type_id: 1, column_id: None },
        PredicateParameter { name: "lte".to_string(), type_id: 1, column_id: None },
        PredicateParameter { name: "gt".to_string(), type_id: 1, column_id: None },
        PredicateParameter { name: "gte".to_string(), type_id: 1, column_id: None },
        PredicateParameter { name: "in".to_string(), type_id: 1, column_id: None },
    ];
    vec![
        PredicateParameterType {
            name: "IntFilter".to_string(),
            kind: PredicateParameterTypeKind::Operator(operator_params),
        },
        PredicateParameterType {
            name: "Int".to_string(),
            kind: PredicateParameterTypeKind::ImplicitEqual,
        },
        PredicateParameterType {
            name: "ConcertFilter".to_string(),
            kind: PredicateParameterTypeKind::Composite(vec![
                PredicateParameter {
                    name: "id".to_string(),
                    type_id: 0,
                    column_id: Some(column(0, 0)),
                },
                PredicateParameter {
                    name: "title".to_string(),
                    type_id: 1,
                    column_id: Some(column(0, 1)),
                },
            ]),
        },
    ]
}

fn no_vars() -> Vec<(String, GraphQLValue)> {
    vec![]
}

#[test]
fn implicit_equal_leaf_maps_to_equality() {
    let types = predicate_types();
    let param = PredicateParameter {
        name: "id".to_string(),
        type_id: 1,
        column_id: Some(column(0, 0)),
    };
    let pred = param.map_to_sql(&GraphQLValue::Number(5), &no_vars(), &types).unwrap();
    assert_eq!(
        pred,
        AbstractPredicate::Eq(key_path(column(0, 0)), ColumnPath::Literal(JsonValue::Int(5)))
    );
}

#[test]
fn operator_fields_fold_into_conjunction() {
    // {gt: 5, lt: 10} conjoins both comparisons on the parameter's column.
    let types = predicate_types();
    let param = PredicateParameter {
        name: "id".to_string(),
        type_id: 0,
        column_id: Some(column(0, 0)),
    };
    let argument = object(vec![
        ("gt", GraphQLValue::Number(5)),
        ("lt", GraphQLValue::Number(10)),
    ]);
    let pred = param.map_to_sql(&argument, &no_vars(), &types).unwrap();
    assert_eq!(
        pred,
        AbstractPredicate::And(
            Box::new(AbstractPredicate::Gt(
                key_path(column(0, 0)),
                ColumnPath::Literal(JsonValue::Int(5))
            )),
            Box::new(AbstractPredicate::Lt(
                key_path(column(0, 0)),
                ColumnPath::Literal(JsonValue::Int(10))
            )),
        )
    );
}

#[test]
fn composite_fields_map_through_their_parameters() {
    let types = predicate_types();
    let root = PredicateParameter { name: "where".to_string(), type_id: 2, column_id: None };
    let argument = object(vec![
        ("id", object(vec![("gt", GraphQLValue::Number(1))])),
        ("title", GraphQLValue::Str("Newport".to_string())),
    ]);
    let pred = root.map_to_sql(&argument, &no_vars(), &types).unwrap();
    assert_eq!(
        pred,
        AbstractPredicate::And(
            Box::new(AbstractPredicate::Gt(
                key_path(column(0, 0)),
                ColumnPath::Literal(JsonValue::Int(1))
            )),
            Box::new(AbstractPredicate::Eq(
                key_path(column(0, 1)),
                ColumnPath::Literal(JsonValue::Str("Newport".to_string()))
            )),
        )
    );
}

#[test]
fn empty_composite_argument_is_no_op_filter() {
    let types = predicate_types();
    let root = PredicateParameter { name: "where".to_string(), type_id: 2, column_id: None };
    let pred = root.map_to_sql(&object(vec![]), &no_vars(), &types).unwrap();
    assert_eq!(pred, AbstractPredicate::True);
}

#[test]
fn variables_resolve_before_mapping() {
    let types = predicate_types();
    let param = PredicateParameter {
        name: "id".to_string(),
        type_id: 1,
        column_id: Some(column(0, 0)),
    };
    let variables = vec![("idVar".to_string(), GraphQLValue::Number(9))];
    let pred = param
        .map_to_sql(&GraphQLValue::Variable("idVar".to_string()), &variables, &types)
        .unwrap();
    assert_eq!(
        pred,
        AbstractPredicate::Eq(key_path(column(0, 0)), ColumnPath::Literal(JsonValue::Int(9)))
    );
}

#[test]
fn unbound_variable_is_rejected() {
    let types = predicate_types();
    let param = PredicateParameter {
        name: "id".to_string(),
        type_id: 1,
        column_id: Some(column(0, 0)),
    };
    let err = param
        .map_to_sql(&GraphQLValue::Variable("missing".to_string()), &no_vars(), &types)
        .unwrap_err();
    assert_eq!(err, ExecutionError::UnresolvedVariable("missing".to_string()));
}

#[test]
fn unknown_operator_is_rejected() {
    let types = predicate_types();
    let param = PredicateParameter {
        name: "id".to_string(),
        type_id: 0,
        column_id: Some(column(0, 0)),
    };
    let argument = object(vec![("like", GraphQLValue::Str("a%".to_string()))]);
    let err = param.map_to_sql(&argument, &no_vars(), &types).unwrap_err();
    assert_eq!(err, ExecutionError::UnknownOperator("like".to_string()));
}

#[test]
fn unknown_filter_field_is_rejected() {
    let types = predicate_types();
    let root = PredicateParameter { name: "where".to_string(), type_id: 2, column_id: None };
    let argument = object(vec![("venue", GraphQLValue::Number(1))]);
    let err = root.map_to_sql(&argument, &no_vars(), &types).unwrap_err();
    assert_eq!(err, ExecutionError::UnknownField("venue".to_string()));
}

#[test]
fn null_leaf_maps_to_null_comparison() {
    let types = predicate_types();
    let param = PredicateParameter {
        name: "title".to_string(),
        type_id: 1,
        column_id: Some(column(0, 1)),
    };
    let pred = param.map_to_sql(&GraphQLValue::Null, &no_vars(), &types).unwrap();
    assert_eq!(pred, AbstractPredicate::Eq(key_path(column(0, 1)), ColumnPath::Null));
}
