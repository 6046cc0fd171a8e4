use sqlgraph::aggregate::{AggregateQuery, EntityType};
use sqlgraph::error::ExecutionError;
use sqlgraph::graphql::GraphQLValue;
use sqlgraph::json::JsonValue;
use sqlgraph::order_by::{OrderByParameter, OrderByParameterType, OrderByParameterTypeKind};
use sqlgraph::predicate::AbstractPredicate;
use sqlgraph::predicate_mapper::{PredicateParameter, PredicateParameterType,
    PredicateParameterTypeKind};
use sqlgraph::schema::{ColumnId, ColumnIdPath};
use sqlgraph::solver::{solve_access, AccessContextSelection, AccessPredicateExpression,
    AccessPrimitiveExpression, AccessRelationalOp, AccessSolverError};
use sqlgraph::aggregate::ValidatedField;

fn obj(fields: Vec<(&str, JsonValue)>) -> JsonValue {
    JsonValue::Obj(fields.into_iter().map(|(k, v)| (k.to_string(), v)).collect())
}

fn ctx_expr(head: &str, key: &str) -> Box<AccessPrimitiveExpression> {
    Box::new(AccessPrimitiveExpression::ContextSelection(AccessContextSelection::Select(
        Box::new(AccessContextSelection::Single(head.to_string())),
        key.to_string(),
    )))
}

#[test]
fn in_membership_is_decided_in_process() {
    let expr = AccessPredicateExpression::RelationalOp(AccessRelationalOp::In(
        ctx_expr("AccessContext", "role"),
        ctx_expr("AccessContext", "roles"),
    ));
    let context = obj(vec![(
        "AccessContext",
        obj(vec![
            ("role", JsonValue::Str("USER".to_string())),
            (
                "roles",
                JsonValue::Arr(vec![
                    JsonValue::Str("USER".to_string()),
                    JsonValue::Str("ADMIN".to_string()),
                ]),
            ),
        ]),
    )]);
    assert_eq!(solve_access(&expr, &context), Ok(AbstractPredicate::True));

    let context = obj(vec![(
        "AccessContext",
        obj(vec![
            ("role", JsonValue::Str("GUEST".to_string())),
            ("roles", JsonValue::Arr(vec![JsonValue::Str("USER".to_string())])),
        ]),
    )]);
    assert_eq!(solve_access(&expr, &context), Ok(AbstractPredicate::False));
}

#[test]
fn in_with_non_array_right_side_is_rejected() {
    let expr = AccessPredicateExpression::RelationalOp(AccessRelationalOp::In(
        ctx_expr("AccessContext", "role"),
        ctx_expr("AccessContext", "roles"),
    ));
    let context = obj(vec![(
        "AccessContext",
        obj(vec![
            ("role", JsonValue::Str("USER".to_string())),
            ("roles", JsonValue::Str("USER".to_string())),
        ]),
    )]);
    assert_eq!(solve_access(&expr, &context), Err(AccessSolverError::InvalidInOperand));
}

#[test]
fn non_integer_ordering_operands_are_rejected() {
    // Only integers carry an in-process order; an ordering comparison over
    // any other concrete value shape is refused rather than answered.
    let expr = AccessPredicateExpression::RelationalOp(AccessRelationalOp::Lt(
        ctx_expr("AccessContext", "a"),
        ctx_expr("AccessContext", "b"),
    ));
    let context = obj(vec![(
        "AccessContext",
        obj(vec![("a", obj(vec![])), ("b", JsonValue::Int(1))]),
    )]);
    assert_eq!(solve_access(&expr, &context), Err(AccessSolverError::UnsupportedLiteral));

    let context = obj(vec![(
        "AccessContext",
        obj(vec![("a", JsonValue::Bool(true)), ("b", JsonValue::Int(1))]),
    )]);
    assert_eq!(solve_access(&expr, &context), Err(AccessSolverError::UnsupportedLiteral));
}

#[test]
fn non_boolean_bare_context_selection_is_rejected() {
    let expr = AccessPredicateExpression::BooleanContextSelection(
        AccessContextSelection::Select(
            Box::new(AccessContextSelection::Single("AccessContext".to_string())),
            "role".to_string(),
        ),
    );
    let context = obj(vec![(
        "AccessContext",
        obj(vec![("role", JsonValue::Str("ADMIN".to_string()))]),
    )]);
    assert_eq!(solve_access(&expr, &context), Err(AccessSolverError::NonBooleanContext));
}

#[test]
fn rejected_policy_surfaces_as_an_access_solver_error() {
    let entities = vec![EntityType {
        name: "ConcertAgg".to_string(),
        table_id: 0,
        fields: vec![],
        access_retrieve: AccessPredicateExpression::BooleanContextSelection(
            AccessContextSelection::Single("role".to_string()),
        ),
    }];
    let query = AggregateQuery {
        name: "concertAgg".to_string(),
        return_type_id: 0,
        predicate_param: None,
    };
    let field = ValidatedField {
        name: "concertAgg".to_string(),
        alias: None,
        arguments: vec![],
        subfields: vec![],
    };
    let context = obj(vec![("role", JsonValue::Str("ADMIN".to_string()))]);
    let err = query
        .resolve_select(&field, &context, &entities, &vec![], &vec![])
        .unwrap_err();
    assert_eq!(err, ExecutionError::AccessSolver(AccessSolverError::NonBooleanContext));
}

#[test]
fn parameter_without_a_column_is_rejected() {
    let types = vec![PredicateParameterType {
        name: "Int".to_string(),
        kind: PredicateParameterTypeKind::ImplicitEqual,
    }];
    let param = PredicateParameter { name: "id".to_string(), type_id: 0, column_id: None };
    let err = param.map_to_sql(&GraphQLValue::Number(1), &vec![], &types).unwrap_err();
    assert_eq!(err, ExecutionError::MissingColumn("id".to_string()));
}

#[test]
fn parameter_with_a_dangling_type_id_is_rejected() {
    let types: Vec<PredicateParameterType> = vec![];
    let param = PredicateParameter {
        name: "id".to_string(),
        type_id: 3,
        column_id: Some(ColumnId { table_id: 0, column_index: 0 }),
    };
    let err = param.map_to_sql(&GraphQLValue::Number(1), &vec![], &types).unwrap_err();
    assert_eq!(err, ExecutionError::UnknownParameterType);
}

#[test]
fn variable_valued_binding_cannot_stand_as_a_literal() {
    // A binding that itself holds a variable reference survives one
    // substitution and is then rejected as a literal operand.
    let types = vec![PredicateParameterType {
        name: "Int".to_string(),
        kind: PredicateParameterTypeKind::ImplicitEqual,
    }];
    let param = PredicateParameter {
        name: "id".to_string(),
        type_id: 0,
        column_id: Some(ColumnId { table_id: 0, column_index: 0 }),
    };
    let variables = vec![("v".to_string(), GraphQLValue::Variable("w".to_string()))];
    let err = param
        .map_to_sql(&GraphQLValue::Variable("v".to_string()), &variables, &types)
        .unwrap_err();
    assert_eq!(err, ExecutionError::InvalidLiteral);
}

#[test]
fn primitive_order_by_parameter_type_is_rejected() {
    let types = vec![OrderByParameterType {
        name: "Ordering".to_string(),
        kind: OrderByParameterTypeKind::Primitive,
    }];
    let param = OrderByParameter {
        name: "orderBy".to_string(),
        param_type_name: "Ordering".to_string(),
        type_id: 0,
        column_path_link: None,
    };
    let argument = GraphQLValue::Object(vec![(
        "title".to_string(),
        GraphQLValue::Enum("ASC".to_string()),
    )]);
    let err = param
        .map_to_order_by(&argument, &ColumnIdPath { path: vec![] }, &types)
        .unwrap_err();
    assert_eq!(err, ExecutionError::InvalidPrimitiveOrderByParameter);
}
