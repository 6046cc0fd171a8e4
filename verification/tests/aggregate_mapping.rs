use sqlgraph::aggregate::{AggregateQuery, EntityField, EntityRelation, EntityType,
    ValidatedField};
use sqlgraph::error::ExecutionError;
use sqlgraph::graphql::GraphQLValue;
use sqlgraph::json::JsonValue;
use sqlgraph::predicate::AbstractPredicate;
use sqlgraph::schema::ColumnId;
use sqlgraph::solver::AccessPredicateExpression;
use sqlgraph::sql_ast::{Column, Selection, SelectionCardinality};

fn column(table_id: usize, column_index: usize) -> ColumnId {
    ColumnId { table_id, column_index }
}

fn leaf_field(name: &str, subfields: Vec<ValidatedField>) -> ValidatedField {
    ValidatedField { name: name.to_string(), alias: None, arguments: vec![], subfields }
}

fn concert_agg_entity(access: AccessPredicateExpression) -> EntityType {
    EntityType {
        name: "ConcertAgg".to_string(),
        table_id: 0,
        fields: vec![
            EntityField {
                name: "id".to_string(),
                relation: EntityRelation::Pk { column_id: column(0, 0) },
            },
            EntityField {
                name: "price".to_string(),
                relation: EntityRelation::Scalar { column_id: column(0, 1) },
            },
            EntityField {
                name: "venue".to_string(),
                relation: EntityRelation::ManyToOne {
                    column_id: column(0, 2),
                    other_type_id: 1,
                },
            },
        ],
        access_retrieve: access,
    }
}

fn allow_all() -> AccessPredicateExpression {
    AccessPredicateExpression::BooleanLiteral(true)
}

#[test]
fn aggregate_selects_function_projections() {
    let entities = vec![concert_agg_entity(allow_all())];
    let query = AggregateQuery {
        name: "concertAgg".to_string(),
        return_type_id: 0,
        predicate_param: None,
    };
    let field = leaf_field(
        "concertAgg",
        vec![leaf_field("price", vec![leaf_field("sum", vec![]), leaf_field("avg", vec![])])],
    );

    let select = query
        .resolve_select(&field, &JsonValue::Null, &entities, &vec![], &vec![])
        .unwrap();
    assert_eq!(select.table_id, 0);
    assert_eq!(select.predicate, AbstractPredicate::True);
    match select.selection {
        Selection::Json(sels, SelectionCardinality::One) => {
            assert_eq!(sels.len(), 1);
            assert_eq!(sels[0].alias, "price");
            assert_eq!(
                sels[0].column,
                Column::JsonObject(vec![
                    (
                        "sum".to_string(),
                        Column::Function {
                            function_name: "sum".to_string(),
                            column_id: column(0, 1),
                        }
                    ),
                    (
                        "avg".to_string(),
                        Column::Function {
                            function_name: "avg".to_string(),
                            column_id: column(0, 1),
                        }
                    ),
                ])
            );
        },
        other => panic!("unexpected selection {:?}", other),
    }
}

#[test]
fn typename_is_a_synthesized_constant() {
    let entities = vec![concert_agg_entity(allow_all())];
    let query = AggregateQuery {
        name: "concertAgg".to_string(),
        return_type_id: 0,
        predicate_param: None,
    };
    let field = leaf_field("concertAgg", vec![leaf_field("__typename", vec![])]);

    let select = query
        .resolve_select(&field, &JsonValue::Null, &entities, &vec![], &vec![])
        .unwrap();
    match select.selection {
        Selection::Json(sels, _) => {
            assert_eq!(sels[0].column, Column::Constant("ConcertAgg".to_string()));
        },
        other => panic!("unexpected selection {:?}", other),
    }
}

#[test]
fn nested_composite_aggregation_is_rejected() {
    let entities = vec![concert_agg_entity(allow_all())];
    let query = AggregateQuery {
        name: "concertAgg".to_string(),
        return_type_id: 0,
        predicate_param: None,
    };
    let field = leaf_field("concertAgg", vec![leaf_field("venue", vec![])]);

    let err = query
        .resolve_select(&field, &JsonValue::Null, &entities, &vec![], &vec![])
        .unwrap_err();
    assert_eq!(err, ExecutionError::InvalidNestedAggregation);
}

#[test]
fn denied_access_rejects_before_any_sql() {
    let entities = vec![concert_agg_entity(AccessPredicateExpression::BooleanLiteral(false))];
    let query = AggregateQuery {
        name: "concertAgg".to_string(),
        return_type_id: 0,
        predicate_param: None,
    };
    let field = leaf_field("concertAgg", vec![leaf_field("__typename", vec![])]);

    let err = query
        .resolve_select(&field, &JsonValue::Null, &entities, &vec![], &vec![])
        .unwrap_err();
    assert_eq!(err, ExecutionError::NotAuthorized);
}

#[test]
fn unknown_selection_field_is_rejected() {
    let entities = vec![concert_agg_entity(allow_all())];
    let query = AggregateQuery {
        name: "concertAgg".to_string(),
        return_type_id: 0,
        predicate_param: None,
    };
    let field = leaf_field("concertAgg", vec![leaf_field("price2", vec![])]);

    let err = query
        .resolve_select(&field, &JsonValue::Null, &entities, &vec![], &vec![])
        .unwrap_err();
    assert_eq!(err, ExecutionError::UnknownField("price2".to_string()));
}

#[test]
fn alias_becomes_the_output_name() {
    let entities = vec![concert_agg_entity(allow_all())];
    let query = AggregateQuery {
        name: "concertAgg".to_string(),
        return_type_id: 0,
        predicate_param: None,
    };
    let aliased = ValidatedField {
        name: "price".to_string(),
        alias: Some("cost".to_string()),
        arguments: vec![],
        subfields: vec![leaf_field("max", vec![])],
    };
    let field = leaf_field("concertAgg", vec![aliased]);

    let select = query
        .resolve_select(&field, &JsonValue::Null, &entities, &vec![], &vec![])
        .unwrap();
    match select.selection {
        Selection::Json(sels, _) => assert_eq!(sels[0].alias, "cost"),
        other => panic!("unexpected selection {:?}", other),
    }
}
