use sqlgraph::builder::{build_expanded, build_shallow, collection_predicate_param,
    limit_param, offset_param, pk_predicate_param, DatabaseField, DatabaseMutationKind,
    DatabaseType, DatabaseTypeModifier, DeleteMutationBuilder, MappedArena,
    SystemContextBuilding};
use sqlgraph::error::ExecutionError;
use sqlgraph::order_by::OrderByParameter;
use sqlgraph::predicate_mapper::{PredicateParameterType, PredicateParameterTypeKind};
use sqlgraph::schema::ColumnId;

fn concert_type() -> DatabaseType {
    DatabaseType {
        name: "Concert".to_string(),
        fields: vec![
            DatabaseField {
                name: "id".to_string(),
                field_type_name: "Int".to_string(),
                self_column_id: Some(ColumnId { table_id: 0, column_index: 0 }),
                is_pk: true,
            },
            DatabaseField {
                name: "title".to_string(),
                field_type_name: "String".to_string(),
                self_column_id: Some(ColumnId { table_id: 0, column_index: 1 }),
                is_pk: false,
            },
        ],
        pk_query_name: "concert".to_string(),
        collection_query_name: "concerts".to_string(),
        pk_delete_name: "deleteConcert".to_string(),
        collection_delete_name: "deleteConcerts".to_string(),
    }
}

fn building_with_types() -> SystemContextBuilding {
    let mut building = SystemContextBuilding::new();
    building.database_types.register(
        "Int".to_string(),
        DatabaseType {
            name: "Int".to_string(),
            fields: vec![],
            pk_query_name: String::new(),
            collection_query_name: String::new(),
            pk_delete_name: String::new(),
            collection_delete_name: String::new(),
        },
    );
    building.predicate_types.register(
        "Int".to_string(),
        PredicateParameterType {
            name: "Int".to_string(),
            kind: PredicateParameterTypeKind::ImplicitEqual,
        },
    );
    building.predicate_types.register(
        "ConcertFilter".to_string(),
        PredicateParameterType {
            name: "ConcertFilter".to_string(),
            kind: PredicateParameterTypeKind::Composite(vec![]),
        },
    );
    building
}

#[test]
fn shallow_pass_registers_two_queries_per_type() {
    let mut building = SystemContextBuilding::new();
    let models = vec![concert_type()];
    build_shallow(&models, &mut building);
    assert_eq!(building.queries.get_id("concert"), Some(0));
    assert_eq!(building.queries.get_id("concerts"), Some(1));
    let pk_query = building.queries.get(0);
    assert_eq!(pk_query.return_type.type_modifier, DatabaseTypeModifier::NonNull);
    assert!(pk_query.parameter.predicate_param.is_none());
    let collection = building.queries.get(1);
    assert_eq!(collection.return_type.type_modifier, DatabaseTypeModifier::List);
}

#[test]
fn pk_predicate_param_filters_the_key_column() {
    let building = building_with_types();
    let param = pk_predicate_param(&concert_type(), &building).unwrap();
    assert_eq!(param.name, "id");
    assert_eq!(param.column_id, Some(ColumnId { table_id: 0, column_index: 0 }));
    assert_eq!(building.predicate_types.keys[param.type_id], "Int");
}

#[test]
fn collection_predicate_param_is_a_where_filter() {
    let building = building_with_types();
    let param = collection_predicate_param("ConcertFilter", &building).unwrap();
    assert_eq!(param.name, "where");
    assert_eq!(param.column_id, None);
    assert_eq!(building.predicate_types.keys[param.type_id], "ConcertFilter");
}

#[test]
fn windowing_params_are_optional_ints() {
    let building = building_with_types();
    let limit = limit_param(&building).unwrap();
    assert_eq!(limit.name, "limit");
    assert_eq!(limit.param_type_name, "Int");
    assert_eq!(limit.type_modifier, DatabaseTypeModifier::Optional);
    let offset = offset_param(&building).unwrap();
    assert_eq!(offset.name, "offset");
    assert_eq!(offset.type_modifier, DatabaseTypeModifier::Optional);
}

#[test]
fn windowing_params_need_the_int_type() {
    let empty = SystemContextBuilding::new();
    assert_eq!(limit_param(&empty), Err(ExecutionError::UnknownParameterType));
    assert_eq!(offset_param(&empty), Err(ExecutionError::UnknownParameterType));
}

#[test]
fn expansion_fills_all_parameters() {
    let building = building_with_types();
    let order_param = OrderByParameter {
        name: "orderBy".to_string(),
        param_type_name: "ConcertOrdering".to_string(),
        type_id: 0,
        column_path_link: None,
    };
    let (pk_query, collection) =
        build_expanded(0, &concert_type(), "ConcertFilter", order_param, &building).unwrap();
    assert_eq!(pk_query.name, "concert");
    assert_eq!(pk_query.parameter.predicate_param.as_ref().unwrap().name, "id");
    assert_eq!(collection.name, "concerts");
    assert_eq!(collection.parameter.predicate_param.as_ref().unwrap().name, "where");
    assert!(collection.parameter.order_by_param.is_some());
    assert!(collection.parameter.limit_param.is_some());
    assert!(collection.parameter.offset_param.is_some());
}

#[test]
fn delete_build_expanded_registers_both_mutations() {
    let mut building = building_with_types();
    let models = vec![concert_type()];
    let filters = vec!["ConcertFilter".to_string()];
    DeleteMutationBuilder.build_expanded(&models, &filters, &mut building).unwrap();
    assert_eq!(building.mutations.get_id("deleteConcert"), Some(0));
    assert_eq!(building.mutations.get_id("deleteConcerts"), Some(1));
}

#[test]
fn delete_mutations_reuse_the_filter_parameters() {
    let building = building_with_types();
    let concert = concert_type();
    assert_eq!(DeleteMutationBuilder::single_mutation_name(&concert), "deleteConcert");
    assert_eq!(DeleteMutationBuilder::multi_mutation_name(&concert), "deleteConcerts");
    assert_eq!(DeleteMutationBuilder.type_names().len(), 0);

    match DeleteMutationBuilder::single_mutation_kind(&concert, &building).unwrap() {
        DatabaseMutationKind::Delete(p) => {
            assert_eq!(p.name, "id");
            assert_eq!(p.column_id, Some(ColumnId { table_id: 0, column_index: 0 }));
        },
    }
    match DeleteMutationBuilder::multi_mutation_kind("ConcertFilter", &building).unwrap() {
        DatabaseMutationKind::Delete(p) => {
            assert_eq!(p.name, "where");
            assert_eq!(p.column_id, None);
        },
    }
}

#[test]
fn arena_finds_first_registration() {
    let mut arena: MappedArena<u32> = MappedArena::new();
    assert_eq!(arena.get_id("a"), None);
    let a = arena.register("a".to_string(), 1);
    let b = arena.register("b".to_string(), 2);
    assert_eq!(arena.get_id("a"), Some(a));
    assert_eq!(arena.get_id("b"), Some(b));
    assert_eq!(*arena.get(b), 2);
}
