use sqlgraph::json::JsonValue;
use sqlgraph::predicate::{AbstractPredicate, ColumnPath};
use sqlgraph::renderer::{render_predicate, SqlBuilder};
use sqlgraph::schema::{ColumnId, ColumnIdPath, ColumnPathLink, ModelSystem, PhysicalColumn,
    PhysicalColumnType, PhysicalTable};
use sqlgraph::sql_ast::{AbstractOrderBy, AbstractSelect, Column, ColumnSelection, Insert,
    JsonAgg, Ordering, Selection, SelectionCardinality};

fn concert_system() -> ModelSystem {
    let mut system = ModelSystem::new();
    system.insert_table(PhysicalTable {
        name: "concerts".to_string(),
        columns: vec![
            PhysicalColumn {
                table_name: "concerts".to_string(),
                column_name: "id".to_string(),
                typ: PhysicalColumnType::Int,
                is_pk: true,
                is_nullable: false,
            },
            PhysicalColumn {
                table_name: "concerts".to_string(),
                column_name: "title".to_string(),
                typ: PhysicalColumnType::Text,
                is_pk: false,
                is_nullable: false,
            },
        ],
    });
    system
}

fn id_column() -> ColumnId {
    ColumnId { table_id: 0, column_index: 0 }
}

fn title_column() -> ColumnId {
    ColumnId { table_id: 0, column_index: 1 }
}

fn single_path(id: ColumnId) -> ColumnPath {
    ColumnPath::Physical(vec![ColumnPathLink { self_column_id: id, linked_column_id: None }])
}

#[test]
fn literal_renders_as_placeholder_never_text() {
    let system = concert_system();
    let mut builder = SqlBuilder::new();
    let pred = AbstractPredicate::Eq(
        single_path(title_column()),
        ColumnPath::Literal(JsonValue::Str("Newport'); DROP TABLE concerts;--".to_string())),
    );
    render_predicate(&pred, &system, &mut builder);
    let (sql, params) = builder.into_parts();
    assert_eq!(sql, "concerts.title = $1");
    assert_eq!(
        params,
        vec![JsonValue::Str("Newport'); DROP TABLE concerts;--".to_string())]
    );
}

#[test]
fn predicate_renders_with_positional_parameters() {
    let system = concert_system();
    let mut builder = SqlBuilder::new();
    let pred = AbstractPredicate::And(
        Box::new(AbstractPredicate::Eq(
            single_path(title_column()),
            ColumnPath::Literal(JsonValue::Str("Newport".to_string())),
        )),
        Box::new(AbstractPredicate::Gt(
            single_path(id_column()),
            ColumnPath::Literal(JsonValue::Int(10)),
        )),
    );
    render_predicate(&pred, &system, &mut builder);
    let (sql, params) = builder.into_parts();
    assert_eq!(sql, "(concerts.title = $1 AND concerts.id > $2)");
    assert_eq!(
        params,
        vec![JsonValue::Str("Newport".to_string()), JsonValue::Int(10)]
    );
}

#[test]
fn insert_renders_rows_and_returning() {
    let system = concert_system();
    let insert = Insert {
        table_id: 0,
        columns: vec![title_column()],
        values_seq: vec![
            vec![Column::Literal(JsonValue::Str("a".to_string()))],
            vec![Column::Literal(JsonValue::Str("b".to_string()))],
        ],
        returning: vec![Column::Physical(id_column())],
    };
    let mut builder = SqlBuilder::new();
    insert.build(&system, &mut builder);
    let (sql, params) = builder.into_parts();
    assert_eq!(
        sql,
        "INSERT INTO concerts (title) VALUES ($1), ($2) RETURNING concerts.id"
    );
    assert_eq!(
        params,
        vec![JsonValue::Str("a".to_string()), JsonValue::Str("b".to_string())]
    );
}

#[test]
fn insert_without_returning_omits_clause() {
    let system = concert_system();
    let insert = Insert {
        table_id: 0,
        columns: vec![title_column()],
        values_seq: vec![vec![Column::Literal(JsonValue::Str("a".to_string()))]],
        returning: vec![],
    };
    let mut builder = SqlBuilder::new();
    insert.build(&system, &mut builder);
    let (sql, _) = builder.into_parts();
    assert_eq!(sql, "INSERT INTO concerts (title) VALUES ($1)");
}

#[test]
fn json_agg_coalesces_to_empty_array() {
    // The COALESCE wrapper makes an aggregation over zero rows render as
    // '[]', never SQL NULL.
    let system = concert_system();
    let agg = JsonAgg(Box::new(Column::Physical(title_column())));
    let mut builder = SqlBuilder::new();
    agg.build(&system, &mut builder);
    let (sql, params) = builder.into_parts();
    assert_eq!(sql, "COALESCE(json_agg(concerts.title), '[]'::json)");
    assert_eq!(params, vec![]);
}

#[test]
fn many_cardinality_select_renders_empty_collection_fallback() {
    let system = concert_system();
    let select = AbstractSelect {
        table_id: 0,
        selection: Selection::Json(
            vec![ColumnSelection::new("title".to_string(), Column::Physical(title_column()))],
            SelectionCardinality::Many,
        ),
        predicate: AbstractPredicate::True,
        order_by: None,
        offset: None,
        limit: None,
    };
    let mut builder = SqlBuilder::new();
    select.build(&system, &mut builder);
    let (sql, params) = builder.into_parts();
    assert_eq!(
        sql,
        "SELECT COALESCE(json_agg(json_build_object($1, concerts.title)), '[]'::json) FROM concerts"
    );
    assert_eq!(params, vec![JsonValue::Str("title".to_string())]);
}

#[test]
fn one_cardinality_select_renders_single_object() {
    let system = concert_system();
    let select = AbstractSelect {
        table_id: 0,
        selection: Selection::Json(
            vec![ColumnSelection::new("title".to_string(), Column::Physical(title_column()))],
            SelectionCardinality::One,
        ),
        predicate: AbstractPredicate::Eq(
            single_path(id_column()),
            ColumnPath::Literal(JsonValue::Int(5)),
        ),
        order_by: None,
        offset: None,
        limit: None,
    };
    let mut builder = SqlBuilder::new();
    select.build(&system, &mut builder);
    let (sql, params) = builder.into_parts();
    assert_eq!(
        sql,
        "SELECT json_build_object($1, concerts.title) FROM concerts WHERE concerts.id = $2"
    );
    assert_eq!(
        params,
        vec![JsonValue::Str("title".to_string()), JsonValue::Int(5)]
    );
}

#[test]
fn select_renders_order_limit_offset() {
    let system = concert_system();
    let select = AbstractSelect {
        table_id: 0,
        selection: Selection::Columns(vec![ColumnSelection::new(
            "title".to_string(),
            Column::Physical(title_column()),
        )]),
        predicate: AbstractPredicate::True,
        order_by: Some(AbstractOrderBy(vec![(
            ColumnIdPath {
                path: vec![ColumnPathLink {
                    self_column_id: title_column(),
                    linked_column_id: None,
                }],
            },
            Ordering::Desc,
        )])),
        offset: Some(4),
        limit: Some(10),
    };
    let mut builder = SqlBuilder::new();
    select.build(&system, &mut builder);
    let (sql, params) = builder.into_parts();
    assert_eq!(
        sql,
        "SELECT concerts.title FROM concerts ORDER BY concerts.title DESC LIMIT $1 OFFSET $2"
    );
    assert_eq!(params, vec![JsonValue::Int(10), JsonValue::Int(4)]);
}

#[test]
fn function_column_renders_a_call() {
    let system = concert_system();
    let mut builder = SqlBuilder::new();
    Column::Function { function_name: "max".to_string(), column_id: id_column() }
        .build(&system, &mut builder);
    let (sql, params) = builder.into_parts();
    assert_eq!(sql, "max(concerts.id)");
    assert_eq!(params, vec![]);
}

#[test]
fn constant_and_object_render_parameterized() {
    let system = concert_system();
    let mut builder = SqlBuilder::new();
    Column::JsonObject(vec![
        ("kind".to_string(), Column::Constant("Concert".to_string())),
        ("title".to_string(), Column::Physical(title_column())),
    ])
    .build(&system, &mut builder);
    let (sql, params) = builder.into_parts();
    assert_eq!(sql, "json_build_object($1, $2, $3, concerts.title)");
    assert_eq!(
        params,
        vec![
            JsonValue::Str("kind".to_string()),
            JsonValue::Str("Concert".to_string()),
            JsonValue::Str("title".to_string()),
        ]
    );
}

#[test]
fn placeholders_count_in_decimal() {
    let system = concert_system();
    let mut builder = SqlBuilder::new();
    for i in 0..12 {
        Column::Literal(JsonValue::Int(i)).build(&system, &mut builder);
    }
    let (sql, params) = builder.into_parts();
    assert_eq!(sql, "$1$2$3$4$5$6$7$8$9$10$11$12");
    assert_eq!(params.len(), 12);
}
