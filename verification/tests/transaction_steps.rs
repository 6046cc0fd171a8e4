use sqlgraph::json::JsonValue;
use sqlgraph::schema::ColumnId;
use sqlgraph::sql_ast::Column;
use sqlgraph::transaction::{ProxyColumn, TemplateInsert, TransactionContext};

fn column_id(table_id: usize, column_index: usize) -> ColumnId {
    ColumnId { table_id, column_index }
}

#[test]
fn has_template_columns() {
    let with_template = TemplateInsert {
        table_id: 0,
        column_names: vec![column_id(0, 0)],
        column_values_seq: vec![vec![
            ProxyColumn::Concrete(Column::Literal(JsonValue::Int(1))),
            ProxyColumn::Template { col_index: 0, step_id: 0 },
        ]],
        returning: vec![],
    };
    assert!(with_template.has_template_columns());

    let without_template = TemplateInsert {
        table_id: 0,
        column_names: vec![column_id(0, 0)],
        column_values_seq: vec![vec![ProxyColumn::Concrete(Column::Literal(JsonValue::Int(1)))]],
        returning: vec![],
    };
    assert!(!without_template.has_template_columns());
}

#[test]
fn zero_rows_with_templates_produces_no_statement() {
    // A templated step whose dependency returned no rows is skipped
    // entirely: no statement, not a statement with zero value rows.
    let mut context = TransactionContext::new();
    let step_id = context.push_step_rows(vec![]);

    let templated = TemplateInsert {
        table_id: 0,
        column_names: vec![column_id(0, 0), column_id(0, 1)],
        column_values_seq: vec![vec![
            ProxyColumn::Concrete(Column::Literal(JsonValue::Str("n".to_string()))),
            ProxyColumn::Template { col_index: 0, step_id },
        ]],
        returning: vec![],
    };

    assert_eq!(templated.resolve(step_id, &context), None);
}

#[test]
fn zero_rows_without_templates_still_resolves() {
    let mut context = TransactionContext::new();
    let step_id = context.push_step_rows(vec![]);

    let concrete_only = TemplateInsert {
        table_id: 0,
        column_names: vec![column_id(0, 0)],
        column_values_seq: vec![vec![ProxyColumn::Concrete(Column::Literal(JsonValue::Int(7)))]],
        returning: vec![],
    };

    let resolved = concrete_only.resolve(step_id, &context).unwrap();
    assert_eq!(resolved.values_seq.len(), 0);
}

#[test]
fn nested_insert_expands_one_row_per_parent_row() {
    // A parent step returned two rows; the child insert's template column
    // expands into exactly two concrete value rows, one per parent row,
    // substituting the value at the referenced column index.
    let mut context = TransactionContext::new();
    let parent_step = context.push_step_rows(vec![
        vec![JsonValue::Int(10), JsonValue::Str("a".to_string())],
        vec![JsonValue::Int(20), JsonValue::Str("b".to_string())],
    ]);

    let child = TemplateInsert {
        table_id: 1,
        column_names: vec![column_id(1, 0), column_id(1, 1)],
        column_values_seq: vec![vec![
            ProxyColumn::Concrete(Column::Literal(JsonValue::Str("child".to_string()))),
            ProxyColumn::Template { col_index: 0, step_id: parent_step },
        ]],
        returning: vec![Column::Physical(column_id(1, 0))],
    };

    let resolved = child.resolve(parent_step, &context).unwrap();
    assert_eq!(resolved.table_id, 1);
    assert_eq!(resolved.columns, vec![column_id(1, 0), column_id(1, 1)]);
    assert_eq!(
        resolved.values_seq,
        vec![
            vec![
                Column::Literal(JsonValue::Str("child".to_string())),
                Column::Param(JsonValue::Int(10)),
            ],
            vec![
                Column::Literal(JsonValue::Str("child".to_string())),
                Column::Param(JsonValue::Int(20)),
            ],
        ]
    );
    assert_eq!(resolved.returning, vec![Column::Physical(column_id(1, 0))]);
}

#[test]
fn parent_with_single_row_expands_two_templated_rows() {
    // Two templated child rows against a one-row parent: each templated row
    // expands once, so the insert carries exactly two value rows whose
    // foreign-key column holds the parent's returned key.
    let mut context = TransactionContext::new();
    let parent_step = context.push_step_rows(vec![vec![JsonValue::Int(42)]]);

    let children = TemplateInsert {
        table_id: 2,
        column_names: vec![column_id(2, 0), column_id(2, 1)],
        column_values_seq: vec![
            vec![
                ProxyColumn::Concrete(Column::Literal(JsonValue::Str("first".to_string()))),
                ProxyColumn::Template { col_index: 0, step_id: parent_step },
            ],
            vec![
                ProxyColumn::Concrete(Column::Literal(JsonValue::Str("second".to_string()))),
                ProxyColumn::Template { col_index: 0, step_id: parent_step },
            ],
        ],
        returning: vec![],
    };

    let resolved = children.resolve(parent_step, &context).unwrap();
    assert_eq!(
        resolved.values_seq,
        vec![
            vec![
                Column::Literal(JsonValue::Str("first".to_string())),
                Column::Param(JsonValue::Int(42)),
            ],
            vec![
                Column::Literal(JsonValue::Str("second".to_string())),
                Column::Param(JsonValue::Int(42)),
            ],
        ]
    );
}

#[test]
fn resolve_value_reads_the_addressed_cell() {
    let mut context = TransactionContext::new();
    let step = context.push_step_rows(vec![
        vec![JsonValue::Int(1), JsonValue::Str("x".to_string())],
        vec![JsonValue::Int(2), JsonValue::Str("y".to_string())],
    ]);
    assert_eq!(context.row_count(step), 2);
    assert_eq!(context.resolve_value(step, 1, 1), JsonValue::Str("y".to_string()));
}
