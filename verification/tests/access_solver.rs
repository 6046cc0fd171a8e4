use sqlgraph::json::JsonValue;
use sqlgraph::predicate::{AbstractPredicate, ColumnPath};
use sqlgraph::schema::{ColumnId, ColumnIdPath, ColumnPathLink, ModelSystem, PhysicalColumn,
    PhysicalColumnType, PhysicalTable};
use sqlgraph::solver::{solve_access, AccessContextSelection, AccessLogicalExpression,
    AccessPredicateExpression, AccessPrimitiveExpression, AccessRelationalOp,
    AccessSolverError};

struct TestSystem {
    #[allow(dead_code)]
    system: ModelSystem,
    published_column_path: ColumnIdPath,
    owner_id_column_path: ColumnIdPath,
    dept1_id_column_path: ColumnIdPath,
    dept2_id_column_path: ColumnIdPath,
}

fn single_link_path(column_id: ColumnId) -> ColumnIdPath {
    ColumnIdPath {
        path: vec![ColumnPathLink { self_column_id: column_id, linked_column_id: None }],
    }
}

fn column_path_of(path: &ColumnIdPath) -> ColumnPath {
    ColumnPath::Physical(path.path.clone())
}

impl TestSystem {
    fn published_column(&self) -> ColumnPath {
        column_path_of(&self.published_column_path)
    }

    fn owner_id_column(&self) -> ColumnPath {
        column_path_of(&self.owner_id_column_path)
    }

    fn dept1_id_column(&self) -> ColumnPath {
        column_path_of(&self.dept1_id_column_path)
    }

    fn dept2_id_column(&self) -> ColumnPath {
        column_path_of(&self.dept2_id_column_path)
    }
}

fn test_system() -> TestSystem {
    fn mk_column(column_name: &str, typ: PhysicalColumnType) -> PhysicalColumn {
        PhysicalColumn {
            table_name: "article".to_string(),
            column_name: column_name.to_string(),
            typ,
            is_pk: false,
            is_nullable: false,
        }
    }

    let table = PhysicalTable {
        name: "article".to_string(),
        columns: vec![
            mk_column("published", PhysicalColumnType::Boolean),
            mk_column("owner_id", PhysicalColumnType::Int),
            mk_column("dept1_id", PhysicalColumnType::Int),
            mk_column("dept2_id", PhysicalColumnType::Int),
        ],
    };

    let mut system = ModelSystem::new();
    let table_id = system.insert_table(table);

    let table = &system.tables[table_id];
    let published = ColumnId { table_id, column_index: table.column_index("published").unwrap() };
    let owner_id = ColumnId { table_id, column_index: table.column_index("owner_id").unwrap() };
    let dept1_id = ColumnId { table_id, column_index: table.column_index("dept1_id").unwrap() };
    let dept2_id = ColumnId { table_id, column_index: table.column_index("dept2_id").unwrap() };

    TestSystem {
        published_column_path: single_link_path(published),
        owner_id_column_path: single_link_path(owner_id),
        dept1_id_column_path: single_link_path(dept1_id),
        dept2_id_column_path: single_link_path(dept2_id),
        system,
    }
}

fn context_selection(head: &str, tail: &[&str]) -> AccessContextSelection {
    match tail.split_last() {
        None => AccessContextSelection::Single(head.to_string()),
        Some((last, init)) => AccessContextSelection::Select(
            Box::new(context_selection(head, init)),
            last.to_string(),
        ),
    }
}

fn context_selection_expr(head: &str, tail: &[&str]) -> Box<AccessPrimitiveExpression> {
    Box::new(AccessPrimitiveExpression::ContextSelection(context_selection(head, tail)))
}

fn obj(fields: Vec<(&str, JsonValue)>) -> JsonValue {
    JsonValue::Obj(fields.into_iter().map(|(k, v)| (k.to_string(), v)).collect())
}

fn jstr(s: &str) -> JsonValue {
    JsonValue::Str(s.to_string())
}

fn str_literal(s: &str) -> ColumnPath {
    ColumnPath::Literal(jstr(s))
}

fn bool_literal(b: bool) -> ColumnPath {
    ColumnPath::Literal(JsonValue::Bool(b))
}

#[allow(clippy::too_many_arguments)]
fn test_relational_op(
    test_system: &TestSystem,
    op: fn(Box<AccessPrimitiveExpression>, Box<AccessPrimitiveExpression>) -> AccessRelationalOp,
    both_context_cases: Vec<(JsonValue, JsonValue, Result<AbstractPredicate, AccessSolverError>)>,
    context_missing_predicate: AbstractPredicate,
    context_value_predicate: fn(ColumnPath, ColumnPath) -> AbstractPredicate,
    column_column_predicate: fn(ColumnPath, ColumnPath) -> AbstractPredicate,
) {
    let TestSystem { owner_id_column_path, dept1_id_column_path, dept2_id_column_path, .. } =
        test_system;

    // Both values from the context: the comparison is decided in-process.
    {
        let test_ae = AccessPredicateExpression::RelationalOp(op(
            context_selection_expr("AccessContext", &["token1"]),
            context_selection_expr("AccessContext", &["token2"]),
        ));

        for (t1, t2, expected) in both_context_cases.into_iter() {
            let context = obj(vec![(
                "AccessContext",
                obj(vec![("token1", t1), ("token2", t2)]),
            )]);
            assert_eq!(solve_access(&test_ae, &context), expected);
        }
    }

    // One value from the context and the other from a column.
    {
        let test_context_column = |test_ae: AccessPredicateExpression| {
            let context = obj(vec![("AccessContext", obj(vec![("user_id", jstr("u1"))]))]);
            let solved_predicate = solve_access(&test_ae, &context).unwrap();
            assert_eq!(
                solved_predicate,
                context_value_predicate(test_system.owner_id_column(), str_literal("u1"))
            );

            let context = JsonValue::Null;
            let solved_predicate = solve_access(&test_ae, &context).unwrap();
            assert_eq!(solved_predicate, context_missing_predicate);
        };

        test_context_column(AccessPredicateExpression::RelationalOp(op(
            context_selection_expr("AccessContext", &["user_id"]),
            Box::new(AccessPrimitiveExpression::Column(owner_id_column_path.clone())),
        )));

        test_context_column(AccessPredicateExpression::RelationalOp(op(
            Box::new(AccessPrimitiveExpression::Column(owner_id_column_path.clone())),
            context_selection_expr("AccessContext", &["user_id"]),
        )));
    }

    // Both values from columns.
    {
        let test_ae = AccessPredicateExpression::RelationalOp(op(
            Box::new(AccessPrimitiveExpression::Column(dept1_id_column_path.clone())),
            Box::new(AccessPrimitiveExpression::Column(dept2_id_column_path.clone())),
        ));

        let context = JsonValue::Null;
        let solved_predicate = solve_access(&test_ae, &context).unwrap();
        assert_eq!(
            solved_predicate,
            column_column_predicate(
                test_system.dept1_id_column(),
                test_system.dept2_id_column(),
            )
        );
    }
}

#[test]
fn basic_eq() {
    test_relational_op(
        &test_system(),
        AccessRelationalOp::Eq,
        vec![
            (jstr("token_value"), jstr("token_value"), Ok(AbstractPredicate::True)),
            (jstr("token_value1"), jstr("token_value2"), Ok(AbstractPredicate::False)),
        ],
        AbstractPredicate::False,
        AbstractPredicate::Eq,
        AbstractPredicate::Eq,
    );
}

#[test]
fn basic_neq() {
    test_relational_op(
        &test_system(),
        AccessRelationalOp::Neq,
        vec![
            (jstr("token_value"), jstr("token_value"), Ok(AbstractPredicate::False)),
            (jstr("token_value1"), jstr("token_value2"), Ok(AbstractPredicate::True)),
        ],
        AbstractPredicate::True,
        AbstractPredicate::Neq,
        AbstractPredicate::Neq,
    );
}

#[test]
fn basic_lt() {
    test_relational_op(
        &test_system(),
        AccessRelationalOp::Lt,
        vec![
            (JsonValue::Int(5), JsonValue::Int(7), Ok(AbstractPredicate::True)),
            (JsonValue::Int(7), JsonValue::Int(5), Ok(AbstractPredicate::False)),
            (JsonValue::Int(5), JsonValue::Int(5), Ok(AbstractPredicate::False)),
            (
                jstr("token_value1"),
                jstr("token_value2"),
                Err(AccessSolverError::UnsupportedLiteral),
            ),
        ],
        AbstractPredicate::False,
        AbstractPredicate::Lt,
        AbstractPredicate::Lt,
    );
}

#[test]
fn basic_lte() {
    test_relational_op(
        &test_system(),
        AccessRelationalOp::Lte,
        vec![
            (JsonValue::Int(5), JsonValue::Int(7), Ok(AbstractPredicate::True)),
            (JsonValue::Int(7), JsonValue::Int(5), Ok(AbstractPredicate::False)),
            (JsonValue::Int(5), JsonValue::Int(5), Ok(AbstractPredicate::True)),
        ],
        AbstractPredicate::False,
        AbstractPredicate::Lte,
        AbstractPredicate::Lte,
    );
}

#[test]
fn basic_gt() {
    test_relational_op(
        &test_system(),
        AccessRelationalOp::Gt,
        vec![
            (JsonValue::Int(5), JsonValue::Int(7), Ok(AbstractPredicate::False)),
            (JsonValue::Int(7), JsonValue::Int(5), Ok(AbstractPredicate::True)),
            (JsonValue::Int(5), JsonValue::Int(5), Ok(AbstractPredicate::False)),
        ],
        AbstractPredicate::False,
        AbstractPredicate::Gt,
        AbstractPredicate::Gt,
    );
}

#[test]
fn basic_gte() {
    test_relational_op(
        &test_system(),
        AccessRelationalOp::Gte,
        vec![
            (JsonValue::Int(5), JsonValue::Int(7), Ok(AbstractPredicate::False)),
            (JsonValue::Int(7), JsonValue::Int(5), Ok(AbstractPredicate::True)),
            (JsonValue::Int(5), JsonValue::Int(5), Ok(AbstractPredicate::True)),
        ],
        AbstractPredicate::False,
        AbstractPredicate::Gte,
        AbstractPredicate::Gte,
    );
}

#[allow(clippy::too_many_arguments)]
fn test_logical_op(
    test_system: &TestSystem,
    op: fn(
        Box<AccessPredicateExpression>,
        Box<AccessPredicateExpression>,
    ) -> AccessLogicalExpression,
    both_value_true: AbstractPredicate,
    both_value_false: AbstractPredicate,
    one_value_true: AbstractPredicate,
    one_literal_true_other_column: fn(AbstractPredicate) -> AbstractPredicate,
    one_literal_false_other_column: fn(AbstractPredicate) -> AbstractPredicate,
    both_columns: fn(Box<AbstractPredicate>, Box<AbstractPredicate>) -> AbstractPredicate,
) {
    let TestSystem { dept1_id_column_path, dept2_id_column_path, .. } = &test_system;

    {
        // Two literals.
        let context = JsonValue::Null;

        let scenarios = [
            (true, true, &both_value_true),
            (true, false, &one_value_true),
            (false, true, &one_value_true),
            (false, false, &both_value_false),
        ];

        for (l1, l2, expected) in scenarios.iter() {
            let test_ae = AccessPredicateExpression::LogicalOp(op(
                Box::new(AccessPredicateExpression::BooleanLiteral(*l1)),
                Box::new(AccessPredicateExpression::BooleanLiteral(*l2)),
            ));

            let solved_predicate = solve_access(&test_ae, &context).unwrap();
            assert_eq!(&&solved_predicate, expected);
        }
    }
    {
        // Two context values.
        let context = obj(vec![(
            "AccessContext",
            obj(vec![
                ("v1", JsonValue::Bool(true)),
                ("v1_clone", JsonValue::Bool(true)),
                ("v2", JsonValue::Bool(false)),
                ("v2_clone", JsonValue::Bool(false)),
            ]),
        )]);

        let scenarios = [
            ("v1", "v1_clone", &both_value_true),
            ("v1", "v2", &one_value_true),
            ("v2", "v1", &one_value_true),
            ("v2", "v2_clone", &both_value_false),
        ];

        for (c1, c2, expected) in scenarios.iter() {
            let test_ae = AccessPredicateExpression::LogicalOp(op(
                Box::new(AccessPredicateExpression::BooleanContextSelection(
                    AccessContextSelection::Select(
                        Box::new(AccessContextSelection::Single("AccessContext".to_string())),
                        c1.to_string(),
                    ),
                )),
                Box::new(AccessPredicateExpression::BooleanContextSelection(
                    AccessContextSelection::Select(
                        Box::new(AccessContextSelection::Single("AccessContext".to_string())),
                        c2.to_string(),
                    ),
                )),
            ));

            let solved_predicate = solve_access(&test_ae, &context).unwrap();
            assert_eq!(&&solved_predicate, expected);
        }
    }
    {
        // One literal and the other a column.
        let scenarios = [
            (true, &one_literal_true_other_column),
            (false, &one_literal_false_other_column),
        ];
        let context = JsonValue::Null;

        for (l, predicate_fn) in scenarios.iter() {
            let test_ae = AccessPredicateExpression::LogicalOp(op(
                Box::new(AccessPredicateExpression::BooleanLiteral(*l)),
                Box::new(AccessPredicateExpression::BooleanColumn(dept1_id_column_path.clone())),
            ));

            let solved_predicate = solve_access(&test_ae, &context).unwrap();
            assert_eq!(
                solved_predicate,
                predicate_fn(AbstractPredicate::Eq(
                    test_system.dept1_id_column(),
                    bool_literal(true)
                ))
            );

            // The swapped version.
            let test_ae = AccessPredicateExpression::LogicalOp(op(
                Box::new(AccessPredicateExpression::BooleanColumn(dept1_id_column_path.clone())),
                Box::new(AccessPredicateExpression::BooleanLiteral(*l)),
            ));

            let solved_predicate = solve_access(&test_ae, &context).unwrap();
            assert_eq!(
                solved_predicate,
                predicate_fn(AbstractPredicate::Eq(
                    test_system.dept1_id_column(),
                    bool_literal(true)
                ))
            );
        }
    }

    {
        // Two columns.
        let test_ae = AccessPredicateExpression::LogicalOp(op(
            Box::new(AccessPredicateExpression::BooleanColumn(dept1_id_column_path.clone())),
            Box::new(AccessPredicateExpression::BooleanColumn(dept2_id_column_path.clone())),
        ));

        let context = JsonValue::Null;
        let solved_predicate = solve_access(&test_ae, &context).unwrap();
        assert_eq!(
            solved_predicate,
            both_columns(
                Box::new(AbstractPredicate::Eq(
                    test_system.dept1_id_column(),
                    bool_literal(true)
                )),
                Box::new(AbstractPredicate::Eq(
                    test_system.dept2_id_column(),
                    bool_literal(true)
                ))
            )
        );
    }
}

#[test]
fn basic_and() {
    test_logical_op(
        &test_system(),
        AccessLogicalExpression::And,
        AbstractPredicate::True,
        AbstractPredicate::False,
        AbstractPredicate::False,
        |p| p,
        |_| AbstractPredicate::False,
        AbstractPredicate::And,
    );
}

#[test]
fn basic_or() {
    test_logical_op(
        &test_system(),
        AccessLogicalExpression::Or,
        AbstractPredicate::True,
        AbstractPredicate::False,
        AbstractPredicate::True,
        |_| AbstractPredicate::True,
        |p| p,
        AbstractPredicate::Or,
    );
}

#[test]
fn basic_not() {
    let test_system = test_system();
    let TestSystem { dept1_id_column_path: dept1_id_column_id, .. } = &test_system;

    {
        // A literal.
        let context = JsonValue::Null;

        let scenarios = [(true, AbstractPredicate::False), (false, AbstractPredicate::True)];

        for (l1, expected) in scenarios.iter() {
            let test_ae = AccessPredicateExpression::LogicalOp(AccessLogicalExpression::Not(
                Box::new(AccessPredicateExpression::BooleanLiteral(*l1)),
            ));

            let solved_predicate = solve_access(&test_ae, &context).unwrap();
            assert_eq!(&solved_predicate, expected);
        }
    }
    {
        // A context value.
        let context = obj(vec![(
            "AccessContext",
            obj(vec![("v1", JsonValue::Bool(true)), ("v2", JsonValue::Bool(false))]),
        )]);

        let scenarios = [("v1", AbstractPredicate::False), ("v2", AbstractPredicate::True)];

        for (c1, expected) in scenarios.iter() {
            let test_ae = AccessPredicateExpression::LogicalOp(AccessLogicalExpression::Not(
                Box::new(AccessPredicateExpression::BooleanContextSelection(
                    AccessContextSelection::Select(
                        Box::new(AccessContextSelection::Single("AccessContext".to_string())),
                        c1.to_string(),
                    ),
                )),
            ));

            let solved_predicate = solve_access(&test_ae, &context).unwrap();
            assert_eq!(&solved_predicate, expected);
        }
    }

    {
        // A boolean column.
        let test_ae = AccessPredicateExpression::LogicalOp(AccessLogicalExpression::Not(
            Box::new(AccessPredicateExpression::BooleanColumn(dept1_id_column_id.clone())),
        ));

        let context = JsonValue::Null;
        let solved_predicate = solve_access(&test_ae, &context).unwrap();
        assert_eq!(
            solved_predicate,
            AbstractPredicate::Not(Box::new(AbstractPredicate::Eq(
                test_system.dept1_id_column(),
                bool_literal(true)
            )))
        );
    }
}

#[test]
fn context_only() {
    // Scenario: AuthContext.role == "ROLE_ADMIN"

    let test_ae = AccessPredicateExpression::RelationalOp(AccessRelationalOp::Eq(
        context_selection_expr("AccessContext", &["role"]),
        Box::new(AccessPrimitiveExpression::StringLiteral("ROLE_ADMIN".to_owned())),
    ));

    let context = obj(vec![("AccessContext", obj(vec![("role", jstr("ROLE_ADMIN"))]))]);
    let solved_predicate = solve_access(&test_ae, &context).unwrap();
    assert_eq!(solved_predicate, AbstractPredicate::True);

    let context = obj(vec![("AccessContext", obj(vec![("role", jstr("ROLE_USER"))]))]);
    let solved_predicate = solve_access(&test_ae, &context).unwrap();
    assert_eq!(solved_predicate, AbstractPredicate::False);
}

#[test]
fn context_and_dynamic() {
    // Scenario: AuthContext.role == "ROLE_ADMIN" || self.published

    let test_system = test_system();
    let TestSystem { published_column_path, .. } = &test_system;

    let test_ae = {
        let admin_access = AccessPredicateExpression::RelationalOp(AccessRelationalOp::Eq(
            context_selection_expr("AccessContext", &["role"]),
            Box::new(AccessPrimitiveExpression::StringLiteral("ROLE_ADMIN".to_owned())),
        ));
        let user_access = AccessPredicateExpression::RelationalOp(AccessRelationalOp::Eq(
            Box::new(AccessPrimitiveExpression::Column(published_column_path.clone())),
            Box::new(AccessPrimitiveExpression::BooleanLiteral(true)),
        ));

        AccessPredicateExpression::LogicalOp(AccessLogicalExpression::Or(
            Box::new(admin_access),
            Box::new(user_access),
        ))
    };

    let context = obj(vec![("AccessContext", obj(vec![("role", jstr("ROLE_ADMIN"))]))]);
    let solved_predicate = solve_access(&test_ae, &context).unwrap();
    assert_eq!(solved_predicate, AbstractPredicate::True);

    let context = obj(vec![("AccessContext", obj(vec![("role", jstr("ROLE_USER"))]))]);
    let solved_predicate = solve_access(&test_ae, &context).unwrap();
    assert_eq!(
        solved_predicate,
        AbstractPredicate::Eq(test_system.published_column(), bool_literal(true))
    );
}

#[test]
fn context_compared_with_dynamic() {
    // Scenario: AuthContext.user_id == self.owner_id

    let test_system = test_system();
    let TestSystem { owner_id_column_path, .. } = &test_system;

    let test_ae = AccessPredicateExpression::RelationalOp(AccessRelationalOp::Eq(
        context_selection_expr("AccessContext", &["user_id"]),
        Box::new(AccessPrimitiveExpression::Column(owner_id_column_path.clone())),
    ));

    let context = obj(vec![("AccessContext", obj(vec![("user_id", jstr("1"))]))]);
    let solved_predicate = solve_access(&test_ae, &context).unwrap();
    assert_eq!(
        solved_predicate,
        AbstractPredicate::Eq(test_system.owner_id_column(), str_literal("1"))
    );

    let context = obj(vec![("AccessContext", obj(vec![("user_id", jstr("2"))]))]);
    let solved_predicate = solve_access(&test_ae, &context).unwrap();
    assert_eq!(
        solved_predicate,
        AbstractPredicate::Eq(test_system.owner_id_column(), str_literal("2"))
    );
}

#[test]
fn varied_rule_for_roles() {
    // Scenario: AuthContext.role == "ROLE_ADMIN" || (AuthContext.role == "ROLE_USER" && self.published == true)

    let test_system = test_system();
    let TestSystem { published_column_path, .. } = &test_system;

    let admin_access = AccessPredicateExpression::RelationalOp(AccessRelationalOp::Eq(
        context_selection_expr("AccessContext", &["role"]),
        Box::new(AccessPrimitiveExpression::StringLiteral("ROLE_ADMIN".to_owned())),
    ));

    let user_access = {
        let role_rule = AccessPredicateExpression::RelationalOp(AccessRelationalOp::Eq(
            context_selection_expr("AccessContext", &["role"]),
            Box::new(AccessPrimitiveExpression::StringLiteral("ROLE_USER".to_owned())),
        ));

        let data_rule = AccessPredicateExpression::RelationalOp(AccessRelationalOp::Eq(
            Box::new(AccessPrimitiveExpression::Column(published_column_path.clone())),
            Box::new(AccessPrimitiveExpression::BooleanLiteral(true)),
        ));

        AccessPredicateExpression::LogicalOp(AccessLogicalExpression::And(
            Box::new(role_rule),
            Box::new(data_rule),
        ))
    };

    let test_ae = AccessPredicateExpression::LogicalOp(AccessLogicalExpression::Or(
        Box::new(admin_access),
        Box::new(user_access),
    ));

    // For admins, allow access without any further restrictions.
    let context = obj(vec![("AccessContext", obj(vec![("role", jstr("ROLE_ADMIN"))]))]);
    let solved_predicate = solve_access(&test_ae, &context).unwrap();
    assert_eq!(solved_predicate, AbstractPredicate::True);

    // For users, allow only if the article is published.
    let context = obj(vec![("AccessContext", obj(vec![("role", jstr("ROLE_USER"))]))]);
    let solved_predicate = solve_access(&test_ae, &context).unwrap();
    assert_eq!(
        solved_predicate,
        AbstractPredicate::Eq(test_system.published_column(), bool_literal(true))
    );

    // For other roles, do not allow.
    let context = obj(vec![("AccessContext", obj(vec![("role", jstr("ROLE_GUEST"))]))]);
    let solved_predicate = solve_access(&test_ae, &context).unwrap();
    assert_eq!(solved_predicate, AbstractPredicate::False);

    // For anonymous users, too, do not allow (irrelevant context content).
    let context = obj(vec![("Foo", jstr("bar"))]);
    let solved_predicate = solve_access(&test_ae, &context).unwrap();
    assert_eq!(solved_predicate, AbstractPredicate::False);

    // For anonymous users, too, do not allow (no context content).
    let solved_predicate = solve_access(&test_ae, &JsonValue::Null).unwrap();
    assert_eq!(solved_predicate, AbstractPredicate::False);
}

#[test]
fn top_level_boolean_literal() {
    // Scenario: true or false
    let test_ae = AccessPredicateExpression::BooleanLiteral(true);
    let context = JsonValue::Null;
    let solved_predicate = solve_access(&test_ae, &context).unwrap();
    assert_eq!(solved_predicate, AbstractPredicate::True);

    let test_ae = AccessPredicateExpression::BooleanLiteral(false);
    let context = JsonValue::Null;
    let solved_predicate = solve_access(&test_ae, &context).unwrap();
    assert_eq!(solved_predicate, AbstractPredicate::False);
}

#[test]
fn top_level_boolean_column() {
    // Scenario: self.published

    let test_system = test_system();
    let TestSystem { published_column_path: published_column_id, .. } = &test_system;

    let test_ae = AccessPredicateExpression::BooleanColumn(published_column_id.clone());

    let context = JsonValue::Null;
    let solved_predicate = solve_access(&test_ae, &context).unwrap();
    assert_eq!(
        solved_predicate,
        AbstractPredicate::Eq(test_system.published_column(), bool_literal(true))
    );
}

#[test]
fn top_level_boolean_context() {
    // Scenario: AuthContext.is_admin

    let test_ae = AccessPredicateExpression::BooleanContextSelection(context_selection(
        "AccessContext",
        &["is_admin"],
    ));

    let context = obj(vec![("AccessContext", obj(vec![("is_admin", JsonValue::Bool(true))]))]);
    let solved_predicate = solve_access(&test_ae, &context).unwrap();
    assert_eq!(solved_predicate, AbstractPredicate::True);

    let context = obj(vec![("AccessContext", obj(vec![("is_admin", JsonValue::Bool(false))]))]);
    let solved_predicate = solve_access(&test_ae, &context).unwrap();
    assert_eq!(solved_predicate, AbstractPredicate::False);

    let context = JsonValue::Null;
    let solved_predicate = solve_access(&test_ae, &context).unwrap();
    assert_eq!(solved_predicate, AbstractPredicate::False);
}
