//! Rendering of abstract SQL into parameterized text. Every literal value
//! becomes a positional `$n` placeholder plus an entry in an out-of-band
//! parameter list; nothing from request data is ever interpolated into the
//! SQL string itself.

use vstd::prelude::*;

use crate::json::{json_seq_view, JsonValue, JsonView};
use crate::predicate::{AbstractPredicate, ColumnPath, ColumnPathView, PredicateView};
use crate::schema::{ColumnId, ColumnPathLink, ModelSystem, ModelSystemView};
use crate::sql_ast::{
    selections_view, Selection, SelectionCardinality,
    columns_view, AbstractOrderBy,
    AbstractSelect, Column, ColumnExprView, Insert, InsertView, JsonAgg, Ordering, SelectView,
    SelectionView,
};
use crate::text::{push_char, spec_decimal, usize_to_decimal};

verus! {

/// Model of the SQL builder: the text so far and the parameters so far.
pub struct SqlBuilderView {
    pub sql: Seq<char>,
    pub params: Seq<JsonView>,
}

/// Appending plain text to the builder.
pub open spec fn sb_push_str(b: SqlBuilderView, s: Seq<char>) -> SqlBuilderView {
    SqlBuilderView { sql: b.sql + s, params: b.params }
}

/// Appending a value: the text gains the next positional placeholder and the
/// parameter list gains the value.
pub open spec fn sb_push_param(b: SqlBuilderView, v: JsonView) -> SqlBuilderView {
    SqlBuilderView {
        sql: b.sql + seq!['$'] + spec_decimal((b.params.len() + 1) as nat),
        params: b.params.push(v),
    }
}

/// Accumulates parameterized SQL text.
#[derive(Debug)]
pub struct SqlBuilder {
    sql: String,
    params: Vec<JsonValue>,
}

impl View for SqlBuilder {
    type V = SqlBuilderView;

    closed spec fn view(&self) -> SqlBuilderView {
        SqlBuilderView { sql: self.sql@, params: json_seq_view(self.params@) }
    }
}

impl SqlBuilder {
    /// An empty builder.
    pub fn new() -> (r: SqlBuilder)
        ensures
            r@.sql.len() == 0,
            r@.params.len() == 0,
    {
        SqlBuilder { sql: String::new(), params: Vec::new() }
    }

    /// Appends plain text.
    pub fn push_str(&mut self, s: &str)
        ensures
            final(self)@ == sb_push_str(old(self)@, s@),
    {
        self.sql.append(s);
    }

    /// Appends a value as the next positional placeholder.
    pub fn push_param(&mut self, v: JsonValue)
        ensures
            final(self)@ == sb_push_param(old(self)@, v@),
    {
        let ghost params0 = json_seq_view(self.params@);
        self.params.push(v);
        proof {
            assert(json_seq_view(self.params@) =~= params0.push(self.params@.last()@));
        }
        push_char(&mut self.sql, '$');
        let placeholder = usize_to_decimal(self.params.len());
        self.sql.append(placeholder.as_str());
        proof {
            assert(self@.sql =~= old(self)@.sql + seq!['$'] + spec_decimal(
                (old(self)@.params.len() + 1) as nat,
            ));
        }
    }

    /// Hands the finished text and the parameter list out.
    pub fn into_parts(self) -> (r: (String, Vec<JsonValue>))
        ensures
            r.0@ == self@.sql,
            json_seq_view(r.1@) == self@.params,
    {
        (self.sql, self.params)
    }
}

/// Whether a column expression only points at columns that exist in the
/// catalog.
pub open spec fn column_expr_wf(sys: ModelSystemView, col: ColumnExprView) -> bool
    decreases col,
{
    match col {
        ColumnExprView::Physical(id) => sys.valid_column(id),
        ColumnExprView::Function { function_name, column_id } => sys.valid_column(column_id),
        ColumnExprView::JsonObject(fields) => forall|i: int|
            0 <= i < fields.len() ==> column_expr_wf(sys, (#[trigger] fields[i]).1),
        _ => true,
    }
}

/// The rendering of a column reference: fully qualified as
/// `table.column`, or the bare column name where the grammar forbids
/// qualification.
pub open spec fn render_column_id_spec(
    b: SqlBuilderView,
    sys: ModelSystemView,
    id: ColumnId,
    qualify: bool,
) -> SqlBuilderView {
    if qualify {
        sb_push_str(
            sb_push_str(sb_push_str(b, sys.column_at(id).table_name), "."@),
            sys.column_at(id).column_name,
        )
    } else {
        sb_push_str(b, sys.column_at(id).column_name)
    }
}

/// The rendering of a column expression. Literals, parameters, constants and
/// JSON object keys all render as positional placeholders; a JSON
/// aggregation renders inside `COALESCE(json_agg(...), '[]'::json)` so that
/// an empty aggregate is `[]`, never SQL `NULL`.
pub open spec fn render_column_spec(
    b: SqlBuilderView,
    sys: ModelSystemView,
    col: ColumnExprView,
) -> SqlBuilderView
    decreases col, 1int,
{
    match col {
        ColumnExprView::Physical(id) => render_column_id_spec(b, sys, id, true),
        ColumnExprView::Literal(v) => sb_push_param(b, v),
        ColumnExprView::Param(v) => sb_push_param(b, v),
        ColumnExprView::Null => sb_push_str(b, "NULL"@),
        ColumnExprView::Constant(s) => sb_push_param(b, JsonView::Str(s)),
        ColumnExprView::Function { function_name, column_id } => sb_push_str(
            render_column_id_spec(
                sb_push_str(sb_push_str(b, function_name), "("@),
                sys,
                column_id,
                true,
            ),
            ")"@,
        ),
        ColumnExprView::JsonObject(fields) => sb_push_str(
            render_object_fields_spec(
                sb_push_str(b, "json_build_object("@),
                sys,
                fields,
                0,
            ),
            ")"@,
        ),
    }
}

/// The rendering of the members of a JSON object, from position `i` on:
/// each member is a key placeholder and its expression.
pub open spec fn render_object_fields_spec(
    b: SqlBuilderView,
    sys: ModelSystemView,
    fields: Seq<(Seq<char>, ColumnExprView)>,
    i: int,
) -> SqlBuilderView
    decreases fields, 0int, fields.len() - i,
{
    if i < 0 || i >= fields.len() {
        b
    } else {
        let b1 = if i > 0 {
            sb_push_str(b, ", "@)
        } else {
            b
        };
        let b2 = sb_push_param(b1, JsonView::Str(fields[i].0));
        let b3 = sb_push_str(b2, ", "@);
        let b4 = render_column_spec(b3, sys, fields[i].1);
        render_object_fields_spec(b4, sys, fields, i + 1)
    }
}

impl Column {
    /// Renders the expression into the builder.
    #[verifier::loop_isolation(false)]
    pub fn build(&self, system: &ModelSystem, builder: &mut SqlBuilder)
        requires
            column_expr_wf(system@, self@),
        ensures
            final(builder)@ == render_column_spec(old(builder)@, system@, self@),
        decreases self,
    {
        match self {
            Column::Physical(id) => {
                render_column_id(*id, true, system, builder);
            },
            Column::Literal(v) => {
                builder.push_param(v.duplicate());
            },
            Column::Param(v) => {
                builder.push_param(v.duplicate());
            },
            Column::Null => {
                builder.push_str("NULL");
            },
            Column::Constant(s) => {
                builder.push_param(JsonValue::Str(s.clone()));
            },
            Column::Function { function_name, column_id } => {
                builder.push_str(function_name.as_str());
                builder.push_str("(");
                render_column_id(*column_id, true, system, builder);
                builder.push_str(")");
            },
            Column::JsonObject(fields) => {
                builder.push_str("json_build_object(");
                let ghost fields_v = crate::sql_ast::column_fields_view(fields@);
                proof {
                    assert(self@->JsonObject_0 == fields_v);
                    assert(fields_v.len() == fields@.len());
                }
                let ghost b0 = builder@;
                let mut i: usize = 0;
                while i < fields.len()
                    invariant
                        i <= fields.len(),
                        render_object_fields_spec(b0, system@, fields_v, 0)
                            == render_object_fields_spec(builder@, system@, fields_v, i as int),
                    decreases fields.len() - i,
                {
                    proof {
                        assert(fields_v[i as int] == (fields@[i as int].0@, fields@[i as int].1@));
                        assert(column_expr_wf(system@, fields_v[i as int].1));
                    }
                    if i > 0 {
                        builder.push_str(", ");
                    }
                    builder.push_param(JsonValue::Str(fields[i].0.clone()));
                    builder.push_str(", ");
                    fields[i].1.build(system, builder);
                    i = i + 1;
                }
                builder.push_str(")");
            },
        }
    }
}

/// Renders a column reference, qualified or bare.
pub fn render_column_id(
    id: ColumnId,
    qualify: bool,
    system: &ModelSystem,
    builder: &mut SqlBuilder,
)
    requires
        system@.valid_column(id),
    ensures
        final(builder)@ == render_column_id_spec(old(builder)@, system@, id, qualify),
{
    let column = system.column_at(id);
    if qualify {
        builder.push_str(column.table_name.as_str());
        builder.push_str(".");
        builder.push_str(column.column_name.as_str());
    } else {
        builder.push_str(column.column_name.as_str());
    }
}

impl JsonAgg {
    /// Renders `COALESCE(json_agg(<expression>), '[]'::json)`: the
    /// `COALESCE` wrapper makes an aggregation over no rows an empty JSON
    /// array rather than SQL `NULL`.
    pub fn build(&self, system: &ModelSystem, builder: &mut SqlBuilder)
        requires
            column_expr_wf(system@, self@),
        ensures
            final(builder)@ == sb_push_str(
                render_column_spec(
                    sb_push_str(old(builder)@, "COALESCE(json_agg("@),
                    system@,
                    self@,
                ),
                "), '[]'::json)"@,
            ),
    {
        builder.push_str("COALESCE(json_agg(");
        self.0.build(system, builder);
        builder.push_str("), '[]'::json)");
    }
}

/// Whether a predicate leaf can be rendered: by rendering time a physical
/// path has been planned down to a single hop into a valid column.
pub open spec fn path_renderable(sys: ModelSystemView, p: ColumnPathView) -> bool {
    match p {
        ColumnPathView::Physical(links) => links.len() == 1 && sys.valid_column(
            links[0].self_column_id,
        ),
        ColumnPathView::Literal(_) => true,
        ColumnPathView::Null => true,
    }
}

/// The rendering of a predicate leaf.
pub open spec fn render_path_spec(
    b: SqlBuilderView,
    sys: ModelSystemView,
    p: ColumnPathView,
) -> SqlBuilderView {
    match p {
        ColumnPathView::Physical(links) => render_column_id_spec(
            b,
            sys,
            links[0].self_column_id,
            true,
        ),
        ColumnPathView::Literal(v) => sb_push_param(b, v),
        ColumnPathView::Null => sb_push_str(b, "NULL"@),
    }
}

/// Whether every leaf of a predicate can be rendered.
pub open spec fn pred_renderable(sys: ModelSystemView, p: PredicateView) -> bool
    decreases p,
{
    match p {
        PredicateView::True => true,
        PredicateView::False => true,
        PredicateView::Eq(l, r) => path_renderable(sys, l) && path_renderable(sys, r),
        PredicateView::Neq(l, r) => path_renderable(sys, l) && path_renderable(sys, r),
        PredicateView::Lt(l, r) => path_renderable(sys, l) && path_renderable(sys, r),
        PredicateView::Lte(l, r) => path_renderable(sys, l) && path_renderable(sys, r),
        PredicateView::Gt(l, r) => path_renderable(sys, l) && path_renderable(sys, r),
        PredicateView::Gte(l, r) => path_renderable(sys, l) && path_renderable(sys, r),
        PredicateView::In(l, r) => path_renderable(sys, l) && path_renderable(sys, r),
        PredicateView::And(l, r) => pred_renderable(sys, *l) && pred_renderable(sys, *r),
        PredicateView::Or(l, r) => pred_renderable(sys, *l) && pred_renderable(sys, *r),
        PredicateView::Not(q) => pred_renderable(sys, *q),
    }
}

/// One comparison: left leaf, operator text, right leaf.
pub open spec fn render_comparison_spec(
    b: SqlBuilderView,
    sys: ModelSystemView,
    l: ColumnPathView,
    op_text: Seq<char>,
    r: ColumnPathView,
) -> SqlBuilderView {
    render_path_spec(sb_push_str(render_path_spec(b, sys, l), op_text), sys, r)
}

/// The rendering of a predicate tree.
pub open spec fn render_predicate_spec(
    b: SqlBuilderView,
    sys: ModelSystemView,
    p: PredicateView,
) -> SqlBuilderView
    decreases p,
{
    match p {
        PredicateView::True => sb_push_str(b, "TRUE"@),
        PredicateView::False => sb_push_str(b, "FALSE"@),
        PredicateView::Eq(l, r) => render_comparison_spec(b, sys, l, " = "@, r),
        PredicateView::Neq(l, r) => render_comparison_spec(b, sys, l, " <> "@, r),
        PredicateView::Lt(l, r) => render_comparison_spec(b, sys, l, " < "@, r),
        PredicateView::Lte(l, r) => render_comparison_spec(b, sys, l, " <= "@, r),
        PredicateView::Gt(l, r) => render_comparison_spec(b, sys, l, " > "@, r),
        PredicateView::Gte(l, r) => render_comparison_spec(b, sys, l, " >= "@, r),
        PredicateView::In(l, r) => render_comparison_spec(b, sys, l, " IN "@, r),
        PredicateView::And(l, r) => sb_push_str(
            render_predicate_spec(
                sb_push_str(render_predicate_spec(sb_push_str(b, "("@), sys, *l), " AND "@),
                sys,
                *r,
            ),
            ")"@,
        ),
        PredicateView::Or(l, r) => sb_push_str(
            render_predicate_spec(
                sb_push_str(render_predicate_spec(sb_push_str(b, "("@), sys, *l), " OR "@),
                sys,
                *r,
            ),
            ")"@,
        ),
        PredicateView::Not(q) => sb_push_str(
            render_predicate_spec(sb_push_str(b, "NOT ("@), sys, *q),
            ")"@,
        ),
    }
}

/// Renders a predicate leaf.
fn render_path(p: &ColumnPath, system: &ModelSystem, builder: &mut SqlBuilder)
    requires
        path_renderable(system@, p@),
    ensures
        final(builder)@ == render_path_spec(old(builder)@, system@, p@),
{
    match p {
        ColumnPath::Physical(links) => {
            render_column_id(links[0].self_column_id, true, system, builder);
        },
        ColumnPath::Literal(v) => {
            builder.push_param(v.duplicate());
        },
        ColumnPath::Null => {
            builder.push_str("NULL");
        },
    }
}

/// Renders a predicate tree into the builder.
pub fn render_predicate(p: &AbstractPredicate, system: &ModelSystem, builder: &mut SqlBuilder)
    requires
        pred_renderable(system@, p@),
    ensures
        final(builder)@ == render_predicate_spec(old(builder)@, system@, p@),
    decreases p,
{
    match p {
        AbstractPredicate::True => {
            builder.push_str("TRUE");
        },
        AbstractPredicate::False => {
            builder.push_str("FALSE");
        },
        AbstractPredicate::Eq(l, r) => {
            render_path(l, system, builder);
            builder.push_str(" = ");
            render_path(r, system, builder);
        },
        AbstractPredicate::Neq(l, r) => {
            render_path(l, system, builder);
            builder.push_str(" <> ");
            render_path(r, system, builder);
        },
        AbstractPredicate::Lt(l, r) => {
            render_path(l, system, builder);
            builder.push_str(" < ");
            render_path(r, system, builder);
        },
        AbstractPredicate::Lte(l, r) => {
            render_path(l, system, builder);
            builder.push_str(" <= ");
            render_path(r, system, builder);
        },
        AbstractPredicate::Gt(l, r) => {
            render_path(l, system, builder);
            builder.push_str(" > ");
            render_path(r, system, builder);
        },
        AbstractPredicate::Gte(l, r) => {
            render_path(l, system, builder);
            builder.push_str(" >= ");
            render_path(r, system, builder);
        },
        AbstractPredicate::In(l, r) => {
            render_path(l, system, builder);
            builder.push_str(" IN ");
            render_path(r, system, builder);
        },
        AbstractPredicate::And(l, r) => {
            builder.push_str("(");
            render_predicate(&**l, system, builder);
            builder.push_str(" AND ");
            render_predicate(&**r, system, builder);
            builder.push_str(")");
        },
        AbstractPredicate::Or(l, r) => {
            builder.push_str("(");
            render_predicate(&**l, system, builder);
            builder.push_str(" OR ");
            render_predicate(&**r, system, builder);
            builder.push_str(")");
        },
        AbstractPredicate::Not(q) => {
            builder.push_str("NOT (");
            render_predicate(&**q, system, builder);
            builder.push_str(")");
        },
    }
}

/// Whether every ordering clause points at a renderable single-hop path.
pub open spec fn order_renderable(
    sys: ModelSystemView,
    ob: Seq<(Seq<ColumnPathLink>, Ordering)>,
) -> bool {
    forall|i: int|
        0 <= i < ob.len() ==> (#[trigger] ob[i]).0.len() == 1 && sys.valid_column(
            ob[i].0[0].self_column_id,
        )
}

/// The rendering of the ordering clauses from position `i` on.
pub open spec fn render_order_clauses_spec(
    b: SqlBuilderView,
    sys: ModelSystemView,
    ob: Seq<(Seq<ColumnPathLink>, Ordering)>,
    i: int,
) -> SqlBuilderView
    decreases ob.len() - i,
{
    if i < 0 || i >= ob.len() {
        b
    } else {
        let b1 = if i > 0 {
            sb_push_str(b, ", "@)
        } else {
            b
        };
        let b2 = render_column_id_spec(b1, sys, ob[i].0[0].self_column_id, true);
        let b3 = sb_push_str(
            b2,
            if ob[i].1 == Ordering::Asc {
                " ASC"@
            } else {
                " DESC"@
            },
        );
        render_order_clauses_spec(b3, sys, ob, i + 1)
    }
}

/// The rendering of an `ORDER BY` clause.
pub open spec fn render_order_by_spec(
    b: SqlBuilderView,
    sys: ModelSystemView,
    ob: Seq<(Seq<ColumnPathLink>, Ordering)>,
) -> SqlBuilderView {
    render_order_clauses_spec(sb_push_str(b, "ORDER BY "@), sys, ob, 0)
}

impl AbstractOrderBy {
    /// Renders the ordering clauses, in declared order.
    #[verifier::loop_isolation(false)]
    pub fn build(&self, system: &ModelSystem, builder: &mut SqlBuilder)
        requires
            order_renderable(system@, self@),
        ensures
            final(builder)@ == render_order_by_spec(old(builder)@, system@, self@),
    {
        builder.push_str("ORDER BY ");
        let ghost ob = self@;
        let ghost b0 = builder@;
        let mut i: usize = 0;
        while i < self.0.len()
            invariant
                i <= self.0.len(),
                render_order_clauses_spec(b0, system@, ob, 0) == render_order_clauses_spec(
                    builder@,
                    system@,
                    ob,
                    i as int,
                ),
            decreases self.0.len() - i,
        {
            proof {
                assert(ob[i as int] == (self.0@[i as int].0@, self.0@[i as int].1));
            }
            if i > 0 {
                builder.push_str(", ");
            }
            render_column_id(self.0[i].0.path[0].self_column_id, true, system, builder);
            match self.0[i].1 {
                Ordering::Asc => {
                    builder.push_str(" ASC");
                },
                Ordering::Desc => {
                    builder.push_str(" DESC");
                },
            }
            i = i + 1;
        }
    }
}

/// Whether an insert only references valid columns and tables.
pub open spec fn insert_wf(sys: ModelSystemView, ins: InsertView) -> bool {
    &&& 0 <= ins.table_id < sys.tables.len()
    &&& forall|i: int| 0 <= i < ins.columns.len() ==> sys.valid_column(#[trigger] ins.columns[i])
    &&& forall|i: int, j: int|
        0 <= i < ins.values_seq.len() && 0 <= j < ins.values_seq[i].len() ==> column_expr_wf(
            sys,
            #[trigger] ins.values_seq[i][j],
        )
    &&& forall|i: int|
        0 <= i < ins.returning.len() ==> column_expr_wf(sys, #[trigger] ins.returning[i])
}

/// The rendering of an insert's column-name list from position `i` on; the
/// grammar forbids qualification here, so names render bare.
pub open spec fn render_column_names_spec(
    b: SqlBuilderView,
    sys: ModelSystemView,
    cols: Seq<ColumnId>,
    i: int,
) -> SqlBuilderView
    decreases cols.len() - i,
{
    if i < 0 || i >= cols.len() {
        b
    } else {
        let b1 = if i > 0 {
            sb_push_str(b, ", "@)
        } else {
            b
        };
        render_column_names_spec(render_column_id_spec(b1, sys, cols[i], false), sys, cols, i + 1)
    }
}

/// The rendering of a comma-separated expression list from position `i` on.
pub open spec fn render_exprs_spec(
    b: SqlBuilderView,
    sys: ModelSystemView,
    exprs: Seq<ColumnExprView>,
    i: int,
) -> SqlBuilderView
    decreases exprs.len() - i,
{
    if i < 0 || i >= exprs.len() {
        b
    } else {
        let b1 = if i > 0 {
            sb_push_str(b, ", "@)
        } else {
            b
        };
        render_exprs_spec(render_column_spec(b1, sys, exprs[i]), sys, exprs, i + 1)
    }
}

/// The rendering of the parenthesized value rows from position `i` on.
pub open spec fn render_rows_spec(
    b: SqlBuilderView,
    sys: ModelSystemView,
    rows: Seq<Seq<ColumnExprView>>,
    i: int,
) -> SqlBuilderView
    decreases rows.len() - i,
{
    if i < 0 || i >= rows.len() {
        b
    } else {
        let b1 = if i > 0 {
            sb_push_str(b, ", "@)
        } else {
            b
        };
        let b2 = render_exprs_spec(sb_push_str(b1, "("@), sys, rows[i], 0);
        render_rows_spec(sb_push_str(b2, ")"@), sys, rows, i + 1)
    }
}

/// The rendering of a whole insert statement: `INSERT INTO <table>
/// (<columns>) VALUES (<row>), ... RETURNING <columns>`, with the
/// `RETURNING` clause omitted when nothing is returned.
pub open spec fn render_insert_spec(
    b: SqlBuilderView,
    sys: ModelSystemView,
    ins: InsertView,
) -> SqlBuilderView {
    let b1 = sb_push_str(b, "INSERT INTO "@);
    let b2 = sb_push_str(b1, sys.tables[ins.table_id].name);
    let b3 = sb_push_str(b2, " ("@);
    let b4 = render_column_names_spec(b3, sys, ins.columns, 0);
    let b5 = sb_push_str(b4, ") VALUES "@);
    let b6 = render_rows_spec(b5, sys, ins.values_seq, 0);
    if ins.returning.len() == 0 {
        b6
    } else {
        render_exprs_spec(sb_push_str(b6, " RETURNING "@), sys, ins.returning, 0)
    }
}

impl Insert {
    /// Renders the insert statement.
    #[verifier::loop_isolation(false)]
    pub fn build(&self, system: &ModelSystem, builder: &mut SqlBuilder)
        requires
            insert_wf(system@, self@),
        ensures
            final(builder)@ == render_insert_spec(old(builder)@, system@, self@),
    {
        builder.push_str("INSERT INTO ");
        builder.push_str(system.tables[self.table_id].name.as_str());
        builder.push_str(" (");
        let ghost cols = self@.columns;
        let ghost b_names = builder@;
        let mut i: usize = 0;
        while i < self.columns.len()
            invariant
                i <= self.columns.len(),
                render_column_names_spec(b_names, system@, cols, 0) == render_column_names_spec(
                    builder@,
                    system@,
                    cols,
                    i as int,
                ),
            decreases self.columns.len() - i,
        {
            if i > 0 {
                builder.push_str(", ");
            }
            render_column_id(self.columns[i], false, system, builder);
            i = i + 1;
        }
        builder.push_str(") VALUES ");
        let ghost rows = self@.values_seq;
        let ghost b_rows = builder@;
        let mut i: usize = 0;
        while i < self.values_seq.len()
            invariant
                i <= self.values_seq.len(),
                render_rows_spec(b_rows, system@, rows, 0) == render_rows_spec(
                    builder@,
                    system@,
                    rows,
                    i as int,
                ),
            decreases self.values_seq.len() - i,
        {
            proof {
                assert(rows[i as int] == columns_view(self.values_seq@[i as int]@));
            }
            if i > 0 {
                builder.push_str(", ");
            }
            builder.push_str("(");
            let row = &self.values_seq[i];
            let ghost row_v = rows[i as int];
            let ghost b_row = builder@;
            let mut j: usize = 0;
            while j < row.len()
                invariant
                    i < self.values_seq.len(),
                    j <= row@.len(),
                    row_v == columns_view(row@),
                    render_exprs_spec(b_row, system@, row_v, 0) == render_exprs_spec(
                        builder@,
                        system@,
                        row_v,
                        j as int,
                    ),
                decreases row@.len() - j,
            {
                proof {
                    assert(row_v[j as int] == row@[j as int]@);
                    assert(column_expr_wf(system@, self@.values_seq[i as int][j as int]));
                }
                if j > 0 {
                    builder.push_str(", ");
                }
                row[j].build(system, builder);
                j = j + 1;
            }
            builder.push_str(")");
            i = i + 1;
        }
        if self.returning.len() > 0 {
            builder.push_str(" RETURNING ");
            let ghost ret = self@.returning;
            let ghost b_ret = builder@;
            let mut i: usize = 0;
            while i < self.returning.len()
                invariant
                    i <= self.returning.len(),
                    render_exprs_spec(b_ret, system@, ret, 0) == render_exprs_spec(
                        builder@,
                        system@,
                        ret,
                        i as int,
                    ),
                decreases self.returning.len() - i,
            {
                proof {
                    assert(ret[i as int] == self.returning@[i as int]@);
                    assert(column_expr_wf(system@, ret[i as int]));
                }
                if i > 0 {
                    builder.push_str(", ");
                }
                self.returning[i].build(system, builder);
                i = i + 1;
            }
        }
    }
}

/// Whether every expression in an alias/expression list is well-formed.
pub open spec fn pairs_wf(sys: ModelSystemView, sels: Seq<(Seq<char>, ColumnExprView)>) -> bool
    decreases sels.len(),
{
    if sels.len() == 0 {
        true
    } else {
        column_expr_wf(sys, sels[0].1) && pairs_wf(sys, sels.drop_first())
    }
}

/// In a well-formed alias/expression list, every expression is well-formed.
pub proof fn lemma_pairs_wf_index(
    sys: ModelSystemView,
    sels: Seq<(Seq<char>, ColumnExprView)>,
    i: int,
)
    requires
        pairs_wf(sys, sels),
        0 <= i < sels.len(),
    ensures
        column_expr_wf(sys, sels[i].1),
    decreases i,
{
    if i > 0 {
        lemma_pairs_wf_index(sys, sels.drop_first(), i - 1);
        assert(sels.drop_first()[i - 1] == sels[i]);
    }
}

/// Whether every selected expression is well-formed.
pub open spec fn selection_wf(sys: ModelSystemView, s: SelectionView) -> bool {
    match s {
        SelectionView::Columns(sels) => pairs_wf(sys, sels),
        SelectionView::Json(sels, _) => pairs_wf(sys, sels),
    }
}

/// The rendering of a plain projection list from position `i` on.
pub open spec fn render_projection_spec(
    b: SqlBuilderView,
    sys: ModelSystemView,
    sels: Seq<(Seq<char>, ColumnExprView)>,
    i: int,
) -> SqlBuilderView
    decreases sels.len() - i,
{
    if i < 0 || i >= sels.len() {
        b
    } else {
        let b1 = if i > 0 {
            sb_push_str(b, ", "@)
        } else {
            b
        };
        render_projection_spec(render_column_spec(b1, sys, sels[i].1), sys, sels, i + 1)
    }
}

/// The rendering of a select payload. A JSON selection builds one object per
/// row; with `Many` cardinality the objects are aggregated into a JSON
/// array, and `COALESCE(..., '[]'::json)` makes zero matching rows render as
/// the empty array rather than SQL `NULL`.
pub open spec fn render_selection_spec(
    b: SqlBuilderView,
    sys: ModelSystemView,
    s: SelectionView,
) -> SqlBuilderView {
    match s {
        SelectionView::Columns(sels) => render_projection_spec(b, sys, sels, 0),
        SelectionView::Json(sels, card) => {
            if card == SelectionCardinality::One {
                sb_push_str(
                    render_object_fields_spec(
                        sb_push_str(b, "json_build_object("@),
                        sys,
                        sels,
                        0,
                    ),
                    ")"@,
                )
            } else {
                sb_push_str(
                    render_object_fields_spec(
                        sb_push_str(
                            sb_push_str(b, "COALESCE(json_agg("@),
                            "json_build_object("@,
                        ),
                        sys,
                        sels,
                        0,
                    ),
                    ")), '[]'::json)"@,
                )
            }
        },
    }
}

/// Whether a select only references what the catalog has, and its windowing
/// values fit the database's integer parameters.
pub open spec fn select_wf(sys: ModelSystemView, s: SelectView) -> bool {
    &&& 0 <= s.table_id < sys.tables.len()
    &&& selection_wf(sys, s.selection)
    &&& pred_renderable(sys, s.predicate)
    &&& (s.order_by matches Some(ob) ==> order_renderable(sys, ob))
    &&& (s.limit matches Some(l) ==> 0 <= l <= i64::MAX)
    &&& (s.offset matches Some(o) ==> 0 <= o <= i64::MAX)
}

/// The rendering of a whole select statement. A `True` predicate renders no
/// `WHERE` clause at all; limit and offset values render as parameters.
pub open spec fn render_select_spec(
    b: SqlBuilderView,
    sys: ModelSystemView,
    s: SelectView,
) -> SqlBuilderView {
    let b1 = sb_push_str(b, "SELECT "@);
    let b2 = render_selection_spec(b1, sys, s.selection);
    let b3 = sb_push_str(b2, " FROM "@);
    let b4 = sb_push_str(b3, sys.tables[s.table_id].name);
    let b5 = if s.predicate is True {
        b4
    } else {
        render_predicate_spec(sb_push_str(b4, " WHERE "@), sys, s.predicate)
    };
    let b6 = match s.order_by {
        None => b5,
        Some(ob) => render_order_by_spec(sb_push_str(b5, " "@), sys, ob),
    };
    let b7 = match s.limit {
        None => b6,
        Some(l) => sb_push_param(sb_push_str(b6, " LIMIT "@), JsonView::Int(l)),
    };
    match s.offset {
        None => b7,
        Some(o) => sb_push_param(sb_push_str(b7, " OFFSET "@), JsonView::Int(o)),
    }
}

impl AbstractSelect {
    /// Renders the select statement.
    #[verifier::loop_isolation(false)]
    pub fn build(&self, system: &ModelSystem, builder: &mut SqlBuilder)
        requires
            select_wf(system@, self@),
        ensures
            final(builder)@ == render_select_spec(old(builder)@, system@, self@),
    {
        builder.push_str("SELECT ");
        match &self.selection {
            Selection::Columns(sels) => {
                let ghost sels_v = selections_view(sels@);
                proof {
                    assert(self@.selection == SelectionView::Columns(sels_v));
                    assert(pairs_wf(system@, sels_v));
                }
                let ghost b0 = builder@;
                let mut i: usize = 0;
                while i < sels.len()
                    invariant
                        i <= sels.len(),
                        pairs_wf(system@, sels_v),
                        render_projection_spec(b0, system@, sels_v, 0) == render_projection_spec(
                            builder@,
                            system@,
                            sels_v,
                            i as int,
                        ),
                    decreases sels.len() - i,
                {
                    proof {
                        assert(sels_v[i as int] == sels@[i as int]@);
                        lemma_pairs_wf_index(system@, sels_v, i as int);
                    }
                    if i > 0 {
                        builder.push_str(", ");
                    }
                    sels[i].column.build(system, builder);
                    i = i + 1;
                }
            },
            Selection::Json(sels, card) => {
                let many = match card {
                    SelectionCardinality::Many => true,
                    SelectionCardinality::One => false,
                };
                if many {
                    builder.push_str("COALESCE(json_agg(");
                }
                builder.push_str("json_build_object(");
                let ghost sels_v = selections_view(sels@);
                proof {
                    assert(self@.selection == SelectionView::Json(sels_v, *card));
                    assert(pairs_wf(system@, sels_v));
                }
                let ghost b0 = builder@;
                let mut i: usize = 0;
                while i < sels.len()
                    invariant
                        i <= sels.len(),
                        pairs_wf(system@, sels_v),
                        render_object_fields_spec(b0, system@, sels_v, 0)
                            == render_object_fields_spec(builder@, system@, sels_v, i as int),
                    decreases sels.len() - i,
                {
                    proof {
                        assert(sels_v[i as int] == sels@[i as int]@);
                        lemma_pairs_wf_index(system@, sels_v, i as int);
                    }
                    if i > 0 {
                        builder.push_str(", ");
                    }
                    builder.push_param(JsonValue::Str(sels[i].alias.clone()));
                    builder.push_str(", ");
                    sels[i].column.build(system, builder);
                    i = i + 1;
                }
                if many {
                    builder.push_str(")), '[]'::json)");
                } else {
                    builder.push_str(")");
                }
            },
        }
        builder.push_str(" FROM ");
        builder.push_str(system.tables[self.table_id].name.as_str());
        match &self.predicate {
            AbstractPredicate::True => {},
            other => {
                builder.push_str(" WHERE ");
                render_predicate(other, system, builder);
            },
        }
        match &self.order_by {
            None => {},
            Some(ob) => {
                builder.push_str(" ");
                ob.build(system, builder);
            },
        }
        match self.limit {
            None => {},
            Some(l) => {
                builder.push_str(" LIMIT ");
                builder.push_param(JsonValue::Int(l as i64));
            },
        }
        match self.offset {
            None => {},
            Some(o) => {
                builder.push_str(" OFFSET ");
                builder.push_param(JsonValue::Int(o as i64));
            },
        }
    }
}

/// The empty-collection law at the SQL level: a `Many`-cardinality JSON
/// selection renders its object construction inside
/// `COALESCE(json_agg(...), '[]'::json)`, so zero matching rows produce the
/// empty JSON array, never SQL `NULL`.
pub proof fn lemma_many_selection_renders_empty_array_fallback(
    b: SqlBuilderView,
    sys: ModelSystemView,
    sels: Seq<(Seq<char>, ColumnExprView)>,
)
    ensures
        render_selection_spec(b, sys, SelectionView::Json(sels, SelectionCardinality::Many))
            == sb_push_str(
            render_object_fields_spec(
                sb_push_str(sb_push_str(b, "COALESCE(json_agg("@), "json_build_object("@),
                sys,
                sels,
                0,
            ),
            ")), '[]'::json)"@,
        ),
        render_selection_spec(
            b,
            sys,
            SelectionView::Json(sels, SelectionCardinality::Many),
        ).sql.len() >= ")), '[]'::json)"@.len(),
{
    let inner = render_object_fields_spec(
        sb_push_str(sb_push_str(b, "COALESCE(json_agg("@), "json_build_object("@),
        sys,
        sels,
        0,
    );
    assert(sb_push_str(inner, ")), '[]'::json)"@).sql.len() == inner.sql.len()
        + ")), '[]'::json)"@.len());
}

} // verus!
