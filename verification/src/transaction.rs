//! Multi-step transaction resolution. A templated operation holds proxy
//! columns whose values are only known after an earlier step's `RETURNING`
//! rows arrive; the transaction context accumulates those rows, and
//! resolution expands each templated row once per available row, or skips
//! the operation entirely when it cannot be populated.

use vstd::prelude::*;

use crate::json::{json_seq_view, JsonValue, JsonView};
use crate::schema::ColumnId;
use crate::sql_ast::{columns_view, rows_view, Column, ColumnExprView, Insert, InsertView};

verus! {

/// Identifies an already-declared transaction step. Step ids are assigned
/// monotonically at build time, so a dependency always points backward.
pub type TransactionStepId = usize;

/// The element-wise view of one returned row.
pub open spec fn returned_row_view(row: Seq<JsonValue>) -> Seq<JsonView> {
    json_seq_view(row)
}

/// The element-wise view of one step's returned rows.
pub open spec fn returned_rows_view(rows: Seq<Vec<JsonValue>>) -> Seq<Seq<JsonView>> {
    Seq::new(rows.len(), |i: int| if 0 <= i < rows.len() {
        returned_row_view(rows[i]@)
    } else {
        Seq::empty()
    })
}

/// The element-wise view of the rows of every completed step.
pub open spec fn steps_view(steps: Seq<Vec<Vec<JsonValue>>>) -> Seq<Seq<Seq<JsonView>>> {
    Seq::new(steps.len(), |i: int| if 0 <= i < steps.len() {
        returned_rows_view(steps[i]@)
    } else {
        Seq::empty()
    })
}

/// Accumulates, per completed step, the rows its `RETURNING` clause
/// produced. The context exclusively owns the row buffers; steps refer to
/// them only by step id.
#[derive(Debug, PartialEq)]
pub struct TransactionContext {
    step_results: Vec<Vec<Vec<JsonValue>>>,
}

impl View for TransactionContext {
    type V = Seq<Seq<Seq<JsonView>>>;

    closed spec fn view(&self) -> Seq<Seq<Seq<JsonView>>> {
        steps_view(self.step_results@)
    }
}

impl TransactionContext {
    /// A context with no completed steps.
    pub fn new() -> (r: TransactionContext)
        ensures
            r@.len() == 0,
    {
        TransactionContext { step_results: Vec::new() }
    }

    /// Records the rows a completed step returned; the step receives the
    /// next id in sequence.
    pub fn push_step_rows(&mut self, rows: Vec<Vec<JsonValue>>) -> (id: TransactionStepId)
        ensures
            final(self)@ == old(self)@.push(returned_rows_view(rows@)),
            id == old(self)@.len(),
    {
        let id = self.step_results.len();
        let ghost rows_v = returned_rows_view(rows@);
        self.step_results.push(rows);
        proof {
            assert(final(self)@ =~= old(self)@.push(rows_v));
        }
        id
    }

    /// How many rows the given step returned.
    pub fn row_count(&self, step_id: TransactionStepId) -> (r: usize)
        requires
            step_id < self@.len(),
        ensures
            r == self@[step_id as int].len(),
    {
        self.step_results[step_id].len()
    }

    /// The value at the given column of the given returned row.
    pub fn resolve_value(
        &self,
        step_id: TransactionStepId,
        row_index: usize,
        col_index: usize,
    ) -> (r: JsonValue)
        requires
            step_id < self@.len(),
            row_index < self@[step_id as int].len(),
            col_index < self@[step_id as int][row_index as int].len(),
        ensures
            r@ == self@[step_id as int][row_index as int][col_index as int],
    {
        self.step_results[step_id][row_index][col_index].duplicate()
    }
}

/// Model of a proxy column.
pub enum ProxyColumnView {
    Concrete(ColumnExprView),
    Template { col_index: int, step_id: int },
}

/// Either a concrete value expression, or a reference to be substituted at
/// execution time with the value at `col_index` of a row returned by the
/// step `step_id`.
#[derive(Debug, PartialEq)]
pub enum ProxyColumn {
    Concrete(Column),
    Template { col_index: usize, step_id: TransactionStepId },
}

impl View for ProxyColumn {
    type V = ProxyColumnView;

    open spec fn view(&self) -> ProxyColumnView {
        match self {
            ProxyColumn::Concrete(col) => ProxyColumnView::Concrete(col@),
            ProxyColumn::Template { col_index, step_id } => ProxyColumnView::Template {
                col_index: *col_index as int,
                step_id: *step_id as int,
            },
        }
    }
}

/// The element-wise view of one templated row.
pub open spec fn proxy_row_view(row: Seq<ProxyColumn>) -> Seq<ProxyColumnView> {
    Seq::new(row.len(), |i: int| if 0 <= i < row.len() {
        row[i]@
    } else {
        ProxyColumnView::Concrete(ColumnExprView::Null)
    })
}

/// The element-wise view of the templated rows.
pub open spec fn proxy_rows_view(rows: Seq<Vec<ProxyColumn>>) -> Seq<Seq<ProxyColumnView>> {
    Seq::new(rows.len(), |i: int| if 0 <= i < rows.len() {
        proxy_row_view(rows[i]@)
    } else {
        Seq::empty()
    })
}

/// Whether any templated row holds a template column.
pub open spec fn has_template_spec(rows: Seq<Seq<ProxyColumnView>>) -> bool {
    exists|i: int, j: int|
        0 <= i < rows.len() && 0 <= j < rows[i].len() && (#[trigger] rows[i][j]) is Template
}

/// One proxy column after substitution against the context, for the given
/// row index.
pub open spec fn resolve_proxy(
    c: ProxyColumnView,
    row_index: int,
    ctx: Seq<Seq<Seq<JsonView>>>,
) -> ColumnExprView {
    match c {
        ProxyColumnView::Concrete(col) => col,
        ProxyColumnView::Template { col_index, step_id } => ColumnExprView::Param(
            ctx[step_id][row_index][col_index],
        ),
    }
}

/// One expansion of the templated rows at the given row index.
pub open spec fn expand_row_spec(
    rows: Seq<Seq<ProxyColumnView>>,
    row_index: int,
    ctx: Seq<Seq<Seq<JsonView>>>,
) -> Seq<Seq<ColumnExprView>> {
    Seq::new(
        rows.len(),
        |i: int|
            if 0 <= i < rows.len() {
                Seq::new(
                    rows[i].len(),
                    |j: int|
                        if 0 <= j < rows[i].len() {
                            resolve_proxy(rows[i][j], row_index, ctx)
                        } else {
                            ColumnExprView::Null
                        },
                )
            } else {
                Seq::empty()
            },
    )
}

/// The concatenation of the expansions for every row index below `count`.
pub open spec fn expanded_rows_spec(
    rows: Seq<Seq<ProxyColumnView>>,
    ctx: Seq<Seq<Seq<JsonView>>>,
    count: nat,
) -> Seq<Seq<ColumnExprView>>
    decreases count,
{
    if count == 0 {
        Seq::empty()
    } else {
        expanded_rows_spec(rows, ctx, (count - 1) as nat) + expand_row_spec(
            rows,
            count - 1,
            ctx,
        )
    }
}

/// Whether every template reference can be substituted for the given row
/// index: the referenced step exists and the row and column indexes point
/// into its returned rows.
pub open spec fn row_resolvable(
    rows: Seq<Seq<ProxyColumnView>>,
    ctx: Seq<Seq<Seq<JsonView>>>,
    row_index: int,
) -> bool {
    forall|i: int, j: int|
        0 <= i < rows.len() && 0 <= j < rows[i].len() && (#[trigger] rows[i][j]) is Template
            ==> {
            let step_id = rows[i][j]->Template_step_id;
            let col_index = rows[i][j]->Template_col_index;
            &&& 0 <= step_id < ctx.len()
            &&& 0 <= row_index < ctx[step_id].len()
            &&& 0 <= col_index < ctx[step_id][row_index].len()
        }
}

/// Whether every template reference can be substituted for every row index
/// below `count`.
pub open spec fn templates_resolvable(
    rows: Seq<Seq<ProxyColumnView>>,
    ctx: Seq<Seq<Seq<JsonView>>>,
    count: nat,
) -> bool {
    forall|r: int| 0 <= r < count ==> #[trigger] row_resolvable(rows, ctx, r)
}

/// Model of a templated insert.
pub struct TemplateInsertView {
    pub table_id: int,
    pub column_names: Seq<ColumnId>,
    pub column_values_seq: Seq<Seq<ProxyColumnView>>,
    pub returning: Seq<ColumnExprView>,
}

/// An insert whose value rows may hold template columns, resolved against a
/// prior step's returned rows.
#[derive(Debug, PartialEq)]
pub struct TemplateInsert {
    pub table_id: usize,
    pub column_names: Vec<ColumnId>,
    pub column_values_seq: Vec<Vec<ProxyColumn>>,
    pub returning: Vec<Column>,
}

impl View for TemplateInsert {
    type V = TemplateInsertView;

    open spec fn view(&self) -> TemplateInsertView {
        TemplateInsertView {
            table_id: self.table_id as int,
            column_names: self.column_names@,
            column_values_seq: proxy_rows_view(self.column_values_seq@),
            returning: columns_view(self.returning@),
        }
    }
}

/// What resolving a templated insert yields: nothing when it has template
/// columns but no rows to draw on, else a concrete insert whose value rows
/// are the expansions for every available row index.
pub open spec fn resolve_spec(
    t: TemplateInsertView,
    prev_step_id: int,
    ctx: Seq<Seq<Seq<JsonView>>>,
) -> Option<InsertView> {
    let count = ctx[prev_step_id].len();
    if has_template_spec(t.column_values_seq) && count == 0 {
        None
    } else {
        Some(
            InsertView {
                table_id: t.table_id,
                columns: t.column_names,
                values_seq: expanded_rows_spec(t.column_values_seq, ctx, count),
                returning: t.returning,
            },
        )
    }
}

impl TemplateInsert {
    /// Whether any value row holds a template column.
    #[verifier::loop_isolation(false)]
    pub fn has_template_columns(&self) -> (r: bool)
        ensures
            r == has_template_spec(self@.column_values_seq),
    {
        let ghost rows = self@.column_values_seq;
        let mut i: usize = 0;
        while i < self.column_values_seq.len()
            invariant
                i <= self.column_values_seq.len(),
                forall|a: int, b: int|
                    0 <= a < i && 0 <= b < rows[a].len() ==> !((#[trigger] rows[a][b])
                        is Template),
            decreases self.column_values_seq.len() - i,
        {
            let row = &self.column_values_seq[i];
            let mut j: usize = 0;
            while j < row.len()
                invariant
                    i < self.column_values_seq.len(),
                    j <= row@.len(),
                    forall|b: int| 0 <= b < j ==> !((#[trigger] rows[i as int][b]) is Template),
                decreases row@.len() - j,
            {
                match &row[j] {
                    ProxyColumn::Template { .. } => {
                        proof {
                            assert(rows[i as int][j as int] is Template);
                        }
                        return true;
                    },
                    ProxyColumn::Concrete(_) => {},
                }
                j = j + 1;
            }
            i = i + 1;
        }
        false
    }

    /// Expands the templated rows once, for the given row index.
    #[verifier::loop_isolation(false)]
    fn expand_row(
        column_values_seq: &Vec<Vec<ProxyColumn>>,
        row_index: usize,
        transaction_context: &TransactionContext,
    ) -> (r: Vec<Vec<Column>>)
        requires
            row_resolvable(
                proxy_rows_view(column_values_seq@),
                transaction_context@,
                row_index as int,
            ),
        ensures
            rows_view(r@) == expand_row_spec(
                proxy_rows_view(column_values_seq@),
                row_index as int,
                transaction_context@,
            ),
    {
        let ghost rows = proxy_rows_view(column_values_seq@);
        let ghost ctx = transaction_context@;
        let mut out: Vec<Vec<Column>> = Vec::new();
        let mut i: usize = 0;
        while i < column_values_seq.len()
            invariant
                i <= column_values_seq.len(),
                out@.len() == i,
                forall|a: int|
                    0 <= a < i ==> #[trigger] rows_view(out@)[a] == expand_row_spec(
                        rows,
                        row_index as int,
                        ctx,
                    )[a],
            decreases column_values_seq.len() - i,
        {
            let row = &column_values_seq[i];
            let mut out_row: Vec<Column> = Vec::new();
            let mut j: usize = 0;
            while j < row.len()
                invariant
                    i < column_values_seq.len(),
                    j <= row@.len(),
                    out_row@.len() == j,
                    forall|b: int|
                        0 <= b < j ==> #[trigger] columns_view(out_row@)[b] == resolve_proxy(
                            rows[i as int][b],
                            row_index as int,
                            ctx,
                        ),
                decreases row@.len() - j,
            {
                let ghost out_row0 = out_row@;
                proof {
                    assert(rows[i as int][j as int] == row@[j as int]@);
                }
                match &row[j] {
                    ProxyColumn::Concrete(col) => {
                        out_row.push(col.duplicate());
                    },
                    ProxyColumn::Template { col_index, step_id } => {
                        proof {
                            assert(rows[i as int][j as int] is Template);
                        }
                        out_row.push(
                            Column::Param(
                                transaction_context.resolve_value(*step_id, row_index, *col_index),
                            ),
                        );
                    },
                }
                proof {
                    assert(forall|b: int|
                        0 <= b < j ==> #[trigger] columns_view(out_row@)[b] == columns_view(
                            out_row0,
                        )[b]);
                    assert(columns_view(out_row@)[j as int] == resolve_proxy(
                        rows[i as int][j as int],
                        row_index as int,
                        ctx,
                    ));
                }
                j = j + 1;
            }
            proof {
                assert(columns_view(out_row@) =~= expand_row_spec(
                    rows,
                    row_index as int,
                    ctx,
                )[i as int]);
            }
            let ghost out0 = out@;
            out.push(out_row);
            proof {
                assert(forall|a: int|
                    0 <= a < i ==> #[trigger] rows_view(out@)[a] == rows_view(out0)[a]);
                assert(rows_view(out@)[i as int] == expand_row_spec(
                    rows,
                    row_index as int,
                    ctx,
                )[i as int]);
            }
            i = i + 1;
        }
        proof {
            assert(rows_view(out@) =~= expand_row_spec(rows, row_index as int, ctx));
        }
        out
    }

    /// Resolves the templated insert against the context. When the insert
    /// has template columns but the prior step returned no rows, there is
    /// nothing to populate it with and no statement is produced at all.
    #[verifier::loop_isolation(false)]
    pub fn resolve(
        &self,
        prev_step_id: TransactionStepId,
        transaction_context: &TransactionContext,
    ) -> (r: Option<Insert>)
        requires
            prev_step_id < transaction_context@.len(),
            templates_resolvable(
                self@.column_values_seq,
                transaction_context@,
                transaction_context@[prev_step_id as int].len() as nat,
            ),
        ensures
            match r {
                Some(ins) => resolve_spec(self@, prev_step_id as int, transaction_context@)
                    == Some(ins@),
                None => resolve_spec(self@, prev_step_id as int, transaction_context@) is None,
            },
    {
        let ghost rows = self@.column_values_seq;
        let ghost ctx = transaction_context@;
        let row_count = transaction_context.row_count(prev_step_id);
        if self.has_template_columns() && row_count == 0 {
            None
        } else {
            let mut values: Vec<Vec<Column>> = Vec::new();
            let mut row_index: usize = 0;
            proof {
                assert(rows_view(values@) =~= expanded_rows_spec(rows, ctx, 0));
            }
            while row_index < row_count
                invariant
                    row_index <= row_count,
                    rows_view(values@) == expanded_rows_spec(rows, ctx, row_index as nat),
                decreases row_count - row_index,
            {
                let mut expanded = Self::expand_row(
                    &self.column_values_seq,
                    row_index,
                    transaction_context,
                );
                let ghost values_before = values@;
                let ghost expanded_v = rows_view(expanded@);
                values.append(&mut expanded);
                row_index = row_index + 1;
                proof {
                    assert(rows_view(values@) =~= rows_view(values_before) + expanded_v);
                }
            }
            let mut cols: Vec<ColumnId> = Vec::new();
            let mut i: usize = 0;
            while i < self.column_names.len()
                invariant
                    i <= self.column_names.len(),
                    cols@ == self.column_names@.subrange(0, i as int),
                decreases self.column_names.len() - i,
            {
                cols.push(self.column_names[i]);
                i = i + 1;
                proof {
                    assert(cols@ =~= self.column_names@.subrange(0, i as int));
                }
            }
            proof {
                assert(self.column_names@.subrange(0, self.column_names@.len() as int)
                    =~= self.column_names@);
            }
            let mut ret: Vec<Column> = Vec::new();
            let mut i: usize = 0;
            while i < self.returning.len()
                invariant
                    i <= self.returning.len(),
                    ret@.len() == i,
                    forall|j: int| 0 <= j < i ==> ret@[j]@ == self.returning@[j]@,
                decreases self.returning.len() - i,
            {
                ret.push(self.returning[i].duplicate());
                i = i + 1;
            }
            proof {
                assert(columns_view(ret@) =~= columns_view(self.returning@));
            }
            Some(
                Insert {
                    table_id: self.table_id,
                    columns: cols,
                    values_seq: values,
                    returning: ret,
                },
            )
        }
    }
}

/// A templated step that cannot be populated produces no statement: with
/// template columns present and no rows to draw on, resolution yields
/// nothing rather than an insert with zero value rows.
pub proof fn lemma_row_count_gating(
    t: TemplateInsertView,
    prev_step_id: int,
    ctx: Seq<Seq<Seq<JsonView>>>,
)
    requires
        0 <= prev_step_id < ctx.len(),
        has_template_spec(t.column_values_seq),
        ctx[prev_step_id].len() == 0,
    ensures
        resolve_spec(t, prev_step_id, ctx) is None,
{
}

} // verus!
