//! The abstract SQL operation nodes: leaf column expressions, selections,
//! orderings, and the select / insert statement shapes. Purely data; the
//! renderer turns these into parameterized SQL text.

use vstd::prelude::*;

use crate::json::{JsonValue, JsonView};
use crate::predicate::AbstractPredicate;
use crate::schema::{ColumnId, ColumnIdPath, ColumnPathLink};

verus! {

/// Direction of an ordering clause.
#[derive(Clone, Copy, Debug, PartialEq, Eq, Structural)]
pub enum Ordering {
    Asc,
    Desc,
}

/// An ordered list of ordering clauses, evaluated left to right.
#[derive(Debug, PartialEq)]
pub struct AbstractOrderBy(pub Vec<(ColumnIdPath, Ordering)>);

impl View for AbstractOrderBy {
    type V = Seq<(Seq<ColumnPathLink>, Ordering)>;

    open spec fn view(&self) -> Seq<(Seq<ColumnPathLink>, Ordering)> {
        Seq::new(
            self.0@.len(),
            |i: int|
                if 0 <= i < self.0@.len() {
                    (self.0@[i].0@, self.0@[i].1)
                } else {
                    (Seq::empty(), Ordering::Asc)
                },
        )
    }
}

/// Model of a leaf value expression.
pub enum ColumnExprView {
    Physical(ColumnId),
    Literal(JsonView),
    Function { function_name: Seq<char>, column_id: ColumnId },
    JsonObject(Seq<(Seq<char>, ColumnExprView)>),
    Constant(Seq<char>),
    Null,
    Param(JsonView),
}

/// A leaf value expression: what a selection or an insert row is made of.
#[derive(Debug, PartialEq)]
pub enum Column {
    /// A physical column reference.
    Physical(ColumnId),
    /// A literal value, rendered as a positional parameter.
    Literal(JsonValue),
    /// A function applied to a physical column, such as an aggregate.
    Function { function_name: String, column_id: ColumnId },
    /// A JSON object built from named member expressions.
    JsonObject(Vec<(String, Column)>),
    /// A synthesized constant, such as a `__typename` value.
    Constant(String),
    /// The SQL `NULL` literal.
    Null,
    /// A value resolved at execution time, rendered as a positional parameter.
    Param(JsonValue),
}

/// The element-wise view of JSON object members.
pub open spec fn column_fields_view(s: Seq<(String, Column)>) -> Seq<(Seq<char>, ColumnExprView)>
    decreases s,
{
    Seq::new(s.len(), |i: int| if 0 <= i < s.len() {
        (s[i].0@, s[i].1@)
    } else {
        (Seq::empty(), ColumnExprView::Null)
    })
}

impl View for Column {
    type V = ColumnExprView;

    open spec fn view(&self) -> ColumnExprView
        decreases self,
    {
        match self {
            Column::Physical(id) => ColumnExprView::Physical(*id),
            Column::Literal(v) => ColumnExprView::Literal(v@),
            Column::Function { function_name, column_id } => ColumnExprView::Function {
                function_name: function_name@,
                column_id: *column_id,
            },
            Column::JsonObject(fields) => ColumnExprView::JsonObject(column_fields_view(fields@)),
            Column::Constant(s) => ColumnExprView::Constant(s@),
            Column::Null => ColumnExprView::Null,
            Column::Param(v) => ColumnExprView::Param(v@),
        }
    }
}

impl Column {
    /// A deep copy with the same view.
    #[verifier::loop_isolation(false)]
    pub fn duplicate(&self) -> (r: Column)
        ensures
            r@ == self@,
        decreases self,
    {
        match self {
            Column::Physical(id) => Column::Physical(*id),
            Column::Literal(v) => Column::Literal(v.duplicate()),
            Column::Function { function_name, column_id } => Column::Function {
                function_name: function_name.clone(),
                column_id: *column_id,
            },
            Column::JsonObject(fields) => {
                let mut out: Vec<(String, Column)> = Vec::new();
                let mut i: usize = 0;
                while i < fields.len()
                    invariant
                        i <= fields.len(),
                        out@.len() == i,
                        forall|j: int|
                            0 <= j < i ==> out@[j].0@ == fields@[j].0@ && out@[j].1@
                                == fields@[j].1@,
                    decreases fields.len() - i,
                {
                    out.push((fields[i].0.clone(), fields[i].1.duplicate()));
                    i = i + 1;
                }
                proof {
                    assert(column_fields_view(out@) =~= column_fields_view(fields@));
                }
                Column::JsonObject(out)
            },
            Column::Constant(s) => Column::Constant(s.clone()),
            Column::Null => Column::Null,
            Column::Param(v) => Column::Param(v.duplicate()),
        }
    }
}

/// How many objects a select produces: a single object, or a JSON array of
/// them built by aggregation.
#[derive(Clone, Copy, Debug, PartialEq, Eq, Structural)]
pub enum SelectionCardinality {
    One,
    Many,
}

/// One selected output: an alias and the expression that produces it.
#[derive(Debug, PartialEq)]
pub struct ColumnSelection {
    pub alias: String,
    pub column: Column,
}

impl View for ColumnSelection {
    type V = (Seq<char>, ColumnExprView);

    open spec fn view(&self) -> (Seq<char>, ColumnExprView) {
        (self.alias@, self.column@)
    }
}

impl ColumnSelection {
    /// Pairs an output alias with its expression.
    pub fn new(alias: String, column: Column) -> (r: ColumnSelection)
        ensures
            r@ == (alias@, column@),
    {
        ColumnSelection { alias, column }
    }
}

/// The element-wise view of a selection list.
pub open spec fn selections_view(s: Seq<ColumnSelection>) -> Seq<(Seq<char>, ColumnExprView)> {
    Seq::new(s.len(), |i: int| if 0 <= i < s.len() {
        s[i]@
    } else {
        (Seq::empty(), ColumnExprView::Null)
    })
}

/// Model of a select payload.
pub enum SelectionView {
    Columns(Seq<(Seq<char>, ColumnExprView)>),
    Json(Seq<(Seq<char>, ColumnExprView)>, SelectionCardinality),
}

/// The payload of a select: plain output columns, or a JSON-shaped object
/// (single, or aggregated into an array).
#[derive(Debug, PartialEq)]
pub enum Selection {
    Columns(Vec<ColumnSelection>),
    Json(Vec<ColumnSelection>, SelectionCardinality),
}

impl View for Selection {
    type V = SelectionView;

    open spec fn view(&self) -> SelectionView {
        match self {
            Selection::Columns(sels) => SelectionView::Columns(selections_view(sels@)),
            Selection::Json(sels, card) => SelectionView::Json(selections_view(sels@), *card),
        }
    }
}

/// Model of an abstract select.
pub struct SelectView {
    pub table_id: int,
    pub selection: SelectionView,
    pub predicate: crate::predicate::PredicateView,
    pub order_by: Option<Seq<(Seq<ColumnPathLink>, Ordering)>>,
    pub offset: Option<int>,
    pub limit: Option<int>,
}

/// An abstract select: one table, a selection payload, a predicate, and
/// optional ordering and windowing.
#[derive(Debug, PartialEq)]
pub struct AbstractSelect {
    pub table_id: usize,
    pub selection: Selection,
    pub predicate: AbstractPredicate,
    pub order_by: Option<AbstractOrderBy>,
    pub offset: Option<u64>,
    pub limit: Option<u64>,
}

impl View for AbstractSelect {
    type V = SelectView;

    open spec fn view(&self) -> SelectView {
        SelectView {
            table_id: self.table_id as int,
            selection: self.selection@,
            predicate: self.predicate@,
            order_by: match &self.order_by {
                Some(ob) => Some(ob@),
                None => None,
            },
            offset: match self.offset {
                Some(o) => Some(o as int),
                None => None,
            },
            limit: match self.limit {
                Some(l) => Some(l as int),
                None => None,
            },
        }
    }
}

/// Model of a concrete insert.
pub struct InsertView {
    pub table_id: int,
    pub columns: Seq<ColumnId>,
    pub values_seq: Seq<Seq<ColumnExprView>>,
    pub returning: Seq<ColumnExprView>,
}

/// The element-wise view of a row of value expressions.
pub open spec fn columns_view(s: Seq<Column>) -> Seq<ColumnExprView> {
    Seq::new(s.len(), |i: int| if 0 <= i < s.len() {
        s[i]@
    } else {
        ColumnExprView::Null
    })
}

/// The element-wise view of several rows of value expressions.
pub open spec fn rows_view(s: Seq<Vec<Column>>) -> Seq<Seq<ColumnExprView>> {
    Seq::new(s.len(), |i: int| if 0 <= i < s.len() {
        columns_view(s[i]@)
    } else {
        Seq::empty()
    })
}

/// A concrete insert operation: every value is a renderable expression.
#[derive(Debug, PartialEq)]
pub struct Insert {
    /// The table to insert into.
    pub table_id: usize,
    /// The columns the value rows fill.
    pub columns: Vec<ColumnId>,
    /// The value rows, one inner vector per inserted row.
    pub values_seq: Vec<Vec<Column>>,
    /// The columns the statement returns.
    pub returning: Vec<Column>,
}

impl View for Insert {
    type V = InsertView;

    open spec fn view(&self) -> InsertView {
        InsertView {
            table_id: self.table_id as int,
            columns: self.columns@,
            values_seq: rows_view(self.values_seq@),
            returning: columns_view(self.returning@),
        }
    }
}

/// A JSON array aggregation over an expression; renders with a
/// `COALESCE(..., '[]'::json)` wrapper so an empty aggregate is an empty
/// array rather than SQL `NULL`.
#[derive(Debug, PartialEq)]
pub struct JsonAgg(pub Box<Column>);

impl View for JsonAgg {
    type V = ColumnExprView;

    open spec fn view(&self) -> ColumnExprView {
        (*self.0).view()
    }
}

} // verus!
