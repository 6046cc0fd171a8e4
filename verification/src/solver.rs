//! The access-control predicate solver. A policy expression is partially
//! evaluated against a JSON-shaped request context: whatever can be decided
//! in-process collapses to `True`/`False`, and whatever needs row data is
//! emitted as a residual database predicate.

use vstd::prelude::*;

use crate::json::{json_eq, json_seq_view, JsonValue, JsonView};
use crate::predicate::{AbstractPredicate, ColumnPath, ColumnPathView, PredicateView};
use crate::schema::{ColumnIdPath, ColumnPathLink};

verus! {

/// Model of a context selection: one key, or a nested selection then a key.
pub enum ContextSelectionView {
    Single(Seq<char>),
    Select(Box<ContextSelectionView>, Seq<char>),
}

/// A lookup path into the request context, such as `AuthContext.role`.
#[derive(Debug, PartialEq)]
pub enum AccessContextSelection {
    Single(String),
    Select(Box<AccessContextSelection>, String),
}

impl View for AccessContextSelection {
    type V = ContextSelectionView;

    open spec fn view(&self) -> ContextSelectionView
        decreases self,
    {
        match self {
            AccessContextSelection::Single(key) => ContextSelectionView::Single(key@),
            AccessContextSelection::Select(path, key) => ContextSelectionView::Select(
                Box::new((**path).view()),
                key@,
            ),
        }
    }
}

/// Model of a primitive operand of a relational comparison.
pub enum PrimitiveExprView {
    ContextSelection(ContextSelectionView),
    Column(Seq<ColumnPathLink>),
    StringLiteral(Seq<char>),
    BooleanLiteral(bool),
    NumberLiteral(int),
}

/// A primitive operand of a relational comparison.
#[derive(Debug, PartialEq)]
pub enum AccessPrimitiveExpression {
    ContextSelection(AccessContextSelection),
    Column(ColumnIdPath),
    StringLiteral(String),
    BooleanLiteral(bool),
    NumberLiteral(i64),
}

impl View for AccessPrimitiveExpression {
    type V = PrimitiveExprView;

    open spec fn view(&self) -> PrimitiveExprView {
        match self {
            AccessPrimitiveExpression::ContextSelection(sel) => PrimitiveExprView::ContextSelection(
                sel.view(),
            ),
            AccessPrimitiveExpression::Column(path) => PrimitiveExprView::Column(path.view()),
            AccessPrimitiveExpression::StringLiteral(s) => PrimitiveExprView::StringLiteral(s@),
            AccessPrimitiveExpression::BooleanLiteral(b) => PrimitiveExprView::BooleanLiteral(*b),
            AccessPrimitiveExpression::NumberLiteral(n) => PrimitiveExprView::NumberLiteral(
                *n as int,
            ),
        }
    }
}

/// The relational operator of a comparison.
#[derive(Clone, Copy, Debug, PartialEq, Eq, Structural)]
pub enum RelationalKind {
    Eq,
    Neq,
    Lt,
    Lte,
    Gt,
    Gte,
    In,
}

/// Model of a relational comparison between two primitive operands.
pub enum RelationalOpView {
    Eq(Box<PrimitiveExprView>, Box<PrimitiveExprView>),
    Neq(Box<PrimitiveExprView>, Box<PrimitiveExprView>),
    Lt(Box<PrimitiveExprView>, Box<PrimitiveExprView>),
    Lte(Box<PrimitiveExprView>, Box<PrimitiveExprView>),
    Gt(Box<PrimitiveExprView>, Box<PrimitiveExprView>),
    Gte(Box<PrimitiveExprView>, Box<PrimitiveExprView>),
    In(Box<PrimitiveExprView>, Box<PrimitiveExprView>),
}

/// A relational comparison between two primitive operands.
#[derive(Debug, PartialEq)]
pub enum AccessRelationalOp {
    Eq(Box<AccessPrimitiveExpression>, Box<AccessPrimitiveExpression>),
    Neq(Box<AccessPrimitiveExpression>, Box<AccessPrimitiveExpression>),
    Lt(Box<AccessPrimitiveExpression>, Box<AccessPrimitiveExpression>),
    Lte(Box<AccessPrimitiveExpression>, Box<AccessPrimitiveExpression>),
    Gt(Box<AccessPrimitiveExpression>, Box<AccessPrimitiveExpression>),
    Gte(Box<AccessPrimitiveExpression>, Box<AccessPrimitiveExpression>),
    In(Box<AccessPrimitiveExpression>, Box<AccessPrimitiveExpression>),
}

impl View for AccessRelationalOp {
    type V = RelationalOpView;

    open spec fn view(&self) -> RelationalOpView {
        match self {
            AccessRelationalOp::Eq(l, r) => RelationalOpView::Eq(
                Box::new((**l).view()),
                Box::new((**r).view()),
            ),
            AccessRelationalOp::Neq(l, r) => RelationalOpView::Neq(
                Box::new((**l).view()),
                Box::new((**r).view()),
            ),
            AccessRelationalOp::Lt(l, r) => RelationalOpView::Lt(
                Box::new((**l).view()),
                Box::new((**r).view()),
            ),
            AccessRelationalOp::Lte(l, r) => RelationalOpView::Lte(
                Box::new((**l).view()),
                Box::new((**r).view()),
            ),
            AccessRelationalOp::Gt(l, r) => RelationalOpView::Gt(
                Box::new((**l).view()),
                Box::new((**r).view()),
            ),
            AccessRelationalOp::Gte(l, r) => RelationalOpView::Gte(
                Box::new((**l).view()),
                Box::new((**r).view()),
            ),
            AccessRelationalOp::In(l, r) => RelationalOpView::In(
                Box::new((**l).view()),
                Box::new((**r).view()),
            ),
        }
    }
}

/// Model of a logical combinator over policy expressions.
pub enum LogicalExprView {
    Not(Box<PredicateExprView>),
    And(Box<PredicateExprView>, Box<PredicateExprView>),
    Or(Box<PredicateExprView>, Box<PredicateExprView>),
}

/// A logical combinator over policy expressions.
#[derive(Debug, PartialEq)]
pub enum AccessLogicalExpression {
    Not(Box<AccessPredicateExpression>),
    And(Box<AccessPredicateExpression>, Box<AccessPredicateExpression>),
    Or(Box<AccessPredicateExpression>, Box<AccessPredicateExpression>),
}

/// Model of a policy expression.
pub enum PredicateExprView {
    LogicalOp(LogicalExprView),
    RelationalOp(RelationalOpView),
    BooleanLiteral(bool),
    BooleanColumn(Seq<ColumnPathLink>),
    BooleanContextSelection(ContextSelectionView),
}

/// A policy expression: what an access rule compiles to.
#[derive(Debug, PartialEq)]
pub enum AccessPredicateExpression {
    LogicalOp(AccessLogicalExpression),
    RelationalOp(AccessRelationalOp),
    BooleanLiteral(bool),
    BooleanColumn(ColumnIdPath),
    BooleanContextSelection(AccessContextSelection),
}

impl View for AccessLogicalExpression {
    type V = LogicalExprView;

    open spec fn view(&self) -> LogicalExprView
        decreases self,
    {
        match self {
            AccessLogicalExpression::Not(e) => LogicalExprView::Not(Box::new((**e).view())),
            AccessLogicalExpression::And(l, r) => LogicalExprView::And(
                Box::new((**l).view()),
                Box::new((**r).view()),
            ),
            AccessLogicalExpression::Or(l, r) => LogicalExprView::Or(
                Box::new((**l).view()),
                Box::new((**r).view()),
            ),
        }
    }
}

impl View for AccessPredicateExpression {
    type V = PredicateExprView;

    open spec fn view(&self) -> PredicateExprView
        decreases self,
    {
        match self {
            AccessPredicateExpression::LogicalOp(op) => PredicateExprView::LogicalOp(op.view()),
            AccessPredicateExpression::RelationalOp(op) => PredicateExprView::RelationalOp(
                op.view(),
            ),
            AccessPredicateExpression::BooleanLiteral(b) => PredicateExprView::BooleanLiteral(*b),
            AccessPredicateExpression::BooleanColumn(path) => PredicateExprView::BooleanColumn(
                path.view(),
            ),
            AccessPredicateExpression::BooleanContextSelection(
                sel,
            ) => PredicateExprView::BooleanContextSelection(sel.view()),
        }
    }
}

/// Why the solver rejected a policy expression.
#[derive(Clone, Copy, Debug, PartialEq, Eq, Structural)]
pub enum AccessSolverError {
    /// An object-valued literal operand; such operands are rejected rather
    /// than coerced.
    UnsupportedLiteral,
    /// The right operand of `in` did not evaluate to an array.
    InvalidInOperand,
    /// A bare context selection used as a boolean held a non-boolean value.
    NonBooleanContext,
}

/// The model of a context lookup: each step selects a key in the value found
/// so far, and a missing key makes the whole lookup come up empty.
pub open spec fn solve_context_selection_spec(sel: ContextSelectionView, ctx: JsonView) -> Option<
    JsonView,
>
    decreases sel,
{
    match sel {
        ContextSelectionView::Single(key) => ctx.get_key(key),
        ContextSelectionView::Select(path, key) => match solve_context_selection_spec(*path, ctx) {
            Some(v) => v.get_key(key),
            None => None,
        },
    }
}

/// Model of one reduced comparison operand: a concrete value, a deferred
/// column reference, or a context lookup that came up empty.
pub enum ReducedView {
    Value(JsonView),
    Column(Seq<ColumnPathLink>),
    Unresolved,
}

/// The three-way reduction of a primitive operand against the context.
pub open spec fn reduce_primitive_spec(e: PrimitiveExprView, ctx: JsonView) -> ReducedView {
    match e {
        PrimitiveExprView::ContextSelection(sel) => match solve_context_selection_spec(sel, ctx) {
            Some(v) => ReducedView::Value(v),
            None => ReducedView::Unresolved,
        },
        PrimitiveExprView::Column(path) => ReducedView::Column(path),
        PrimitiveExprView::StringLiteral(s) => ReducedView::Value(JsonView::Str(s)),
        PrimitiveExprView::BooleanLiteral(b) => ReducedView::Value(JsonView::Bool(b)),
        PrimitiveExprView::NumberLiteral(n) => ReducedView::Value(JsonView::Int(n)),
    }
}

/// The operator of a comparison.
pub open spec fn rel_kind(op: RelationalOpView) -> RelationalKind {
    match op {
        RelationalOpView::Eq(_, _) => RelationalKind::Eq,
        RelationalOpView::Neq(_, _) => RelationalKind::Neq,
        RelationalOpView::Lt(_, _) => RelationalKind::Lt,
        RelationalOpView::Lte(_, _) => RelationalKind::Lte,
        RelationalOpView::Gt(_, _) => RelationalKind::Gt,
        RelationalOpView::Gte(_, _) => RelationalKind::Gte,
        RelationalOpView::In(_, _) => RelationalKind::In,
    }
}

/// The two operands of a comparison.
pub open spec fn rel_sides(op: RelationalOpView) -> (PrimitiveExprView, PrimitiveExprView) {
    match op {
        RelationalOpView::Eq(l, r) => (*l, *r),
        RelationalOpView::Neq(l, r) => (*l, *r),
        RelationalOpView::Lt(l, r) => (*l, *r),
        RelationalOpView::Lte(l, r) => (*l, *r),
        RelationalOpView::Gt(l, r) => (*l, *r),
        RelationalOpView::Gte(l, r) => (*l, *r),
        RelationalOpView::In(l, r) => (*l, *r),
    }
}

/// The database predicate node for an operator and two leaves.
pub open spec fn rel_node(kind: RelationalKind, l: ColumnPathView, r: ColumnPathView)
    -> PredicateView {
    match kind {
        RelationalKind::Eq => PredicateView::Eq(l, r),
        RelationalKind::Neq => PredicateView::Neq(l, r),
        RelationalKind::Lt => PredicateView::Lt(l, r),
        RelationalKind::Lte => PredicateView::Lte(l, r),
        RelationalKind::Gt => PredicateView::Gt(l, r),
        RelationalKind::Gte => PredicateView::Gte(l, r),
        RelationalKind::In => PredicateView::In(l, r),
    }
}

/// A decided boolean as a terminal predicate.
pub open spec fn bool_pred(b: bool) -> PredicateView {
    if b {
        PredicateView::True
    } else {
        PredicateView::False
    }
}

/// The operator-specific default when a context lookup came up empty:
/// fail closed everywhere except `Neq`, which fails open so that negative
/// role checks are not defeated by anonymity.
pub open spec fn unresolved_default(kind: RelationalKind) -> PredicateView {
    match kind {
        RelationalKind::Neq => PredicateView::True,
        _ => PredicateView::False,
    }
}

/// Whether a concrete value may stand as a literal leaf: object-valued
/// literals are rejected.
pub open spec fn literal_ok(v: JsonView) -> bool {
    !(v is Obj)
}

/// The literal leaf for a concrete value: JSON null becomes the SQL `NULL`
/// leaf, everything else a literal.
pub open spec fn literal_path_spec(v: JsonView) -> ColumnPathView {
    if v is Null {
        ColumnPathView::Null
    } else {
        ColumnPathView::Literal(v)
    }
}

/// Whether two integers stand in the named relation.
pub open spec fn int_comparison_holds(kind: RelationalKind, a: int, b: int) -> bool {
    match kind {
        RelationalKind::Eq => a == b,
        RelationalKind::Neq => a != b,
        RelationalKind::Lt => a < b,
        RelationalKind::Lte => a <= b,
        RelationalKind::Gt => a > b,
        RelationalKind::Gte => a >= b,
        RelationalKind::In => false,
    }
}

/// The comparison of two concrete values, evaluated immediately in-process:
/// equality by deep value equality, `in` by array membership, and the
/// ordering comparisons by integer order. An ordering comparison whose
/// operands are not both integers is rejected: no in-process order is
/// defined for other value shapes, so such a policy is refused rather than
/// answered arbitrarily.
pub open spec fn solve_values_spec(kind: RelationalKind, v1: JsonView, v2: JsonView) -> Result<
    PredicateView,
    AccessSolverError,
> {
    match kind {
        RelationalKind::Eq => Ok(bool_pred(v1 == v2)),
        RelationalKind::Neq => Ok(bool_pred(v1 != v2)),
        RelationalKind::In => match v2 {
            JsonView::Arr(items) => Ok(bool_pred(items.contains(v1))),
            _ => Err(AccessSolverError::InvalidInOperand),
        },
        _ => match (v1, v2) {
            (JsonView::Int(a), JsonView::Int(b)) => Ok(
                bool_pred(int_comparison_holds(kind, a, b)),
            ),
            _ => Err(AccessSolverError::UnsupportedLiteral),
        },
    }
}

/// The three-way solution of one relational comparison. When a side involves
/// a column, the column always stands on the left of the emitted node,
/// whichever side it was written on.
pub open spec fn solve_relational_spec(op: RelationalOpView, ctx: JsonView) -> Result<
    PredicateView,
    AccessSolverError,
> {
    let kind = rel_kind(op);
    let sides = rel_sides(op);
    let l = reduce_primitive_spec(sides.0, ctx);
    let r = reduce_primitive_spec(sides.1, ctx);
    match (l, r) {
        (ReducedView::Unresolved, _) => Ok(unresolved_default(kind)),
        (_, ReducedView::Unresolved) => Ok(unresolved_default(kind)),
        (ReducedView::Column(c1), ReducedView::Column(c2)) => Ok(
            rel_node(kind, ColumnPathView::Physical(c1), ColumnPathView::Physical(c2)),
        ),
        (ReducedView::Value(v1), ReducedView::Value(v2)) => solve_values_spec(kind, v1, v2),
        (ReducedView::Value(v), ReducedView::Column(c)) => {
            if literal_ok(v) {
                Ok(rel_node(kind, ColumnPathView::Physical(c), literal_path_spec(v)))
            } else {
                Err(AccessSolverError::UnsupportedLiteral)
            }
        },
        (ReducedView::Column(c), ReducedView::Value(v)) => {
            if literal_ok(v) {
                Ok(rel_node(kind, ColumnPathView::Physical(c), literal_path_spec(v)))
            } else {
                Err(AccessSolverError::UnsupportedLiteral)
            }
        },
    }
}

/// The solution of a logical combinator: solve both operands, then apply the
/// simplifying model combinator.
pub open spec fn solve_logical_spec(op: LogicalExprView, ctx: JsonView) -> Result<
    PredicateView,
    AccessSolverError,
>
    decreases op,
{
    match op {
        LogicalExprView::Not(e) => match solve_spec(*e, ctx) {
            Ok(p) => Ok(PredicateView::negate(p)),
            Err(err) => Err(err),
        },
        LogicalExprView::And(l, r) => match (solve_spec(*l, ctx), solve_spec(*r, ctx)) {
            (Ok(a), Ok(b)) => Ok(PredicateView::and(a, b)),
            (Err(err), _) => Err(err),
            (_, Err(err)) => Err(err),
        },
        LogicalExprView::Or(l, r) => match (solve_spec(*l, ctx), solve_spec(*r, ctx)) {
            (Ok(a), Ok(b)) => Ok(PredicateView::or(a, b)),
            (Err(err), _) => Err(err),
            (_, Err(err)) => Err(err),
        },
    }
}

/// The model of the whole solver.
pub open spec fn solve_spec(expr: PredicateExprView, ctx: JsonView) -> Result<
    PredicateView,
    AccessSolverError,
>
    decreases expr,
{
    match expr {
        PredicateExprView::LogicalOp(op) => solve_logical_spec(op, ctx),
        PredicateExprView::RelationalOp(op) => solve_relational_spec(op, ctx),
        PredicateExprView::BooleanLiteral(b) => Ok(bool_pred(b)),
        PredicateExprView::BooleanColumn(path) => Ok(
            PredicateView::Eq(
                ColumnPathView::Physical(path),
                ColumnPathView::Literal(JsonView::Bool(true)),
            ),
        ),
        PredicateExprView::BooleanContextSelection(sel) => match solve_context_selection_spec(
            sel,
            ctx,
        ) {
            Some(JsonView::Bool(b)) => Ok(bool_pred(b)),
            Some(_) => Err(AccessSolverError::NonBooleanContext),
            None => Ok(PredicateView::False),
        },
    }
}

/// A solver result seen through the predicate's view.
pub open spec fn pred_result_view(r: Result<AbstractPredicate, AccessSolverError>) -> Result<
    PredicateView,
    AccessSolverError,
> {
    match r {
        Ok(p) => Ok(p@),
        Err(e) => Err(e),
    }
}

impl AccessRelationalOp {
    /// The two operands, left then right.
    pub fn sides<'a>(&'a self) -> (r: (
        &'a AccessPrimitiveExpression,
        &'a AccessPrimitiveExpression,
    ))
        ensures
            (r.0@, r.1@) == rel_sides(self@),
    {
        match self {
            AccessRelationalOp::Eq(l, r) => (&**l, &**r),
            AccessRelationalOp::Neq(l, r) => (&**l, &**r),
            AccessRelationalOp::Lt(l, r) => (&**l, &**r),
            AccessRelationalOp::Lte(l, r) => (&**l, &**r),
            AccessRelationalOp::Gt(l, r) => (&**l, &**r),
            AccessRelationalOp::Gte(l, r) => (&**l, &**r),
            AccessRelationalOp::In(l, r) => (&**l, &**r),
        }
    }

    /// The operator of the comparison.
    pub fn kind(&self) -> (k: RelationalKind)
        ensures
            k == rel_kind(self@),
    {
        match self {
            AccessRelationalOp::Eq(_, _) => RelationalKind::Eq,
            AccessRelationalOp::Neq(_, _) => RelationalKind::Neq,
            AccessRelationalOp::Lt(_, _) => RelationalKind::Lt,
            AccessRelationalOp::Lte(_, _) => RelationalKind::Lte,
            AccessRelationalOp::Gt(_, _) => RelationalKind::Gt,
            AccessRelationalOp::Gte(_, _) => RelationalKind::Gte,
            AccessRelationalOp::In(_, _) => RelationalKind::In,
        }
    }
}

/// One reduced comparison operand.
#[derive(Debug, PartialEq)]
pub enum SolvedPrimitiveExpression {
    Value(JsonValue),
    Column(ColumnIdPath),
    Unresolved,
}

impl View for SolvedPrimitiveExpression {
    type V = ReducedView;

    open spec fn view(&self) -> ReducedView {
        match self {
            SolvedPrimitiveExpression::Value(v) => ReducedView::Value(v@),
            SolvedPrimitiveExpression::Column(path) => ReducedView::Column(path@),
            SolvedPrimitiveExpression::Unresolved => ReducedView::Unresolved,
        }
    }
}

/// The database-facing column path a column id path denotes.
pub fn to_column_path(column_id: &ColumnIdPath) -> (r: ColumnPath)
    ensures
        r@ == ColumnPathView::Physical(column_id@),
{
    ColumnPath::Physical(column_id.duplicate().path)
}

/// Walks a context selection through the request context.
fn solve_context_selection<'a>(sel: &AccessContextSelection, ctx: &'a JsonValue) -> (r: Option<
    &'a JsonValue,
>)
    ensures
        match r {
            Some(v) => solve_context_selection_spec(sel@, ctx@) == Some(v@),
            None => solve_context_selection_spec(sel@, ctx@) is None,
        },
    decreases sel,
{
    match sel {
        AccessContextSelection::Single(key) => ctx.get(key.as_str()),
        AccessContextSelection::Select(path, key) => match solve_context_selection(&**path, ctx) {
            Some(v) => v.get(key.as_str()),
            None => None,
        },
    }
}

/// Reduces one primitive operand against the context.
fn reduce_primitive_expression(expr: &AccessPrimitiveExpression, ctx: &JsonValue) -> (r:
    SolvedPrimitiveExpression)
    ensures
        r@ == reduce_primitive_spec(expr@, ctx@),
{
    match expr {
        AccessPrimitiveExpression::ContextSelection(sel) => match solve_context_selection(
            sel,
            ctx,
        ) {
            Some(v) => SolvedPrimitiveExpression::Value(v.duplicate()),
            None => SolvedPrimitiveExpression::Unresolved,
        },
        AccessPrimitiveExpression::Column(path) => SolvedPrimitiveExpression::Column(
            path.duplicate(),
        ),
        AccessPrimitiveExpression::StringLiteral(s) => SolvedPrimitiveExpression::Value(
            JsonValue::Str(s.clone()),
        ),
        AccessPrimitiveExpression::BooleanLiteral(b) => SolvedPrimitiveExpression::Value(
            JsonValue::Bool(*b),
        ),
        AccessPrimitiveExpression::NumberLiteral(n) => SolvedPrimitiveExpression::Value(
            JsonValue::Int(*n),
        ),
    }
}

/// Turns a concrete value into a literal leaf, rejecting object values.
fn literal_column(value: JsonValue) -> (r: Result<ColumnPath, AccessSolverError>)
    ensures
        match r {
            Ok(p) => literal_ok(value@) && p@ == literal_path_spec(value@),
            Err(e) => !literal_ok(value@) && e == AccessSolverError::UnsupportedLiteral,
        },
{
    match value {
        JsonValue::Null => Ok(ColumnPath::Null),
        JsonValue::Obj(_) => Err(AccessSolverError::UnsupportedLiteral),
        other => Ok(ColumnPath::Literal(other)),
    }
}

/// Whether an array holds a value equal to the given one.
#[verifier::loop_isolation(false)]
fn json_arr_contains(items: &Vec<JsonValue>, x: &JsonValue) -> (r: bool)
    ensures
        r == json_seq_view(items@).contains(x@),
{
    let mut i: usize = 0;
    while i < items.len()
        invariant
            i <= items.len(),
            forall|j: int| 0 <= j < i ==> json_seq_view(items@)[j] != x@,
        decreases items.len() - i,
    {
        if json_eq(&items[i], x) {
            proof {
                assert(json_seq_view(items@)[i as int] == x@);
            }
            return true;
        }
        i = i + 1;
    }
    proof {
        assert(!json_seq_view(items@).contains(x@)) by {
            if json_seq_view(items@).contains(x@) {
                let j = choose|j: int|
                    0 <= j < json_seq_view(items@).len() && json_seq_view(items@)[j] == x@;
                assert(json_seq_view(items@)[j] != x@);
            }
        }
    }
    false
}

/// The database predicate node for an operator and two leaves.
pub fn relational_node(kind: RelationalKind, l: ColumnPath, r: ColumnPath) -> (res: AbstractPredicate)
    ensures
        res@ == rel_node(kind, l@, r@),
{
    match kind {
        RelationalKind::Eq => AbstractPredicate::Eq(l, r),
        RelationalKind::Neq => AbstractPredicate::Neq(l, r),
        RelationalKind::Lt => AbstractPredicate::Lt(l, r),
        RelationalKind::Lte => AbstractPredicate::Lte(l, r),
        RelationalKind::Gt => AbstractPredicate::Gt(l, r),
        RelationalKind::Gte => AbstractPredicate::Gte(l, r),
        RelationalKind::In => AbstractPredicate::In(l, r),
    }
}

/// A decided boolean as a terminal predicate.
fn bool_predicate(b: bool) -> (res: AbstractPredicate)
    ensures
        res@ == bool_pred(b),
{
    if b {
        AbstractPredicate::True
    } else {
        AbstractPredicate::False
    }
}

/// Solves one relational comparison against the context.
fn solve_relational_op(op: &AccessRelationalOp, ctx: &JsonValue) -> (r: Result<
    AbstractPredicate,
    AccessSolverError,
>)
    ensures
        pred_result_view(r) == solve_relational_spec(op@, ctx@),
{
    let kind = op.kind();
    let (lhs, rhs) = op.sides();
    let left = reduce_primitive_expression(lhs, ctx);
    let right = reduce_primitive_expression(rhs, ctx);
    match (left, right) {
        (SolvedPrimitiveExpression::Unresolved, _) => Ok(
            match kind {
                RelationalKind::Neq => AbstractPredicate::True,
                _ => AbstractPredicate::False,
            },
        ),
        (_, SolvedPrimitiveExpression::Unresolved) => Ok(
            match kind {
                RelationalKind::Neq => AbstractPredicate::True,
                _ => AbstractPredicate::False,
            },
        ),
        (
            SolvedPrimitiveExpression::Column(c1),
            SolvedPrimitiveExpression::Column(c2),
        ) => Ok(relational_node(kind, ColumnPath::Physical(c1.path), ColumnPath::Physical(c2.path))),
        (SolvedPrimitiveExpression::Value(v1), SolvedPrimitiveExpression::Value(v2)) => match kind {
            RelationalKind::Eq => Ok(bool_predicate(json_eq(&v1, &v2))),
            RelationalKind::Neq => Ok(bool_predicate(!json_eq(&v1, &v2))),
            RelationalKind::In => match v2 {
                JsonValue::Arr(items) => Ok(bool_predicate(json_arr_contains(&items, &v1))),
                _ => Err(AccessSolverError::InvalidInOperand),
            },
            _ => match (&v1, &v2) {
                (JsonValue::Int(a), JsonValue::Int(b)) => {
                    let holds = match kind {
                        RelationalKind::Lt => *a < *b,
                        RelationalKind::Lte => *a <= *b,
                        RelationalKind::Gt => *a > *b,
                        RelationalKind::Gte => *a >= *b,
                        _ => false,
                    };
                    Ok(bool_predicate(holds))
                },
                _ => Err(AccessSolverError::UnsupportedLiteral),
            },
        },
        (SolvedPrimitiveExpression::Value(v), SolvedPrimitiveExpression::Column(c)) => match
            literal_column(v) {
            Ok(lit) => Ok(relational_node(kind, ColumnPath::Physical(c.path), lit)),
            Err(e) => Err(e),
        },
        (SolvedPrimitiveExpression::Column(c), SolvedPrimitiveExpression::Value(v)) => match
            literal_column(v) {
            Ok(lit) => Ok(relational_node(kind, ColumnPath::Physical(c.path), lit)),
            Err(e) => Err(e),
        },
    }
}

/// Solves a logical combinator: both operands are solved, then combined with
/// the simplifying combinators.
fn solve_logical_op(op: &AccessLogicalExpression, ctx: &JsonValue) -> (r: Result<
    AbstractPredicate,
    AccessSolverError,
>)
    ensures
        pred_result_view(r) == solve_logical_spec(op@, ctx@),
    decreases op,
{
    match op {
        AccessLogicalExpression::Not(e) => match solve_predicate_expression(&**e, ctx) {
            Ok(p) => Ok(AbstractPredicate::negate(p)),
            Err(err) => Err(err),
        },
        AccessLogicalExpression::And(l, r) => {
            let lp = solve_predicate_expression(&**l, ctx);
            let rp = solve_predicate_expression(&**r, ctx);
            match (lp, rp) {
                (Ok(a), Ok(b)) => Ok(AbstractPredicate::and(a, b)),
                (Err(err), _) => Err(err),
                (_, Err(err)) => Err(err),
            }
        },
        AccessLogicalExpression::Or(l, r) => {
            let lp = solve_predicate_expression(&**l, ctx);
            let rp = solve_predicate_expression(&**r, ctx);
            match (lp, rp) {
                (Ok(a), Ok(b)) => Ok(AbstractPredicate::or(a, b)),
                (Err(err), _) => Err(err),
                (_, Err(err)) => Err(err),
            }
        },
    }
}

/// Solves a policy expression against the context.
fn solve_predicate_expression(expr: &AccessPredicateExpression, ctx: &JsonValue) -> (r: Result<
    AbstractPredicate,
    AccessSolverError,
>)
    ensures
        pred_result_view(r) == solve_spec(expr@, ctx@),
    decreases expr,
{
    match expr {
        AccessPredicateExpression::LogicalOp(op) => solve_logical_op(op, ctx),
        AccessPredicateExpression::RelationalOp(op) => solve_relational_op(op, ctx),
        AccessPredicateExpression::BooleanLiteral(b) => Ok(bool_predicate(*b)),
        AccessPredicateExpression::BooleanColumn(path) => Ok(
            AbstractPredicate::Eq(
                to_column_path(path),
                ColumnPath::Literal(JsonValue::Bool(true)),
            ),
        ),
        AccessPredicateExpression::BooleanContextSelection(sel) => match solve_context_selection(
            sel,
            ctx,
        ) {
            Some(v) => match v {
                JsonValue::Bool(b) => Ok(bool_predicate(*b)),
                _ => Err(AccessSolverError::NonBooleanContext),
            },
            None => Ok(AbstractPredicate::False),
        },
    }
}

/// Solves an access rule against the request context, producing the simplest
/// predicate the context allows: `True` lets the caller skip filtering
/// entirely, `False` lets it reject the request as not authorized, and
/// anything else is a residual filter for the database.
pub fn solve_access(expr: &AccessPredicateExpression, ctx: &JsonValue) -> (r: Result<
    AbstractPredicate,
    AccessSolverError,
>)
    ensures
        pred_result_view(r) == solve_spec(expr@, ctx@),
{
    solve_predicate_expression(expr, ctx)
}

/// A lookup through a null (absent) context always comes up empty.
pub proof fn lemma_null_context_lookup(sel: ContextSelectionView)
    ensures
        solve_context_selection_spec(sel, JsonView::Null) is None,
    decreases sel,
{
    match sel {
        ContextSelectionView::Single(_) => {},
        ContextSelectionView::Select(path, _) => {
            lemma_null_context_lookup(*path);
        },
    }
}

/// The fail-closed / fail-open asymmetry: when a context lookup comes up
/// empty, `Eq`, `In` and the ordering comparisons solve to `False`, `Neq`
/// solves to `True`, and a bare boolean context selection solves to `False`.
pub proof fn lemma_missing_context(
    sel: ContextSelectionView,
    other: PrimitiveExprView,
    ctx: JsonView,
)
    requires
        solve_context_selection_spec(sel, ctx) is None,
    ensures
        solve_relational_spec(
            RelationalOpView::Eq(
                Box::new(PrimitiveExprView::ContextSelection(sel)),
                Box::new(other),
            ),
            ctx,
        ) == Ok::<PredicateView, AccessSolverError>(PredicateView::False),
        solve_relational_spec(
            RelationalOpView::Neq(
                Box::new(PrimitiveExprView::ContextSelection(sel)),
                Box::new(other),
            ),
            ctx,
        ) == Ok::<PredicateView, AccessSolverError>(PredicateView::True),
        solve_relational_spec(
            RelationalOpView::In(
                Box::new(PrimitiveExprView::ContextSelection(sel)),
                Box::new(other),
            ),
            ctx,
        ) == Ok::<PredicateView, AccessSolverError>(PredicateView::False),
        solve_relational_spec(
            RelationalOpView::Lt(
                Box::new(PrimitiveExprView::ContextSelection(sel)),
                Box::new(other),
            ),
            ctx,
        ) == Ok::<PredicateView, AccessSolverError>(PredicateView::False),
        solve_relational_spec(
            RelationalOpView::Lte(
                Box::new(PrimitiveExprView::ContextSelection(sel)),
                Box::new(other),
            ),
            ctx,
        ) == Ok::<PredicateView, AccessSolverError>(PredicateView::False),
        solve_relational_spec(
            RelationalOpView::Gt(
                Box::new(PrimitiveExprView::ContextSelection(sel)),
                Box::new(other),
            ),
            ctx,
        ) == Ok::<PredicateView, AccessSolverError>(PredicateView::False),
        solve_relational_spec(
            RelationalOpView::Gte(
                Box::new(PrimitiveExprView::ContextSelection(sel)),
                Box::new(other),
            ),
            ctx,
        ) == Ok::<PredicateView, AccessSolverError>(PredicateView::False),
        solve_spec(PredicateExprView::BooleanContextSelection(sel), ctx) == Ok::<
            PredicateView,
            AccessSolverError,
        >(PredicateView::False),
{
}

/// A comparison node is never a terminal.
pub proof fn lemma_rel_node_residual(kind: RelationalKind, l: ColumnPathView, r: ColumnPathView)
    ensures
        !(rel_node(kind, l, r) is True),
        !(rel_node(kind, l, r) is False),
{
}

/// Comparing two columns always yields the residual database node for the
/// operator, never a concrete boolean, whatever the context holds.
pub proof fn lemma_column_comparison_residual(op: RelationalOpView, ctx: JsonView)
    requires
        rel_sides(op).0 is Column,
        rel_sides(op).1 is Column,
    ensures
        solve_relational_spec(op, ctx) == Ok::<PredicateView, AccessSolverError>(
            rel_node(
                rel_kind(op),
                ColumnPathView::Physical(rel_sides(op).0->Column_0),
                ColumnPathView::Physical(rel_sides(op).1->Column_0),
            ),
        ),
        !(solve_relational_spec(op, ctx)->Ok_0 is True),
        !(solve_relational_spec(op, ctx)->Ok_0 is False),
{
    lemma_rel_node_residual(
        rel_kind(op),
        ColumnPathView::Physical(rel_sides(op).0->Column_0),
        ColumnPathView::Physical(rel_sides(op).1->Column_0),
    );
}

impl PredicateExprView {
    /// Whether the expression draws on the context and literals alone, with
    /// no column reference anywhere: such an expression is statically
    /// decidable.
    pub open spec fn context_only(self) -> bool
        decreases self,
    {
        match self {
            PredicateExprView::LogicalOp(op) => match op {
                LogicalExprView::Not(e) => e.context_only(),
                LogicalExprView::And(l, r) => l.context_only() && r.context_only(),
                LogicalExprView::Or(l, r) => l.context_only() && r.context_only(),
            },
            PredicateExprView::RelationalOp(op) => {
                &&& !(rel_sides(op).0 is Column)
                &&& !(rel_sides(op).1 is Column)
            },
            PredicateExprView::BooleanLiteral(_) => true,
            PredicateExprView::BooleanColumn(_) => false,
            PredicateExprView::BooleanContextSelection(_) => true,
        }
    }
}

/// A policy that draws on the context alone (no column references) solves to
/// exactly `True` or `False` whenever it solves at all, so callers can skip
/// filtering entirely or reject the request outright.
pub proof fn lemma_context_only_decides(expr: PredicateExprView, ctx: JsonView)
    requires
        expr.context_only(),
    ensures
        solve_spec(expr, ctx) matches Ok(p) ==> (p is True || p is False),
    decreases expr,
{
    match expr {
        PredicateExprView::LogicalOp(op) => match op {
            LogicalExprView::Not(e) => {
                lemma_context_only_decides(*e, ctx);
            },
            LogicalExprView::And(l, r) => {
                lemma_context_only_decides(*l, ctx);
                lemma_context_only_decides(*r, ctx);
            },
            LogicalExprView::Or(l, r) => {
                lemma_context_only_decides(*l, ctx);
                lemma_context_only_decides(*r, ctx);
            },
        },
        PredicateExprView::RelationalOp(op) => {},
        _ => {},
    }
}

/// The solver's output is always a simplified tree: no `And`/`Or` keeps a
/// terminal operand and no `Not` wraps one, so the simplification law holds
/// transitively through whatever the solver builds.
pub proof fn lemma_solver_output_simplified(expr: PredicateExprView, ctx: JsonView)
    ensures
        solve_spec(expr, ctx) matches Ok(p) ==> p.simplified(),
    decreases expr,
{
    match expr {
        PredicateExprView::LogicalOp(op) => match op {
            LogicalExprView::Not(e) => {
                lemma_solver_output_simplified(*e, ctx);
            },
            LogicalExprView::And(l, r) => {
                lemma_solver_output_simplified(*l, ctx);
                lemma_solver_output_simplified(*r, ctx);
            },
            LogicalExprView::Or(l, r) => {
                lemma_solver_output_simplified(*l, ctx);
                lemma_solver_output_simplified(*r, ctx);
            },
        },
        _ => {},
    }
}


} // verus!
