//! The library's error types. Mapper and solver failures are request-level
//! errors; database-side failures carry contextual annotation so a caller
//! can tell which step or table failed.

use vstd::prelude::*;

use crate::solver::AccessSolverError;

verus! {

/// Model of a request-level error.
pub enum ExecutionErrorView {
    InvalidOrderByParameter(Seq<char>),
    InvalidPrimitiveOrderByParameter,
    InvalidOrderingToken(Seq<char>),
    InvalidOrderingArgument,
    UnresolvedVariable(Seq<char>),
    InvalidLiteral,
    UnknownOperator(Seq<char>),
    InvalidNestedAggregation,
    UnknownField(Seq<char>),
    UnknownParameterType,
    MissingColumn(Seq<char>),
    NotAuthorized,
    AccessSolver(AccessSolverError),
    NoSuchQuery(Seq<char>),
    NoSuchMutation(Seq<char>),
    UnsupportedOperation,
    InvalidField(Seq<char>, Seq<char>),
}

/// A request-level error: the user's input is malformed relative to the
/// schema, or the request is not authorized. Never retried.
#[derive(Debug, PartialEq)]
pub enum ExecutionError {
    /// An order-by field name the parameter type does not offer.
    InvalidOrderByParameter(String),
    /// An order-by argument addressed to a primitive parameter type.
    InvalidPrimitiveOrderByParameter,
    /// An ordering token other than `ASC` or `DESC`.
    InvalidOrderingToken(String),
    /// An ordering argument that is neither an enum nor a string token, or
    /// an order-by argument that is neither an object nor a list.
    InvalidOrderingArgument,
    /// A variable reference with no binding in the request.
    UnresolvedVariable(String),
    /// An argument value that cannot stand as a literal operand.
    InvalidLiteral,
    /// An operator name in an operator-style argument that the library does
    /// not know.
    UnknownOperator(String),
    /// An aggregate applied to a composite field rather than a scalar or
    /// primary-key leaf.
    InvalidNestedAggregation,
    /// A selected field the entity type does not have.
    UnknownField(String),
    /// A predicate parameter whose type id points outside the catalog.
    UnknownParameterType,
    /// A predicate parameter that should name a column but names none.
    MissingColumn(String),
    /// The access policy solved to a definite denial.
    NotAuthorized,
    /// The access policy itself was rejected by the solver.
    AccessSolver(AccessSolverError),
    /// A query name no subsystem offers.
    NoSuchQuery(String),
    /// A mutation name no subsystem offers.
    NoSuchMutation(String),
    /// An operation type the engine does not serve.
    UnsupportedOperation,
    /// A field name an introspection type does not have, with the type's
    /// name.
    InvalidField(String, String),
}

impl View for ExecutionError {
    type V = ExecutionErrorView;

    open spec fn view(&self) -> ExecutionErrorView {
        match self {
            ExecutionError::InvalidOrderByParameter(
                name,
            ) => ExecutionErrorView::InvalidOrderByParameter(name@),
            ExecutionError::InvalidPrimitiveOrderByParameter => {
                ExecutionErrorView::InvalidPrimitiveOrderByParameter
            },
            ExecutionError::InvalidOrderingToken(tok) => ExecutionErrorView::InvalidOrderingToken(
                tok@,
            ),
            ExecutionError::InvalidOrderingArgument => {
                ExecutionErrorView::InvalidOrderingArgument
            },
            ExecutionError::UnresolvedVariable(name) => ExecutionErrorView::UnresolvedVariable(
                name@,
            ),
            ExecutionError::InvalidLiteral => ExecutionErrorView::InvalidLiteral,
            ExecutionError::UnknownOperator(name) => ExecutionErrorView::UnknownOperator(name@),
            ExecutionError::InvalidNestedAggregation => {
                ExecutionErrorView::InvalidNestedAggregation
            },
            ExecutionError::UnknownField(name) => ExecutionErrorView::UnknownField(name@),
            ExecutionError::UnknownParameterType => ExecutionErrorView::UnknownParameterType,
            ExecutionError::MissingColumn(name) => ExecutionErrorView::MissingColumn(name@),
            ExecutionError::NotAuthorized => ExecutionErrorView::NotAuthorized,
            ExecutionError::AccessSolver(e) => ExecutionErrorView::AccessSolver(*e),
            ExecutionError::NoSuchQuery(name) => ExecutionErrorView::NoSuchQuery(name@),
            ExecutionError::NoSuchMutation(name) => ExecutionErrorView::NoSuchMutation(name@),
            ExecutionError::UnsupportedOperation => ExecutionErrorView::UnsupportedOperation,
            ExecutionError::InvalidField(field, owner) => ExecutionErrorView::InvalidField(
                field@,
                owner@,
            ),
        }
    }
}

/// Model of a database-side error.
pub enum DatabaseErrorView {
    Generic(Seq<char>),
    Delegate(Seq<char>),
    WithContext(Seq<char>, Box<DatabaseErrorView>),
}

/// A database-side error: the driver's failure text, possibly wrapped in
/// layers of contextual annotation saying which step or table failed.
#[derive(Debug, PartialEq)]
pub enum DatabaseError {
    /// A failure of the library's own making.
    Generic(String),
    /// A failure the database driver reported, as text.
    Delegate(String),
    /// An underlying error with one layer of annotation.
    WithContext(String, Box<DatabaseError>),
}

impl View for DatabaseError {
    type V = DatabaseErrorView;

    open spec fn view(&self) -> DatabaseErrorView
        decreases self,
    {
        match self {
            DatabaseError::Generic(msg) => DatabaseErrorView::Generic(msg@),
            DatabaseError::Delegate(msg) => DatabaseErrorView::Delegate(msg@),
            DatabaseError::WithContext(ctx, inner) => DatabaseErrorView::WithContext(
                ctx@,
                Box::new((**inner).view()),
            ),
        }
    }
}

impl DatabaseError {
    /// Wraps the error in one layer of contextual annotation.
    pub fn with_context(self, context: String) -> (r: DatabaseError)
        ensures
            r@ == DatabaseErrorView::WithContext(context@, Box::new(self@)),
    {
        DatabaseError::WithContext(context, Box::new(self))
    }
}

/// Annotating a fallible outcome with context.
pub trait WithContext {
    /// Wraps the error case, if any, in one layer of contextual annotation.
    fn with_context(self, context: String) -> Self;
}

impl<T> WithContext for Result<T, DatabaseError> {
    fn with_context(self, context: String) -> (r: Self)
        ensures
            match (self, r) {
                (Ok(v), Ok(rv)) => rv == v,
                (Err(e), Err(re)) => re@ == DatabaseErrorView::WithContext(
                    context@,
                    Box::new(e@),
                ),
                _ => false,
            },
    {
        match self {
            Ok(v) => Ok(v),
            Err(e) => Err(e.with_context(context)),
        }
    }
}

} // verus!
