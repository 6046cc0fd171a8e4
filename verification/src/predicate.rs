//! The abstract predicate tree of the SQL representation, together with the
//! simplifying combinators. The combinators collapse `True`/`False` operands
//! eagerly, which is what lets an access rule reduce to "skip filtering" or
//! "reject the request" at compile time.

use vstd::prelude::*;

use crate::json::{JsonValue, JsonView};
use crate::schema::ColumnPathLink;

verus! {

/// Model of a leaf value reference inside a predicate: a physical column
/// path, a literal, or the SQL `NULL` literal.
pub enum ColumnPathView {
    Physical(Seq<ColumnPathLink>),
    Literal(JsonView),
    Null,
}

/// A leaf value reference inside a predicate.
#[derive(Debug, PartialEq)]
pub enum ColumnPath {
    Physical(Vec<ColumnPathLink>),
    Literal(JsonValue),
    Null,
}

impl View for ColumnPath {
    type V = ColumnPathView;

    open spec fn view(&self) -> ColumnPathView {
        match self {
            ColumnPath::Physical(links) => ColumnPathView::Physical(links@),
            ColumnPath::Literal(v) => ColumnPathView::Literal(v@),
            ColumnPath::Null => ColumnPathView::Null,
        }
    }
}

/// Model of a boolean expression tree over leaf value references.
pub enum PredicateView {
    True,
    False,
    Eq(ColumnPathView, ColumnPathView),
    Neq(ColumnPathView, ColumnPathView),
    Lt(ColumnPathView, ColumnPathView),
    Lte(ColumnPathView, ColumnPathView),
    Gt(ColumnPathView, ColumnPathView),
    Gte(ColumnPathView, ColumnPathView),
    In(ColumnPathView, ColumnPathView),
    And(Box<PredicateView>, Box<PredicateView>),
    Or(Box<PredicateView>, Box<PredicateView>),
    Not(Box<PredicateView>),
}

/// A boolean expression tree over leaf value references.
#[derive(Debug, PartialEq)]
pub enum AbstractPredicate {
    True,
    False,
    Eq(ColumnPath, ColumnPath),
    Neq(ColumnPath, ColumnPath),
    Lt(ColumnPath, ColumnPath),
    Lte(ColumnPath, ColumnPath),
    Gt(ColumnPath, ColumnPath),
    Gte(ColumnPath, ColumnPath),
    In(ColumnPath, ColumnPath),
    And(Box<AbstractPredicate>, Box<AbstractPredicate>),
    Or(Box<AbstractPredicate>, Box<AbstractPredicate>),
    Not(Box<AbstractPredicate>),
}

impl View for AbstractPredicate {
    type V = PredicateView;

    open spec fn view(&self) -> PredicateView
        decreases self,
    {
        match self {
            AbstractPredicate::True => PredicateView::True,
            AbstractPredicate::False => PredicateView::False,
            AbstractPredicate::Eq(l, r) => PredicateView::Eq(l@, r@),
            AbstractPredicate::Neq(l, r) => PredicateView::Neq(l@, r@),
            AbstractPredicate::Lt(l, r) => PredicateView::Lt(l@, r@),
            AbstractPredicate::Lte(l, r) => PredicateView::Lte(l@, r@),
            AbstractPredicate::Gt(l, r) => PredicateView::Gt(l@, r@),
            AbstractPredicate::Gte(l, r) => PredicateView::Gte(l@, r@),
            AbstractPredicate::In(l, r) => PredicateView::In(l@, r@),
            AbstractPredicate::And(l, r) => PredicateView::And(
                Box::new((**l).view()),
                Box::new((**r).view()),
            ),
            AbstractPredicate::Or(l, r) => PredicateView::Or(
                Box::new((**l).view()),
                Box::new((**r).view()),
            ),
            AbstractPredicate::Not(p) => PredicateView::Not(Box::new((**p).view())),
        }
    }
}

impl PredicateView {
    /// The model conjunction: `False` wins, `True` disappears, anything else
    /// is kept as a node.
    pub open spec fn and(l: PredicateView, r: PredicateView) -> PredicateView {
        if l is False || r is False {
            PredicateView::False
        } else if l is True {
            r
        } else if r is True {
            l
        } else {
            PredicateView::And(Box::new(l), Box::new(r))
        }
    }

    /// The model disjunction: `True` wins, `False` disappears, anything else
    /// is kept as a node.
    pub open spec fn or(l: PredicateView, r: PredicateView) -> PredicateView {
        if l is True || r is True {
            PredicateView::True
        } else if l is False {
            r
        } else if r is False {
            l
        } else {
            PredicateView::Or(Box::new(l), Box::new(r))
        }
    }

    /// The model negation: terminal values flip, anything else is wrapped.
    pub open spec fn negate(p: PredicateView) -> PredicateView {
        match p {
            PredicateView::True => PredicateView::False,
            PredicateView::False => PredicateView::True,
            _ => PredicateView::Not(Box::new(p)),
        }
    }

    /// No `And`/`Or` in the tree has a `True`/`False` operand, and no `Not`
    /// wraps a terminal: the result of eager simplification.
    pub open spec fn simplified(self) -> bool
        decreases self,
    {
        match self {
            PredicateView::And(l, r) => {
                &&& !(*l is True) && !(*l is False) && !(*r is True) && !(*r is False)
                &&& l.simplified()
                &&& r.simplified()
            },
            PredicateView::Or(l, r) => {
                &&& !(*l is True) && !(*l is False) && !(*r is True) && !(*r is False)
                &&& l.simplified()
                &&& r.simplified()
            },
            PredicateView::Not(p) => !(*p is True) && !(*p is False) && p.simplified(),
            _ => true,
        }
    }
}

impl AbstractPredicate {
    /// Conjunction with eager simplification.
    pub fn and(l: AbstractPredicate, r: AbstractPredicate) -> (res: AbstractPredicate)
        ensures
            res@ == PredicateView::and(l@, r@),
    {
        match (l, r) {
            (AbstractPredicate::False, _) => AbstractPredicate::False,
            (_, AbstractPredicate::False) => AbstractPredicate::False,
            (AbstractPredicate::True, other) => other,
            (other, AbstractPredicate::True) => other,
            (left, right) => AbstractPredicate::And(Box::new(left), Box::new(right)),
        }
    }

    /// Disjunction with eager simplification.
    pub fn or(l: AbstractPredicate, r: AbstractPredicate) -> (res: AbstractPredicate)
        ensures
            res@ == PredicateView::or(l@, r@),
    {
        match (l, r) {
            (AbstractPredicate::True, _) => AbstractPredicate::True,
            (_, AbstractPredicate::True) => AbstractPredicate::True,
            (AbstractPredicate::False, other) => other,
            (other, AbstractPredicate::False) => other,
            (left, right) => AbstractPredicate::Or(Box::new(left), Box::new(right)),
        }
    }

    /// Negation: terminal values flip, anything else is wrapped.
    pub fn negate(p: AbstractPredicate) -> (res: AbstractPredicate)
        ensures
            res@ == PredicateView::negate(p@),
    {
        match p {
            AbstractPredicate::True => AbstractPredicate::False,
            AbstractPredicate::False => AbstractPredicate::True,
            other => AbstractPredicate::Not(Box::new(other)),
        }
    }
}

/// The simplification law of predicate combination: `True` is the identity
/// and `False` the absorbing element of `and`; dually for `or`.
pub proof fn lemma_simplification_law(p: PredicateView)
    ensures
        PredicateView::and(PredicateView::True, p) == p,
        PredicateView::and(p, PredicateView::True) == p,
        PredicateView::and(PredicateView::False, p) == PredicateView::False,
        PredicateView::and(p, PredicateView::False) == PredicateView::False,
        PredicateView::or(PredicateView::True, p) == PredicateView::True,
        PredicateView::or(p, PredicateView::True) == PredicateView::True,
        PredicateView::or(PredicateView::False, p) == p,
        PredicateView::or(p, PredicateView::False) == p,
{
}

/// Combining simplified trees with the simplifying combinators keeps them
/// simplified, so the law holds transitively through nested trees.
pub proof fn lemma_combinators_keep_simplified(l: PredicateView, r: PredicateView)
    requires
        l.simplified(),
        r.simplified(),
    ensures
        PredicateView::and(l, r).simplified(),
        PredicateView::or(l, r).simplified(),
        PredicateView::negate(l).simplified(),
{
}

} // verus!
