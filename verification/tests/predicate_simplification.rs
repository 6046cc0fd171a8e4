use sqlgraph::json::JsonValue;
use sqlgraph::predicate::{AbstractPredicate, ColumnPath};
use sqlgraph::schema::{ColumnId, ColumnPathLink};

fn residual() -> AbstractPredicate {
    AbstractPredicate::Eq(
        ColumnPath::Physical(vec![ColumnPathLink {
            self_column_id: ColumnId { table_id: 0, column_index: 0 },
            linked_column_id: None,
        }]),
        ColumnPath::Literal(JsonValue::Bool(true)),
    )
}

#[test]
fn and_true_is_identity() {
    assert_eq!(AbstractPredicate::and(AbstractPredicate::True, residual()), residual());
    assert_eq!(AbstractPredicate::and(residual(), AbstractPredicate::True), residual());
}

#[test]
fn and_false_wins() {
    assert_eq!(
        AbstractPredicate::and(AbstractPredicate::False, residual()),
        AbstractPredicate::False
    );
    assert_eq!(
        AbstractPredicate::and(residual(), AbstractPredicate::False),
        AbstractPredicate::False
    );
}

#[test]
fn or_true_wins() {
    assert_eq!(
        AbstractPredicate::or(AbstractPredicate::True, residual()),
        AbstractPredicate::True
    );
    assert_eq!(
        AbstractPredicate::or(residual(), AbstractPredicate::True),
        AbstractPredicate::True
    );
}

#[test]
fn or_false_is_identity() {
    assert_eq!(AbstractPredicate::or(AbstractPredicate::False, residual()), residual());
    assert_eq!(AbstractPredicate::or(residual(), AbstractPredicate::False), residual());
}

#[test]
fn nested_combination_stays_simplified() {
    // Building with the combinators never leaves a True/False operand
    // inside the tree.
    let left = AbstractPredicate::and(AbstractPredicate::True, residual());
    let right = AbstractPredicate::or(residual(), AbstractPredicate::False);
    let combined = AbstractPredicate::and(left, right);
    assert_eq!(
        combined,
        AbstractPredicate::And(Box::new(residual()), Box::new(residual()))
    );
}

#[test]
fn negate_flips_terminals_and_wraps_residuals() {
    assert_eq!(AbstractPredicate::negate(AbstractPredicate::True), AbstractPredicate::False);
    assert_eq!(AbstractPredicate::negate(AbstractPredicate::False), AbstractPredicate::True);
    assert_eq!(
        AbstractPredicate::negate(residual()),
        AbstractPredicate::Not(Box::new(residual()))
    );
}
