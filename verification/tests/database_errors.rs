use sqlgraph::error::{DatabaseError, WithContext};

#[test]
fn with_context_wraps_an_error() {
    let err = DatabaseError::Delegate("connection reset".to_string());
    let wrapped = err.with_context("while inserting into concerts".to_string());
    assert_eq!(
        wrapped,
        DatabaseError::WithContext(
            "while inserting into concerts".to_string(),
            Box::new(DatabaseError::Delegate("connection reset".to_string())),
        )
    );
}

#[test]
fn with_context_on_results_wraps_only_the_error_case() {
    let ok: Result<u64, DatabaseError> = Ok(7);
    assert_eq!(ok.with_context("step one".to_string()), Ok(7));

    let err: Result<u64, DatabaseError> =
        Err(DatabaseError::Generic("bad step reference".to_string()));
    assert_eq!(
        err.with_context("step two".to_string()),
        Err(DatabaseError::WithContext(
            "step two".to_string(),
            Box::new(DatabaseError::Generic("bad step reference".to_string())),
        ))
    );
}

#[test]
fn context_layers_nest() {
    let err = DatabaseError::Delegate("constraint violation".to_string())
        .with_context("inserting child rows".to_string())
        .with_context("running the transaction".to_string());
    match err {
        DatabaseError::WithContext(outer, inner) => {
            assert_eq!(outer, "running the transaction");
            match *inner {
                DatabaseError::WithContext(mid, _) => assert_eq!(mid, "inserting child rows"),
                other => panic!("unexpected {:?}", other),
            }
        },
        other => panic!("unexpected {:?}", other),
    }
}
