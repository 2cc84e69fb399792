use article_store::{authorize, Error, StorageFault};

#[test]
fn missing_row_is_not_found() {
    assert_eq!(Error::from_fault(StorageFault::NoRow), Error::NotFound);
}

#[test]
fn rejected_duplicate_is_conflict() {
    assert_eq!(Error::from_fault(StorageFault::UniqueViolation), Error::Conflict);
}

#[test]
fn any_other_fault_is_storage_failure() {
    assert_eq!(Error::from_fault(StorageFault::Other), Error::StorageFailure);
}

#[test]
fn author_is_authorized() {
    assert_eq!(authorize(5, 5), Ok(()));
}

#[test]
fn anyone_else_is_forbidden() {
    assert_eq!(authorize(5, 6), Err(Error::Forbidden));
    assert_eq!(authorize(0, u128::MAX), Err(Error::Forbidden));
}
