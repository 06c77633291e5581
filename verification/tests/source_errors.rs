use page_hunter::{PaginationError, SourceFault};

#[test]
fn decode_faults_become_decode_errors() {
    for fault in [
        SourceFault::ColumnIndexOutOfBounds,
        SourceFault::ColumnNotFound,
        SourceFault::ColumnDecode,
        SourceFault::Decode,
    ] {
        let error = PaginationError::classified(fault, sqlx::Error::RowNotFound);
        assert!(matches!(error, PaginationError::DecodeError(sqlx::Error::RowNotFound)));
    }
}

#[test]
fn other_faults_become_data_source_errors() {
    let error = PaginationError::classified(SourceFault::Other, sqlx::Error::PoolClosed);
    assert!(matches!(error, PaginationError::DataSourceError(sqlx::Error::PoolClosed)));
}

#[test]
fn from_source_keeps_the_error() {
    let error = PaginationError::from_source(sqlx::Error::ColumnNotFound("age".to_string()));
    match error {
        PaginationError::DecodeError(sqlx::Error::ColumnNotFound(name)) => {
            assert_eq!(name, "age")
        }
        other => panic!("unexpected: {:?}", other),
    }
    let error = PaginationError::from_source(sqlx::Error::ColumnIndexOutOfBounds {
        index: 4,
        len: 2,
    });
    assert!(matches!(
        error,
        PaginationError::DecodeError(sqlx::Error::ColumnIndexOutOfBounds { index: 4, len: 2 })
    ));
    let error = PaginationError::from_source(sqlx::Error::Decode("bad".into()));
    assert!(matches!(error, PaginationError::DecodeError(sqlx::Error::Decode(_))));
    let error = PaginationError::from_source(sqlx::Error::ColumnDecode {
        index: "0".to_string(),
        source: "bad".into(),
    });
    assert!(matches!(error, PaginationError::DecodeError(sqlx::Error::ColumnDecode { .. })));
}

#[test]
fn from_source_files_the_rest_under_the_data_source() {
    let error = PaginationError::from_source(sqlx::Error::RowNotFound);
    assert!(matches!(error, PaginationError::DataSourceError(sqlx::Error::RowNotFound)));
    let error = PaginationError::from_source(sqlx::Error::PoolTimedOut);
    assert!(matches!(error, PaginationError::DataSourceError(sqlx::Error::PoolTimedOut)));
    let error = PaginationError::from_source(sqlx::Error::Protocol("broken".to_string()));
    assert!(matches!(error, PaginationError::DataSourceError(sqlx::Error::Protocol(_))));
}
