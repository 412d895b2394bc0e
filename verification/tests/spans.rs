use http::StatusCode;
use otel_worker::spans::{
    span_delete_handler, span_get_handler, span_list_handler, ApiServerError, CommonError, DbError,
    SpanDeleteError, SpanGetError, SpanListError, NOT_FOUND, NO_CONTENT,
};

#[test]
fn the_statuses_are_those_of_http() {
    assert_eq!(NO_CONTENT, StatusCode::NO_CONTENT.as_u16());
    assert_eq!(NOT_FOUND, StatusCode::NOT_FOUND.as_u16());
}

#[test]
fn a_span_that_is_stored_is_answered_with() {
    assert_eq!(span_get_handler(Ok("span")), Ok("span"));
}

#[test]
fn a_span_that_is_not_there_is_not_found() {
    let error = span_get_handler::<()>(Err(DbError::NotFound)).unwrap_err();
    assert_eq!(error, ApiServerError::ServiceError(SpanGetError::SpanNotFound));
    assert_eq!(SpanGetError::SpanNotFound.status_code(), 404);
    assert_eq!(SpanGetError::SpanNotFound.error(), "spanNotFound");
    assert_eq!(SpanGetError::SpanNotFound.message(), "Span not found");
}

#[test]
fn another_failure_to_get_a_span_is_an_internal_one() {
    let error = span_get_handler::<()>(Err(DbError::Internal)).unwrap_err();
    assert_eq!(error, ApiServerError::CommonError(CommonError::InternalServerError));
}

#[test]
fn the_spans_that_are_stored_are_answered_with_in_their_order() {
    assert_eq!(span_list_handler(Ok(vec![2, 1, 2])), Ok(vec![2, 1, 2]));
    assert_eq!(span_list_handler(Ok(Vec::<u8>::new())), Ok(Vec::new()));
}

#[test]
fn no_failure_to_list_spans_is_not_found() {
    for failure in [DbError::NotFound, DbError::Internal] {
        let error = span_list_handler::<()>(Err(failure)).unwrap_err();
        assert_eq!(error, ApiServerError::CommonError(CommonError::InternalServerError));
        let error: ApiServerError<SpanListError> = failure.into();
        assert_eq!(error, ApiServerError::CommonError(CommonError::InternalServerError));
    }
}

#[test]
fn a_span_that_was_deleted_leaves_nothing_to_say() {
    assert_eq!(span_delete_handler(Ok(())), Ok(204));
}

#[test]
fn no_failure_to_delete_a_span_is_not_found() {
    for failure in [DbError::NotFound, DbError::Internal] {
        let error = span_delete_handler(Err(failure)).unwrap_err();
        assert_eq!(error, ApiServerError::CommonError(CommonError::InternalServerError));
        let error: ApiServerError<SpanDeleteError> = failure.into();
        assert_eq!(error, ApiServerError::CommonError(CommonError::InternalServerError));
    }
}
