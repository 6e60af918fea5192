use product_catalog::domain::StoreError;
use product_catalog::response::{
    error_response, success_response, ApiError, BaseApiResponse, ErrorDetails,
};

#[test]
fn status_codes_map_each_error_kind() {
    assert_eq!(ApiError::NotFound.status_code(), 404);
    assert_eq!(ApiError::InternalServerError.status_code(), 500);
    assert_eq!(ApiError::BadRequest.status_code(), 400);
    assert_eq!(ApiError::Unauthorized.status_code(), 401);
    assert_eq!(ApiError::Forbidden.status_code(), 403);
}

#[test]
fn messages_name_each_error_kind() {
    assert_eq!(ApiError::NotFound.message(), "Not Found");
    assert_eq!(ApiError::InternalServerError.message(), "Internal Server Error");
    assert_eq!(ApiError::BadRequest.message(), "Bad Request");
    assert_eq!(ApiError::Unauthorized.message(), "Unauthorized");
    assert_eq!(ApiError::Forbidden.message(), "Forbidden");
}

#[test]
fn to_response_shapes_an_error_envelope() {
    let (status, body): (u16, BaseApiResponse<(), ErrorDetails>) = ApiError::NotFound.to_response();
    assert_eq!(status, 404);
    assert_eq!(body.status, "error");
    assert_eq!(body.message, "Not Found");
    assert!(body.data.is_none());
    let details = body.errors.expect("an error response carries details");
    assert_eq!(details.code, "Not Found");
    assert_eq!(details.message, "Not Found");
}

#[test]
fn new_fills_every_envelope_field() {
    let body: BaseApiResponse<i32, ErrorDetails> =
        BaseApiResponse::new("success", "all good", Some(7), None);
    assert_eq!(body.status, "success");
    assert_eq!(body.message, "all good");
    assert_eq!(body.data, Some(7));
    assert!(body.errors.is_none());
    let (code, body) = body.with_status_code(201);
    assert_eq!(code, 201);
    assert_eq!(body.data, Some(7));
}

#[test]
fn success_builder_carries_data_never_errors() {
    let (status, body) = success_response("Categories retrieved successfully!", Some(vec![1, 2]), 200);
    let body: BaseApiResponse<Vec<i32>, ErrorDetails> = body;
    assert_eq!(status, 200);
    assert_eq!(body.status, "success");
    assert_eq!(body.message, "Categories retrieved successfully!");
    assert_eq!(body.data, Some(vec![1, 2]));
    assert!(body.errors.is_none());
}

#[test]
fn error_builder_carries_errors_never_data() {
    let (status, body): (u16, BaseApiResponse<i32, ErrorDetails>) = error_response(
        "Failed to fetch category",
        "NOT_FOUND",
        StoreError::NotFound.message(),
        404,
    );
    assert_eq!(status, 404);
    assert_eq!(body.status, "error");
    assert_eq!(body.message, "Failed to fetch category");
    assert!(body.data.is_none());
    let details = body.errors.expect("an error response carries details");
    assert_eq!(details.code, "NOT_FOUND");
    assert_eq!(details.message, "no matching row was found");
}

#[test]
fn store_errors_surface_as_api_errors() {
    assert_eq!(StoreError::NotFound.to_api_error(), ApiError::NotFound);
    assert_eq!(StoreError::Conflict.to_api_error(), ApiError::BadRequest);
    assert_eq!(StoreError::Conflict.message(), "a key constraint was violated");
}
