//! Response materialization: every response is classified into exactly one
//! of the four outcome classes.

use pinenut::error::ReqwestFailure;
use pinenut::http::try_pinecone_request_json;
use pinenut::http::try_pinecone_request_text;
use pinenut::http::JsonBody;
use pinenut::models::PineconeErrorResponse;
use pinenut::models::UpsertResponse;
use pinenut::Error;

fn decode_failure() -> ReqwestFailure {
    ReqwestFailure { message: "expected value at line 1 column 1".to_string() }
}

fn error_body() -> PineconeErrorResponse {
    PineconeErrorResponse {
        code: 3,
        message: "index not found".to_string(),
        details: vec!["{\"reason\":\"missing\"}".to_string()],
    }
}

#[test]
fn success_status_with_decoded_body_is_the_result() {
    let body = JsonBody::Expected(Ok(UpsertResponse { upserted_count: 7 }));
    let r = try_pinecone_request_json(200, 200, body);
    assert_eq!(r, Ok(UpsertResponse { upserted_count: 7 }));
}

#[test]
fn success_status_with_undecodable_body_is_a_decode_error() {
    let body: JsonBody<UpsertResponse> = JsonBody::Expected(Err(decode_failure()));
    let r = try_pinecone_request_json(200, 200, body);
    match r {
        Err(Error::ReqwestResponseError(code, f)) => {
            assert_eq!(code, 200);
            assert_eq!(f, decode_failure());
        },
        other => panic!("expected a decode error carrying the status, got {:?}", other),
    }
}

#[test]
fn error_status_with_parsed_error_body_is_the_structured_error() {
    let body: JsonBody<UpsertResponse> = JsonBody::ErrorSchema(Ok(error_body()));
    let r = try_pinecone_request_json(404, 200, body);
    match r {
        Err(Error::PineconeResponseError(code, parsed, raw)) => {
            assert_eq!(code, 404);
            assert_eq!(parsed, Some(error_body()));
            assert_eq!(raw, None);
        },
        other => panic!("expected the structured service error, got {:?}", other),
    }
}

#[test]
fn error_status_with_unparsed_error_body_is_reported_not_swallowed() {
    let body: JsonBody<UpsertResponse> = JsonBody::ErrorSchema(Err(decode_failure()));
    let r = try_pinecone_request_json(409, 200, body);
    match r {
        Err(Error::ReqwestResponseError(code, f)) => {
            assert_eq!(code, 409);
            assert_eq!(f, decode_failure());
        },
        other => panic!("expected a decode error carrying the status, got {:?}", other),
    }
}

#[test]
fn text_success_is_the_body_text() {
    let r = try_pinecone_request_text(202, 202, Ok("accepted".to_string()));
    assert_eq!(r, Ok("accepted".to_string()));
}

#[test]
fn text_error_status_carries_the_raw_text() {
    let r = try_pinecone_request_text(400, 202, Ok("bad request".to_string()));
    match r {
        Err(Error::PineconeResponseError(code, parsed, raw)) => {
            assert_eq!(code, 400);
            assert_eq!(parsed, None);
            assert_eq!(raw, Some("bad request".to_string()));
        },
        other => panic!("expected the unstructured service error, got {:?}", other),
    }
}

#[test]
fn text_unreadable_body_is_a_decode_error_on_either_status() {
    let ok_status = try_pinecone_request_text(202, 202, Err(decode_failure()));
    assert!(matches!(ok_status, Err(Error::ReqwestResponseError(202, _))));
    let err_status = try_pinecone_request_text(500, 202, Err(decode_failure()));
    assert!(matches!(err_status, Err(Error::ReqwestResponseError(500, _))));
}
