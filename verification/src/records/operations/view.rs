use vstd::prelude::*;

use crate::api::{classified_api_error, classify_error, is_error_shape, ApiError, RequestError};
use crate::client::base::{auth_header_token, joined_url, HttpMethod, PreparedRequest};
use crate::client::Client;
use crate::json::{json_of, parse_json, JsonValue};
use crate::records::operations::{build_record_path, record_path};

verus! {

/// The classified body of a view call: the requested record on success, or
/// the server's structured failure.
#[derive(Debug, PartialEq)]
pub enum ViewResponse<T> {
    ErrorResponse(ApiError),
    SuccessResponse(T),
}

/// The GET request that fetches record `id` of `collection`.
pub fn record_request(collection: &str, id: &str, client: &Client) -> (r: Result<
    PreparedRequest,
    RequestError,
>)
    ensures
        (r is Ok) == (joined_url(client.base_url@, record_path(collection@, id@)) is Some),
        r matches Ok(req) ==> ({
            &&& req.method == HttpMethod::Get
            &&& Some(req.url@) == joined_url(client.base_url@, record_path(collection@, id@))
            &&& req.auth_token == auth_header_token(client.user)
            &&& !req.content_type_json
            &&& req.body is None
            &&& req.query@ == Seq::<(String, String)>::empty()
        }),
        r matches Err(e) ==> e is MalformedAddress,
{
    client.get(build_record_path(collection, id).as_str(), None)
}

/// Classify a view body.  The recognized failure shape is tried first; any
/// other document is the requested record itself, handed back verbatim.
pub fn classify_record(v: JsonValue) -> (r: ViewResponse<JsonValue>)
    ensures
        is_error_shape(v) ==> (r matches ViewResponse::ErrorResponse(e)
            && classified_api_error(v, e)),
        !is_error_shape(v) ==> r == ViewResponse::SuccessResponse(v),
{
    match classify_error(v) {
        Ok(e) => ViewResponse::ErrorResponse(e),
        Err(w) => ViewResponse::SuccessResponse(w),
    }
}

/// Classify the raw body text of a view call; text that is not JSON is
/// kept verbatim in a `Decode` error.
pub fn record_response(body: String) -> (r: Result<ViewResponse<JsonValue>, RequestError>)
    ensures
        (match json_of(body@) {
            Some(v) => {
                &&& is_error_shape(v) ==> (r matches Ok(ViewResponse::ErrorResponse(e))
                    && classified_api_error(v, e))
                &&& !is_error_shape(v) ==> r == Ok::<_, RequestError>(
                    ViewResponse::SuccessResponse(v),
                )
            },
            None => (r matches Err(RequestError::Decode(raw)) && raw@ == body@),
        }),
{
    match parse_json(body.as_str()) {
        Some(v) => Ok(classify_record(v)),
        None => Err(RequestError::Decode(body)),
    }
}

} // verus!
