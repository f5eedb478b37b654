use vstd::prelude::*;

use crate::api::{classified_api_error, classify_error, is_error_shape, ApiError, RequestError};
use crate::client::base::{auth_header_token, joined_url, HttpMethod, PreparedRequest};
use crate::client::Client;
use crate::json::{json_of, json_text_of, json_to_text, parse_json, JsonValue};
use crate::records::operations::{build_records_path, records_path};

verus! {

/// The classified body of a create call: the created record on success, or
/// the server's structured failure.
#[derive(Debug, PartialEq)]
pub enum CreateResponse<T> {
    SuccessResponse(T),
    FailureResponse(ApiError),
}

/// The POST request that creates a record from `changeset` in `collection`.
pub fn record_request(collection: &str, changeset: &JsonValue, client: &Client) -> (r: Result<
    PreparedRequest,
    RequestError,
>)
    ensures
        (r is Ok) == (joined_url(client.base_url@, records_path(collection@)) is Some),
        r matches Ok(req) ==> ({
            &&& req.method == HttpMethod::Post
            &&& Some(req.url@) == joined_url(client.base_url@, records_path(collection@))
            &&& req.auth_token == auth_header_token(client.user)
            &&& req.content_type_json
            &&& req.body matches Some(b) && b@ == json_text_of(*changeset)
        }),
        r matches Err(e) ==> e is MalformedAddress,
{
    let path = build_records_path(collection);
    let body = json_to_text(changeset);
    client.post(path, Some(body))
}

/// Classify a create body.  The recognized failure shape is tried first;
/// any other document is the created record itself, handed back verbatim.
pub fn classify_record(v: JsonValue) -> (r: CreateResponse<JsonValue>)
    ensures
        is_error_shape(v) ==> (r matches CreateResponse::FailureResponse(e)
            && classified_api_error(v, e)),
        !is_error_shape(v) ==> r == CreateResponse::SuccessResponse(v),
{
    match classify_error(v) {
        Ok(e) => CreateResponse::FailureResponse(e),
        Err(w) => CreateResponse::SuccessResponse(w),
    }
}

/// Classify the raw body text of a create call; text that is not JSON is
/// kept verbatim in a `Decode` error.
pub fn record_response(body: String) -> (r: Result<CreateResponse<JsonValue>, RequestError>)
    ensures
        (match json_of(body@) {
            Some(v) => {
                &&& is_error_shape(v) ==> (r matches Ok(CreateResponse::FailureResponse(e))
                    && classified_api_error(v, e))
                &&& !is_error_shape(v) ==> r == Ok::<_, RequestError>(
                    CreateResponse::SuccessResponse(v),
                )
            },
            None => (r matches Err(RequestError::Decode(raw)) && raw@ == body@),
        }),
{
    match parse_json(body.as_str()) {
        Some(v) => Ok(classify_record(v)),
        None => Err(RequestError::Decode(body)),
    }
}

} // verus!
