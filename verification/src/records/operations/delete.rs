use vstd::prelude::*;

use crate::api::{classified_api_error, classify_error, is_error_shape, ApiError, RequestError};
use crate::client::base::{auth_header_token, joined_url, HttpMethod, PreparedRequest};
use crate::client::Client;
use crate::json::{json_of, parse_json, JsonValue};
use crate::records::operations::{build_record_path, record_path};

verus! {

/// The delete success shape: exactly the empty object.
pub open spec fn is_empty_obj(v: JsonValue) -> bool {
    v matches JsonValue::Obj(fields) && fields@.len() == 0
}

/// The DELETE request that removes record `id` of `collection`.
pub fn record_request(collection: &str, id: &str, client: &Client) -> (r: Result<
    PreparedRequest,
    RequestError,
>)
    ensures
        (r is Ok) == (joined_url(client.base_url@, record_path(collection@, id@)) is Some),
        r matches Ok(req) ==> ({
            &&& req.method == HttpMethod::Delete
            &&& Some(req.url@) == joined_url(client.base_url@, record_path(collection@, id@))
            &&& req.auth_token == auth_header_token(client.user)
            &&& req.content_type_json
            &&& req.body is None
            &&& req.query@ == Seq::<(String, String)>::empty()
        }),
        r matches Err(e) ==> e is MalformedAddress,
{
    client.delete(build_record_path(collection, id), None)
}

/// Classify a delete body.  The recognized failure shape is tried first,
/// then the empty-object success shape; a document matching neither is
/// reported as unclassifiable (`None`).
pub fn classify_record(v: JsonValue) -> (r: Option<Result<(), ApiError>>)
    ensures
        is_error_shape(v) ==> (r matches Some(res) && res matches Err(e) && classified_api_error(
            v,
            e,
        )),
        (!is_error_shape(v) && is_empty_obj(v)) ==> (r matches Some(res) && res is Ok),
        (!is_error_shape(v) && !is_empty_obj(v)) ==> r is None,
{
    match classify_error(v) {
        Ok(e) => Some(Err(e)),
        Err(w) => match w {
            JsonValue::Obj(fields) => if fields.len() == 0 {
                Some(Ok(()))
            } else {
                None
            },
            _ => None,
        },
    }
}

/// Classify the raw body text of a delete call: `Ok(())` for the empty
/// object, the server's failure as an `Api` error, and any other text kept
/// verbatim in a `Decode` error.
pub fn record_response(body: String) -> (r: Result<(), RequestError>)
    ensures
        (r is Ok) == (json_of(body@) matches Some(v) && !is_error_shape(v) && is_empty_obj(v)),
        (match json_of(body@) {
            Some(v) => {
                &&& is_error_shape(v) ==> (r matches Err(RequestError::Api(e))
                    && classified_api_error(v, e))
                &&& (!is_error_shape(v) && !is_empty_obj(v)) ==> (r matches Err(
                    RequestError::Decode(raw),
                ) && raw@ == body@)
            },
            None => (r matches Err(RequestError::Decode(raw)) && raw@ == body@),
        }),
{
    let parsed = match parse_json(body.as_str()) {
        Some(v) => v,
        None => {
            return Err(RequestError::Decode(body));
        },
    };
    match classify_record(parsed) {
        Some(Ok(())) => Ok(()),
        Some(Err(e)) => Err(RequestError::Api(e)),
        None => Err(RequestError::Decode(body)),
    }
}

} // verus!
