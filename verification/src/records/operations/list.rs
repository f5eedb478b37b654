use vstd::prelude::*;

use crate::api::{classified_api_error, classify_error, is_error_shape, ApiError, RequestError};
use crate::client::base::{auth_header_token, joined_url, HttpMethod, PreparedRequest};
use crate::client::Client;
use crate::json::{json_of, obj_find, obj_lookup, parse_json, JsonValue};
use crate::records::operations::{build_records_path, records_path};

verus! {

/// One page of a list call.  No cross-page state is kept: continuing the
/// pagination is the caller's concern.
#[derive(Debug, PartialEq)]
pub struct PaginatedRecordList<T> {
    pub page: u32,
    pub per_page: u32,
    pub total_items: u32,
    pub total_pages: u32,
    pub items: Vec<T>,
}

/// The classified body of a list call: one page of records on success, or
/// the server's structured failure.
#[derive(Debug, PartialEq)]
pub enum ListResponse<T> {
    ErrorResponse(ApiError),
    SuccessResponse(PaginatedRecordList<T>),
}

/// The list success shape: an object whose `page`, `perPage`, `totalItems`
/// and `totalPages` are integers in `u32` range and whose `items` is an
/// array.  Extra fields do not disturb the match.
pub open spec fn is_list_shape(v: JsonValue) -> bool {
    &&& v matches JsonValue::Obj(fields)
    &&& obj_lookup(fields@, "page"@) matches Some(a) && a matches JsonValue::Int(n1) && 0 <= n1
        <= u32::MAX
    &&& obj_lookup(fields@, "perPage"@) matches Some(b) && b matches JsonValue::Int(n2) && 0 <= n2
        <= u32::MAX
    &&& obj_lookup(fields@, "totalItems"@) matches Some(c) && c matches JsonValue::Int(n3) && 0
        <= n3 <= u32::MAX
    &&& obj_lookup(fields@, "totalPages"@) matches Some(d) && d matches JsonValue::Int(n4) && 0
        <= n4 <= u32::MAX
    &&& obj_lookup(fields@, "items"@) matches Some(it) && it is Arr
}

/// The value of an integer field of a list-shaped document.
pub open spec fn list_int_field(v: JsonValue, key: Seq<char>) -> int {
    match obj_lookup(v->Obj_0@, key) {
        Some(JsonValue::Int(n)) => n as int,
        _ => 0,
    }
}

/// The records of a list-shaped document, in the order the page carries
/// them.
pub open spec fn list_items(v: JsonValue) -> Seq<JsonValue> {
    match obj_lookup(v->Obj_0@, "items"@) {
        Some(JsonValue::Arr(xs)) => xs@,
        _ => Seq::empty(),
    }
}

/// The GET request that lists the records of `collection`.
pub fn records_request(collection: &str, client: &Client) -> (r: Result<
    PreparedRequest,
    RequestError,
>)
    ensures
        (r is Ok) == (joined_url(client.base_url@, records_path(collection@)) is Some),
        r matches Ok(req) ==> ({
            &&& req.method == HttpMethod::Get
            &&& Some(req.url@) == joined_url(client.base_url@, records_path(collection@))
            &&& req.auth_token == auth_header_token(client.user)
            &&& !req.content_type_json
            &&& req.body is None
            &&& req.query@ == Seq::<(String, String)>::empty()
        }),
        r matches Err(e) ==> e is MalformedAddress,
{
    client.get(build_records_path(collection).as_str(), None)
}

/// Read an integer field that must fit in `u32`.
fn read_u32_field(fields: &Vec<(String, JsonValue)>, key: &String) -> (r: Option<u32>)
    ensures
        match r {
            Some(n) => obj_lookup(fields@, key@) matches Some(c) && c matches JsonValue::Int(m)
                && 0 <= m <= u32::MAX && n == m,
            None => !(obj_lookup(fields@, key@) matches Some(c) && c matches JsonValue::Int(m)
                && 0 <= m <= u32::MAX),
        },
{
    match obj_find(fields, key) {
        Some(i) => match &fields[i].1 {
            JsonValue::Int(n) => if 0 <= *n && *n <= u32::MAX as i64 {
                Some(*n as u32)
            } else {
                None
            },
            _ => None,
        },
        None => None,
    }
}

/// Classify a list body.  The recognized failure shape is tried first, then
/// the paginated success shape; a document matching neither is reported as
/// unclassifiable (`None`).
pub fn classify_records(v: JsonValue) -> (r: Option<ListResponse<JsonValue>>)
    ensures
        is_error_shape(v) ==> (r matches Some(ListResponse::ErrorResponse(e))
            && classified_api_error(v, e)),
        (!is_error_shape(v) && is_list_shape(v)) ==> (r matches Some(
            ListResponse::SuccessResponse(p),
        ) && p.page == list_int_field(v, "page"@) && p.per_page == list_int_field(v, "perPage"@)
            && p.total_items == list_int_field(v, "totalItems"@) && p.total_pages
            == list_int_field(v, "totalPages"@) && p.items@ == list_items(v)),
        (!is_error_shape(v) && !is_list_shape(v)) ==> r is None,
{
    match classify_error(v) {
        Ok(e) => Some(ListResponse::ErrorResponse(e)),
        Err(w) => match w {
            JsonValue::Obj(mut fields) => {
                let page = read_u32_field(&fields, &"page".to_owned());
                let per_page = read_u32_field(&fields, &"perPage".to_owned());
                let total_items = read_u32_field(&fields, &"totalItems".to_owned());
                let total_pages = read_u32_field(&fields, &"totalPages".to_owned());
                match (page, per_page, total_items, total_pages) {
                    (Some(page), Some(per_page), Some(total_items), Some(total_pages)) => {
                        match obj_find(&fields, &"items".to_owned()) {
                            Some(i) => {
                                let found_arr = matches!(&fields[i].1, JsonValue::Arr(_));
                                if found_arr {
                                    let (_, av) = fields.remove(i);
                                    match av {
                                        JsonValue::Arr(items) => Some(
                                            ListResponse::SuccessResponse(
                                                PaginatedRecordList {
                                                    page,
                                                    per_page,
                                                    total_items,
                                                    total_pages,
                                                    items,
                                                },
                                            ),
                                        ),
                                        _ => None,
                                    }
                                } else {
                                    None
                                }
                            },
                            None => None,
                        }
                    },
                    _ => None,
                }
            },
            _ => None,
        },
    }
}

/// Classify the raw body text of a list call; text that is not JSON, or
/// JSON matching neither shape, is kept verbatim in a `Decode` error.
pub fn records_response(body: String) -> (r: Result<ListResponse<JsonValue>, RequestError>)
    ensures
        (match json_of(body@) {
            Some(v) => {
                &&& is_error_shape(v) ==> (r matches Ok(ListResponse::ErrorResponse(e))
                    && classified_api_error(v, e))
                &&& (!is_error_shape(v) && is_list_shape(v)) ==> (r matches Ok(
                    ListResponse::SuccessResponse(p),
                ) && p.page == list_int_field(v, "page"@) && p.per_page == list_int_field(
                    v,
                    "perPage"@,
                ) && p.total_items == list_int_field(v, "totalItems"@) && p.total_pages
                    == list_int_field(v, "totalPages"@) && p.items@ == list_items(v))
                &&& (!is_error_shape(v) && !is_list_shape(v)) ==> (r matches Err(
                    RequestError::Decode(raw),
                ) && raw@ == body@)
            },
            None => (r matches Err(RequestError::Decode(raw)) && raw@ == body@),
        }),
{
    let parsed = match parse_json(body.as_str()) {
        Some(v) => v,
        None => {
            return Err(RequestError::Decode(body));
        },
    };
    match classify_records(parsed) {
        Some(resp) => Ok(resp),
        None => Err(RequestError::Decode(body)),
    }
}

} // verus!
