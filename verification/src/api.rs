use vstd::prelude::*;

use crate::json::{obj_find, obj_lookup, JsonValue};

verus! {

/// Status categories the server is known to report.  The enumeration has
/// grown across server revisions, so any other code is kept, not rejected:
/// it degrades to `Unrecognized` instead of a decode failure.
#[derive(Debug, Clone, Copy, PartialEq, Eq, Hash, Structural)]
pub enum ApiErrorCode {
    BadRequest,
    Forbidden,
    NotFound,
    Unrecognized(u16),
}

/// The category a wire status code falls under.
pub open spec fn code_of_status(n: u16) -> ApiErrorCode {
    if n == 400 {
        ApiErrorCode::BadRequest
    } else if n == 403 {
        ApiErrorCode::Forbidden
    } else if n == 404 {
        ApiErrorCode::NotFound
    } else {
        ApiErrorCode::Unrecognized(n)
    }
}

impl ApiErrorCode {
    /// The standard HTTP status code this category maps to.
    pub open spec fn spec_http_status(self) -> u16 {
        match self {
            ApiErrorCode::BadRequest => 400,
            ApiErrorCode::Forbidden => 403,
            ApiErrorCode::NotFound => 404,
            ApiErrorCode::Unrecognized(n) => n,
        }
    }

    /// The fixed display text of this category.  Display text is a pure
    /// function of the code, independent of whatever message the wire
    /// payload carried.
    pub open spec fn spec_display_text(self) -> Seq<char> {
        match self {
            ApiErrorCode::BadRequest => "Bad Request"@,
            ApiErrorCode::Forbidden => "Forbidden"@,
            ApiErrorCode::NotFound => "Not Found"@,
            ApiErrorCode::Unrecognized(_) => "Unknown Error"@,
        }
    }

    pub fn from_status(n: u16) -> (r: ApiErrorCode)
        ensures
            r == code_of_status(n),
    {
        if n == 400 {
            ApiErrorCode::BadRequest
        } else if n == 403 {
            ApiErrorCode::Forbidden
        } else if n == 404 {
            ApiErrorCode::NotFound
        } else {
            ApiErrorCode::Unrecognized(n)
        }
    }

    pub fn http_status(self) -> (r: u16)
        ensures
            r == self.spec_http_status(),
    {
        match self {
            ApiErrorCode::BadRequest => 400,
            ApiErrorCode::Forbidden => 403,
            ApiErrorCode::NotFound => 404,
            ApiErrorCode::Unrecognized(n) => n,
        }
    }

    pub fn display_text(self) -> (r: String)
        ensures
            r@ == self.spec_display_text(),
    {
        match self {
            ApiErrorCode::BadRequest => "Bad Request".to_owned(),
            ApiErrorCode::Forbidden => "Forbidden".to_owned(),
            ApiErrorCode::NotFound => "Not Found".to_owned(),
            ApiErrorCode::Unrecognized(_) => "Unknown Error".to_owned(),
        }
    }
}

/// A structured failure reported by the server: its status category, the
/// fixed display text of that category, and the payload's `data` object.
#[derive(Debug, PartialEq)]
pub struct ApiError {
    pub code: ApiErrorCode,
    pub message: String,
    pub data: Vec<(String, JsonValue)>,
}

impl ApiError {
    /// The fixed human-readable text for this error's category.
    pub fn display_text(&self) -> (r: String)
        ensures
            r@ == self.code.spec_display_text(),
    {
        self.code.display_text()
    }
}

#[verifier::external_type_specification]
#[verifier::external_body]
pub struct ExUrlParseError(url::ParseError);

/// Everything a request can fail with: the address did not parse, the
/// transport failed, the server reported a structured failure, or the body
/// matched no expected shape.  A `Decode` failure keeps the raw body text so
/// callers can diagnose drift between their record types and the live
/// server contract.
#[derive(Debug)]
pub enum RequestError {
    MalformedAddress(url::ParseError),
    Transport(String),
    Api(ApiError),
    Decode(String),
}

impl From<ApiError> for RequestError {
    fn from(value: ApiError) -> (r: Self) {
        RequestError::Api(value)
    }
}

impl vstd::std_specs::convert::FromSpecImpl<ApiError> for RequestError {
    open spec fn obeys_from_spec() -> bool {
        true
    }

    open spec fn from_spec(t: ApiError) -> RequestError {
        RequestError::Api(t)
    }
}

impl From<url::ParseError> for RequestError {
    fn from(value: url::ParseError) -> (r: Self) {
        RequestError::MalformedAddress(value)
    }
}

impl vstd::std_specs::convert::FromSpecImpl<url::ParseError> for RequestError {
    open spec fn obeys_from_spec() -> bool {
        true
    }

    open spec fn from_spec(t: url::ParseError) -> RequestError {
        RequestError::MalformedAddress(t)
    }
}

/// The recognized failure shape: an object carrying an integer `code` in
/// status-code range, a string `message`, and an object `data`.  Extra
/// fields do not disturb the match.
pub open spec fn is_error_shape(v: JsonValue) -> bool {
    &&& v matches JsonValue::Obj(fields)
    &&& obj_lookup(fields@, "code"@) matches Some(c) && c matches JsonValue::Int(n) && 0 <= n
        <= u16::MAX
    &&& obj_lookup(fields@, "message"@) matches Some(m) && m is Str
    &&& obj_lookup(fields@, "data"@) matches Some(d) && d is Obj
}

/// The wire status code of an error-shaped document.
pub open spec fn error_code_int(v: JsonValue) -> int {
    match obj_lookup(v->Obj_0@, "code"@) {
        Some(JsonValue::Int(n)) => n as int,
        _ => 0,
    }
}

/// The fields of the `data` object of an error-shaped document.
pub open spec fn error_data_fields(v: JsonValue) -> Seq<(String, JsonValue)> {
    match obj_lookup(v->Obj_0@, "data"@) {
        Some(JsonValue::Obj(d)) => d@,
        _ => Seq::empty(),
    }
}

/// How a classified `ApiError` relates to the error-shaped document it came
/// from: the category comes from the wire `code`, the message is that
/// category's fixed display text, and `data` is carried over verbatim.
pub open spec fn classified_api_error(v: JsonValue, e: ApiError) -> bool {
    &&& e.code == code_of_status(error_code_int(v) as u16)
    &&& e.message@ == e.code.spec_display_text()
    &&& e.data@ == error_data_fields(v)
}

/// Whether `v` matches the recognized failure shape.
pub fn is_error_shape_exec(v: &JsonValue) -> (r: bool)
    ensures
        r == is_error_shape(*v),
{
    match v {
        JsonValue::Obj(fields) => {
            let code_ok = match obj_find(fields, &"code".to_owned()) {
                Some(i) => match &fields[i].1 {
                    JsonValue::Int(n) => 0 <= *n && *n <= 65535,
                    _ => false,
                },
                None => false,
            };
            let message_ok = match obj_find(fields, &"message".to_owned()) {
                Some(i) => matches!(&fields[i].1, JsonValue::Str(_)),
                None => false,
            };
            let data_ok = match obj_find(fields, &"data".to_owned()) {
                Some(i) => matches!(&fields[i].1, JsonValue::Obj(_)),
                None => false,
            };
            code_ok && message_ok && data_ok
        },
        _ => false,
    }
}

/// Turn an error-shaped document into its `ApiError`; any other document is
/// handed back unchanged.
pub fn classify_error(v: JsonValue) -> (r: Result<ApiError, JsonValue>)
    ensures
        is_error_shape(v) ==> (r matches Ok(e) && classified_api_error(v, e)),
        !is_error_shape(v) ==> (r matches Err(w) && w == v),
{
    if !is_error_shape_exec(&v) {
        return Err(v);
    }
    match v {
        JsonValue::Obj(mut fields) => {
            let code_n: i64 = match obj_find(&fields, &"code".to_owned()) {
                Some(i) => match &fields[i].1 {
                    JsonValue::Int(n) => *n,
                    _ => 0,
                },
                None => 0,
            };
            let data_fields: Vec<(String, JsonValue)> = match obj_find(&fields, &"data".to_owned())
            {
                Some(i) => {
                    let (_, data_v) = fields.remove(i);
                    match data_v {
                        JsonValue::Obj(d) => d,
                        _ => Vec::new(),
                    }
                },
                None => Vec::new(),
            };
            let code = ApiErrorCode::from_status(code_n as u16);
            let message = code.display_text();
            Ok(ApiError { code, message, data: data_fields })
        },
        other => Err(other),
    }
}

} // verus!
