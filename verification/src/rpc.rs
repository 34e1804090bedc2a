//! JSON-RPC 2.0: requests, replies, errors and notifications.

use crate::json::{field, owned_tree_of, text_of, tree_of, Json, JsonNumber, JsonObject, JsonTree};
use crate::text::{adjoin, is_blank, lemma_trimmed_blank, same_text, trim, trimmed};
use vstd::prelude::*;
use vstd::string::*;

verus! {

pub const JSONRPC_VERSION: &'static str = "2.0";

pub const JSONRPC_PARSE_ERROR: i64 = -32700;

pub const JSONRPC_INVALID_REQUEST: i64 = -32600;

pub const JSONRPC_METHOD_NOT_FOUND: i64 = -32601;

pub const JSONRPC_INVALID_PARAMS: i64 = -32602;

pub const JSONRPC_INTERNAL_ERROR: i64 = -32603;

pub const JSONRPC_SESSION_NOT_FOUND: i64 = -32004;

/// A request, or a notification if `id` is missing.
#[derive(Debug)]
pub struct JsonRpcRequest {
    pub id: Option<Json>,
    pub method: String,
    pub params: Option<Json>,
}

/// What a request says.
pub struct RequestTree {
    pub id: Option<JsonTree>,
    pub method: Seq<char>,
    pub params: Option<JsonTree>,
}

impl View for JsonRpcRequest {
    type V = RequestTree;

    open spec fn view(&self) -> RequestTree {
        RequestTree {
            id: owned_tree_of(self.id),
            method: self.method@,
            params: owned_tree_of(self.params),
        }
    }
}

/// The error member of a reply.
#[derive(Debug)]
pub struct JsonRpcErrorObject {
    pub code: i64,
    pub message: String,
    pub data: Option<Json>,
}

/// What an error says.
pub struct ErrorTree {
    pub code: int,
    pub message: Seq<char>,
    pub data: Option<JsonTree>,
}

impl View for JsonRpcErrorObject {
    type V = ErrorTree;

    open spec fn view(&self) -> ErrorTree {
        ErrorTree {
            code: self.code as int,
            message: self.message@,
            data: owned_tree_of(self.data),
        }
    }
}

/// The error with a code and a message, and without data.
pub open spec fn plain_error(code: i64, message: Seq<char>) -> ErrorTree {
    ErrorTree { code: code as int, message, data: None }
}

/// The data of an error that came from outside: its description.
pub open spec fn detail_tree(detail: Seq<char>) -> JsonTree {
    JsonTree::Object(map!["detail"@ => JsonTree::Text(detail)])
}

/// The error with a code and a message, and with a description as its data.
pub open spec fn detailed_error(code: i64, message: Seq<char>, detail: Seq<char>) -> ErrorTree {
    ErrorTree { code: code as int, message, data: Some(detail_tree(detail)) }
}

/// The object `{"detail": ...}`.
pub fn detail_json(detail: String) -> (r: Json)
    ensures
        r@ == detail_tree(detail@),
{
    let mut object = JsonObject::new();
    object.insert("detail", Json::Text(detail));
    Json::Object(object)
}

impl JsonRpcErrorObject {
    /// An error without data.
    pub fn new(code: i64, message: String) -> (r: Self)
        ensures
            r@ == plain_error(code, message@),
    {
        JsonRpcErrorObject { code, message, data: None }
    }

    /// An error with data.
    pub fn with_data(code: i64, message: String, data: Json) -> (r: Self)
        ensures
            r@ == (ErrorTree { code: code as int, message: message@, data: Some(data@) }),
    {
        JsonRpcErrorObject { code, message, data: Some(data) }
    }
}

/// Tells whether a value may be the id of a request.
pub open spec fn is_id(value: JsonTree) -> bool {
    value is Text || value is Integer || value is Fraction || value is Null
}

/// Tells whether a value may be the id of a request.
pub fn is_valid_jsonrpc_id(value: &Json) -> (r: bool)
    ensures
        r == is_id(value@),
{
    match value {
        Json::Text(_) => true,
        Json::Number(_) => true,
        Json::Null => true,
        _ => false,
    }
}

/// The request that a value stands for, or why it stands for none.
pub open spec fn request_of(value: JsonTree) -> Result<RequestTree, ErrorTree> {
    let invalid = |message: Seq<char>| plain_error(JSONRPC_INVALID_REQUEST, message);
    let version = text_of(field(value, "jsonrpc"@));
    let id = field(value, "id"@);
    let method = text_of(field(value, "method"@));
    if !(value is Object) {
        Err(invalid("Request must be a JSON object"@))
    } else if version is None {
        Err(invalid("Missing jsonrpc version"@))
    } else if version->0 != JSONRPC_VERSION@ {
        Err(invalid("Unsupported jsonrpc version: "@ + version->0))
    } else if id is Some && !is_id(id->0) {
        Err(invalid("id must be a string, number, or null"@))
    } else if method is None || trimmed(method->0).len() == 0 {
        Err(invalid("method must be a non-empty string"@))
    } else {
        Ok(RequestTree { id, method: trimmed(method->0), params: field(value, "params"@) })
    }
}

fn cloned(value: Option<&Json>) -> (r: Option<Json>)
    ensures
        owned_tree_of(r) == tree_of(value),
{
    match value {
        Some(inner) => Some(inner.clone()),
        None => None,
    }
}

fn invalid_request(message: String) -> (r: JsonRpcErrorObject)
    ensures
        r@ == plain_error(JSONRPC_INVALID_REQUEST, message@),
{
    JsonRpcErrorObject::new(JSONRPC_INVALID_REQUEST, message)
}

/// Reads a request.
pub fn parse_json_rpc_request(value: Json) -> (r: Result<JsonRpcRequest, JsonRpcErrorObject>)
    ensures
        match r {
            Ok(request) => request_of(value@) == Ok::<RequestTree, ErrorTree>(request@),
            Err(error) => request_of(value@) == Err::<RequestTree, ErrorTree>(error@),
        },
{
    let object = match &value {
        Json::Object(object) => object,
        _ => {
            return Err(invalid_request("Request must be a JSON object".to_owned()));
        },
    };
    let version = match object.get("jsonrpc") {
        Some(version) => version.as_str(),
        None => None,
    };
    match version {
        None => {
            return Err(invalid_request("Missing jsonrpc version".to_owned()));
        },
        Some(jsonrpc) => {
            if !same_text(jsonrpc, JSONRPC_VERSION) {
                return Err(invalid_request(adjoin("Unsupported jsonrpc version: ", jsonrpc)));
            }
        },
    }
    let id = object.get("id");
    if let Some(id) = id {
        if !is_valid_jsonrpc_id(id) {
            return Err(invalid_request("id must be a string, number, or null".to_owned()));
        }
    }
    let method = match object.get("method") {
        Some(method) => method.as_str(),
        None => None,
    };
    if let Some(method) = method {
        let method = trim(method);
        if !method.is_empty() {
            return Ok(
                JsonRpcRequest {
                    id: cloned(id),
                    method: method.to_owned(),
                    params: cloned(object.get("params")),
                },
            );
        }
    }
    Err(invalid_request("method must be a non-empty string".to_owned()))
}

/// The reply that carries a result.
pub open spec fn result_reply(id: JsonTree, result: JsonTree) -> JsonTree {
    JsonTree::Object(
        map![
            "jsonrpc"@ => JsonTree::Text(JSONRPC_VERSION@),
            "id"@ => id,
            "result"@ => result,
        ],
    )
}

/// An error as a JSON value: the member `data` is left out if there is none.
pub open spec fn error_tree(error: ErrorTree) -> JsonTree {
    let fields = map![
        "code"@ => JsonTree::Integer(error.code),
        "message"@ => JsonTree::Text(error.message),
    ];
    match error.data {
        Some(data) => JsonTree::Object(fields.insert("data"@, data)),
        None => JsonTree::Object(fields),
    }
}

/// The reply that carries an error.
pub open spec fn error_reply(id: JsonTree, error: ErrorTree) -> JsonTree {
    JsonTree::Object(
        map![
            "jsonrpc"@ => JsonTree::Text(JSONRPC_VERSION@),
            "id"@ => id,
            "error"@ => error_tree(error),
        ],
    )
}

/// A notification.
pub open spec fn notification_tree(method: Seq<char>, params: JsonTree) -> JsonTree {
    JsonTree::Object(
        map![
            "jsonrpc"@ => JsonTree::Text(JSONRPC_VERSION@),
            "method"@ => JsonTree::Text(method),
            "params"@ => params,
        ],
    )
}

/// Builds the reply that carries a result.
pub fn json_rpc_result(id: Json, result: Json) -> (r: Json)
    ensures
        r@ == result_reply(id@, result@),
{
    let mut reply = JsonObject::new();
    reply.insert("jsonrpc", Json::Text(JSONRPC_VERSION.to_owned()));
    reply.insert("id", id);
    reply.insert("result", result);
    Json::Object(reply)
}

/// Builds the JSON value of an error.
pub fn error_json(error: JsonRpcErrorObject) -> (r: Json)
    ensures
        r@ == error_tree(error@),
{
    let mut object = JsonObject::new();
    object.insert("code", Json::Number(JsonNumber::Signed(error.code)));
    object.insert("message", Json::Text(error.message));
    if let Some(data) = error.data {
        object.insert("data", data);
    }
    Json::Object(object)
}

/// Builds the reply that carries an error.
pub fn json_rpc_error(id: Json, error: JsonRpcErrorObject) -> (r: Json)
    ensures
        r@ == error_reply(id@, error@),
{
    let mut reply = JsonObject::new();
    reply.insert("jsonrpc", Json::Text(JSONRPC_VERSION.to_owned()));
    reply.insert("id", id);
    reply.insert("error", error_json(error));
    Json::Object(reply)
}

/// Builds a notification.
pub fn notification(method: &str, params: Json) -> (r: Json)
    ensures
        r@ == notification_tree(method@, params@),
{
    let mut payload = JsonObject::new();
    payload.insert("jsonrpc", Json::Text(JSONRPC_VERSION.to_owned()));
    payload.insert("method", Json::Text(method.to_owned()));
    payload.insert("params", params);
    Json::Object(payload)
}

/// The version and the error codes are those of JSON-RPC 2.0, and that for a
/// missing session stands in the range that it leaves to servers.
pub proof fn law_codes()
    ensures
        JSONRPC_VERSION@ == "2.0"@,
        JSONRPC_PARSE_ERROR == -32700,
        JSONRPC_INVALID_REQUEST == -32600,
        JSONRPC_METHOD_NOT_FOUND == -32601,
        JSONRPC_INVALID_PARAMS == -32602,
        JSONRPC_INTERNAL_ERROR == -32603,
        JSONRPC_SESSION_NOT_FOUND == -32004,
{
}

/// A request that is read says what the value says: its id and its parameters
/// are the members of the value, unchanged, missing where they are missing; and
/// its method is the member of the value without the white space around it.
pub proof fn law_request_members(value: JsonTree)
    ensures
        request_of(value) matches Ok(request) ==> {
            &&& value is Object
            &&& field(value, "jsonrpc"@) == Some(JsonTree::Text("2.0"@))
            &&& request.id == field(value, "id"@)
            &&& request.params == field(value, "params"@)
            &&& field(value, "method"@) matches Some(JsonTree::Text(raw)) && !is_blank(raw)
                && request.method == trimmed(raw)
            &&& request.id matches Some(id) ==> id is Text || id is Integer || id is Fraction
                || id is Null
        },
{
    if let Some(JsonTree::Text(raw)) = field(value, "method"@) {
        lemma_trimmed_blank(raw);
    }
}

/// An object with the right version, a method, and an id that is a text, a
/// number or `null`, or none at all, is a request.
pub proof fn law_request_read(value: JsonTree, method: Seq<char>)
    requires
        value is Object,
        field(value, "jsonrpc"@) == Some(JsonTree::Text("2.0"@)),
        field(value, "id"@) matches Some(id) ==> id is Text || id is Integer || id is Fraction
            || id is Null,
        field(value, "method"@) == Some(JsonTree::Text(method)),
        !is_blank(method),
    ensures
        request_of(value) is Ok,
{
    lemma_trimmed_blank(method);
}

/// Tells whether a value has an id that no request may have.
pub open spec fn has_wrong_id(value: JsonTree) -> bool {
    field(value, "id"@) matches Some(id) && (id is Bool || id is Array || id is Object)
}

/// Tells whether a value names a method.
pub open spec fn has_method(value: JsonTree) -> bool {
    field(value, "method"@) matches Some(JsonTree::Text(raw)) && !is_blank(raw)
}

/// A value that is no request is refused for the first of these that holds: it
/// is no object, has no version or another one, an id that is none, or no method.
pub proof fn law_request_refused(value: JsonTree)
    ensures
        request_of(value) matches Err(error) ==> error.code == -32600 && error.data is None,
        !(value is Object) ==> {
            request_of(value) matches Err(error) && error.message == "Request must be a JSON object"@
        },
        value is Object && !(field(value, "jsonrpc"@) matches Some(version) && version is Text) ==> {
            request_of(value) matches Err(error) && error.message == "Missing jsonrpc version"@
        },
        field(value, "jsonrpc"@) matches Some(JsonTree::Text(version)) ==> {
            &&& version != "2.0"@ ==> {
                request_of(value) matches Err(error) && error.message
                    == "Unsupported jsonrpc version: "@ + version
            }
            &&& version == "2.0"@ && has_wrong_id(value) ==> {
                request_of(value) matches Err(error) && error.message
                    == "id must be a string, number, or null"@
            }
            &&& version == "2.0"@ && !has_wrong_id(value) && !has_method(value) ==> {
                request_of(value) matches Err(error) && error.message
                    == "method must be a non-empty string"@
            }
        },
{
    if let Some(JsonTree::Text(raw)) = field(value, "method"@) {
        lemma_trimmed_blank(raw);
    }
}

/// An error as a JSON value has the code, the message and the data of the error,
/// and nothing else; without data the member is left out.
pub proof fn law_error_members(error: ErrorTree)
    ensures
        field(error_tree(error), "code"@) == Some(JsonTree::Integer(error.code)),
        field(error_tree(error), "message"@) == Some(JsonTree::Text(error.message)),
        field(error_tree(error), "data"@) == error.data,
        forall|key: Seq<char>|
            key != "code"@ && key != "message"@ && key != "data"@ ==> #[trigger] field(
                error_tree(error),
                key,
            ) is None,
{
    reveal_strlit("code");
    reveal_strlit("message");
    reveal_strlit("data");
    assert("code"@[0] == 'c');
    assert("data"@[0] == 'd');
    assert("message"@.len() == 7);
}

/// An error is made of the code and the message that are given; its data says
/// the detail that is given, unchanged and nothing else, or is missing.
pub proof fn law_error_parts(code: i64, message: Seq<char>, detail: Seq<char>)
    ensures
        plain_error(code, message).code == code,
        plain_error(code, message).message == message,
        plain_error(code, message).data is None,
        detailed_error(code, message, detail).code == code,
        detailed_error(code, message, detail).message == message,
        detailed_error(code, message, detail).data matches Some(data) && field(data, "detail"@)
            == Some(JsonTree::Text(detail)) && forall|key: Seq<char>|
            key != "detail"@ ==> #[trigger] field(data, key) is None,
{
}

/// A notification has the version, the method and the parameters that are
/// given, and nothing else.
pub proof fn law_notification_members(method: Seq<char>, params: JsonTree)
    ensures
        field(notification_tree(method, params), "jsonrpc"@) == Some(JsonTree::Text("2.0"@)),
        field(notification_tree(method, params), "method"@) == Some(JsonTree::Text(method)),
        field(notification_tree(method, params), "params"@) == Some(params),
        forall|key: Seq<char>|
            key != "jsonrpc"@ && key != "method"@ && key != "params"@ ==> #[trigger] field(
                notification_tree(method, params),
                key,
            ) is None,
{
    reveal_strlit("jsonrpc");
    reveal_strlit("method");
    reveal_strlit("params");
    assert("jsonrpc"@.len() == 7);
    assert("method"@[0] == 'm');
    assert("params"@[0] == 'p');
}

/// A reply has the version, the id that it answers, and the result or the error
/// that is given, and nothing else.
pub proof fn law_reply_members(id: JsonTree, result: JsonTree, error: ErrorTree)
    ensures
        field(result_reply(id, result), "jsonrpc"@) == Some(JsonTree::Text("2.0"@)),
        field(result_reply(id, result), "id"@) == Some(id),
        field(result_reply(id, result), "result"@) == Some(result),
        forall|key: Seq<char>|
            key != "jsonrpc"@ && key != "id"@ && key != "result"@ ==> #[trigger] field(
                result_reply(id, result),
                key,
            ) is None,
        field(error_reply(id, error), "jsonrpc"@) == Some(JsonTree::Text("2.0"@)),
        field(error_reply(id, error), "id"@) == Some(id),
        field(error_reply(id, error), "error"@) == Some(error_tree(error)),
        forall|key: Seq<char>|
            key != "jsonrpc"@ && key != "id"@ && key != "error"@ ==> #[trigger] field(
                error_reply(id, error),
                key,
            ) is None,
{
    reveal_strlit("jsonrpc");
    reveal_strlit("id");
    reveal_strlit("result");
    reveal_strlit("error");
    assert("jsonrpc"@.len() == 7 && "id"@.len() == 2 && "result"@.len() == 6 && "error"@.len() == 5);
}

/// A request says what its fields hold, each as it is.
pub proof fn law_request_view(request: JsonRpcRequest)
    ensures
        request@.method == request.method@,
        request.id matches Some(id) ==> request@.id == Some(id@),
        request.id is None ==> request@.id is None,
        request.params matches Some(params) ==> request@.params == Some(params@),
        request.params is None ==> request@.params is None,
{
}

/// An error says what its fields hold, each as it is.
pub proof fn law_error_view(error: JsonRpcErrorObject)
    ensures
        error@.code == error.code,
        error@.message == error.message@,
        error.data matches Some(data) ==> error@.data == Some(data@),
        error.data is None ==> error@.data is None,
{
}

} // verus!
