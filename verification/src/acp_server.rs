//! The ACP server: sessions that clients open, prompt and stop by JSON-RPC
//! requests, one on each line.

use crate::cwd::{path_text, text_of_path};
use crate::ids::{is_random_uuid, random_uuid};
use crate::json::{
    chars_of_option, field, field_of, item_trees, owned_tree_of, push_item, text_of, tree_of, Json,
    JsonNumber, JsonObject, JsonTree,
};
use crate::rpc::{
    detail_json, detailed_error, error_reply, json_rpc_error, json_rpc_result, law_error_members,
    law_error_parts, law_reply_members, notification, notification_tree, plain_error, result_reply,
    ErrorTree, JsonRpcErrorObject, JSONRPC_INTERNAL_ERROR, JSONRPC_INVALID_PARAMS,
    JSONRPC_SESSION_NOT_FOUND,
};
use crate::text::{
    adjoin, is_blank, is_space, join, joined, law_join, lemma_trimmed_blank, texts, trim, trimmed,
};
use std::path::PathBuf;
use vstd::hash_map::StringHashMap;
use vstd::prelude::*;
use vstd::string::*;

verus! {

/// `<std::path::PathBuf as Clone>::clone`: the clone is the path itself.
pub assume_specification[ <std::path::PathBuf as Clone>::clone ](path: &std::path::PathBuf) -> (r:
    std::path::PathBuf)
    ensures
        r == *path,
;

/// An open session.
#[derive(Debug)]
pub struct AcpSession {
    pub cwd: PathBuf,
}

/// A prompt for an open session.
#[derive(Debug)]
pub struct PromptRequest {
    pub session_id: String,
    pub cwd: PathBuf,
    pub prompt: String,
}

/// What a prompt says.
pub struct PromptTree {
    pub session_id: Seq<char>,
    pub cwd: PathBuf,
    pub prompt: Seq<char>,
}

impl View for PromptRequest {
    type V = PromptTree;

    open spec fn view(&self) -> PromptTree {
        PromptTree { session_id: self.session_id@, cwd: self.cwd, prompt: self.prompt@ }
    }
}

/// The sessions that are open, by id.
pub struct AcpServerState {
    pub sessions: StringHashMap<AcpSession>,
}

impl View for AcpServerState {
    type V = Map<Seq<char>, AcpSession>;

    open spec fn view(&self) -> Map<Seq<char>, AcpSession> {
        self.sessions@
    }
}

impl Default for AcpServerState {
    fn default() -> (r: Self)
        ensures
            r@ == Map::<Seq<char>, AcpSession>::empty(),
    {
        AcpServerState { sessions: StringHashMap::new() }
    }
}

/// The fields of the parameters, which must be an object.
pub open spec fn object_params(params: Option<JsonTree>) -> Result<
    Map<Seq<char>, JsonTree>,
    ErrorTree,
> {
    match params {
        Some(JsonTree::Object(fields)) => Ok(fields),
        Some(_) => Err(plain_error(JSONRPC_INVALID_PARAMS, "params must be an object"@)),
        None => Err(plain_error(JSONRPC_INVALID_PARAMS, "Missing params object"@)),
    }
}

fn invalid_params(message: String) -> (r: JsonRpcErrorObject)
    ensures
        r@ == plain_error(JSONRPC_INVALID_PARAMS, message@),
{
    JsonRpcErrorObject::new(JSONRPC_INVALID_PARAMS, message)
}

/// The parameters as an object.
pub fn params_as_object(params: Option<&Json>) -> (r: Result<&JsonObject, JsonRpcErrorObject>)
    ensures
        match r {
            Ok(object) => object_params(tree_of(params)) == Ok::<
                Map<Seq<char>, JsonTree>,
                ErrorTree,
            >(object@),
            Err(error) => object_params(tree_of(params)) == Err::<
                Map<Seq<char>, JsonTree>,
                ErrorTree,
            >(error@),
        },
{
    match params {
        Some(Json::Object(object)) => Ok(object),
        Some(_) => Err(invalid_params("params must be an object".to_owned())),
        None => Err(invalid_params("Missing params object".to_owned())),
    }
}

/// The text under `key`, which must not be blank.
pub open spec fn required_text(fields: Map<Seq<char>, JsonTree>, key: Seq<char>) -> Result<
    Seq<char>,
    ErrorTree,
> {
    match text_of(field(JsonTree::Object(fields), key)) {
        Some(text) if trimmed(text).len() > 0 => Ok(text),
        _ => Err(
            plain_error(
                JSONRPC_INVALID_PARAMS,
                "params."@ + key + " must be a non-empty string"@,
            ),
        ),
    }
}

/// The text under `key`, which must not be blank.
pub fn required_non_empty_string(params: &JsonObject, key: &str) -> (r: Result<
    String,
    JsonRpcErrorObject,
>)
    ensures
        match r {
            Ok(text) => required_text(params@, key@) == Ok::<Seq<char>, ErrorTree>(text@),
            Err(error) => required_text(params@, key@) == Err::<Seq<char>, ErrorTree>(error@),
        },
{
    if let Some(value) = params.get(key) {
        if let Some(raw) = value.as_str() {
            if !trim(raw).is_empty() {
                return Ok(raw.to_owned());
            }
        }
    }
    let mut message = adjoin("params.", key);
    message.append(" must be a non-empty string");
    Err(invalid_params(message))
}

/// The text that an item of a prompt contributes: a text, or the field `text`
/// of an object, unless it is blank.
pub open spec fn chunk_of(item: JsonTree) -> Option<Seq<char>> {
    let text = match item {
        JsonTree::Object(_) => text_of(field(item, "text"@)),
        _ => text_of(Some(item)),
    };
    match text {
        Some(s) if trimmed(s).len() > 0 => Some(s),
        _ => None,
    }
}

/// The texts that the items of a prompt contribute, in order.
pub open spec fn chunks_of(items: Seq<JsonTree>) -> Seq<Seq<char>>
    decreases items.len(),
{
    if items.len() == 0 {
        seq![]
    } else {
        match chunk_of(items.last()) {
            Some(chunk) => chunks_of(items.drop_last()).push(chunk),
            None => chunks_of(items.drop_last()),
        }
    }
}

/// The value of the field `prompt`, or of `input` where there is none.
pub open spec fn prompt_value(fields: Map<Seq<char>, JsonTree>) -> Option<JsonTree> {
    if fields.contains_key("prompt"@) {
        Some(fields["prompt"@])
    } else {
        field(JsonTree::Object(fields), "input"@)
    }
}

/// The text of a prompt: a text, or the texts of a list, one on each line.
pub open spec fn prompt_text(fields: Map<Seq<char>, JsonTree>) -> Result<Seq<char>, ErrorTree> {
    let invalid = |message: Seq<char>| plain_error(JSONRPC_INVALID_PARAMS, message);
    match prompt_value(fields) {
        None => Err(invalid("params.prompt must be present"@)),
        Some(JsonTree::Text(text)) => if trimmed(text).len() == 0 {
            Err(invalid("params.prompt must not be empty"@))
        } else {
            Ok(text)
        },
        Some(JsonTree::Array(items)) => if chunks_of(items).len() == 0 {
            Err(invalid("params.prompt must contain text items"@))
        } else {
            Ok(joined(chunks_of(items), "\n"@))
        },
        Some(_) => Err(invalid("params.prompt must be a string or array of text items"@)),
    }
}

fn item_chunk(item: &Json) -> (r: Option<&str>)
    ensures
        chars_of_option(r) == chunk_of(item@),
{
    let text = match item {
        Json::Text(text) => Some(text.as_str()),
        Json::Object(object) => match object.get("text") {
            Some(text) => text.as_str(),
            None => None,
        },
        _ => None,
    };
    match text {
        Some(text) => if trim(text).is_empty() {
            None
        } else {
            Some(text)
        },
        None => None,
    }
}

fn item_chunks(items: &Vec<Json>) -> (r: Vec<String>)
    ensures
        texts(r@) == chunks_of(item_trees(items@)),
{
    let mut chunks: Vec<String> = Vec::new();
    for i in 0..items.len()
        invariant
            texts(chunks@) == chunks_of(item_trees(items@.take(i as int))),
    {
        assert(items@.take(i + 1).drop_last() =~= items@.take(i as int));
        assert(item_trees(items@.take(i + 1)).drop_last() =~= item_trees(items@.take(i as int)));
        if let Some(chunk) = item_chunk(&items[i]) {
            let ghost before = chunks@;
            chunks.push(chunk.to_owned());
            assert(texts(chunks@) =~= texts(before).push(chunk@));
        }
    }
    assert(items@.take(items@.len() as int) =~= items@);
    chunks
}

/// The text of the prompt in the parameters.
pub fn extract_prompt_text(params: &JsonObject) -> (r: Result<String, JsonRpcErrorObject>)
    ensures
        match r {
            Ok(text) => prompt_text(params@) == Ok::<Seq<char>, ErrorTree>(text@),
            Err(error) => prompt_text(params@) == Err::<Seq<char>, ErrorTree>(error@),
        },
{
    let value = match params.get("prompt") {
        Some(value) => Some(value),
        None => params.get("input"),
    };
    match value {
        None => Err(invalid_params("params.prompt must be present".to_owned())),
        Some(Json::Text(text)) => if trim(text.as_str()).is_empty() {
            Err(invalid_params("params.prompt must not be empty".to_owned()))
        } else {
            Ok(text.clone())
        },
        Some(Json::Array(items)) => {
            let chunks = item_chunks(items);
            assert(texts(chunks@).len() == chunks@.len());
            if chunks.len() == 0 {
                Err(invalid_params("params.prompt must contain text items".to_owned()))
            } else {
                Ok(join(&chunks, "\n"))
            }
        },
        Some(_) => Err(
            invalid_params("params.prompt must be a string or array of text items".to_owned()),
        ),
    }
}

/// The outcome of a request, by its trees.
pub open spec fn outcome_tree(outcome: Result<Json, JsonRpcErrorObject>) -> Result<
    JsonTree,
    ErrorTree,
> {
    match outcome {
        Ok(result) => Ok(result@),
        Err(error) => Err(error@),
    }
}

/// What the server says of itself.
pub open spec fn initialize_tree(version: Seq<char>) -> JsonTree {
    JsonTree::Object(
        map![
            "protocol_version"@ => JsonTree::Integer(1),
            "server_info"@ => JsonTree::Object(
                map![
                    "name"@ => JsonTree::Text("zeroclaw"@),
                    "title"@ => JsonTree::Text("ZeroClaw ACP Server"@),
                    "version"@ => JsonTree::Text(version),
                ],
            ),
            "capabilities"@ => JsonTree::Object(
                map![
                    "session"@ => JsonTree::Bool(true),
                    "streaming_notifications"@ => JsonTree::Bool(true),
                    "methods"@ => JsonTree::Array(
                        seq![
                            JsonTree::Text("initialize"@),
                            JsonTree::Text("session/new"@),
                            JsonTree::Text("session/prompt"@),
                            JsonTree::Text("session/stop"@),
                        ],
                    ),
                ],
            ),
        ],
    )
}

/// The result of opening a session.
pub open spec fn opened_tree(session_id: Seq<char>, cwd: Seq<char>) -> JsonTree {
    JsonTree::Object(
        map!["session_id"@ => JsonTree::Text(session_id), "cwd"@ => JsonTree::Text(cwd)],
    )
}

/// The sessions that are open once one is opened under `session_id`.
pub open spec fn sessions_after_open(
    sessions: Map<Seq<char>, AcpSession>,
    session_id: Seq<char>,
    cwd: PathBuf,
) -> Map<Seq<char>, AcpSession> {
    sessions.insert(session_id, AcpSession { cwd })
}

/// The id of the session that the parameters name.
pub open spec fn named_session(params: Option<JsonTree>) -> Result<Seq<char>, ErrorTree> {
    match object_params(params) {
        Ok(fields) => required_text(fields, "session_id"@),
        Err(error) => Err(error),
    }
}

/// The result of stopping a session: whether there was one.
pub open spec fn stop_result(
    sessions: Map<Seq<char>, AcpSession>,
    params: Option<JsonTree>,
) -> Result<JsonTree, ErrorTree> {
    match named_session(params) {
        Ok(session_id) => Ok(
            JsonTree::Object(
                map![
                    "session_id"@ => JsonTree::Text(session_id),
                    "stopped"@ => JsonTree::Bool(sessions.contains_key(session_id)),
                ],
            ),
        ),
        Err(error) => Err(error),
    }
}

/// The sessions that stay open when one is stopped.
pub open spec fn sessions_after_stop(
    sessions: Map<Seq<char>, AcpSession>,
    params: Option<JsonTree>,
) -> Map<Seq<char>, AcpSession> {
    match named_session(params) {
        Ok(session_id) => sessions.remove(session_id),
        Err(_) => sessions,
    }
}

/// The prompt that the parameters ask for.
pub open spec fn prompt_request(
    sessions: Map<Seq<char>, AcpSession>,
    params: Option<JsonTree>,
) -> Result<PromptTree, ErrorTree> {
    match object_params(params) {
        Err(error) => Err(error),
        Ok(fields) => match (required_text(fields, "session_id"@), prompt_text(fields)) {
            (Err(error), _) => Err(error),
            (Ok(_), Err(error)) => Err(error),
            (Ok(session_id), Ok(prompt)) => if sessions.contains_key(session_id) {
                Ok(PromptTree { session_id, cwd: sessions[session_id].cwd, prompt })
            } else {
                Err(
                    plain_error(JSONRPC_SESSION_NOT_FOUND, "Session not found: "@ + session_id),
                )
            },
        },
    }
}

impl AcpServerState {
    /// The result of the method `initialize`; `version` is that of the server.
    pub fn initialize_result(&self, version: &str) -> (r: Json)
        ensures
            r@ == initialize_tree(version@),
    {
        let mut server_info = JsonObject::new();
        server_info.insert("name", Json::Text("zeroclaw".to_owned()));
        server_info.insert("title", Json::Text("ZeroClaw ACP Server".to_owned()));
        server_info.insert("version", Json::Text(version.to_owned()));
        let mut methods: Vec<Json> = Vec::new();
        push_item(&mut methods, Json::Text("initialize".to_owned()));
        push_item(&mut methods, Json::Text("session/new".to_owned()));
        push_item(&mut methods, Json::Text("session/prompt".to_owned()));
        push_item(&mut methods, Json::Text("session/stop".to_owned()));
        assert(item_trees(methods@) =~= seq![
            JsonTree::Text("initialize"@),
            JsonTree::Text("session/new"@),
            JsonTree::Text("session/prompt"@),
            JsonTree::Text("session/stop"@),
        ]);
        let mut capabilities = JsonObject::new();
        capabilities.insert("session", Json::Bool(true));
        capabilities.insert("streaming_notifications", Json::Bool(true));
        capabilities.insert("methods", Json::Array(methods));
        let mut result = JsonObject::new();
        result.insert("protocol_version", Json::Number(JsonNumber::Unsigned(1)));
        result.insert("server_info", Json::Object(server_info));
        result.insert("capabilities", Json::Object(capabilities));
        Json::Object(result)
    }

    /// Opens a session under `session_id` in the directory `cwd`.
    pub fn open_session(&mut self, session_id: String, cwd: PathBuf) -> (r: Json)
        ensures
            final(self)@ == old(self)@.insert(session_id@, AcpSession { cwd }),
            final(self)@ == sessions_after_open(old(self)@, session_id@, cwd),
            r@ == opened_tree(session_id@, path_text(cwd)),
    {
        let text = text_of_path(&cwd);
        self.sessions.insert(session_id.clone(), AcpSession { cwd });
        let mut result = JsonObject::new();
        result.insert("session_id", Json::Text(session_id));
        result.insert("cwd", Json::Text(text));
        Json::Object(result)
    }

    /// Opens a session under a new random id in the directory `cwd`.
    pub fn create_session(&mut self, cwd: PathBuf) -> (r: Json)
        ensures
            exists|uuid: Seq<char>|
                {
                    &&& is_random_uuid(uuid)
                    &&& final(self)@ == old(self)@.insert("zc-"@ + uuid, AcpSession { cwd })
                    &&& final(self)@ == sessions_after_open(old(self)@, "zc-"@ + uuid, cwd)
                    &&& r@ == opened_tree(#[trigger] ("zc-"@ + uuid), path_text(cwd))
                },
    {
        let uuid = random_uuid();
        let session_id = adjoin("zc-", uuid.as_str());
        let ghost before = self@;
        let r = self.open_session(session_id, cwd);
        proof {
            let id = "zc-"@ + uuid@;
            assert(self@ == before.insert(id, AcpSession { cwd }));
        }
        r
    }

    /// Stops the session that the parameters name.
    pub fn stop_session(&mut self, params: Option<&Json>) -> (r: Result<Json, JsonRpcErrorObject>)
        ensures
            outcome_tree(r) == stop_result(old(self)@, tree_of(params)),
            final(self)@ == sessions_after_stop(old(self)@, tree_of(params)),
    {
        let object = match params_as_object(params) {
            Ok(object) => object,
            Err(error) => {
                return Err(error);
            },
        };
        let session_id = match required_non_empty_string(object, "session_id") {
            Ok(session_id) => session_id,
            Err(error) => {
                return Err(error);
            },
        };
        let stopped = self.sessions.contains_key(session_id.as_str());
        self.sessions.remove(session_id.as_str());
        let mut result = JsonObject::new();
        result.insert("session_id", Json::Text(session_id));
        result.insert("stopped", Json::Bool(stopped));
        Ok(Json::Object(result))
    }

    /// Reads a prompt for an open session.
    pub fn resolve_prompt_request(&self, params: Option<&Json>) -> (r: Result<
        PromptRequest,
        JsonRpcErrorObject,
    >)
        ensures
            match r {
                Ok(request) => prompt_request(self@, tree_of(params)) == Ok::<
                    PromptTree,
                    ErrorTree,
                >(request@),
                Err(error) => prompt_request(self@, tree_of(params)) == Err::<
                    PromptTree,
                    ErrorTree,
                >(error@),
            },
    {
        let object = match params_as_object(params) {
            Ok(object) => object,
            Err(error) => {
                return Err(error);
            },
        };
        let session_id = match required_non_empty_string(object, "session_id") {
            Ok(session_id) => session_id,
            Err(error) => {
                return Err(error);
            },
        };
        let prompt = match extract_prompt_text(object) {
            Ok(prompt) => prompt,
            Err(error) => {
                return Err(error);
            },
        };
        match self.sessions.get(session_id.as_str()) {
            Some(session) => Ok(PromptRequest { session_id, cwd: session.cwd.clone(), prompt }),
            None => Err(
                JsonRpcErrorObject::new(
                    JSONRPC_SESSION_NOT_FOUND,
                    adjoin("Session not found: ", session_id.as_str()),
                ),
            ),
        }
    }
}

/// The reply to a request with the id `reply_to`: none, if there is no id.
pub open spec fn response(
    reply_to: Option<JsonTree>,
    outcome: Result<JsonTree, ErrorTree>,
) -> Option<JsonTree> {
    match reply_to {
        None => None,
        Some(id) => Some(
            match outcome {
                Ok(result) => result_reply(id, result),
                Err(error) => error_reply(id, error),
            },
        ),
    }
}

/// Builds the reply to a request with the id `reply_to`: none, if there is no
/// id.
pub fn respond(reply_to: Option<Json>, outcome: Result<Json, JsonRpcErrorObject>) -> (r: Option<
    Json,
>)
    ensures
        owned_tree_of(r) == response(owned_tree_of(reply_to), outcome_tree(outcome)),
{
    match reply_to {
        None => None,
        Some(id) => Some(
            match outcome {
                Ok(result) => json_rpc_result(id, result),
                Err(error) => json_rpc_error(id, error),
            },
        ),
    }
}

/// The notification that something happened in a session.
pub open spec fn progress_tree(session_id: Seq<char>, event: Seq<char>) -> JsonTree {
    notification_tree(
        "session/progress"@,
        JsonTree::Object(
            map!["session_id"@ => JsonTree::Text(session_id), "event"@ => JsonTree::Text(event)],
        ),
    )
}

/// The notification that a prompt failed.
pub open spec fn failure_tree(session_id: Seq<char>, error: Seq<char>) -> JsonTree {
    notification_tree(
        "session/progress"@,
        JsonTree::Object(
            map![
                "session_id"@ => JsonTree::Text(session_id),
                "event"@ => JsonTree::Text("failed"@),
                "error"@ => JsonTree::Text(error),
            ],
        ),
    )
}

/// The notification that carries the answer to a prompt.
pub open spec fn content_tree(session_id: Seq<char>, delta: Seq<char>) -> JsonTree {
    notification_tree(
        "session/content"@,
        JsonTree::Object(
            map!["session_id"@ => JsonTree::Text(session_id), "delta"@ => JsonTree::Text(delta)],
        ),
    )
}

/// The result of a prompt.
pub open spec fn answer_tree(session_id: Seq<char>, text: Seq<char>) -> JsonTree {
    JsonTree::Object(
        map![
            "session_id"@ => JsonTree::Text(session_id),
            "response"@ => JsonTree::Text(text),
            "content"@ => JsonTree::Array(
                seq![
                    JsonTree::Object(
                        map!["type"@ => JsonTree::Text("text"@), "text"@ => JsonTree::Text(text)],
                    ),
                ],
            ),
        ],
    )
}

/// Builds the notification that something happened in a session.
pub fn progress(session_id: &str, event: &str) -> (r: Json)
    ensures
        r@ == progress_tree(session_id@, event@),
{
    let mut params = JsonObject::new();
    params.insert("session_id", Json::Text(session_id.to_owned()));
    params.insert("event", Json::Text(event.to_owned()));
    notification("session/progress", Json::Object(params))
}

fn failure(session_id: &str, error: &str) -> (r: Json)
    ensures
        r@ == failure_tree(session_id@, error@),
{
    let mut params = JsonObject::new();
    params.insert("session_id", Json::Text(session_id.to_owned()));
    params.insert("event", Json::Text("failed".to_owned()));
    params.insert("error", Json::Text(error.to_owned()));
    notification("session/progress", Json::Object(params))
}

fn content(session_id: &str, delta: &str) -> (r: Json)
    ensures
        r@ == content_tree(session_id@, delta@),
{
    let mut params = JsonObject::new();
    params.insert("session_id", Json::Text(session_id.to_owned()));
    params.insert("delta", Json::Text(delta.to_owned()));
    notification("session/content", Json::Object(params))
}

fn answer(session_id: &str, text: &str) -> (r: Json)
    ensures
        r@ == answer_tree(session_id@, text@),
{
    let mut item = JsonObject::new();
    item.insert("type", Json::Text("text".to_owned()));
    item.insert("text", Json::Text(text.to_owned()));
    let mut items: Vec<Json> = Vec::new();
    let item = Json::Object(item);
    push_item(&mut items, item);
    assert(item_trees(items@) =~= seq![item@]);
    let mut result = JsonObject::new();
    result.insert("session_id", Json::Text(session_id.to_owned()));
    result.insert("response", Json::Text(text.to_owned()));
    result.insert("content", Json::Array(items));
    Json::Object(result)
}

/// What an agent made of a prompt, by its characters.
pub open spec fn agent_tree(outcome: Result<String, String>) -> Result<Seq<char>, Seq<char>> {
    match outcome {
        Ok(text) => Ok(text@),
        Err(detail) => Err(detail@),
    }
}

/// The payload of a reply, where there is one.
pub open spec fn payloads(reply: Option<JsonTree>) -> Seq<JsonTree> {
    match reply {
        Some(payload) => seq![payload],
        None => seq![],
    }
}

/// What is written once the agent is done with a prompt, in order: the answer
/// and the end of the work, or its failure; then the reply, if one is due.
pub open spec fn prompt_payloads(
    reply_to: Option<JsonTree>,
    session_id: Seq<char>,
    outcome: Result<Seq<char>, Seq<char>>,
) -> Seq<JsonTree> {
    match outcome {
        Ok(text) => seq![
            content_tree(session_id, text),
            progress_tree(session_id, "completed"@),
        ] + payloads(response(reply_to, Ok(answer_tree(session_id, text)))),
        Err(detail) => seq![failure_tree(session_id, detail)] + payloads(
            response(
                reply_to,
                Err(detailed_error(JSONRPC_INTERNAL_ERROR, "Agent processing failed"@, detail)),
            ),
        ),
    }
}

/// Builds what is written once the agent is done with a prompt.
pub fn finish_prompt(
    reply_to: Option<Json>,
    session_id: &str,
    outcome: Result<String, String>,
) -> (r: Vec<Json>)
    ensures
        item_trees(r@) == prompt_payloads(
            owned_tree_of(reply_to),
            session_id@,
            agent_tree(outcome),
        ),
{
    let mut out: Vec<Json> = Vec::new();
    let ghost expected = prompt_payloads(
        owned_tree_of(reply_to),
        session_id@,
        agent_tree(outcome),
    );
    let reply = match outcome {
        Ok(text) => {
            push_item(&mut out, content(session_id, text.as_str()));
            push_item(&mut out, progress(session_id, "completed"));
            respond(reply_to, Ok(answer(session_id, text.as_str())))
        },
        Err(detail) => {
            push_item(&mut out, failure(session_id, detail.as_str()));
            let error = JsonRpcErrorObject::with_data(
                JSONRPC_INTERNAL_ERROR,
                "Agent processing failed".to_owned(),
                detail_json(detail),
            );
            respond(reply_to, Err(error))
        },
    };
    if let Some(payload) = reply {
        push_item(&mut out, payload);
    }
    assert(item_trees(out@) =~= expected);
    out
}

/// A prompt that is accepted holds something else than white space.
pub proof fn law_prompt_not_blank(fields: Map<Seq<char>, JsonTree>)
    ensures
        prompt_text(fields) matches Ok(text) ==> trimmed(text).len() > 0,
{
    if let Some(JsonTree::Array(items)) = prompt_value(fields) {
        let chunks = chunks_of(items);
        if chunks.len() > 0 {
            lemma_chunks_not_blank(items);
            lemma_joined_not_blank(chunks, "\n"@);
            lemma_trimmed_blank(joined(chunks, "\n"@));
        }
    }
}

proof fn lemma_chunks_not_blank(items: Seq<JsonTree>)
    ensures
        forall|i: int| 0 <= i < chunks_of(items).len() ==> !is_blank(#[trigger] chunks_of(items)[i]),
    decreases items.len(),
{
    if items.len() > 0 {
        let before = chunks_of(items.drop_last());
        lemma_chunks_not_blank(items.drop_last());
        if let Some(chunk) = chunk_of(items.last()) {
            lemma_trimmed_blank(chunk);
            assert forall|i: int| 0 <= i < chunks_of(items).len() implies !is_blank(
                #[trigger] chunks_of(items)[i],
            ) by {
                if i < before.len() {
                    assert(!is_blank(before[i]));
                }
            }
        }
    }
}

proof fn lemma_joined_not_blank(parts: Seq<Seq<char>>, separator: Seq<char>)
    requires
        parts.len() > 0,
        !is_blank(parts.last()),
    ensures
        !is_blank(joined(parts, separator)),
{
    let last = parts.last();
    let all = joined(parts, separator);
    let i = choose|i: int| 0 <= i < last.len() && !is_space(#[trigger] last[i]);
    assert(all[all.len() - last.len() + i] == last[i]);
}

/// What is read of the one field `prompt` with a given value.
pub open spec fn prompt_of(value: JsonTree) -> Result<Seq<char>, ErrorTree> {
    prompt_text(map!["prompt"@ => value])
}

/// A prompt that is a text is read exactly as it was sent, character by
/// character, whatever else is sent with it, unless it is blank: then it is
/// refused.
pub proof fn law_prompt_kept(fields: Map<Seq<char>, JsonTree>, text: Seq<char>)
    requires
        fields.contains_key("prompt"@),
        fields["prompt"@] == JsonTree::Text(text),
    ensures
        !is_blank(text) ==> prompt_text(fields) == Ok::<Seq<char>, ErrorTree>(text),
        is_blank(text) ==> {
            prompt_text(fields) matches Err(error) && error.code == -32602 && error.message
                == "params.prompt must not be empty"@ && error.data is None
        },
{
    lemma_trimmed_blank(text);
}

/// Of the parameters, the prompt alone counts: the field `prompt`, and the field
/// `input` only where there is no `prompt`. The one is read as the other.
pub proof fn law_prompt_alone_counts(fields: Map<Seq<char>, JsonTree>)
    ensures
        fields.contains_key("prompt"@) ==> prompt_text(fields) == prompt_of(fields["prompt"@]),
        !fields.contains_key("prompt"@) && fields.contains_key("input"@) ==> prompt_text(fields)
            == prompt_of(fields["input"@]),
        !fields.contains_key("prompt"@) && !fields.contains_key("input"@) ==> {
            prompt_text(fields) matches Err(error) && error.code == -32602 && error.message
                == "params.prompt must be present"@ && error.data is None
        },
{
}

/// A list with one item is read as the text of the item, exactly: of a text
/// itself, or of the field `text` of an object. An item without a text, or with
/// a blank one, says nothing.
pub proof fn law_prompt_item(item: JsonTree)
    ensures
        ({
            let read = prompt_of(JsonTree::Array(seq![item]));
            &&& item matches JsonTree::Text(text) ==> !is_blank(text) ==> read == Ok::<
                Seq<char>,
                ErrorTree,
            >(text)
            &&& field(item, "text"@) matches Some(JsonTree::Text(text)) ==> !is_blank(text) ==> read
                == Ok::<Seq<char>, ErrorTree>(text)
            &&& item matches JsonTree::Text(text) ==> is_blank(text) ==> read is Err
            &&& field(item, "text"@) matches Some(JsonTree::Text(text)) ==> is_blank(text) ==> read
                is Err
            &&& !(item is Text) && !(field(item, "text"@) matches Some(text) && text is Text)
                ==> read is Err
        }),
{
    lemma_one_chunk(item);
    if let JsonTree::Text(text) = item {
        lemma_trimmed_blank(text);
    }
    if let Some(JsonTree::Text(text)) = field(item, "text"@) {
        lemma_trimmed_blank(text);
    }
}

proof fn lemma_one_chunk(item: JsonTree)
    ensures
        chunk_of(item) matches Some(chunk) ==> prompt_of(JsonTree::Array(seq![item])) == Ok::<
            Seq<char>,
            ErrorTree,
        >(chunk),
        chunk_of(item) is None ==> prompt_of(JsonTree::Array(seq![item])) is Err,
{
    let items = seq![item];
    assert(items.drop_last() =~= Seq::<JsonTree>::empty());
    assert(chunks_of(items.drop_last()) =~= Seq::<Seq<char>>::empty());
    if let Some(chunk) = chunk_of(item) {
        assert(chunks_of(items) =~= seq![chunk]);
    }
}

proof fn lemma_chunks_add_up(a: Seq<JsonTree>, b: Seq<JsonTree>)
    ensures
        chunks_of(a + b) == chunks_of(a) + chunks_of(b),
    decreases b.len(),
{
    if b.len() == 0 {
        assert(a + b =~= a);
        assert(chunks_of(a) + chunks_of(b) =~= chunks_of(a));
    } else {
        assert((a + b).drop_last() =~= a + b.drop_last());
        assert((a + b).last() == b.last());
        lemma_chunks_add_up(a, b.drop_last());
        assert(chunks_of(a + b) =~= chunks_of(a) + chunks_of(b));
    }
}

/// Two lists one behind the other are read as the one and the other, with a line
/// feed between them; a list that says nothing adds nothing. So every item that
/// says something is read, in order, and only once.
pub proof fn law_prompt_items_add_up(a: Seq<JsonTree>, b: Seq<JsonTree>)
    ensures
        ({
            let first = prompt_of(JsonTree::Array(a));
            let second = prompt_of(JsonTree::Array(b));
            let both = prompt_of(JsonTree::Array(a + b));
            match (first, second) {
                (Ok(s), Ok(t)) => both == Ok::<Seq<char>, ErrorTree>(s + seq!['\n'] + t),
                (Ok(s), Err(_)) => both == first,
                (Err(_), _) => both == second,
            }
        }),
        prompt_of(JsonTree::Array(seq![])) is Err,
        prompt_of(JsonTree::Array(a)) matches Err(error) ==> error.code == -32602 && error.message
            == "params.prompt must contain text items"@ && error.data is None,
{
    reveal_strlit("\n");
    assert("\n"@ =~= seq!['\n']);
    lemma_chunks_add_up(a, b);
    let x = chunks_of(a);
    let y = chunks_of(b);
    law_join(x, y, seq![], "\n"@);
    if x.len() == 0 {
        assert(x + y =~= y);
    }
    if y.len() == 0 {
        assert(x + y =~= x);
    }
}

/// What is neither a text nor a list is no prompt.
pub proof fn law_prompt_other(value: JsonTree)
    requires
        !(value is Text),
        !(value is Array),
    ensures
        prompt_of(value) matches Err(error) && error.code == -32602 && error.message
            == "params.prompt must be a string or array of text items"@ && error.data is None,
{
}

/// A text that is required is read exactly as it was sent; what is missing, no
/// text, or blank is refused, by its key.
pub proof fn law_required_text_kept(fields: Map<Seq<char>, JsonTree>, key: Seq<char>)
    ensures
        field(JsonTree::Object(fields), key) matches Some(JsonTree::Text(text)) ==> !is_blank(text)
            ==> required_text(fields, key) == Ok::<Seq<char>, ErrorTree>(text),
        !(field(JsonTree::Object(fields), key) matches Some(JsonTree::Text(text)) && !is_blank(text))
            ==> {
            required_text(fields, key) matches Err(error) && error.code == -32602 && error.message
                == "params."@ + key + " must be a non-empty string"@ && error.data is None
        },
{
    if let Some(JsonTree::Text(text)) = field(JsonTree::Object(fields), key) {
        lemma_trimmed_blank(text);
    }
}

/// Parameters are read as the object that they are, and refused if they are
/// another value or missing.
pub proof fn law_params_kept(params: JsonTree)
    ensures
        params matches JsonTree::Object(fields) ==> object_params(Some(params)) == Ok::<
            Map<Seq<char>, JsonTree>,
            ErrorTree,
        >(fields),
        !(params is Object) ==> {
            object_params(Some(params)) matches Err(error) && error.code == -32602 && error.message
                == "params must be an object"@ && error.data is None
        },
        object_params(None) matches Err(error) && error.code == -32602 && error.message
            == "Missing params object"@ && error.data is None,
{
}

/// A request names the session whose id it holds under `session_id`, exactly,
/// and no other; where it holds none, it is refused for that, and for its
/// parameters first.
pub proof fn law_session_named(fields: Map<Seq<char>, JsonTree>, params: Option<JsonTree>)
    ensures
        field(JsonTree::Object(fields), "session_id"@) matches Some(JsonTree::Text(session_id))
            ==> !is_blank(session_id) ==> named_session(Some(JsonTree::Object(fields))) == Ok::<
            Seq<char>,
            ErrorTree,
        >(session_id),
        named_session(Some(JsonTree::Object(fields))) matches Ok(session_id) ==> field(
            JsonTree::Object(fields),
            "session_id"@,
        ) == Some(JsonTree::Text(session_id)),
        named_session(Some(JsonTree::Object(fields))) matches Err(error) ==> error.code == -32602
            && error.message == "params."@ + "session_id"@ + " must be a non-empty string"@
            && error.data is None,
        object_params(params) matches Err(error) ==> named_session(params) == Err::<
            Seq<char>,
            ErrorTree,
        >(error),
{
    law_required_text_kept(fields, "session_id"@);
}

/// A session that is opened has the directory that it is opened in, and every
/// other session stays as it is.
pub proof fn law_open_adds_one(
    sessions: Map<Seq<char>, AcpSession>,
    session_id: Seq<char>,
    cwd: PathBuf,
    other: Seq<char>,
)
    ensures
        ({
            let after = sessions_after_open(sessions, session_id, cwd);
            &&& after.dom().contains(session_id)
            &&& after[session_id].cwd == cwd
            &&& other != session_id ==> {
                &&& after.dom().contains(other) <==> sessions.dom().contains(other)
                &&& sessions.dom().contains(other) ==> after[other] == sessions[other]
            }
        }),
{
}

/// Stopping a session leaves every other session as it is.
pub proof fn law_stop_takes_one(
    sessions: Map<Seq<char>, AcpSession>,
    params: Option<JsonTree>,
    other: Seq<char>,
)
    ensures
        ({
            let after = sessions_after_stop(sessions, params);
            &&& named_session(params) matches Ok(session_id) ==> !after.dom().contains(session_id)
            &&& named_session(params) != Ok::<Seq<char>, ErrorTree>(other) ==> {
                &&& after.dom().contains(other) <==> sessions.dom().contains(other)
                &&& sessions.dom().contains(other) ==> after[other] == sessions[other]
            }
        }),
{
}

/// A request to stop a session is answered by the id that it names and by
/// whether that session was open; that session alone is closed. One that names no
/// session is refused, and closes none.
pub proof fn law_stop_answered(sessions: Map<Seq<char>, AcpSession>, params: Option<JsonTree>)
    ensures
        named_session(params) matches Ok(session_id) ==> {
            &&& stop_result(sessions, params) matches Ok(result)
            &&& field(result, "session_id"@) == Some(JsonTree::Text(session_id))
            &&& field(result, "stopped"@) == Some(
                JsonTree::Bool(sessions.dom().contains(session_id)),
            )
            &&& forall|key: Seq<char>|
                key != "session_id"@ && key != "stopped"@ ==> #[trigger] field(result, key) is None
            &&& sessions_after_stop(sessions, params) == sessions.remove(session_id)
        },
        named_session(params) matches Err(error) ==> {
            &&& stop_result(sessions, params) == Err::<JsonTree, ErrorTree>(error)
            &&& sessions_after_stop(sessions, params) == sessions
        },
{
    reveal_strlit("session_id");
    reveal_strlit("stopped");
    assert("session_id"@.len() == 10 && "stopped"@.len() == 7);
}

/// A prompt is refused for the first of these that is wrong: its parameters, the
/// session that they name, the text; else it goes, as it was read, to the session
/// that is named, in the directory of that session.
pub proof fn law_prompt_request(
    sessions: Map<Seq<char>, AcpSession>,
    fields: Map<Seq<char>, JsonTree>,
    params: Option<JsonTree>,
)
    ensures
        object_params(params) matches Err(error) ==> prompt_request(sessions, params) == Err::<
            PromptTree,
            ErrorTree,
        >(error),
        ({
            let request = prompt_request(sessions, Some(JsonTree::Object(fields)));
            match named_session(Some(JsonTree::Object(fields))) {
                Err(error) => request == Err::<PromptTree, ErrorTree>(error),
                Ok(session_id) => match prompt_text(fields) {
                    Err(error) => request == Err::<PromptTree, ErrorTree>(error),
                    Ok(text) => if sessions.dom().contains(session_id) {
                        request matches Ok(prompt) && prompt.session_id == session_id
                            && prompt.prompt == text && prompt.cwd == sessions[session_id].cwd
                    } else {
                        request matches Err(error) && error.code == -32004 && error.message
                            == "Session not found: "@ + session_id && error.data is None
                    },
                },
            }
        }),
{
}

/// The result of opening a session says its id and its directory, as they are.
pub proof fn law_opened_members(session_id: Seq<char>, cwd: Seq<char>)
    ensures
        field(opened_tree(session_id, cwd), "session_id"@) == Some(JsonTree::Text(session_id)),
        field(opened_tree(session_id, cwd), "cwd"@) == Some(JsonTree::Text(cwd)),
        forall|key: Seq<char>|
            key != "session_id"@ && key != "cwd"@ ==> #[trigger] field(
                opened_tree(session_id, cwd),
                key,
            ) is None,
{
    reveal_strlit("session_id");
    reveal_strlit("cwd");
    assert("session_id"@.len() == 10 && "cwd"@.len() == 3);
}

/// The server says the version that it is given, its name and title, the version
/// of the protocol, and what it can do.
pub proof fn law_initialize_members(version: Seq<char>)
    ensures
        ({
            let result = initialize_tree(version);
            let info = field(result, "server_info"@);
            let able = field(result, "capabilities"@);
            &&& field(result, "protocol_version"@) == Some(JsonTree::Integer(1))
            &&& field_of(info, "name"@) == Some(JsonTree::Text("zeroclaw"@))
            &&& field_of(info, "title"@) == Some(JsonTree::Text("ZeroClaw ACP Server"@))
            &&& field_of(info, "version"@) == Some(JsonTree::Text(version))
            &&& field_of(able, "session"@) == Some(JsonTree::Bool(true))
            &&& field_of(able, "streaming_notifications"@) == Some(JsonTree::Bool(true))
            &&& field_of(able, "methods"@) matches Some(JsonTree::Array(methods)) && methods
                == seq![
                JsonTree::Text("initialize"@),
                JsonTree::Text("session/new"@),
                JsonTree::Text("session/prompt"@),
                JsonTree::Text("session/stop"@),
            ]
            &&& forall|key: Seq<char>|
                key != "protocol_version"@ && key != "server_info"@ && key != "capabilities"@
                    ==> #[trigger] field(result, key) is None
            &&& forall|key: Seq<char>|
                key != "name"@ && key != "title"@ && key != "version"@ ==> #[trigger] field_of(
                    info,
                    key,
                ) is None
            &&& forall|key: Seq<char>|
                key != "session"@ && key != "streaming_notifications"@ && key != "methods"@
                    ==> #[trigger] field_of(able, key) is None
        }),
{
    reveal_strlit("protocol_version");
    reveal_strlit("server_info");
    reveal_strlit("capabilities");
    reveal_strlit("name");
    reveal_strlit("title");
    reveal_strlit("version");
    reveal_strlit("session");
    reveal_strlit("streaming_notifications");
    reveal_strlit("methods");
    assert("protocol_version"@.len() == 16 && "server_info"@.len() == 11 && "capabilities"@.len()
        == 12);
    assert("name"@.len() == 4 && "title"@.len() == 5 && "version"@.len() == 7);
    assert("session"@[0] == 's' && "methods"@[0] == 'm');
    assert("streaming_notifications"@.len() == 23 && "session"@.len() == 7);
}

/// The notifications of a session say its id and what they are given, as it is.
pub proof fn law_notice_members(session_id: Seq<char>, text: Seq<char>)
    ensures
        ({
            let progress = progress_tree(session_id, text);
            let content = content_tree(session_id, text);
            let failure = failure_tree(session_id, text);
            &&& field(progress, "method"@) == Some(JsonTree::Text("session/progress"@))
            &&& field_of(field(progress, "params"@), "session_id"@) == Some(
                JsonTree::Text(session_id),
            )
            &&& field_of(field(progress, "params"@), "event"@) == Some(JsonTree::Text(text))
            &&& forall|key: Seq<char>|
                key != "session_id"@ && key != "event"@ ==> #[trigger] field_of(
                    field(progress, "params"@),
                    key,
                ) is None
            &&& forall|key: Seq<char>|
                key != "session_id"@ && key != "delta"@ ==> #[trigger] field_of(
                    field(content, "params"@),
                    key,
                ) is None
            &&& forall|key: Seq<char>|
                key != "session_id"@ && key != "event"@ && key != "error"@ ==> #[trigger] field_of(
                    field(failure, "params"@),
                    key,
                ) is None
            &&& field(content, "method"@) == Some(JsonTree::Text("session/content"@))
            &&& field_of(field(content, "params"@), "session_id"@) == Some(
                JsonTree::Text(session_id),
            )
            &&& field_of(field(content, "params"@), "delta"@) == Some(JsonTree::Text(text))
            &&& field(failure, "method"@) == Some(JsonTree::Text("session/progress"@))
            &&& field_of(field(failure, "params"@), "session_id"@) == Some(
                JsonTree::Text(session_id),
            )
            &&& field_of(field(failure, "params"@), "event"@) == Some(JsonTree::Text("failed"@))
            &&& field_of(field(failure, "params"@), "error"@) == Some(JsonTree::Text(text))
        }),
{
    reveal_strlit("jsonrpc");
    reveal_strlit("method");
    reveal_strlit("params");
    reveal_strlit("session_id");
    reveal_strlit("event");
    reveal_strlit("error");
    reveal_strlit("delta");
    assert("jsonrpc"@.len() == 7 && "method"@[0] == 'm' && "params"@[0] == 'p');
    assert("session_id"@.len() == 10);
    assert("event"@[1] == 'v' && "error"@[1] == 'r' && "delta"@[1] == 'e');
}

/// The result of a prompt says the session and the answer of the agent, as it
/// is: as the response, and as the one item of the content.
pub proof fn law_answer_members(session_id: Seq<char>, text: Seq<char>)
    ensures
        ({
            let result = answer_tree(session_id, text);
            &&& field(result, "session_id"@) == Some(JsonTree::Text(session_id))
            &&& field(result, "response"@) == Some(JsonTree::Text(text))
            &&& field(result, "content"@) matches Some(JsonTree::Array(items)) && items.len() == 1
                && field(items[0], "type"@) == Some(JsonTree::Text("text"@)) && field(
                items[0],
                "text"@,
            ) == Some(JsonTree::Text(text)) && forall|key: Seq<char>|
                key != "type"@ && key != "text"@ ==> #[trigger] field(items[0], key) is None
            &&& forall|key: Seq<char>|
                key != "session_id"@ && key != "response"@ && key != "content"@
                    ==> #[trigger] field(result, key) is None
        }),
{
    reveal_strlit("session_id");
    reveal_strlit("response");
    reveal_strlit("content");
    reveal_strlit("type");
    reveal_strlit("text");
    assert("session_id"@.len() == 10 && "response"@.len() == 8 && "content"@.len() == 7);
    assert("type"@[1] == 'y' && "text"@[1] == 'e');
}

/// Once the agent answered, its answer is written, then that the work is
/// completed, then the reply with that answer; once it failed, why it failed,
/// then the reply with an error that says why.
pub proof fn law_prompt_outcome_written(
    id: JsonTree,
    session_id: Seq<char>,
    text: Seq<char>,
    detail: Seq<char>,
)
    ensures
        prompt_payloads(Some(id), session_id, Ok(text)) == seq![
            content_tree(session_id, text),
            progress_tree(session_id, "completed"@),
            result_reply(id, answer_tree(session_id, text)),
        ],
        prompt_payloads(None, session_id, Ok(text)) == seq![
            content_tree(session_id, text),
            progress_tree(session_id, "completed"@),
        ],
        prompt_payloads(None, session_id, Err(detail)) == seq![failure_tree(session_id, detail)],
        prompt_payloads(Some(id), session_id, Err(detail)).len() == 2,
        prompt_payloads(Some(id), session_id, Err(detail))[0] == failure_tree(session_id, detail),
        ({
            let error = field(prompt_payloads(Some(id), session_id, Err(detail))[1], "error"@);
            &&& field_of(error, "code"@) == Some(JsonTree::Integer(-32603))
            &&& field_of(error, "message"@) == Some(JsonTree::Text("Agent processing failed"@))
            &&& field_of(field_of(error, "data"@), "detail"@) == Some(JsonTree::Text(detail))
        }),
{
    let error = detailed_error(JSONRPC_INTERNAL_ERROR, "Agent processing failed"@, detail);
    law_error_members(error);
    law_error_parts(JSONRPC_INTERNAL_ERROR, "Agent processing failed"@, detail);
    law_reply_members(id, JsonTree::Null, error);
    assert(prompt_payloads(Some(id), session_id, Ok(text)) =~= seq![
        content_tree(session_id, text),
        progress_tree(session_id, "completed"@),
        result_reply(id, answer_tree(session_id, text)),
    ]);
    assert(prompt_payloads(None, session_id, Ok(text)) =~= seq![
        content_tree(session_id, text),
        progress_tree(session_id, "completed"@),
    ]);
    assert(prompt_payloads(None, session_id, Err(detail)) =~= seq![
        failure_tree(session_id, detail),
    ]);
    assert(prompt_payloads(Some(id), session_id, Err(detail)) =~= seq![
        failure_tree(session_id, detail),
        error_reply(id, error),
    ]);
}

/// What comes of a request or of a prompt, and a prompt itself, is taken as it is:
/// a text with all of its characters, and a value with its tree.
pub proof fn law_outcomes_kept(
    text: String,
    value: Json,
    error: JsonRpcErrorObject,
    prompt: PromptRequest,
    state: AcpServerState,
)
    ensures
        agent_tree(Ok(text)) == Ok::<Seq<char>, Seq<char>>(text@),
        agent_tree(Err(text)) == Err::<Seq<char>, Seq<char>>(text@),
        outcome_tree(Ok(value)) == Ok::<JsonTree, ErrorTree>(value@),
        outcome_tree(Err(error)) == Err::<JsonTree, ErrorTree>(error@),
        prompt@.session_id == prompt.session_id@,
        prompt@.prompt == prompt.prompt@,
        prompt@.cwd == prompt.cwd,
        state@ == state.sessions@,
{
}

/// A reply carries the id that it is given and what came of the request; without
/// an id there is none.
pub proof fn law_response(id: JsonTree, result: JsonTree, error: ErrorTree)
    ensures
        response(Some(id), Ok(result)) == Some(result_reply(id, result)),
        response(Some(id), Err(error)) == Some(error_reply(id, error)),
        response(None, Ok(result)) is None,
        response(None, Err(error)) is None,
{
}

} // verus!
