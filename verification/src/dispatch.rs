//! What the ACP server does on each line that it reads.

use crate::acp_server::{
    answer_tree, content_tree, failure_tree, initialize_tree, named_session, opened_tree,
    outcome_tree, progress, progress_tree, prompt_payloads, prompt_request, prompt_text,
    required_text, respond, response, sessions_after_stop, stop_result, AcpServerState, AcpSession,
    PromptRequest, PromptTree,
};
use crate::cwd::{
    cwd_start, law_cwd_refused, no_current_dir, no_directory, path_text, requested_cwd, resolve_cwd,
    CwdStep, CwdStepTree,
};
use crate::ids::is_random_uuid;
use crate::json::{field, field_of, owned_tree_of, Json, JsonTree};
use crate::json_text::{decode_json, decoded, is_readable, nests_within, MAX_DEPTH};
use crate::rpc::{
    detail_json, detailed_error, error_reply, error_tree, is_id, json_rpc_error, law_error_members,
    law_error_parts, law_reply_members, law_request_members, notification_tree,
    parse_json_rpc_request, plain_error, request_of, ErrorTree, JsonRpcErrorObject, JsonRpcRequest,
    RequestTree, JSONRPC_INTERNAL_ERROR, JSONRPC_METHOD_NOT_FOUND, JSONRPC_PARSE_ERROR,
    JSONRPC_SESSION_NOT_FOUND, JSONRPC_VERSION,
};
use crate::text::{
    adjoin, is_blank, is_space, law_trim_takes_blank_ends, lemma_trimmed_blank, same_text, trim,
    trimmed,
};
use std::path::PathBuf;
use vstd::prelude::*;
use vstd::string::*;

verus! {

/// What is to be done on a line.
#[derive(Debug)]
pub enum Step {
    /// Nothing.
    Skip,
    /// Write `payload`.
    Reply { payload: Json },
    /// Find the directory, from `cwd` on, and go on with `finish_session`.
    OpenSession { reply_to: Option<Json>, cwd: CwdStep },
    /// Write `started`, hand `request` to the agent, and go on with
    /// `finish_prompt`.
    RunPrompt { reply_to: Option<Json>, started: Json, request: PromptRequest },
}

/// What a step says.
pub enum StepTree {
    Skip,
    Reply { payload: JsonTree },
    OpenSession { reply_to: Option<JsonTree>, cwd: CwdStepTree },
    RunPrompt { reply_to: Option<JsonTree>, started: JsonTree, request: PromptTree },
}

impl View for Step {
    type V = StepTree;

    open spec fn view(&self) -> StepTree {
        match *self {
            Step::Skip => StepTree::Skip,
            Step::Reply { payload } => StepTree::Reply { payload: payload@ },
            Step::OpenSession { reply_to, cwd } => StepTree::OpenSession {
                reply_to: owned_tree_of(reply_to),
                cwd: cwd@,
            },
            Step::RunPrompt { reply_to, started, request } => StepTree::RunPrompt {
                reply_to: owned_tree_of(reply_to),
                started: started@,
                request: request@,
            },
        }
    }
}

/// The step that answers a request at once.
pub open spec fn answered(
    reply_to: Option<JsonTree>,
    outcome: Result<JsonTree, ErrorTree>,
) -> StepTree {
    match response(reply_to, outcome) {
        Some(payload) => StepTree::Reply { payload },
        None => StepTree::Skip,
    }
}

/// The step for a request, by its method.
pub open spec fn dispatched(
    sessions: Map<Seq<char>, AcpSession>,
    request: RequestTree,
    version: Seq<char>,
) -> StepTree {
    if request.method == "initialize"@ {
        answered(request.id, Ok(initialize_tree(version)))
    } else if request.method == "session/new"@ {
        match cwd_start(request.params) {
            CwdStepTree::Failed { error } => answered(request.id, Err(error)),
            cwd => StepTree::OpenSession { reply_to: request.id, cwd },
        }
    } else if request.method == "session/stop"@ {
        answered(request.id, stop_result(sessions, request.params))
    } else if request.method == "session/prompt"@ {
        match prompt_request(sessions, request.params) {
            Ok(prompt) => StepTree::RunPrompt {
                reply_to: request.id,
                started: progress_tree(prompt.session_id, "started"@),
                request: prompt,
            },
            Err(error) => answered(request.id, Err(error)),
        }
    } else {
        answered(
            request.id,
            Err(plain_error(JSONRPC_METHOD_NOT_FOUND, "Method not found: "@ + request.method)),
        )
    }
}

/// The sessions that are open once a request is taken.
pub open spec fn sessions_after(
    sessions: Map<Seq<char>, AcpSession>,
    request: RequestTree,
) -> Map<Seq<char>, AcpSession> {
    if request.method == "session/stop"@ {
        sessions_after_stop(sessions, request.params)
    } else {
        sessions
    }
}

/// The step for what was read from a line: a value, or the description of why
/// it was none.
pub open spec fn handled(
    sessions: Map<Seq<char>, AcpSession>,
    inbound: Result<JsonTree, Seq<char>>,
    version: Seq<char>,
) -> StepTree {
    match inbound {
        Err(detail) => StepTree::Reply {
            payload: error_reply(
                JsonTree::Null,
                detailed_error(JSONRPC_PARSE_ERROR, "Parse error"@, detail),
            ),
        },
        Ok(value) => match request_of(value) {
            Err(error) => StepTree::Reply { payload: error_reply(JsonTree::Null, error) },
            Ok(request) => dispatched(sessions, request, version),
        },
    }
}

/// The sessions that are open once a line is taken.
pub open spec fn sessions_after_inbound(
    sessions: Map<Seq<char>, AcpSession>,
    inbound: Result<JsonTree, Seq<char>>,
) -> Map<Seq<char>, AcpSession> {
    match inbound {
        Err(_) => sessions,
        Ok(value) => match request_of(value) {
            Err(_) => sessions,
            Ok(request) => sessions_after(sessions, request),
        },
    }
}

/// The step for a line.
pub open spec fn received(
    sessions: Map<Seq<char>, AcpSession>,
    line: Seq<char>,
    version: Seq<char>,
) -> StepTree {
    if trimmed(line).len() == 0 {
        StepTree::Skip
    } else {
        handled(sessions, decoded(trimmed(line)), version)
    }
}

/// The sessions that are open once a line is taken, by its characters.
pub open spec fn sessions_after_line(
    sessions: Map<Seq<char>, AcpSession>,
    line: Seq<char>,
) -> Map<Seq<char>, AcpSession> {
    if trimmed(line).len() == 0 {
        sessions
    } else {
        sessions_after_inbound(sessions, decoded(trimmed(line)))
    }
}

/// What was read from a line, by its tree or the characters of the error.
pub open spec fn inbound_tree(inbound: Result<Json, String>) -> Result<JsonTree, Seq<char>> {
    match inbound {
        Ok(value) => Ok(value@),
        Err(detail) => Err(detail@),
    }
}

fn answer_now(reply_to: Option<Json>, outcome: Result<Json, JsonRpcErrorObject>) -> (r: Step)
    ensures
        r@ == answered(owned_tree_of(reply_to), outcome_tree(outcome)),
{
    match respond(reply_to, outcome) {
        Some(payload) => Step::Reply { payload },
        None => Step::Skip,
    }
}

impl AcpServerState {
    /// Takes a request.
    pub fn dispatch(&mut self, request: JsonRpcRequest, version: &str) -> (r: Step)
        ensures
            r@ == dispatched(old(self)@, request@, version@),
            final(self)@ == sessions_after(old(self)@, request@),
    {
        proof {
            reveal_strlit("initialize");
            reveal_strlit("session/new");
            reveal_strlit("session/stop");
            reveal_strlit("session/prompt");
        }
        let method = request.method.as_str();
        if same_text(method, "initialize") {
            let result = self.initialize_result(version);
            answer_now(request.id, Ok(result))
        } else if same_text(method, "session/new") {
            match resolve_cwd(request.params.as_ref()) {
                CwdStep::Failed { error } => answer_now(request.id, Err(error)),
                cwd => Step::OpenSession { reply_to: request.id, cwd },
            }
        } else if same_text(method, "session/stop") {
            let outcome = self.stop_session(request.params.as_ref());
            answer_now(request.id, outcome)
        } else if same_text(method, "session/prompt") {
            match self.resolve_prompt_request(request.params.as_ref()) {
                Ok(prompt) => Step::RunPrompt {
                    reply_to: request.id,
                    started: progress(prompt.session_id.as_str(), "started"),
                    request: prompt,
                },
                Err(error) => answer_now(request.id, Err(error)),
            }
        } else {
            let message = adjoin("Method not found: ", method);
            answer_now(request.id, Err(JsonRpcErrorObject::new(JSONRPC_METHOD_NOT_FOUND, message)))
        }
    }

    /// Takes what was read from a line: a value, or the description of why it
    /// was none.
    pub fn handle_inbound(&mut self, inbound: Result<Json, String>, version: &str) -> (r: Step)
        ensures
            r@ == handled(old(self)@, inbound_tree(inbound), version@),
            final(self)@ == sessions_after_inbound(old(self)@, inbound_tree(inbound)),
    {
        match inbound {
            Err(detail) => {
                let error = JsonRpcErrorObject::with_data(
                    JSONRPC_PARSE_ERROR,
                    "Parse error".to_owned(),
                    detail_json(detail),
                );
                Step::Reply { payload: json_rpc_error(Json::Null, error) }
            },
            Ok(value) => match parse_json_rpc_request(value) {
                Err(error) => Step::Reply { payload: json_rpc_error(Json::Null, error) },
                Ok(request) => self.dispatch(request, version),
            },
        }
    }

    /// Takes a line. A blank line is skipped.
    pub fn receive_line(&mut self, line: &str, version: &str) -> (r: Step)
        ensures
            trimmed(line@).len() == 0 ==> r@ == StepTree::Skip && final(self)@ == old(self)@,
            trimmed(line@).len() > 0 ==> {
                &&& r@ == handled(old(self)@, decoded(trimmed(line@)), version@)
                &&& final(self)@ == sessions_after_inbound(old(self)@, decoded(trimmed(line@)))
            },
            r@ == received(old(self)@, line@, version@),
            final(self)@ == sessions_after_line(old(self)@, line@),
    {
        let text = trim(line);
        if text.is_empty() {
            return Step::Skip;
        }
        self.handle_inbound(decode_json(text), version)
    }

    /// Ends the opening of a session: with the directory that was found, or
    /// with why there is none.
    pub fn finish_session(
        &mut self,
        reply_to: Option<Json>,
        found: Result<PathBuf, JsonRpcErrorObject>,
    ) -> (r: Option<Json>)
        ensures
            match found {
                Err(error) => {
                    &&& final(self)@ == old(self)@
                    &&& owned_tree_of(r) == response(owned_tree_of(reply_to), Err(error@))
                },
                Ok(cwd) => exists|uuid: Seq<char>|
                    {
                        &&& is_random_uuid(uuid)
                        &&& final(self)@ == old(self)@.insert("zc-"@ + uuid, AcpSession { cwd })
                        &&& owned_tree_of(r) == response(
                            owned_tree_of(reply_to),
                            Ok(opened_tree(#[trigger] ("zc-"@ + uuid), path_text(cwd))),
                        )
                    },
            },
    {
        match found {
            Ok(path) => {
                let result = self.create_session(path);
                respond(reply_to, Ok(result))
            },
            Err(error) => respond(reply_to, Err(error)),
        }
    }
}

/// Tells whether `payload` is a reply to the request with the id `id`: it has
/// that id, and either a result or an error, not both.
pub open spec fn is_reply_to(payload: JsonTree, id: JsonTree) -> bool {
    &&& field(payload, "jsonrpc"@) == Some(JsonTree::Text(JSONRPC_VERSION@))
    &&& field(payload, "id"@) == Some(id)
    &&& field(payload, "result"@) is Some <==> field(payload, "error"@) is None
    &&& field(payload, "method"@) is None
}

/// Tells whether `payload` is a notification: it has a method, and no id,
/// result or error.
pub open spec fn is_notification(payload: JsonTree) -> bool {
    &&& field(payload, "jsonrpc"@) == Some(JsonTree::Text(JSONRPC_VERSION@))
    &&& field(payload, "method"@) is Some
    &&& field(payload, "id"@) is None
    &&& field(payload, "result"@) is None
    &&& field(payload, "error"@) is None
}

proof fn lemma_member_names()
    ensures
        "jsonrpc"@ != "id"@,
        "jsonrpc"@ != "result"@,
        "jsonrpc"@ != "error"@,
        "jsonrpc"@ != "method"@,
        "jsonrpc"@ != "params"@,
        "id"@ != "result"@,
        "id"@ != "error"@,
        "id"@ != "method"@,
        "id"@ != "params"@,
        "result"@ != "error"@,
        "result"@ != "method"@,
        "result"@ != "params"@,
        "error"@ != "method"@,
        "error"@ != "params"@,
        "method"@ != "params"@,
{
    reveal_strlit("jsonrpc");
    reveal_strlit("id");
    reveal_strlit("result");
    reveal_strlit("error");
    reveal_strlit("method");
    reveal_strlit("params");
    assert("jsonrpc"@.len() == 7 && "id"@.len() == 2 && "error"@.len() == 5);
    assert("result"@.len() == 6 && "method"@.len() == 6 && "params"@.len() == 6);
    assert("result"@[0] == 'r' && "method"@[0] == 'm' && "params"@[0] == 'p');
}

/// A reply carries the id of its request and what came of it: the result where
/// there is one, and the error otherwise.
pub proof fn law_reply_form(id: JsonTree, outcome: Result<JsonTree, ErrorTree>)
    ensures
        response(Some(id), outcome) matches Some(payload) && is_reply_to(payload, id) && match outcome {
            Ok(result) => field(payload, "result"@) == Some(result),
            Err(error) => field(payload, "error"@) == Some(error_tree(error)),
        },
{
    lemma_member_names();
}

proof fn lemma_notification_form(method: Seq<char>, params: JsonTree)
    ensures
        is_notification(notification_tree(method, params)),
{
    lemma_member_names();
}

/// A request without an id is never answered: no step for it is a reply, and
/// what comes of it later is handed to no id.
pub proof fn law_notification_unanswered(
    sessions: Map<Seq<char>, AcpSession>,
    request: RequestTree,
    version: Seq<char>,
    outcome: Result<JsonTree, ErrorTree>,
)
    requires
        request.id is None,
    ensures
        match dispatched(sessions, request, version) {
            StepTree::Skip => true,
            StepTree::Reply { .. } => false,
            StepTree::OpenSession { reply_to, .. } => reply_to is None,
            StepTree::RunPrompt { reply_to, .. } => reply_to is None,
        },
        response(None, outcome) is None,
{
}

/// A request with an id is answered at once under that id, or is kept together
/// with that id until it is answered.
pub proof fn law_request_answered(
    sessions: Map<Seq<char>, AcpSession>,
    request: RequestTree,
    version: Seq<char>,
)
    requires
        request.id is Some,
    ensures
        match dispatched(sessions, request, version) {
            StepTree::Skip => false,
            StepTree::Reply { payload } => is_reply_to(payload, request.id->0),
            StepTree::OpenSession { reply_to, .. } => reply_to == request.id,
            StepTree::RunPrompt { reply_to, .. } => reply_to == request.id,
        },
{
    let id = request.id->0;
    law_reply_form(id, Ok(initialize_tree(version)));
    law_reply_form(id, stop_result(sessions, request.params));
    if let CwdStepTree::Failed { error } = cwd_start(request.params) {
        law_reply_form(id, Err(error));
    }
    if let Err(error) = prompt_request(sessions, request.params) {
        law_reply_form(id, Err(error));
    }
    law_reply_form(
        id,
        Err(plain_error(JSONRPC_METHOD_NOT_FOUND, "Method not found: "@ + request.method)),
    );
}

/// What is written before the reply, if one is due.
pub open spec fn without_reply(
    reply_to: Option<JsonTree>,
    written: Seq<JsonTree>,
) -> Seq<JsonTree> {
    if reply_to is Some {
        written.drop_last()
    } else {
        written
    }
}

/// Of what is written for a prompt, the reply is the last payload, and is
/// there if and only if the request has an id; all others are notifications.
pub proof fn law_prompt_payloads(
    reply_to: Option<JsonTree>,
    session_id: Seq<char>,
    outcome: Result<Seq<char>, Seq<char>>,
)
    ensures
        is_notification(progress_tree(session_id, "started"@)),
        ({
            let written = prompt_payloads(reply_to, session_id, outcome);
            let notices = without_reply(reply_to, written);
            &&& written.len() > 0
            &&& reply_to is Some ==> is_reply_to(written.last(), reply_to->0)
            &&& forall|i: int|
                0 <= i < notices.len() ==> is_notification(#[trigger] notices[i])
        }),
{
    lemma_session_notices(session_id);
    if let Some(id) = reply_to {
        match outcome {
            Ok(text) => law_reply_form(id, Ok(answer_tree(session_id, text))),
            Err(detail) => law_reply_form(
                id,
                Err(detailed_error(JSONRPC_INTERNAL_ERROR, "Agent processing failed"@, detail)),
            ),
        }
    }
}

proof fn lemma_session_notices(session_id: Seq<char>)
    ensures
        forall|event: Seq<char>| is_notification(#[trigger] progress_tree(session_id, event)),
        forall|s: Seq<char>| is_notification(#[trigger] content_tree(session_id, s)),
        forall|s: Seq<char>| is_notification(#[trigger] failure_tree(session_id, s)),
{
    assert forall|method: Seq<char>, params: JsonTree|
        is_notification(#[trigger] notification_tree(method, params)) by {
        lemma_notification_form(method, params);
    }
}

/// A line that holds no request is answered by an error under the id `null`,
/// and changes nothing.
pub proof fn law_malformed_refused(
    sessions: Map<Seq<char>, AcpSession>,
    inbound: Result<JsonTree, Seq<char>>,
    version: Seq<char>,
)
    requires
        inbound is Err || request_of(inbound->Ok_0) is Err,
    ensures
        sessions_after_inbound(sessions, inbound) == sessions,
        handled(sessions, inbound, version) matches StepTree::Reply { payload } && is_reply_to(
            payload,
            JsonTree::Null,
        ) && field(payload, "error"@) is Some,
{
    match inbound {
        Err(detail) => {
            law_reply_form(
                JsonTree::Null,
                Err(detailed_error(JSONRPC_PARSE_ERROR, "Parse error"@, detail)),
            );
        },
        Ok(value) => {
            law_reply_form(JsonTree::Null, Err(request_of(value)->Err_0));
        },
    }
}

/// Taking a line opens no session (that is for `finish_session`) and moves none
/// to another directory; and only the method `session/stop` closes one, namely
/// that which it names.
pub proof fn law_sessions_kept(
    sessions: Map<Seq<char>, AcpSession>,
    inbound: Result<JsonTree, Seq<char>>,
    session_id: Seq<char>,
)
    ensures
        ({
            let after = sessions_after_inbound(sessions, inbound);
            &&& after.contains_key(session_id) ==> sessions.contains_key(session_id)
                && after[session_id] == sessions[session_id]
            &&& sessions.contains_key(session_id) && !after.contains_key(session_id) ==> {
                &&& inbound matches Ok(value)
                &&& request_of(value) matches Ok(request)
                &&& request.method == "session/stop"@
                &&& named_session(request.params) == Ok::<Seq<char>, ErrorTree>(session_id)
            }
        }),
{
}

/// A session that was opened is stopped by the first request that names it,
/// and only by the first; stopping it takes back what opening it did.
pub proof fn law_open_then_stop(
    sessions: Map<Seq<char>, AcpSession>,
    session_id: Seq<char>,
    session: AcpSession,
    params: Option<JsonTree>,
)
    requires
        named_session(params) == Ok::<Seq<char>, ErrorTree>(session_id),
    ensures
        ({
            let opened = sessions.insert(session_id, session);
            let stopped = sessions_after_stop(opened, params);
            &&& stop_result(opened, params) matches Ok(result) && field(result, "stopped"@) == Some(
                JsonTree::Bool(true),
            )
            &&& stop_result(stopped, params) matches Ok(result) && field(result, "stopped"@)
                == Some(JsonTree::Bool(false))
            &&& sessions_after_stop(stopped, params) == stopped
            &&& !sessions.contains_key(session_id) ==> stopped == sessions
        }),
{
    reveal_strlit("session_id");
    reveal_strlit("stopped");
    let opened = sessions.insert(session_id, session);
    let stopped = sessions_after_stop(opened, params);
    assert(sessions_after_stop(stopped, params) =~= stopped);
    if !sessions.contains_key(session_id) {
        assert(stopped =~= sessions);
    }
}

/// A prompt goes to the session that it names, in the directory that the
/// session was opened in; before that session is opened and after it is
/// stopped the prompt is refused, since there is no such session.
pub proof fn law_prompt_needs_session(
    sessions: Map<Seq<char>, AcpSession>,
    session_id: Seq<char>,
    session: AcpSession,
    fields: Map<Seq<char>, JsonTree>,
)
    requires
        required_text(fields, "session_id"@) == Ok::<Seq<char>, ErrorTree>(session_id),
        prompt_text(fields) is Ok,
    ensures
        ({
            let params = Some(JsonTree::Object(fields));
            let missing = Err::<PromptTree, ErrorTree>(
                plain_error(JSONRPC_SESSION_NOT_FOUND, "Session not found: "@ + session_id),
            );
            let opened = sessions.insert(session_id, session);
            &&& !sessions.contains_key(session_id) ==> prompt_request(sessions, params) == missing
            &&& prompt_request(opened, params) == Ok::<PromptTree, ErrorTree>(
                PromptTree { session_id, cwd: session.cwd, prompt: prompt_text(fields)->Ok_0 },
            )
            &&& prompt_request(sessions_after_stop(opened, params), params) == missing
        }),
{
}

/// The id of a session that was opened can be named: it is not blank.
pub proof fn law_session_id_usable(uuid: Seq<char>, fields: Map<Seq<char>, JsonTree>)
    requires
        fields.contains_key("session_id"@),
        fields["session_id"@] == JsonTree::Text("zc-"@ + uuid),
    ensures
        named_session(Some(JsonTree::Object(fields))) == Ok::<Seq<char>, ErrorTree>("zc-"@ + uuid),
{
    reveal_strlit("zc-");
    let id = "zc-"@ + uuid;
    assert(!is_space(id[0]));
    lemma_trimmed_blank(id);
}

/// Tells whether a request may be answered under an id that is read back as it
/// was written: any id but a number that is no integer.
pub open spec fn has_plain_id(reply_to: Option<JsonTree>) -> bool {
    reply_to matches Some(id) ==> is_id(id) && !(id is Fraction)
}

/// Tells whether what came of a request leaves room for the reply around it.
pub open spec fn is_shallow(outcome: Result<JsonTree, ErrorTree>) -> bool {
    match outcome {
        Ok(result) => nests_within(result, (MAX_DEPTH - 1) as nat),
        Err(error) => error.data matches Some(data) ==> nests_within(data, (MAX_DEPTH - 2) as nat),
    }
}

proof fn lemma_response_readable(reply_to: Option<JsonTree>, outcome: Result<JsonTree, ErrorTree>)
    requires
        has_plain_id(reply_to),
        is_shallow(outcome),
    ensures
        response(reply_to, outcome) matches Some(payload) ==> is_readable(payload),
{
    reveal_with_fuel(nests_within, 3);
}

proof fn lemma_notices_readable(session_id: Seq<char>, s: Seq<char>)
    ensures
        is_readable(progress_tree(session_id, s)),
        is_readable(content_tree(session_id, s)),
        is_readable(failure_tree(session_id, s)),
{
    reveal_with_fuel(nests_within, 3);
}

proof fn lemma_results_shallow(
    sessions: Map<Seq<char>, AcpSession>,
    params: Option<JsonTree>,
    version: Seq<char>,
    session_id: Seq<char>,
    text: Seq<char>,
)
    ensures
        is_shallow(Ok(initialize_tree(version))),
        is_shallow(stop_result(sessions, params)),
        is_shallow(Ok(opened_tree(session_id, text))),
        is_shallow(Ok(answer_tree(session_id, text))),
{
    reveal_with_fuel(nests_within, 4);
}

proof fn lemma_detail_shallow(code: i64, message: Seq<char>, detail: Seq<char>)
    ensures
        is_shallow(Err(detailed_error(code, message, detail))),
{
    reveal_with_fuel(nests_within, 2);
}

/// What the server writes at once, on a line, is readable, so that the client
/// gets back what was written; but for an id that the client sent and that is
/// no integer.
pub proof fn law_replies_readable(
    sessions: Map<Seq<char>, AcpSession>,
    inbound: Result<JsonTree, Seq<char>>,
    version: Seq<char>,
)
    requires
        inbound matches Ok(value) ==> !(field(value, "id"@) matches Some(id) && id is Fraction),
    ensures
        match handled(sessions, inbound, version) {
            StepTree::Reply { payload } => is_readable(payload),
            StepTree::RunPrompt { started, .. } => is_readable(started),
            _ => true,
        },
{
    match inbound {
        Err(detail) => {
            lemma_detail_shallow(JSONRPC_PARSE_ERROR, "Parse error"@, detail);
            lemma_response_readable(
                Some(JsonTree::Null),
                Err(detailed_error(JSONRPC_PARSE_ERROR, "Parse error"@, detail)),
            );
        },
        Ok(value) => match request_of(value) {
            Err(error) => {
                lemma_response_readable(Some(JsonTree::Null), Err(error));
            },
            Ok(request) => {
                lemma_dispatched_readable(sessions, request, version);
            },
        },
    }
}

proof fn lemma_dispatched_readable(
    sessions: Map<Seq<char>, AcpSession>,
    request: RequestTree,
    version: Seq<char>,
)
    requires
        has_plain_id(request.id),
    ensures
        match dispatched(sessions, request, version) {
            StepTree::Reply { payload } => is_readable(payload),
            StepTree::RunPrompt { started, .. } => is_readable(started),
            _ => true,
        },
{
    lemma_results_shallow(sessions, request.params, version, seq![], seq![]);
    lemma_response_readable(request.id, Ok(initialize_tree(version)));
    lemma_response_readable(request.id, stop_result(sessions, request.params));
    if let CwdStepTree::Failed { error } = cwd_start(request.params) {
        lemma_response_readable(request.id, Err(error));
    }
    match prompt_request(sessions, request.params) {
        Ok(prompt) => {
            lemma_notices_readable(prompt.session_id, "started"@);
        },
        Err(error) => {
            lemma_response_readable(request.id, Err(error));
        },
    }
    lemma_response_readable(
        request.id,
        Err(plain_error(JSONRPC_METHOD_NOT_FOUND, "Method not found: "@ + request.method)),
    );
}

/// What the server writes once a session is opened, or no directory is found for
/// it, or a prompt is done, is readable, but for an id that is no integer.
pub proof fn law_outcomes_readable(
    reply_to: Option<JsonTree>,
    session_id: Seq<char>,
    cwd: Seq<char>,
    outcome: Result<Seq<char>, Seq<char>>,
)
    requires
        has_plain_id(reply_to),
    ensures
        response(reply_to, Ok(opened_tree(session_id, cwd))) matches Some(payload) ==> is_readable(
            payload,
        ),
        response(reply_to, Err(no_directory(cwd))) matches Some(payload) ==> is_readable(payload),
        response(reply_to, Err(no_current_dir(cwd))) matches Some(payload) ==> is_readable(payload),
        forall|i: int|
            0 <= i < prompt_payloads(reply_to, session_id, outcome).len() ==> is_readable(
                #[trigger] prompt_payloads(reply_to, session_id, outcome)[i],
            ),
{
    lemma_results_shallow(map![], None, seq![], session_id, cwd);
    lemma_response_readable(reply_to, Ok(opened_tree(session_id, cwd)));
    lemma_response_readable(reply_to, Err(no_directory(cwd)));
    lemma_detail_shallow(
        JSONRPC_INTERNAL_ERROR,
        "Failed to resolve current working directory"@,
        cwd,
    );
    lemma_response_readable(reply_to, Err(no_current_dir(cwd)));
    lemma_notices_readable(session_id, "completed"@);
    match outcome {
        Ok(text) => {
            lemma_results_shallow(map![], None, seq![], session_id, text);
            lemma_notices_readable(session_id, text);
            lemma_response_readable(reply_to, Ok(answer_tree(session_id, text)));
        },
        Err(detail) => {
            lemma_notices_readable(session_id, detail);
            lemma_detail_shallow(JSONRPC_INTERNAL_ERROR, "Agent processing failed"@, detail);
            lemma_response_readable(
                reply_to,
                Err(detailed_error(JSONRPC_INTERNAL_ERROR, "Agent processing failed"@, detail)),
            );
        },
    }
}

/// The methods in what the server says of itself.
pub open spec fn offered_methods(result: JsonTree) -> Seq<JsonTree> {
    match field(result, "capabilities"@) {
        Some(capabilities) => match field(capabilities, "methods"@) {
            Some(JsonTree::Array(methods)) => methods,
            _ => seq![],
        },
        None => seq![],
    }
}

/// The server knows a method if and only if it says so of itself: a request is
/// answered by the error that says that there is no such method exactly where
/// the method is not among those that `initialize` returns.
pub proof fn law_methods_offered(
    sessions: Map<Seq<char>, AcpSession>,
    request: RequestTree,
    version: Seq<char>,
)
    requires
        request.id is Some,
    ensures
        ({
            let unknown = answered(
                request.id,
                Err(plain_error(JSONRPC_METHOD_NOT_FOUND, "Method not found: "@ + request.method)),
            );
            dispatched(sessions, request, version) == unknown <==> !offered_methods(
                initialize_tree(version),
            ).contains(JsonTree::Text(request.method))
        }),
{
    let methods = offered_methods(initialize_tree(version));
    reveal_strlit("protocol_version");
    reveal_strlit("server_info");
    reveal_strlit("capabilities");
    reveal_strlit("session");
    reveal_strlit("streaming_notifications");
    reveal_strlit("methods");
    assert("session"@[0] == 's');
    assert("methods"@[0] == 'm');
    assert(methods =~= seq![
        JsonTree::Text("initialize"@),
        JsonTree::Text("session/new"@),
        JsonTree::Text("session/prompt"@),
        JsonTree::Text("session/stop"@),
    ]);
    assert(methods[0] == JsonTree::Text("initialize"@));
    assert(methods[1] == JsonTree::Text("session/new"@));
    assert(methods[2] == JsonTree::Text("session/prompt"@));
    assert(methods[3] == JsonTree::Text("session/stop"@));
    let id = request.id->0;
    let missing = plain_error(
        JSONRPC_METHOD_NOT_FOUND,
        "Method not found: "@ + request.method,
    );
    law_reply_form(id, Err(missing));
    law_reply_form(id, Ok(initialize_tree(version)));
    law_reply_form(id, stop_result(sessions, request.params));
    if let CwdStepTree::Failed { error } = cwd_start(request.params) {
        law_reply_form(id, Err(error));
        lemma_error_code(error, missing);
    }
    if let Err(error) = prompt_request(sessions, request.params) {
        law_reply_form(id, Err(error));
        lemma_error_code(error, missing);
    }
    if let Err(error) = stop_result(sessions, request.params) {
        lemma_error_code(error, missing);
    }
}

proof fn lemma_error_code(a: ErrorTree, b: ErrorTree)
    ensures
        error_tree(a) == error_tree(b) ==> a.code == b.code,
{
    reveal_strlit("code");
    reveal_strlit("message");
    reveal_strlit("data");
    assert("code"@[0] == 'c');
    assert("data"@[0] == 'd');
    assert(field(error_tree(a), "code"@) == Some(JsonTree::Integer(a.code)));
    assert(field(error_tree(b), "code"@) == Some(JsonTree::Integer(b.code)));
}

/// A reply to a line carries exactly the id in that line, of whatever kind it is,
/// and so does what is kept until it is answered; a line without an id is not
/// answered.
pub proof fn law_line_id_answered(
    sessions: Map<Seq<char>, AcpSession>,
    value: JsonTree,
    version: Seq<char>,
)
    requires
        request_of(value) is Ok,
    ensures
        match handled(sessions, Ok(value), version) {
            StepTree::Skip => field(value, "id"@) is None,
            StepTree::Reply { payload } => field(value, "id"@) is Some && field(payload, "id"@)
                == field(value, "id"@),
            StepTree::OpenSession { reply_to, .. } => reply_to == field(value, "id"@),
            StepTree::RunPrompt { reply_to, .. } => reply_to == field(value, "id"@),
        },
{
    law_request_members(value);
    let request = request_of(value)->Ok_0;
    if request.id is Some {
        law_request_answered(sessions, request, version);
    } else {
        law_notification_unanswered(sessions, request, version, Ok(JsonTree::Null));
    }
}

proof fn lemma_method_names()
    ensures
        "initialize"@ != "session/new"@,
        "initialize"@ != "session/stop"@,
        "initialize"@ != "session/prompt"@,
        "session/new"@ != "session/stop"@,
        "session/new"@ != "session/prompt"@,
        "session/stop"@ != "session/prompt"@,
{
    reveal_strlit("initialize");
    reveal_strlit("session/new");
    reveal_strlit("session/stop");
    reveal_strlit("session/prompt");
    assert("initialize"@.len() == 10 && "session/new"@.len() == 11);
    assert("session/stop"@.len() == 12 && "session/prompt"@.len() == 14);
}

/// Each method is answered by what it is for: `initialize` by what the server
/// says of itself, `session/stop` by what comes of stopping, and any other but
/// the two that take longer by the error that names it.
pub proof fn law_methods_answered(
    sessions: Map<Seq<char>, AcpSession>,
    request: RequestTree,
    version: Seq<char>,
)
    requires
        request.id is Some,
    ensures
        request.method == "initialize"@ ==> {
            dispatched(sessions, request, version) matches StepTree::Reply { payload } && field(
                payload,
                "result"@,
            ) == Some(initialize_tree(version))
        },
        request.method == "session/stop"@ ==> {
            &&& dispatched(sessions, request, version) matches StepTree::Reply { payload }
            &&& match stop_result(sessions, request.params) {
                Ok(result) => field(payload, "result"@) == Some(result),
                Err(error) => field(payload, "error"@) == Some(error_tree(error)),
            }
        },
        request.method != "initialize"@ && request.method != "session/new"@ && request.method
            != "session/stop"@ && request.method != "session/prompt"@ ==> {
            &&& dispatched(sessions, request, version) matches StepTree::Reply { payload }
            &&& field_of(field(payload, "error"@), "code"@) == Some(JsonTree::Integer(-32601))
            &&& field_of(field(payload, "error"@), "message"@) == Some(
                JsonTree::Text("Method not found: "@ + request.method),
            )
        },
{
    lemma_method_names();
    let id = request.id->0;
    let missing = plain_error(
        JSONRPC_METHOD_NOT_FOUND,
        "Method not found: "@ + request.method,
    );
    law_reply_form(id, Ok(initialize_tree(version)));
    law_reply_form(id, stop_result(sessions, request.params));
    law_reply_form(id, Err(missing));
    law_error_members(missing);
}

/// Opening a session starts with the directory that the parameters ask for, and
/// is refused at once where they ask in a wrong way.
pub proof fn law_opening_starts(
    sessions: Map<Seq<char>, AcpSession>,
    request: RequestTree,
    version: Seq<char>,
)
    requires
        request.method == "session/new"@,
    ensures
        match requested_cwd(request.params) {
            Ok(_) => dispatched(sessions, request, version) matches StepTree::OpenSession {
                reply_to,
                cwd,
            } && reply_to == request.id && cwd == cwd_start(request.params),
            Err(error) => match request.id {
                Some(id) => dispatched(sessions, request, version) matches StepTree::Reply {
                    payload,
                } && field(payload, "error"@) == Some(error_tree(error)),
                None => dispatched(sessions, request, version) is Skip,
            },
        },
{
    lemma_method_names();
    law_cwd_refused(request.params);
    if let (Some(id), Err(error)) = (request.id, requested_cwd(request.params)) {
        law_reply_form(id, Err(error));
    }
}

/// A prompt that is accepted is run as it was read, and first it is told that
/// the work started, in the session that it is for; one that is refused is
/// answered by why.
pub proof fn law_prompt_runs(
    sessions: Map<Seq<char>, AcpSession>,
    request: RequestTree,
    version: Seq<char>,
)
    requires
        request.method == "session/prompt"@,
    ensures
        match prompt_request(sessions, request.params) {
            Ok(prompt) => dispatched(sessions, request, version) matches StepTree::RunPrompt {
                reply_to,
                started,
                request: run,
            } && reply_to == request.id && run == prompt && started == progress_tree(
                prompt.session_id,
                "started"@,
            ),
            Err(error) => match request.id {
                Some(id) => dispatched(sessions, request, version) matches StepTree::Reply {
                    payload,
                } && field(payload, "error"@) == Some(error_tree(error)),
                None => dispatched(sessions, request, version) is Skip,
            },
        },
{
    lemma_method_names();
    if let (Some(id), Err(error)) = (request.id, prompt_request(sessions, request.params)) {
        law_reply_form(id, Err(error));
    }
}

/// A request to stop a session closes the session that it names, and no request
/// of another method closes any.
pub proof fn law_stop_closes(sessions: Map<Seq<char>, AcpSession>, request: RequestTree)
    ensures
        request.method == "session/stop"@ ==> {
            named_session(request.params) matches Ok(session_id) ==> sessions_after(
                sessions,
                request,
            ) == sessions.remove(session_id)
        },
        request.method != "session/stop"@ ==> sessions_after(sessions, request) == sessions,
{
}

/// A line that cannot be read is answered by a parse error that says why, and a
/// value that is no request by the error that says why it is none.
pub proof fn law_refusals_say_why(
    sessions: Map<Seq<char>, AcpSession>,
    detail: Seq<char>,
    value: JsonTree,
    version: Seq<char>,
)
    ensures
        ({
            &&& handled(sessions, Err(detail), version) matches StepTree::Reply { payload }
            &&& field(payload, "id"@) == Some(JsonTree::Null)
            &&& field_of(field(payload, "error"@), "code"@) == Some(JsonTree::Integer(-32700))
            &&& field_of(field(payload, "error"@), "message"@) == Some(
                JsonTree::Text("Parse error"@),
            )
            &&& field_of(field_of(field(payload, "error"@), "data"@), "detail"@) == Some(
                JsonTree::Text(detail),
            )
        }),
        request_of(value) matches Err(error) ==> {
            &&& handled(sessions, Ok(value), version) matches StepTree::Reply { payload }
            &&& field(payload, "id"@) == Some(JsonTree::Null)
            &&& field(payload, "error"@) == Some(error_tree(error))
        },
{
    let error = detailed_error(JSONRPC_PARSE_ERROR, "Parse error"@, detail);
    law_error_members(error);
    law_error_parts(JSONRPC_PARSE_ERROR, "Parse error"@, detail);
    law_reply_members(JsonTree::Null, JsonTree::Null, error);
    if let Err(error) = request_of(value) {
        law_reply_members(JsonTree::Null, JsonTree::Null, error);
    }
}

/// A blank line is skipped and changes nothing. Of any other line, what stands
/// between the white space around it is read, all of it, and taken.
pub proof fn law_line_read(
    sessions: Map<Seq<char>, AcpSession>,
    before: Seq<char>,
    text: Seq<char>,
    after: Seq<char>,
    version: Seq<char>,
)
    requires
        is_blank(before),
        is_blank(after),
        text.len() > 0 ==> !is_space(text.first()) && !is_space(text.last()),
    ensures
        ({
            let line = before + text + after;
            &&& text.len() == 0 ==> received(sessions, line, version) is Skip
                && sessions_after_line(sessions, line) == sessions
            &&& text.len() > 0 ==> {
                &&& received(sessions, line, version) == handled(sessions, decoded(text), version)
                &&& sessions_after_line(sessions, line) == sessions_after_inbound(
                    sessions,
                    decoded(text),
                )
            }
        }),
{
    law_trim_takes_blank_ends(before, text, after);
}

/// The sessions that are open once a line is taken are those that are open once
/// its request is; a line that holds none changes nothing.
pub proof fn law_sessions_by_request(
    sessions: Map<Seq<char>, AcpSession>,
    value: JsonTree,
    detail: Seq<char>,
)
    ensures
        sessions_after_inbound(sessions, Err(detail)) == sessions,
        request_of(value) matches Ok(request) ==> sessions_after_inbound(sessions, Ok(value))
            == sessions_after(sessions, request),
        request_of(value) is Err ==> sessions_after_inbound(sessions, Ok(value)) == sessions,
{
}

/// A step says what it holds, each as it is, and what was read is taken as it is.
pub proof fn law_step_view(step: Step, value: Json, detail: String)
    ensures
        step is Skip <==> step@ is Skip,
        step matches Step::Reply { payload } ==> step@ == (StepTree::Reply { payload: payload@ }),
        step matches Step::OpenSession { reply_to, cwd } ==> step@ == (StepTree::OpenSession {
            reply_to: owned_tree_of(reply_to),
            cwd: cwd@,
        }),
        step matches Step::RunPrompt { reply_to, started, request } ==> step@ == (
        StepTree::RunPrompt {
            reply_to: owned_tree_of(reply_to),
            started: started@,
            request: request@,
        }),
        inbound_tree(Ok(value)) == Ok::<JsonTree, Seq<char>>(value@),
        inbound_tree(Err(detail)) == Err::<JsonTree, Seq<char>>(detail@),
{
}

} // verus!
