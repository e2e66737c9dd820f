//! Following the app-server's messages: the reply to a call, and a turn
//! until it pauses for an approval or completes.

use vstd::prelude::*;
use crate::app_server::{
    AppServerError, AppServerErrorV, ApprovalRequestDraft, ApprovalRequestDraftV, CodexApprovalRequest,
    parse_approval_request, spec_exit_code, spec_parse_approval, spec_response_id,
    response_id, turn_status_exit_code, opt_string_view,
};
use crate::json::{Json, JsonV, jget, jget_str, jarray};
use crate::text::text_eq;

verus! {

/// What a message is to a pending call.
#[derive(Debug)]
pub enum CallReply {
    /// Not the reply to this call; it waits in the backlog.
    Other,
    /// The reply: the call's result, or why the call failed.
    Reply(Result<Json, AppServerError>),
}

pub enum CallReplyV {
    Other,
    Reply(Result<JsonV, AppServerErrorV>),
}

impl View for CallReply {
    type V = CallReplyV;

    open spec fn view(&self) -> CallReplyV {
        match self {
            CallReply::Other => CallReplyV::Other,
            CallReply::Reply(Ok(v)) => CallReplyV::Reply(Ok(v@)),
            CallReply::Reply(Err(e)) => CallReplyV::Reply(Err(e@)),
        }
    }
}

/// The reply to the call `request_id` of `method`, if `message` is it: its
/// `error` makes the call fail; otherwise its `result`, or else its
/// `response`, is the call's result.
pub open spec fn spec_call_reply(message: JsonV, request_id: Seq<char>, method: Seq<char>) -> CallReplyV {
    if spec_response_id(message) == Some(request_id) {
        match jget(message, "error"@) {
            Some(error) => CallReplyV::Reply(Err(AppServerErrorV::CallFailed(method, error))),
            None => match jget(message, "result"@) {
                Some(result) => CallReplyV::Reply(Ok(result)),
                None => match jget(message, "response"@) {
                    Some(response) => CallReplyV::Reply(Ok(response)),
                    None => CallReplyV::Reply(Err(AppServerErrorV::MissingResult(method))),
                },
            },
        }
    } else {
        CallReplyV::Other
    }
}

/// A message is the reply to a call exactly when its id (a string or a
/// number) is the call's id. The reply's `error` makes the call fail with
/// that error; otherwise the call gives the reply's `result`, or else its
/// `response`; a reply with none of them is an error.
pub proof fn lemma_call_reply(message: JsonV, request_id: Seq<char>, method: Seq<char>)
    ensures
        !(jget(message, "id"@) == Some(JsonV::Str(request_id)) || jget(message, "id"@) == Some(JsonV::Number(request_id)))
            ==> spec_call_reply(message, request_id, method) == CallReplyV::Other,
        jget(message, "id"@) == Some(JsonV::Str(request_id)) || jget(message, "id"@) == Some(JsonV::Number(request_id)) ==> {
            &&& jget(message, "error"@) matches Some(error) ==> spec_call_reply(message, request_id, method) == CallReplyV::Reply(
                Err(AppServerErrorV::CallFailed(method, error)),
            )
            &&& jget(message, "error"@) is None ==> (jget(message, "result"@) matches Some(result) ==> spec_call_reply(
                message,
                request_id,
                method,
            ) == CallReplyV::Reply(Ok(result)))
            &&& jget(message, "error"@) is None && jget(message, "result"@) is None ==> (jget(message, "response"@) matches Some(
                response,
            ) ==> spec_call_reply(message, request_id, method) == CallReplyV::Reply(Ok(response)))
            &&& jget(message, "error"@) is None && jget(message, "result"@) is None && jget(message, "response"@) is None
                ==> spec_call_reply(message, request_id, method) == CallReplyV::Reply(Err(AppServerErrorV::MissingResult(method)))
        },
{
}

pub fn match_call_reply(message: &Json, request_id: &str, method: &str) -> (r: CallReply)
    ensures
        r@ == spec_call_reply(message@, request_id@, method@),
{
    let id = response_id(message);
    let is_reply = match &id {
        Some(s) => text_eq(s.as_str(), request_id),
        None => false,
    };
    if !is_reply {
        return CallReply::Other;
    }
    if let Some(error) = message.get("error") {
        return CallReply::Reply(Err(AppServerError::CallFailed { method: method.to_owned(), error: error.deep_clone() }));
    }
    match message.get("result") {
        Some(result) => CallReply::Reply(Ok(result.deep_clone())),
        None => match message.get("response") {
            Some(response) => CallReply::Reply(Ok(response.deep_clone())),
            None => CallReply::Reply(Err(AppServerError::MissingResult { method: method.to_owned() })),
        },
    }
}

// ---------------------------------------------------------------------
// The last agent message of a turn, from a `thread/read` result.

/// The text of the last agent message among `items[..k]`, if any: an
/// agent message without text counts as empty text.
pub open spec fn spec_last_agent_item(items: Seq<JsonV>, k: int) -> Option<Seq<char>>
    decreases k,
{
    if k <= 0 || k > items.len() {
        None
    } else if jget_str(items[k - 1], "type"@) == Some("agentMessage"@) {
        Some(match jget_str(items[k - 1], "text"@) {
            Some(t) => t,
            None => Seq::empty(),
        })
    } else {
        spec_last_agent_item(items, k - 1)
    }
}

/// The last agent message of the latest of `turns[..k]` that has the id
/// `turn_id` and holds an agent message.
pub open spec fn spec_last_turn_message(turns: Seq<JsonV>, k: int, turn_id: Seq<char>) -> Option<Seq<char>>
    decreases k,
{
    if k <= 0 || k > turns.len() {
        None
    } else {
        let turn = turns[k - 1];
        let found = if jget_str(turn, "id"@) == Some(turn_id) {
            match jarray(jget(turn, "items"@)) {
                Some(items) => spec_last_agent_item(items, items.len() as int),
                None => None,
            }
        } else {
            None
        };
        match found {
            Some(t) => Some(t),
            None => spec_last_turn_message(turns, k - 1, turn_id),
        }
    }
}

/// The turns of a `thread/read` result.
pub open spec fn spec_thread_turns(response: JsonV) -> Option<Seq<JsonV>> {
    match jget(response, "thread"@) {
        Some(thread) => jarray(jget(thread, "turns"@)),
        None => None,
    }
}

/// The last agent message of the turn `turn_id` in a `thread/read`
/// result; empty when there is none.
pub open spec fn spec_last_agent_message(response: JsonV, turn_id: Seq<char>) -> Result<Seq<char>, AppServerErrorV> {
    match spec_thread_turns(response) {
        None => Err(AppServerErrorV::MissingTurns),
        Some(turns) => Ok(match spec_last_turn_message(turns, turns.len() as int, turn_id) {
            Some(t) => t,
            None => Seq::empty(),
        }),
    }
}

/// Whether `item` of a turn is an agent message.
pub open spec fn is_agent_message(item: JsonV) -> bool {
    jget_str(item, "type"@) == Some("agentMessage"@)
}

/// The text of an agent message: its `text`, or empty text without one.
pub open spec fn message_text(item: JsonV) -> Seq<char> {
    match jget_str(item, "text"@) {
        Some(t) => t,
        None => Seq::empty(),
    }
}

/// Whether `turn` is the turn `turn_id` and holds an agent message.
pub open spec fn turn_has_message(turn: JsonV, turn_id: Seq<char>) -> bool {
    &&& jget_str(turn, "id"@) == Some(turn_id)
    &&& jarray(jget(turn, "items"@)) matches Some(items) && exists|j: int| 0 <= j < items.len() && #[trigger] is_agent_message(items[j])
}

proof fn lemma_last_item_is(items: Seq<JsonV>, k: int, j: int)
    requires
        0 <= j < k <= items.len(),
        is_agent_message(items[j]),
        forall|x: int| j < x < k ==> !#[trigger] is_agent_message(items[x]),
    ensures
        spec_last_agent_item(items, k) == Some(message_text(items[j])),
    decreases k,
{
    if k - 1 > j {
        assert(!is_agent_message(items[k - 1]));
        lemma_last_item_is(items, k - 1, j);
    }
}

proof fn lemma_no_item(items: Seq<JsonV>, k: int)
    requires
        0 <= k <= items.len(),
        forall|x: int| 0 <= x < k ==> !#[trigger] is_agent_message(items[x]),
    ensures
        spec_last_agent_item(items, k) is None,
    decreases k,
{
    if k > 0 {
        assert(!is_agent_message(items[k - 1]));
        lemma_no_item(items, k - 1);
    }
}

/// A turn without a message of `turn_id` gives nothing.
proof fn lemma_turn_gives_nothing(turns: Seq<JsonV>, k: int, turn_id: Seq<char>)
    requires
        0 < k <= turns.len(),
        !turn_has_message(turns[k - 1], turn_id),
    ensures
        spec_last_turn_message(turns, k, turn_id) == spec_last_turn_message(turns, k - 1, turn_id),
{
    let turn = turns[k - 1];
    if jget_str(turn, "id"@) == Some(turn_id) {
        if let Some(items) = jarray(jget(turn, "items"@)) {
            assert forall|x: int| 0 <= x < items.len() implies !#[trigger] is_agent_message(items[x]) by {}
            lemma_no_item(items, items.len() as int);
        }
    }
}

proof fn lemma_last_turn_is(turns: Seq<JsonV>, k: int, turn_id: Seq<char>, i: int, j: int)
    requires
        0 <= i < k <= turns.len(),
        jget_str(turns[i], "id"@) == Some(turn_id),
        jarray(jget(turns[i], "items"@)) matches Some(items) && 0 <= j < items.len() && is_agent_message(items[j])
            && forall|x: int| j < x < items.len() ==> !#[trigger] is_agent_message(items[x]),
        forall|y: int| i < y < k ==> !#[trigger] turn_has_message(turns[y], turn_id),
    ensures
        spec_last_turn_message(turns, k, turn_id) == Some(message_text(jarray(jget(turns[i], "items"@))->Some_0[j])),
    decreases k,
{
    if k - 1 > i {
        assert(!turn_has_message(turns[k - 1], turn_id));
        lemma_turn_gives_nothing(turns, k, turn_id);
        lemma_last_turn_is(turns, k - 1, turn_id, i, j);
    } else {
        let items = jarray(jget(turns[i], "items"@))->Some_0;
        lemma_last_item_is(items, items.len() as int, j);
    }
}

proof fn lemma_no_turn(turns: Seq<JsonV>, k: int, turn_id: Seq<char>)
    requires
        0 <= k <= turns.len(),
        forall|y: int| 0 <= y < k ==> !#[trigger] turn_has_message(turns[y], turn_id),
    ensures
        spec_last_turn_message(turns, k, turn_id) is None,
    decreases k,
{
    if k > 0 {
        assert(!turn_has_message(turns[k - 1], turn_id));
        lemma_turn_gives_nothing(turns, k, turn_id);
        lemma_no_turn(turns, k - 1, turn_id);
    }
}

/// The last agent message of a turn, read back with `thread/read`: among
/// the thread's turns (the first one included) that are the turn
/// `turn_id` and hold an agent message, the latest one gives its latest
/// agent message, `turns[i]` and `items[j]` here.
pub proof fn lemma_last_agent_message_found(
    response: JsonV,
    turn_id: Seq<char>,
    turns: Seq<JsonV>,
    i: int,
    items: Seq<JsonV>,
    j: int,
)
    requires
        jget(response, "thread"@) matches Some(thread) && jarray(jget(thread, "turns"@)) == Some(turns),
        0 <= i < turns.len(),
        jget_str(turns[i], "id"@) == Some(turn_id),
        jarray(jget(turns[i], "items"@)) == Some(items),
        0 <= j < items.len(),
        is_agent_message(items[j]),
        forall|x: int| j < x < items.len() ==> !#[trigger] is_agent_message(items[x]),
        forall|y: int| i < y < turns.len() ==> !#[trigger] turn_has_message(turns[y], turn_id),
    ensures
        spec_last_agent_message(response, turn_id) == Ok::<Seq<char>, AppServerErrorV>(message_text(items[j])),
{
    lemma_last_turn_is(turns, turns.len() as int, turn_id, i, j);
}

/// When no turn of the thread is the turn `turn_id` with an agent
/// message, the last agent message is empty.
pub proof fn lemma_last_agent_message_empty(response: JsonV, turn_id: Seq<char>, turns: Seq<JsonV>)
    requires
        jget(response, "thread"@) matches Some(thread) && jarray(jget(thread, "turns"@)) == Some(turns),
        forall|y: int| 0 <= y < turns.len() ==> !#[trigger] turn_has_message(turns[y], turn_id),
    ensures
        spec_last_agent_message(response, turn_id) == Ok::<Seq<char>, AppServerErrorV>(Seq::empty()),
{
    lemma_no_turn(turns, turns.len() as int, turn_id);
}

/// A `thread/read` result without a thread holding a list of turns is an
/// error.
pub proof fn lemma_last_agent_message_needs_turns(response: JsonV, turn_id: Seq<char>)
    requires
        !(jget(response, "thread"@) matches Some(thread) && jarray(jget(thread, "turns"@)) is Some),
    ensures
        spec_last_agent_message(response, turn_id) == Err::<Seq<char>, AppServerErrorV>(AppServerErrorV::MissingTurns),
{
}

fn last_agent_item(items: &Vec<Json>) -> (r: Option<String>)
    ensures
        opt_string_view(r) == spec_last_agent_item(items@.map_values(|j: Json| j@), items@.len() as int),
{
    let ghost iv = items@.map_values(|j: Json| j@);
    let mut k: usize = items.len();
    while k > 0
        invariant
            0 <= k <= items@.len(),
            iv == items@.map_values(|j: Json| j@),
            spec_last_agent_item(iv, items@.len() as int) == spec_last_agent_item(iv, k as int),
        decreases k,
    {
        let item = &items[k - 1];
        let is_agent = match item.get("type") {
            Some(t) => match t.as_str() {
                Some(s) => text_eq(s, "agentMessage"),
                None => false,
            },
            None => false,
        };
        if is_agent {
            let text: String = match item.get("text") {
                Some(t) => match t.as_str() {
                    Some(s) => s.to_owned(),
                    None => String::new(),
                },
                None => String::new(),
            };
            return Some(text);
        }
        k = k - 1;
    }
    None
}

/// Finds the last agent message of the turn `turn_id` in the result of
/// `thread/read`.
pub fn last_agent_message(response: &Json, turn_id: &str) -> (r: Result<String, AppServerError>)
    ensures
        match (r, spec_last_agent_message(response@, turn_id@)) {
            (Ok(t), Ok(u)) => t@ == u,
            (Err(e), Err(f)) => e@ == f,
            _ => false,
        },
{
    let turns = match response.get("thread") {
        Some(thread) => match thread.get("turns") {
            Some(t) => match t.as_array() {
                Some(items) => items,
                None => return Err(AppServerError::MissingTurns),
            },
            None => return Err(AppServerError::MissingTurns),
        },
        None => return Err(AppServerError::MissingTurns),
    };
    let ghost tv = turns@.map_values(|j: Json| j@);
    assert(spec_thread_turns(response@) == Some(tv));
    let mut k: usize = turns.len();
    while k > 0
        invariant
            0 <= k <= turns@.len(),
            tv == turns@.map_values(|j: Json| j@),
            spec_thread_turns(response@) == Some(tv),
            spec_last_turn_message(tv, turns@.len() as int, turn_id@) == spec_last_turn_message(tv, k as int, turn_id@),
        decreases k,
    {
        let turn = &turns[k - 1];
        let matches = match turn.get("id") {
            Some(id) => match id.as_str() {
                Some(s) => text_eq(s, turn_id),
                None => false,
            },
            None => false,
        };
        if matches {
            if let Some(items_json) = turn.get("items") {
                if let Some(items) = items_json.as_array() {
                    if let Some(text) = last_agent_item(items) {
                        assert(tv[k - 1] == turn@);
                        assert(spec_last_turn_message(tv, k as int, turn_id@) == Some(text@));
                        return Ok(text);
                    }
                }
            }
        }
        k = k - 1;
    }
    Ok(String::new())
}


// ---------------------------------------------------------------------
// Following a turn.

/// How a turn ended for the bridge: paused on an approval request, or
/// completed.
#[derive(Debug)]
pub struct CodexOutcome {
    pub session_id: Option<String>,
    pub turn_id: Option<String>,
    pub last_message: String,
    pub exit_code: Option<i32>,
    pub approval_pending: bool,
    pub approval_requests: Vec<CodexApprovalRequest>,
    pub approval_request_count: i64,
    pub approval_resolved_count: i64,
}

/// What a message means to the turn being followed.
#[derive(Debug)]
pub enum TurnStep {
    /// Not for this turn; it waits in the backlog.
    Backlog(Json),
    /// Taken into account; read on.
    Continue,
    /// The turn waits on this approval request.
    Paused(ApprovalRequestDraft),
    /// The turn completed with this exit code; its last agent message is
    /// to be read next.
    Completed { exit_code: i32 },
    /// The message breaks the protocol.
    Failed(AppServerError),
}

pub enum TurnStepV {
    Backlog(JsonV),
    Continue,
    Paused(ApprovalRequestDraftV),
    Completed(i32),
    Failed(AppServerErrorV),
}

impl View for TurnStep {
    type V = TurnStepV;

    open spec fn view(&self) -> TurnStepV {
        match self {
            TurnStep::Backlog(m) => TurnStepV::Backlog(m@),
            TurnStep::Continue => TurnStepV::Continue,
            TurnStep::Paused(d) => TurnStepV::Paused(d@),
            TurnStep::Completed { exit_code } => TurnStepV::Completed(*exit_code),
            TurnStep::Failed(e) => TurnStepV::Failed(e@),
        }
    }
}

/// The state of a turn being followed, as plain values.
pub struct TurnFollowerV {
    pub thread_id: Seq<char>,
    pub turn_id: Seq<char>,
    pub delta_message: Seq<char>,
    pub resolved_count: int,
}

/// Follows one turn of one thread: gathers the agent's streamed text and
/// counts the approval requests resolved on the thread.
#[derive(Debug)]
pub struct TurnFollower {
    thread_id: String,
    turn_id: String,
    delta_message: String,
    approval_resolved_count: i64,
}

impl View for TurnFollower {
    type V = TurnFollowerV;

    closed spec fn view(&self) -> TurnFollowerV {
        TurnFollowerV {
            thread_id: self.thread_id@,
            turn_id: self.turn_id@,
            delta_message: self.delta_message@,
            resolved_count: self.approval_resolved_count as int,
        }
    }
}

/// The params of a message, or null.
pub open spec fn spec_params(message: JsonV) -> JsonV {
    match jget(message, "params"@) {
        Some(p) => p,
        None => JsonV::Null,
    }
}

/// What a message does to the turn being followed: a message without a
/// method waits in the backlog; a server request is an approval request
/// that pauses the turn, or waits in the backlog; the agent's streamed
/// text for this turn is gathered; a resolved request on this thread is
/// counted; the completion of this turn ends it with the exit code of its
/// status (`failed` when absent).
pub open spec fn spec_turn_step(s: TurnFollowerV, message: JsonV) -> (TurnFollowerV, TurnStepV) {
    match jget_str(message, "method"@) {
        None => (s, TurnStepV::Backlog(message)),
        Some(method) => {
            let params = spec_params(message);
            if jget(message, "id"@) is Some {
                match spec_parse_approval(message) {
                    Err(e) => (s, TurnStepV::Failed(e)),
                    Ok(Some(d)) => (s, TurnStepV::Paused(d)),
                    Ok(None) => (s, TurnStepV::Backlog(message)),
                }
            } else if method == "item/agentMessage/delta"@ {
                if jget_str(params, "threadId"@) == Some(s.thread_id) && jget_str(params, "turnId"@) == Some(s.turn_id) {
                    match jget_str(params, "delta"@) {
                        Some(d) => (TurnFollowerV { delta_message: s.delta_message + d, ..s }, TurnStepV::Continue),
                        None => (s, TurnStepV::Continue),
                    }
                } else {
                    (s, TurnStepV::Continue)
                }
            } else if method == "serverRequest/resolved"@ {
                if jget_str(params, "threadId"@) == Some(s.thread_id) {
                    (TurnFollowerV { resolved_count: s.resolved_count + 1, ..s }, TurnStepV::Continue)
                } else {
                    (s, TurnStepV::Continue)
                }
            } else if method == "turn/completed"@ {
                match jget(params, "turn"@) {
                    None => (s, TurnStepV::Failed(AppServerErrorV::MissingCompletedTurn)),
                    Some(turn) => if jget_str(turn, "id"@) != Some(s.turn_id) {
                        (s, TurnStepV::Continue)
                    } else {
                        let status = match jget_str(turn, "status"@) {
                            Some(st) => st,
                            None => "failed"@,
                        };
                        (s, TurnStepV::Completed(spec_exit_code(status)))
                    },
                }
            } else {
                (s, TurnStepV::Continue)
            }
        },
    }
}

fn str_member_is(v: &Json, key: &str, expected: &str) -> (r: bool)
    ensures
        r == (jget_str(v@, key@) == Some(expected@)),
{
    match v.get(key) {
        Some(x) => match x.as_str() {
            Some(s) => text_eq(s, expected),
            None => false,
        },
        None => false,
    }
}

impl TurnFollower {
    /// Starts following `turn_id` on `thread_id`, with nothing gathered.
    pub fn new(thread_id: &str, turn_id: &str) -> (r: Self)
        ensures
            r@.thread_id == thread_id@,
            r@.turn_id == turn_id@,
            r@.delta_message == Seq::<char>::empty(),
            r@.resolved_count == 0,
    {
        TurnFollower {
            thread_id: thread_id.to_owned(),
            turn_id: turn_id.to_owned(),
            delta_message: String::new(),
            approval_resolved_count: 0,
        }
    }

    /// Whether another resolved request can be counted.
    pub fn can_count(&self) -> (r: bool)
        ensures
            r == (self@.resolved_count < i64::MAX),
    {
        self.approval_resolved_count < i64::MAX
    }

    /// Takes the next message of the turn.
    pub fn on_message(&mut self, message: Json) -> (r: TurnStep)
        requires
            old(self)@.resolved_count < i64::MAX,
        ensures
            (final(self)@, r@) == spec_turn_step(old(self)@, message@),
    {
        let method: String = match message.get("method") {
            Some(m) => match m.as_str() {
                Some(s) => s.to_owned(),
                None => return TurnStep::Backlog(message),
            },
            None => return TurnStep::Backlog(message),
        };
        if message.get("id").is_some() {
            return match parse_approval_request(&message) {
                Err(e) => TurnStep::Failed(e),
                Ok(Some(d)) => TurnStep::Paused(d),
                Ok(None) => TurnStep::Backlog(message),
            };
        }
        let null = Json::Null;
        let params: &Json = match message.get("params") {
            Some(p) => p,
            None => &null,
        };
        assert(params@ == spec_params(message@));
        if text_eq(method.as_str(), "item/agentMessage/delta") {
            if str_member_is(params, "threadId", self.thread_id.as_str()) && str_member_is(params, "turnId", self.turn_id.as_str()) {
                if let Some(d) = params.get("delta") {
                    if let Some(text) = d.as_str() {
                        self.delta_message.append(text);
                    }
                }
            }
            TurnStep::Continue
        } else if text_eq(method.as_str(), "serverRequest/resolved") {
            if str_member_is(params, "threadId", self.thread_id.as_str()) {
                self.approval_resolved_count = self.approval_resolved_count + 1;
            }
            TurnStep::Continue
        } else if text_eq(method.as_str(), "turn/completed") {
            match params.get("turn") {
                None => TurnStep::Failed(AppServerError::MissingCompletedTurn),
                Some(turn) => {
                    if !str_member_is(turn, "id", self.turn_id.as_str()) {
                        return TurnStep::Continue;
                    }
                    let status: &str = match turn.get("status") {
                        Some(st) => match st.as_str() {
                            Some(x) => x,
                            None => "failed",
                        },
                        None => "failed",
                    };
                    TurnStep::Completed { exit_code: turn_status_exit_code(status) }
                },
            }
        } else {
            TurnStep::Continue
        }
    }

    /// The outcome of a turn that pauses on `request`.
    pub fn paused_outcome(self, request: CodexApprovalRequest) -> (r: CodexOutcome)
        ensures
            opt_string_view(r.session_id) == Some(self@.thread_id),
            opt_string_view(r.turn_id) == Some(self@.turn_id),
            r.last_message@ == self@.delta_message,
            r.exit_code is None,
            r.approval_pending,
            r.approval_requests@ == seq![request],
            r.approval_request_count == 1,
            r.approval_resolved_count == self@.resolved_count,
    {
        let mut requests: Vec<CodexApprovalRequest> = Vec::new();
        requests.push(request);
        CodexOutcome {
            session_id: Some(self.thread_id),
            turn_id: Some(self.turn_id),
            last_message: self.delta_message,
            exit_code: None,
            approval_pending: true,
            approval_requests: requests,
            approval_request_count: 1,
            approval_resolved_count: self.approval_resolved_count,
        }
    }

    /// The outcome of a turn that completed with `exit_code`, whose last
    /// agent message was read as `last_message`; when it could not be
    /// read, the gathered streamed text stands in for it.
    pub fn completed_outcome(self, exit_code: i32, last_message: Option<String>) -> (r: CodexOutcome)
        ensures
            opt_string_view(r.session_id) == Some(self@.thread_id),
            opt_string_view(r.turn_id) == Some(self@.turn_id),
            r.last_message@ == match last_message {
                Some(m) => m@,
                None => self@.delta_message,
            },
            r.exit_code == Some(exit_code),
            !r.approval_pending,
            r.approval_requests@.len() == 0,
            r.approval_request_count == 0,
            r.approval_resolved_count == self@.resolved_count,
    {
        let last = match last_message {
            Some(m) => m,
            None => self.delta_message,
        };
        CodexOutcome {
            session_id: Some(self.thread_id),
            turn_id: Some(self.turn_id),
            last_message: last,
            exit_code: Some(exit_code),
            approval_pending: false,
            approval_requests: Vec::new(),
            approval_request_count: 0,
            approval_resolved_count: self.approval_resolved_count,
        }
    }
}


/// What following a turn keeps, message after message: the thread and
/// the turn stay the same, the gathered text only grows, the count of
/// resolved requests grows by at most one, and a message whose params
/// name another thread changes nothing.
pub proof fn lemma_turn_step_keeps(s: TurnFollowerV, message: JsonV)
    ensures
        ({
            let t = spec_turn_step(s, message).0;
            &&& t.thread_id == s.thread_id
            &&& t.turn_id == s.turn_id
            &&& s.delta_message.is_prefix_of(t.delta_message)
            &&& s.resolved_count <= t.resolved_count <= s.resolved_count + 1
            &&& jget_str(spec_params(message), "threadId"@) != Some(s.thread_id) ==> t == s
        }),
{
    let t = spec_turn_step(s, message).0;
    assert(s.delta_message.is_prefix_of(t.delta_message)) by {
        if t.delta_message != s.delta_message {
            let d = t.delta_message.subrange(s.delta_message.len() as int, t.delta_message.len() as int);
            assert(t.delta_message =~= s.delta_message + d);
        }
    }
}

/// The agent's streamed text for the followed turn is gathered in order;
/// text streamed for another thread or turn is not.
pub proof fn lemma_delta_gathered(s: TurnFollowerV, message: JsonV, delta: Seq<char>)
    requires
        jget_str(message, "method"@) == Some("item/agentMessage/delta"@),
        jget(message, "id"@) is None,
        jget_str(spec_params(message), "delta"@) == Some(delta),
    ensures
        jget_str(spec_params(message), "threadId"@) == Some(s.thread_id) && jget_str(spec_params(message), "turnId"@) == Some(s.turn_id)
            ==> spec_turn_step(s, message) == (TurnFollowerV { delta_message: s.delta_message + delta, ..s }, TurnStepV::Continue),
        !(jget_str(spec_params(message), "threadId"@) == Some(s.thread_id) && jget_str(spec_params(message), "turnId"@) == Some(
            s.turn_id,
        )) ==> spec_turn_step(s, message) == (s, TurnStepV::Continue),
{
}

/// A resolved server request on the followed thread is counted once; one
/// on another thread is not counted.
pub proof fn lemma_resolution_counted(s: TurnFollowerV, message: JsonV)
    requires
        jget_str(message, "method"@) == Some("serverRequest/resolved"@),
        jget(message, "id"@) is None,
    ensures
        jget_str(spec_params(message), "threadId"@) == Some(s.thread_id) ==> spec_turn_step(s, message) == (
            TurnFollowerV { resolved_count: s.resolved_count + 1, ..s },
            TurnStepV::Continue,
        ),
        jget_str(spec_params(message), "threadId"@) != Some(s.thread_id) ==> spec_turn_step(s, message) == (s, TurnStepV::Continue),
{
    reveal_strlit("item/agentMessage/delta");
    reveal_strlit("serverRequest/resolved");
    assert("item/agentMessage/delta"@.len() == 23 && "serverRequest/resolved"@.len() == 22);
}

/// The completion of the followed turn ends it: with exit code 0 when its
/// status is `completed`, 130 when `interrupted`, and 1 otherwise (a
/// missing status counts as failed); the completion of another turn does
/// not end it.
pub proof fn lemma_completion_ends_turn(s: TurnFollowerV, message: JsonV, turn: JsonV)
    requires
        jget_str(message, "method"@) == Some("turn/completed"@),
        jget(message, "id"@) is None,
        jget(spec_params(message), "turn"@) == Some(turn),
    ensures
        jget_str(turn, "id"@) == Some(s.turn_id) ==> spec_turn_step(s, message) == (s, TurnStepV::Completed(
            if jget_str(turn, "status"@) == Some("completed"@) {
                0
            } else if jget_str(turn, "status"@) == Some("interrupted"@) {
                130
            } else {
                1
            },
        )),
        jget_str(turn, "id"@) != Some(s.turn_id) ==> spec_turn_step(s, message) == (s, TurnStepV::Continue),
{
    reveal_strlit("item/agentMessage/delta");
    reveal_strlit("serverRequest/resolved");
    reveal_strlit("turn/completed");
    reveal_strlit("completed");
    reveal_strlit("interrupted");
    reveal_strlit("failed");
    assert("item/agentMessage/delta"@.len() == 23 && "serverRequest/resolved"@.len() == 22 && "turn/completed"@.len() == 14);
    assert("failed"@.len() == 6 && "completed"@.len() == 9 && "interrupted"@.len() == 11);
}

/// A server request (a message with an id and a method) pauses the turn
/// when it is an approval request, and otherwise waits in the backlog; a
/// message without a method waits in the backlog. Neither changes what was
/// gathered.
pub proof fn lemma_requests_pause_or_wait(s: TurnFollowerV, message: JsonV)
    ensures
        jget_str(message, "method"@) is None ==> spec_turn_step(s, message) == (s, TurnStepV::Backlog(message)),
        jget_str(message, "method"@) is Some && jget(message, "id"@) is Some ==> {
            &&& spec_turn_step(s, message).0 == s
            &&& spec_parse_approval(message) matches Ok(Some(d)) ==> spec_turn_step(s, message).1 == TurnStepV::Paused(d)
            &&& spec_parse_approval(message) matches Ok(None) ==> spec_turn_step(s, message).1 == TurnStepV::Backlog(message)
        },
{
}

} // verus!
