//! The decisions of the Codex app-server protocol: recognising approval
//! requests, answering them, matching responses to calls, and following a
//! turn until it pauses for an approval or completes.

use vstd::prelude::*;
use crate::json::{Json, JsonV, jget, jget_str, jarray, opt_str_view, json_text, push_member, empty_object, members_view};
use crate::model::{ApprovalRequestKind, ApprovalRequestRecord};
use crate::text::{decimal, decimal_text, is_blank, is_blank_text, join2, text_eq};
use vstd::string::StrSliceExecFns;

verus! {

/// Why an app-server exchange failed.
#[derive(Debug)]
pub enum AppServerError {
    /// A server request has no `method`.
    MissingMethod,
    /// A server request has no `params`.
    MissingParams,
    /// Approval params lack the named string member.
    MissingParam(String),
    /// Approving a tool user-input request is not supported.
    ToolInputApprovalUnsupported,
    /// A `turn/start` result lacks `turn.id`.
    MissingTurnId,
    /// A thread result lacks `thread.id`.
    MissingThreadId,
    /// A `turn/completed` notification lacks `turn`.
    MissingCompletedTurn,
    /// The response to the call `method` carried this `error`.
    CallFailed { method: String, error: Json },
    /// The response to the call `method` had neither `result` nor `response`.
    MissingResult { method: String },
    /// A `thread/read` result lacks `thread.turns`.
    MissingTurns,
}

/// `AppServerError` with its texts as character sequences.
pub enum AppServerErrorV {
    MissingMethod,
    MissingParams,
    MissingParam(Seq<char>),
    ToolInputApprovalUnsupported,
    MissingTurnId,
    MissingThreadId,
    MissingCompletedTurn,
    CallFailed(Seq<char>, JsonV),
    MissingResult(Seq<char>),
    MissingTurns,
}

impl View for AppServerError {
    type V = AppServerErrorV;

    open spec fn view(&self) -> AppServerErrorV {
        match self {
            AppServerError::MissingMethod => AppServerErrorV::MissingMethod,
            AppServerError::MissingParams => AppServerErrorV::MissingParams,
            AppServerError::MissingParam(k) => AppServerErrorV::MissingParam(k@),
            AppServerError::ToolInputApprovalUnsupported => AppServerErrorV::ToolInputApprovalUnsupported,
            AppServerError::MissingTurnId => AppServerErrorV::MissingTurnId,
            AppServerError::MissingThreadId => AppServerErrorV::MissingThreadId,
            AppServerError::MissingCompletedTurn => AppServerErrorV::MissingCompletedTurn,
            AppServerError::CallFailed { method, error } => AppServerErrorV::CallFailed(method@, error@),
            AppServerError::MissingResult { method } => AppServerErrorV::MissingResult(method@),
            AppServerError::MissingTurns => AppServerErrorV::MissingTurns,
        }
    }
}

/// The exit code reported for a completed turn's status.
pub open spec fn spec_exit_code(status: Seq<char>) -> i32 {
    if status == "completed"@ {
        0
    } else if status == "interrupted"@ {
        130
    } else {
        1
    }
}

pub fn turn_status_exit_code(status: &str) -> (r: i32)
    ensures
        r == spec_exit_code(status@),
{
    if text_eq(status, "completed") {
        0
    } else if text_eq(status, "interrupted") {
        130
    } else {
        1
    }
}

/// The id of a message, as text: a string id as it is, a numeric id as
/// its number text.
pub open spec fn spec_response_id(message: JsonV) -> Option<Seq<char>> {
    match jget(message, "id"@) {
        Some(JsonV::Str(s)) => Some(s),
        Some(JsonV::Number(n)) => Some(n),
        _ => None,
    }
}

pub fn response_id(message: &Json) -> (r: Option<String>)
    ensures
        opt_string_view(r) == spec_response_id(message@),
{
    match message.get("id") {
        Some(Json::Str(s)) => Some(s.clone()),
        Some(Json::Number(n)) => Some(n.clone()),
        _ => None,
    }
}

pub open spec fn opt_string_view(o: Option<String>) -> Option<Seq<char>> {
    match o {
        Some(s) => Some(s@),
        None => None,
    }
}

/// `v.outer.id` as text, if present.
pub open spec fn spec_nested_id(v: JsonV, outer: Seq<char>) -> Option<Seq<char>> {
    match jget(v, outer) {
        Some(inner) => jget_str(inner, "id"@),
        None => None,
    }
}

fn nested_id(v: &Json, outer: &str) -> (r: Option<String>)
    ensures
        opt_string_view(r) == spec_nested_id(v@, outer@),
{
    match v.get(outer) {
        Some(inner) => match inner.get("id") {
            Some(id) => match id.as_str() {
                Some(s) => Some(s.to_owned()),
                None => None,
            },
            None => None,
        },
        None => None,
    }
}

/// The id of the turn that a `turn/start` result names.
pub fn turn_result_turn_id(result: &Json) -> (r: Result<String, AppServerError>)
    ensures
        match r {
            Ok(id) => spec_nested_id(result@, "turn"@) == Some(id@),
            Err(e) => spec_nested_id(result@, "turn"@) is None && e@ == AppServerErrorV::MissingTurnId,
        },
{
    match nested_id(result, "turn") {
        Some(id) => Ok(id),
        None => Err(AppServerError::MissingTurnId),
    }
}

/// The id of the thread that a thread result names.
pub fn thread_result_thread_id(result: &Json) -> (r: Result<String, AppServerError>)
    ensures
        match r {
            Ok(id) => spec_nested_id(result@, "thread"@) == Some(id@),
            Err(e) => spec_nested_id(result@, "thread"@) is None && e@ == AppServerErrorV::MissingThreadId,
        },
{
    match nested_id(result, "thread") {
        Some(id) => Ok(id),
        None => Err(AppServerError::MissingThreadId),
    }
}

/// The string member `key` of approval params.
pub fn required_param_str<'a>(params: &'a Json, key: &str) -> (r: Result<&'a str, AppServerError>)
    ensures
        match r {
            Ok(s) => jget_str(params@, key@) == Some(s@),
            Err(e) => jget_str(params@, key@) is None && e@ == AppServerErrorV::MissingParam(key@),
        },
{
    match params.get(key) {
        Some(v) => match v.as_str() {
            Some(s) => Ok(s),
            None => Err(AppServerError::MissingParam(key.to_owned())),
        },
        None => Err(AppServerError::MissingParam(key.to_owned())),
    }
}

fn get_str<'a>(v: &'a Json, key: &str) -> (r: Option<&'a str>)
    ensures
        opt_str_view(r) == jget_str(v@, key@),
{
    match v.get(key) {
        Some(x) => x.as_str(),
        None => None,
    }
}

// ---------------------------------------------------------------------
// Summaries shown to the user for each kind of approval request.

pub open spec fn spec_summarize_command(params: JsonV) -> Seq<char> {
    let command = match jget_str(params, "command"@) {
        Some(c) => c,
        None => "不明なコマンド"@,
    };
    match jget_str(params, "cwd"@) {
        Some(cwd) if cwd.len() > 0 => "コマンド実行の承認待ち: `"@ + command + "`\n作業場所: `"@ + cwd + "`"@,
        _ => "コマンド実行の承認待ち: `"@ + command + "`"@,
    }
}

pub fn summarize_command_approval(params: &Json) -> (r: String)
    ensures
        r@ == spec_summarize_command(params@),
{
    let command: &str = match get_str(params, "command") {
        Some(c) => c,
        None => "不明なコマンド",
    };
    let mut out = join2("コマンド実行の承認待ち: `", command);
    match get_str(params, "cwd") {
        Some(cwd) => {
            if cwd.unicode_len() > 0 {
                out.append("`\n作業場所: `");
                out.append(cwd);
                out.append("`");
            } else {
                out.append("`");
            }
        },
        None => {
            out.append("`");
        },
    }
    out
}

pub open spec fn spec_summarize_file_change(params: JsonV) -> Seq<char> {
    match jget_str(params, "grantRoot"@) {
        Some(root) => "ファイル変更の承認待ち: `"@ + root + "` への書き込み"@,
        None => match jget_str(params, "reason"@) {
            Some(reason) if !is_blank(reason) => "ファイル変更の承認待ち: "@ + reason,
            _ => "ファイル変更の承認待ち"@,
        },
    }
}

pub fn summarize_file_change_approval(params: &Json) -> (r: String)
    ensures
        r@ == spec_summarize_file_change(params@),
{
    if let Some(root) = get_str(params, "grantRoot") {
        let mut out = join2("ファイル変更の承認待ち: `", root);
        out.append("` への書き込み");
        return out;
    }
    if let Some(reason) = get_str(params, "reason") {
        if !is_blank_text(reason) {
            return join2("ファイル変更の承認待ち: ", reason);
        }
    }
    "ファイル変更の承認待ち".to_owned()
}

pub open spec fn spec_summarize_permissions(params: JsonV) -> Seq<char> {
    let reason = match jget_str(params, "reason"@) {
        Some(r) if !is_blank(r) => r,
        _ => "追加の権限が必要です。"@,
    };
    "追加権限の承認待ち: "@ + reason
}

pub fn summarize_permissions_approval(params: &Json) -> (r: String)
    ensures
        r@ == spec_summarize_permissions(params@),
{
    let reason: &str = match get_str(params, "reason") {
        Some(r) => if !is_blank_text(r) { r } else { "追加の権限が必要です。" },
        None => "追加の権限が必要です。",
    };
    join2("追加権限の承認待ち: ", reason)
}

pub open spec fn spec_question_count(params: JsonV) -> nat {
    match jarray(jget(params, "questions"@)) {
        Some(items) => items.len(),
        None => 0,
    }
}

pub open spec fn spec_summarize_tool_input(params: JsonV) -> Seq<char> {
    "追加の入力待ち: 質問数 "@ + decimal(spec_question_count(params))
}

pub fn summarize_tool_user_input(params: &Json) -> (r: String)
    ensures
        r@ == spec_summarize_tool_input(params@),
{
    let count: usize = match params.get("questions") {
        Some(q) => match q.as_array() {
            Some(items) => items.len(),
            None => 0,
        },
        None => 0,
    };
    let digits = decimal_text(count);
    join2("追加の入力待ち: 質問数 ", digits.as_str())
}


// ---------------------------------------------------------------------
// Approval requests.

/// An approval request that Codex sent during a turn, as stored and shown.
#[derive(Debug, Clone, PartialEq, Eq)]
pub struct CodexApprovalRequest {
    pub request_id: String,
    pub thread_id: String,
    pub turn_id: String,
    pub item_id: String,
    pub request_kind: ApprovalRequestKind,
    pub summary_text: String,
    pub raw_payload_json: String,
}

/// An approval request as recognised in a server message, with its params
/// still as a JSON value; encoding the params as text makes it a
/// `CodexApprovalRequest`.
#[derive(Debug)]
pub struct ApprovalRequestDraft {
    pub request_id: String,
    pub thread_id: String,
    pub turn_id: String,
    pub item_id: String,
    pub request_kind: ApprovalRequestKind,
    pub summary_text: String,
    pub params: Json,
}

pub struct ApprovalRequestDraftV {
    pub request_id: Seq<char>,
    pub thread_id: Seq<char>,
    pub turn_id: Seq<char>,
    pub item_id: Seq<char>,
    pub request_kind: ApprovalRequestKind,
    pub summary_text: Seq<char>,
    pub params: JsonV,
}

impl View for ApprovalRequestDraft {
    type V = ApprovalRequestDraftV;

    open spec fn view(&self) -> ApprovalRequestDraftV {
        ApprovalRequestDraftV {
            request_id: self.request_id@,
            thread_id: self.thread_id@,
            turn_id: self.turn_id@,
            item_id: self.item_id@,
            request_kind: self.request_kind,
            summary_text: self.summary_text@,
            params: self.params@,
        }
    }
}

impl ApprovalRequestDraft {
    /// The request, with `raw_payload_json` as the text of its params.
    pub fn into_request(self, raw_payload_json: String) -> (r: CodexApprovalRequest)
        ensures
            r.request_id@ == self.request_id@,
            r.thread_id@ == self.thread_id@,
            r.turn_id@ == self.turn_id@,
            r.item_id@ == self.item_id@,
            r.request_kind == self.request_kind,
            r.summary_text@ == self.summary_text@,
            r.raw_payload_json@ == raw_payload_json@,
    {
        CodexApprovalRequest {
            request_id: self.request_id,
            thread_id: self.thread_id,
            turn_id: self.turn_id,
            item_id: self.item_id,
            request_kind: self.request_kind,
            summary_text: self.summary_text,
            raw_payload_json,
        }
    }
}

/// The kind of approval that a server request method asks for.
pub open spec fn spec_method_kind(method: Seq<char>) -> Option<ApprovalRequestKind> {
    if method == "item/commandExecution/requestApproval"@ || method == "execCommandApproval"@ {
        Some(ApprovalRequestKind::CommandExecution)
    } else if method == "item/fileChange/requestApproval"@ || method == "applyPatchApproval"@ {
        Some(ApprovalRequestKind::FileChange)
    } else if method == "item/permissions/requestApproval"@ {
        Some(ApprovalRequestKind::Permissions)
    } else if method == "item/tool/requestUserInput"@ {
        Some(ApprovalRequestKind::ToolUserInput)
    } else {
        None
    }
}

/// The summary shown for an approval request of `kind` with `params`.
pub open spec fn spec_summary(kind: ApprovalRequestKind, params: JsonV) -> Seq<char> {
    match kind {
        ApprovalRequestKind::CommandExecution => spec_summarize_command(params),
        ApprovalRequestKind::FileChange => spec_summarize_file_change(params),
        ApprovalRequestKind::Permissions => spec_summarize_permissions(params),
        ApprovalRequestKind::ToolUserInput => spec_summarize_tool_input(params),
    }
}

/// What a server message is as an approval request: nothing when it has
/// no id or asks for something else; an error when it lacks a method,
/// params, or one of the `threadId`, `turnId`, `itemId` strings.
pub open spec fn spec_parse_approval(message: JsonV) -> Result<Option<ApprovalRequestDraftV>, AppServerErrorV> {
    match spec_response_id(message) {
        None => Ok(None),
        Some(request_id) => match jget_str(message, "method"@) {
            None => Err(AppServerErrorV::MissingMethod),
            Some(method) => match jget(message, "params"@) {
                None => Err(AppServerErrorV::MissingParams),
                Some(params) => match spec_method_kind(method) {
                    None => Ok(None),
                    Some(kind) => match jget_str(params, "threadId"@) {
                        None => Err(AppServerErrorV::MissingParam("threadId"@)),
                        Some(thread_id) => match jget_str(params, "turnId"@) {
                            None => Err(AppServerErrorV::MissingParam("turnId"@)),
                            Some(turn_id) => match jget_str(params, "itemId"@) {
                                None => Err(AppServerErrorV::MissingParam("itemId"@)),
                                Some(item_id) => Ok(Some(ApprovalRequestDraftV {
                                    request_id,
                                    thread_id,
                                    turn_id,
                                    item_id,
                                    request_kind: kind,
                                    summary_text: spec_summary(kind, params),
                                    params,
                                })),
                            },
                        },
                    },
                },
            },
        },
    }
}

pub open spec fn parse_result_view(r: Result<Option<ApprovalRequestDraft>, AppServerError>) -> Result<Option<ApprovalRequestDraftV>, AppServerErrorV> {
    match r {
        Ok(Some(d)) => Ok(Some(d@)),
        Ok(None) => Ok(None),
        Err(e) => Err(e@),
    }
}

fn method_kind(method: &str) -> (r: Option<ApprovalRequestKind>)
    ensures
        r == spec_method_kind(method@),
{
    if text_eq(method, "item/commandExecution/requestApproval") || text_eq(method, "execCommandApproval") {
        Some(ApprovalRequestKind::CommandExecution)
    } else if text_eq(method, "item/fileChange/requestApproval") || text_eq(method, "applyPatchApproval") {
        Some(ApprovalRequestKind::FileChange)
    } else if text_eq(method, "item/permissions/requestApproval") {
        Some(ApprovalRequestKind::Permissions)
    } else if text_eq(method, "item/tool/requestUserInput") {
        Some(ApprovalRequestKind::ToolUserInput)
    } else {
        None
    }
}

fn summarize(kind: ApprovalRequestKind, params: &Json) -> (r: String)
    ensures
        r@ == spec_summary(kind, params@),
{
    match kind {
        ApprovalRequestKind::CommandExecution => summarize_command_approval(params),
        ApprovalRequestKind::FileChange => summarize_file_change_approval(params),
        ApprovalRequestKind::Permissions => summarize_permissions_approval(params),
        ApprovalRequestKind::ToolUserInput => summarize_tool_user_input(params),
    }
}

/// A recognised approval request is what its message says: the request id
/// is the message's id, the kind is that of its method, the thread, turn
/// and item ids are the `threadId`, `turnId` and `itemId` strings of its
/// params, and the params are kept as they were.
pub proof fn lemma_parsed_request_is_the_message(message: JsonV, d: ApprovalRequestDraftV)
    requires
        spec_parse_approval(message) == Ok::<Option<ApprovalRequestDraftV>, AppServerErrorV>(Some(d)),
    ensures
        spec_response_id(message) == Some(d.request_id),
        jget_str(message, "method"@) matches Some(method) && spec_method_kind(method) == Some(d.request_kind),
        jget(message, "params"@) == Some(d.params),
        jget_str(d.params, "threadId"@) == Some(d.thread_id),
        jget_str(d.params, "turnId"@) == Some(d.turn_id),
        jget_str(d.params, "itemId"@) == Some(d.item_id),
{
}

/// A message with an id, an approval method and params holding the
/// `threadId`, `turnId` and `itemId` strings is recognised as the
/// approval request with those ids.
pub proof fn lemma_request_recognised(
    message: JsonV,
    method: Seq<char>,
    params: JsonV,
    thread_id: Seq<char>,
    turn_id: Seq<char>,
    item_id: Seq<char>,
)
    requires
        spec_response_id(message) is Some,
        jget_str(message, "method"@) == Some(method),
        spec_method_kind(method) is Some,
        jget(message, "params"@) == Some(params),
        jget_str(params, "threadId"@) == Some(thread_id),
        jget_str(params, "turnId"@) == Some(turn_id),
        jget_str(params, "itemId"@) == Some(item_id),
    ensures
        spec_parse_approval(message) matches Ok(Some(d)) && d.request_id == spec_response_id(message)->Some_0 && d.request_kind
            == spec_method_kind(method)->Some_0 && d.thread_id == thread_id && d.turn_id == turn_id && d.item_id == item_id
            && d.params == params,
{
}

/// The methods that ask for an approval, and the kind each asks for.
pub proof fn lemma_approval_methods()
    ensures
        spec_method_kind("item/commandExecution/requestApproval"@) == Some(ApprovalRequestKind::CommandExecution),
        spec_method_kind("execCommandApproval"@) == Some(ApprovalRequestKind::CommandExecution),
        spec_method_kind("item/fileChange/requestApproval"@) == Some(ApprovalRequestKind::FileChange),
        spec_method_kind("applyPatchApproval"@) == Some(ApprovalRequestKind::FileChange),
        spec_method_kind("item/permissions/requestApproval"@) == Some(ApprovalRequestKind::Permissions),
        spec_method_kind("item/tool/requestUserInput"@) == Some(ApprovalRequestKind::ToolUserInput),
{
    reveal_strlit("item/commandExecution/requestApproval");
    reveal_strlit("execCommandApproval");
    reveal_strlit("item/fileChange/requestApproval");
    reveal_strlit("applyPatchApproval");
    reveal_strlit("item/permissions/requestApproval");
    reveal_strlit("item/tool/requestUserInput");
    assert("item/commandExecution/requestApproval"@.len() == 37 && "execCommandApproval"@.len() == 19
        && "item/fileChange/requestApproval"@.len() == 31 && "applyPatchApproval"@.len() == 18
        && "item/permissions/requestApproval"@.len() == 32 && "item/tool/requestUserInput"@.len() == 26);
}

/// Recognises an approval request in a server message.
pub fn parse_approval_request(message: &Json) -> (r: Result<Option<ApprovalRequestDraft>, AppServerError>)
    ensures
        parse_result_view(r) == spec_parse_approval(message@),
{
    let request_id = match response_id(message) {
        Some(id) => id,
        None => return Ok(None),
    };
    let method = match get_str(message, "method") {
        Some(m) => m,
        None => return Err(AppServerError::MissingMethod),
    };
    let params = match message.get("params") {
        Some(p) => p.deep_clone(),
        None => return Err(AppServerError::MissingParams),
    };
    let kind = match method_kind(method) {
        Some(k) => k,
        None => return Ok(None),
    };
    let summary_text = summarize(kind, &params);
    let thread_id = required_param_str(&params, "threadId")?.to_owned();
    let turn_id = required_param_str(&params, "turnId")?.to_owned();
    let item_id = required_param_str(&params, "itemId")?.to_owned();
    Ok(Some(ApprovalRequestDraft {
        request_id,
        thread_id,
        turn_id,
        item_id,
        request_kind: kind,
        summary_text,
        params,
    }))
}


// ---------------------------------------------------------------------
// Answers to approval requests.

/// `{"decision": "accept"}` or `{"decision": "decline"}`.
pub open spec fn spec_decision(approved: bool) -> JsonV {
    JsonV::Object(seq![("decision"@, JsonV::Str(if approved { "accept"@ } else { "decline"@ }))])
}

/// The answer to an approval request of `kind` whose params were
/// `raw_payload`: a decision for commands and file changes; for
/// permissions, the requested permissions when approved and none when
/// declined, for this turn; for tool user input, no answers when
/// declined, and an error when approved, which is not supported.
pub open spec fn spec_approval_response(kind: ApprovalRequestKind, raw_payload: JsonV, approved: bool) -> Result<JsonV, AppServerErrorV> {
    match kind {
        ApprovalRequestKind::CommandExecution => Ok(spec_decision(approved)),
        ApprovalRequestKind::FileChange => Ok(spec_decision(approved)),
        ApprovalRequestKind::Permissions => {
            let granted = if approved {
                match jget(raw_payload, "permissions"@) {
                    Some(p) => p,
                    None => JsonV::Object(Seq::empty()),
                }
            } else {
                JsonV::Object(Seq::empty())
            };
            Ok(JsonV::Object(seq![("permissions"@, granted), ("scope"@, JsonV::Str("turn"@))]))
        },
        ApprovalRequestKind::ToolUserInput => if approved {
            Err(AppServerErrorV::ToolInputApprovalUnsupported)
        } else {
            Ok(JsonV::Object(seq![("answers"@, JsonV::Object(Seq::empty()))]))
        },
    }
}

/// The answer to a command or file change request is the decision alone:
/// `accept` when the user approved it, `decline` when not, whatever the
/// request's params were.
pub proof fn lemma_decision_follows_approval(kind: ApprovalRequestKind, raw_payload: JsonV, approved: bool)
    requires
        kind == ApprovalRequestKind::CommandExecution || kind == ApprovalRequestKind::FileChange,
    ensures
        approved ==> spec_approval_response(kind, raw_payload, approved) == Ok::<JsonV, AppServerErrorV>(
            JsonV::Object(seq![("decision"@, JsonV::Str("accept"@))]),
        ),
        !approved ==> spec_approval_response(kind, raw_payload, approved) == Ok::<JsonV, AppServerErrorV>(
            JsonV::Object(seq![("decision"@, JsonV::Str("decline"@))]),
        ),
{
}

/// The answer to a permissions request grants, for this turn, the
/// permissions the request asked for when the user approved it (none when
/// it named none), and none when not.
pub proof fn lemma_permissions_follow_approval(raw_payload: JsonV, approved: bool)
    ensures
        spec_approval_response(ApprovalRequestKind::Permissions, raw_payload, approved) == Ok::<JsonV, AppServerErrorV>(
            JsonV::Object(
                seq![
                    ("permissions"@, if approved && jget(raw_payload, "permissions"@) is Some {
                        jget(raw_payload, "permissions"@)->Some_0
                    } else {
                        JsonV::Object(Seq::empty())
                    }),
                    ("scope"@, JsonV::Str("turn"@)),
                ],
            ),
        ),
{
}

/// A declined request for tool input is answered with no answers; an
/// approved one cannot be answered.
pub proof fn lemma_tool_input_answers(raw_payload: JsonV, approved: bool)
    ensures
        approved ==> spec_approval_response(ApprovalRequestKind::ToolUserInput, raw_payload, approved) == Err::<JsonV, AppServerErrorV>(
            AppServerErrorV::ToolInputApprovalUnsupported,
        ),
        !approved ==> spec_approval_response(ApprovalRequestKind::ToolUserInput, raw_payload, approved) == Ok::<JsonV, AppServerErrorV>(
            JsonV::Object(seq![("answers"@, JsonV::Object(Seq::empty()))]),
        ),
{
}

fn decision(approved: bool) -> (r: Json)
    ensures
        r@ == spec_decision(approved),
{
    let mut m: Vec<(String, Json)> = Vec::new();
    push_member(&mut m, "decision", json_text(if approved { "accept" } else { "decline" }));
    let r = Json::Object(m);
    assert(members_view(m@) =~= seq![("decision"@, JsonV::Str(if approved { "accept"@ } else { "decline"@ }))]);
    r
}

/// Builds the answer to a stored approval request, given its params as
/// parsed from `raw_payload_json`.
pub fn approval_response(request: &ApprovalRequestRecord, raw_payload: &Json, approved: bool) -> (r: Result<Json, AppServerError>)
    ensures
        match (r, spec_approval_response(request.request_kind, raw_payload@, approved)) {
            (Ok(v), Ok(w)) => v@ == w,
            (Err(e), Err(f)) => e@ == f,
            _ => false,
        },
{
    match request.request_kind {
        ApprovalRequestKind::CommandExecution => Ok(decision(approved)),
        ApprovalRequestKind::FileChange => Ok(decision(approved)),
        ApprovalRequestKind::Permissions => {
            let granted = if approved {
                match raw_payload.get("permissions") {
                    Some(p) => p.deep_clone(),
                    None => empty_object(),
                }
            } else {
                empty_object()
            };
            let ghost g = granted@;
            let mut m: Vec<(String, Json)> = Vec::new();
            push_member(&mut m, "permissions", granted);
            push_member(&mut m, "scope", json_text("turn"));
            assert(members_view(m@) =~= seq![("permissions"@, g), ("scope"@, JsonV::Str("turn"@))]);
            Ok(Json::Object(m))
        },
        ApprovalRequestKind::ToolUserInput => {
            if approved {
                return Err(AppServerError::ToolInputApprovalUnsupported);
            }
            let mut m: Vec<(String, Json)> = Vec::new();
            push_member(&mut m, "answers", empty_object());
            assert(members_view(m@) =~= seq![("answers"@, JsonV::Object(Seq::empty()))]);
            Ok(Json::Object(m))
        },
    }
}

} // verus!
