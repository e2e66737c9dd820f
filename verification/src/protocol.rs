//! The JSON-RPC messages that the bridge sends to the Codex app-server.

use vstd::prelude::*;
use crate::json::{Json, JsonV, items_view, jget, jget_str, json_text, lemma_jget_member, member_index_from, members_view, push_item, push_member};
use crate::text::{decimal, decimal_text_u64, join2, text_eq};

verus! {

/// The Codex settings that the protocol messages carry.
#[derive(Debug, Clone)]
pub struct CodexConfig {
    /// The Codex executable.
    pub binary: String,
    /// The model to use; the app-server default when absent.
    pub model: Option<String>,
    /// The approval policy.
    pub approval: String,
    /// The sandbox mode.
    pub sandbox: String,
}

/// A workspace: its directory and the roots Codex may write to, as paths
/// written out.
#[derive(Debug, Clone)]
pub struct WorkspaceConfig {
    pub path: String,
    pub writable_roots: Vec<String>,
}

/// A request for Codex: the prompt and the images attached to it.
#[derive(Debug, Clone)]
pub struct CodexRequest {
    pub prompt: String,
    pub image_paths: Vec<String>,
}

pub open spec fn jtext(s: Seq<char>) -> JsonV {
    JsonV::Str(s)
}

pub open spec fn jobj(members: Seq<(Seq<char>, JsonV)>) -> JsonV {
    JsonV::Object(members)
}

/// A model setting as JSON: its name, or null when absent.
pub open spec fn spec_model_json(model: Option<Seq<char>>) -> JsonV {
    match model {
        Some(m) => JsonV::Str(m),
        None => JsonV::Null,
    }
}

pub open spec fn opt_seq(o: Option<String>) -> Option<Seq<char>> {
    match o {
        Some(s) => Some(s@),
        None => None,
    }
}

fn model_json(model: &Option<String>) -> (r: Json)
    ensures
        r@ == spec_model_json(opt_seq(*model)),
{
    match model {
        Some(m) => Json::Str(m.clone()),
        None => Json::Null,
    }
}

/// The writable roots as a JSON array of strings.
pub open spec fn spec_roots_json(roots: Seq<String>) -> JsonV {
    JsonV::Array(roots.map_values(|r: String| JsonV::Str(r@)))
}

fn roots_json(roots: &Vec<String>) -> (r: Json)
    ensures
        r@ == spec_roots_json(roots@),
{
    let mut items: Vec<Json> = Vec::new();
    let mut i: usize = 0;
    while i < roots.len()
        invariant
            0 <= i <= roots@.len(),
            items_view(items@) =~= roots@.take(i as int).map_values(|r: String| JsonV::Str(r@)),
        decreases roots@.len() - i,
    {
        push_item(&mut items, Json::Str(roots[i].clone()));
        assert(roots@.take(i as int + 1) =~= roots@.take(i as int).push(roots@[i as int]));
        i = i + 1;
    }
    assert(roots@.take(roots@.len() as int) =~= roots@);
    Json::Array(items)
}

/// `{"type": "cwdAndChildren"}`.
pub open spec fn spec_cwd_and_children() -> JsonV {
    jobj(seq![("type"@, jtext("cwdAndChildren"@))])
}

fn cwd_and_children() -> (r: Json)
    ensures
        r@ == spec_cwd_and_children(),
{
    let mut m: Vec<(String, Json)> = Vec::new();
    push_member(&mut m, "type", json_text("cwdAndChildren"));
    assert(members_view(m@) =~= seq![("type"@, jtext("cwdAndChildren"@))]);
    Json::Object(m)
}

/// The members of a workspace-write sandbox policy.
pub open spec fn spec_workspace_write_members(roots: Seq<String>) -> Seq<(Seq<char>, JsonV)> {
    seq![
        ("type"@, jtext("workspaceWrite"@)),
        ("writableRoots"@, spec_roots_json(roots)),
        ("readOnlyAccess"@, spec_cwd_and_children()),
        ("networkAccess"@, jtext("enabled"@)),
        ("excludeTmpdirEnvVar"@, JsonV::Bool(false)),
        ("excludeSlashTmp"@, JsonV::Bool(false)),
    ]
}

/// The sandbox policy of a turn for the sandbox mode `sandbox`: full
/// access, read-only with network access, or workspace-write over the
/// workspace's writable roots; an unknown mode gets workspace-write and is
/// passed on as the fallback.
pub open spec fn spec_sandbox_policy(sandbox: Seq<char>, roots: Seq<String>) -> JsonV {
    if sandbox == "danger-full-access"@ {
        jobj(seq![("type"@, jtext("dangerFullAccess"@))])
    } else if sandbox == "read-only"@ {
        jobj(seq![
            ("type"@, jtext("readOnly"@)),
            ("access"@, spec_cwd_and_children()),
            ("networkAccess"@, JsonV::Bool(true)),
        ])
    } else if sandbox == "workspace-write"@ {
        jobj(spec_workspace_write_members(roots))
    } else {
        jobj(spec_workspace_write_members(roots).push(("fallbackSandbox"@, jtext(sandbox))))
    }
}

fn workspace_write_members(roots: &Vec<String>) -> (r: Vec<(String, Json)>)
    ensures
        members_view(r@) == spec_workspace_write_members(roots@),
{
    let mut m: Vec<(String, Json)> = Vec::new();
    push_member(&mut m, "type", json_text("workspaceWrite"));
    push_member(&mut m, "writableRoots", roots_json(roots));
    push_member(&mut m, "readOnlyAccess", cwd_and_children());
    push_member(&mut m, "networkAccess", json_text("enabled"));
    push_member(&mut m, "excludeTmpdirEnvVar", Json::Bool(false));
    push_member(&mut m, "excludeSlashTmp", Json::Bool(false));
    assert(members_view(m@) =~= spec_workspace_write_members(roots@));
    m
}

pub fn sandbox_policy_for_workspace(config: &CodexConfig, workspace: &WorkspaceConfig) -> (r: Json)
    ensures
        r@ == spec_sandbox_policy(config.sandbox@, workspace.writable_roots@),
{
    let sandbox = config.sandbox.as_str();
    if text_eq(sandbox, "danger-full-access") {
        let mut m: Vec<(String, Json)> = Vec::new();
        push_member(&mut m, "type", json_text("dangerFullAccess"));
        assert(members_view(m@) =~= seq![("type"@, jtext("dangerFullAccess"@))]);
        Json::Object(m)
    } else if text_eq(sandbox, "read-only") {
        let mut m: Vec<(String, Json)> = Vec::new();
        push_member(&mut m, "type", json_text("readOnly"));
        push_member(&mut m, "access", cwd_and_children());
        push_member(&mut m, "networkAccess", Json::Bool(true));
        assert(members_view(m@) =~= seq![
            ("type"@, jtext("readOnly"@)),
            ("access"@, spec_cwd_and_children()),
            ("networkAccess"@, JsonV::Bool(true)),
        ]);
        Json::Object(m)
    } else if text_eq(sandbox, "workspace-write") {
        Json::Object(workspace_write_members(&workspace.writable_roots))
    } else {
        let mut m = workspace_write_members(&workspace.writable_roots);
        push_member(&mut m, "fallbackSandbox", json_text(sandbox));
        Json::Object(m)
    }
}

/// The turn input for a request: its prompt as text, then each image.
pub open spec fn spec_user_inputs(prompt: Seq<char>, images: Seq<String>) -> Seq<JsonV> {
    seq![jobj(seq![
        ("type"@, jtext("text"@)),
        ("text"@, jtext(prompt)),
        ("text_elements"@, JsonV::Array(Seq::empty())),
    ])] + images.map_values(|p: String| jobj(seq![("type"@, jtext("localImage"@)), ("path"@, jtext(p@))]))
}

pub fn request_to_user_inputs(request: &CodexRequest) -> (r: Vec<Json>)
    ensures
        items_view(r@) == spec_user_inputs(request.prompt@, request.image_paths@),
{
    let mut text_item: Vec<(String, Json)> = Vec::new();
    push_member(&mut text_item, "type", json_text("text"));
    push_member(&mut text_item, "text", Json::Str(request.prompt.clone()));
    push_member(&mut text_item, "text_elements", Json::Array(Vec::new()));
    assert(members_view(text_item@) =~= seq![
        ("type"@, jtext("text"@)),
        ("text"@, jtext(request.prompt@)),
        ("text_elements"@, JsonV::Array(Seq::empty())),
    ]);
    let ghost first = JsonV::Object(members_view(text_item@));
    let mut input: Vec<Json> = Vec::new();
    push_item(&mut input, Json::Object(text_item));
    let images = &request.image_paths;
    let ghost image_view = images@.map_values(|p: String| jobj(seq![("type"@, jtext("localImage"@)), ("path"@, jtext(p@))]));
    let mut i: usize = 0;
    while i < images.len()
        invariant
            0 <= i <= images@.len(),
            image_view == images@.map_values(|p: String| jobj(seq![("type"@, jtext("localImage"@)), ("path"@, jtext(p@))])),
            items_view(input@) =~= seq![first] + image_view.take(i as int),
        decreases images@.len() - i,
    {
        let mut item: Vec<(String, Json)> = Vec::new();
        push_member(&mut item, "type", json_text("localImage"));
        push_member(&mut item, "path", Json::Str(images[i].clone()));
        assert(members_view(item@) =~= seq![("type"@, jtext("localImage"@)), ("path"@, jtext(images@[i as int]@))]);
        push_item(&mut input, Json::Object(item));
        assert(image_view.take(i as int + 1) =~= image_view.take(i as int).push(image_view[i as int]));
        i = i + 1;
    }
    assert(image_view.take(images@.len() as int) =~= image_view);
    input
}


/// The name the bridge gives itself to the app-server.
pub open spec fn client_name() -> Seq<char> {
    "codex-channels"@
}

/// The params of `initialize`, for the bridge at `version`.
pub open spec fn spec_initialize_params(version: Seq<char>) -> JsonV {
    jobj(seq![
        ("clientInfo"@, jobj(seq![
            ("name"@, jtext(client_name())),
            ("title"@, jtext(client_name())),
            ("version"@, jtext(version)),
        ])),
        ("capabilities"@, jobj(seq![
            ("experimentalApi"@, JsonV::Bool(false)),
            ("optOutNotificationMethods"@, JsonV::Array(Seq::empty())),
        ])),
    ])
}

pub fn initialize_params(version: &str) -> (r: Json)
    ensures
        r@ == spec_initialize_params(version@),
{
    let mut info: Vec<(String, Json)> = Vec::new();
    push_member(&mut info, "name", json_text("codex-channels"));
    push_member(&mut info, "title", json_text("codex-channels"));
    push_member(&mut info, "version", json_text(version));
    let mut caps: Vec<(String, Json)> = Vec::new();
    push_member(&mut caps, "experimentalApi", Json::Bool(false));
    push_member(&mut caps, "optOutNotificationMethods", Json::Array(Vec::new()));
    let ghost iv = members_view(info@);
    let ghost cv = members_view(caps@);
    let mut m: Vec<(String, Json)> = Vec::new();
    push_member(&mut m, "clientInfo", Json::Object(info));
    push_member(&mut m, "capabilities", Json::Object(caps));
    assert(iv =~= seq![("name"@, jtext(client_name())), ("title"@, jtext(client_name())), ("version"@, jtext(version@))]);
    assert(cv =~= seq![("experimentalApi"@, JsonV::Bool(false)), ("optOutNotificationMethods"@, JsonV::Array(Seq::empty()))]);
    assert(members_view(m@) =~= seq![("clientInfo"@, jobj(iv)), ("capabilities"@, jobj(cv))]);
    Json::Object(m)
}

/// The `initialized` notification.
pub open spec fn spec_initialized_notification() -> JsonV {
    jobj(seq![("method"@, jtext("initialized"@))])
}

pub fn initialized_notification() -> (r: Json)
    ensures
        r@ == spec_initialized_notification(),
{
    let mut m: Vec<(String, Json)> = Vec::new();
    push_member(&mut m, "method", json_text("initialized"));
    assert(members_view(m@) =~= seq![("method"@, jtext("initialized"@))]);
    Json::Object(m)
}

/// The params of `thread/start`: a new thread in the workspace directory
/// `cwd`, whose approvals the user decides.
pub open spec fn spec_thread_start_params(model: Option<Seq<char>>, cwd: Seq<char>, approval: Seq<char>, sandbox: Seq<char>) -> JsonV {
    jobj(seq![
        ("model"@, spec_model_json(model)),
        ("cwd"@, jtext(cwd)),
        ("approvalPolicy"@, jtext(approval)),
        ("approvalsReviewer"@, jtext("user"@)),
        ("sandbox"@, jtext(sandbox)),
        ("experimentalRawEvents"@, JsonV::Bool(false)),
        ("persistExtendedHistory"@, JsonV::Bool(true)),
        ("serviceName"@, jtext(client_name())),
    ])
}

pub fn thread_start_params(config: &CodexConfig, workspace: &WorkspaceConfig) -> (r: Json)
    ensures
        r@ == spec_thread_start_params(opt_seq(config.model), workspace.path@, config.approval@, config.sandbox@),
{
    let mut m: Vec<(String, Json)> = Vec::new();
    push_member(&mut m, "model", model_json(&config.model));
    push_member(&mut m, "cwd", Json::Str(workspace.path.clone()));
    push_member(&mut m, "approvalPolicy", Json::Str(config.approval.clone()));
    push_member(&mut m, "approvalsReviewer", json_text("user"));
    push_member(&mut m, "sandbox", Json::Str(config.sandbox.clone()));
    push_member(&mut m, "experimentalRawEvents", Json::Bool(false));
    push_member(&mut m, "persistExtendedHistory", Json::Bool(true));
    push_member(&mut m, "serviceName", json_text("codex-channels"));
    assert(members_view(m@) =~= seq![
        ("model"@, spec_model_json(opt_seq(config.model))),
        ("cwd"@, jtext(workspace.path@)),
        ("approvalPolicy"@, jtext(config.approval@)),
        ("approvalsReviewer"@, jtext("user"@)),
        ("sandbox"@, jtext(config.sandbox@)),
        ("experimentalRawEvents"@, JsonV::Bool(false)),
        ("persistExtendedHistory"@, JsonV::Bool(true)),
        ("serviceName"@, jtext(client_name())),
    ]);
    Json::Object(m)
}

/// The params of `thread/resume` for the saved thread `thread_id`.
pub open spec fn spec_thread_resume_params(thread_id: Seq<char>, model: Option<Seq<char>>, cwd: Seq<char>, approval: Seq<char>, sandbox: Seq<char>) -> JsonV {
    jobj(seq![
        ("threadId"@, jtext(thread_id)),
        ("model"@, spec_model_json(model)),
        ("cwd"@, jtext(cwd)),
        ("approvalPolicy"@, jtext(approval)),
        ("approvalsReviewer"@, jtext("user"@)),
        ("sandbox"@, jtext(sandbox)),
        ("persistExtendedHistory"@, JsonV::Bool(true)),
    ])
}

pub fn thread_resume_params(config: &CodexConfig, workspace: &WorkspaceConfig, thread_id: &str) -> (r: Json)
    ensures
        r@ == spec_thread_resume_params(thread_id@, opt_seq(config.model), workspace.path@, config.approval@, config.sandbox@),
{
    let mut m: Vec<(String, Json)> = Vec::new();
    push_member(&mut m, "threadId", json_text(thread_id));
    push_member(&mut m, "model", model_json(&config.model));
    push_member(&mut m, "cwd", Json::Str(workspace.path.clone()));
    push_member(&mut m, "approvalPolicy", Json::Str(config.approval.clone()));
    push_member(&mut m, "approvalsReviewer", json_text("user"));
    push_member(&mut m, "sandbox", Json::Str(config.sandbox.clone()));
    push_member(&mut m, "persistExtendedHistory", Json::Bool(true));
    assert(members_view(m@) =~= seq![
        ("threadId"@, jtext(thread_id@)),
        ("model"@, spec_model_json(opt_seq(config.model))),
        ("cwd"@, jtext(workspace.path@)),
        ("approvalPolicy"@, jtext(config.approval@)),
        ("approvalsReviewer"@, jtext("user"@)),
        ("sandbox"@, jtext(config.sandbox@)),
        ("persistExtendedHistory"@, JsonV::Bool(true)),
    ]);
    Json::Object(m)
}

/// The params of `turn/start` on `thread_id` for `request`.
pub open spec fn spec_turn_start_params(
    thread_id: Seq<char>,
    prompt: Seq<char>,
    images: Seq<String>,
    model: Option<Seq<char>>,
    cwd: Seq<char>,
    approval: Seq<char>,
    sandbox: Seq<char>,
    roots: Seq<String>,
) -> JsonV {
    jobj(seq![
        ("threadId"@, jtext(thread_id)),
        ("input"@, JsonV::Array(spec_user_inputs(prompt, images))),
        ("cwd"@, jtext(cwd)),
        ("approvalPolicy"@, jtext(approval)),
        ("approvalsReviewer"@, jtext("user"@)),
        ("sandboxPolicy"@, spec_sandbox_policy(sandbox, roots)),
        ("model"@, spec_model_json(model)),
    ])
}

pub fn turn_start_params(config: &CodexConfig, workspace: &WorkspaceConfig, thread_id: &str, request: &CodexRequest) -> (r: Json)
    ensures
        r@ == spec_turn_start_params(
            thread_id@,
            request.prompt@,
            request.image_paths@,
            opt_seq(config.model),
            workspace.path@,
            config.approval@,
            config.sandbox@,
            workspace.writable_roots@,
        ),
{
    let input = request_to_user_inputs(request);
    let ghost iv = items_view(input@);
    let mut m: Vec<(String, Json)> = Vec::new();
    push_member(&mut m, "threadId", json_text(thread_id));
    push_member(&mut m, "input", Json::Array(input));
    push_member(&mut m, "cwd", Json::Str(workspace.path.clone()));
    push_member(&mut m, "approvalPolicy", Json::Str(config.approval.clone()));
    push_member(&mut m, "approvalsReviewer", json_text("user"));
    push_member(&mut m, "sandboxPolicy", sandbox_policy_for_workspace(config, workspace));
    push_member(&mut m, "model", model_json(&config.model));
    assert(members_view(m@) =~= seq![
        ("threadId"@, jtext(thread_id@)),
        ("input"@, JsonV::Array(iv)),
        ("cwd"@, jtext(workspace.path@)),
        ("approvalPolicy"@, jtext(config.approval@)),
        ("approvalsReviewer"@, jtext("user"@)),
        ("sandboxPolicy"@, spec_sandbox_policy(config.sandbox@, workspace.writable_roots@)),
        ("model"@, spec_model_json(opt_seq(config.model))),
    ]);
    Json::Object(m)
}

/// The params of `turn/start` carry what the turn runs with: the thread
/// `thread_id`, the workspace directory `cwd`, the configured approval
/// policy, approvals decided by the user, the sandbox policy of the
/// configured sandbox mode over the writable roots, and the model.
pub proof fn lemma_turn_start_carries_config(
    thread_id: Seq<char>,
    prompt: Seq<char>,
    images: Seq<String>,
    model: Option<Seq<char>>,
    cwd: Seq<char>,
    approval: Seq<char>,
    sandbox: Seq<char>,
    roots: Seq<String>,
)
    ensures
        jget_str(spec_turn_start_params(thread_id, prompt, images, model, cwd, approval, sandbox, roots), "threadId"@) == Some(thread_id),
        jget_str(spec_turn_start_params(thread_id, prompt, images, model, cwd, approval, sandbox, roots), "cwd"@) == Some(cwd),
        jget_str(spec_turn_start_params(thread_id, prompt, images, model, cwd, approval, sandbox, roots), "approvalPolicy"@) == Some(approval),
        jget_str(spec_turn_start_params(thread_id, prompt, images, model, cwd, approval, sandbox, roots), "approvalsReviewer"@) == Some(
            "user"@,
        ),
        jget(spec_turn_start_params(thread_id, prompt, images, model, cwd, approval, sandbox, roots), "sandboxPolicy"@) == Some(
            spec_sandbox_policy(sandbox, roots),
        ),
        jget(spec_turn_start_params(thread_id, prompt, images, model, cwd, approval, sandbox, roots), "model"@) == Some(
            match model {
                Some(m) => JsonV::Str(m),
                None => JsonV::Null,
            },
        ),
{
    reveal_strlit("threadId");
    reveal_strlit("input");
    reveal_strlit("cwd");
    reveal_strlit("approvalPolicy");
    reveal_strlit("approvalsReviewer");
    reveal_strlit("sandboxPolicy");
    reveal_strlit("model");
    assert("threadId"@.len() == 8 && "input"@.len() == 5 && "cwd"@.len() == 3 && "approvalPolicy"@.len() == 14
        && "approvalsReviewer"@.len() == 17 && "sandboxPolicy"@.len() == 13 && "model"@.len() == 5);
    assert("input"@[0] != "model"@[0]);
    let p = spec_turn_start_params(thread_id, prompt, images, model, cwd, approval, sandbox, roots);
    let m = p->Object_0;
    lemma_jget_member(m, "threadId"@, 0);
    lemma_jget_member(m, "cwd"@, 2);
    lemma_jget_member(m, "approvalPolicy"@, 3);
    lemma_jget_member(m, "approvalsReviewer"@, 4);
    lemma_jget_member(m, "sandboxPolicy"@, 5);
    lemma_jget_member(m, "model"@, 6);
}

/// The params of `thread/start` and of `thread/resume` carry the
/// workspace directory, the configured approval policy and the configured
/// sandbox mode; those of `thread/resume` also the thread to resume.
pub proof fn lemma_thread_params_carry_config(
    thread_id: Seq<char>,
    model: Option<Seq<char>>,
    cwd: Seq<char>,
    approval: Seq<char>,
    sandbox: Seq<char>,
)
    ensures
        jget_str(spec_thread_start_params(model, cwd, approval, sandbox), "cwd"@) == Some(cwd),
        jget_str(spec_thread_start_params(model, cwd, approval, sandbox), "approvalPolicy"@) == Some(approval),
        jget_str(spec_thread_start_params(model, cwd, approval, sandbox), "sandbox"@) == Some(sandbox),
        jget_str(spec_thread_resume_params(thread_id, model, cwd, approval, sandbox), "threadId"@) == Some(thread_id),
        jget_str(spec_thread_resume_params(thread_id, model, cwd, approval, sandbox), "cwd"@) == Some(cwd),
        jget_str(spec_thread_resume_params(thread_id, model, cwd, approval, sandbox), "approvalPolicy"@) == Some(approval),
        jget_str(spec_thread_resume_params(thread_id, model, cwd, approval, sandbox), "sandbox"@) == Some(sandbox),
{
    reveal_strlit("threadId");
    reveal_strlit("model");
    reveal_strlit("cwd");
    reveal_strlit("approvalPolicy");
    reveal_strlit("approvalsReviewer");
    reveal_strlit("sandbox");
    assert("threadId"@.len() == 8 && "model"@.len() == 5 && "cwd"@.len() == 3 && "approvalPolicy"@.len() == 14
        && "approvalsReviewer"@.len() == 17 && "sandbox"@.len() == 7);
    let s = spec_thread_start_params(model, cwd, approval, sandbox)->Object_0;
    lemma_jget_member(s, "cwd"@, 1);
    lemma_jget_member(s, "approvalPolicy"@, 2);
    lemma_jget_member(s, "sandbox"@, 4);
    let r = spec_thread_resume_params(thread_id, model, cwd, approval, sandbox)->Object_0;
    lemma_jget_member(r, "threadId"@, 0);
    lemma_jget_member(r, "cwd"@, 2);
    lemma_jget_member(r, "approvalPolicy"@, 3);
    lemma_jget_member(r, "sandbox"@, 5);
}

/// The params of `thread/read` for `thread_id`, with its turns.
pub open spec fn spec_thread_read_params(thread_id: Seq<char>) -> JsonV {
    jobj(seq![("threadId"@, jtext(thread_id)), ("includeTurns"@, JsonV::Bool(true))])
}

pub fn thread_read_params(thread_id: &str) -> (r: Json)
    ensures
        r@ == spec_thread_read_params(thread_id@),
{
    let mut m: Vec<(String, Json)> = Vec::new();
    push_member(&mut m, "threadId", json_text(thread_id));
    push_member(&mut m, "includeTurns", Json::Bool(true));
    assert(members_view(m@) =~= seq![("threadId"@, jtext(thread_id@)), ("includeTurns"@, JsonV::Bool(true))]);
    Json::Object(m)
}

/// The id of the `n`-th call.
pub open spec fn spec_call_id(n: nat) -> Seq<char> {
    "client-"@ + decimal(n)
}

/// A call of `method` with `params`, under `request_id`.
pub open spec fn spec_call_message(request_id: Seq<char>, method: Seq<char>, params: JsonV) -> JsonV {
    jobj(seq![("id"@, jtext(request_id)), ("method"@, jtext(method)), ("params"@, params)])
}

/// Numbers the bridge's calls: `client-1`, `client-2`, and so on.
#[derive(Debug)]
pub struct CallCounter {
    next_request_id: u64,
}

impl CallCounter {
    pub closed spec fn next(&self) -> nat {
        self.next_request_id as nat
    }

    /// The counter of a new connection, at 1.
    pub fn new() -> (r: Self)
        ensures
            r.next() == 1,
    {
        CallCounter { next_request_id: 1 }
    }

    /// Whether another call can be numbered.
    pub fn can_number(&self) -> (r: bool)
        ensures
            r == (self.next() < u64::MAX),
    {
        self.next_request_id < u64::MAX
    }

    /// Numbers the next call of `method` and builds its message; returns
    /// the call's id and the message.
    pub fn next_call(&mut self, method: &str, params: Json) -> (r: (String, Json))
        requires
            old(self).next() < u64::MAX,
        ensures
            final(self).next() == old(self).next() + 1,
            r.0@ == spec_call_id(old(self).next()),
            r.1@ == spec_call_message(spec_call_id(old(self).next()), method@, params@),
    {
        let digits = decimal_text_u64(self.next_request_id);
        let request_id = join2("client-", digits.as_str());
        self.next_request_id = self.next_request_id + 1;
        let ghost pv = params@;
        let mut m: Vec<(String, Json)> = Vec::new();
        push_member(&mut m, "id", Json::Str(request_id.clone()));
        push_member(&mut m, "method", json_text(method));
        push_member(&mut m, "params", params);
        assert(members_view(m@) =~= seq![("id"@, jtext(request_id@)), ("method"@, jtext(method@)), ("params"@, pv)]);
        (request_id, Json::Object(m))
    }
}

/// The reply to the server request `request_id`, carrying `response` both
/// as `response` and as `result`.
pub open spec fn spec_approval_reply(request_id: Seq<char>, response: JsonV) -> JsonV {
    jobj(seq![("id"@, jtext(request_id)), ("response"@, response), ("result"@, response)])
}

pub fn approval_reply(request_id: &str, response: Json) -> (r: Json)
    ensures
        r@ == spec_approval_reply(request_id@, response@),
{
    let ghost rv = response@;
    let copy = response.deep_clone();
    let mut m: Vec<(String, Json)> = Vec::new();
    push_member(&mut m, "id", json_text(request_id));
    push_member(&mut m, "response", response);
    push_member(&mut m, "result", copy);
    assert(members_view(m@) =~= seq![("id"@, jtext(request_id@)), ("response"@, rv), ("result"@, rv)]);
    Json::Object(m)
}


/// Calls numbered differently have different ids, so a reply is never
/// taken for another call's.
pub proof fn lemma_call_ids_distinct(m: nat, n: nat)
    requires
        m != n,
    ensures
        spec_call_id(m) != spec_call_id(n),
{
    if spec_call_id(m) == spec_call_id(n) {
        let prefix = "client-"@;
        assert(decimal(m) =~= spec_call_id(m).subrange(prefix.len() as int, spec_call_id(m).len() as int));
        assert(decimal(n) =~= spec_call_id(n).subrange(prefix.len() as int, spec_call_id(n).len() as int));
        crate::text::lemma_decimal_injective(m, n);
    }
}

/// The sandbox policy follows the configured mode: `danger-full-access`
/// gives full access; `read-only` gives read access to the working
/// directory and its children, with network access; `workspace-write`
/// gives write access to exactly the workspace's writable roots; any
/// other mode gives that same workspace-write policy and names the mode
/// as its fallback.
pub proof fn lemma_sandbox_policy_follows_mode(sandbox: Seq<char>, roots: Seq<String>)
    ensures
        sandbox == "danger-full-access"@ ==> jget_str(spec_sandbox_policy(sandbox, roots), "type"@) == Some("dangerFullAccess"@),
        sandbox == "read-only"@ ==> {
            &&& jget_str(spec_sandbox_policy(sandbox, roots), "type"@) == Some("readOnly"@)
            &&& jget(spec_sandbox_policy(sandbox, roots), "networkAccess"@) == Some(JsonV::Bool(true))
        },
        sandbox != "danger-full-access"@ && sandbox != "read-only"@ ==> {
            &&& jget_str(spec_sandbox_policy(sandbox, roots), "type"@) == Some("workspaceWrite"@)
            &&& jget(spec_sandbox_policy(sandbox, roots), "writableRoots"@) matches Some(JsonV::Array(items)) && items.len()
                == roots.len() && forall|k: int| 0 <= k < roots.len() ==> #[trigger] items[k] == JsonV::Str(roots[k]@)
            &&& jget_str(spec_sandbox_policy(sandbox, roots), "networkAccess"@) == Some("enabled"@)
            &&& sandbox == "workspace-write"@ ==> jget(spec_sandbox_policy(sandbox, roots), "fallbackSandbox"@) is None
            &&& sandbox != "workspace-write"@ ==> jget_str(spec_sandbox_policy(sandbox, roots), "fallbackSandbox"@) == Some(sandbox)
        },
{
    reveal_strlit("type");
    reveal_strlit("access");
    reveal_strlit("networkAccess");
    reveal_strlit("writableRoots");
    reveal_strlit("readOnlyAccess");
    reveal_strlit("excludeTmpdirEnvVar");
    reveal_strlit("excludeSlashTmp");
    reveal_strlit("fallbackSandbox");
    reveal_strlit("danger-full-access");
    reveal_strlit("read-only");
    reveal_strlit("workspace-write");
    assert("danger-full-access"@.len() == 18 && "read-only"@.len() == 9 && "workspace-write"@.len() == 15);
    assert("type"@.len() == 4 && "access"@.len() == 6 && "networkAccess"@.len() == 13 && "writableRoots"@.len() == 13
        && "readOnlyAccess"@.len() == 14 && "excludeTmpdirEnvVar"@.len() == 19 && "excludeSlashTmp"@.len() == 15
        && "fallbackSandbox"@.len() == 15);
    assert("networkAccess"@[0] != "writableRoots"@[0]);
    assert("excludeSlashTmp"@[0] != "fallbackSandbox"@[0]);
    let p = spec_sandbox_policy(sandbox, roots);
    let m = p->Object_0;
    if sandbox == "danger-full-access"@ {
        lemma_jget_member(m, "type"@, 0);
    } else if sandbox == "read-only"@ {
        lemma_jget_member(m, "type"@, 0);
        lemma_jget_member(m, "networkAccess"@, 2);
    } else {
        lemma_jget_member(m, "type"@, 0);
        lemma_jget_member(m, "writableRoots"@, 1);
        lemma_jget_member(m, "networkAccess"@, 3);
        if sandbox != "workspace-write"@ {
            lemma_jget_member(m, "fallbackSandbox"@, 6);
        } else {
            assert(member_index_from(m, "fallbackSandbox"@, 6) is None);
            assert(member_index_from(m, "fallbackSandbox"@, 5) is None);
            assert(member_index_from(m, "fallbackSandbox"@, 4) is None);
            assert(member_index_from(m, "fallbackSandbox"@, 3) is None);
            assert(member_index_from(m, "fallbackSandbox"@, 2) is None);
            assert(member_index_from(m, "fallbackSandbox"@, 1) is None);
            assert(member_index_from(m, "fallbackSandbox"@, 0) is None);
        }
    }
}

/// The reply to an approval request carries the request's id and the
/// answer, both as `response` and as `result`.
pub proof fn lemma_approval_reply_carries_answer(request_id: Seq<char>, response: JsonV)
    ensures
        jget_str(spec_approval_reply(request_id, response), "id"@) == Some(request_id),
        jget(spec_approval_reply(request_id, response), "response"@) == Some(response),
        jget(spec_approval_reply(request_id, response), "result"@) == Some(response),
{
    reveal_strlit("id");
    reveal_strlit("response");
    reveal_strlit("result");
    assert("id"@.len() == 2 && "response"@.len() == 8 && "result"@.len() == 6);
    let m = spec_approval_reply(request_id, response)->Object_0;
    lemma_jget_member(m, "id"@, 0);
    lemma_jget_member(m, "response"@, 1);
    lemma_jget_member(m, "result"@, 2);
}

/// A call carries its id, its method and its params.
pub proof fn lemma_call_message_carries_call(request_id: Seq<char>, method: Seq<char>, params: JsonV)
    ensures
        jget_str(spec_call_message(request_id, method, params), "id"@) == Some(request_id),
        jget_str(spec_call_message(request_id, method, params), "method"@) == Some(method),
        jget(spec_call_message(request_id, method, params), "params"@) == Some(params),
{
    reveal_strlit("id");
    reveal_strlit("method");
    reveal_strlit("params");
    assert("id"@.len() == 2 && "method"@.len() == 6 && "params"@.len() == 6);
    assert("method"@[0] != "params"@[0]);
    let m = spec_call_message(request_id, method, params)->Object_0;
    lemma_jget_member(m, "id"@, 0);
    lemma_jget_member(m, "method"@, 1);
    lemma_jget_member(m, "params"@, 2);
}

/// The input of a turn is the prompt as text, then each image path of
/// the request as a local image, in order.
pub proof fn lemma_user_inputs(prompt: Seq<char>, images: Seq<String>)
    ensures
        spec_user_inputs(prompt, images).len() == images.len() + 1,
        jget_str(spec_user_inputs(prompt, images)[0], "type"@) == Some("text"@),
        jget_str(spec_user_inputs(prompt, images)[0], "text"@) == Some(prompt),
        forall|k: int| 0 <= k < images.len() ==> {
            &&& jget_str(#[trigger] spec_user_inputs(prompt, images)[k + 1], "type"@) == Some("localImage"@)
            &&& jget_str(spec_user_inputs(prompt, images)[k + 1], "path"@) == Some(images[k]@)
        },
{
    reveal_strlit("type");
    reveal_strlit("text");
    reveal_strlit("path");
    assert("type"@.len() == 4 && "text"@.len() == 4 && "path"@.len() == 4);
    assert("type"@[1] != "text"@[1] && "type"@[1] != "path"@[1]);
    let inputs = spec_user_inputs(prompt, images);
    let first = inputs[0]->Object_0;
    lemma_jget_member(first, "type"@, 0);
    lemma_jget_member(first, "text"@, 1);
    assert forall|k: int| 0 <= k < images.len() implies {
        &&& jget_str(#[trigger] spec_user_inputs(prompt, images)[k + 1], "type"@) == Some("localImage"@)
        &&& jget_str(spec_user_inputs(prompt, images)[k + 1], "path"@) == Some(images[k]@)
    } by {
        let item = inputs[k + 1]->Object_0;
        assert(inputs[k + 1] == jobj(seq![("type"@, jtext("localImage"@)), ("path"@, jtext(images[k]@))]));
        lemma_jget_member(item, "type"@, 0);
        lemma_jget_member(item, "path"@, 1);
    }
}

} // verus!
