use remotty::json::Json;
use remotty::protocol::{
    approval_reply, initialize_params, initialized_notification, request_to_user_inputs, sandbox_policy_for_workspace,
    thread_read_params, thread_resume_params, thread_start_params, turn_start_params, CallCounter, CodexConfig,
    CodexRequest, WorkspaceConfig,
};

fn text(s: &str) -> Json {
    Json::Str(s.to_owned())
}

fn object(members: Vec<(&str, Json)>) -> Json {
    Json::Object(members.into_iter().map(|(k, v)| (k.to_owned(), v)).collect())
}

fn config(sandbox: &str, model: Option<&str>) -> CodexConfig {
    CodexConfig {
        binary: "codex".to_owned(),
        model: model.map(str::to_owned),
        approval: "on-request".to_owned(),
        sandbox: sandbox.to_owned(),
    }
}

fn workspace() -> WorkspaceConfig {
    WorkspaceConfig { path: "C:/project".to_owned(), writable_roots: vec!["C:/project".to_owned(), "C:/tmp".to_owned()] }
}

fn workspace_write(extra: Option<Json>) -> Json {
    let mut members = vec![
        ("type", text("workspaceWrite")),
        ("writableRoots", Json::Array(vec![text("C:/project"), text("C:/tmp")])),
        ("readOnlyAccess", object(vec![("type", text("cwdAndChildren"))])),
        ("networkAccess", text("enabled")),
        ("excludeTmpdirEnvVar", Json::Bool(false)),
        ("excludeSlashTmp", Json::Bool(false)),
    ];
    if let Some(fallback) = extra {
        members.push(("fallbackSandbox", fallback));
    }
    object(members)
}

#[test]
fn sandbox_policies_follow_sandbox_mode() {
    assert_eq!(
        sandbox_policy_for_workspace(&config("danger-full-access", None), &workspace()),
        object(vec![("type", text("dangerFullAccess"))])
    );
    assert_eq!(
        sandbox_policy_for_workspace(&config("read-only", None), &workspace()),
        object(vec![
            ("type", text("readOnly")),
            ("access", object(vec![("type", text("cwdAndChildren"))])),
            ("networkAccess", Json::Bool(true)),
        ])
    );
    assert_eq!(sandbox_policy_for_workspace(&config("workspace-write", None), &workspace()), workspace_write(None));
    assert_eq!(
        sandbox_policy_for_workspace(&config("custom", None), &workspace()),
        workspace_write(Some(text("custom")))
    );
}

#[test]
fn user_inputs_put_prompt_before_images() {
    let inputs = request_to_user_inputs(&CodexRequest {
        prompt: "look".to_owned(),
        image_paths: vec!["C:/a.png".to_owned()],
    });
    assert_eq!(
        inputs,
        vec![
            object(vec![("type", text("text")), ("text", text("look")), ("text_elements", Json::Array(vec![]))]),
            object(vec![("type", text("localImage")), ("path", text("C:/a.png"))]),
        ]
    );
}

#[test]
fn thread_messages_carry_configuration() {
    let start = thread_start_params(&config("read-only", Some("gpt")), &workspace());
    assert_eq!(start.get("model"), Some(&text("gpt")));
    assert_eq!(start.get("serviceName"), Some(&text("codex-channels")));
    assert_eq!(start.get("approvalsReviewer"), Some(&text("user")));
    let no_model = thread_start_params(&config("read-only", None), &workspace());
    assert_eq!(no_model.get("model"), Some(&Json::Null));
    let resume = thread_resume_params(&config("read-only", None), &workspace(), "thread-9");
    assert_eq!(resume.get("threadId"), Some(&text("thread-9")));
    assert_eq!(resume.get("persistExtendedHistory"), Some(&Json::Bool(true)));
    let turn = turn_start_params(
        &config("workspace-write", None),
        &workspace(),
        "thread-9",
        &CodexRequest { prompt: "go".to_owned(), image_paths: vec![] },
    );
    assert_eq!(turn.get("sandboxPolicy"), Some(&workspace_write(None)));
    assert_eq!(turn.get("cwd"), Some(&text("C:/project")));
    assert_eq!(thread_read_params("t"), object(vec![("threadId", text("t")), ("includeTurns", Json::Bool(true))]));
}

#[test]
fn initialization_messages() {
    let params = initialize_params("0.2.0");
    assert_eq!(
        params,
        object(vec![
            (
                "clientInfo",
                object(vec![("name", text("codex-channels")), ("title", text("codex-channels")), ("version", text("0.2.0"))]),
            ),
            (
                "capabilities",
                object(vec![("experimentalApi", Json::Bool(false)), ("optOutNotificationMethods", Json::Array(vec![]))]),
            ),
        ])
    );
    assert_eq!(initialized_notification(), object(vec![("method", text("initialized"))]));
}

#[test]
fn calls_are_numbered_from_one() {
    let mut counter = CallCounter::new();
    assert!(counter.can_number());
    let (first, message) = counter.next_call("initialize", Json::Null);
    assert_eq!(first, "client-1");
    assert_eq!(message, object(vec![("id", text("client-1")), ("method", text("initialize")), ("params", Json::Null)]));
    for _ in 0..9 {
        counter.next_call("x", Json::Null);
    }
    let (eleventh, _) = counter.next_call("x", Json::Null);
    assert_eq!(eleventh, "client-11");
}

#[test]
fn approval_reply_carries_response_twice() {
    let response = object(vec![("decision", text("accept"))]);
    assert_eq!(
        approval_reply("req-1", response.clone()),
        object(vec![("id", text("req-1")), ("response", response.clone()), ("result", response)])
    );
}
