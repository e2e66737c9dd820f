use remotty::app_server::{thread_result_thread_id, turn_result_turn_id, approval_response, parse_approval_request, summarize_tool_user_input, turn_status_exit_code, AppServerError};
use remotty::json::Json;
use remotty::model::{ApprovalRequestKind, ApprovalRequestRecord, ApprovalRequestStatus};

fn text(s: &str) -> Json {
    Json::Str(s.to_owned())
}

fn object(members: Vec<(&str, Json)>) -> Json {
    Json::Object(members.into_iter().map(|(k, v)| (k.to_owned(), v)).collect())
}

fn record(request_kind: ApprovalRequestKind, request_id: &str, summary: &str, raw: &str) -> ApprovalRequestRecord {
    ApprovalRequestRecord {
        request_id: request_id.to_owned(),
        lane_id: "lane-1".to_owned(),
        run_id: "run-1".to_owned(),
        thread_id: "thread-1".to_owned(),
        turn_id: "turn-1".to_owned(),
        item_id: "item-1".to_owned(),
        request_kind,
        summary_text: summary.to_owned(),
        raw_payload_json: raw.to_owned(),
        status: ApprovalRequestStatus::Pending,
        requested_at_ms: 0,
        resolved_at_ms: None,
        resolved_by_sender_id: None,
        telegram_message_id: None,
    }
}

fn permissions_payload() -> Json {
    object(vec![
        ("network", object(vec![("kind", text("full"))])),
        ("fileSystem", Json::Null),
    ])
}

#[test]
fn parses_command_approval_request() {
    let request = parse_approval_request(&object(vec![
        ("id", text("req-1")),
        ("method", text("item/commandExecution/requestApproval")),
        (
            "params",
            object(vec![
                ("threadId", text("thread-1")),
                ("turnId", text("turn-1")),
                ("itemId", text("item-1")),
                ("command", text("npm test")),
                ("cwd", text("C:/workspace")),
            ]),
        ),
    ]))
    .expect("approval should parse")
    .expect("approval should exist");

    assert_eq!(request.request_kind, ApprovalRequestKind::CommandExecution);
    assert!(request.summary_text.contains("npm test"));
    assert!(request.summary_text.contains("C:/workspace"));
}

#[test]
fn parses_permissions_approval_request() {
    let request = parse_approval_request(&object(vec![
        ("id", text("req-2")),
        ("method", text("item/permissions/requestApproval")),
        (
            "params",
            object(vec![
                ("threadId", text("thread-1")),
                ("turnId", text("turn-1")),
                ("itemId", text("item-1")),
                ("reason", text("network access required")),
                ("permissions", permissions_payload()),
            ]),
        ),
    ]))
    .expect("approval should parse")
    .expect("approval should exist");

    assert_eq!(request.request_kind, ApprovalRequestKind::Permissions);
    assert!(request.summary_text.contains("network access required"));
}

#[test]
fn builds_decline_response_for_command_execution() {
    let request = record(ApprovalRequestKind::CommandExecution, "req-1", "command", "{}");
    let response = approval_response(&request, &object(vec![]), false).expect("response should build");
    assert_eq!(response, object(vec![("decision", text("decline"))]));
}

#[test]
fn builds_accept_response_for_permissions_request() {
    let request = record(
        ApprovalRequestKind::Permissions,
        "req-2",
        "permissions",
        "{\"permissions\":{\"fileSystem\":null,\"network\":{\"kind\":\"full\"}}}",
    );
    let payload = object(vec![("permissions", permissions_payload())]);
    let response = approval_response(&request, &payload, true).expect("response should build");
    assert_eq!(
        response,
        object(vec![("permissions", permissions_payload()), ("scope", text("turn"))])
    );
}

#[test]
fn command_summary_names_command_and_working_directory() {
    let request = parse_approval_request(&object(vec![
        ("id", Json::Number("7".to_owned())),
        ("method", text("execCommandApproval")),
        (
            "params",
            object(vec![
                ("threadId", text("t")),
                ("turnId", text("u")),
                ("itemId", text("i")),
                ("command", text("cargo build")),
                ("cwd", text("C:/repo")),
            ]),
        ),
    ]))
    .unwrap()
    .unwrap();
    assert_eq!(request.request_id, "7");
    assert_eq!(request.summary_text, "コマンド実行の承認待ち: `cargo build`\n作業場所: `C:/repo`");
}

#[test]
fn command_summary_without_command_or_directory() {
    let request = parse_approval_request(&object(vec![
        ("id", text("r")),
        ("method", text("item/commandExecution/requestApproval")),
        ("params", object(vec![("threadId", text("t")), ("turnId", text("u")), ("itemId", text("i")), ("cwd", text(""))])),
    ]))
    .unwrap()
    .unwrap();
    assert_eq!(request.summary_text, "コマンド実行の承認待ち: `不明なコマンド`");
}

#[test]
fn file_change_summary_prefers_grant_root_then_reason() {
    let base = |extra: Vec<(&str, Json)>| {
        let mut params = vec![("threadId", text("t")), ("turnId", text("u")), ("itemId", text("i"))];
        params.extend(extra);
        object(vec![("id", text("r")), ("method", text("applyPatchApproval")), ("params", object(params))])
    };
    let with_root = parse_approval_request(&base(vec![("grantRoot", text("C:/out")), ("reason", text("why"))])).unwrap().unwrap();
    assert_eq!(with_root.request_kind, ApprovalRequestKind::FileChange);
    assert_eq!(with_root.summary_text, "ファイル変更の承認待ち: `C:/out` への書き込み");
    let with_reason = parse_approval_request(&base(vec![("reason", text("update docs"))])).unwrap().unwrap();
    assert_eq!(with_reason.summary_text, "ファイル変更の承認待ち: update docs");
    let blank = parse_approval_request(&base(vec![("reason", text(" \t"))])).unwrap().unwrap();
    assert_eq!(blank.summary_text, "ファイル変更の承認待ち");
}

#[test]
fn permissions_summary_uses_default_reason_when_blank() {
    let request = parse_approval_request(&object(vec![
        ("id", text("r")),
        ("method", text("item/permissions/requestApproval")),
        ("params", object(vec![("threadId", text("t")), ("turnId", text("u")), ("itemId", text("i")), ("reason", text("  "))])),
    ]))
    .unwrap()
    .unwrap();
    assert_eq!(request.summary_text, "追加権限の承認待ち: 追加の権限が必要です。");
}

#[test]
fn tool_input_summary_counts_questions() {
    let params = object(vec![("questions", Json::Array(vec![Json::Null, Json::Null, Json::Null, Json::Null, Json::Null, Json::Null, Json::Null, Json::Null, Json::Null, Json::Null, Json::Null, Json::Null]))]);
    assert_eq!(summarize_tool_user_input(&params), "追加の入力待ち: 質問数 12");
    assert_eq!(summarize_tool_user_input(&object(vec![])), "追加の入力待ち: 質問数 0");
}

#[test]
fn parse_ignores_messages_without_id_or_with_other_methods() {
    let no_id = object(vec![("method", text("item/permissions/requestApproval")), ("params", object(vec![]))]);
    assert!(parse_approval_request(&no_id).unwrap().is_none());
    let other = object(vec![("id", text("r")), ("method", text("item/other")), ("params", object(vec![]))]);
    assert!(parse_approval_request(&other).unwrap().is_none());
}

#[test]
fn parse_reports_missing_method_params_and_ids() {
    let no_method = object(vec![("id", text("r"))]);
    assert!(matches!(parse_approval_request(&no_method), Err(AppServerError::MissingMethod)));
    let no_params = object(vec![("id", text("r")), ("method", text("execCommandApproval"))]);
    assert!(matches!(parse_approval_request(&no_params), Err(AppServerError::MissingParams)));
    let no_turn = object(vec![
        ("id", text("r")),
        ("method", text("execCommandApproval")),
        ("params", object(vec![("threadId", text("t"))])),
    ]);
    match parse_approval_request(&no_turn) {
        Err(AppServerError::MissingParam(key)) => assert_eq!(key, "turnId"),
        other => panic!("unexpected: {other:?}"),
    }
}

#[test]
fn tool_input_approval_is_refused_and_decline_has_no_answers() {
    let request = record(ApprovalRequestKind::ToolUserInput, "r", "s", "{}");
    assert!(matches!(approval_response(&request, &object(vec![]), true), Err(AppServerError::ToolInputApprovalUnsupported)));
    let declined = approval_response(&request, &object(vec![]), false).unwrap();
    assert_eq!(declined, object(vec![("answers", object(vec![]))]));
}

#[test]
fn permissions_decline_grants_nothing_and_accept_without_request_grants_empty() {
    let request = record(ApprovalRequestKind::Permissions, "r", "s", "{}");
    let declined = approval_response(&request, &object(vec![("permissions", permissions_payload())]), false).unwrap();
    assert_eq!(declined, object(vec![("permissions", object(vec![])), ("scope", text("turn"))]));
    let accepted = approval_response(&request, &object(vec![]), true).unwrap();
    assert_eq!(accepted, object(vec![("permissions", object(vec![])), ("scope", text("turn"))]));
    let file = record(ApprovalRequestKind::FileChange, "r", "s", "{}");
    assert_eq!(approval_response(&file, &object(vec![]), true).unwrap(), object(vec![("decision", text("accept"))]));
}

#[test]
fn exit_codes_follow_turn_status() {
    assert_eq!(turn_status_exit_code("completed"), 0);
    assert_eq!(turn_status_exit_code("interrupted"), 130);
    assert_eq!(turn_status_exit_code("failed"), 1);
}

#[test]
fn turn_and_thread_ids_come_from_results() {
    let turn = object(vec![("turn", object(vec![("id", text("turn-7"))]))]);
    assert_eq!(turn_result_turn_id(&turn).unwrap(), "turn-7");
    assert!(matches!(turn_result_turn_id(&object(vec![("turn", object(vec![]))])), Err(AppServerError::MissingTurnId)));
    let thread = object(vec![("thread", object(vec![("id", text("thread-3"))]))]);
    assert_eq!(thread_result_thread_id(&thread).unwrap(), "thread-3");
    assert!(matches!(thread_result_thread_id(&turn), Err(AppServerError::MissingThreadId)));
}
