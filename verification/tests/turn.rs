use remotty::app_server::AppServerError;
use remotty::json::Json;
use remotty::turn::{last_agent_message, match_call_reply, CallReply, TurnFollower, TurnStep};

fn text(s: &str) -> Json {
    Json::Str(s.to_owned())
}

fn object(members: Vec<(&str, Json)>) -> Json {
    Json::Object(members.into_iter().map(|(k, v)| (k.to_owned(), v)).collect())
}

fn notification(method: &str, params: Json) -> Json {
    object(vec![("method", text(method)), ("params", params)])
}

fn delta(thread: &str, turn: &str, d: &str) -> Json {
    notification(
        "item/agentMessage/delta",
        object(vec![("threadId", text(thread)), ("turnId", text(turn)), ("delta", text(d))]),
    )
}

fn completed(turn: &str, status: Option<&str>) -> Json {
    let mut t = vec![("id", text(turn))];
    if let Some(s) = status {
        t.push(("status", text(s)));
    }
    notification("turn/completed", object(vec![("turn", object(t))]))
}

#[test]
fn follower_gathers_only_its_turns_text() {
    let mut f = TurnFollower::new("th", "tu");
    assert!(matches!(f.on_message(delta("th", "tu", "Hel")), TurnStep::Continue));
    assert!(matches!(f.on_message(delta("other", "tu", "XX")), TurnStep::Continue));
    assert!(matches!(f.on_message(delta("th", "old", "YY")), TurnStep::Continue));
    assert!(matches!(f.on_message(delta("th", "tu", "lo")), TurnStep::Continue));
    assert!(matches!(f.on_message(completed("old", Some("completed"))), TurnStep::Continue));
    match f.on_message(completed("tu", Some("interrupted"))) {
        TurnStep::Completed { exit_code } => assert_eq!(exit_code, 130),
        other => panic!("unexpected {other:?}"),
    }
    let outcome = f.completed_outcome(130, None);
    assert_eq!(outcome.last_message, "Hello");
    assert_eq!(outcome.exit_code, Some(130));
    assert_eq!(outcome.session_id.as_deref(), Some("th"));
    assert!(!outcome.approval_pending);
}

#[test]
fn completion_without_status_counts_as_failure() {
    let mut f = TurnFollower::new("th", "tu");
    match f.on_message(completed("tu", None)) {
        TurnStep::Completed { exit_code } => assert_eq!(exit_code, 1),
        other => panic!("unexpected {other:?}"),
    }
    let outcome = f.completed_outcome(1, Some("final".to_owned()));
    assert_eq!(outcome.last_message, "final");
}

#[test]
fn follower_counts_resolved_requests_of_its_thread() {
    let mut f = TurnFollower::new("th", "tu");
    f.on_message(notification("serverRequest/resolved", object(vec![("threadId", text("th"))])));
    f.on_message(notification("serverRequest/resolved", object(vec![("threadId", text("x"))])));
    f.on_message(notification("serverRequest/resolved", object(vec![("threadId", text("th"))])));
    let outcome = f.completed_outcome(0, None);
    assert_eq!(outcome.approval_resolved_count, 2);
}

#[test]
fn approval_request_pauses_the_turn() {
    let mut f = TurnFollower::new("th", "tu");
    f.on_message(delta("th", "tu", "partial"));
    let request = object(vec![
        ("id", Json::Number("3".to_owned())),
        ("method", text("item/fileChange/requestApproval")),
        ("params", object(vec![("threadId", text("th")), ("turnId", text("tu")), ("itemId", text("i"))])),
    ]);
    let draft = match f.on_message(request) {
        TurnStep::Paused(d) => d,
        other => panic!("unexpected {other:?}"),
    };
    assert_eq!(draft.request_id, "3");
    let outcome = f.paused_outcome(draft.into_request("{}".to_owned()));
    assert!(outcome.approval_pending);
    assert_eq!(outcome.approval_request_count, 1);
    assert_eq!(outcome.approval_requests.len(), 1);
    assert_eq!(outcome.last_message, "partial");
    assert_eq!(outcome.exit_code, None);
}

#[test]
fn messages_without_method_or_unknown_requests_go_to_backlog() {
    let mut f = TurnFollower::new("th", "tu");
    let response = object(vec![("id", text("client-1")), ("result", Json::Null)]);
    assert!(matches!(f.on_message(response), TurnStep::Backlog(_)));
    let other_request = object(vec![("id", text("s1")), ("method", text("item/other")), ("params", Json::Null)]);
    assert!(matches!(f.on_message(other_request), TurnStep::Backlog(_)));
    let broken = notification("turn/completed", object(vec![]));
    assert!(matches!(f.on_message(broken), TurnStep::Failed(AppServerError::MissingCompletedTurn)));
}

#[test]
fn call_reply_matches_its_own_id() {
    let ok = object(vec![("id", text("client-2")), ("result", text("r")), ("response", text("s"))]);
    assert!(matches!(match_call_reply(&ok, "client-1", "m"), CallReply::Other));
    match match_call_reply(&ok, "client-2", "m") {
        CallReply::Reply(Ok(v)) => assert_eq!(v, text("r")),
        other => panic!("unexpected {other:?}"),
    }
    let via_response = object(vec![("id", text("client-2")), ("response", text("s"))]);
    assert!(matches!(match_call_reply(&via_response, "client-2", "m"), CallReply::Reply(Ok(Json::Str(ref s))) if s == "s"));
    let failed = object(vec![("id", text("client-2")), ("error", text("boom"))]);
    assert!(matches!(match_call_reply(&failed, "client-2", "m"), CallReply::Reply(Err(AppServerError::CallFailed { .. }))));
    let empty = object(vec![("id", text("client-2"))]);
    assert!(matches!(match_call_reply(&empty, "client-2", "m"), CallReply::Reply(Err(AppServerError::MissingResult { .. }))));
}

#[test]
fn last_agent_message_takes_latest_matching_turn() {
    let item = |t: &str, x: Option<&str>| {
        let mut m = vec![("type", text(t))];
        if let Some(x) = x {
            m.push(("text", text(x)));
        }
        object(m)
    };
    let turn = |id: &str, items: Vec<Json>| object(vec![("id", text(id)), ("items", Json::Array(items))]);
    let response = object(vec![(
        "thread",
        object(vec![(
            "turns",
            Json::Array(vec![
                turn("tu", vec![item("agentMessage", Some("early"))]),
                turn("tu", vec![item("agentMessage", Some("first")), item("agentMessage", Some("second")), item("userMessage", Some("u"))]),
                turn("tu", vec![item("reasoning", None)]),
                turn("other", vec![item("agentMessage", Some("wrong"))]),
            ]),
        )]),
    )]);
    assert_eq!(last_agent_message(&response, "tu").unwrap(), "second");
    assert_eq!(last_agent_message(&response, "none").unwrap(), "");
    let textless = object(vec![("thread", object(vec![("turns", Json::Array(vec![turn("tu", vec![item("agentMessage", None)])]))]))]);
    assert_eq!(last_agent_message(&textless, "tu").unwrap(), "");
    assert!(matches!(last_agent_message(&object(vec![]), "tu"), Err(AppServerError::MissingTurns)));
}
