use std::path::PathBuf;

use remotty::model::{
    ApprovalRequestKind, ApprovalRequestStatus, AuthorizedSender, LaneMode, LaneState, NewApprovalRequest, NewRun,
};
use remotty::sqlite::{SqlParam, SqlValue};
use remotty::store::{changed, decode_lane_row, Store, StoreError};

fn temp_store() -> Store {
    Store::open(PathBuf::from(":memory:")).expect("store")
}

#[test]
fn find_lane_returns_lane_for_chat_and_thread() {
    let mut store = temp_store();
    let created = store
        .get_or_create_lane(42, "555", "workspace", LaneMode::AwaitReply, 0)
        .expect("lane");

    let fetched = store.find_lane(42, "555").expect("query").expect("lane exists");

    assert_eq!(fetched.lane_id, created.lane_id);
    assert_eq!(fetched.chat_id, 42);
    assert_eq!(fetched.thread_key, "555");
}

#[test]
fn clear_lane_session_resets_session_fields_and_state() {
    let mut store = temp_store();
    let lane = store
        .get_or_create_lane(42, "555", "workspace", LaneMode::MaxTurns, 2)
        .expect("lane");
    store
        .update_lane_state(&lane.lane_id, LaneState::WaitingReply, Some("session-1"))
        .expect("state update");
    store
        .select(
            "UPDATE lanes SET extra_turn_budget = 2 WHERE lane_id = ?1",
            &vec![SqlParam::Text(lane.lane_id.clone())],
            0,
        )
        .expect("budget update");

    store.clear_lane_session(&lane.lane_id).expect("session clear");

    let lane = store.find_lane(42, "555").expect("query").expect("lane exists");
    assert_eq!(lane.state, LaneState::Idle);
    assert_eq!(lane.codex_session_id, None);
    assert_eq!(lane.extra_turn_budget, 2);
    assert_eq!(lane.waiting_since_ms, None);
    assert_eq!(lane.mode, LaneMode::MaxTurns);
}

#[test]
fn update_lane_mode_changes_mode_and_budget() {
    let mut store = temp_store();
    let lane = store
        .get_or_create_lane(42, "555", "workspace", LaneMode::AwaitReply, 0)
        .expect("lane");
    store
        .update_lane_state(&lane.lane_id, LaneState::WaitingReply, Some("session-1"))
        .expect("state update");

    store
        .update_lane_mode(&lane.lane_id, LaneMode::MaxTurns, 5)
        .expect("mode update");

    let lane = store.find_lane(42, "555").expect("query").expect("lane exists");
    assert_eq!(lane.mode, LaneMode::MaxTurns);
    assert_eq!(lane.extra_turn_budget, 5);
    assert_eq!(lane.state, LaneState::WaitingReply);
    assert_eq!(lane.codex_session_id.as_deref(), Some("session-1"));
    assert!(lane.waiting_since_ms.is_some());
}

#[test]
fn create_lane_uses_requested_budget_for_max_turns() {
    let mut store = temp_store();

    let lane = store
        .get_or_create_lane(42, "555", "workspace", LaneMode::MaxTurns, 4)
        .expect("lane");

    assert_eq!(lane.extra_turn_budget, 4);
}

#[test]
fn update_lane_workspace_changes_workspace_and_clears_session() {
    let mut store = temp_store();
    let lane = store
        .get_or_create_lane(42, "555", "main", LaneMode::AwaitReply, 0)
        .expect("lane");
    store
        .update_lane_state(&lane.lane_id, LaneState::WaitingReply, Some("session-1"))
        .expect("state update");

    store
        .update_lane_workspace(&lane.lane_id, "docs")
        .expect("workspace update");

    let lane = store.find_lane(42, "555").expect("query").expect("lane exists");
    assert_eq!(lane.workspace_id, "docs");
    assert_eq!(lane.state, LaneState::Idle);
    assert_eq!(lane.codex_session_id, None);
    assert_eq!(lane.waiting_since_ms, None);
}

#[test]
fn update_lane_state_to_needs_local_approval_keeps_session_and_clears_waiting() {
    let mut store = temp_store();
    let lane = store
        .get_or_create_lane(42, "555", "main", LaneMode::AwaitReply, 0)
        .expect("lane");
    store
        .update_lane_state(&lane.lane_id, LaneState::WaitingReply, Some("session-1"))
        .expect("state update");

    store
        .update_lane_state(&lane.lane_id, LaneState::NeedsLocalApproval, Some("session-1"))
        .expect("approval state update");

    let lane = store.find_lane(42, "555").expect("query").expect("lane exists");
    assert_eq!(lane.state, LaneState::NeedsLocalApproval);
    assert_eq!(lane.codex_session_id.as_deref(), Some("session-1"));
    assert_eq!(lane.waiting_since_ms, None);
}

#[test]
fn finish_run_persists_approval_counts() {
    let mut store = temp_store();
    let run = store
        .insert_run(NewRun { lane_id: "lane-1".to_owned(), run_kind: "start".to_owned() })
        .expect("run");

    store
        .finish_run(&run.run_id, None, "needs_local_approval", true, 2, 1)
        .expect("finish run");

    let rows = store
        .select(
            "SELECT approval_pending, approval_request_count, approval_resolved_count FROM runs WHERE run_id = ?1",
            &vec![SqlParam::Text(run.run_id.clone())],
            3,
        )
        .expect("read run");
    assert_eq!(rows.len(), 1);
    let (approval_pending, request_count, resolved_count) = (&rows[0][0], &rows[0][1], &rows[0][2]);
    assert_eq!(*approval_pending, SqlValue::Integer(1));
    assert_eq!(*request_count, SqlValue::Integer(2));
    assert_eq!(*resolved_count, SqlValue::Integer(1));
}

#[test]
fn approval_request_round_trip_supports_resolve_and_message_tracking() {
    let mut store = temp_store();
    store
        .insert_approval_request(NewApprovalRequest {
            request_id: "req-1".to_owned(),
            lane_id: "lane-1".to_owned(),
            run_id: "run-1".to_owned(),
            thread_id: "thread-1".to_owned(),
            turn_id: "turn-1".to_owned(),
            item_id: "item-1".to_owned(),
            request_kind: ApprovalRequestKind::CommandExecution,
            summary_text: "command approval".to_owned(),
            raw_payload_json: "{\"kind\":\"command\"}".to_owned(),
        })
        .expect("insert approval request");

    let pending = store
        .list_pending_approval_requests_for_lane("lane-1")
        .expect("pending approvals");
    assert_eq!(pending.len(), 1);
    assert_eq!(pending[0].status, ApprovalRequestStatus::Pending);

    store.set_approval_request_message_id("req-1", 55).expect("set message id");
    let updated = store
        .resolve_approval_request("req-1", ApprovalRequestStatus::Approved, 99)
        .expect("resolve approval request");
    assert!(updated);

    let request = store
        .find_approval_request("req-1")
        .expect("find approval request")
        .expect("request exists");
    assert_eq!(request.status, ApprovalRequestStatus::Approved);
    assert_eq!(request.telegram_message_id, Some(55));
    assert_eq!(request.resolved_by_sender_id, Some(99));
    assert!(request.resolved_at_ms.is_some());

    let second_update = store
        .resolve_approval_request("req-1", ApprovalRequestStatus::Declined, 99)
        .expect("second resolve");
    assert!(!second_update);
}

#[test]
fn get_or_create_lane_returns_existing_lane() {
    let mut store = temp_store();
    let first = store.get_or_create_lane(7, "t", "main", LaneMode::Infinite, 1).unwrap();
    let second = store.get_or_create_lane(7, "t", "other", LaneMode::AwaitReply, 9).unwrap();
    assert_eq!(first.lane_id, second.lane_id);
    assert_eq!(second.workspace_id, "main");
    assert_eq!(second.mode, LaneMode::Infinite);
    assert_eq!(first.lane_id.len(), 36);
    assert!(store.find_lane(7, "other-thread").unwrap().is_none());
}

#[test]
fn only_active_senders_are_authorized() {
    let mut store = temp_store();
    assert!(!store.is_authorized_sender(10).unwrap());
    store
        .upsert_authorized_sender(AuthorizedSender {
            sender_id: 10,
            platform: "telegram".to_owned(),
            display_name: Some("alice".to_owned()),
            status: "active".to_owned(),
            approved_at_ms: 1,
        })
        .unwrap();
    assert!(store.is_authorized_sender(10).unwrap());
    store
        .upsert_authorized_sender(AuthorizedSender {
            sender_id: 10,
            platform: "telegram".to_owned(),
            display_name: None,
            status: "revoked".to_owned(),
            approved_at_ms: 2,
        })
        .unwrap();
    assert!(!store.is_authorized_sender(10).unwrap());
}

#[test]
fn seen_updates_are_recorded_once() {
    let mut store = temp_store();
    assert!(store.insert_seen_update(1, 42, Some(10), "message", "{}").unwrap());
    assert!(!store.insert_seen_update(1, 42, None, "message", "{}").unwrap());
    assert!(store.insert_seen_update(2, 42, None, "callback", "{}").unwrap());
}

#[test]
fn pending_requests_exclude_resolved_ones_and_come_oldest_first() {
    let mut store = temp_store();
    for id in ["a", "b", "c"] {
        store
            .insert_approval_request(NewApprovalRequest {
                request_id: id.to_owned(),
                lane_id: "lane".to_owned(),
                run_id: "run".to_owned(),
                thread_id: "thread".to_owned(),
                turn_id: "turn".to_owned(),
                item_id: id.to_owned(),
                request_kind: ApprovalRequestKind::FileChange,
                summary_text: "s".to_owned(),
                raw_payload_json: "{}".to_owned(),
            })
            .unwrap();
    }
    assert!(store.resolve_approval_request("b", ApprovalRequestStatus::TimedOut, 1).unwrap());
    let pending = store.list_pending_approval_requests_for_lane("lane").unwrap();
    let ids: Vec<&str> = pending.iter().map(|r| r.request_id.as_str()).collect();
    assert_eq!(ids.len(), 2);
    assert!(ids.contains(&"a") && ids.contains(&"c"));
    assert_eq!(pending[0].request_kind, ApprovalRequestKind::FileChange);
    assert!(store.find_approval_request("missing").unwrap().is_none());
    store.insert_message("lane", Some("run"), "outbound", "reply", Some(5), Some("hi"), None).unwrap();
}

#[test]
fn corrupt_stored_state_is_reported_as_conversion_error() {
    let mut store = temp_store();
    let lane = store.get_or_create_lane(1, "x", "main", LaneMode::AwaitReply, 0).unwrap();
    store.update_lane_mode(&lane.lane_id, LaneMode::AwaitReply, 0).unwrap();
    store
        .select("UPDATE lanes SET state = 'sleeping' WHERE lane_id = ?1", &vec![SqlParam::Text(lane.lane_id.clone())], 0)
        .unwrap();
    match store.find_lane(1, "x") {
        Err(StoreError::Conversion { index, message }) => {
            assert_eq!(index, 5);
            assert_eq!(message, "unknown lane state: sleeping");
        }
        other => panic!("unexpected: {:?}", other.map(|l| l.map(|l| l.lane_id))),
    }
}

#[test]
fn open_and_statement_failures_are_reported() {
    assert!(matches!(
        Store::open(PathBuf::from("/nonexistent-directory/for/sure/store.db")),
        Err(StoreError::Open(_))
    ));
    let mut store = temp_store();
    assert!(matches!(
        store.select("SELECT nothing FROM nowhere", &vec![], 1),
        Err(StoreError::Sqlite(_))
    ));
}

#[test]
fn rows_of_the_wrong_shape_do_not_decode() {
    let short = vec![SqlValue::Text("id".to_owned()), SqlValue::Integer(1)];
    assert!(matches!(decode_lane_row(&short), Err(StoreError::ColumnMissing(2))));
    let wrong = vec![SqlValue::Text("id".to_owned()), SqlValue::Real];
    assert!(matches!(decode_lane_row(&wrong), Err(StoreError::ColumnType(1))));
    let good = vec![
        SqlValue::Text("id".to_owned()),
        SqlValue::Integer(1),
        SqlValue::Text("t".to_owned()),
        SqlValue::Text("w".to_owned()),
        SqlValue::Text("infinite".to_owned()),
        SqlValue::Text("failed".to_owned()),
        SqlValue::Null,
        SqlValue::Integer(3),
        SqlValue::Integer(99),
    ];
    let lane = decode_lane_row(&good).unwrap();
    assert_eq!(lane.mode, LaneMode::Infinite);
    assert_eq!(lane.state, LaneState::Failed);
    assert_eq!(lane.codex_session_id, None);
    assert_eq!(lane.waiting_since_ms, Some(99));
}

#[test]
fn a_count_of_changed_rows_says_whether_a_row_changed() {
    assert!(!changed(0));
    assert!(changed(1));
    assert!(changed(7));
}

#[test]
fn migrating_an_open_store_again_keeps_its_rows() {
    let mut store = temp_store();
    let lane = store
        .get_or_create_lane(7, "thread", "workspace", LaneMode::Infinite, 0)
        .expect("lane");
    store.migrate().expect("second migration");
    let again = store.find_lane(7, "thread").expect("query").expect("lane kept");
    assert_eq!(again.lane_id, lane.lane_id);
    assert_eq!(again.mode, LaneMode::Infinite);
}

#[test]
fn a_query_reads_the_asked_number_of_columns() {
    let mut store = temp_store();
    let rows = store
        .select("SELECT 1, 'two', NULL", &vec![], 3)
        .expect("query");
    assert_eq!(rows, vec![vec![SqlValue::Integer(1), SqlValue::Text("two".to_owned()), SqlValue::Null]]);
    let rows = store.select("SELECT 1, 2", &vec![], 1).expect("query");
    assert_eq!(rows, vec![vec![SqlValue::Integer(1)]]);
}

#[test]
fn a_recorded_request_reads_back_pending_and_unresolved() {
    let mut store = temp_store();
    assert!(store.find_approval_request("req-9").unwrap().is_none());
    store
        .insert_approval_request(NewApprovalRequest {
            request_id: "req-9".to_owned(),
            lane_id: "lane-9".to_owned(),
            run_id: "run-9".to_owned(),
            thread_id: "thread-9".to_owned(),
            turn_id: "turn-9".to_owned(),
            item_id: "item-9".to_owned(),
            request_kind: ApprovalRequestKind::FileChange,
            summary_text: "file change".to_owned(),
            raw_payload_json: "{}".to_owned(),
        })
        .unwrap();
    let request = store.find_approval_request("req-9").unwrap().expect("recorded");
    assert_eq!(request.request_id, "req-9");
    assert_eq!(request.lane_id, "lane-9");
    assert_eq!(request.run_id, "run-9");
    assert_eq!(request.thread_id, "thread-9");
    assert_eq!(request.turn_id, "turn-9");
    assert_eq!(request.item_id, "item-9");
    assert_eq!(request.request_kind, ApprovalRequestKind::FileChange);
    assert_eq!(request.summary_text, "file change");
    assert_eq!(request.raw_payload_json, "{}");
    assert_eq!(request.status, ApprovalRequestStatus::Pending);
    assert_eq!(request.resolved_at_ms, None);
    assert_eq!(request.resolved_by_sender_id, None);
    assert_eq!(request.telegram_message_id, None);
    assert!(request.requested_at_ms > 0);
}

#[test]
fn resolving_a_request_twice_changes_it_once() {
    let mut store = temp_store();
    store
        .insert_approval_request(NewApprovalRequest {
            request_id: "req-2".to_owned(),
            lane_id: "lane".to_owned(),
            run_id: "run".to_owned(),
            thread_id: "thread".to_owned(),
            turn_id: "turn".to_owned(),
            item_id: "item".to_owned(),
            request_kind: ApprovalRequestKind::Permissions,
            summary_text: "permissions".to_owned(),
            raw_payload_json: "{}".to_owned(),
        })
        .unwrap();
    assert!(store.resolve_approval_request("req-2", ApprovalRequestStatus::Declined, 5).unwrap());
    assert!(!store.resolve_approval_request("req-2", ApprovalRequestStatus::Approved, 6).unwrap());
    let request = store.find_approval_request("req-2").unwrap().unwrap();
    assert_eq!(request.status, ApprovalRequestStatus::Declined);
    assert_eq!(request.resolved_by_sender_id, Some(5));
}
