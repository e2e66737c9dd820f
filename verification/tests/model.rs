use remotty::model::{mode_from_str, mode_to_str, ApprovalRequestKind, ApprovalRequestStatus, LaneMode, LaneState};

#[test]
fn lane_modes_round_trip_through_text() {
    for mode in [LaneMode::AwaitReply, LaneMode::Infinite, LaneMode::CompletionChecks, LaneMode::MaxTurns] {
        assert_eq!(mode_from_str(mode_to_str(mode)), Ok(mode));
    }
    assert_eq!(mode_to_str(LaneMode::CompletionChecks), "completion_checks");
    assert_eq!(mode_from_str("forever"), Err("unknown lane mode: forever".to_owned()));
}

#[test]
fn lane_states_round_trip_through_text() {
    for state in [LaneState::Running, LaneState::WaitingReply, LaneState::Idle, LaneState::NeedsLocalApproval, LaneState::Failed] {
        assert_eq!(LaneState::from_str(state.as_str()), Ok(state));
    }
    assert_eq!(LaneState::NeedsLocalApproval.as_str(), "needs_local_approval");
    assert_eq!(LaneState::from_str("Idle"), Err("unknown lane state: Idle".to_owned()));
}

#[test]
fn approval_kinds_and_statuses_round_trip_through_text() {
    for kind in [
        ApprovalRequestKind::CommandExecution,
        ApprovalRequestKind::FileChange,
        ApprovalRequestKind::Permissions,
        ApprovalRequestKind::ToolUserInput,
    ] {
        assert_eq!(ApprovalRequestKind::from_str(kind.as_str()), Ok(kind));
    }
    for status in [
        ApprovalRequestStatus::Pending,
        ApprovalRequestStatus::Approved,
        ApprovalRequestStatus::Declined,
        ApprovalRequestStatus::TimedOut,
    ] {
        assert_eq!(ApprovalRequestStatus::from_str(status.as_str()), Ok(status));
    }
    assert_eq!(ApprovalRequestStatus::TimedOut.as_str(), "timed_out");
    assert_eq!(
        ApprovalRequestKind::from_str("shell"),
        Err("unknown approval request kind: shell".to_owned())
    );
    assert_eq!(
        ApprovalRequestStatus::from_str("done"),
        Err("unknown approval request status: done".to_owned())
    );
}
