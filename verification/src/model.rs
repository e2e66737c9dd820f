//! The enumerations that the store persists as text, with their encodings.

use vstd::prelude::*;
use crate::text::{text_eq, join2};

verus! {

/// How a lane continues after a Codex turn.
#[derive(Debug, Clone, Copy, PartialEq, Eq, Structural)]
pub enum LaneMode {
    AwaitReply,
    Infinite,
    CompletionChecks,
    MaxTurns,
}

/// The stored text of a lane mode.
pub open spec fn mode_text(mode: LaneMode) -> Seq<char> {
    match mode {
        LaneMode::AwaitReply => "await_reply"@,
        LaneMode::Infinite => "infinite"@,
        LaneMode::CompletionChecks => "completion_checks"@,
        LaneMode::MaxTurns => "max_turns"@,
    }
}

/// The lane mode whose stored text is `t`, if any.
pub open spec fn mode_parse(t: Seq<char>) -> Option<LaneMode> {
    if t == "await_reply"@ {
        Some(LaneMode::AwaitReply)
    } else if t == "infinite"@ {
        Some(LaneMode::Infinite)
    } else if t == "completion_checks"@ {
        Some(LaneMode::CompletionChecks)
    } else if t == "max_turns"@ {
        Some(LaneMode::MaxTurns)
    } else {
        None
    }
}

pub fn mode_to_str(mode: LaneMode) -> (r: &'static str)
    ensures
        r@ == mode_text(mode),
{
    match mode {
        LaneMode::AwaitReply => "await_reply",
        LaneMode::Infinite => "infinite",
        LaneMode::CompletionChecks => "completion_checks",
        LaneMode::MaxTurns => "max_turns",
    }
}

pub fn mode_from_str(value: &str) -> (r: Result<LaneMode, String>)
    ensures
        match r {
            Ok(m) => mode_parse(value@) == Some(m),
            Err(e) => mode_parse(value@) is None && e@ == "unknown lane mode: "@ + value@,
        },
{
    if text_eq(value, "await_reply") {
        Ok(LaneMode::AwaitReply)
    } else if text_eq(value, "infinite") {
        Ok(LaneMode::Infinite)
    } else if text_eq(value, "completion_checks") {
        Ok(LaneMode::CompletionChecks)
    } else if text_eq(value, "max_turns") {
        Ok(LaneMode::MaxTurns)
    } else {
        Err(join2("unknown lane mode: ", value))
    }
}

/// Parsing the stored text of a mode gives the mode back, and a text
/// parses to a mode only when it is that mode's stored text.
pub proof fn lemma_mode_text_round_trip(mode: LaneMode, t: Seq<char>)
    ensures
        mode_parse(mode_text(mode)) == Some(mode),
        mode_parse(t) == Some(mode) ==> t == mode_text(mode),
{
    reveal_strlit("await_reply");
    reveal_strlit("infinite");
    reveal_strlit("completion_checks");
    reveal_strlit("max_turns");
    assert("infinite"@.len() != "await_reply"@.len());
    assert("completion_checks"@.len() != "await_reply"@.len());
    assert("completion_checks"@.len() != "infinite"@.len());
    assert("max_turns"@.len() != "await_reply"@.len());
    assert("max_turns"@.len() != "infinite"@.len());
    assert("max_turns"@.len() != "completion_checks"@.len());
}

/// The run state of a lane.
#[derive(Debug, Clone, Copy, PartialEq, Eq, Structural)]
pub enum LaneState {
    Running,
    WaitingReply,
    Idle,
    NeedsLocalApproval,
    Failed,
}

/// The stored text of a value of `LaneState`.
pub open spec fn lane_state_text(v: LaneState) -> Seq<char> {
    match v {
        LaneState::Running => "running"@,
        LaneState::WaitingReply => "waiting_reply"@,
        LaneState::Idle => "idle"@,
        LaneState::NeedsLocalApproval => "needs_local_approval"@,
        LaneState::Failed => "failed"@,
    }
}

/// The value of `LaneState` whose stored text is `t`, if any.
pub open spec fn lane_state_parse(t: Seq<char>) -> Option<LaneState> {
    if t == "running"@ {
        Some(LaneState::Running)
    } else if t == "waiting_reply"@ {
        Some(LaneState::WaitingReply)
    } else if t == "idle"@ {
        Some(LaneState::Idle)
    } else if t == "needs_local_approval"@ {
        Some(LaneState::NeedsLocalApproval)
    } else if t == "failed"@ {
        Some(LaneState::Failed)
    } else {
        None
    }
}

impl LaneState {
    pub fn as_str(self) -> (r: &'static str)
        ensures
            r@ == lane_state_text(self),
    {
        match self {
            Self::Running => "running",
            Self::WaitingReply => "waiting_reply",
            Self::Idle => "idle",
            Self::NeedsLocalApproval => "needs_local_approval",
            Self::Failed => "failed",
        }
    }

    pub fn from_str(value: &str) -> (r: Result<Self, String>)
        ensures
            match r {
                Ok(v) => lane_state_parse(value@) == Some(v),
                Err(e) => lane_state_parse(value@) is None && e@ == "unknown lane state: "@ + value@,
            },
    {
        if text_eq(value, "running") {
            Ok(Self::Running)
        } else if text_eq(value, "waiting_reply") {
            Ok(Self::WaitingReply)
        } else if text_eq(value, "idle") {
            Ok(Self::Idle)
        } else if text_eq(value, "needs_local_approval") {
            Ok(Self::NeedsLocalApproval)
        } else if text_eq(value, "failed") {
            Ok(Self::Failed)
        } else {
            Err(join2("unknown lane state: ", value))
        }
    }
}

/// Parsing the stored text of a value gives the value back, and a text
/// parses to a value only when it is that value's stored text.
pub proof fn lemma_lane_state_text_round_trip(v: LaneState, t: Seq<char>)
    ensures
        lane_state_parse(lane_state_text(v)) == Some(v),
        lane_state_parse(t) == Some(v) ==> t == lane_state_text(v),
{
    reveal_strlit("running");
    reveal_strlit("waiting_reply");
    reveal_strlit("idle");
    reveal_strlit("needs_local_approval");
    reveal_strlit("failed");
    assert("waiting_reply"@.len() != "running"@.len());
    assert("idle"@.len() != "running"@.len());
    assert("idle"@.len() != "waiting_reply"@.len());
    assert("needs_local_approval"@.len() != "running"@.len());
    assert("needs_local_approval"@.len() != "waiting_reply"@.len());
    assert("needs_local_approval"@.len() != "idle"@.len());
    assert("failed"@.len() != "running"@.len());
    assert("failed"@.len() != "waiting_reply"@.len());
    assert("failed"@.len() != "idle"@.len());
    assert("failed"@.len() != "needs_local_approval"@.len());
}

/// What a pending approval asks for.
#[derive(Debug, Clone, Copy, PartialEq, Eq, Structural)]
pub enum ApprovalRequestKind {
    CommandExecution,
    FileChange,
    Permissions,
    ToolUserInput,
}

/// The stored text of a value of `ApprovalRequestKind`.
pub open spec fn approval_kind_text(v: ApprovalRequestKind) -> Seq<char> {
    match v {
        ApprovalRequestKind::CommandExecution => "command_execution"@,
        ApprovalRequestKind::FileChange => "file_change"@,
        ApprovalRequestKind::Permissions => "permissions"@,
        ApprovalRequestKind::ToolUserInput => "tool_user_input"@,
    }
}

/// The value of `ApprovalRequestKind` whose stored text is `t`, if any.
pub open spec fn approval_kind_parse(t: Seq<char>) -> Option<ApprovalRequestKind> {
    if t == "command_execution"@ {
        Some(ApprovalRequestKind::CommandExecution)
    } else if t == "file_change"@ {
        Some(ApprovalRequestKind::FileChange)
    } else if t == "permissions"@ {
        Some(ApprovalRequestKind::Permissions)
    } else if t == "tool_user_input"@ {
        Some(ApprovalRequestKind::ToolUserInput)
    } else {
        None
    }
}

impl ApprovalRequestKind {
    pub fn as_str(self) -> (r: &'static str)
        ensures
            r@ == approval_kind_text(self),
    {
        match self {
            Self::CommandExecution => "command_execution",
            Self::FileChange => "file_change",
            Self::Permissions => "permissions",
            Self::ToolUserInput => "tool_user_input",
        }
    }

    pub fn from_str(value: &str) -> (r: Result<Self, String>)
        ensures
            match r {
                Ok(v) => approval_kind_parse(value@) == Some(v),
                Err(e) => approval_kind_parse(value@) is None && e@ == "unknown approval request kind: "@ + value@,
            },
    {
        if text_eq(value, "command_execution") {
            Ok(Self::CommandExecution)
        } else if text_eq(value, "file_change") {
            Ok(Self::FileChange)
        } else if text_eq(value, "permissions") {
            Ok(Self::Permissions)
        } else if text_eq(value, "tool_user_input") {
            Ok(Self::ToolUserInput)
        } else {
            Err(join2("unknown approval request kind: ", value))
        }
    }
}

/// Parsing the stored text of a value gives the value back, and a text
/// parses to a value only when it is that value's stored text.
pub proof fn lemma_approval_kind_text_round_trip(v: ApprovalRequestKind, t: Seq<char>)
    ensures
        approval_kind_parse(approval_kind_text(v)) == Some(v),
        approval_kind_parse(t) == Some(v) ==> t == approval_kind_text(v),
{
    reveal_strlit("command_execution");
    reveal_strlit("file_change");
    reveal_strlit("permissions");
    reveal_strlit("tool_user_input");
    assert("file_change"@.len() != "command_execution"@.len());
    assert("permissions"@.len() != "command_execution"@.len());
    assert("permissions"@[0] != "file_change"@[0]);
    assert("tool_user_input"@.len() != "command_execution"@.len());
    assert("tool_user_input"@.len() != "file_change"@.len());
    assert("tool_user_input"@.len() != "permissions"@.len());
}

/// Where an approval request stands.
#[derive(Debug, Clone, Copy, PartialEq, Eq, Structural)]
pub enum ApprovalRequestStatus {
    Pending,
    Approved,
    Declined,
    TimedOut,
}

/// The stored text of a value of `ApprovalRequestStatus`.
pub open spec fn approval_status_text(v: ApprovalRequestStatus) -> Seq<char> {
    match v {
        ApprovalRequestStatus::Pending => "pending"@,
        ApprovalRequestStatus::Approved => "approved"@,
        ApprovalRequestStatus::Declined => "declined"@,
        ApprovalRequestStatus::TimedOut => "timed_out"@,
    }
}

/// The value of `ApprovalRequestStatus` whose stored text is `t`, if any.
pub open spec fn approval_status_parse(t: Seq<char>) -> Option<ApprovalRequestStatus> {
    if t == "pending"@ {
        Some(ApprovalRequestStatus::Pending)
    } else if t == "approved"@ {
        Some(ApprovalRequestStatus::Approved)
    } else if t == "declined"@ {
        Some(ApprovalRequestStatus::Declined)
    } else if t == "timed_out"@ {
        Some(ApprovalRequestStatus::TimedOut)
    } else {
        None
    }
}

impl ApprovalRequestStatus {
    pub fn as_str(self) -> (r: &'static str)
        ensures
            r@ == approval_status_text(self),
    {
        match self {
            Self::Pending => "pending",
            Self::Approved => "approved",
            Self::Declined => "declined",
            Self::TimedOut => "timed_out",
        }
    }

    pub fn from_str(value: &str) -> (r: Result<Self, String>)
        ensures
            match r {
                Ok(v) => approval_status_parse(value@) == Some(v),
                Err(e) => approval_status_parse(value@) is None && e@ == "unknown approval request status: "@ + value@,
            },
    {
        if text_eq(value, "pending") {
            Ok(Self::Pending)
        } else if text_eq(value, "approved") {
            Ok(Self::Approved)
        } else if text_eq(value, "declined") {
            Ok(Self::Declined)
        } else if text_eq(value, "timed_out") {
            Ok(Self::TimedOut)
        } else {
            Err(join2("unknown approval request status: ", value))
        }
    }
}

/// Parsing the stored text of a value gives the value back, and a text
/// parses to a value only when it is that value's stored text.
pub proof fn lemma_approval_status_text_round_trip(v: ApprovalRequestStatus, t: Seq<char>)
    ensures
        approval_status_parse(approval_status_text(v)) == Some(v),
        approval_status_parse(t) == Some(v) ==> t == approval_status_text(v),
{
    reveal_strlit("pending");
    reveal_strlit("approved");
    reveal_strlit("declined");
    reveal_strlit("timed_out");
    assert("approved"@.len() != "pending"@.len());
    assert("declined"@.len() != "pending"@.len());
    assert("declined"@[0] != "approved"@[0]);
    assert("timed_out"@.len() != "pending"@.len());
    assert("timed_out"@.len() != "approved"@.len());
    assert("timed_out"@.len() != "declined"@.len());
}


/// A Telegram sender allowed to use the bridge.
#[derive(Debug, Clone)]
pub struct AuthorizedSender {
    pub sender_id: i64,
    pub platform: String,
    pub display_name: Option<String>,
    pub status: String,
    pub approved_at_ms: i64,
}

/// A lane: one Telegram chat thread bound to a workspace and a Codex session.
#[derive(Debug, Clone)]
pub struct LaneRecord {
    pub lane_id: String,
    pub chat_id: i64,
    pub thread_key: String,
    pub workspace_id: String,
    pub mode: LaneMode,
    pub state: LaneState,
    pub codex_session_id: Option<String>,
    pub extra_turn_budget: i64,
    pub waiting_since_ms: Option<i64>,
}

/// A run to be recorded for a lane.
#[derive(Debug, Clone)]
pub struct NewRun {
    pub lane_id: String,
    pub run_kind: String,
}

/// A recorded run.
#[derive(Debug, Clone)]
pub struct RunRecord {
    pub run_id: String,
    pub lane_id: String,
}

/// A stored approval request.
#[derive(Debug, Clone)]
pub struct ApprovalRequestRecord {
    pub request_id: String,
    pub lane_id: String,
    pub run_id: String,
    pub thread_id: String,
    pub turn_id: String,
    pub item_id: String,
    pub request_kind: ApprovalRequestKind,
    pub summary_text: String,
    pub raw_payload_json: String,
    pub status: ApprovalRequestStatus,
    pub requested_at_ms: i64,
    pub resolved_at_ms: Option<i64>,
    pub resolved_by_sender_id: Option<i64>,
    pub telegram_message_id: Option<i64>,
}

/// An approval request to be stored.
#[derive(Debug, Clone)]
pub struct NewApprovalRequest {
    pub request_id: String,
    pub lane_id: String,
    pub run_id: String,
    pub thread_id: String,
    pub turn_id: String,
    pub item_id: String,
    pub request_kind: ApprovalRequestKind,
    pub summary_text: String,
    pub raw_payload_json: String,
}


pub open spec fn opt_text(o: Option<String>) -> Option<Seq<char>> {
    match o {
        Some(s) => Some(s@),
        None => None,
    }
}

/// A lane with its texts as character sequences.
pub struct LaneRecordV {
    pub lane_id: Seq<char>,
    pub chat_id: i64,
    pub thread_key: Seq<char>,
    pub workspace_id: Seq<char>,
    pub mode: LaneMode,
    pub state: LaneState,
    pub codex_session_id: Option<Seq<char>>,
    pub extra_turn_budget: i64,
    pub waiting_since_ms: Option<i64>,
}

impl View for LaneRecord {
    type V = LaneRecordV;

    open spec fn view(&self) -> LaneRecordV {
        LaneRecordV {
            lane_id: self.lane_id@,
            chat_id: self.chat_id,
            thread_key: self.thread_key@,
            workspace_id: self.workspace_id@,
            mode: self.mode,
            state: self.state,
            codex_session_id: opt_text(self.codex_session_id),
            extra_turn_budget: self.extra_turn_budget,
            waiting_since_ms: self.waiting_since_ms,
        }
    }
}

/// An approval request record with its texts as character sequences.
pub struct ApprovalRequestRecordV {
    pub request_id: Seq<char>,
    pub lane_id: Seq<char>,
    pub run_id: Seq<char>,
    pub thread_id: Seq<char>,
    pub turn_id: Seq<char>,
    pub item_id: Seq<char>,
    pub request_kind: ApprovalRequestKind,
    pub summary_text: Seq<char>,
    pub raw_payload_json: Seq<char>,
    pub status: ApprovalRequestStatus,
    pub requested_at_ms: i64,
    pub resolved_at_ms: Option<i64>,
    pub resolved_by_sender_id: Option<i64>,
    pub telegram_message_id: Option<i64>,
}

impl View for ApprovalRequestRecord {
    type V = ApprovalRequestRecordV;

    open spec fn view(&self) -> ApprovalRequestRecordV {
        ApprovalRequestRecordV {
            request_id: self.request_id@,
            lane_id: self.lane_id@,
            run_id: self.run_id@,
            thread_id: self.thread_id@,
            turn_id: self.turn_id@,
            item_id: self.item_id@,
            request_kind: self.request_kind,
            summary_text: self.summary_text@,
            raw_payload_json: self.raw_payload_json@,
            status: self.status,
            requested_at_ms: self.requested_at_ms,
            resolved_at_ms: self.resolved_at_ms,
            resolved_by_sender_id: self.resolved_by_sender_id,
            telegram_message_id: self.telegram_message_id,
        }
    }
}

/// The texts under which modes, states, kinds and statuses are stored,
/// each value under its own name.
pub proof fn lemma_stored_texts()
    ensures
        mode_text(LaneMode::AwaitReply) == "await_reply"@,
        mode_text(LaneMode::Infinite) == "infinite"@,
        mode_text(LaneMode::CompletionChecks) == "completion_checks"@,
        mode_text(LaneMode::MaxTurns) == "max_turns"@,
        lane_state_text(LaneState::Running) == "running"@,
        lane_state_text(LaneState::WaitingReply) == "waiting_reply"@,
        lane_state_text(LaneState::Idle) == "idle"@,
        lane_state_text(LaneState::NeedsLocalApproval) == "needs_local_approval"@,
        lane_state_text(LaneState::Failed) == "failed"@,
        approval_kind_text(ApprovalRequestKind::CommandExecution) == "command_execution"@,
        approval_kind_text(ApprovalRequestKind::FileChange) == "file_change"@,
        approval_kind_text(ApprovalRequestKind::Permissions) == "permissions"@,
        approval_kind_text(ApprovalRequestKind::ToolUserInput) == "tool_user_input"@,
        approval_status_text(ApprovalRequestStatus::Pending) == "pending"@,
        approval_status_text(ApprovalRequestStatus::Approved) == "approved"@,
        approval_status_text(ApprovalRequestStatus::Declined) == "declined"@,
        approval_status_text(ApprovalRequestStatus::TimedOut) == "timed_out"@,
{
}

} // verus!
