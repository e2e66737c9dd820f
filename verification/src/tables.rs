//! The rows that the store's statements read and write, and what each
//! statement does to them as its SQL text says: a model of a faithful
//! database.
//!
//! The model covers the store's own statements, and the tables that the
//! store reads back: the authorised senders, the seen updates, the lanes
//! and the approval requests. A row holds the values it was given, column
//! by column; a statement that fails changes nothing; the store's other
//! statements leave these tables as they were.
//! The laws at the end hold of a store's record of calls (its view)
//! whenever the database answered those calls as the model says.

use vstd::prelude::*;
use crate::model::{
    ApprovalRequestRecordV, ApprovalRequestStatus, LaneMode, LaneRecordV, LaneState, NewApprovalRequest,
    approval_kind_text, approval_status_text, lane_state_text, mode_text, lemma_approval_kind_text_round_trip,
    lemma_approval_status_text_round_trip, lemma_lane_state_text_round_trip, lemma_mode_text_round_trip,
};
use crate::store::{
    approval_of, approvals_of, batch_step, changed_of, column_step, migrated, migration_path, flag_value, lane_of, opt_i32_param, spec_finish_run_params, opt_int_param, opt_text_param, sender_of, spec_approval_params,
    spec_all_approvals, spec_decode_approval, spec_decode_lane, spec_lane_params, spec_lane_state_params, spec_resolve_params,
    spec_sender_params, spec_update_params, sql_call, StoreErrorV, SqlCall, SqlOutcome, SqlParamV, SqlValueV,
    ACTIVE_SENDER_SQL, CLEAR_LANE_SESSION_SQL, FIND_APPROVAL_SQL, FIND_LANE_SQL, INSERT_APPROVAL_SQL, INSERT_LANE_SQL,
    INSERT_UPDATE_SQL, RESOLVE_APPROVAL_SQL, SET_APPROVAL_MESSAGE_SQL, UPDATE_LANE_MODE_SQL, UPDATE_LANE_STATE_SQL,
    UPDATE_LANE_WORKSPACE_SQL, UPSERT_SENDER_SQL, spec_table_info_sql, ADD_REQUEST_COUNT_SQL, ADD_RESOLVED_COUNT_SQL,
    APPROVAL_TABLE_SQL, FINISH_RUN_SQL, INSERT_MESSAGE_SQL, INSERT_RUN_SQL, PENDING_APPROVALS_SQL, SCHEMA_SQL,
};

verus! {

/// The rows of the tables that the store reads back.
pub struct Tables {
    /// The `authorized_senders` rows, by sender id.
    pub senders: Map<SqlValueV, Seq<SqlValueV>>,
    /// The ids of the seen Telegram updates.
    pub updates: Set<SqlValueV>,
    /// The `lanes` rows, by lane id.
    pub lanes: Map<SqlValueV, Seq<SqlValueV>>,
    /// The `approval_requests` rows, by request id.
    pub approvals: Map<SqlValueV, Seq<SqlValueV>>,
    /// The `runs` rows, by run id: run_id, lane_id, run_kind,
    /// started_at_ms, ended_at_ms, exit_code, completion_reason,
    /// approval_pending, approval_request_count, approval_resolved_count.
    pub runs: Map<SqlValueV, Seq<SqlValueV>>,
}

/// The value a parameter puts in a column.
pub open spec fn value_of(p: SqlParamV) -> SqlValueV {
    match p {
        SqlParamV::Null => SqlValueV::Null,
        SqlParamV::Integer(i) => SqlValueV::Integer(i),
        SqlParamV::Text(t) => SqlValueV::Text(t),
    }
}

/// The values that parameters put in the columns of a row, in order.
pub open spec fn values_of(ps: Seq<SqlParamV>) -> Seq<SqlValueV> {
    ps.map_values(|p: SqlParamV| value_of(p))
}

/// Every row has as many values as its table has columns.
pub open spec fn tables_wf(t: Tables) -> bool {
    &&& forall|k: SqlValueV| #[trigger] t.lanes.contains_key(k) ==> t.lanes[k].len() == 9
    &&& forall|k: SqlValueV| #[trigger] t.approvals.contains_key(k) ==> t.approvals[k].len() == 14
    &&& forall|k: SqlValueV| #[trigger] t.senders.contains_key(k) ==> t.senders[k].len() == 5 && t.senders[k][0] == k
    &&& forall|k: SqlValueV| #[trigger] t.runs.contains_key(k) ==> t.runs[k].len() == 10
}

/// The row that `INSERT INTO runs` adds: the four values given, not ended,
/// with no approval pending or counted.
pub open spec fn started_run_row(p: Seq<SqlParamV>) -> Seq<SqlValueV> {
    seq![
        value_of(p[0]),
        value_of(p[1]),
        value_of(p[2]),
        value_of(p[3]),
        SqlValueV::Null,
        SqlValueV::Null,
        SqlValueV::Null,
        SqlValueV::Integer(0),
        SqlValueV::Integer(0),
        SqlValueV::Integer(0),
    ]
}

/// What the statements on `runs` do: an insertion adds a started run
/// under an id no run has (otherwise it fails); finishing a run sets how
/// it ended and its approval counts.
pub open spec fn runs_step(before: Map<SqlValueV, Seq<SqlValueV>>, c: SqlCall, after: Map<SqlValueV, Seq<SqlValueV>>) -> bool {
    let p = c.params;
    &&& c.sql == INSERT_RUN_SQL@ ==> {
        &&& p.len() == 4
        &&& p[1] !is Null && p[2] !is Null && p[3] !is Null
        &&& !before.contains_key(value_of(p[0]))
        &&& after == before.insert(value_of(p[0]), started_run_row(p))
        &&& c.outcome == SqlOutcome::Changed(1)
    }
    &&& c.sql == FINISH_RUN_SQL@ ==> p.len() == 7 && p[4] !is Null && p[5] !is Null && p[6] !is Null && if before.contains_key(
        value_of(p[0]),
    ) {
        &&& after == before.insert(
            value_of(p[0]),
            before[value_of(p[0])].update(4, value_of(p[1])).update(5, value_of(p[2])).update(6, value_of(p[3])).update(
                7,
                value_of(p[4]),
            ).update(8, value_of(p[5])).update(9, value_of(p[6])),
        )
        &&& c.outcome == SqlOutcome::Changed(1)
    } else {
        after == before && c.outcome == SqlOutcome::Changed(0)
    }
    &&& !(c.sql == INSERT_RUN_SQL@ || c.sql == FINISH_RUN_SQL@) ==> after == before
}

/// What the statements on `authorized_senders` do: recording a sender
/// sets its row, whether or not one was recorded under its id; the lookup
/// gives the id of the sender when it is recorded as `active`.
pub open spec fn senders_step(before: Map<SqlValueV, Seq<SqlValueV>>, c: SqlCall, after: Map<SqlValueV, Seq<SqlValueV>>) -> bool {
    let p = c.params;
    &&& c.sql == UPSERT_SENDER_SQL@ ==> {
        &&& p.len() == 5
        &&& p[0] is Integer && p[1] !is Null && p[3] !is Null && p[4] !is Null
        &&& after == before.insert(value_of(p[0]), values_of(p))
        &&& c.outcome == SqlOutcome::Changed(1)
    }
    &&& c.sql == ACTIVE_SENDER_SQL@ ==> {
        &&& p.len() == 1
        &&& after == before
        &&& c.outcome == SqlOutcome::Rows(
            if before.contains_key(value_of(p[0])) && before[value_of(p[0])][3] == SqlValueV::Text("active"@) {
                seq![seq![before[value_of(p[0])][0]]]
            } else {
                Seq::empty()
            },
        )
    }
    &&& c.sql != UPSERT_SENDER_SQL@ ==> after == before
}

/// `INSERT OR IGNORE INTO telegram_updates`: a new update id is recorded
/// and counts as one changed row; a known one, or an update lacking a
/// required value, is ignored.
pub open spec fn updates_step(before: Set<SqlValueV>, c: SqlCall, after: Set<SqlValueV>) -> bool {
    let p = c.params;
    &&& c.sql == INSERT_UPDATE_SQL@ ==> p.len() == 5 && p[0] is Integer && if before.contains(value_of(p[0])) || p[1] is Null
        || p[3] is Null || p[4] is Null {
        after == before && c.outcome == SqlOutcome::Changed(0)
    } else {
        after == before.insert(value_of(p[0])) && c.outcome == SqlOutcome::Changed(1)
    }
    &&& c.sql != INSERT_UPDATE_SQL@ ==> after == before
}

/// `UPDATE lanes ... WHERE lane_id = ?1`: the row of `key`, when there is
/// one, becomes `row`, and counts as one changed row.
pub open spec fn lane_updated(
    before: Map<SqlValueV, Seq<SqlValueV>>,
    key: SqlValueV,
    row: Seq<SqlValueV>,
    outcome: SqlOutcome,
    after: Map<SqlValueV, Seq<SqlValueV>>,
) -> bool {
    if before.contains_key(key) {
        after == before.insert(key, row) && outcome == SqlOutcome::Changed(1)
    } else {
        after == before && outcome == SqlOutcome::Changed(0)
    }
}

/// Whether `row` is the lane of `chat_id` and `thread_key`.
pub open spec fn lane_matches(row: Seq<SqlValueV>, chat_id: SqlValueV, thread_key: SqlValueV) -> bool {
    row[1] == chat_id && row[2] == thread_key
}

/// What the statements on `lanes` do: an insertion adds a row whose id,
/// and whose chat and thread, no row has yet (otherwise it fails); a
/// lookup gives the rows of the chat and thread; the updates set the
/// columns their SQL names, in the row of the lane id.
pub open spec fn lanes_step(before: Map<SqlValueV, Seq<SqlValueV>>, c: SqlCall, after: Map<SqlValueV, Seq<SqlValueV>>) -> bool {
    let p = c.params;
    &&& c.sql == INSERT_LANE_SQL@ ==> {
        &&& p.len() == 9
        &&& !before.contains_key(value_of(p[0]))
        &&& forall|k: SqlValueV| #[trigger] before.contains_key(k) ==> !lane_matches(before[k], value_of(p[1]), value_of(p[2]))
        &&& after == before.insert(value_of(p[0]), values_of(p))
        &&& c.outcome == SqlOutcome::Changed(1)
    }
    &&& c.sql == FIND_LANE_SQL@ ==> {
        &&& p.len() == 2
        &&& after == before
        &&& c.outcome matches SqlOutcome::Rows(rows) && forall|row: Seq<SqlValueV>| #[trigger] rows.contains(row) <==> exists|k: SqlValueV|
            #[trigger] before.contains_key(k) && before[k] == row && lane_matches(row, value_of(p[0]), value_of(p[1]))
    }
    &&& c.sql == UPDATE_LANE_STATE_SQL@ ==> p.len() == 4 && p[1] !is Null && lane_updated(
        before,
        value_of(p[0]),
        before[value_of(p[0])].update(5, value_of(p[1])).update(
            6,
            if p[2] is Null { before[value_of(p[0])][6] } else { value_of(p[2]) },
        ).update(8, value_of(p[3])),
        c.outcome,
        after,
    )
    &&& c.sql == CLEAR_LANE_SESSION_SQL@ ==> p.len() == 1 && lane_updated(
        before,
        value_of(p[0]),
        before[value_of(p[0])].update(5, SqlValueV::Text("idle"@)).update(6, SqlValueV::Null).update(8, SqlValueV::Null),
        c.outcome,
        after,
    )
    &&& c.sql == UPDATE_LANE_MODE_SQL@ ==> p.len() == 3 && p[1] !is Null && p[2] !is Null && lane_updated(
        before,
        value_of(p[0]),
        before[value_of(p[0])].update(4, value_of(p[1])).update(7, value_of(p[2])),
        c.outcome,
        after,
    )
    &&& c.sql == UPDATE_LANE_WORKSPACE_SQL@ ==> p.len() == 2 && p[1] !is Null && lane_updated(
        before,
        value_of(p[0]),
        before[value_of(p[0])].update(3, value_of(p[1])).update(5, SqlValueV::Text("idle"@)).update(6, SqlValueV::Null).update(
            8,
            SqlValueV::Null,
        ),
        c.outcome,
        after,
    )
    &&& !(c.sql == INSERT_LANE_SQL@ || c.sql == UPDATE_LANE_STATE_SQL@ || c.sql == CLEAR_LANE_SESSION_SQL@ || c.sql
        == UPDATE_LANE_MODE_SQL@ || c.sql == UPDATE_LANE_WORKSPACE_SQL@) ==> after == before
}

/// The row that `INSERT INTO approval_requests` adds: the ten values
/// given, with the status `pending` after the first nine, and no
/// resolution or message yet.
pub open spec fn inserted_approval_row(p: Seq<SqlParamV>) -> Seq<SqlValueV> {
    seq![
        value_of(p[0]),
        value_of(p[1]),
        value_of(p[2]),
        value_of(p[3]),
        value_of(p[4]),
        value_of(p[5]),
        value_of(p[6]),
        value_of(p[7]),
        value_of(p[8]),
        SqlValueV::Text("pending"@),
        value_of(p[9]),
        SqlValueV::Null,
        SqlValueV::Null,
        SqlValueV::Null,
    ]
}

/// The rows that the listing of the pending requests of `lane` gives:
/// every pending row of the lane, once, by requested time, earliest
/// first.
pub open spec fn pending_listing(approvals: Map<SqlValueV, Seq<SqlValueV>>, lane: SqlValueV, rows: Seq<Seq<SqlValueV>>) -> bool {
    &&& rows.no_duplicates()
    &&& forall|row: Seq<SqlValueV>| #[trigger] rows.contains(row) <==> exists|k: SqlValueV|
        #[trigger] approvals.contains_key(k) && approvals[k] == row && row[1] == lane && row[9] == SqlValueV::Text("pending"@)
    &&& forall|x: int, y: int| 0 <= x < y < rows.len() ==> match (#[trigger] rows[x][10], #[trigger] rows[y][10]) {
        (SqlValueV::Integer(a), SqlValueV::Integer(b)) => a <= b,
        _ => true,
    }
}

/// What the statements on `approval_requests` do: an insertion adds a
/// pending request unless its id is recorded (then nothing changes); the
/// resolution sets the status, the time and the sender of a pending
/// request; the message id is set on the request of the id; a lookup gives
/// the row of the id.
pub open spec fn approvals_step(
    before: Map<SqlValueV, Seq<SqlValueV>>,
    c: SqlCall,
    after: Map<SqlValueV, Seq<SqlValueV>>,
) -> bool {
    let p = c.params;
    &&& c.sql == INSERT_APPROVAL_SQL@ ==> p.len() == 10 && (forall|x: int| 0 <= x < 10 ==> #[trigger] p[x] !is Null) && if before.contains_key(
        value_of(p[0]),
    ) {
        after == before && c.outcome == SqlOutcome::Changed(0)
    } else {
        after == before.insert(value_of(p[0]), inserted_approval_row(p)) && c.outcome == SqlOutcome::Changed(1)
    }
    &&& c.sql == RESOLVE_APPROVAL_SQL@ ==> p.len() == 4 && p[1] !is Null && if before.contains_key(value_of(p[0]))
        && before[value_of(p[0])][9] == SqlValueV::Text("pending"@) {
        &&& after == before.insert(
            value_of(p[0]),
            before[value_of(p[0])].update(9, value_of(p[1])).update(11, value_of(p[2])).update(12, value_of(p[3])),
        )
        &&& c.outcome == SqlOutcome::Changed(1)
    } else {
        after == before && c.outcome == SqlOutcome::Changed(0)
    }
    &&& c.sql == SET_APPROVAL_MESSAGE_SQL@ ==> p.len() == 2 && if before.contains_key(value_of(p[0])) {
        after == before.insert(value_of(p[0]), before[value_of(p[0])].update(13, value_of(p[1])))
            && c.outcome == SqlOutcome::Changed(1)
    } else {
        after == before && c.outcome == SqlOutcome::Changed(0)
    }
    &&& c.sql == PENDING_APPROVALS_SQL@ ==> {
        &&& p.len() == 1
        &&& after == before
        &&& c.outcome matches SqlOutcome::Rows(rows) && pending_listing(before, value_of(p[0]), rows)
    }
    &&& c.sql == FIND_APPROVAL_SQL@ ==> p.len() == 1 && after == before && c.outcome == SqlOutcome::Rows(
        if before.contains_key(value_of(p[0])) { seq![before[value_of(p[0])]] } else { Seq::empty() },
    )
    &&& !(c.sql == INSERT_APPROVAL_SQL@ || c.sql == RESOLVE_APPROVAL_SQL@ || c.sql == SET_APPROVAL_MESSAGE_SQL@)
        ==> after == before
}

/// Whether `sql` is one of the store's own statements.
pub open spec fn store_statement(sql: Seq<char>) -> bool {
    ||| sql == SCHEMA_SQL@ || sql == ADD_REQUEST_COUNT_SQL@ || sql == ADD_RESOLVED_COUNT_SQL@ || sql == APPROVAL_TABLE_SQL@
    ||| sql == spec_table_info_sql("runs"@)
    ||| sql == UPSERT_SENDER_SQL@ || sql == ACTIVE_SENDER_SQL@ || sql == INSERT_UPDATE_SQL@
    ||| sql == INSERT_LANE_SQL@ || sql == FIND_LANE_SQL@ || sql == UPDATE_LANE_STATE_SQL@ || sql == CLEAR_LANE_SESSION_SQL@
    ||| sql == UPDATE_LANE_MODE_SQL@ || sql == UPDATE_LANE_WORKSPACE_SQL@
    ||| sql == INSERT_RUN_SQL@ || sql == FINISH_RUN_SQL@ || sql == INSERT_MESSAGE_SQL@
    ||| sql == INSERT_APPROVAL_SQL@ || sql == FIND_APPROVAL_SQL@ || sql == RESOLVE_APPROVAL_SQL@
    ||| sql == SET_APPROVAL_MESSAGE_SQL@ || sql == PENDING_APPROVALS_SQL@
}

/// Whether `sql` is one of the statements of a migration: creating the
/// tables, listing the columns of `runs`, adding an approval count to
/// runs, creating the approval request table.
pub open spec fn migration_statement(sql: Seq<char>) -> bool {
    ||| sql == SCHEMA_SQL@ || sql == ADD_REQUEST_COUNT_SQL@ || sql == ADD_RESOLVED_COUNT_SQL@ || sql == APPROVAL_TABLE_SQL@
    ||| sql == spec_table_info_sql("runs"@)
}

/// What a faithful database does with `call`, one of the store's own
/// statements, on the tables `before`, leaving `after`: a failed call
/// changes nothing; any other call is answered, and changes the tables, as
/// its statement says. A statement of the migration creates what is
/// missing and adds no row: `CREATE TABLE IF NOT EXISTS` keeps a table
/// that exists, the column listing reads, and the added counts are columns
/// of rows the model already holds in full.
pub open spec fn step(before: Tables, call: SqlCall, after: Tables) -> bool {
    &&& store_statement(call.sql)
    &&& if call.outcome is Failed {
        after == before
    } else {
        &&& senders_step(before.senders, call, after.senders)
        &&& runs_step(before.runs, call, after.runs)
        &&& updates_step(before.updates, call, after.updates)
        &&& lanes_step(before.lanes, call, after.lanes)
        &&& approvals_step(before.approvals, call, after.approvals)
        &&& migration_statement(call.sql) ==> after == before
    }
}

/// The database went through `states` while it answered `calls`: it held
/// `states[k]` before `calls[k]` and `states[k + 1]` after it.
pub open spec fn faithful_run(states: Seq<Tables>, calls: Seq<SqlCall>) -> bool {
    &&& states.len() == calls.len() + 1
    &&& forall|k: int| 0 <= k < states.len() ==> tables_wf(#[trigger] states[k])
    &&& forall|k: int| #![trigger calls[k]] 0 <= k < calls.len() ==> step(states[k], calls[k], states[k + 1])
}


/// Recording an update id never forgets one: the seen ids of `states[a]`
/// are still seen in `states[b]`.
proof fn lemma_update_kept(states: Seq<Tables>, calls: Seq<SqlCall>, key: SqlValueV, a: int, b: int)
    requires
        faithful_run(states, calls),
        0 <= a <= b <= calls.len(),
        states[a].updates.contains(key),
    ensures
        states[b].updates.contains(key),
    decreases b - a,
{
    if a < b {
        assert(step(states[a], calls[a], states[a + 1]));
        lemma_update_kept(states, calls, key, a + 1, b);
    }
}

/// A Telegram update is recorded at most once: on a faithful database,
/// once the store has recorded the update `update_id`, recording an update
/// with that id again changes no row, so `insert_seen_update` does not
/// call it new.
pub proof fn lemma_update_recorded_once(
    states: Seq<Tables>,
    calls: Seq<SqlCall>,
    i: int,
    j: int,
    update_id: i64,
    chat_id: i64,
    sender_id: Option<i64>,
    update_kind: Seq<char>,
    payload_json: Seq<char>,
)
    requires
        faithful_run(states, calls),
        0 <= i < j < calls.len(),
        calls[i].sql == INSERT_UPDATE_SQL@,
        calls[i].params == spec_update_params(update_id, chat_id, sender_id, update_kind, payload_json),
        calls[i].outcome !is Failed,
        calls[j].sql == INSERT_UPDATE_SQL@,
        calls[j].params.len() > 0,
        calls[j].params[0] == SqlParamV::Integer(update_id),
    ensures
        calls[j].outcome is Failed || changed_of(calls[j].outcome) == Ok::<bool, StoreErrorV>(false),
{
    let key = SqlValueV::Integer(update_id);
    assert(step(states[i], calls[i], states[i + 1]));
    assert(states[i + 1].updates.contains(key));
    lemma_update_kept(states, calls, key, i + 1, j);
    assert(step(states[j], calls[j], states[j + 1]));
}

/// The record of an approval request that the store has just recorded at
/// the time `now`: pending, unresolved, with no message yet.
pub open spec fn new_approval_record(request: NewApprovalRequest, now: i64) -> ApprovalRequestRecordV {
    ApprovalRequestRecordV {
        request_id: request.request_id@,
        lane_id: request.lane_id@,
        run_id: request.run_id@,
        thread_id: request.thread_id@,
        turn_id: request.turn_id@,
        item_id: request.item_id@,
        request_kind: request.request_kind,
        summary_text: request.summary_text@,
        raw_payload_json: request.raw_payload_json@,
        status: ApprovalRequestStatus::Pending,
        requested_at_ms: now,
        resolved_at_ms: None,
        resolved_by_sender_id: None,
        telegram_message_id: None,
    }
}

/// Whether `c` resolves the approval request `key`, or sets its message.
pub open spec fn touches_approval(c: SqlCall, key: SqlParamV) -> bool {
    (c.sql == RESOLVE_APPROVAL_SQL@ || c.sql == SET_APPROVAL_MESSAGE_SQL@) && c.params.len() > 0 && c.params[0] == key
}

/// The row of an approval request stays as it is while no call resolves
/// it or sets its message.
proof fn lemma_approval_row_kept(
    states: Seq<Tables>,
    calls: Seq<SqlCall>,
    key: SqlParamV,
    row: Seq<SqlValueV>,
    a: int,
    b: int,
)
    requires
        faithful_run(states, calls),
        0 <= a <= b <= calls.len(),
        states[a].approvals.contains_key(value_of(key)),
        states[a].approvals[value_of(key)] == row,
        key is Text,
        forall|k: int| a <= k < b ==> !touches_approval(#[trigger] calls[k], key),
    ensures
        states[b].approvals.contains_key(value_of(key)),
        states[b].approvals[value_of(key)] == row,
    decreases b - a,
{
    if a < b {
        let c = calls[a];
        assert(step(states[a], c, states[a + 1]));
        assert(!touches_approval(c, key));
        if c.params.len() > 0 && value_of(c.params[0]) == value_of(key) {
            assert(c.params[0] == key);
        }
        lemma_approval_row_kept(states, calls, key, row, a + 1, b);
    }
}

/// An approval request reads back as it was recorded: on a faithful
/// database, after the store records `request` at the time `now` under an
/// id that was new, a lookup of that id gives the request, pending,
/// unresolved and without a message, as long as nothing resolved it or set
/// its message in between.
pub proof fn lemma_approval_reads_back(
    states: Seq<Tables>,
    calls: Seq<SqlCall>,
    i: int,
    j: int,
    request: NewApprovalRequest,
    now: i64,
)
    requires
        faithful_run(states, calls),
        0 <= i < j < calls.len(),
        calls[i] == sql_call(INSERT_APPROVAL_SQL@, spec_approval_params(request, now), SqlOutcome::Changed(1)),
        calls[j].sql == FIND_APPROVAL_SQL@,
        calls[j].params == seq![SqlParamV::Text(request.request_id@)],
        calls[j].outcome !is Failed,
        forall|k: int| i < k < j ==> !touches_approval(#[trigger] calls[k], SqlParamV::Text(request.request_id@)),
    ensures
        approval_of(calls[j].outcome) == Ok::<Option<ApprovalRequestRecordV>, StoreErrorV>(Some(new_approval_record(request, now))),
{
    let key = SqlParamV::Text(request.request_id@);
    let p = spec_approval_params(request, now);
    let row = inserted_approval_row(p);
    assert(step(states[i], calls[i], states[i + 1]));
    assert(value_of(p[0]) == value_of(key));
    assert(states[i + 1].approvals[value_of(key)] == row);
    lemma_approval_row_kept(states, calls, key, row, i + 1, j);
    assert(step(states[j], calls[j], states[j + 1]));
    lemma_approval_kind_text_round_trip(request.request_kind, approval_kind_text(request.request_kind));
    lemma_approval_status_text_round_trip(ApprovalRequestStatus::Pending, "pending"@);
    assert(spec_decode_approval(row) == Ok::<ApprovalRequestRecordV, StoreErrorV>(new_approval_record(request, now)));
}

/// A resolved approval request stays resolved: its row stays recorded
/// with a status other than `pending`.
proof fn lemma_approval_stays_resolved(states: Seq<Tables>, calls: Seq<SqlCall>, key: SqlValueV, a: int, b: int)
    requires
        faithful_run(states, calls),
        0 <= a <= b <= calls.len(),
        states[a].approvals.contains_key(key),
        states[a].approvals[key][9] != SqlValueV::Text("pending"@),
    ensures
        states[b].approvals.contains_key(key),
        states[b].approvals[key][9] != SqlValueV::Text("pending"@),
    decreases b - a,
{
    if a < b {
        assert(step(states[a], calls[a], states[a + 1]));
        assert(tables_wf(states[a]));
        assert(states[a].approvals[key].len() == 14);
        lemma_approval_stays_resolved(states, calls, key, a + 1, b);
    }
}

/// An approval request is resolved at most once: on a faithful database,
/// once the store has resolved the request `request_id` with a status
/// other than `pending`, resolving it again changes no row, so
/// `resolve_approval_request` answers false.
pub proof fn lemma_resolved_at_most_once(
    states: Seq<Tables>,
    calls: Seq<SqlCall>,
    i: int,
    j: int,
    request_id: Seq<char>,
    status: ApprovalRequestStatus,
    now: i64,
    resolved_by_sender_id: i64,
)
    requires
        faithful_run(states, calls),
        0 <= i < j < calls.len(),
        status != ApprovalRequestStatus::Pending,
        calls[i].sql == RESOLVE_APPROVAL_SQL@,
        calls[i].params == spec_resolve_params(request_id, status, now, resolved_by_sender_id),
        changed_of(calls[i].outcome) == Ok::<bool, StoreErrorV>(true),
        calls[j].sql == RESOLVE_APPROVAL_SQL@,
        calls[j].params.len() > 0,
        calls[j].params[0] == SqlParamV::Text(request_id),
    ensures
        calls[j].outcome is Failed || changed_of(calls[j].outcome) == Ok::<bool, StoreErrorV>(false),
{
    let key = SqlValueV::Text(request_id);
    assert(step(states[i], calls[i], states[i + 1]));
    assert(tables_wf(states[i]));
    lemma_approval_status_text_round_trip(status, "pending"@);
    lemma_approval_status_text_round_trip(ApprovalRequestStatus::Pending, approval_status_text(status));
    assert(approval_status_text(status) != "pending"@);
    assert(states[i + 1].approvals[key][9] == SqlValueV::Text(approval_status_text(status)));
    lemma_approval_stays_resolved(states, calls, key, i + 1, j);
    assert(step(states[j], calls[j], states[j + 1]));
}

/// Whether `c` updates the lane `key`.
pub open spec fn updates_lane(c: SqlCall, key: SqlParamV) -> bool {
    &&& c.sql == UPDATE_LANE_STATE_SQL@ || c.sql == CLEAR_LANE_SESSION_SQL@ || c.sql == UPDATE_LANE_MODE_SQL@ || c.sql
        == UPDATE_LANE_WORKSPACE_SQL@
    &&& c.params.len() > 0
    &&& c.params[0] == key
}

/// The lane `key` holds `row`, and no other lane is that of its chat and
/// thread.
pub open spec fn sole_lane(t: Tables, key: SqlValueV, row: Seq<SqlValueV>) -> bool {
    &&& t.lanes.contains_key(key)
    &&& t.lanes[key] == row
    &&& forall|k: SqlValueV| #[trigger] t.lanes.contains_key(k) && lane_matches(t.lanes[k], row[1], row[2]) ==> k == key
}

/// A lane stays as it is, and the only one of its chat and thread, while
/// no call updates it.
proof fn lemma_sole_lane_kept(states: Seq<Tables>, calls: Seq<SqlCall>, key: SqlParamV, row: Seq<SqlValueV>, a: int, b: int)
    requires
        faithful_run(states, calls),
        0 <= a <= b <= calls.len(),
        key is Text,
        row.len() == 9,
        sole_lane(states[a], value_of(key), row),
        forall|k: int| a <= k < b ==> !updates_lane(#[trigger] calls[k], key),
    ensures
        sole_lane(states[b], value_of(key), row),
    decreases b - a,
{
    if a < b {
        let c = calls[a];
        let before = states[a];
        let after = states[a + 1];
        assert(step(before, c, after));
        assert(tables_wf(before));
        assert(!updates_lane(c, key));
        if c.params.len() > 0 && value_of(c.params[0]) == value_of(key) {
            assert(c.params[0] == key);
        }
        if c.outcome !is Failed && c.sql == INSERT_LANE_SQL@ {
            let p = c.params;
            assert(values_of(p)[1] == value_of(p[1]));
            assert(values_of(p)[2] == value_of(p[2]));
            assert(!lane_matches(before.lanes[value_of(key)], value_of(p[1]), value_of(p[2])));
        }
        assert forall|k: SqlValueV| #[trigger] after.lanes.contains_key(k) && lane_matches(after.lanes[k], row[1], row[2]) implies k
            == value_of(key) by {
            if before.lanes.contains_key(k) {
                assert(before.lanes[k].len() == 9);
            }
        }
        lemma_sole_lane_kept(states, calls, key, row, a + 1, b);
    }
}

/// A lane the store created is found again: on a faithful database, after
/// the store inserts `lane`, a lookup of its chat and thread gives that
/// lane, as long as no call updated it in between.
pub proof fn lemma_created_lane_is_found(states: Seq<Tables>, calls: Seq<SqlCall>, i: int, j: int, lane: LaneRecordV)
    requires
        faithful_run(states, calls),
        0 <= i < j < calls.len(),
        calls[i].sql == INSERT_LANE_SQL@,
        calls[i].params == spec_lane_params(lane),
        calls[i].outcome !is Failed,
        calls[j].sql == FIND_LANE_SQL@,
        calls[j].params == seq![SqlParamV::Integer(lane.chat_id), SqlParamV::Text(lane.thread_key)],
        calls[j].outcome !is Failed,
        forall|k: int| i < k < j ==> !updates_lane(#[trigger] calls[k], SqlParamV::Text(lane.lane_id)),
    ensures
        lane_of(calls[j].outcome) == Ok::<Option<LaneRecordV>, StoreErrorV>(Some(lane)),
{
    let key = SqlParamV::Text(lane.lane_id);
    let p = spec_lane_params(lane);
    let row = values_of(p);
    assert(row.len() == 9);
    assert(row[1] == SqlValueV::Integer(lane.chat_id));
    assert(row[2] == SqlValueV::Text(lane.thread_key));
    assert(step(states[i], calls[i], states[i + 1]));
    assert(value_of(p[0]) == value_of(key));
    assert(sole_lane(states[i + 1], value_of(key), row));
    lemma_sole_lane_kept(states, calls, key, row, i + 1, j);
    let t = states[j];
    assert(step(t, calls[j], states[j + 1]));
    let rows = calls[j].outcome->Rows_0;
    assert(t.lanes.contains_key(value_of(key)) && t.lanes[value_of(key)] == row && lane_matches(row, row[1], row[2]));
    assert(rows.contains(row));
    assert(rows.len() > 0);
    assert(rows.contains(rows[0]));
    assert(rows[0] == row);
    lemma_mode_text_round_trip(lane.mode, mode_text(lane.mode));
    lemma_lane_state_text_round_trip(lane.state, lane_state_text(lane.state));
    assert(row[0] == SqlValueV::Text(lane.lane_id));
    assert(row[3] == SqlValueV::Text(lane.workspace_id));
    assert(row[4] == SqlValueV::Text(mode_text(lane.mode)));
    assert(row[5] == SqlValueV::Text(lane_state_text(lane.state)));
    assert(row[6] == value_of(opt_text_param(lane.codex_session_id)));
    assert(row[7] == SqlValueV::Integer(lane.extra_turn_budget));
    assert(row[8] == value_of(opt_int_param(lane.waiting_since_ms)));
    assert(spec_decode_lane(row) == Ok::<LaneRecordV, StoreErrorV>(lane));
}

// ---------------------------------------------------------------------
// One call at a time: what each of the store's lane statements does to a
// lane the tables hold.

/// The row that holds `lane`.
pub open spec fn lane_row(lane: LaneRecordV) -> Seq<SqlValueV> {
    values_of(spec_lane_params(lane))
}

/// The tables hold `lane`, the only lane of its chat and thread.
pub open spec fn holds_lane(t: Tables, lane: LaneRecordV) -> bool {
    sole_lane(t, SqlValueV::Text(lane.lane_id), lane_row(lane))
}

proof fn lemma_lane_row(lane: LaneRecordV)
    ensures
        lane_row(lane).len() == 9,
        lane_row(lane)[0] == SqlValueV::Text(lane.lane_id),
        lane_row(lane)[1] == SqlValueV::Integer(lane.chat_id),
        lane_row(lane)[2] == SqlValueV::Text(lane.thread_key),
        lane_row(lane)[3] == SqlValueV::Text(lane.workspace_id),
        lane_row(lane)[4] == SqlValueV::Text(mode_text(lane.mode)),
        lane_row(lane)[5] == SqlValueV::Text(lane_state_text(lane.state)),
        lane_row(lane)[6] == value_of(opt_text_param(lane.codex_session_id)),
        lane_row(lane)[7] == SqlValueV::Integer(lane.extra_turn_budget),
        lane_row(lane)[8] == value_of(opt_int_param(lane.waiting_since_ms)),
        spec_decode_lane(lane_row(lane)) == Ok::<LaneRecordV, StoreErrorV>(lane),
{
    lemma_mode_text_round_trip(lane.mode, mode_text(lane.mode));
    lemma_lane_state_text_round_trip(lane.state, lane_state_text(lane.state));
}

/// A lane changed into `changed`, whose id, chat and thread are those of
/// `lane`, by a call that set its row: the tables then hold `changed`.
proof fn lemma_lane_replaced(before: Tables, after: Tables, lane: LaneRecordV, changed: LaneRecordV)
    requires
        tables_wf(before),
        holds_lane(before, lane),
        changed.lane_id == lane.lane_id,
        changed.chat_id == lane.chat_id,
        changed.thread_key == lane.thread_key,
        after.lanes == before.lanes.insert(SqlValueV::Text(lane.lane_id), lane_row(changed)),
    ensures
        holds_lane(after, changed),
{
    lemma_lane_row(lane);
    lemma_lane_row(changed);
    assert forall|k: SqlValueV| #[trigger] after.lanes.contains_key(k) && lane_matches(
        after.lanes[k],
        lane_row(changed)[1],
        lane_row(changed)[2],
    ) implies k == SqlValueV::Text(changed.lane_id) by {
        if k != SqlValueV::Text(lane.lane_id) {
            assert(before.lanes.contains_key(k) && lane_matches(before.lanes[k], lane_row(lane)[1], lane_row(lane)[2]));
        }
    }
}

/// A lookup of the chat and thread of a lane the tables hold gives that
/// lane, and changes nothing.
pub proof fn lemma_lookup_finds_held_lane(before: Tables, c: SqlCall, after: Tables, lane: LaneRecordV)
    requires
        tables_wf(before),
        holds_lane(before, lane),
        step(before, c, after),
        c.sql == FIND_LANE_SQL@,
        c.params == seq![SqlParamV::Integer(lane.chat_id), SqlParamV::Text(lane.thread_key)],
        c.outcome !is Failed,
    ensures
        lane_of(c.outcome) == Ok::<Option<LaneRecordV>, StoreErrorV>(Some(lane)),
        holds_lane(after, lane),
{
    lemma_lane_row(lane);
    let row = lane_row(lane);
    let rows = c.outcome->Rows_0;
    assert(before.lanes.contains_key(SqlValueV::Text(lane.lane_id)) && before.lanes[SqlValueV::Text(lane.lane_id)] == row
        && lane_matches(row, row[1], row[2]));
    assert(rows.contains(row));
    assert(rows.contains(rows[0]));
    assert(rows[0] == row);
}

/// A lookup of a chat and thread gives nothing exactly when no lane of
/// that chat and thread is held, and a lane it gives is of that chat and
/// thread.
pub proof fn lemma_lookup_gives_lane_of_keys(before: Tables, c: SqlCall, after: Tables, chat_id: i64, thread_key: Seq<char>)
    requires
        step(before, c, after),
        c.sql == FIND_LANE_SQL@,
        c.params == seq![SqlParamV::Integer(chat_id), SqlParamV::Text(thread_key)],
        c.outcome !is Failed,
    ensures
        after.lanes == before.lanes,
        (lane_of(c.outcome) == Ok::<Option<LaneRecordV>, StoreErrorV>(None)) <==> !exists|k: SqlValueV| #[trigger]
            before.lanes.contains_key(k) && lane_matches(before.lanes[k], SqlValueV::Integer(chat_id), SqlValueV::Text(thread_key)),
        lane_of(c.outcome) matches Ok(Some(l)) ==> l.chat_id == chat_id && l.thread_key == thread_key,
{
    let rows = c.outcome->Rows_0;
    let chat = SqlValueV::Integer(chat_id);
    let key = SqlValueV::Text(thread_key);
    if rows.len() > 0 {
        assert(rows.contains(rows[0]));
    }
    if exists|k: SqlValueV| #[trigger] before.lanes.contains_key(k) && lane_matches(before.lanes[k], chat, key) {
        let k = choose|k: SqlValueV| #[trigger] before.lanes.contains_key(k) && lane_matches(before.lanes[k], chat, key);
        assert(rows.contains(before.lanes[k]));
    }
}

/// The lane `lane` with `state`, the session `codex_session_id` when one
/// is given (its own otherwise), and the waiting time `waiting_since_ms`.
pub open spec fn lane_with_state(
    lane: LaneRecordV,
    state: LaneState,
    codex_session_id: Option<Seq<char>>,
    waiting_since_ms: Option<i64>,
) -> LaneRecordV {
    LaneRecordV {
        lane_id: lane.lane_id,
        chat_id: lane.chat_id,
        thread_key: lane.thread_key,
        workspace_id: lane.workspace_id,
        mode: lane.mode,
        state,
        codex_session_id: if codex_session_id is Some { codex_session_id } else { lane.codex_session_id },
        extra_turn_budget: lane.extra_turn_budget,
        waiting_since_ms,
    }
}

/// Setting the state of a lane the tables hold changes its state and
/// waiting time, and its session only when one is given.
pub proof fn lemma_lane_state_set(
    before: Tables,
    c: SqlCall,
    after: Tables,
    lane: LaneRecordV,
    state: LaneState,
    codex_session_id: Option<Seq<char>>,
    waiting_since_ms: Option<i64>,
)
    requires
        tables_wf(before),
        holds_lane(before, lane),
        step(before, c, after),
        c.sql == UPDATE_LANE_STATE_SQL@,
        c.params == spec_lane_state_params(lane.lane_id, state, codex_session_id, waiting_since_ms),
        c.outcome !is Failed,
    ensures
        holds_lane(after, lane_with_state(lane, state, codex_session_id, waiting_since_ms)),
        changed_of(c.outcome) == Ok::<bool, StoreErrorV>(true),
{
    let changed = lane_with_state(lane, state, codex_session_id, waiting_since_ms);
    lemma_lane_row(lane);
    lemma_lane_row(changed);
    let p = c.params;
    let row = lane_row(lane);
    assert(row.update(5, value_of(p[1])).update(6, if p[2] is Null { row[6] } else { value_of(p[2]) }).update(8, value_of(p[3]))
        =~= lane_row(changed));
    lemma_lane_replaced(before, after, lane, changed);
}

/// The lane `lane`, idle, without a session or a waiting time.
pub open spec fn lane_cleared(lane: LaneRecordV) -> LaneRecordV {
    LaneRecordV { state: LaneState::Idle, codex_session_id: None, waiting_since_ms: None, ..lane }
}

/// Clearing the session of a lane the tables hold makes it idle, without
/// a session or a waiting time, and keeps the rest.
pub proof fn lemma_lane_session_cleared(before: Tables, c: SqlCall, after: Tables, lane: LaneRecordV)
    requires
        tables_wf(before),
        holds_lane(before, lane),
        step(before, c, after),
        c.sql == CLEAR_LANE_SESSION_SQL@,
        c.params == seq![SqlParamV::Text(lane.lane_id)],
        c.outcome !is Failed,
    ensures
        holds_lane(after, lane_cleared(lane)),
        changed_of(c.outcome) == Ok::<bool, StoreErrorV>(true),
{
    let changed = lane_cleared(lane);
    lemma_lane_row(lane);
    lemma_lane_row(changed);
    reveal_strlit("idle");
    let row = lane_row(lane);
    assert(row.update(5, SqlValueV::Text("idle"@)).update(6, SqlValueV::Null).update(8, SqlValueV::Null) =~= lane_row(changed));
    lemma_lane_replaced(before, after, lane, changed);
}

/// The lane `lane` with `mode` and `extra_turn_budget`.
pub open spec fn lane_with_mode(lane: LaneRecordV, mode: LaneMode, extra_turn_budget: i64) -> LaneRecordV {
    LaneRecordV { mode, extra_turn_budget, ..lane }
}

/// The lane `lane` moved to `workspace_id`: idle, without a session or a
/// waiting time.
pub open spec fn lane_moved(lane: LaneRecordV, workspace_id: Seq<char>) -> LaneRecordV {
    LaneRecordV { workspace_id, ..lane_cleared(lane) }
}

/// Setting the mode and budget of a lane the tables hold changes those
/// and keeps the rest.
pub proof fn lemma_lane_mode_set(
    before: Tables,
    c: SqlCall,
    after: Tables,
    lane: LaneRecordV,
    mode: LaneMode,
    extra_turn_budget: i64,
)
    requires
        tables_wf(before),
        holds_lane(before, lane),
        step(before, c, after),
        c.sql == UPDATE_LANE_MODE_SQL@,
        c.params == seq![SqlParamV::Text(lane.lane_id), SqlParamV::Text(mode_text(mode)), SqlParamV::Integer(extra_turn_budget)],
        c.outcome !is Failed,
    ensures
        holds_lane(after, lane_with_mode(lane, mode, extra_turn_budget)),
        changed_of(c.outcome) == Ok::<bool, StoreErrorV>(true),
{
    let changed = lane_with_mode(lane, mode, extra_turn_budget);
    lemma_lane_row(lane);
    lemma_lane_row(changed);
    let row = lane_row(lane);
    assert(row.update(4, SqlValueV::Text(mode_text(mode))).update(7, SqlValueV::Integer(extra_turn_budget)) =~= lane_row(changed));
    lemma_lane_replaced(before, after, lane, changed);
}

/// Moving a lane the tables hold to `workspace_id` makes it idle, without
/// a session or a waiting time, and keeps its mode and budget.
pub proof fn lemma_lane_workspace_set(before: Tables, c: SqlCall, after: Tables, lane: LaneRecordV, workspace_id: Seq<char>)
    requires
        tables_wf(before),
        holds_lane(before, lane),
        step(before, c, after),
        c.sql == UPDATE_LANE_WORKSPACE_SQL@,
        c.params == seq![SqlParamV::Text(lane.lane_id), SqlParamV::Text(workspace_id)],
        c.outcome !is Failed,
    ensures
        holds_lane(after, lane_moved(lane, workspace_id)),
        changed_of(c.outcome) == Ok::<bool, StoreErrorV>(true),
{
    let changed = lane_moved(lane, workspace_id);
    lemma_lane_row(lane);
    lemma_lane_row(changed);
    reveal_strlit("idle");
    let row = lane_row(lane);
    assert(row.update(3, SqlValueV::Text(workspace_id)).update(5, SqlValueV::Text("idle"@)).update(6, SqlValueV::Null).update(
        8,
        SqlValueV::Null,
    ) =~= lane_row(changed));
    lemma_lane_replaced(before, after, lane, changed);
}

// ---------------------------------------------------------------------
// One call at a time: what each of the store's statements on approval
// requests does to a request the tables hold.

/// The row that holds the approval request `a`.
pub open spec fn approval_row(a: ApprovalRequestRecordV) -> Seq<SqlValueV> {
    seq![
        SqlValueV::Text(a.request_id),
        SqlValueV::Text(a.lane_id),
        SqlValueV::Text(a.run_id),
        SqlValueV::Text(a.thread_id),
        SqlValueV::Text(a.turn_id),
        SqlValueV::Text(a.item_id),
        SqlValueV::Text(approval_kind_text(a.request_kind)),
        SqlValueV::Text(a.summary_text),
        SqlValueV::Text(a.raw_payload_json),
        SqlValueV::Text(approval_status_text(a.status)),
        SqlValueV::Integer(a.requested_at_ms),
        value_of(opt_int_param(a.resolved_at_ms)),
        value_of(opt_int_param(a.resolved_by_sender_id)),
        value_of(opt_int_param(a.telegram_message_id)),
    ]
}

/// The tables hold the approval request `a`.
pub open spec fn holds_approval(t: Tables, a: ApprovalRequestRecordV) -> bool {
    t.approvals.contains_key(SqlValueV::Text(a.request_id)) && t.approvals[SqlValueV::Text(a.request_id)] == approval_row(a)
}

proof fn lemma_approval_row(a: ApprovalRequestRecordV)
    ensures
        spec_decode_approval(approval_row(a)) == Ok::<ApprovalRequestRecordV, StoreErrorV>(a),
{
    lemma_approval_kind_text_round_trip(a.request_kind, approval_kind_text(a.request_kind));
    lemma_approval_status_text_round_trip(a.status, approval_status_text(a.status));
}

/// Recording a request under an id the tables do not hold adds it,
/// pending, unresolved and without a message, and changes one row.
pub proof fn lemma_new_approval_recorded(before: Tables, c: SqlCall, after: Tables, request: NewApprovalRequest, now: i64)
    requires
        step(before, c, after),
        !before.approvals.contains_key(SqlValueV::Text(request.request_id@)),
        c.sql == INSERT_APPROVAL_SQL@,
        c.params == spec_approval_params(request, now),
        c.outcome !is Failed,
    ensures
        holds_approval(after, new_approval_record(request, now)),
        changed_of(c.outcome) == Ok::<bool, StoreErrorV>(true),
{
    reveal_strlit("pending");
    assert(inserted_approval_row(c.params) =~= approval_row(new_approval_record(request, now)));
}

/// Recording a request under an id the tables hold changes nothing: the
/// recorded request keeps its status, resolution, message and the rest.
pub proof fn lemma_known_approval_kept(
    before: Tables,
    c: SqlCall,
    after: Tables,
    a: ApprovalRequestRecordV,
    request: NewApprovalRequest,
    now: i64,
)
    requires
        step(before, c, after),
        holds_approval(before, a),
        request.request_id@ == a.request_id,
        c.sql == INSERT_APPROVAL_SQL@,
        c.params == spec_approval_params(request, now),
        c.outcome !is Failed,
    ensures
        after.approvals == before.approvals,
        changed_of(c.outcome) == Ok::<bool, StoreErrorV>(false),
{
}

/// A lookup of a request the tables hold gives it; a lookup of an id they
/// do not hold gives nothing. Neither changes a request.
pub proof fn lemma_lookup_finds_held_approval(before: Tables, c: SqlCall, after: Tables, request_id: Seq<char>)
    requires
        step(before, c, after),
        c.sql == FIND_APPROVAL_SQL@,
        c.params == seq![SqlParamV::Text(request_id)],
        c.outcome !is Failed,
    ensures
        after.approvals == before.approvals,
        forall|a: ApprovalRequestRecordV| a.request_id == request_id && holds_approval(before, a) ==> approval_of(c.outcome)
            == Ok::<Option<ApprovalRequestRecordV>, StoreErrorV>(Some(a)),
        !before.approvals.contains_key(SqlValueV::Text(request_id)) ==> approval_of(c.outcome) == Ok::<
            Option<ApprovalRequestRecordV>,
            StoreErrorV,
        >(None),
{
    assert forall|a: ApprovalRequestRecordV| a.request_id == request_id && holds_approval(before, a) implies approval_of(c.outcome)
        == Ok::<Option<ApprovalRequestRecordV>, StoreErrorV>(Some(a)) by {
        lemma_approval_row(a);
    }
}

/// The request `a` showing in the Telegram message `telegram_message_id`.
pub open spec fn approval_with_message(a: ApprovalRequestRecordV, telegram_message_id: i64) -> ApprovalRequestRecordV {
    ApprovalRequestRecordV { telegram_message_id: Some(telegram_message_id), ..a }
}

/// Setting the message of a request the tables hold records it and keeps
/// the rest.
pub proof fn lemma_approval_message_set(before: Tables, c: SqlCall, after: Tables, a: ApprovalRequestRecordV, telegram_message_id: i64)
    requires
        step(before, c, after),
        holds_approval(before, a),
        c.sql == SET_APPROVAL_MESSAGE_SQL@,
        c.params == seq![SqlParamV::Text(a.request_id), SqlParamV::Integer(telegram_message_id)],
        c.outcome !is Failed,
    ensures
        holds_approval(after, approval_with_message(a, telegram_message_id)),
        changed_of(c.outcome) == Ok::<bool, StoreErrorV>(true),
{
    assert(approval_row(a).update(13, SqlValueV::Integer(telegram_message_id)) =~= approval_row(
        approval_with_message(a, telegram_message_id),
    ));
}

/// The request `a` resolved with `status` at `now` by the sender
/// `resolved_by_sender_id`.
pub open spec fn approval_resolved(
    a: ApprovalRequestRecordV,
    status: ApprovalRequestStatus,
    now: i64,
    resolved_by_sender_id: i64,
) -> ApprovalRequestRecordV {
    ApprovalRequestRecordV { status, resolved_at_ms: Some(now), resolved_by_sender_id: Some(resolved_by_sender_id), ..a }
}

/// Only a pending request is resolved: resolving a pending request the
/// tables hold sets its status, time and sender, and changes one row;
/// resolving one that is not pending changes nothing.
pub proof fn lemma_approval_resolved(
    before: Tables,
    c: SqlCall,
    after: Tables,
    a: ApprovalRequestRecordV,
    status: ApprovalRequestStatus,
    now: i64,
    resolved_by_sender_id: i64,
)
    requires
        step(before, c, after),
        holds_approval(before, a),
        c.sql == RESOLVE_APPROVAL_SQL@,
        c.params == spec_resolve_params(a.request_id, status, now, resolved_by_sender_id),
        c.outcome !is Failed,
    ensures
        a.status == ApprovalRequestStatus::Pending ==> holds_approval(after, approval_resolved(a, status, now, resolved_by_sender_id))
            && changed_of(c.outcome) == Ok::<bool, StoreErrorV>(true),
        a.status != ApprovalRequestStatus::Pending ==> after.approvals == before.approvals && changed_of(c.outcome) == Ok::<
            bool,
            StoreErrorV,
        >(false),
{
    lemma_approval_status_text_round_trip(a.status, "pending"@);
    lemma_approval_status_text_round_trip(ApprovalRequestStatus::Pending, approval_status_text(a.status));
    if a.status == ApprovalRequestStatus::Pending {
        assert(approval_row(a).update(9, SqlValueV::Text(approval_status_text(status))).update(11, SqlValueV::Integer(now)).update(
            12,
            SqlValueV::Integer(resolved_by_sender_id),
        ) =~= approval_row(approval_resolved(a, status, now, resolved_by_sender_id)));
    }
}

// ---------------------------------------------------------------------
// Authorised senders.

/// Recording a sender sets its row, and a lookup of its id then answers
/// whether the status it was recorded with is `active`: only a sender
/// whose latest record is active is authorised.
pub proof fn lemma_sender_recorded(
    before: Tables,
    c: SqlCall,
    after: Tables,
    sender_id: i64,
    platform: Seq<char>,
    display_name: Option<Seq<char>>,
    status: Seq<char>,
    approved_at_ms: i64,
)
    requires
        step(before, c, after),
        c.sql == UPSERT_SENDER_SQL@,
        c.params == spec_sender_params(sender_id, platform, display_name, status, approved_at_ms),
        c.outcome !is Failed,
    ensures
        after.senders.contains_key(SqlValueV::Integer(sender_id)),
        after.senders[SqlValueV::Integer(sender_id)][0] == SqlValueV::Integer(sender_id),
        after.senders[SqlValueV::Integer(sender_id)][3] == SqlValueV::Text(status),
{
}

/// A lookup of the sender `sender_id` answers whether the tables hold it
/// with the status `active`, and changes nothing.
pub proof fn lemma_sender_lookup(before: Tables, c: SqlCall, after: Tables, sender_id: i64)
    requires
        tables_wf(before),
        step(before, c, after),
        c.sql == ACTIVE_SENDER_SQL@,
        c.params == seq![SqlParamV::Integer(sender_id)],
        c.outcome !is Failed,
    ensures
        after.senders == before.senders,
        sender_of(c.outcome) == Ok::<bool, StoreErrorV>(
            before.senders.contains_key(SqlValueV::Integer(sender_id)) && before.senders[SqlValueV::Integer(sender_id)][3]
                == SqlValueV::Text("active"@),
        ),
{
}

// ---------------------------------------------------------------------
// The pending requests of a lane.

/// Every row of `approval_requests` holds a request, under its id.
pub open spec fn holds_requests(t: Tables) -> bool {
    forall|k: SqlValueV| #[trigger] t.approvals.contains_key(k) ==> exists|a: ApprovalRequestRecordV|
        #[trigger] approval_row(a) == t.approvals[k] && k == SqlValueV::Text(a.request_id)
}

/// Rows that each hold a request decode to those requests, in order.
proof fn lemma_rows_decode(rows: Seq<Seq<SqlValueV>>, list: Seq<ApprovalRequestRecordV>)
    requires
        rows.len() == list.len(),
        forall|x: int| 0 <= x < rows.len() ==> #[trigger] rows[x] == approval_row(list[x]),
    ensures
        spec_all_approvals(rows) == Ok::<Seq<ApprovalRequestRecordV>, StoreErrorV>(list),
    decreases rows.len(),
{
    if rows.len() > 0 {
        let fewer = rows.drop_last();
        assert forall|x: int| 0 <= x < fewer.len() implies #[trigger] fewer[x] == approval_row(list.drop_last()[x]) by {
            assert(rows[x] == approval_row(list[x]));
        }
        lemma_rows_decode(fewer, list.drop_last());
        assert(rows[rows.len() - 1] == approval_row(list[list.len() - 1]));
        lemma_approval_row(list.last());
        assert(list.drop_last().push(list.last()) =~= list);
    } else {
        assert(list =~= Seq::<ApprovalRequestRecordV>::empty());
    }
}

/// Two requests with the same row are the same request.
proof fn lemma_approval_row_injective(a: ApprovalRequestRecordV, b: ApprovalRequestRecordV)
    requires
        approval_row(a) == approval_row(b),
    ensures
        a == b,
{
    lemma_approval_row(a);
    lemma_approval_row(b);
}

/// The listing of the pending requests of a lane gives exactly the
/// pending requests of that lane that the tables hold, each once, earliest
/// requested first; it changes nothing.
pub proof fn lemma_pending_requests_listed(before: Tables, c: SqlCall, after: Tables, lane_id: Seq<char>)
    requires
        tables_wf(before),
        holds_requests(before),
        step(before, c, after),
        c.sql == PENDING_APPROVALS_SQL@,
        c.params == seq![SqlParamV::Text(lane_id)],
        c.outcome !is Failed,
    ensures
        after.approvals == before.approvals,
        approvals_of(c.outcome) matches Ok(list) && {
            &&& list.no_duplicates()
            &&& forall|a: ApprovalRequestRecordV| #[trigger] list.contains(a) <==> holds_approval(before, a) && a.lane_id == lane_id
                && a.status == ApprovalRequestStatus::Pending
            &&& forall|x: int, y: int| 0 <= x < y < list.len() ==> #[trigger] list[x].requested_at_ms <= #[trigger] list[y].requested_at_ms
        },
{
    let rows = c.outcome->Rows_0;
    let lane = SqlValueV::Text(lane_id);
    reveal_strlit("pending");
    assert forall|x: int| #![trigger rows[x]] 0 <= x < rows.len() implies exists|a: ApprovalRequestRecordV| #[trigger] approval_row(a)
        == rows[x] by {
        assert(rows.contains(rows[x]));
        let k = choose|k: SqlValueV| #[trigger] before.approvals.contains_key(k) && before.approvals[k] == rows[x] && rows[x][1] == lane
            && rows[x][9] == SqlValueV::Text("pending"@);
        assert(before.approvals.contains_key(k));
    }
    let list = Seq::new(rows.len(), |x: int| choose|a: ApprovalRequestRecordV| approval_row(a) == rows[x]);
    assert forall|x: int| 0 <= x < rows.len() implies #[trigger] rows[x] == approval_row(list[x]) by {
        assert(exists|a: ApprovalRequestRecordV| #[trigger] approval_row(a) == rows[x]);
    }
    lemma_rows_decode(rows, list);
    assert forall|x: int, y: int| #![trigger list[x], list[y]] 0 <= x < y < list.len() implies list[x] != list[y] by {
        assert(rows[x] == approval_row(list[x]));
        assert(rows[y] == approval_row(list[y]));
    }
    assert forall|a: ApprovalRequestRecordV| #[trigger] list.contains(a) <==> holds_approval(before, a) && a.lane_id == lane_id
        && a.status == ApprovalRequestStatus::Pending by {
        lemma_approval_status_text_round_trip(a.status, "pending"@);
        lemma_approval_status_text_round_trip(ApprovalRequestStatus::Pending, approval_status_text(a.status));
        if list.contains(a) {
            let x = choose|x: int| 0 <= x < list.len() && list[x] == a;
            assert(rows[x] == approval_row(a));
            assert(rows.contains(rows[x]));
            let k = choose|k: SqlValueV| #[trigger] before.approvals.contains_key(k) && before.approvals[k] == rows[x] && rows[x][1]
                == lane && rows[x][9] == SqlValueV::Text("pending"@);
            let b = choose|b: ApprovalRequestRecordV| #[trigger] approval_row(b) == before.approvals[k] && k == SqlValueV::Text(b.request_id);
            lemma_approval_row_injective(a, b);
        }
        if holds_approval(before, a) && a.lane_id == lane_id && a.status == ApprovalRequestStatus::Pending {
            let row = approval_row(a);
            assert(before.approvals.contains_key(SqlValueV::Text(a.request_id)) && before.approvals[SqlValueV::Text(a.request_id)] == row
                && row[1] == lane && row[9] == SqlValueV::Text("pending"@));
            assert(rows.contains(row));
            let x = choose|x: int| 0 <= x < rows.len() && rows[x] == row;
            assert(rows[x] == approval_row(list[x]));
            lemma_approval_row_injective(a, list[x]);
            assert(list.contains(a));
        }
    }
    assert forall|x: int, y: int| 0 <= x < y < list.len() implies #[trigger] list[x].requested_at_ms <= #[trigger] list[y].requested_at_ms by {
        assert(rows[x] == approval_row(list[x]));
        assert(rows[y] == approval_row(list[y]));
        assert(rows[x][10] == SqlValueV::Integer(list[x].requested_at_ms));
        assert(rows[y][10] == SqlValueV::Integer(list[y].requested_at_ms));
    }
}

// ---------------------------------------------------------------------
// Runs.

/// Finishing a run the tables hold records how it ended: the time, the
/// exit code, the reason, whether an approval is pending, and the two
/// approval counts; its start stays as it was.
pub proof fn lemma_run_finished(
    before: Tables,
    c: SqlCall,
    after: Tables,
    run_id: Seq<char>,
    now: i64,
    exit_code: Option<i32>,
    completion_reason: Seq<char>,
    approval_pending: bool,
    approval_request_count: i64,
    approval_resolved_count: i64,
)
    requires
        tables_wf(before),
        step(before, c, after),
        before.runs.contains_key(SqlValueV::Text(run_id)),
        c.sql == FINISH_RUN_SQL@,
        c.params == spec_finish_run_params(
            run_id,
            now,
            exit_code,
            completion_reason,
            approval_pending,
            approval_request_count,
            approval_resolved_count,
        ),
        c.outcome !is Failed,
    ensures
        after.runs.contains_key(SqlValueV::Text(run_id)),
        after.runs[SqlValueV::Text(run_id)].subrange(0, 4) == before.runs[SqlValueV::Text(run_id)].subrange(0, 4),
        after.runs[SqlValueV::Text(run_id)].subrange(4, 10) == seq![
            SqlValueV::Integer(now),
            value_of(opt_i32_param(exit_code)),
            SqlValueV::Text(completion_reason),
            SqlValueV::Integer(flag_value(approval_pending)),
            SqlValueV::Integer(approval_request_count),
            SqlValueV::Integer(approval_resolved_count),
        ],
        changed_of(c.outcome) == Ok::<bool, StoreErrorV>(true),
{
    let row = after.runs[SqlValueV::Text(run_id)];
    assert(row.subrange(0, 4) =~= before.runs[SqlValueV::Text(run_id)].subrange(0, 4));
    assert(row.subrange(4, 10) =~= seq![
        SqlValueV::Integer(now),
        value_of(opt_i32_param(exit_code)),
        SqlValueV::Text(completion_reason),
        SqlValueV::Integer(flag_value(approval_pending)),
        SqlValueV::Integer(approval_request_count),
        SqlValueV::Integer(approval_resolved_count),
    ]);
}

// ---------------------------------------------------------------------
// Migrating.

/// `after` is `before` with calls of migration statements only.
pub open spec fn only_migration_calls(before: Seq<SqlCall>, after: Seq<SqlCall>) -> bool {
    &&& before.len() <= after.len()
    &&& after.take(before.len() as int) == before
    &&& forall|k: int| #![trigger after[k]] before.len() <= k < after.len() ==> migration_statement(after[k].sql)
}

proof fn lemma_batch_only_migration(before: Seq<SqlCall>, after: Seq<SqlCall>, sql: Seq<char>, r: Result<(), StoreErrorV>)
    requires
        batch_step(before, after, sql, r),
        migration_statement(sql),
    ensures
        only_migration_calls(before, after),
{
    assert(after.take(before.len() as int) =~= before);
    assert(after[before.len() as int].sql == sql);
}

proof fn lemma_only_migration_chain(a: Seq<SqlCall>, b: Seq<SqlCall>, c: Seq<SqlCall>)
    requires
        only_migration_calls(a, b),
        only_migration_calls(b, c),
    ensures
        only_migration_calls(a, c),
{
    assert(c.take(a.len() as int) =~= c.take(b.len() as int).take(a.len() as int));
    assert forall|k: int| #![trigger c[k]] a.len() <= k < c.len() implies migration_statement(c[k].sql) by {
        if k < b.len() {
            assert(c.take(b.len() as int)[k] == c[k]);
            assert(b[k] == c[k]);
        }
    }
}

proof fn lemma_column_only_migration(
    before: Seq<SqlCall>,
    after: Seq<SqlCall>,
    column: Seq<char>,
    alter: Seq<char>,
    r: Result<(), StoreErrorV>,
)
    requires
        column_step(before, after, "runs"@, column, alter, r),
        migration_statement(alter),
    ensures
        only_migration_calls(before, after),
{
    let listed = after.take(before.len() + 1 as int);
    assert(listed.take(before.len() as int) =~= before);
    assert(listed[before.len() as int].sql == spec_table_info_sql("runs"@));
    assert(only_migration_calls(before, listed));
    if after != listed {
        lemma_batch_only_migration(listed, after, alter, r);
        lemma_only_migration_chain(before, listed, after);
    }
}

/// A migration makes calls of migration statements only.
proof fn lemma_migration_calls(before: Seq<SqlCall>, after: Seq<SqlCall>, r: Result<(), StoreErrorV>)
    requires
        migrated(before, after, r),
    ensures
        only_migration_calls(before, after),
{
    let (s1, r1, s2, r2, s3, r3) = choose|
        s1: Seq<SqlCall>,
        r1: Result<(), StoreErrorV>,
        s2: Seq<SqlCall>,
        r2: Result<(), StoreErrorV>,
        s3: Seq<SqlCall>,
        r3: Result<(), StoreErrorV>,
    | #[trigger] migration_path(before, s1, r1, s2, r2, s3, r3, after, r);
    lemma_batch_only_migration(before, s1, SCHEMA_SQL@, r1);
    if r1 is Ok {
        lemma_column_only_migration(s1, s2, "approval_request_count"@, ADD_REQUEST_COUNT_SQL@, r2);
        lemma_only_migration_chain(before, s1, s2);
        if r2 is Ok {
            lemma_column_only_migration(s2, s3, "approval_resolved_count"@, ADD_RESOLVED_COUNT_SQL@, r3);
            lemma_only_migration_chain(before, s2, s3);
            if r3 is Ok {
                lemma_batch_only_migration(s3, after, APPROVAL_TABLE_SQL@, r);
                lemma_only_migration_chain(before, s3, after);
            }
        }
    }
}

/// Calls of migration statements leave the tables as they were.
proof fn lemma_migration_calls_keep(states: Seq<Tables>, calls: Seq<SqlCall>, a: int, b: int)
    requires
        faithful_run(states, calls),
        0 <= a <= b <= calls.len(),
        forall|k: int| #![trigger calls[k]] a <= k < b ==> migration_statement(calls[k].sql),
    ensures
        states[b] == states[a],
    decreases b - a,
{
    if a < b {
        assert(step(states[a], calls[a], states[a + 1]));
        lemma_migration_calls_keep(states, calls, a + 1, b);
    }
}

/// Migrating keeps every row: on a faithful database, the calls of a
/// migration (the first, or one run again on a store in use) leave the
/// senders, the runs, the seen updates, the lanes and the approval
/// requests as they were.
pub proof fn lemma_migration_keeps_rows(states: Seq<Tables>, calls: Seq<SqlCall>, a: int, r: Result<(), StoreErrorV>)
    requires
        faithful_run(states, calls),
        0 <= a <= calls.len(),
        migrated(calls.take(a), calls, r),
    ensures
        states[calls.len() as int] == states[a],
{
    lemma_migration_calls(calls.take(a), calls, r);
    assert forall|k: int| #![trigger calls[k]] a <= k < calls.len() implies migration_statement(calls[k].sql) by {}
    lemma_migration_calls_keep(states, calls, a, calls.len() as int);
}

} // verus!
