//! The bridge's SQLite store: senders, seen updates, lanes, runs, messages
//! and approval requests.
//!
//! Each operation builds its statement and parameters in a verified
//! function, hands them to SQLite, and decodes what comes back in another
//! verified function. A store keeps a record of every call it makes into
//! SQLite and of what came back; each operation states which calls it adds
//! to the record and how its result follows from their answers. What
//! SQLite answers depends on the database on disk; `tables` says what a
//! faithful database answers, and what follows for the store.

use vstd::prelude::*;
use crate::clock::{new_uuid, now_millis};
use crate::model::{
    ApprovalRequestKind, ApprovalRequestRecord, ApprovalRequestStatus, AuthorizedSender, LaneMode, LaneRecord,
    LaneState, LaneRecordV, ApprovalRequestRecordV, NewApprovalRequest, NewRun, RunRecord, approval_kind_parse, approval_kind_text,
    approval_status_parse, approval_status_text, lane_state_parse, lane_state_text, mode_from_str, mode_parse,
    mode_text, mode_to_str,
};
use crate::sqlite::{Database, SqlParam, SqlValue};
use crate::text::join2;

verus! {

/// Why a store operation failed.
#[derive(Debug)]
pub enum StoreError {
    /// The database could not be opened.
    Open(rusqlite::Error),
    /// SQLite failed to run a statement.
    Sqlite(rusqlite::Error),
    /// A row lacks the column at this index.
    ColumnMissing(usize),
    /// The column at this index holds a value of the wrong type.
    ColumnType(usize),
    /// The text in the column at this index names no known value; the
    /// message says which.
    Conversion { index: usize, message: String },
}

pub enum StoreErrorV {
    Open,
    Sqlite,
    ColumnMissing(int),
    ColumnType(int),
    Conversion(int, Seq<char>),
}

impl View for StoreError {
    type V = StoreErrorV;

    open spec fn view(&self) -> StoreErrorV {
        match self {
            StoreError::Open(_) => StoreErrorV::Open,
            StoreError::Sqlite(_) => StoreErrorV::Sqlite,
            StoreError::ColumnMissing(i) => StoreErrorV::ColumnMissing(*i as int),
            StoreError::ColumnType(i) => StoreErrorV::ColumnType(*i as int),
            StoreError::Conversion { index, message } => StoreErrorV::Conversion(*index as int, message@),
        }
    }
}

pub enum SqlValueV {
    Null,
    Integer(i64),
    Real,
    Text(Seq<char>),
    Blob,
}

pub open spec fn value_view(v: SqlValue) -> SqlValueV {
    match v {
        SqlValue::Null => SqlValueV::Null,
        SqlValue::Integer(i) => SqlValueV::Integer(i),
        SqlValue::Real => SqlValueV::Real,
        SqlValue::Text(t) => SqlValueV::Text(t@),
        SqlValue::Blob => SqlValueV::Blob,
    }
}

pub open spec fn row_view(row: Seq<SqlValue>) -> Seq<SqlValueV> {
    row.map_values(|v: SqlValue| value_view(v))
}

pub enum SqlParamV {
    Null,
    Integer(i64),
    Text(Seq<char>),
}

pub open spec fn param_view(p: SqlParam) -> SqlParamV {
    match p {
        SqlParam::Null => SqlParamV::Null,
        SqlParam::Integer(i) => SqlParamV::Integer(i),
        SqlParam::Text(t) => SqlParamV::Text(t@),
    }
}

pub open spec fn params_view(ps: Seq<SqlParam>) -> Seq<SqlParamV> {
    ps.map_values(|p: SqlParam| param_view(p))
}

/// An optional text as a parameter: the text, or NULL.
pub open spec fn opt_text_param(t: Option<Seq<char>>) -> SqlParamV {
    match t {
        Some(s) => SqlParamV::Text(s),
        None => SqlParamV::Null,
    }
}

/// An optional integer as a parameter: the integer, or NULL.
pub open spec fn opt_int_param(i: Option<i64>) -> SqlParamV {
    match i {
        Some(n) => SqlParamV::Integer(n),
        None => SqlParamV::Null,
    }
}

pub open spec fn opt_view(o: Option<String>) -> Option<Seq<char>> {
    match o {
        Some(s) => Some(s@),
        None => None,
    }
}

pub open spec fn opt_str_view(o: Option<&str>) -> Option<Seq<char>> {
    match o {
        Some(s) => Some(s@),
        None => None,
    }
}

fn text_param(s: &str) -> (r: SqlParam)
    ensures
        param_view(r) == SqlParamV::Text(s@),
{
    SqlParam::Text(s.to_owned())
}

fn opt_str_param(s: Option<&str>) -> (r: SqlParam)
    ensures
        param_view(r) == opt_text_param(opt_str_view(s)),
{
    match s {
        Some(t) => SqlParam::Text(t.to_owned()),
        None => SqlParam::Null,
    }
}

fn opt_string_param(s: &Option<String>) -> (r: SqlParam)
    ensures
        param_view(r) == opt_text_param(opt_view(*s)),
{
    match s {
        Some(t) => SqlParam::Text(t.clone()),
        None => SqlParam::Null,
    }
}

fn opt_int(i: Option<i64>) -> (r: SqlParam)
    ensures
        param_view(r) == opt_int_param(i),
{
    match i {
        Some(n) => SqlParam::Integer(n),
        None => SqlParam::Null,
    }
}

/// Appends a parameter.
fn push_param(params: &mut Vec<SqlParam>, p: SqlParam)
    ensures
        params_view(final(params)@) == params_view(old(params)@).push(param_view(p)),
{
    let ghost before = params@;
    params.push(p);
    assert(params_view(params@) =~= params_view(before).push(param_view(p)));
}


// ---------------------------------------------------------------------
// Reading columns, as `rusqlite` converts them: a text column into a
// string, an integer column into an integer, and NULL into nothing for an
// optional column; any other value is of the wrong type.

pub open spec fn spec_text_at(row: Seq<SqlValueV>, i: int) -> Result<Seq<char>, StoreErrorV> {
    if i < 0 || i >= row.len() {
        Err(StoreErrorV::ColumnMissing(i))
    } else {
        match row[i] {
            SqlValueV::Text(t) => Ok(t),
            _ => Err(StoreErrorV::ColumnType(i)),
        }
    }
}

pub open spec fn spec_opt_text_at(row: Seq<SqlValueV>, i: int) -> Result<Option<Seq<char>>, StoreErrorV> {
    if i < 0 || i >= row.len() {
        Err(StoreErrorV::ColumnMissing(i))
    } else {
        match row[i] {
            SqlValueV::Null => Ok(None),
            SqlValueV::Text(t) => Ok(Some(t)),
            _ => Err(StoreErrorV::ColumnType(i)),
        }
    }
}

pub open spec fn spec_int_at(row: Seq<SqlValueV>, i: int) -> Result<i64, StoreErrorV> {
    if i < 0 || i >= row.len() {
        Err(StoreErrorV::ColumnMissing(i))
    } else {
        match row[i] {
            SqlValueV::Integer(n) => Ok(n),
            _ => Err(StoreErrorV::ColumnType(i)),
        }
    }
}

pub open spec fn spec_opt_int_at(row: Seq<SqlValueV>, i: int) -> Result<Option<i64>, StoreErrorV> {
    if i < 0 || i >= row.len() {
        Err(StoreErrorV::ColumnMissing(i))
    } else {
        match row[i] {
            SqlValueV::Null => Ok(None),
            SqlValueV::Integer(n) => Ok(Some(n)),
            _ => Err(StoreErrorV::ColumnType(i)),
        }
    }
}

pub open spec fn err_view<T>(r: Result<T, StoreError>) -> StoreErrorV
    recommends
        r is Err,
{
    match r {
        Err(e) => e@,
        Ok(_) => StoreErrorV::Sqlite,
    }
}

fn text_at(row: &Vec<SqlValue>, i: usize) -> (r: Result<String, StoreError>)
    ensures
        match (r, spec_text_at(row_view(row@), i as int)) {
            (Ok(t), Ok(u)) => t@ == u,
            (Err(e), Err(f)) => e@ == f,
            _ => false,
        },
{
    if i >= row.len() {
        return Err(StoreError::ColumnMissing(i));
    }
    match &row[i] {
        SqlValue::Text(t) => Ok(t.clone()),
        _ => Err(StoreError::ColumnType(i)),
    }
}

fn opt_text_at(row: &Vec<SqlValue>, i: usize) -> (r: Result<Option<String>, StoreError>)
    ensures
        match (r, spec_opt_text_at(row_view(row@), i as int)) {
            (Ok(t), Ok(u)) => opt_view(t) == u,
            (Err(e), Err(f)) => e@ == f,
            _ => false,
        },
{
    if i >= row.len() {
        return Err(StoreError::ColumnMissing(i));
    }
    match &row[i] {
        SqlValue::Null => Ok(None),
        SqlValue::Text(t) => Ok(Some(t.clone())),
        _ => Err(StoreError::ColumnType(i)),
    }
}

fn int_at(row: &Vec<SqlValue>, i: usize) -> (r: Result<i64, StoreError>)
    ensures
        match (r, spec_int_at(row_view(row@), i as int)) {
            (Ok(t), Ok(u)) => t == u,
            (Err(e), Err(f)) => e@ == f,
            _ => false,
        },
{
    if i >= row.len() {
        return Err(StoreError::ColumnMissing(i));
    }
    match &row[i] {
        SqlValue::Integer(n) => Ok(*n),
        _ => Err(StoreError::ColumnType(i)),
    }
}

fn opt_int_at(row: &Vec<SqlValue>, i: usize) -> (r: Result<Option<i64>, StoreError>)
    ensures
        match (r, spec_opt_int_at(row_view(row@), i as int)) {
            (Ok(t), Ok(u)) => t == u,
            (Err(e), Err(f)) => e@ == f,
            _ => false,
        },
{
    if i >= row.len() {
        return Err(StoreError::ColumnMissing(i));
    }
    match &row[i] {
        SqlValue::Null => Ok(None),
        SqlValue::Integer(n) => Ok(Some(*n)),
        _ => Err(StoreError::ColumnType(i)),
    }
}

/// The lane mode stored in column `i`.
pub open spec fn spec_mode_at(row: Seq<SqlValueV>, i: int) -> Result<LaneMode, StoreErrorV> {
    match spec_text_at(row, i) {
        Err(e) => Err(e),
        Ok(t) => match mode_parse(t) {
            Some(m) => Ok(m),
            None => Err(StoreErrorV::Conversion(i, "unknown lane mode: "@ + t)),
        },
    }
}

/// The lane state stored in column `i`.
pub open spec fn spec_state_at(row: Seq<SqlValueV>, i: int) -> Result<LaneState, StoreErrorV> {
    match spec_text_at(row, i) {
        Err(e) => Err(e),
        Ok(t) => match lane_state_parse(t) {
            Some(m) => Ok(m),
            None => Err(StoreErrorV::Conversion(i, "unknown lane state: "@ + t)),
        },
    }
}

/// The approval request kind stored in column `i`.
pub open spec fn spec_kind_at(row: Seq<SqlValueV>, i: int) -> Result<ApprovalRequestKind, StoreErrorV> {
    match spec_text_at(row, i) {
        Err(e) => Err(e),
        Ok(t) => match approval_kind_parse(t) {
            Some(m) => Ok(m),
            None => Err(StoreErrorV::Conversion(i, "unknown approval request kind: "@ + t)),
        },
    }
}

/// The approval request status stored in column `i`.
pub open spec fn spec_status_at(row: Seq<SqlValueV>, i: int) -> Result<ApprovalRequestStatus, StoreErrorV> {
    match spec_text_at(row, i) {
        Err(e) => Err(e),
        Ok(t) => match approval_status_parse(t) {
            Some(m) => Ok(m),
            None => Err(StoreErrorV::Conversion(i, "unknown approval request status: "@ + t)),
        },
    }
}

fn mode_at(row: &Vec<SqlValue>, i: usize) -> (r: Result<LaneMode, StoreError>)
    ensures
        match (r, spec_mode_at(row_view(row@), i as int)) {
            (Ok(t), Ok(u)) => t == u,
            (Err(e), Err(f)) => e@ == f,
            _ => false,
        },
{
    let t = text_at(row, i)?;
    match mode_from_str(t.as_str()) {
        Ok(m) => Ok(m),
        Err(message) => Err(StoreError::Conversion { index: i, message }),
    }
}

fn state_at(row: &Vec<SqlValue>, i: usize) -> (r: Result<LaneState, StoreError>)
    ensures
        match (r, spec_state_at(row_view(row@), i as int)) {
            (Ok(t), Ok(u)) => t == u,
            (Err(e), Err(f)) => e@ == f,
            _ => false,
        },
{
    let t = text_at(row, i)?;
    match LaneState::from_str(t.as_str()) {
        Ok(m) => Ok(m),
        Err(message) => Err(StoreError::Conversion { index: i, message }),
    }
}

fn kind_at(row: &Vec<SqlValue>, i: usize) -> (r: Result<ApprovalRequestKind, StoreError>)
    ensures
        match (r, spec_kind_at(row_view(row@), i as int)) {
            (Ok(t), Ok(u)) => t == u,
            (Err(e), Err(f)) => e@ == f,
            _ => false,
        },
{
    let t = text_at(row, i)?;
    match ApprovalRequestKind::from_str(t.as_str()) {
        Ok(m) => Ok(m),
        Err(message) => Err(StoreError::Conversion { index: i, message }),
    }
}

fn status_at(row: &Vec<SqlValue>, i: usize) -> (r: Result<ApprovalRequestStatus, StoreError>)
    ensures
        match (r, spec_status_at(row_view(row@), i as int)) {
            (Ok(t), Ok(u)) => t == u,
            (Err(e), Err(f)) => e@ == f,
            _ => false,
        },
{
    let t = text_at(row, i)?;
    match ApprovalRequestStatus::from_str(t.as_str()) {
        Ok(m) => Ok(m),
        Err(message) => Err(StoreError::Conversion { index: i, message }),
    }
}


// ---------------------------------------------------------------------
// Decoding rows.

/// A `lanes` row as selected by `find_lane`: lane_id, chat_id,
/// thread_key, workspace_id, mode, state, codex_session_id,
/// extra_turn_budget, waiting_since_ms. The first column that does not
/// read decides the error.
pub open spec fn spec_decode_lane(row: Seq<SqlValueV>) -> Result<LaneRecordV, StoreErrorV> {
    if spec_text_at(row, 0) is Err { Err(spec_text_at(row, 0)->Err_0) }
    else if spec_int_at(row, 1) is Err { Err(spec_int_at(row, 1)->Err_0) }
    else if spec_text_at(row, 2) is Err { Err(spec_text_at(row, 2)->Err_0) }
    else if spec_text_at(row, 3) is Err { Err(spec_text_at(row, 3)->Err_0) }
    else if spec_mode_at(row, 4) is Err { Err(spec_mode_at(row, 4)->Err_0) }
    else if spec_state_at(row, 5) is Err { Err(spec_state_at(row, 5)->Err_0) }
    else if spec_opt_text_at(row, 6) is Err { Err(spec_opt_text_at(row, 6)->Err_0) }
    else if spec_int_at(row, 7) is Err { Err(spec_int_at(row, 7)->Err_0) }
    else if spec_opt_int_at(row, 8) is Err { Err(spec_opt_int_at(row, 8)->Err_0) }
    else {
        Ok(LaneRecordV {
            lane_id: spec_text_at(row, 0)->Ok_0,
            chat_id: spec_int_at(row, 1)->Ok_0,
            thread_key: spec_text_at(row, 2)->Ok_0,
            workspace_id: spec_text_at(row, 3)->Ok_0,
            mode: spec_mode_at(row, 4)->Ok_0,
            state: spec_state_at(row, 5)->Ok_0,
            codex_session_id: spec_opt_text_at(row, 6)->Ok_0,
            extra_turn_budget: spec_int_at(row, 7)->Ok_0,
            waiting_since_ms: spec_opt_int_at(row, 8)->Ok_0,
        })
    }
}

pub fn decode_lane_row(row: &Vec<SqlValue>) -> (r: Result<LaneRecord, StoreError>)
    ensures
        match (r, spec_decode_lane(row_view(row@))) {
            (Ok(t), Ok(u)) => t@ == u,
            (Err(e), Err(f)) => e@ == f,
            _ => false,
        },
{
    let lane_id = text_at(row, 0)?;
    let chat_id = int_at(row, 1)?;
    let thread_key = text_at(row, 2)?;
    let workspace_id = text_at(row, 3)?;
    let mode = mode_at(row, 4)?;
    let state = state_at(row, 5)?;
    let codex_session_id = opt_text_at(row, 6)?;
    let extra_turn_budget = int_at(row, 7)?;
    let waiting_since_ms = opt_int_at(row, 8)?;
    Ok(LaneRecord {
        lane_id,
        chat_id,
        thread_key,
        workspace_id,
        mode,
        state,
        codex_session_id,
        extra_turn_budget,
        waiting_since_ms,
    })
}

/// An `approval_requests` row as selected by the store: request_id,
/// lane_id, run_id, thread_id, turn_id, item_id, request_kind,
/// summary_text, raw_payload_json, status, requested_at_ms,
/// resolved_at_ms, resolved_by_sender_id, telegram_message_id. The first
/// column that does not read decides the error.
pub open spec fn spec_decode_approval(row: Seq<SqlValueV>) -> Result<ApprovalRequestRecordV, StoreErrorV> {
    if spec_text_at(row, 0) is Err { Err(spec_text_at(row, 0)->Err_0) }
    else if spec_text_at(row, 1) is Err { Err(spec_text_at(row, 1)->Err_0) }
    else if spec_text_at(row, 2) is Err { Err(spec_text_at(row, 2)->Err_0) }
    else if spec_text_at(row, 3) is Err { Err(spec_text_at(row, 3)->Err_0) }
    else if spec_text_at(row, 4) is Err { Err(spec_text_at(row, 4)->Err_0) }
    else if spec_text_at(row, 5) is Err { Err(spec_text_at(row, 5)->Err_0) }
    else if spec_kind_at(row, 6) is Err { Err(spec_kind_at(row, 6)->Err_0) }
    else if spec_text_at(row, 7) is Err { Err(spec_text_at(row, 7)->Err_0) }
    else if spec_text_at(row, 8) is Err { Err(spec_text_at(row, 8)->Err_0) }
    else if spec_status_at(row, 9) is Err { Err(spec_status_at(row, 9)->Err_0) }
    else if spec_int_at(row, 10) is Err { Err(spec_int_at(row, 10)->Err_0) }
    else if spec_opt_int_at(row, 11) is Err { Err(spec_opt_int_at(row, 11)->Err_0) }
    else if spec_opt_int_at(row, 12) is Err { Err(spec_opt_int_at(row, 12)->Err_0) }
    else if spec_opt_int_at(row, 13) is Err { Err(spec_opt_int_at(row, 13)->Err_0) }
    else {
        Ok(ApprovalRequestRecordV {
            request_id: spec_text_at(row, 0)->Ok_0,
            lane_id: spec_text_at(row, 1)->Ok_0,
            run_id: spec_text_at(row, 2)->Ok_0,
            thread_id: spec_text_at(row, 3)->Ok_0,
            turn_id: spec_text_at(row, 4)->Ok_0,
            item_id: spec_text_at(row, 5)->Ok_0,
            request_kind: spec_kind_at(row, 6)->Ok_0,
            summary_text: spec_text_at(row, 7)->Ok_0,
            raw_payload_json: spec_text_at(row, 8)->Ok_0,
            status: spec_status_at(row, 9)->Ok_0,
            requested_at_ms: spec_int_at(row, 10)->Ok_0,
            resolved_at_ms: spec_opt_int_at(row, 11)->Ok_0,
            resolved_by_sender_id: spec_opt_int_at(row, 12)->Ok_0,
            telegram_message_id: spec_opt_int_at(row, 13)->Ok_0,
        })
    }
}

pub fn decode_approval_row(row: &Vec<SqlValue>) -> (r: Result<ApprovalRequestRecord, StoreError>)
    ensures
        match (r, spec_decode_approval(row_view(row@))) {
            (Ok(t), Ok(u)) => t@ == u,
            (Err(e), Err(f)) => e@ == f,
            _ => false,
        },
{
    let request_id = text_at(row, 0)?;
    let lane_id = text_at(row, 1)?;
    let run_id = text_at(row, 2)?;
    let thread_id = text_at(row, 3)?;
    let turn_id = text_at(row, 4)?;
    let item_id = text_at(row, 5)?;
    let request_kind = kind_at(row, 6)?;
    let summary_text = text_at(row, 7)?;
    let raw_payload_json = text_at(row, 8)?;
    let status = status_at(row, 9)?;
    let requested_at_ms = int_at(row, 10)?;
    let resolved_at_ms = opt_int_at(row, 11)?;
    let resolved_by_sender_id = opt_int_at(row, 12)?;
    let telegram_message_id = opt_int_at(row, 13)?;
    Ok(ApprovalRequestRecord {
        request_id,
        lane_id,
        run_id,
        thread_id,
        turn_id,
        item_id,
        request_kind,
        summary_text,
        raw_payload_json,
        status,
        requested_at_ms,
        resolved_at_ms,
        resolved_by_sender_id,
        telegram_message_id,
    })
}


// ---------------------------------------------------------------------
// What a query's rows mean.

pub open spec fn rows_view(rows: Seq<Vec<SqlValue>>) -> Seq<Seq<SqlValueV>> {
    rows.map_values(|r: Vec<SqlValue>| row_view(r@))
}

/// Whether a sender lookup found an active sender: a row whose first
/// column is an integer.
pub open spec fn spec_sender_found(rows: Seq<Seq<SqlValueV>>) -> Result<bool, StoreErrorV> {
    if rows.len() == 0 {
        Ok(false)
    } else {
        match spec_int_at(rows[0], 0) {
            Ok(_) => Ok(true),
            Err(e) => Err(e),
        }
    }
}

pub fn sender_found(rows: &Vec<Vec<SqlValue>>) -> (r: Result<bool, StoreError>)
    ensures
        match (r, spec_sender_found(rows_view(rows@))) {
            (Ok(t), Ok(u)) => t == u,
            (Err(e), Err(f)) => e@ == f,
            _ => false,
        },
{
    if rows.len() == 0 {
        return Ok(false);
    }
    assert(rows_view(rows@)[0] == row_view(rows@[0]@));
    let _id = int_at(&rows[0], 0)?;
    Ok(true)
}

/// The first row of a lookup, decoded as a lane; nothing when no row came
/// back.
pub open spec fn spec_first_lane(rows: Seq<Seq<SqlValueV>>) -> Result<Option<LaneRecordV>, StoreErrorV> {
    if rows.len() == 0 {
        Ok(None)
    } else {
        match spec_decode_lane(rows[0]) {
            Ok(l) => Ok(Some(l)),
            Err(e) => Err(e),
        }
    }
}

pub fn first_lane(rows: &Vec<Vec<SqlValue>>) -> (r: Result<Option<LaneRecord>, StoreError>)
    ensures
        match (r, spec_first_lane(rows_view(rows@))) {
            (Ok(Some(t)), Ok(Some(u))) => t@ == u,
            (Ok(None), Ok(None)) => true,
            (Err(e), Err(f)) => e@ == f,
            _ => false,
        },
{
    if rows.len() == 0 {
        return Ok(None);
    }
    assert(rows_view(rows@)[0] == row_view(rows@[0]@));
    let lane = decode_lane_row(&rows[0])?;
    Ok(Some(lane))
}

/// The first row of a lookup, decoded as an approval request; nothing
/// when no row came back.
pub open spec fn spec_first_approval(rows: Seq<Seq<SqlValueV>>) -> Result<Option<ApprovalRequestRecordV>, StoreErrorV> {
    if rows.len() == 0 {
        Ok(None)
    } else {
        match spec_decode_approval(rows[0]) {
            Ok(l) => Ok(Some(l)),
            Err(e) => Err(e),
        }
    }
}

pub fn first_approval(rows: &Vec<Vec<SqlValue>>) -> (r: Result<Option<ApprovalRequestRecord>, StoreError>)
    ensures
        match (r, spec_first_approval(rows_view(rows@))) {
            (Ok(Some(t)), Ok(Some(u))) => t@ == u,
            (Ok(None), Ok(None)) => true,
            (Err(e), Err(f)) => e@ == f,
            _ => false,
        },
{
    if rows.len() == 0 {
        return Ok(None);
    }
    assert(rows_view(rows@)[0] == row_view(rows@[0]@));
    let request = decode_approval_row(&rows[0])?;
    Ok(Some(request))
}

/// Every row decoded as an approval request, in order; the first row that
/// does not decode decides the error.
pub open spec fn spec_all_approvals(rows: Seq<Seq<SqlValueV>>) -> Result<Seq<ApprovalRequestRecordV>, StoreErrorV>
    decreases rows.len(),
{
    if rows.len() == 0 {
        Ok(Seq::empty())
    } else {
        match spec_all_approvals(rows.drop_last()) {
            Err(e) => Err(e),
            Ok(done) => match spec_decode_approval(rows.last()) {
                Err(e) => Err(e),
                Ok(a) => Ok(done.push(a)),
            },
        }
    }
}

pub open spec fn records_view(v: Seq<ApprovalRequestRecord>) -> Seq<ApprovalRequestRecordV> {
    v.map_values(|a: ApprovalRequestRecord| a@)
}

pub fn all_approvals(rows: &Vec<Vec<SqlValue>>) -> (r: Result<Vec<ApprovalRequestRecord>, StoreError>)
    ensures
        match (r, spec_all_approvals(rows_view(rows@))) {
            (Ok(t), Ok(u)) => records_view(t@) == u,
            (Err(e), Err(f)) => e@ == f,
            _ => false,
        },
{
    let ghost rv = rows_view(rows@);
    let mut out: Vec<ApprovalRequestRecord> = Vec::new();
    assert(records_view(out@) =~= Seq::<ApprovalRequestRecordV>::empty());
    assert(rv.take(0) =~= Seq::<Seq<SqlValueV>>::empty());
    let mut i: usize = 0;
    while i < rows.len()
        invariant
            0 <= i <= rows@.len(),
            rv == rows_view(rows@),
            spec_all_approvals(rv.take(i as int)) == Ok::<Seq<ApprovalRequestRecordV>, StoreErrorV>(records_view(out@)),
        decreases rows@.len() - i,
    {
        assert(rv.take(i as int + 1).drop_last() =~= rv.take(i as int));
        assert(rv.take(i as int + 1).last() == row_view(rows@[i as int]@));
        let a = match decode_approval_row(&rows[i]) {
            Ok(a) => a,
            Err(e) => {
                proof { lemma_all_approvals_stops(rv, i as int + 1); }
                return Err(e);
            },
        };
        let ghost before = out@;
        let ghost av = a@;
        out.push(a);
        assert(records_view(out@) =~= records_view(before).push(av));
        i = i + 1;
    }
    assert(rv.take(rows@.len() as int) =~= rv);
    Ok(out)
}

/// Once a prefix of the rows fails to decode, every longer prefix fails
/// with the same error.
proof fn lemma_all_approvals_stops(rows: Seq<Seq<SqlValueV>>, k: int)
    requires
        0 < k <= rows.len(),
        spec_all_approvals(rows.take(k)) is Err,
    ensures
        spec_all_approvals(rows) == spec_all_approvals(rows.take(k)),
    decreases rows.len() - k,
{
    if k < rows.len() {
        assert(rows.take(k + 1).drop_last() =~= rows.take(k));
        lemma_all_approvals_stops(rows, k + 1);
    } else {
        assert(rows.take(k) =~= rows);
    }
}

/// The column names in the rows of `PRAGMA table_info`, which hold each
/// name in their second column; the first row without a text there
/// decides the error.
pub open spec fn spec_column_names(rows: Seq<Seq<SqlValueV>>) -> Result<Seq<Seq<char>>, StoreErrorV>
    decreases rows.len(),
{
    if rows.len() == 0 {
        Ok(Seq::empty())
    } else {
        match spec_column_names(rows.drop_last()) {
            Err(e) => Err(e),
            Ok(done) => match spec_text_at(rows.last(), 1) {
                Err(e) => Err(e),
                Ok(name) => Ok(done.push(name)),
            },
        }
    }
}

/// Whether the table described by the rows of `PRAGMA table_info` has the
/// column `name`.
pub open spec fn spec_has_column(rows: Seq<Seq<SqlValueV>>, name: Seq<char>) -> Result<bool, StoreErrorV> {
    match spec_column_names(rows) {
        Err(e) => Err(e),
        Ok(names) => Ok(names.contains(name)),
    }
}

proof fn lemma_column_names_stops(rows: Seq<Seq<SqlValueV>>, k: int)
    requires
        0 < k <= rows.len(),
        spec_column_names(rows.take(k)) is Err,
    ensures
        spec_column_names(rows) == spec_column_names(rows.take(k)),
    decreases rows.len() - k,
{
    if k < rows.len() {
        assert(rows.take(k + 1).drop_last() =~= rows.take(k));
        lemma_column_names_stops(rows, k + 1);
    } else {
        assert(rows.take(k) =~= rows);
    }
}

pub fn has_column(rows: &Vec<Vec<SqlValue>>, name: &str) -> (r: Result<bool, StoreError>)
    ensures
        match (r, spec_has_column(rows_view(rows@), name@)) {
            (Ok(t), Ok(u)) => t == u,
            (Err(e), Err(f)) => e@ == f,
            _ => false,
        },
{
    let ghost rv = rows_view(rows@);
    let mut found = false;
    let ghost mut names: Seq<Seq<char>> = Seq::empty();
    let mut i: usize = 0;
    while i < rows.len()
        invariant
            0 <= i <= rows@.len(),
            rv == rows_view(rows@),
            spec_column_names(rv.take(i as int)) == Ok::<Seq<Seq<char>>, StoreErrorV>(names),
            found == names.contains(name@),
        decreases rows@.len() - i,
    {
        assert(rv.take(i as int + 1).drop_last() =~= rv.take(i as int));
        assert(rv.take(i as int + 1).last() == row_view(rows@[i as int]@));
        let column = match text_at(&rows[i], 1) {
            Ok(c) => c,
            Err(e) => {
                proof { lemma_column_names_stops(rv, i as int + 1); }
                return Err(e);
            },
        };
        let same = crate::text::text_eq(column.as_str(), name);
        proof {
            let old_names = names;
            names = names.push(column@);
            assert(names.contains(name@) == (old_names.contains(name@) || column@ == name@)) by {
                if column@ == name@ {
                    assert(names[names.len() - 1] == name@);
                }
                if old_names.contains(name@) {
                    let j = choose|j: int| 0 <= j < old_names.len() && old_names[j] == name@;
                    assert(names[j] == name@);
                }
                if names.contains(name@) {
                    let j = choose|j: int| 0 <= j < names.len() && names[j] == name@;
                    if j < old_names.len() {
                        assert(old_names[j] == name@);
                    }
                }
            }
        }
        found = found || same;
        i = i + 1;
    }
    assert(rv.take(rows@.len() as int) =~= rv);
    Ok(found)
}


// ---------------------------------------------------------------------
// The statements.

/// The tables of the store, created when missing.
pub const SCHEMA_SQL: &'static str = "
CREATE TABLE IF NOT EXISTS schema_migrations (
    version INTEGER PRIMARY KEY,
    applied_at_ms INTEGER NOT NULL
);

CREATE TABLE IF NOT EXISTS authorized_senders (
    sender_id INTEGER PRIMARY KEY,
    platform TEXT NOT NULL,
    display_name TEXT,
    status TEXT NOT NULL,
    approved_at_ms INTEGER NOT NULL
);

CREATE TABLE IF NOT EXISTS lanes (
    lane_id TEXT PRIMARY KEY,
    chat_id INTEGER NOT NULL,
    thread_key TEXT NOT NULL,
    workspace_id TEXT NOT NULL,
    mode TEXT NOT NULL,
    state TEXT NOT NULL,
    codex_session_id TEXT,
    extra_turn_budget INTEGER NOT NULL DEFAULT 0,
    waiting_since_ms INTEGER,
    UNIQUE(chat_id, thread_key)
);

CREATE TABLE IF NOT EXISTS runs (
    run_id TEXT PRIMARY KEY,
    lane_id TEXT NOT NULL,
    run_kind TEXT NOT NULL,
    started_at_ms INTEGER NOT NULL,
    ended_at_ms INTEGER,
    exit_code INTEGER,
    completion_reason TEXT,
    approval_pending INTEGER NOT NULL DEFAULT 0
);

CREATE TABLE IF NOT EXISTS telegram_updates (
    update_id INTEGER PRIMARY KEY,
    chat_id INTEGER NOT NULL,
    sender_id INTEGER,
    update_kind TEXT NOT NULL,
    payload_json TEXT NOT NULL
);

CREATE TABLE IF NOT EXISTS messages (
    id INTEGER PRIMARY KEY AUTOINCREMENT,
    lane_id TEXT NOT NULL,
    run_id TEXT,
    direction TEXT NOT NULL,
    message_kind TEXT NOT NULL,
    telegram_message_id INTEGER,
    body_text TEXT,
    payload_json TEXT
);

INSERT OR IGNORE INTO schema_migrations(version, applied_at_ms)
    VALUES (1, unixepoch('subsec') * 1000);
";

/// Adds the count of approval requests to runs.
pub const ADD_REQUEST_COUNT_SQL: &'static str = "ALTER TABLE runs ADD COLUMN approval_request_count INTEGER NOT NULL DEFAULT 0";

/// Adds the count of resolved approval requests to runs.
pub const ADD_RESOLVED_COUNT_SQL: &'static str = "ALTER TABLE runs ADD COLUMN approval_resolved_count INTEGER NOT NULL DEFAULT 0";

/// The approval requests table, created when missing.
pub const APPROVAL_TABLE_SQL: &'static str = "
CREATE TABLE IF NOT EXISTS approval_requests (
    request_id TEXT PRIMARY KEY,
    lane_id TEXT NOT NULL,
    run_id TEXT NOT NULL,
    thread_id TEXT NOT NULL,
    turn_id TEXT NOT NULL,
    item_id TEXT NOT NULL,
    request_kind TEXT NOT NULL,
    summary_text TEXT NOT NULL,
    raw_payload_json TEXT NOT NULL,
    status TEXT NOT NULL,
    requested_at_ms INTEGER NOT NULL,
    resolved_at_ms INTEGER,
    resolved_by_sender_id INTEGER,
    telegram_message_id INTEGER
);
";

pub const UPSERT_SENDER_SQL: &'static str = "
INSERT INTO authorized_senders(sender_id, platform, display_name, status, approved_at_ms)
VALUES (?1, ?2, ?3, ?4, ?5)
ON CONFLICT(sender_id) DO UPDATE SET
    platform = excluded.platform,
    display_name = excluded.display_name,
    status = excluded.status,
    approved_at_ms = excluded.approved_at_ms
";

pub const ACTIVE_SENDER_SQL: &'static str = "SELECT sender_id FROM authorized_senders WHERE sender_id = ?1 AND status = 'active'";

pub const INSERT_UPDATE_SQL: &'static str = "
INSERT OR IGNORE INTO telegram_updates(update_id, chat_id, sender_id, update_kind, payload_json)
VALUES (?1, ?2, ?3, ?4, ?5)
";

pub const INSERT_LANE_SQL: &'static str = "
INSERT INTO lanes(
    lane_id, chat_id, thread_key, workspace_id, mode, state,
    codex_session_id, extra_turn_budget, waiting_since_ms
)
VALUES (?1, ?2, ?3, ?4, ?5, ?6, ?7, ?8, ?9)
";

pub const FIND_LANE_SQL: &'static str = "
SELECT lane_id, chat_id, thread_key, workspace_id, mode, state,
       codex_session_id, extra_turn_budget, waiting_since_ms
FROM lanes
WHERE chat_id = ?1 AND thread_key = ?2
";

pub const UPDATE_LANE_STATE_SQL: &'static str = "
UPDATE lanes
SET state = ?2,
    codex_session_id = COALESCE(?3, codex_session_id),
    waiting_since_ms = ?4
WHERE lane_id = ?1
";

pub const CLEAR_LANE_SESSION_SQL: &'static str = "
UPDATE lanes
SET state = 'idle',
    codex_session_id = NULL,
    waiting_since_ms = NULL
WHERE lane_id = ?1
";

pub const UPDATE_LANE_MODE_SQL: &'static str = "
UPDATE lanes
SET mode = ?2,
    extra_turn_budget = ?3
WHERE lane_id = ?1
";

pub const UPDATE_LANE_WORKSPACE_SQL: &'static str = "
UPDATE lanes
SET workspace_id = ?2,
    state = 'idle',
    codex_session_id = NULL,
    waiting_since_ms = NULL
WHERE lane_id = ?1
";

pub const INSERT_RUN_SQL: &'static str = "
INSERT INTO runs(run_id, lane_id, run_kind, started_at_ms)
VALUES (?1, ?2, ?3, ?4)
";

pub const FINISH_RUN_SQL: &'static str = "
UPDATE runs
SET ended_at_ms = ?2,
    exit_code = ?3,
    completion_reason = ?4,
    approval_pending = ?5,
    approval_request_count = ?6,
    approval_resolved_count = ?7
WHERE run_id = ?1
";

pub const INSERT_APPROVAL_SQL: &'static str = "
INSERT INTO approval_requests(
    request_id, lane_id, run_id, thread_id, turn_id, item_id,
    request_kind, summary_text, raw_payload_json, status, requested_at_ms
)
VALUES (?1, ?2, ?3, ?4, ?5, ?6, ?7, ?8, ?9, 'pending', ?10)
ON CONFLICT(request_id) DO NOTHING
";

pub const FIND_APPROVAL_SQL: &'static str = "
SELECT request_id, lane_id, run_id, thread_id, turn_id, item_id,
       request_kind, summary_text, raw_payload_json, status,
       requested_at_ms, resolved_at_ms, resolved_by_sender_id, telegram_message_id
FROM approval_requests
WHERE request_id = ?1
";

pub const RESOLVE_APPROVAL_SQL: &'static str = "
UPDATE approval_requests
SET status = ?2,
    resolved_at_ms = ?3,
    resolved_by_sender_id = ?4
WHERE request_id = ?1 AND status = 'pending'
";

pub const SET_APPROVAL_MESSAGE_SQL: &'static str = "UPDATE approval_requests SET telegram_message_id = ?2 WHERE request_id = ?1";

pub const PENDING_APPROVALS_SQL: &'static str = "
SELECT request_id, lane_id, run_id, thread_id, turn_id, item_id,
       request_kind, summary_text, raw_payload_json, status,
       requested_at_ms, resolved_at_ms, resolved_by_sender_id, telegram_message_id
FROM approval_requests
WHERE lane_id = ?1 AND status = 'pending'
ORDER BY requested_at_ms ASC
";

pub const INSERT_MESSAGE_SQL: &'static str = "
INSERT INTO messages(
    lane_id, run_id, direction, message_kind, telegram_message_id, body_text, payload_json
)
VALUES (?1, ?2, ?3, ?4, ?5, ?6, ?7)
";


// ---------------------------------------------------------------------
// The parameters of each statement.

pub open spec fn spec_sender_params(sender_id: i64, platform: Seq<char>, display_name: Option<Seq<char>>, status: Seq<char>, approved_at_ms: i64) -> Seq<SqlParamV> {
    seq![
        SqlParamV::Integer(sender_id),
        SqlParamV::Text(platform),
        opt_text_param(display_name),
        SqlParamV::Text(status),
        SqlParamV::Integer(approved_at_ms),
    ]
}

pub fn sender_params(sender: &AuthorizedSender) -> (r: Vec<SqlParam>)
    ensures
        params_view(r@) == spec_sender_params(sender.sender_id, sender.platform@, opt_view(sender.display_name), sender.status@, sender.approved_at_ms),
{
    let mut p: Vec<SqlParam> = Vec::new();
    push_param(&mut p, SqlParam::Integer(sender.sender_id));
    push_param(&mut p, text_param(sender.platform.as_str()));
    push_param(&mut p, opt_string_param(&sender.display_name));
    push_param(&mut p, text_param(sender.status.as_str()));
    push_param(&mut p, SqlParam::Integer(sender.approved_at_ms));
    assert(params_view(p@) =~= spec_sender_params(sender.sender_id, sender.platform@, opt_view(sender.display_name), sender.status@, sender.approved_at_ms));
    p
}

pub fn single_int_params(value: i64) -> (r: Vec<SqlParam>)
    ensures
        params_view(r@) == seq![SqlParamV::Integer(value)],
{
    let mut p: Vec<SqlParam> = Vec::new();
    push_param(&mut p, SqlParam::Integer(value));
    assert(params_view(p@) =~= seq![SqlParamV::Integer(value)]);
    p
}

pub fn single_text_params(value: &str) -> (r: Vec<SqlParam>)
    ensures
        params_view(r@) == seq![SqlParamV::Text(value@)],
{
    let mut p: Vec<SqlParam> = Vec::new();
    push_param(&mut p, text_param(value));
    assert(params_view(p@) =~= seq![SqlParamV::Text(value@)]);
    p
}

pub open spec fn spec_update_params(update_id: i64, chat_id: i64, sender_id: Option<i64>, update_kind: Seq<char>, payload_json: Seq<char>) -> Seq<SqlParamV> {
    seq![
        SqlParamV::Integer(update_id),
        SqlParamV::Integer(chat_id),
        opt_int_param(sender_id),
        SqlParamV::Text(update_kind),
        SqlParamV::Text(payload_json),
    ]
}

pub fn update_params(update_id: i64, chat_id: i64, sender_id: Option<i64>, update_kind: &str, payload_json: &str) -> (r: Vec<SqlParam>)
    ensures
        params_view(r@) == spec_update_params(update_id, chat_id, sender_id, update_kind@, payload_json@),
{
    let mut p: Vec<SqlParam> = Vec::new();
    push_param(&mut p, SqlParam::Integer(update_id));
    push_param(&mut p, SqlParam::Integer(chat_id));
    push_param(&mut p, opt_int(sender_id));
    push_param(&mut p, text_param(update_kind));
    push_param(&mut p, text_param(payload_json));
    assert(params_view(p@) =~= spec_update_params(update_id, chat_id, sender_id, update_kind@, payload_json@));
    p
}

/// The lane that `get_or_create_lane` creates: idle, with no session and
/// no waiting time.
pub open spec fn spec_new_lane(lane_id: Seq<char>, chat_id: i64, thread_key: Seq<char>, workspace_id: Seq<char>, mode: LaneMode, extra_turn_budget: i64) -> LaneRecordV {
    LaneRecordV {
        lane_id,
        chat_id,
        thread_key,
        workspace_id,
        mode,
        state: LaneState::Idle,
        codex_session_id: None,
        extra_turn_budget,
        waiting_since_ms: None,
    }
}

pub fn new_lane_record(lane_id: String, chat_id: i64, thread_key: &str, workspace_id: &str, mode: LaneMode, extra_turn_budget: i64) -> (r: LaneRecord)
    ensures
        r@ == spec_new_lane(lane_id@, chat_id, thread_key@, workspace_id@, mode, extra_turn_budget),
{
    LaneRecord {
        lane_id,
        chat_id,
        thread_key: thread_key.to_owned(),
        workspace_id: workspace_id.to_owned(),
        mode,
        state: LaneState::Idle,
        codex_session_id: None,
        extra_turn_budget,
        waiting_since_ms: None,
    }
}

/// A lane as the values of a `lanes` row.
pub open spec fn spec_lane_params(lane: LaneRecordV) -> Seq<SqlParamV> {
    seq![
        SqlParamV::Text(lane.lane_id),
        SqlParamV::Integer(lane.chat_id),
        SqlParamV::Text(lane.thread_key),
        SqlParamV::Text(lane.workspace_id),
        SqlParamV::Text(mode_text(lane.mode)),
        SqlParamV::Text(lane_state_text(lane.state)),
        opt_text_param(lane.codex_session_id),
        SqlParamV::Integer(lane.extra_turn_budget),
        opt_int_param(lane.waiting_since_ms),
    ]
}

pub fn lane_params(lane: &LaneRecord) -> (r: Vec<SqlParam>)
    ensures
        params_view(r@) == spec_lane_params(lane@),
{
    let mut p: Vec<SqlParam> = Vec::new();
    push_param(&mut p, text_param(lane.lane_id.as_str()));
    push_param(&mut p, SqlParam::Integer(lane.chat_id));
    push_param(&mut p, text_param(lane.thread_key.as_str()));
    push_param(&mut p, text_param(lane.workspace_id.as_str()));
    push_param(&mut p, text_param(mode_to_str(lane.mode)));
    push_param(&mut p, text_param(lane.state.as_str()));
    push_param(&mut p, opt_string_param(&lane.codex_session_id));
    push_param(&mut p, SqlParam::Integer(lane.extra_turn_budget));
    push_param(&mut p, opt_int(lane.waiting_since_ms));
    assert(params_view(p@) =~= spec_lane_params(lane@));
    p
}

pub fn find_lane_params(chat_id: i64, thread_key: &str) -> (r: Vec<SqlParam>)
    ensures
        params_view(r@) == seq![SqlParamV::Integer(chat_id), SqlParamV::Text(thread_key@)],
{
    let mut p: Vec<SqlParam> = Vec::new();
    push_param(&mut p, SqlParam::Integer(chat_id));
    push_param(&mut p, text_param(thread_key));
    assert(params_view(p@) =~= seq![SqlParamV::Integer(chat_id), SqlParamV::Text(thread_key@)]);
    p
}

/// Since when a lane in `state` waits for a reply: now, for a lane that
/// waits for one; no time otherwise.
pub open spec fn spec_waiting_since(state: LaneState, now: i64) -> Option<i64> {
    if state == LaneState::WaitingReply { Some(now) } else { None }
}

pub open spec fn spec_lane_state_params(lane_id: Seq<char>, state: LaneState, codex_session_id: Option<Seq<char>>, waiting_since_ms: Option<i64>) -> Seq<SqlParamV> {
    seq![
        SqlParamV::Text(lane_id),
        SqlParamV::Text(lane_state_text(state)),
        opt_text_param(codex_session_id),
        opt_int_param(waiting_since_ms),
    ]
}

pub fn lane_state_params(lane_id: &str, state: LaneState, codex_session_id: Option<&str>, waiting_since_ms: Option<i64>) -> (r: Vec<SqlParam>)
    ensures
        params_view(r@) == spec_lane_state_params(lane_id@, state, opt_str_view(codex_session_id), waiting_since_ms),
{
    let mut p: Vec<SqlParam> = Vec::new();
    push_param(&mut p, text_param(lane_id));
    push_param(&mut p, text_param(state.as_str()));
    push_param(&mut p, opt_str_param(codex_session_id));
    push_param(&mut p, opt_int(waiting_since_ms));
    assert(params_view(p@) =~= spec_lane_state_params(lane_id@, state, opt_str_view(codex_session_id), waiting_since_ms));
    p
}

pub fn lane_mode_params(lane_id: &str, mode: LaneMode, extra_turn_budget: i64) -> (r: Vec<SqlParam>)
    ensures
        params_view(r@) == seq![SqlParamV::Text(lane_id@), SqlParamV::Text(mode_text(mode)), SqlParamV::Integer(extra_turn_budget)],
{
    let mut p: Vec<SqlParam> = Vec::new();
    push_param(&mut p, text_param(lane_id));
    push_param(&mut p, text_param(mode_to_str(mode)));
    push_param(&mut p, SqlParam::Integer(extra_turn_budget));
    assert(params_view(p@) =~= seq![SqlParamV::Text(lane_id@), SqlParamV::Text(mode_text(mode)), SqlParamV::Integer(extra_turn_budget)]);
    p
}

pub fn two_text_params(first: &str, second: &str) -> (r: Vec<SqlParam>)
    ensures
        params_view(r@) == seq![SqlParamV::Text(first@), SqlParamV::Text(second@)],
{
    let mut p: Vec<SqlParam> = Vec::new();
    push_param(&mut p, text_param(first));
    push_param(&mut p, text_param(second));
    assert(params_view(p@) =~= seq![SqlParamV::Text(first@), SqlParamV::Text(second@)]);
    p
}

pub open spec fn spec_run_params(run_id: Seq<char>, lane_id: Seq<char>, run_kind: Seq<char>, now: i64) -> Seq<SqlParamV> {
    seq![SqlParamV::Text(run_id), SqlParamV::Text(lane_id), SqlParamV::Text(run_kind), SqlParamV::Integer(now)]
}

pub fn run_params(run_id: &str, lane_id: &str, run_kind: &str, now: i64) -> (r: Vec<SqlParam>)
    ensures
        params_view(r@) == spec_run_params(run_id@, lane_id@, run_kind@, now),
{
    let mut p: Vec<SqlParam> = Vec::new();
    push_param(&mut p, text_param(run_id));
    push_param(&mut p, text_param(lane_id));
    push_param(&mut p, text_param(run_kind));
    push_param(&mut p, SqlParam::Integer(now));
    assert(params_view(p@) =~= spec_run_params(run_id@, lane_id@, run_kind@, now));
    p
}

/// A flag as stored: 1 for true, 0 for false.
pub open spec fn flag_value(b: bool) -> i64 {
    if b { 1 } else { 0 }
}

pub open spec fn opt_i32_param(c: Option<i32>) -> SqlParamV {
    match c {
        Some(n) => SqlParamV::Integer(n as i64),
        None => SqlParamV::Null,
    }
}

pub open spec fn spec_finish_run_params(
    run_id: Seq<char>,
    now: i64,
    exit_code: Option<i32>,
    completion_reason: Seq<char>,
    approval_pending: bool,
    approval_request_count: i64,
    approval_resolved_count: i64,
) -> Seq<SqlParamV> {
    seq![
        SqlParamV::Text(run_id),
        SqlParamV::Integer(now),
        opt_i32_param(exit_code),
        SqlParamV::Text(completion_reason),
        SqlParamV::Integer(flag_value(approval_pending)),
        SqlParamV::Integer(approval_request_count),
        SqlParamV::Integer(approval_resolved_count),
    ]
}

pub fn finish_run_params(
    run_id: &str,
    now: i64,
    exit_code: Option<i32>,
    completion_reason: &str,
    approval_pending: bool,
    approval_request_count: i64,
    approval_resolved_count: i64,
) -> (r: Vec<SqlParam>)
    ensures
        params_view(r@) == spec_finish_run_params(run_id@, now, exit_code, completion_reason@, approval_pending, approval_request_count, approval_resolved_count),
{
    let mut p: Vec<SqlParam> = Vec::new();
    push_param(&mut p, text_param(run_id));
    push_param(&mut p, SqlParam::Integer(now));
    let exit = match exit_code {
        Some(c) => SqlParam::Integer(c as i64),
        None => SqlParam::Null,
    };
    push_param(&mut p, exit);
    push_param(&mut p, text_param(completion_reason));
    push_param(&mut p, SqlParam::Integer(if approval_pending { 1 } else { 0 }));
    push_param(&mut p, SqlParam::Integer(approval_request_count));
    push_param(&mut p, SqlParam::Integer(approval_resolved_count));
    assert(params_view(p@) =~= spec_finish_run_params(run_id@, now, exit_code, completion_reason@, approval_pending, approval_request_count, approval_resolved_count));
    p
}

pub open spec fn spec_approval_params(request: NewApprovalRequest, now: i64) -> Seq<SqlParamV> {
    seq![
        SqlParamV::Text(request.request_id@),
        SqlParamV::Text(request.lane_id@),
        SqlParamV::Text(request.run_id@),
        SqlParamV::Text(request.thread_id@),
        SqlParamV::Text(request.turn_id@),
        SqlParamV::Text(request.item_id@),
        SqlParamV::Text(approval_kind_text(request.request_kind)),
        SqlParamV::Text(request.summary_text@),
        SqlParamV::Text(request.raw_payload_json@),
        SqlParamV::Integer(now),
    ]
}

pub fn approval_params(request: &NewApprovalRequest, now: i64) -> (r: Vec<SqlParam>)
    ensures
        params_view(r@) == spec_approval_params(*request, now),
{
    let mut p: Vec<SqlParam> = Vec::new();
    push_param(&mut p, text_param(request.request_id.as_str()));
    push_param(&mut p, text_param(request.lane_id.as_str()));
    push_param(&mut p, text_param(request.run_id.as_str()));
    push_param(&mut p, text_param(request.thread_id.as_str()));
    push_param(&mut p, text_param(request.turn_id.as_str()));
    push_param(&mut p, text_param(request.item_id.as_str()));
    push_param(&mut p, text_param(request.request_kind.as_str()));
    push_param(&mut p, text_param(request.summary_text.as_str()));
    push_param(&mut p, text_param(request.raw_payload_json.as_str()));
    push_param(&mut p, SqlParam::Integer(now));
    assert(params_view(p@) =~= spec_approval_params(*request, now));
    p
}

pub open spec fn spec_resolve_params(request_id: Seq<char>, status: ApprovalRequestStatus, now: i64, resolved_by_sender_id: i64) -> Seq<SqlParamV> {
    seq![
        SqlParamV::Text(request_id),
        SqlParamV::Text(approval_status_text(status)),
        SqlParamV::Integer(now),
        SqlParamV::Integer(resolved_by_sender_id),
    ]
}

pub fn resolve_params(request_id: &str, status: ApprovalRequestStatus, now: i64, resolved_by_sender_id: i64) -> (r: Vec<SqlParam>)
    ensures
        params_view(r@) == spec_resolve_params(request_id@, status, now, resolved_by_sender_id),
{
    let mut p: Vec<SqlParam> = Vec::new();
    push_param(&mut p, text_param(request_id));
    push_param(&mut p, text_param(status.as_str()));
    push_param(&mut p, SqlParam::Integer(now));
    push_param(&mut p, SqlParam::Integer(resolved_by_sender_id));
    assert(params_view(p@) =~= spec_resolve_params(request_id@, status, now, resolved_by_sender_id));
    p
}

pub fn text_int_params(text: &str, value: i64) -> (r: Vec<SqlParam>)
    ensures
        params_view(r@) == seq![SqlParamV::Text(text@), SqlParamV::Integer(value)],
{
    let mut p: Vec<SqlParam> = Vec::new();
    push_param(&mut p, text_param(text));
    push_param(&mut p, SqlParam::Integer(value));
    assert(params_view(p@) =~= seq![SqlParamV::Text(text@), SqlParamV::Integer(value)]);
    p
}

pub open spec fn spec_message_params(
    lane_id: Seq<char>,
    run_id: Option<Seq<char>>,
    direction: Seq<char>,
    message_kind: Seq<char>,
    telegram_message_id: Option<i64>,
    body_text: Option<Seq<char>>,
    payload_json: Option<Seq<char>>,
) -> Seq<SqlParamV> {
    seq![
        SqlParamV::Text(lane_id),
        opt_text_param(run_id),
        SqlParamV::Text(direction),
        SqlParamV::Text(message_kind),
        opt_int_param(telegram_message_id),
        opt_text_param(body_text),
        opt_text_param(payload_json),
    ]
}

pub fn message_params(
    lane_id: &str,
    run_id: Option<&str>,
    direction: &str,
    message_kind: &str,
    telegram_message_id: Option<i64>,
    body_text: Option<&str>,
    payload_json: Option<&str>,
) -> (r: Vec<SqlParam>)
    ensures
        params_view(r@) == spec_message_params(
            lane_id@,
            opt_str_view(run_id),
            direction@,
            message_kind@,
            telegram_message_id,
            opt_str_view(body_text),
            opt_str_view(payload_json),
        ),
{
    let mut p: Vec<SqlParam> = Vec::new();
    push_param(&mut p, text_param(lane_id));
    push_param(&mut p, opt_str_param(run_id));
    push_param(&mut p, text_param(direction));
    push_param(&mut p, text_param(message_kind));
    push_param(&mut p, opt_int(telegram_message_id));
    push_param(&mut p, opt_str_param(body_text));
    push_param(&mut p, opt_str_param(payload_json));
    assert(params_view(p@) =~= spec_message_params(
        lane_id@,
        opt_str_view(run_id),
        direction@,
        message_kind@,
        telegram_message_id,
        opt_str_view(body_text),
        opt_str_view(payload_json),
    ));
    p
}

/// The statement that lists the columns of `table`.
pub open spec fn spec_table_info_sql(table: Seq<char>) -> Seq<char> {
    "PRAGMA table_info("@ + table + ")"@
}

pub fn table_info_sql(table: &str) -> (r: String)
    ensures
        r@ == spec_table_info_sql(table@),
{
    let mut s = join2("PRAGMA table_info(", table);
    s.append(")");
    s
}


// ---------------------------------------------------------------------
// What the store hands to SQLite, and what comes back.

/// What SQLite gave back for one call.
pub enum SqlOutcome {
    /// The call failed.
    Failed,
    /// A batch of statements ran.
    Done,
    /// A statement ran and changed this many rows.
    Changed(nat),
    /// A query ran and gave these rows.
    Rows(Seq<Seq<SqlValueV>>),
}

/// One call into SQLite: the statement, its parameters, and what came
/// back.
pub struct SqlCall {
    pub sql: Seq<char>,
    pub params: Seq<SqlParamV>,
    pub outcome: SqlOutcome,
}

pub open spec fn sql_call(sql: Seq<char>, params: Seq<SqlParamV>, outcome: SqlOutcome) -> SqlCall {
    SqlCall { sql, params, outcome }
}

/// `after` is `before` with one more call: `sql` with `params`.
pub open spec fn one_more_call(before: Seq<SqlCall>, after: Seq<SqlCall>, sql: Seq<char>, params: Seq<SqlParamV>) -> bool {
    after == before.push(sql_call(sql, params, after.last().outcome))
}

pub open spec fn unit_view(r: Result<(), StoreError>) -> Result<(), StoreErrorV> {
    match r {
        Ok(()) => Ok(()),
        Err(e) => Err(e@),
    }
}

pub open spec fn bool_view(r: Result<bool, StoreError>) -> Result<bool, StoreErrorV> {
    match r {
        Ok(b) => Ok(b),
        Err(e) => Err(e@),
    }
}

pub open spec fn lane_view(r: Result<LaneRecord, StoreError>) -> Result<LaneRecordV, StoreErrorV> {
    match r {
        Ok(l) => Ok(l@),
        Err(e) => Err(e@),
    }
}

pub open spec fn found_lane_view(r: Result<Option<LaneRecord>, StoreError>) -> Result<Option<LaneRecordV>, StoreErrorV> {
    match r {
        Ok(Some(l)) => Ok(Some(l@)),
        Ok(None) => Ok(None),
        Err(e) => Err(e@),
    }
}

pub open spec fn found_approval_view(
    r: Result<Option<ApprovalRequestRecord>, StoreError>,
) -> Result<Option<ApprovalRequestRecordV>, StoreErrorV> {
    match r {
        Ok(Some(a)) => Ok(Some(a@)),
        Ok(None) => Ok(None),
        Err(e) => Err(e@),
    }
}

pub open spec fn approvals_view(r: Result<Vec<ApprovalRequestRecord>, StoreError>) -> Result<Seq<ApprovalRequestRecordV>, StoreErrorV> {
    match r {
        Ok(v) => Ok(records_view(v@)),
        Err(e) => Err(e@),
    }
}

/// What a batch gives its caller: success when SQLite ran it.
pub open spec fn batch_of(o: SqlOutcome) -> Result<(), StoreErrorV> {
    match o {
        SqlOutcome::Done => Ok(()),
        _ => Err(StoreErrorV::Sqlite),
    }
}

/// What a statement run for its effect gives its caller: success when
/// SQLite ran it.
pub open spec fn ran_of(o: SqlOutcome) -> Result<(), StoreErrorV> {
    match o {
        SqlOutcome::Changed(_) => Ok(()),
        _ => Err(StoreErrorV::Sqlite),
    }
}

/// Whether a statement changed a row, when SQLite ran it.
pub open spec fn changed_of(o: SqlOutcome) -> Result<bool, StoreErrorV> {
    match o {
        SqlOutcome::Changed(n) => Ok(n > 0),
        _ => Err(StoreErrorV::Sqlite),
    }
}

/// What a sender lookup gives: whether its rows hold an active sender.
pub open spec fn sender_of(o: SqlOutcome) -> Result<bool, StoreErrorV> {
    match o {
        SqlOutcome::Rows(rows) => spec_sender_found(rows),
        _ => Err(StoreErrorV::Sqlite),
    }
}

/// What a lane lookup gives: its first row decoded as a lane.
pub open spec fn lane_of(o: SqlOutcome) -> Result<Option<LaneRecordV>, StoreErrorV> {
    match o {
        SqlOutcome::Rows(rows) => spec_first_lane(rows),
        _ => Err(StoreErrorV::Sqlite),
    }
}

/// What an approval request lookup gives: its first row decoded.
pub open spec fn approval_of(o: SqlOutcome) -> Result<Option<ApprovalRequestRecordV>, StoreErrorV> {
    match o {
        SqlOutcome::Rows(rows) => spec_first_approval(rows),
        _ => Err(StoreErrorV::Sqlite),
    }
}

/// What a listing of approval requests gives: every row decoded, in order.
pub open spec fn approvals_of(o: SqlOutcome) -> Result<Seq<ApprovalRequestRecordV>, StoreErrorV> {
    match o {
        SqlOutcome::Rows(rows) => spec_all_approvals(rows),
        _ => Err(StoreErrorV::Sqlite),
    }
}

/// Whether a count of changed rows says that a row changed.
pub fn changed(n: usize) -> (b: bool)
    ensures
        b == (n > 0),
{
    n > 0
}

/// `after` is `before` with a batch of `sql`, and `r` is what the batch
/// gave.
pub open spec fn batch_step(before: Seq<SqlCall>, after: Seq<SqlCall>, sql: Seq<char>, r: Result<(), StoreErrorV>) -> bool {
    &&& one_more_call(before, after, sql, Seq::empty())
    &&& (after.last().outcome is Done || after.last().outcome is Failed)
    &&& r == batch_of(after.last().outcome)
}

/// `after` is `before` with the calls that make sure `table` has
/// `column`: the table's columns are listed, and `alter` runs only when
/// the listing lacks the column; `r` is what that gave.
pub open spec fn column_step(
    before: Seq<SqlCall>,
    after: Seq<SqlCall>,
    table: Seq<char>,
    column: Seq<char>,
    alter: Seq<char>,
    r: Result<(), StoreErrorV>,
) -> bool {
    let listed = after.take(before.len() + 1 as int);
    &&& after.len() > before.len()
    &&& one_more_call(before, listed, spec_table_info_sql(table), Seq::empty())
    &&& match listed.last().outcome {
        SqlOutcome::Rows(rows) => match spec_has_column(rows, column) {
            Ok(true) => after == listed && r == Ok::<(), StoreErrorV>(()),
            Ok(false) => batch_step(listed, after, alter, r),
            Err(e) => after == listed && r == Err::<(), StoreErrorV>(e),
        },
        SqlOutcome::Failed => after == listed && r == Err::<(), StoreErrorV>(StoreErrorV::Sqlite),
        _ => false,
    }
}

/// The migration of the store, through the states `s1`, `s2` and `s3`
/// that its steps leave, with the results `r1`, `r2` and `r3`: the tables
/// are created when missing; the two approval counts are added to runs
/// when runs lack them; the approval request table is created when
/// missing. The first step that fails ends it with its error.
pub open spec fn migration_path(
    before: Seq<SqlCall>,
    s1: Seq<SqlCall>,
    r1: Result<(), StoreErrorV>,
    s2: Seq<SqlCall>,
    r2: Result<(), StoreErrorV>,
    s3: Seq<SqlCall>,
    r3: Result<(), StoreErrorV>,
    after: Seq<SqlCall>,
    r: Result<(), StoreErrorV>,
) -> bool {
    &&& batch_step(before, s1, SCHEMA_SQL@, r1)
    &&& if r1 is Err {
        after == s1 && r == r1
    } else {
        &&& column_step(s1, s2, "runs"@, "approval_request_count"@, ADD_REQUEST_COUNT_SQL@, r2)
        &&& if r2 is Err {
            after == s2 && r == r2
        } else {
            &&& column_step(s2, s3, "runs"@, "approval_resolved_count"@, ADD_RESOLVED_COUNT_SQL@, r3)
            &&& if r3 is Err {
                after == s3 && r == r3
            } else {
                batch_step(s3, after, APPROVAL_TABLE_SQL@, r)
            }
        }
    }
}

/// `after` is `before` with the calls of a migration that gave `r`.
pub open spec fn migrated(before: Seq<SqlCall>, after: Seq<SqlCall>, r: Result<(), StoreErrorV>) -> bool {
    exists|s1: Seq<SqlCall>, r1: Result<(), StoreErrorV>, s2: Seq<SqlCall>, r2: Result<(), StoreErrorV>, s3: Seq<SqlCall>, r3: Result<(), StoreErrorV>|
        #[trigger] migration_path(before, s1, r1, s2, r2, s3, r3, after, r)
}

/// `after` is `before` with the insertion of a new lane under the id
/// `id`, and `r` is what that gave: the new lane once SQLite ran it.
pub open spec fn new_lane_inserted(
    before: Seq<SqlCall>,
    after: Seq<SqlCall>,
    id: Seq<char>,
    chat_id: i64,
    thread_key: Seq<char>,
    workspace_id: Seq<char>,
    mode: LaneMode,
    extra_turn_budget: i64,
    r: Result<LaneRecordV, StoreErrorV>,
) -> bool {
    let lane = spec_new_lane(id, chat_id, thread_key, workspace_id, mode, extra_turn_budget);
    &&& id.len() == 36
    &&& one_more_call(before, after, INSERT_LANE_SQL@, spec_lane_params(lane))
    &&& match ran_of(after.last().outcome) {
        Ok(()) => r == Ok::<LaneRecordV, StoreErrorV>(lane),
        Err(e) => r == Err::<LaneRecordV, StoreErrorV>(e),
    }
}

/// `after` is `before` with the calls of `get_or_create_lane`, which gave
/// `r`: the lane is looked up; a lane found is returned as found, with
/// nothing inserted; when none is found, a new lane is inserted under a
/// fresh id and returned.
pub open spec fn lane_got_or_created(
    before: Seq<SqlCall>,
    after: Seq<SqlCall>,
    chat_id: i64,
    thread_key: Seq<char>,
    workspace_id: Seq<char>,
    mode: LaneMode,
    extra_turn_budget: i64,
    r: Result<LaneRecordV, StoreErrorV>,
) -> bool {
    let looked_up = after.take(before.len() + 1 as int);
    &&& after.len() > before.len()
    &&& one_more_call(before, looked_up, FIND_LANE_SQL@, seq![SqlParamV::Integer(chat_id), SqlParamV::Text(thread_key)])
    &&& match lane_of(looked_up.last().outcome) {
        Ok(Some(found)) => after == looked_up && r == Ok::<LaneRecordV, StoreErrorV>(found),
        Err(e) => after == looked_up && r == Err::<LaneRecordV, StoreErrorV>(e),
        Ok(None) => exists|id: Seq<char>|
            #[trigger] new_lane_inserted(looked_up, after, id, chat_id, thread_key, workspace_id, mode, extra_turn_budget, r),
    }
}


/// A lane that `get_or_create_lane` creates, when its lookup found none,
/// is a new lane of the given chat and thread, in the given workspace,
/// with the given mode and budget: idle, without a session or a waiting
/// time, under a fresh 36-character id. The row it inserts holds it so,
/// with the state `idle`.
pub proof fn lemma_created_lane_is_idle(
    before: Seq<SqlCall>,
    after: Seq<SqlCall>,
    chat_id: i64,
    thread_key: Seq<char>,
    workspace_id: Seq<char>,
    mode: LaneMode,
    extra_turn_budget: i64,
    r: Result<LaneRecordV, StoreErrorV>,
)
    requires
        lane_got_or_created(before, after, chat_id, thread_key, workspace_id, mode, extra_turn_budget, r),
        lane_of(after[before.len() as int].outcome) == Ok::<Option<LaneRecordV>, StoreErrorV>(None),
    ensures
        after.len() == before.len() + 2,
        after.last().sql == INSERT_LANE_SQL@,
        after.last().params.len() == 9,
        after.last().params[0] matches SqlParamV::Text(id) && id.len() == 36,
        after.last().params[1] == SqlParamV::Integer(chat_id),
        after.last().params[2] == SqlParamV::Text(thread_key),
        after.last().params[3] == SqlParamV::Text(workspace_id),
        after.last().params[4] == SqlParamV::Text(mode_text(mode)),
        after.last().params[5] == SqlParamV::Text("idle"@),
        after.last().params[6] == SqlParamV::Null,
        after.last().params[7] == SqlParamV::Integer(extra_turn_budget),
        after.last().params[8] == SqlParamV::Null,
        r matches Ok(lane) ==> {
            &&& after.last().params[0] == SqlParamV::Text(lane.lane_id)
            &&& lane.chat_id == chat_id
            &&& lane.thread_key == thread_key
            &&& lane.workspace_id == workspace_id
            &&& lane.mode == mode
            &&& lane.state == LaneState::Idle
            &&& lane.codex_session_id is None
            &&& lane.extra_turn_budget == extra_turn_budget
            &&& lane.waiting_since_ms is None
        },
{
    let looked_up = after.take(before.len() + 1 as int);
    assert(looked_up.last() == after[before.len() as int]);
    let id = choose|id: Seq<char>|
        #[trigger] new_lane_inserted(looked_up, after, id, chat_id, thread_key, workspace_id, mode, extra_turn_budget, r);
    assert(new_lane_inserted(looked_up, after, id, chat_id, thread_key, workspace_id, mode, extra_turn_budget, r));
}

// ---------------------------------------------------------------------
// The store.

/// The bridge's SQLite database. Its view is the record of every call it
/// has made into SQLite, with what came back.
pub struct Store {
    db: Database,
}

impl View for Store {
    type V = Seq<SqlCall>;

    closed spec fn view(&self) -> Seq<SqlCall> {
        self.db@
    }
}

fn sqlite_error(e: rusqlite::Error) -> (r: StoreError)
    ensures
        r == StoreError::Sqlite(e),
        r@ == StoreErrorV::Sqlite,
{
    StoreError::Sqlite(e)
}

impl Store {
    /// Opens the database at `path` and brings its tables up to date.
    /// Fails with `Open` when the database cannot be opened; otherwise
    /// gives what the migration gave, and on success a store whose record
    /// holds the migration's calls alone.
    pub fn open(path: std::path::PathBuf) -> (r: Result<Store, StoreError>)
        ensures
            r matches Ok(s) ==> migrated(Seq::empty(), s@, Ok(())),
            r matches Err(e) ==> e@ is Open || exists|calls: Seq<SqlCall>| #[trigger] migrated(Seq::empty(), calls, Err(e@)),
    {
        let db = match Database::open(&path) {
            Ok(db) => db,
            Err(e) => return Err(StoreError::Open(e)),
        };
        let mut store = Store { db };
        assert(store@ == Seq::<SqlCall>::empty());
        match store.migrate() {
            Ok(()) => Ok(store),
            Err(e) => {
                assert(migrated(Seq::empty(), store@, Err(e@)));
                Err(e)
            },
        }
    }

    /// Runs the statements in `sql`, which take no parameters.
    fn batch(&mut self, sql: &str) -> (r: Result<(), StoreError>)
        ensures
            batch_step(old(self)@, final(self)@, sql@, unit_view(r)),
    {
        match self.db.batch(sql) {
            Ok(()) => Ok(()),
            Err(e) => Err(sqlite_error(e)),
        }
    }

    /// Runs one statement with `params` and gives the number of rows it
    /// changed.
    fn run(&mut self, sql: &str, params: &Vec<SqlParam>) -> (r: Result<usize, StoreError>)
        ensures
            one_more_call(old(self)@, final(self)@, sql@, params_view(params@)),
            match r {
                Ok(n) => final(self)@.last().outcome == SqlOutcome::Changed(n as nat),
                Err(e) => e@ == StoreErrorV::Sqlite && final(self)@.last().outcome == SqlOutcome::Failed,
            },
    {
        match self.db.run(sql, params) {
            Ok(n) => Ok(n),
            Err(e) => Err(sqlite_error(e)),
        }
    }

    /// Runs a query with `params` and reads the first `columns` values of
    /// every row.
    pub fn select(&mut self, sql: &str, params: &Vec<SqlParam>, columns: usize) -> (r: Result<Vec<Vec<SqlValue>>, StoreError>)
        ensures
            one_more_call(old(self)@, final(self)@, sql@, params_view(params@)),
            match r {
                Ok(rows) => final(self)@.last().outcome == SqlOutcome::Rows(rows_view(rows@))
                    && forall|i: int| 0 <= i < rows@.len() ==> #[trigger] rows@[i]@.len() == columns,
                Err(e) => e@ == StoreErrorV::Sqlite && final(self)@.last().outcome == SqlOutcome::Failed,
            },
    {
        match self.db.select(sql, params, columns) {
            Ok(rows) => Ok(rows),
            Err(e) => Err(sqlite_error(e)),
        }
    }

    /// Makes sure `table_name` has the column `column_name`, adding it with
    /// `alter_sql` when it is missing.
    fn ensure_column_exists(&mut self, table_name: &str, column_name: &str, alter_sql: &str) -> (r: Result<(), StoreError>)
        ensures
            column_step(old(self)@, final(self)@, table_name@, column_name@, alter_sql@, unit_view(r)),
    {
        let ghost before = self@;
        let sql = table_info_sql(table_name);
        let no_params: Vec<SqlParam> = Vec::new();
        assert(params_view(no_params@) =~= Seq::<SqlParamV>::empty());
        let listed = self.select(sql.as_str(), &no_params, 2);
        let ghost after_listing = self@;
        assert(after_listing.take(before.len() + 1 as int) =~= after_listing);
        let rows = match listed {
            Ok(rows) => rows,
            Err(e) => return Err(e),
        };
        let exists = has_column(&rows, column_name)?;
        if !exists {
            let r = self.batch(alter_sql);
            assert(self@.take(before.len() + 1 as int) =~= after_listing);
            return r;
        }
        Ok(())
    }

    /// Creates the tables that are missing and adds the approval counts to
    /// runs when they lack them.
    pub fn migrate(&mut self) -> (r: Result<(), StoreError>)
        ensures
            migrated(old(self)@, final(self)@, unit_view(r)),
    {
        let ghost before = self@;
        let r1 = self.batch(SCHEMA_SQL);
        let ghost s1 = self@;
        if let Err(e) = r1 {
            assert(migration_path(before, s1, unit_view(Err(e)), s1, Ok(()), s1, Ok(()), s1, unit_view(Err(e))));
            return Err(e);
        }
        let r2 = self.ensure_column_exists("runs", "approval_request_count", ADD_REQUEST_COUNT_SQL);
        let ghost s2 = self@;
        if let Err(e) = r2 {
            assert(migration_path(before, s1, Ok(()), s2, unit_view(Err(e)), s2, Ok(()), s2, unit_view(Err(e))));
            return Err(e);
        }
        let r3 = self.ensure_column_exists("runs", "approval_resolved_count", ADD_RESOLVED_COUNT_SQL);
        let ghost s3 = self@;
        if let Err(e) = r3 {
            assert(migration_path(before, s1, Ok(()), s2, Ok(()), s3, unit_view(Err(e)), s3, unit_view(Err(e))));
            return Err(e);
        }
        let r = self.batch(APPROVAL_TABLE_SQL);
        assert(migration_path(before, s1, Ok(()), s2, Ok(()), s3, Ok(()), self@, unit_view(r)));
        r
    }

    /// Records `sender`, replacing what was recorded for the same id.
    pub fn upsert_authorized_sender(&mut self, sender: AuthorizedSender) -> (r: Result<(), StoreError>)
        ensures
            one_more_call(
                old(self)@,
                final(self)@,
                UPSERT_SENDER_SQL@,
                spec_sender_params(sender.sender_id, sender.platform@, opt_view(sender.display_name), sender.status@, sender.approved_at_ms),
            ),
            unit_view(r) == ran_of(final(self)@.last().outcome),
    {
        let params = sender_params(&sender);
        self.run(UPSERT_SENDER_SQL, &params)?;
        Ok(())
    }

    /// Whether `sender_id` is recorded with the status `active`.
    pub fn is_authorized_sender(&mut self, sender_id: i64) -> (r: Result<bool, StoreError>)
        ensures
            one_more_call(old(self)@, final(self)@, ACTIVE_SENDER_SQL@, seq![SqlParamV::Integer(sender_id)]),
            bool_view(r) == sender_of(final(self)@.last().outcome),
    {
        let params = single_int_params(sender_id);
        let rows = self.select(ACTIVE_SENDER_SQL, &params, 1)?;
        sender_found(&rows)
    }

    /// Records a Telegram update unless it was seen before; true when it
    /// is new.
    pub fn insert_seen_update(
        &mut self,
        update_id: i64,
        chat_id: i64,
        sender_id: Option<i64>,
        update_kind: &str,
        payload_json: &str,
    ) -> (r: Result<bool, StoreError>)
        ensures
            one_more_call(
                old(self)@,
                final(self)@,
                INSERT_UPDATE_SQL@,
                spec_update_params(update_id, chat_id, sender_id, update_kind@, payload_json@),
            ),
            bool_view(r) == changed_of(final(self)@.last().outcome),
    {
        let params = update_params(update_id, chat_id, sender_id, update_kind, payload_json);
        let inserted = self.run(INSERT_UPDATE_SQL, &params)?;
        Ok(changed(inserted))
    }

    /// The lane of `chat_id` and `thread_key`; when there is none yet, a
    /// new idle lane in `workspace_id` with `mode` and
    /// `extra_turn_budget`, recorded under a fresh id.
    pub fn get_or_create_lane(
        &mut self,
        chat_id: i64,
        thread_key: &str,
        workspace_id: &str,
        mode: LaneMode,
        extra_turn_budget: i64,
    ) -> (r: Result<LaneRecord, StoreError>)
        ensures
            lane_got_or_created(old(self)@, final(self)@, chat_id, thread_key@, workspace_id@, mode, extra_turn_budget, lane_view(r)),
    {
        let ghost before = self@;
        let found = self.find_lane(chat_id, thread_key);
        let ghost looked_up = self@;
        assert(looked_up.take(before.len() + 1 as int) =~= looked_up);
        match found {
            Err(e) => return Err(e),
            Ok(Some(lane)) => return Ok(lane),
            Ok(None) => {},
        }
        let lane = new_lane_record(new_uuid(), chat_id, thread_key, workspace_id, mode, extra_turn_budget);
        let params = lane_params(&lane);
        let inserted = self.run(INSERT_LANE_SQL, &params);
        assert(self@.take(before.len() + 1 as int) =~= looked_up);
        let r = match inserted {
            Ok(_) => Ok(lane),
            Err(e) => Err(e),
        };
        assert(new_lane_inserted(looked_up, self@, lane.lane_id@, chat_id, thread_key@, workspace_id@, mode, extra_turn_budget, lane_view(r)));
        r
    }

    /// The lane of `chat_id` and `thread_key`, if there is one.
    pub fn find_lane(&mut self, chat_id: i64, thread_key: &str) -> (r: Result<Option<LaneRecord>, StoreError>)
        ensures
            one_more_call(old(self)@, final(self)@, FIND_LANE_SQL@, seq![SqlParamV::Integer(chat_id), SqlParamV::Text(thread_key@)]),
            found_lane_view(r) == lane_of(final(self)@.last().outcome),
    {
        let params = find_lane_params(chat_id, thread_key);
        let rows = self.select(FIND_LANE_SQL, &params, 9)?;
        first_lane(&rows)
    }

    /// Sets the state of a lane, and its session when one is given; the
    /// lane waits since now when it waits for a reply, and not otherwise.
    pub fn update_lane_state(&mut self, lane_id: &str, state: LaneState, codex_session_id: Option<&str>) -> (r: Result<(), StoreError>)
        ensures
            exists|now: i64| #[trigger] one_more_call(
                old(self)@,
                final(self)@,
                UPDATE_LANE_STATE_SQL@,
                spec_lane_state_params(lane_id@, state, opt_str_view(codex_session_id), spec_waiting_since(state, now)),
            ),
            unit_view(r) == ran_of(final(self)@.last().outcome),
    {
        let now = now_millis();
        let waiting_since_ms = if state == LaneState::WaitingReply {
            Some(now)
        } else {
            None
        };
        let params = lane_state_params(lane_id, state, codex_session_id, waiting_since_ms);
        let ran = self.run(UPDATE_LANE_STATE_SQL, &params);
        assert(one_more_call(
            old(self)@,
            self@,
            UPDATE_LANE_STATE_SQL@,
            spec_lane_state_params(lane_id@, state, opt_str_view(codex_session_id), spec_waiting_since(state, now)),
        ));
        ran?;
        Ok(())
    }

    /// Makes a lane idle, without a session or a waiting time.
    pub fn clear_lane_session(&mut self, lane_id: &str) -> (r: Result<(), StoreError>)
        ensures
            one_more_call(old(self)@, final(self)@, CLEAR_LANE_SESSION_SQL@, seq![SqlParamV::Text(lane_id@)]),
            unit_view(r) == ran_of(final(self)@.last().outcome),
    {
        let params = single_text_params(lane_id);
        self.run(CLEAR_LANE_SESSION_SQL, &params)?;
        Ok(())
    }

    /// Sets the mode and the extra turn budget of a lane.
    pub fn update_lane_mode(&mut self, lane_id: &str, mode: LaneMode, extra_turn_budget: i64) -> (r: Result<(), StoreError>)
        ensures
            one_more_call(
                old(self)@,
                final(self)@,
                UPDATE_LANE_MODE_SQL@,
                seq![SqlParamV::Text(lane_id@), SqlParamV::Text(mode_text(mode)), SqlParamV::Integer(extra_turn_budget)],
            ),
            unit_view(r) == ran_of(final(self)@.last().outcome),
    {
        let params = lane_mode_params(lane_id, mode, extra_turn_budget);
        self.run(UPDATE_LANE_MODE_SQL, &params)?;
        Ok(())
    }

    /// Moves a lane to `workspace_id`, idle, without a session or a
    /// waiting time.
    pub fn update_lane_workspace(&mut self, lane_id: &str, workspace_id: &str) -> (r: Result<(), StoreError>)
        ensures
            one_more_call(
                old(self)@,
                final(self)@,
                UPDATE_LANE_WORKSPACE_SQL@,
                seq![SqlParamV::Text(lane_id@), SqlParamV::Text(workspace_id@)],
            ),
            unit_view(r) == ran_of(final(self)@.last().outcome),
    {
        let params = two_text_params(lane_id, workspace_id);
        self.run(UPDATE_LANE_WORKSPACE_SQL, &params)?;
        Ok(())
    }

    /// Records a run started now, under a fresh id.
    pub fn insert_run(&mut self, new_run: NewRun) -> (r: Result<RunRecord, StoreError>)
        ensures
            exists|id: Seq<char>, now: i64|
                id.len() == 36 && #[trigger] one_more_call(
                    old(self)@,
                    final(self)@,
                    INSERT_RUN_SQL@,
                    spec_run_params(id, new_run.lane_id@, new_run.run_kind@, now),
                ) && (r matches Ok(run) ==> run.run_id@ == id),
            r matches Ok(run) ==> run.lane_id@ == new_run.lane_id@,
            match r {
                Ok(_) => ran_of(final(self)@.last().outcome) is Ok,
                Err(e) => ran_of(final(self)@.last().outcome) == Err::<(), StoreErrorV>(e@),
            },
    {
        let run = RunRecord { run_id: new_uuid(), lane_id: new_run.lane_id };
        let now = now_millis();
        let params = run_params(run.run_id.as_str(), run.lane_id.as_str(), new_run.run_kind.as_str(), now);
        let ran = self.run(INSERT_RUN_SQL, &params);
        assert(one_more_call(old(self)@, self@, INSERT_RUN_SQL@, spec_run_params(run.run_id@, run.lane_id@, new_run.run_kind@, now)));
        ran?;
        Ok(run)
    }

    /// Records how a run ended, now.
    pub fn finish_run(
        &mut self,
        run_id: &str,
        exit_code: Option<i32>,
        completion_reason: &str,
        approval_pending: bool,
        approval_request_count: i64,
        approval_resolved_count: i64,
    ) -> (r: Result<(), StoreError>)
        ensures
            exists|now: i64| #[trigger] one_more_call(
                old(self)@,
                final(self)@,
                FINISH_RUN_SQL@,
                spec_finish_run_params(
                    run_id@,
                    now,
                    exit_code,
                    completion_reason@,
                    approval_pending,
                    approval_request_count,
                    approval_resolved_count,
                ),
            ),
            unit_view(r) == ran_of(final(self)@.last().outcome),
    {
        let now = now_millis();
        let params = finish_run_params(run_id, now, exit_code, completion_reason, approval_pending, approval_request_count, approval_resolved_count);
        let ran = self.run(FINISH_RUN_SQL, &params);
        assert(one_more_call(
            old(self)@,
            self@,
            FINISH_RUN_SQL@,
            spec_finish_run_params(run_id@, now, exit_code, completion_reason@, approval_pending, approval_request_count, approval_resolved_count),
        ));
        ran?;
        Ok(())
    }

    /// Records an approval request as pending since now, unless one with
    /// the same id is recorded.
    pub fn insert_approval_request(&mut self, request: NewApprovalRequest) -> (r: Result<(), StoreError>)
        ensures
            exists|now: i64| #[trigger] one_more_call(old(self)@, final(self)@, INSERT_APPROVAL_SQL@, spec_approval_params(request, now)),
            unit_view(r) == ran_of(final(self)@.last().outcome),
    {
        let now = now_millis();
        let params = approval_params(&request, now);
        let ran = self.run(INSERT_APPROVAL_SQL, &params);
        assert(one_more_call(old(self)@, self@, INSERT_APPROVAL_SQL@, spec_approval_params(request, now)));
        ran?;
        Ok(())
    }

    /// The approval request recorded under `request_id`, if any.
    pub fn find_approval_request(&mut self, request_id: &str) -> (r: Result<Option<ApprovalRequestRecord>, StoreError>)
        ensures
            one_more_call(old(self)@, final(self)@, FIND_APPROVAL_SQL@, seq![SqlParamV::Text(request_id@)]),
            found_approval_view(r) == approval_of(final(self)@.last().outcome),
    {
        let params = single_text_params(request_id);
        let rows = self.select(FIND_APPROVAL_SQL, &params, 14)?;
        first_approval(&rows)
    }

    /// Resolves a pending approval request with `status`, now, by
    /// `resolved_by_sender_id`; true when it was pending.
    pub fn resolve_approval_request(&mut self, request_id: &str, status: ApprovalRequestStatus, resolved_by_sender_id: i64) -> (r: Result<bool, StoreError>)
        ensures
            exists|now: i64| #[trigger] one_more_call(
                old(self)@,
                final(self)@,
                RESOLVE_APPROVAL_SQL@,
                spec_resolve_params(request_id@, status, now, resolved_by_sender_id),
            ),
            bool_view(r) == changed_of(final(self)@.last().outcome),
    {
        let now = now_millis();
        let params = resolve_params(request_id, status, now, resolved_by_sender_id);
        let ran = self.run(RESOLVE_APPROVAL_SQL, &params);
        assert(one_more_call(old(self)@, self@, RESOLVE_APPROVAL_SQL@, spec_resolve_params(request_id@, status, now, resolved_by_sender_id)));
        let updated = ran?;
        Ok(changed(updated))
    }

    /// Records the Telegram message that shows an approval request.
    pub fn set_approval_request_message_id(&mut self, request_id: &str, telegram_message_id: i64) -> (r: Result<(), StoreError>)
        ensures
            one_more_call(
                old(self)@,
                final(self)@,
                SET_APPROVAL_MESSAGE_SQL@,
                seq![SqlParamV::Text(request_id@), SqlParamV::Integer(telegram_message_id)],
            ),
            unit_view(r) == ran_of(final(self)@.last().outcome),
    {
        let params = text_int_params(request_id, telegram_message_id);
        self.run(SET_APPROVAL_MESSAGE_SQL, &params)?;
        Ok(())
    }

    /// The pending approval requests of a lane, oldest first.
    pub fn list_pending_approval_requests_for_lane(&mut self, lane_id: &str) -> (r: Result<Vec<ApprovalRequestRecord>, StoreError>)
        ensures
            one_more_call(old(self)@, final(self)@, PENDING_APPROVALS_SQL@, seq![SqlParamV::Text(lane_id@)]),
            approvals_view(r) == approvals_of(final(self)@.last().outcome),
    {
        let params = single_text_params(lane_id);
        let rows = self.select(PENDING_APPROVALS_SQL, &params, 14)?;
        all_approvals(&rows)
    }

    /// Records a message of a lane.
    pub fn insert_message(
        &mut self,
        lane_id: &str,
        run_id: Option<&str>,
        direction: &str,
        message_kind: &str,
        telegram_message_id: Option<i64>,
        body_text: Option<&str>,
        payload_json: Option<&str>,
    ) -> (r: Result<(), StoreError>)
        ensures
            one_more_call(
                old(self)@,
                final(self)@,
                INSERT_MESSAGE_SQL@,
                spec_message_params(
                    lane_id@,
                    opt_str_view(run_id),
                    direction@,
                    message_kind@,
                    telegram_message_id,
                    opt_str_view(body_text),
                    opt_str_view(payload_json),
                ),
            ),
            unit_view(r) == ran_of(final(self)@.last().outcome),
    {
        let params = message_params(lane_id, run_id, direction, message_kind, telegram_message_id, body_text, payload_json);
        self.run(INSERT_MESSAGE_SQL, &params)?;
        Ok(())
    }
}

} // verus!
